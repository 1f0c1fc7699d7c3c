//! The driver of the cellular modem: one serial line shared by text
//! messages, battery telemetry and coarse location.

pub mod types;
pub mod reply;
pub mod session;
pub mod laws;
pub mod trace;
