//! Mission supervisor core of a stratospheric balloon probe: the flight
//! phases and their durable record, the protocol of the cellular modem,
//! and the order of the activities that run during a flight.
//!
//! The library touches no file, pin or serial line. Every operation that
//! needs one is a state machine: it names the next thing to do and is
//! resumed with what came of it. The one thing that the library reads
//! itself is the clock, for the moment of a log entry.

pub mod activity;
pub mod error;
pub mod flight;
pub mod gsm;
pub mod logger;
pub mod recovery;
pub mod state;
pub mod supervisor;
pub mod text;
