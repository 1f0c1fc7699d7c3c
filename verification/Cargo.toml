[package]
name = "openstratos"
version = "0.1.0"
edition = "2021"
publish = false

[dependencies]
fern = "=0.3.5"
log = "=0.3.9"
serial = "=0.3.4"
time = "=0.1.45"
# `development` swaps the native GPIO bindings for stubs that print each
# call, so that the program builds off the board. Drop the feature when
# building for the probe.
wiringpi = { version = "=0.2.4", features = ["development"] }
