//! Verified core of the Pico de Gallo USB bridge: wire-protocol types,
//! batch encoding, status mapping, command-line grammar and text output.

pub mod text;
pub mod wire;
pub mod peripherals;
pub mod uart;
pub mod pwm;
pub mod adc;
pub mod onewire;
pub mod device;
pub mod varint;
pub mod batch;
pub mod client;
pub mod status;
pub mod ffi;
pub mod hal;
pub mod pins;
pub mod monitor;
pub mod numbers;
pub mod args;
pub mod display;
pub mod scan;
pub mod cli;
