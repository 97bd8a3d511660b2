//! Device-facing types: the serial port handle and the keyboard decoder.
pub mod keyboard;
pub mod uart;
