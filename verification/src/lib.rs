//! A register-machine bytecode interpreter that drives a strip of
//! addressable LEDs.
//!
//! The crate decodes a flat byte stream into typed operations, maintains a
//! register bank of mixed widths, a sparse memory store and a label table,
//! and runs a program-counter-driven execution loop.  Commands for the LED
//! hardware (state changes and colors) are framed with a checksum and
//! recorded on a command log; a caller drives the actual transport.

pub mod assembler;
pub mod ledstrip_controller;
pub mod registers;
pub mod runtime;
pub mod tokens;
