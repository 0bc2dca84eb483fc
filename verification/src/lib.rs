//! A verified core of a Game-Boy-class handheld emulator: instruction
//! decoding, the register file, the memory-mapped address bus, the
//! fetch-decode-execute engine, and the display-timing state machine.
//!
//! Window creation, input polling and boot-image loading are left to the
//! driver around this crate; everything here is pure, deterministic logic
//! with machine-checked contracts.

pub mod cpu;
pub mod gpu;
pub mod instruction;
pub mod memory_bus;
pub mod registers;
