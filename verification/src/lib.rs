//! Game Boy (DMG) emulation core: an SM83 interpreter, a banked memory map
//! with memory-mapped I/O registers, and a scanline-based picture processor.
//!
//! The host is expected to load a cartridge image into a byte vector, build a
//! [`gb::GB`] from it, and drive [`gb::GB::step`] in a loop, presenting the
//! framebuffer whenever a step reports a completed frame.

pub mod alu;
pub mod arith;
pub mod cpu;
pub mod draw;
pub mod exec;
pub mod flags;
pub mod gb;
pub mod gpu;
pub mod isa;
pub mod memory;
