//! A cycle-accurate core of the Nintendo Entertainment System: a 6502
//! interpreter, a dot-stepped picture processor, and the memory-management
//! layer that routes bus traffic through the cartridge mapper.
//!
//! The host (file loading, windowing, key events) lives outside this crate;
//! the core works on plain bytes and exposes the framebuffer as a byte array.

pub mod apu;
pub mod bits;
pub mod bus;
pub mod cpu;
pub mod cartridge;
pub mod controller;
pub mod input;
pub mod laws;
pub mod machine;
pub mod mmu;
pub mod om;
pub mod op;
pub mod operation;
pub mod ppu;
pub mod table;
