//! Core of an emulator for a classic 8-bit game console: an instruction-level
//! CPU interpreter, a memory-mapped bus, a cartridge-image parser, and a
//! cycle-driven graphics unit, with machine-checked contracts.

pub mod assembly;
pub mod bus;
pub mod cartridges;
pub mod cpu;
pub mod joypads;
pub mod memmory;
pub mod ppu;
pub mod render;
pub mod ram;
