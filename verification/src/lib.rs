//! Cycle-stepped core of an 8-bit handheld game console: a CPU interpreter,
//! a memory-mapped address router, a free-running timer and a scanline-based
//! pixel pipeline, with machine-checked contracts for every operation.

pub mod cartridge;
pub mod cartridge_info;
pub mod cpu;
pub mod decode;
pub mod errors;
pub mod instructions;
pub mod joypad;
pub mod mbc;
pub mod mmu;
pub mod palette;
pub mod ppu;
pub mod registers;
mod text;
pub mod timer;
