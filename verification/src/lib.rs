//! Core of a console emulator: the CPU's memory bus with its stack primitives,
//! and the picture processor's sprite subsystem (object attribute memory, tile
//! decoding and colorization through the master palette).

pub mod cpu;
pub mod nes;
pub mod ppu;
