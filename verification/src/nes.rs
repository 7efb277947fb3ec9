//! The machine state that lives for a whole session.

use vstd::prelude::*;
use crate::cpu::Registers;
use crate::ppu::registers::PpuRegisters;

verus! {

/// Cartridge memory. Neither part is ever written.
#[derive(Debug)]
pub struct Rom {
    /// Program code, mapped from CPU address `0x8000` upwards.
    pub prg_rom: Vec<u8>,
    /// Tile memory: records of 16 bytes.
    pub chr_rom: Vec<u8>,
}

/// The whole machine. A `CpuBus` borrows its parts for one access window.
#[derive(Debug)]
pub struct Nes {
    pub cpu_registers: Registers,
    pub ppu_registers: PpuRegisters,
    /// Work RAM: 2048 bytes.
    pub wram: [u8; 0x800],
    pub rom: Rom,
}

} // verus!
