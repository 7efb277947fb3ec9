//! The CPU's address bus: one 16-bit address space over work RAM, the picture
//! processor's registers and program ROM, with the stack built on top of it.

use vstd::prelude::*;
use crate::cpu::Registers;
use crate::nes::Nes;
use crate::ppu::registers::PpuRegisters;

verus! {

/// The backing region that a CPU address decodes to.
#[derive(Clone, Copy, Debug, PartialEq, Eq, Structural)]
pub enum Region {
    /// `0x0000..0x2000`: 2048 bytes of work RAM, repeated every `0x800`.
    WorkRam,
    /// `0x2000..0x4000`: the picture processor's registers.
    PpuRegisters,
    /// `0x4000..0x8000`: nothing is mapped. Reads give 0, writes are dropped.
    Unmapped,
    /// `0x8000..=0xFFFF`: program ROM from its first byte on. Writes are dropped.
    ProgramRom,
}

/// The region of `addr`.
pub open spec fn region_of(addr: u16) -> Region {
    if addr < 0x2000 {
        Region::WorkRam
    } else if addr < 0x4000 {
        Region::PpuRegisters
    } else if addr < 0x8000 {
        Region::Unmapped
    } else {
        Region::ProgramRom
    }
}

/// Decodes `addr` to its region.
pub fn classify(addr: u16) -> (region: Region)
    ensures
        region == region_of(addr),
{
    if addr < 0x2000 {
        Region::WorkRam
    } else if addr < 0x4000 {
        Region::PpuRegisters
    } else if addr < 0x8000 {
        Region::Unmapped
    } else {
        Region::ProgramRom
    }
}

/// Why a stack operation was refused. The stack pointer wraps at both ends of
/// its page, so no operation refuses.
#[derive(Clone, Copy, Debug, PartialEq, Eq, Structural)]
pub enum StackError {
    Overflow,
    Underflow,
}

/// First address of the stack page.
pub const STACK_BASE: u16 = 0x0100;

/// What a bus sees at one moment: the contents of the four regions it borrows.
pub struct BusState {
    pub registers: Registers,
    pub ppu_registers: PpuRegisters,
    pub wram: Seq<u8>,
    pub prg_rom: Seq<u8>,
}

impl BusState {
    /// Work RAM has its 2048 bytes.
    pub open spec fn wf(self) -> bool {
        self.wram.len() == 0x800
    }

    /// Whether a read at `addr` finds a byte: in program ROM, the ROM must reach that far.
    pub open spec fn readable(self, addr: u16) -> bool {
        addr >= 0x8000 ==> addr - 0x8000 < self.prg_rom.len()
    }

    /// The byte at `addr`.
    pub open spec fn get_byte(self, addr: u16) -> u8 {
        match region_of(addr) {
            Region::WorkRam => self.wram[addr as int % 0x800],
            Region::PpuRegisters => self.ppu_registers.read_spec(addr),
            Region::Unmapped => 0,
            Region::ProgramRom => self.prg_rom[addr - 0x8000],
        }
    }

    /// The little-endian word at `addr`: low byte at `addr`, high byte at `addr + 1`.
    pub open spec fn get_word(self, addr: u16) -> int {
        self.get_byte(addr) + 0x100 * self.get_byte((addr + 1) as u16)
    }

    /// The state after `value` was written at `addr`.
    pub open spec fn set_byte(self, addr: u16, value: u8) -> Self {
        match region_of(addr) {
            Region::WorkRam => BusState { wram: self.wram.update(addr as int % 0x800, value), ..self },
            Region::PpuRegisters => BusState {
                ppu_registers: self.ppu_registers.write_spec(addr, value),
                ..self
            },
            _ => self,
        }
    }

    /// The state after the word `value` was written at `addr`, low byte first.
    pub open spec fn set_word(self, addr: u16, value: u16) -> Self {
        self.set_byte(addr, (value % 0x100) as u8).set_byte((addr + 1) as u16, (value / 0x100) as u8)
    }

    /// The address of the stack's next free byte.
    pub open spec fn stack_top(self) -> u16 {
        (STACK_BASE + self.registers.S) as u16
    }

    /// The state with the stack pointer set to `s`.
    pub open spec fn with_s(self, s: u8) -> Self {
        BusState { registers: Registers { S: s, ..self.registers }, ..self }
    }

    /// The state with the program counter set to `pc`.
    pub open spec fn with_pc(self, pc: u16) -> Self {
        BusState { registers: Registers { PC: pc, ..self.registers }, ..self }
    }

    /// The state after `value` was pushed: stored at the stack top, then the
    /// stack pointer moves down by one, from 0 to 255.
    pub open spec fn push_byte(self, value: u8) -> Self {
        self.set_byte(self.stack_top(), value).with_s(prev_s(self.registers.S))
    }

    /// The state after the word `value` was pushed: high byte first.
    pub open spec fn push_word(self, value: u16) -> Self {
        self.push_byte((value / 0x100) as u8).push_byte((value % 0x100) as u8)
    }

    /// The state after a byte was popped: the stack pointer moves up by one,
    /// from 255 to 0.
    pub open spec fn pop(self) -> Self {
        self.with_s(next_s(self.registers.S))
    }

    /// The byte that a pop returns: the one at the stack top after the move.
    pub open spec fn popped_byte(self) -> u8 {
        self.pop().get_byte(self.pop().stack_top())
    }

    /// The word that a pop of two bytes returns: low byte first.
    pub open spec fn popped_word(self) -> int {
        self.popped_byte() + 0x100 * self.pop().popped_byte()
    }
}

/// The stack pointer below `s`; 0 is followed by 255.
pub open spec fn prev_s(s: u8) -> u8 {
    if s == 0 {
        255
    } else {
        (s - 1) as u8
    }
}

/// The stack pointer above `s`; 255 is followed by 0.
pub open spec fn next_s(s: u8) -> u8 {
    if s == 255 {
        0
    } else {
        (s + 1) as u8
    }
}

/// A short-lived view of the machine for the CPU: it borrows the CPU registers,
/// the picture processor's registers and work RAM for writing, and program ROM
/// for reading.
pub struct CpuBus<'a> {
    pub registers: &'a mut Registers,
    pub ppu_registers: &'a mut PpuRegisters,
    pub wram: &'a mut [u8; 0x800],
    pub prg_rom: &'a [u8],
}

impl<'a> View for CpuBus<'a> {
    type V = BusState;

    open spec fn view(&self) -> BusState {
        BusState {
            registers: *self.registers,
            ppu_registers: *self.ppu_registers,
            wram: self.wram@,
            prg_rom: self.prg_rom@,
        }
    }
}

impl<'a> CpuBus<'a> {
    /// Borrows the machine's parts. When the bus is gone, the machine holds what
    /// the bus left in them.
    pub fn new(nes: &'a mut Nes) -> (bus: Self)
        ensures
            bus@.registers == old(nes).cpu_registers,
            bus@.ppu_registers == old(nes).ppu_registers,
            bus@.wram == old(nes).wram@,
            bus@.prg_rom == old(nes).rom.prg_rom@,
            bus@.wf(),
            final(nes).cpu_registers == *final(bus.registers),
            final(nes).ppu_registers == *final(bus.ppu_registers),
            final(nes).wram == *final(bus.wram),
            final(nes).rom == old(nes).rom,
    {
        Self {
            registers: &mut nes.cpu_registers,
            ppu_registers: &mut nes.ppu_registers,
            wram: &mut nes.wram,
            prg_rom: nes.rom.prg_rom.as_slice(),
        }
    }

    /// Reads the byte at `addr`. Nothing is mapped at `0x4000..0x8000`: a read
    /// there gives 0.
    pub fn get_byte(&self, addr: u16) -> (value: u8)
        requires
            self@.readable(addr),
        ensures
            value == self@.get_byte(addr),
    {
        match classify(addr) {
            Region::WorkRam => self.wram[(addr % 0x800) as usize],
            Region::PpuRegisters => self.ppu_registers.read(addr),
            Region::Unmapped => 0,
            Region::ProgramRom => self.prg_rom[(addr - 0x8000) as usize],
        }
    }

    /// Reads the little-endian word at `addr` and `addr + 1`.
    pub fn get_word(&self, addr: u16) -> (value: u16)
        requires
            addr < 0xFFFF,
            self@.readable(addr),
            self@.readable((addr + 1) as u16),
        ensures
            value == self@.get_word(addr),
    {
        let lower: u16 = self.get_byte(addr) as u16;
        let upper: u16 = self.get_byte(addr + 1) as u16;
        assert(upper << 8 == upper * 0x100) by (bit_vector)
            requires
                upper < 0x100,
        ;
        (upper << 8) + lower
    }

    /// Writes `value` at `addr`. Work RAM and the picture processor's registers
    /// take it; a write anywhere else is dropped.
    pub fn set_byte(&mut self, addr: u16, value: u8)
        ensures
            final(self)@ == old(self)@.set_byte(addr, value),
            *final(final(self).registers) == *final(old(self).registers),
            *final(final(self).ppu_registers) == *final(old(self).ppu_registers),
            *final(final(self).wram) == *final(old(self).wram),
    {
        match classify(addr) {
            Region::WorkRam => {
                self.wram[(addr % 0x800) as usize] = value;
            },
            Region::PpuRegisters => {
                self.ppu_registers.write(addr, value);
            },
            Region::Unmapped => {},
            Region::ProgramRom => {},
        }
    }

    /// Writes the word `value`: its low byte at `addr`, its high byte at
    /// `addr + 1`. The two bytes go to two addresses, never both to `addr`, so
    /// that `get_word(addr)` reads `value` back wherever both are writable.
    pub fn set_word(&mut self, addr: u16, value: u16)
        requires
            addr < 0xFFFF,
        ensures
            final(self)@ == old(self)@.set_word(addr, value),
            *final(final(self).registers) == *final(old(self).registers),
            *final(final(self).ppu_registers) == *final(old(self).ppu_registers),
            *final(final(self).wram) == *final(old(self).wram),
    {
        let lower: u8 = (value % 0x100) as u8;
        let upper: u8 = (value / 0x100) as u8;
        self.set_byte(addr, lower);
        self.set_byte(addr + 1, upper);
    }

    /// Pushes `value`: stores it at `0x0100 + S`, then moves `S` down by one.
    /// From 0 the stack pointer goes to 255, and the push still succeeds.
    pub fn push_byte(&mut self, value: u8) -> (result: Result<(), StackError>)
        ensures
            result is Ok,
            final(self)@ == old(self)@.push_byte(value),
            *final(final(self).registers) == *final(old(self).registers),
            *final(final(self).ppu_registers) == *final(old(self).ppu_registers),
            *final(final(self).wram) == *final(old(self).wram),
    {
        let top: u16 = STACK_BASE + self.registers.S as u16;
        self.set_byte(top, value);
        self.registers.S = self.registers.S.wrapping_sub(1);
        Ok(())
    }

    /// Pushes the word `value`, high byte first, so that the low byte ends up
    /// on top.
    pub fn push_word(&mut self, value: u16) -> (result: Result<(), StackError>)
        ensures
            result is Ok,
            final(self)@ == old(self)@.push_word(value),
            *final(final(self).registers) == *final(old(self).registers),
            *final(final(self).ppu_registers) == *final(old(self).ppu_registers),
            *final(final(self).wram) == *final(old(self).wram),
    {
        let upper: u8 = (value / 0x100) as u8;
        let lower: u8 = (value % 0x100) as u8;
        self.push_byte(upper)?;
        self.push_byte(lower)
    }

    /// Pops a byte: moves `S` up by one, then reads at `0x0100 + S`. From 255
    /// the stack pointer goes to 0.
    pub fn pop_byte(&mut self) -> (value: u8)
        ensures
            value == old(self)@.popped_byte(),
            final(self)@ == old(self)@.pop(),
            *final(final(self).registers) == *final(old(self).registers),
            *final(final(self).ppu_registers) == *final(old(self).ppu_registers),
            *final(final(self).wram) == *final(old(self).wram),
    {
        self.registers.S = self.registers.S.wrapping_add(1);
        self.get_byte(STACK_BASE + self.registers.S as u16)
    }

    /// Pops a word: the low byte first, then the high byte.
    pub fn pop_word(&mut self) -> (value: u16)
        ensures
            value == old(self)@.popped_word(),
            final(self)@ == old(self)@.pop().pop(),
            *final(final(self).registers) == *final(old(self).registers),
            *final(final(self).ppu_registers) == *final(old(self).ppu_registers),
            *final(final(self).wram) == *final(old(self).wram),
    {
        let lower: u16 = self.pop_byte() as u16;
        let upper: u16 = self.pop_byte() as u16;
        assert(upper << 8 == upper * 0x100) by (bit_vector)
            requires
                upper < 0x100,
        ;
        (upper << 8) + lower
    }

    /// Reads the byte at the program counter and moves the counter on by one.
    pub fn increment_byte(&mut self) -> (value: u8)
        requires
            old(self)@.registers.PC < 0xFFFF,
            old(self)@.readable(old(self)@.registers.PC),
        ensures
            value == old(self)@.get_byte(old(self)@.registers.PC),
            final(self)@ == old(self)@.with_pc((old(self)@.registers.PC + 1) as u16),
            *final(final(self).registers) == *final(old(self).registers),
            *final(final(self).ppu_registers) == *final(old(self).ppu_registers),
            *final(final(self).wram) == *final(old(self).wram),
    {
        let byte = self.get_byte(self.registers.PC);
        self.registers.PC += 1;
        byte
    }

    /// Reads the word at the program counter and moves the counter on by two.
    pub fn increment_word(&mut self) -> (value: u16)
        requires
            old(self)@.registers.PC < 0xFFFE,
            old(self)@.readable(old(self)@.registers.PC),
            old(self)@.readable((old(self)@.registers.PC + 1) as u16),
        ensures
            value == old(self)@.get_word(old(self)@.registers.PC),
            final(self)@ == old(self)@.with_pc((old(self)@.registers.PC + 2) as u16),
            *final(final(self).registers) == *final(old(self).registers),
            *final(final(self).ppu_registers) == *final(old(self).ppu_registers),
            *final(final(self).wram) == *final(old(self).wram),
    {
        let word = self.get_word(self.registers.PC);
        self.registers.PC += 2;
        word
    }
}

/// Work RAM repeats every `0x800` bytes below `0x2000`: a byte written at one
/// address is read back at every address with the same offset.
pub proof fn lemma_ram_mirroring(state: BusState, addr1: u16, addr2: u16, value: u8)
    requires
        state.wf(),
        addr1 < 0x2000,
        addr2 < 0x2000,
        addr1 % 0x800 == addr2 % 0x800,
    ensures
        state.set_byte(addr1, value).get_byte(addr2) == value,
{
}

/// A word read is the byte at `addr` or-ed with the byte at `addr + 1` shifted
/// left by eight.
pub proof fn lemma_word_composition(state: BusState, addr: u16)
    requires
        addr < 0xFFFF,
    ensures
        state.get_word(addr) == (state.get_byte(addr) as u16) | ((state.get_byte(
            (addr + 1) as u16,
        ) as u16) << 8),
{
    let low = state.get_byte(addr) as u16;
    let high = state.get_byte((addr + 1) as u16) as u16;
    assert(low + 0x100 * high == low | (high << 8)) by (bit_vector)
        requires
            low < 0x100,
            high < 0x100,
    ;
}

/// A word written in work RAM is read back from the same address.
pub proof fn lemma_word_round_trip(state: BusState, addr: u16, value: u16)
    requires
        state.wf(),
        addr < 0x1FFF,
    ensures
        state.set_word(addr, value).get_word(addr) == value,
{
}

/// A pop after a push returns the pushed byte and restores the stack pointer,
/// from any stack pointer.
pub proof fn lemma_push_pop_byte(state: BusState, value: u8)
    requires
        state.wf(),
    ensures
        state.push_byte(value).popped_byte() == value,
        state.push_byte(value).pop().registers == state.registers,
        state.push_byte(value).pop() == state.set_byte(state.stack_top(), value),
{
}

/// A word pop after a word push returns the pushed word and restores the stack
/// pointer, from any stack pointer.
pub proof fn lemma_push_pop_word(state: BusState, value: u16)
    requires
        state.wf(),
    ensures
        state.push_word(value).popped_word() == value,
        state.push_word(value).pop().pop().registers == state.registers,
{
    let high = (value / 0x100) as u8;
    let low = (value % 0x100) as u8;
    let first = state.push_byte(high);
    lemma_push_pop_byte(first, low);
    lemma_push_pop_byte(state, high);
}

} // verus!
