//! Object attribute memory: 64 sprite descriptors of four bytes each, reached
//! byte by byte through the OAM address and data registers.

use vstd::prelude::*;
use crate::ppu::registers::{PpuRegisters, RegisterIO};

verus! {

/// The bits of an attribute byte that carry a field.
pub const ATTRIBUTE_MASK: u8 = 0xE3;

/// The attribute byte of a sprite, unpacked.
#[derive(Copy, Clone, Debug, PartialEq, Eq, Structural)]
pub struct SpriteAttribute {
    pub vertical_flip: bool,
    pub horizontal_flip: bool,
    pub hide: bool,
    pub palette: u8,
}

impl SpriteAttribute {
    /// The palette selector has two bits.
    pub open spec fn wf(self) -> bool {
        self.palette < 4
    }

    /// The attribute that a byte stands for. Bits outside the mask are dropped.
    pub open spec fn decode(bits: u8) -> Self {
        SpriteAttribute {
            vertical_flip: bits & 0x80 == 0x80,
            horizontal_flip: bits & 0x40 == 0x40,
            hide: bits & 0x20 == 0x20,
            palette: bits & 0x03,
        }
    }

    /// The byte that stands for an attribute.
    pub open spec fn encode(self) -> int {
        (if self.vertical_flip { 0x80int } else { 0 })
            + (if self.horizontal_flip { 0x40int } else { 0 })
            + (if self.hide { 0x20int } else { 0 })
            + self.palette
    }

    /// The attribute of a sprite that was never written: hidden, not flipped,
    /// palette 0.
    pub open spec fn hidden() -> Self {
        SpriteAttribute { vertical_flip: false, horizontal_flip: false, hide: true, palette: 0 }
    }

    /// Unpacks an attribute byte.
    pub fn from_u8(bits: u8) -> (attr: Self)
        ensures
            attr == Self::decode(bits),
            attr.wf(),
    {
        assert(bits & 0x03 < 4) by (bit_vector);
        Self {
            vertical_flip: bits & 0x80 == 0x80,
            horizontal_flip: bits & 0x40 == 0x40,
            hide: bits & 0x20 == 0x20,
            palette: bits & 0x3,
        }
    }

    /// Packs the attribute into its byte.
    pub fn as_u8(&self) -> (bits: u8)
        requires
            self.wf(),
        ensures
            bits == self.encode(),
    {
        let vertical: u8 = if self.vertical_flip { 0x80 } else { 0 };
        let horizontal: u8 = if self.horizontal_flip { 0x40 } else { 0 };
        let hide: u8 = if self.hide { 0x20 } else { 0 };
        vertical + horizontal + hide + self.palette
    }
}

impl Default for SpriteAttribute {
    /// A hidden sprite with no flip and palette 0.
    fn default() -> (attr: Self)
        ensures
            attr == Self::hidden(),
    {
        Self { vertical_flip: false, horizontal_flip: false, hide: true, palette: 0 }
    }
}

/// One sprite descriptor: four bytes in the order `y`, `tile`, `attr`, `x`.
#[derive(Copy, Clone, Debug, PartialEq, Eq, Structural)]
pub struct Sprite {
    pub y: u8,
    pub tile: u8,
    pub attr: SpriteAttribute,
    pub x: u8,
}

impl Sprite {
    /// The attribute is well formed.
    pub open spec fn wf(self) -> bool {
        self.attr.wf()
    }

    /// A sprite that was never written: hidden, at the origin, tile 0.
    pub open spec fn hidden() -> Self {
        Sprite { y: 0, tile: 0, attr: SpriteAttribute::hidden(), x: 0 }
    }

    /// Byte `field` of the descriptor.
    pub open spec fn read_spec(self, field: int) -> u8 {
        if field == 0 {
            self.y
        } else if field == 1 {
            self.tile
        } else if field == 2 {
            self.attr.encode() as u8
        } else {
            self.x
        }
    }

    /// The descriptor after `value` was stored in byte `field`.
    pub open spec fn write_spec(self, field: int, value: u8) -> Self {
        if field == 0 {
            Sprite { y: value, ..self }
        } else if field == 1 {
            Sprite { tile: value, ..self }
        } else if field == 2 {
            Sprite { attr: SpriteAttribute::decode(value), ..self }
        } else {
            Sprite { x: value, ..self }
        }
    }

    /// Reads byte `addr` of the descriptor.
    pub fn read(&self, addr: u8) -> (value: u8)
        requires
            addr < 4,
            self.wf(),
        ensures
            value == self.read_spec(addr as int),
    {
        match addr {
            0 => self.y,
            1 => self.tile,
            2 => self.attr.as_u8(),
            _ => self.x,
        }
    }

    /// Stores `value` in byte `addr` of the descriptor. The attribute byte
    /// keeps only the bits of its fields.
    pub fn write(&mut self, addr: u8, value: u8)
        requires
            addr < 4,
        ensures
            *final(self) == old(self).write_spec(addr as int, value),
            old(self).wf() || addr == 2 ==> final(self).wf(),
    {
        match addr {
            0 => self.y = value,
            1 => self.tile = value,
            2 => self.attr = SpriteAttribute::from_u8(value),
            _ => self.x = value,
        }
    }
}

impl Default for Sprite {
    /// A hidden sprite at the origin.
    fn default() -> (sprite: Self)
        ensures
            sprite == Self::hidden(),
    {
        Self { y: 0, tile: 0, attr: SpriteAttribute::default(), x: 0 }
    }
}

/// The byte that a write of `value` leaves at OAM address `addr`.
pub open spec fn stored_byte(addr: int, value: u8) -> u8 {
    if addr % 4 == 2 {
        value & ATTRIBUTE_MASK
    } else {
        value
    }
}

/// The byte at OAM address `addr` of the table `entries`.
pub open spec fn byte_at(entries: Seq<Sprite>, addr: int) -> u8 {
    entries[addr / 4].read_spec(addr % 4)
}

/// The table after `value` was written at OAM address `addr`.
pub open spec fn entries_after_write(entries: Seq<Sprite>, addr: int, value: u8) -> Seq<Sprite> {
    entries.update(addr / 4, entries[addr / 4].write_spec(addr % 4, value))
}

/// The address that follows `addr`; 255 is followed by 0.
pub open spec fn next_addr(addr: u8) -> u8 {
    if addr == 255 {
        0
    } else {
        (addr + 1) as u8
    }
}

/// The table after the intent in `reg` was carried out.
pub open spec fn synced_entries(entries: Seq<Sprite>, reg: PpuRegisters) -> Seq<Sprite> {
    match reg.io {
        RegisterIO::WriteOamData => entries_after_write(entries, reg.oam_addr as int, reg.oam_data),
        _ => entries,
    }
}

/// The registers after the intent in `reg` was carried out on the table `entries`.
pub open spec fn synced_registers(entries: Seq<Sprite>, reg: PpuRegisters) -> PpuRegisters {
    match reg.io {
        RegisterIO::WriteOamAddr => PpuRegisters {
            oam_data: byte_at(entries, reg.oam_addr as int),
            ..reg
        },
        RegisterIO::WriteOamData => {
            let next = next_addr(reg.oam_addr);
            PpuRegisters {
                oam_addr: next,
                oam_data: byte_at(synced_entries(entries, reg), next as int),
                ..reg
            }
        },
        RegisterIO::Idle => reg,
    }
}

/// The 64 sprite descriptors.
#[derive(Debug, PartialEq, Eq)]
pub struct ObjectAttributeMemory(pub [Sprite; 64]);

impl Clone for ObjectAttributeMemory {
    fn clone(&self) -> (copy: Self)
        ensures
            copy == *self,
    {
        Self(self.0)
    }
}

impl View for ObjectAttributeMemory {
    type V = Seq<u8>;

    /// The table as its 256 bytes.
    open spec fn view(&self) -> Seq<u8> {
        Seq::new(256, |addr: int| byte_at(self.0@, addr))
    }
}

impl ObjectAttributeMemory {
    /// Every descriptor is well formed.
    pub open spec fn wf(&self) -> bool {
        forall|i: int| 0 <= i < 64 ==> (#[trigger] self.0[i]).wf()
    }

    /// Reads the byte at `addr`.
    pub fn read(&self, addr: u8) -> (value: u8)
        requires
            self.wf(),
        ensures
            value == self@[addr as int],
    {
        self.0[(addr / 4) as usize].read(addr % 4)
    }

    /// Writes `value` at `addr`. Only that byte of the table changes.
    pub fn write(&mut self, addr: u8, value: u8)
        requires
            old(self).wf(),
        ensures
            final(self).wf(),
            final(self).0@ == entries_after_write(old(self).0@, addr as int, value),
            final(self)@ == old(self)@.update(addr as int, stored_byte(addr as int, value)),
    {
        let index: usize = (addr / 4) as usize;
        let mut entry = self.0[index];
        entry.write(addr % 4, value);
        self.0[index] = entry;
        proof {
            lemma_write_changes_one_byte(old(self).0@, addr as int, value);
            let written = old(self)@.update(addr as int, stored_byte(addr as int, value));
            assert forall|other: int| 0 <= other < 256 implies self@[other] == written[other] by {
                assert(self@[other] == byte_at(
                    entries_after_write(old(self).0@, addr as int, value),
                    other,
                ));
            }
            assert(self@ =~= written);
        }
    }

    /// Carries out what the latest register write asks for.
    ///
    /// After a write to the address register, the data register latches the byte
    /// at that address. After a write to the data register, that byte is stored
    /// at the address, the address moves on by one (255 is followed by 0), and
    /// the data register latches the byte at the new address.
    pub fn sync_registers(&mut self, reg: &mut PpuRegisters)
        requires
            old(self).wf(),
        ensures
            final(self).wf(),
            final(self).0@ == synced_entries(old(self).0@, *old(reg)),
            *final(reg) == synced_registers(old(self).0@, *old(reg)),
    {
        match reg.io {
            RegisterIO::WriteOamAddr => {
                reg.oam_data = self.read(reg.oam_addr);
            },
            RegisterIO::WriteOamData => {
                self.write(reg.oam_addr, reg.oam_data);
                reg.oam_addr = reg.oam_addr.wrapping_add(1);
                reg.oam_data = self.read(reg.oam_addr);
            },
            RegisterIO::Idle => {},
        }
    }
}

impl Default for ObjectAttributeMemory {
    /// 64 hidden sprites at the origin.
    fn default() -> (oam: Self)
        ensures
            oam.wf(),
            forall|i: int| 0 <= i < 64 ==> #[trigger] oam.0[i] == Sprite::hidden(),
    {
        Self([Sprite::default(); 64])
    }
}

/// A write at `addr` changes the byte at `addr` to `stored_byte(addr, value)`
/// and no other byte of the table.
pub proof fn lemma_write_changes_one_byte(entries: Seq<Sprite>, addr: int, value: u8)
    requires
        entries.len() == 64,
        0 <= addr < 256,
    ensures
        forall|other: int|
            0 <= other < 256 ==> #[trigger] byte_at(
                entries_after_write(entries, addr, value),
                other,
            ) == (if other == addr {
                stored_byte(addr, value)
            } else {
                byte_at(entries, other)
            }),
{
    lemma_encode_decode(value);
}

/// After a write to the data register, the byte at the address holds the
/// written value (an attribute byte: its field bits), the address has moved on
/// by one, and the data register shows the byte that was at the new address
/// before.
pub proof fn lemma_data_write_advances(entries: Seq<Sprite>, reg: PpuRegisters)
    requires
        entries.len() == 64,
        reg.io == RegisterIO::WriteOamData,
    ensures
        byte_at(synced_entries(entries, reg), reg.oam_addr as int) == stored_byte(
            reg.oam_addr as int,
            reg.oam_data,
        ),
        reg.oam_addr % 4 != 2 ==> byte_at(synced_entries(entries, reg), reg.oam_addr as int)
            == reg.oam_data,
        synced_registers(entries, reg).oam_addr == next_addr(reg.oam_addr),
        synced_registers(entries, reg).oam_data == byte_at(entries, next_addr(reg.oam_addr) as int),
        forall|other: int|
            0 <= other < 256 && other != reg.oam_addr ==> #[trigger] byte_at(
                synced_entries(entries, reg),
                other,
            ) == byte_at(entries, other),
{
    lemma_write_changes_one_byte(entries, reg.oam_addr as int, reg.oam_data);
}

/// After a write to the address register, the data register shows the byte at
/// that address, and the table is as it was.
pub proof fn lemma_addr_write_latches(entries: Seq<Sprite>, reg: PpuRegisters)
    requires
        reg.io == RegisterIO::WriteOamAddr,
    ensures
        synced_entries(entries, reg) == entries,
        synced_registers(entries, reg).oam_data == byte_at(entries, reg.oam_addr as int),
        synced_registers(entries, reg).oam_addr == reg.oam_addr,
{
}

/// Packing what a byte unpacks to gives the byte back, less the bits outside
/// the mask; unpacking that again gives the same attribute.
pub proof fn lemma_encode_decode(bits: u8)
    ensures
        SpriteAttribute::decode(bits).wf(),
        SpriteAttribute::decode(bits).encode() == bits & ATTRIBUTE_MASK,
        SpriteAttribute::decode((bits & ATTRIBUTE_MASK) as u8) == SpriteAttribute::decode(bits),
{
    assert(bits & 0x03 < 4) by (bit_vector);
    assert((bits & 0xE3) & 0x80 == bits & 0x80 && (bits & 0xE3) & 0x40 == bits & 0x40 && (bits & 0xE3)
        & 0x20 == bits & 0x20 && (bits & 0xE3) & 0x03 == bits & 0x03) by (bit_vector);
    assert((if bits & 0x80 == 0x80 { 0x80int } else { 0 })
        + (if bits & 0x40 == 0x40 { 0x40int } else { 0 })
        + (if bits & 0x20 == 0x20 { 0x20int } else { 0 })
        + (bits & 0x03) == bits & 0xE3) by (bit_vector);
}

/// Unpacking what an attribute packs to gives the attribute back, for every
/// attribute with a two-bit palette selector: those are the attributes that
/// unpacking produces.
pub proof fn lemma_decode_encode(attr: SpriteAttribute)
    requires
        attr.wf(),
    ensures
        0 <= attr.encode() < 256,
        SpriteAttribute::decode(attr.encode() as u8) == attr,
{
    let v = attr.vertical_flip;
    let h = attr.horizontal_flip;
    let d = attr.hide;
    let p = attr.palette;
    let bits: u8 = attr.encode() as u8;
    assert((bits & 0x80 == 0x80) == v && (bits & 0x40 == 0x40) == h && (bits & 0x20 == 0x20) == d
        && bits & 0x03 == p) by (bit_vector)
        requires
            p < 4,
            bits == (if v { 0x80int } else { 0 }) + (if h { 0x40int } else { 0 }) + (if d {
                0x20int
            } else {
                0
            }) + p,
    ;
}

} // verus!
