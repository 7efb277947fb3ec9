//! Decoding of raw tile records into 8x8 grids of 2-bit pixel indices.

use vstd::prelude::*;

verus! {

/// Bytes in one tile record: two bit-planes of eight bytes each.
pub const TILE_BYTES: usize = 16;

/// Bit `k` of `byte`, counted from the least significant one.
pub open spec fn bit(byte: u8, k: u8) -> u8 {
    (byte >> k) & 1
}

/// Whether tile memory `chr` holds a whole record for tile `index`.
pub open spec fn has_tile(chr: Seq<u8>, index: int) -> bool {
    0 <= index && (index + 1) * 16 <= chr.len()
}

/// The pixel index at column `x`, row `y` of tile `index` in tile memory `chr`.
///
/// Byte `y` of the record is the low bit-plane of row `y`, byte `y + 8` the high
/// one. Bit 0 of each is the rightmost pixel, so column `x` reads bit `7 - x`.
pub open spec fn decode_pixel(chr: Seq<u8>, index: int, x: int, y: int) -> u8 {
    let low = chr[index * 16 + y];
    let high = chr[index * 16 + y + 8];
    (bit(high, (7 - x) as u8) * 2 + bit(low, (7 - x) as u8)) as u8
}

/// Row `y` of tile `index`, from the leftmost column to the rightmost.
pub open spec fn decode_row(chr: Seq<u8>, index: int, y: int) -> Seq<u8> {
    Seq::new(8, |x: int| decode_pixel(chr, index, x, y))
}

/// The 8x8 grid of tile `index`, as rows of columns.
pub open spec fn decode_tile(chr: Seq<u8>, index: int) -> Seq<Seq<u8>> {
    Seq::new(8, |y: int| decode_row(chr, index, y))
}

/// A decoded tile: an 8x8 grid of pixel indices, each in `0..4`.
#[derive(Debug, PartialEq, Eq)]
pub struct Sprite([[u8; 8]; 8]);

impl Clone for Sprite {
    fn clone(&self) -> (copy: Self)
        ensures
            copy == *self,
    {
        proof {
            use_type_invariant(self);
        }
        Self(self.0)
    }
}

impl View for Sprite {
    type V = Seq<Seq<u8>>;

    closed spec fn view(&self) -> Seq<Seq<u8>> {
        Seq::new(8, |y: int| self.0[y]@)
    }
}

impl Sprite {
    /// Every cell holds a 2-bit index.
    #[verifier::type_invariant]
    spec fn two_bit_cells(&self) -> bool {
        forall|x: int, y: int| 0 <= x < 8 && 0 <= y < 8 ==> self.0[y][x] < 4
    }

    /// Decodes tile `index` of the tile memory `chr_rom`.
    pub fn new(chr_rom: &[u8], index: u8) -> (sprite: Self)
        requires
            has_tile(chr_rom@, index as int),
        ensures
            sprite@ == decode_tile(chr_rom@, index as int),
    {
        let base: usize = index as usize * TILE_BYTES;
        let mut grid = [[0u8; 8]; 8];
        let mut i: usize = 0;
        while i < 8
            invariant
                i <= 8,
                base == index * 16,
                base + 16 <= chr_rom@.len(),
                forall|y: int| 0 <= y < i ==> #[trigger] grid[y]@ == decode_row(chr_rom@, index as int, y),
            decreases 8 - i,
        {
            let low: u8 = chr_rom[base + i];
            let high: u8 = chr_rom[base + i + 8];
            let mut byte1: u8 = low;
            let mut byte2: u8 = high;
            let mut row = [0u8; 8];
            let mut j: usize = 8;
            assert(low >> 0u8 == low && high >> 0u8 == high) by (bit_vector);
            while j > 0
                invariant
                    j <= 8,
                    byte1 == low >> ((8 - j) as u8),
                    byte2 == high >> ((8 - j) as u8),
                    forall|x: int|
                        j <= x < 8 ==> #[trigger] row[x] == (bit(high, (7 - x) as u8) * 2 + bit(
                            low,
                            (7 - x) as u8,
                        )),
                decreases j,
            {
                j -= 1;
                let bit1: u8 = byte1 % 2;
                let bit2: u8 = byte2 % 2;
                proof {
                    let k: u8 = (7 - j) as u8;
                    lemma_shift_step(low, k);
                    lemma_shift_step(high, k);
                }
                byte1 /= 2;
                byte2 /= 2;
                row[j] = bit2 * 2 + bit1;
            }
            assert(row@ =~= decode_row(chr_rom@, index as int, i as int));
            grid[i] = row;
            i += 1;
        }
        assert forall|x: int, y: int| 0 <= x < 8 && 0 <= y < 8 implies grid[y][x] < 4 by {
            lemma_pixel_is_two_bits(chr_rom@, index as int, x, y);
            assert(grid[y]@[x] == decode_row(chr_rom@, index as int, y)[x]);
        }
        let sprite = Self(grid);
        assert(sprite@ =~= decode_tile(chr_rom@, index as int));
        sprite
    }

    /// The pixel index at column `x`, row `y`.
    pub fn get(&self, x: u8, y: u8) -> (pixel: u8)
        requires
            x < 8,
            y < 8,
        ensures
            pixel == self@[y as int][x as int],
            pixel < 4,
    {
        proof {
            use_type_invariant(self);
        }
        self.0[y as usize][x as usize]
    }
}

/// A decoded pixel index fits in two bits.
pub proof fn lemma_pixel_is_two_bits(chr: Seq<u8>, index: int, x: int, y: int)
    requires
        0 <= x < 8,
    ensures
        decode_pixel(chr, index, x, y) < 4,
{
    lemma_shift_step(chr[index * 16 + y], (7 - x) as u8);
    lemma_shift_step(chr[index * 16 + y + 8], (7 - x) as u8);
}

/// Taking the lowest bit of a byte already shifted by `k` reads bit `k`, and
/// halving it shifts once more.
proof fn lemma_shift_step(byte: u8, k: u8)
    requires
        k < 8,
    ensures
        (byte >> k) % 2 == bit(byte, k),
        bit(byte, k) <= 1,
        (byte >> k) / 2 == byte >> ((k + 1) as u8),
{
    assert((byte >> k) % 2 == (byte >> k) & 1) by (bit_vector);
    assert((byte >> k) & 1 <= 1) by (bit_vector);
    assert((byte >> k) / 2 == byte >> ((k + 1) as u8)) by (bit_vector)
        requires
            k < 8,
    ;
}

} // verus!
