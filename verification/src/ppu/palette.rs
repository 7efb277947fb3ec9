//! The master palette and the colorization of decoded tiles.

use vstd::prelude::*;
use crate::ppu::tile::Sprite;

verus! {

/// A 24-bit color.
#[derive(Clone, Copy, Debug, PartialEq, Eq, Structural)]
pub struct Color {
    pub r: u8,
    pub g: u8,
    pub b: u8,
}

/// The 64 colors that the picture processor can show, each as `0xRRGGBB`.
pub const MASTER_PALETTE: [u32; 64] = [
    0x808080, 0x003DA6, 0x0012B0, 0x440096, 0xA1005E, 0xC70028, 0xBA0600, 0x8C1700,
    0x5C2F00, 0x104500, 0x054A00, 0x00472E, 0x004166, 0x000000, 0x050505, 0x050505,
    0xC7C7C7, 0x0077FF, 0x2155FF, 0x8237FA, 0xEB2FB5, 0xFF2950, 0xFF2200, 0xD63200,
    0xC46200, 0x358000, 0x058F00, 0x008A55, 0x0099CC, 0x212121, 0x090909, 0x090909,
    0xFFFFFF, 0x0FD7FF, 0x69A2FF, 0xD480FF, 0xFF45F3, 0xFF618B, 0xFF8833, 0xFF9C12,
    0xFABC20, 0x9FE30E, 0x2BF035, 0x0CF0A4, 0x05FBFF, 0x5E5E5E, 0x0D0D0D, 0x0D0D0D,
    0xFFFFFF, 0xA6FCFF, 0xB3ECFF, 0xDAABEB, 0xFFA8F9, 0xFFABB3, 0xFFD2B0, 0xFFEFA6,
    0xFFF79C, 0xD7E895, 0xA6EDAF, 0xA2F2DA, 0x99FFFC, 0xDDDDDD, 0x111111, 0x111111,
];

/// The color that the packed value `rgb = 0xRRGGBB` stands for.
pub open spec fn unpack(rgb: u32) -> Color {
    Color {
        r: (rgb / 0x1_0000 % 0x100) as u8,
        g: (rgb / 0x100 % 0x100) as u8,
        b: (rgb % 0x100) as u8,
    }
}

/// Entry `index` of the master palette.
pub open spec fn master_color(index: int) -> Color {
    unpack(MASTER_PALETTE[index])
}

/// The color of the cell at column `x`, row `y` of the tile `pixels` under the
/// palette `palette`: the cell's pixel index selects a palette entry, and that
/// entry selects a color of the master palette.
pub open spec fn colorize(pixels: Seq<Seq<u8>>, palette: Seq<u8>, x: int, y: int) -> Color {
    master_color(palette[pixels[y][x] as int] as int)
}

/// Reads entry `index` of the master palette.
pub fn color_of(index: u8) -> (color: Color)
    requires
        index < 64,
    ensures
        color == master_color(index as int),
{
    let rgb: u32 = MASTER_PALETTE[index as usize];
    Color {
        r: (rgb / 0x1_0000 % 0x100) as u8,
        g: (rgb / 0x100 % 0x100) as u8,
        b: (rgb % 0x100) as u8,
    }
}

/// A tile in concrete colors: an 8x8 grid.
#[derive(Debug, PartialEq, Eq)]
pub struct ColoredSprite([[Color; 8]; 8]);

impl Clone for ColoredSprite {
    fn clone(&self) -> (copy: Self)
        ensures
            copy == *self,
    {
        Self(self.0)
    }
}

impl View for ColoredSprite {
    type V = Seq<Seq<Color>>;

    closed spec fn view(&self) -> Seq<Seq<Color>> {
        Seq::new(8, |y: int| self.0[y]@)
    }
}

impl ColoredSprite {
    /// Colors `sprite` through `pallete`, four indices into the master palette.
    pub fn new(sprite: &Sprite, pallete: &[u8; 4]) -> (colored: Self)
        requires
            forall|i: int| 0 <= i < 4 ==> pallete[i] < 64,
        ensures
            colored@.len() == 8,
            forall|y: int| 0 <= y < 8 ==> (#[trigger] colored@[y]).len() == 8,
            forall|x: int, y: int|
                0 <= x < 8 && 0 <= y < 8 ==> #[trigger] colored@[y][x] == colorize(
                    sprite@,
                    pallete@,
                    x,
                    y,
                ),
    {
        let black = Color { r: 0, g: 0, b: 0 };
        let mut res = [[black; 8]; 8];
        let mut y: u8 = 0;
        while y < 8
            invariant
                y <= 8,
                forall|i: int| 0 <= i < 4 ==> pallete[i] < 64,
                forall|x: int, done: int|
                    0 <= x < 8 && 0 <= done < y ==> #[trigger] res[done][x] == colorize(
                        sprite@,
                        pallete@,
                        x,
                        done,
                    ),
            decreases 8 - y,
        {
            let mut row = [black; 8];
            let mut x: u8 = 0;
            while x < 8
                invariant
                    x <= 8,
                    y < 8,
                    forall|i: int| 0 <= i < 4 ==> pallete[i] < 64,
                    forall|done: int|
                        0 <= done < x ==> #[trigger] row[done] == colorize(
                            sprite@,
                            pallete@,
                            done,
                            y as int,
                        ),
                decreases 8 - x,
            {
                row[x as usize] = color_of(pallete[sprite.get(x, y) as usize]);
                x += 1;
            }
            res[y as usize] = row;
            y += 1;
        }
        Self(res)
    }

    /// The color at column `x`, row `y`.
    pub fn get(&self, x: u8, y: u8) -> (color: Color)
        requires
            x < 8,
            y < 8,
        ensures
            color == self@[y as int][x as int],
    {
        self.0[y as usize][x as usize]
    }
}

/// Under the palette `[0, 1, 2, 3]` a cell of pixel index `i` gets entry `i`
/// of the master palette.
pub proof fn lemma_identity_palette(pixels: Seq<Seq<u8>>, x: int, y: int)
    requires
        pixels[y][x] < 4,
    ensures
        colorize(pixels, seq![0u8, 1u8, 2u8, 3u8], x, y) == master_color(pixels[y][x] as int),
{
}

} // verus!
