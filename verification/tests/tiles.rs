use nes_core::nes::Rom;
use nes_core::ppu::palette::{color_of, Color, ColoredSprite, MASTER_PALETTE};
use nes_core::ppu::tile::{Sprite, TILE_BYTES};

fn tile_from(record: [u8; 16]) -> Sprite {
    Sprite::new(&record, 0)
}

#[test]
fn zero_record_decodes_to_index_0_everywhere() {
    let sprite = tile_from([0x00; 16]);
    for y in 0..8 {
        for x in 0..8 {
            assert_eq!(sprite.get(x, y), 0);
        }
    }
}

#[test]
fn low_plane_set_decodes_to_index_1_everywhere() {
    let mut record = [0x00u8; 16];
    for byte in record.iter_mut().take(8) {
        *byte = 0xFF;
    }
    let sprite = tile_from(record);
    for y in 0..8 {
        for x in 0..8 {
            assert_eq!(sprite.get(x, y), 1);
        }
    }
}

#[test]
fn high_plane_set_decodes_to_index_2_everywhere() {
    let mut record = [0x00u8; 16];
    for byte in record.iter_mut().skip(8) {
        *byte = 0xFF;
    }
    let sprite = tile_from(record);
    for y in 0..8 {
        for x in 0..8 {
            assert_eq!(sprite.get(x, y), 2);
        }
    }
}

#[test]
fn both_planes_set_decode_to_index_3_everywhere() {
    let sprite = tile_from([0xFF; 16]);
    for y in 0..8 {
        for x in 0..8 {
            assert_eq!(sprite.get(x, y), 3);
        }
    }
}

#[test]
fn bit_0_is_the_rightmost_pixel() {
    let mut record = [0x00u8; 16];
    record[0] = 0b0000_0001;
    record[8 + 3] = 0b1000_0000;
    let sprite = tile_from(record);
    assert_eq!(sprite.get(7, 0), 1);
    assert_eq!(sprite.get(0, 0), 0);
    assert_eq!(sprite.get(0, 3), 2);
    assert_eq!(sprite.get(7, 3), 0);
}

#[test]
fn each_row_combines_its_two_plane_bytes() {
    let mut record = [0x00u8; 16];
    record[2] = 0b1100_1010;
    record[10] = 0b1010_0110;
    let sprite = tile_from(record);
    let row: Vec<u8> = (0..8).map(|x| sprite.get(x, 2)).collect();
    assert_eq!(row, vec![3, 1, 2, 0, 1, 2, 3, 0]);
    for y in [0u8, 1, 3, 4, 5, 6, 7] {
        for x in 0..8 {
            assert_eq!(sprite.get(x, y), 0);
        }
    }
}

#[test]
fn index_selects_the_record_at_sixteen_times_index() {
    assert_eq!(TILE_BYTES, 16);
    let mut chr = vec![0u8; 16 * 4];
    for byte in chr.iter_mut().skip(16 * 2).take(8) {
        *byte = 0xFF;
    }
    chr[16 * 3 + 8] = 0x80;
    assert_eq!(Sprite::new(&chr, 0), tile_from([0; 16]));
    assert_eq!(Sprite::new(&chr, 1), tile_from([0; 16]));
    let third = Sprite::new(&chr, 2);
    assert_eq!(third.get(0, 0), 1);
    assert_eq!(third.get(7, 7), 1);
    let last = Sprite::new(&chr, 3);
    assert_eq!(last.get(0, 0), 2);
    assert_eq!(last.get(1, 0), 0);
}

#[test]
fn last_tile_of_a_full_bank_decodes() {
    let mut chr = vec![0u8; 16 * 256];
    chr[16 * 255 + 7] = 0x01;
    let sprite = Sprite::new(&chr, 255);
    assert_eq!(sprite.get(7, 7), 1);
    assert_eq!(sprite.get(6, 7), 0);
}

#[test]
fn cloned_tile_is_equal() {
    let mut record = [0u8; 16];
    record[5] = 0x3C;
    record[13] = 0x0F;
    let sprite = tile_from(record);
    assert_eq!(sprite.clone(), sprite);
}

#[test]
fn master_palette_has_the_fixed_colors() {
    assert_eq!(MASTER_PALETTE.len(), 64);
    assert_eq!(color_of(0), Color { r: 0x80, g: 0x80, b: 0x80 });
    assert_eq!(color_of(1), Color { r: 0x00, g: 0x3D, b: 0xA6 });
    assert_eq!(color_of(2), Color { r: 0x00, g: 0x12, b: 0xB0 });
    assert_eq!(color_of(3), Color { r: 0x44, g: 0x00, b: 0x96 });
    assert_eq!(color_of(13), Color { r: 0x00, g: 0x00, b: 0x00 });
    assert_eq!(color_of(32), Color { r: 0xFF, g: 0xFF, b: 0xFF });
    assert_eq!(color_of(39), Color { r: 0xFF, g: 0x9C, b: 0x12 });
    assert_eq!(color_of(61), Color { r: 0xDD, g: 0xDD, b: 0xDD });
    assert_eq!(color_of(63), Color { r: 0x11, g: 0x11, b: 0x11 });
}

#[test]
fn master_palette_entries_unpack_channel_by_channel() {
    for index in 0..64u8 {
        let packed = MASTER_PALETTE[index as usize];
        let color = color_of(index);
        assert!(packed <= 0xFF_FFFF);
        assert_eq!(color.r as u32, packed >> 16);
        assert_eq!(color.g as u32, (packed >> 8) & 0xFF);
        assert_eq!(color.b as u32, packed & 0xFF);
    }
}

#[test]
fn identity_palette_colors_each_cell_by_its_index() {
    let mut record = [0x00u8; 16];
    record[0] = 0b0101_0101;
    record[8] = 0b0011_0011;
    record[4] = 0xF0;
    record[12] = 0xCC;
    let sprite = tile_from(record);
    let colored = ColoredSprite::new(&sprite, &[0, 1, 2, 3]);
    for y in 0..8 {
        for x in 0..8 {
            assert_eq!(colored.get(x, y), color_of(sprite.get(x, y)));
        }
    }
    assert_eq!(colored.get(7, 0), Color { r: 0x44, g: 0x00, b: 0x96 });
    assert_eq!(colored.get(0, 0), Color { r: 0x80, g: 0x80, b: 0x80 });
}

#[test]
fn palette_maps_pixel_indices_to_master_colors() {
    let mut record = [0x00u8; 16];
    record[1] = 0b0000_1111;
    record[9] = 0b0011_0011;
    let sprite = tile_from(record);
    let palette = [0x0F, 0x16, 0x27, 0x3F];
    let colored = ColoredSprite::new(&sprite, &palette);
    let row: Vec<u8> = (0..8).map(|x| sprite.get(x, 1)).collect();
    assert_eq!(row, vec![0, 0, 2, 2, 1, 1, 3, 3]);
    assert_eq!(colored.get(0, 1), Color { r: 0x05, g: 0x05, b: 0x05 });
    assert_eq!(colored.get(2, 1), Color { r: 0xFF, g: 0x9C, b: 0x12 });
    assert_eq!(colored.get(4, 1), Color { r: 0xFF, g: 0x22, b: 0x00 });
    assert_eq!(colored.get(6, 1), Color { r: 0x11, g: 0x11, b: 0x11 });
    for y in 0..8 {
        for x in 0..8 {
            let entry = palette[sprite.get(x, y) as usize];
            assert_eq!(colored.get(x, y), color_of(entry));
        }
    }
}

#[test]
fn color_0_is_rendered_like_any_other() {
    let sprite = tile_from([0x00; 16]);
    let colored = ColoredSprite::new(&sprite, &[0x21, 0, 0, 0]);
    for y in 0..8 {
        for x in 0..8 {
            assert_eq!(colored.get(x, y), Color { r: 0x0F, g: 0xD7, b: 0xFF });
        }
    }
    assert_eq!(colored.clone(), colored);
}

#[test]
fn tiles_decode_from_cartridge_tile_memory() {
    let mut chr_rom = vec![0u8; 32];
    chr_rom[16] = 0x81;
    chr_rom[24] = 0x81;
    let rom = Rom { prg_rom: Vec::new(), chr_rom };
    let sprite = Sprite::new(&rom.chr_rom, 1);
    let row: Vec<u8> = (0..8).map(|x| sprite.get(x, 0)).collect();
    assert_eq!(row, vec![3, 0, 0, 0, 0, 0, 0, 3]);
}
