//! The picture chip's corners.

use graybox::cartridge::Mirroring;
use graybox::ppu::Ppu;
use graybox::signal::{in_phase, wave};

/// A chip whose color for each of the 512 entries is the entry's number.
fn chip() -> Ppu {
    Ppu::new(false, (0..512).collect())
}

fn aim(ppu: &mut Ppu, address: u16) {
    ppu.read_status();
    ppu.write_address((address >> 8) as u8);
    ppu.write_address(address as u8);
}

#[test]
fn every_wiring_folds_four_names_onto_two_rooms() {
    let mut ppu = chip();
    for (wired, rooms) in [
        (Mirroring::Vertical, [0, 1, 0, 1]),
        (Mirroring::Horizontal, [0, 0, 1, 1]),
        (Mirroring::SingleLow, [0, 0, 0, 0]),
        (Mirroring::SingleHigh, [1, 1, 1, 1]),
    ] {
        ppu.set_mirroring(wired);
        for (name, room) in rooms.iter().enumerate() {
            let address = 0x2000 + name as u16 * 0x400 + 0x123;
            assert_eq!(ppu.mirror(address), room * 0x400 + 0x123);
            assert_eq!(ppu.mirror(address + 0x1000), room * 0x400 + 0x123);
        }
    }
}

#[test]
fn the_box_folds_four_cells_and_repeats() {
    for (address, cell) in [
        (0x3F00, 0),
        (0x3F10, 0),
        (0x3F14, 4),
        (0x3F18, 8),
        (0x3F1C, 12),
        (0x3F11, 17),
        (0x3F1F, 31),
        (0x3F20, 0),
    ] {
        assert_eq!(Ppu::palette_index(address), cell);
    }
}

#[test]
fn nametables_and_palettes_read_back_one_late() {
    let mut ppu = chip();
    let art: &[u8] = &[];
    for address in [0x2000, 0x2FFF, 0x3EFF, 0x3F00, 0x3F1D] {
        aim(&mut ppu, address);
        ppu.write_data(0x2A);
        aim(&mut ppu, address);
        ppu.read_data(art);
        assert_eq!(ppu.read_buffer, 0x2A);
    }
}

#[test]
fn the_port_reads_the_album_below_2000() {
    let mut ppu = chip();
    let mut art = vec![0; 8192];
    art[0x0123] = 0x5C;
    aim(&mut ppu, 0x0123);
    assert_eq!(ppu.read_data(art.as_slice()), 0);
    assert_eq!(ppu.read_data(art.as_slice()), 0x5C);
    assert_eq!(ppu.v, 0x0125);
    // A write there bounces off, and still steps.
    aim(&mut ppu, 0x0123);
    ppu.write_data(0xFF);
    assert_eq!(ppu.v, 0x0124);
}

#[test]
fn the_walk_wraps_at_the_top() {
    let mut ppu = chip();
    ppu.v = 0xFFFF;
    ppu.step_address();
    assert_eq!(ppu.v, 0);
    assert_eq!(ppu.data_address(), 0);
    ppu.v = 0x7FFF;
    assert_eq!(ppu.data_address(), 0x3FFF);
}

#[test]
fn status_has_three_flags() {
    let mut ppu = chip();
    ppu.vblank = true;
    ppu.sprite_zero_hit = true;
    ppu.sprite_overflow = true;
    ppu.w = true;
    assert_eq!(ppu.read_status(), 0xE0);
    assert!(!ppu.w);
    assert_eq!(ppu.read_status(), 0x60);
}

#[test]
fn settings_stage_the_nametable() {
    let mut ppu = chip();
    ppu.t = 0x73FF;
    ppu.write_ctrl(0b0000_0010);
    assert_eq!(ppu.t, 0x7BFF);
    ppu.write_ctrl(0b0000_0001);
    assert_eq!(ppu.t, 0x77FF);
}

#[test]
fn sixty_four_columns_are_none() {
    let mut ppu = chip();
    ppu.v = 0x7BE5;
    for _ in 0..32 {
        ppu.increment_x();
    }
    assert_eq!(ppu.v, 0x7BE5 ^ 0x0400);
    for _ in 0..32 {
        ppu.increment_x();
    }
    assert_eq!(ppu.v, 0x7BE5);
}

#[test]
fn two_screens_down_are_none() {
    let mut ppu = chip();
    ppu.v = 0x2145;
    for _ in 0..240 {
        ppu.increment_y();
    }
    assert_eq!(ppu.v, 0x2145 ^ 0x0800);
    for _ in 0..240 {
        ppu.increment_y();
    }
    assert_eq!(ppu.v, 0x2145);
}

#[test]
fn the_attribute_rows_wrap_without_the_flip() {
    let mut ppu = chip();
    ppu.v = 0x7000 | (31 << 5);
    ppu.increment_y();
    assert_eq!(ppu.v, 0);
    ppu.v = 0x7000 | (30 << 5);
    ppu.increment_y();
    assert_eq!(ppu.v, 31 << 5);
}

#[test]
fn both_copies_apply_the_whole_camera() {
    let mut ppu = chip();
    ppu.v = 0xFFFF;
    ppu.t = 0x2D4B;
    ppu.copy_horizontal();
    ppu.copy_vertical();
    assert_eq!(ppu.v, 0x2D4B);
}

#[test]
fn a_line_shows_eight_sprites_at_most() {
    let mut ppu = chip();
    let art = vec![0; 8192];
    for slot in 0..64 {
        ppu.oam[slot * 4] = 9;
        ppu.oam[slot * 4 + 3] = slot as u8;
    }
    ppu.evaluate_sprites(10, art.as_slice());
    assert_eq!(ppu.line_sprites.len(), 8);
    let zeros: Vec<bool> = ppu.line_sprites.iter().map(|s| s.is_zero).collect();
    assert_eq!(zeros, [true, false, false, false, false, false, false, false]);
    let places: Vec<u8> = ppu.line_sprites.iter().map(|s| s.x).collect();
    assert_eq!(places, [0, 1, 2, 3, 4, 5, 6, 7]);
    assert!(ppu.sprite_overflow);
    ppu.evaluate_sprites(18, art.as_slice());
    assert_eq!(ppu.line_sprites.len(), 0);
}

#[test]
fn a_sprite_covers_the_eight_lines_below_its_y() {
    let mut ppu = chip();
    let art = vec![0; 8192];
    for byte in ppu.oam.iter_mut() {
        *byte = 0xFF;
    }
    ppu.oam[0] = 49;
    for (line, there) in [(49, 0), (50, 1), (57, 1), (58, 0)] {
        ppu.evaluate_sprites(line, art.as_slice());
        assert_eq!(ppu.line_sprites.len(), there, "line {line}");
    }
    ppu.ctrl = 0b0010_0000; // tall sprites
    for (line, there) in [(58, 1), (65, 1), (66, 0)] {
        ppu.evaluate_sprites(line, art.as_slice());
        assert_eq!(ppu.line_sprites.len(), there, "line {line}");
    }
}

#[test]
fn flips_undo_themselves() {
    let mut art = vec![0; 8192];
    for row in 0..8 {
        art[16 + row] = 0b1100_0001 >> (row % 2);
    }
    let mut ppu = chip();
    let rows: Vec<[u8; 8]> = (0..8).map(|row| ppu.sprite_row(1, 0, row, 8, art.as_slice())).collect();
    for row in 0..8 {
        let across = ppu.sprite_row(1, 0b0100_0000, row, 8, art.as_slice());
        let down = ppu.sprite_row(1, 0b1000_0000, row, 8, art.as_slice());
        let mut turned = rows[row];
        turned.reverse();
        assert_eq!(across, turned);
        assert_eq!(down, rows[7 - row]);
    }
    ppu.ctrl = 0b0000_1000; // the other half of the album
    assert_eq!(ppu.sprite_row(1, 0, 0, 8, art.as_slice()), [0; 8]);
}

#[test]
fn the_last_column_meets_nobody() {
    let mut ppu = chip();
    ppu.mask = 0b0001_1110;
    ppu.composite((3, 0), Some((1, 0, true)), 255);
    assert!(!ppu.sprite_zero_hit);
    ppu.composite((0, 0), Some((1, 0, true)), 100);
    assert!(!ppu.sprite_zero_hit);
    ppu.composite((3, 0), Some((1, 0, false)), 100);
    assert!(!ppu.sprite_zero_hit);
    ppu.composite((3, 0), Some((1, 0, true)), 100);
    assert!(ppu.sprite_zero_hit);
}

#[test]
fn the_first_line_shows_no_sprites() {
    let mut art = vec![0; 8192];
    art[16..32].fill(0xFF);
    let mut ppu = chip();
    ppu.mask = 0b0001_1110;
    ppu.palette_ram[0] = 0x0F;
    ppu.palette_ram[0x13] = 0x30;
    ppu.oam[0] = 239;
    ppu.oam[1] = 1;
    ppu.oam[3] = 100;
    // Line 239 casts for the line below the picture.
    ppu.tick(239, 257, art.as_slice());
    assert_eq!(ppu.line_sprites.len(), 1);
    // A background there, so that sprite zero could meet it.
    ppu.shift_low = 0x8000;
    ppu.palette_ram[1] = 0x21;
    ppu.tick(0, 101, art.as_slice());
    assert_eq!(ppu.frame[100], 0x21);
    assert!(!ppu.sprite_zero_hit);
    ppu.tick(0, 102, art.as_slice());
    assert_eq!(ppu.frame[101], 0x0F);
    // The same cast on any other line is shown.
    ppu.shift_low = 0x8000;
    ppu.tick(1, 101, art.as_slice());
    assert_eq!(ppu.frame[256 + 100], 0x30);
    assert!(ppu.sprite_zero_hit);
}

#[test]
fn the_first_line_is_bare_however_rendering_was_switched() {
    let mut art = vec![0; 8192];
    art[16..32].fill(0xFF);
    let mut ppu = chip();
    ppu.mask = 0b0001_1110;
    ppu.palette_ram[0] = 0x0F;
    ppu.palette_ram[0x13] = 0x30;
    ppu.oam[0] = 99;
    ppu.oam[1] = 1;
    ppu.oam[3] = 100;
    ppu.tick(99, 257, art.as_slice());
    ppu.mask = 0;
    ppu.tick(239, 257, art.as_slice());
    ppu.mask = 0b0001_1110;
    for x in 0..256 {
        ppu.tick(0, x + 1, art.as_slice());
        assert_eq!(ppu.frame[x as usize], 0x0F);
    }
}

#[test]
fn a_fetched_tile_is_at_the_front_eight_dots_later() {
    // Tile 1's top row counts 0, 1, 2, 3 and back.
    let mut art = vec![0; 8192];
    art[16] = 0b0101_1010;
    art[24] = 0b0011_1100;
    let row = [0, 1, 2, 3, 3, 2, 1, 0];
    for fine_x in 0..8u8 {
        let mut ppu = chip();
        ppu.mask = 0b0000_1010;
        ppu.x = fine_x;
        for cell in 0..32 {
            ppu.palette_ram[cell] = cell as u8;
        }
        // The cell the beam comes to at dot 16 holds tile 1, in palette 2.
        ppu.vram[1] = 1;
        ppu.vram[0x3C0] = 0b0000_0010;
        for dot in 8..=32 {
            ppu.tick(5, dot, art.as_slice());
        }
        for column in 0..8 {
            let dot = 16 + 9 + column - fine_x as usize;
            let crayon = match row[column] {
                0 => 0,
                value => 2 * 4 + value,
            };
            assert_eq!(ppu.frame[5 * 256 + dot - 1], crayon, "fine X {fine_x}, column {column}");
        }
    }
}

#[test]
fn the_tail_of_a_line_primes_the_next() {
    let mut art = vec![0; 8192];
    art[16] = 0xFF;
    art[32 + 8] = 0xFF;
    let mut ppu = chip();
    ppu.mask = 0b0000_1010;
    for cell in 0..32 {
        ppu.palette_ram[cell] = cell as u8;
    }
    ppu.vram[0] = 1;
    ppu.vram[1] = 2;
    for dot in 328..=340 {
        ppu.tick(261, dot, art.as_slice());
    }
    for dot in 0..=16 {
        ppu.tick(0, dot, art.as_slice());
    }
    assert_eq!(ppu.frame[..8], [1; 8]);
    assert_eq!(ppu.frame[8..16], [2; 8]);
}

#[test]
fn the_mask_picks_one_of_512_colors() {
    let mut ppu = chip();
    assert_eq!(ppu.color(0xFF), 0x3F);
    ppu.mask = 0b0000_0001;
    assert_eq!(ppu.color(0x2C), 0x20);
    ppu.mask = 0b1110_0000;
    assert_eq!(ppu.color(0x2C), 7 * 64 + 0x2C);
}

#[test]
fn the_lap_clears_last_frame_s_flags() {
    let mut ppu = chip();
    let art = vec![0; 8192];
    ppu.sprite_zero_hit = true;
    ppu.sprite_overflow = true;
    ppu.tick(261, 0, art.as_slice());
    assert!(ppu.sprite_zero_hit);
    ppu.tick(261, 1, art.as_slice());
    assert!(!ppu.sprite_zero_hit && !ppu.sprite_overflow);
}

#[test]
fn a_wave_is_up_for_half_its_samples() {
    for hue in 1..13 {
        let up = wave(0x10 + hue).iter().filter(|spot| spot.level == 5).count();
        assert_eq!(up, 6);
    }
    // The grey column never drops, the black column never rises, and the
    // last two hues ignore their brightness.
    assert!(wave(0x20).iter().all(|spot| spot.level == 6));
    assert!(wave(0x2D).iter().all(|spot| spot.level == 2));
    assert!(wave(0x3F).iter().all(|spot| spot.level == 1));
}

#[test]
fn opposite_hues_alternate() {
    for hue in 0..6 {
        for p in 0..12 {
            assert_ne!(in_phase(hue, p), in_phase(hue + 6, p));
        }
    }
    assert!(in_phase(4, 0));
    assert!(!in_phase(0, 0));
}

#[test]
fn emphasis_darkens_and_does_not_bend() {
    for emphasis in 0..8usize {
        for crayon in 0..64 {
            let plain = wave(crayon);
            let tinted = wave(emphasis * 64 + crayon);
            for p in 0..12 {
                assert_eq!(plain[p].level, tinted[p].level);
                assert!(!plain[p].dimmed);
            }
        }
    }
    let red: Vec<bool> = wave(64).iter().map(|spot| spot.dimmed).collect();
    assert_eq!(red.iter().filter(|dimmed| **dimmed).count(), 6);
    assert_eq!(wave(7 * 64).iter().filter(|spot| spot.dimmed).count(), 12);
}
