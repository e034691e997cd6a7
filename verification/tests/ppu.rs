//! The picture chip.

use std::f32::consts::PI;

use graybox::beam::decode_tile;
use graybox::ppu::Ppu;
use graybox::signal::wave;

/// An album with nothing in it.
const NO_ART: &[u8] = &[];

/// The voltages a wave sits at, by signal level.
const SIGNAL_LEVELS: [f32; 8] = [0.350, 0.518, 0.962, 1.550, 1.094, 1.506, 1.962, 1.962];

/// One color, demodulated from the wave the chip puts on the wire the way a
/// television would, and converted to RGB.
fn decode_color(index: usize) -> u32 {
    let (mut y, mut i, mut q) = (0.0f32, 0.0f32, 0.0f32);
    for (p, spot) in wave(index).iter().enumerate() {
        let mut voltage = SIGNAL_LEVELS[spot.level];
        if spot.dimmed {
            voltage *= 0.746;
        }
        let v = (voltage - 0.518) / (1.962 - 0.518) / 12.0;
        let phase = PI * (p as f32) / 6.0;
        y += v;
        i += v * phase.cos();
        q += v * phase.sin();
    }
    i *= 2.0;
    q *= 2.0;
    let channel = |value: f32| -> u32 {
        let bent = if value <= 0.0 { 0.0 } else { value.powf(2.2 / 1.8) };
        (bent * 255.0).clamp(0.0, 255.0) as u32
    };
    let r = channel(y + 0.946_882 * i + 0.623_557 * q);
    let g = channel(y - 0.274_788 * i - 0.635_691 * q);
    let b = channel(y - 1.108_545 * i + 1.709_007 * q);
    (r << 16) | (g << 8) | b
}

/// All 512 colors.
fn colors() -> Vec<u32> {
    (0..512).map(decode_color).collect()
}

/// The crayon box: the answer key the signal decoding must reproduce,
/// entry for entry.
const SYSTEM_PALETTE: [u32; 64] = [
    0x525252, 0x001E94, 0x0907C2, 0x3100BD, 0x580086, 0x6F0036, 0x6C0000, 0x501000, 0x272900,
    0x023F00, 0x004B00, 0x004700, 0x003646, 0x000000, 0x000000, 0x000000, 0xA0A0A0, 0x004FFF,
    0x2C2AFF, 0x6D0FFF, 0xA905ED, 0xCB0775, 0xC61909, 0x9D3900, 0x5E6100, 0x208300, 0x009400,
    0x008F1A, 0x00758D, 0x000000, 0x000000, 0x000000, 0xFEFEFE, 0x3EA4FF, 0x7B78FF, 0xC656FF,
    0xFF46FF, 0xFF4ACE, 0xFF634C, 0xFB8B00, 0xB5B800, 0x6BDE00, 0x34F205, 0x1AEC63, 0x1ECFEA,
    0x3C3C3C, 0x000000, 0x000000, 0xFEFEFE, 0xAAD8FF, 0xC6C5FF, 0xE7B5FF, 0xFFADFF, 0xFFB0EA,
    0xFFBBB1, 0xFDCD82, 0xDFE16A, 0xBFF16D, 0xA5F98A, 0x97F7BC, 0x99EBF6, 0xA9A9A9, 0x000000,
    0x000000,
];

#[test]
fn a_hand_drawn_row_decodes() {
    // Row 0: plane 0 = $55, plane 1 = $33: reading the bits down
    // the columns should give 0,1,2,3 repeating.
    let mut chr = vec![0u8; 16];
    chr[0] = 0x55;
    chr[8] = 0x33;

    let pixels = decode_tile(chr.as_slice(), 0);
    assert_eq!(pixels[0], [0, 1, 2, 3, 0, 1, 2, 3]);
    assert_eq!(pixels[1], [0; 8]); // every other row stayed blank
}

#[test]
fn tiles_are_sixteen_bytes_apart() {
    // A single low bit at the start of tile 1, nowhere near tile 0.
    let mut chr = vec![0u8; 32];
    chr[16] = 0b1000_0000;

    let pixels = decode_tile(chr.as_slice(), 1);
    assert_eq!(pixels[0][0], 1);
    assert_eq!(decode_tile(chr.as_slice(), 0)[0][0], 0);
}

#[test]
fn famous_crayons_are_where_they_belong() {
    // $0F is the NES's true black; $20 and $30 are its whites; the
    // $x0 column is the grays, darkest to lightest.
    assert_eq!(SYSTEM_PALETTE[0x0F], 0x000000);
    assert_eq!(SYSTEM_PALETTE[0x20], SYSTEM_PALETTE[0x30]);
    // The white, pinned to the exact byte: a rounding slip here
    // passes every other test and shows up only when a frame sits
    // next to a reference picture.
    assert_eq!(SYSTEM_PALETTE[0x20], 0xFEFEFE);
    assert!(SYSTEM_PALETTE[0x00] < SYSTEM_PALETTE[0x10]);
}

#[test]
fn every_crayon_is_plain_rgb() {
    // No alpha surprises for the frame buffer.
    for color in SYSTEM_PALETTE {
        assert_eq!(color >> 24, 0);
    }
}

#[test]
fn the_address_arrives_big_half_first() {
    let mut ppu = Ppu::new(false, colors());
    ppu.write_address(0x23);
    ppu.write_address(0x45);
    ppu.write_data(0x99);
    assert_eq!(ppu.vram[0x0345], 0x99); // $2345 & $07FF
}

#[test]
fn data_writes_walk_forward_on_their_own() {
    let mut ppu = Ppu::new(false, colors());
    ppu.write_address(0x20);
    ppu.write_address(0x00);
    ppu.write_data(0x11);
    ppu.write_data(0x22);
    assert_eq!(ppu.vram[0], 0x11);
    assert_eq!(ppu.vram[1], 0x22);
}

#[test]
fn ctrl_can_make_the_walk_go_by_rows() {
    let mut ppu = Ppu::new(false, colors());
    ppu.ctrl = 0b0000_0100; // column order: step by 32
    ppu.write_address(0x20);
    ppu.write_address(0x00);
    ppu.write_data(0x11);
    ppu.write_data(0x22);
    assert_eq!(ppu.vram[32], 0x22); // one screen-row down
}

#[test]
fn palette_writes_land_in_the_palette() {
    let mut ppu = Ppu::new(false, colors());
    ppu.write_address(0x3F);
    ppu.write_address(0x01);
    ppu.write_data(0x16);
    assert_eq!(ppu.palette_ram[1], 0x16);
}

#[test]
fn looking_at_status_clears_the_flag() {
    let mut ppu = Ppu::new(false, colors());
    ppu.vblank = true;
    assert_eq!(ppu.read_status() & 0x80, 0x80);
    assert_eq!(ppu.read_status() & 0x80, 0); // looking took it
}

#[test]
fn horizontal_mirroring_keeps_2800_out_of_2000() {
    // Chase's exact accident: write a title byte at $2086, then
    // clear $2886 (nametable C). On a horizontal board those are
    // different rooms: the title must survive.
    let mut ppu = Ppu::new(false, colors());
    ppu.write_address(0x20);
    ppu.write_address(0x86);
    ppu.write_data(0x40);
    ppu.write_address(0x28);
    ppu.write_address(0x86);
    ppu.write_data(0x00);
    assert_eq!(ppu.vram[0x086], 0x40); // the title byte, alive
    assert_eq!(ppu.vram[0x486], 0x00); // the other room, cleared
}

#[test]
fn vertical_mirroring_shares_the_other_way() {
    // On a vertical board, $2000 and $2800 ARE the same room.
    let mut ppu = Ppu::new(true, colors());
    ppu.write_address(0x20);
    ppu.write_address(0x86);
    ppu.write_data(0x40);
    ppu.write_address(0x28);
    ppu.write_address(0x86);
    ppu.write_data(0x77);
    assert_eq!(ppu.vram[0x086], 0x77); // same room: overwritten
}

#[test]
fn reading_data_walks_the_address_too() {
    // The trick real palette loaders use: READ $2007 and discard
    // the byte, just to step past an address without touching it.
    let mut ppu = Ppu::new(false, colors());
    ppu.write_address(0x3F);
    ppu.write_address(0x00);
    ppu.write_data(0x11); // lands at $3F00
    ppu.read_data(NO_ART); // a footstep past $3F01, touching nothing
    ppu.write_data(0x33); // must land at $3F02
    assert_eq!(ppu.palette_ram[0], 0x11);
    assert_eq!(ppu.palette_ram[1], 0x00); // undisturbed
    assert_eq!(ppu.palette_ram[2], 0x33);
}

#[test]
fn data_reads_arrive_one_read_late() {
    let mut ppu = Ppu::new(false, colors());
    ppu.write_address(0x20);
    ppu.write_address(0x00);
    ppu.write_data(0x55);

    ppu.write_address(0x20);
    ppu.write_address(0x00);
    assert_eq!(ppu.read_data(NO_ART), 0x00); // the stale waiting room
    assert_eq!(ppu.read_data(NO_ART), 0x55); // yesterday's byte, today
}

#[test]
fn looking_at_status_also_resets_the_two_knocks() {
    // A game half-through an address read $2002: the next knock
    // must count as a FIRST knock again.
    let mut ppu = Ppu::new(false, colors());
    ppu.write_address(0x3F); // first knock of an abandoned address
    ppu.read_status();
    ppu.write_address(0x20); // a fresh first knock: the big half
    ppu.write_address(0x08);
    ppu.write_data(0x77);
    assert_eq!(ppu.vram[8], 0x77);
}

/// A cartridge's worth of art for the belt tests: tile 0 blank,
/// tile 1 solid pattern-value 3.
fn test_chr() -> Vec<u8> {
    let mut chr = vec![0; 8192];
    for byte in &mut chr[16..32] {
        *byte = 0xFF;
    }
    chr
}

/// Walk the belt through the warm-up lap's priming and into a
/// scanline, so the frame's first pixels arrive the way real ones do.
fn prime_and_draw(ppu: &mut Ppu, chr: &[u8], dots: usize) {
    for dot in 321..=336 {
        ppu.tick(261, dot, chr);
    }
    for dot in 1..=dots as u16 {
        ppu.tick(0, dot, chr);
    }
}

#[test]
fn the_crayon_box_folds_at_3f10() {
    let mut ppu = Ppu::new(false, colors());
    ppu.write_address(0x3F);
    ppu.write_address(0x10);
    ppu.write_data(0x2A);
    assert_eq!(ppu.palette_ram[0], 0x2A); // landed on $3F00
}

#[test]
fn the_belt_delivers_the_tile_under_the_beam() {
    let mut ppu = Ppu::new(false, colors());
    ppu.mask = 0b0000_1010; // background on, left window open
    ppu.vram[0] = 1; // first cell: the solid tile
    ppu.vram[2] = 1; // third cell: solid again
    ppu.palette_ram[0] = 0x0F; // backdrop: black
    ppu.palette_ram[3] = 0x30; // palette 0, value 3: white

    prime_and_draw(&mut ppu, test_chr().as_slice(), 16);

    // Tile 0 of the line is solid value 3; its neighbor is blank
    // and falls through to the backdrop.
    assert_eq!(ppu.frame[0], SYSTEM_PALETTE[0x30]);
    assert_eq!(ppu.frame[7], SYSTEM_PALETTE[0x30]);
    assert_eq!(ppu.frame[8], SYSTEM_PALETTE[0x0F]);

    // The palette answers at pixel time: repaint the crayon
    // mid-line, and the third cell: same tile, same bits,
    // already fetched: comes out in the new color.
    ppu.palette_ram[3] = 0x16;
    for dot in 17..=24 {
        ppu.tick(0, dot, test_chr().as_slice());
    }
    assert_eq!(ppu.frame[16], SYSTEM_PALETTE[0x16]);
}

#[test]
fn rendering_off_shows_the_crayon_the_address_points_at() {
    let mut ppu = Ppu::new(false, colors());
    ppu.palette_ram[7] = 0x21;
    ppu.write_address(0x3F);
    ppu.write_address(0x07);

    ppu.tick(0, 5, test_chr().as_slice());
    assert_eq!(ppu.frame[4], SYSTEM_PALETTE[0x21]);
}

#[test]
fn scroll_writes_stage_t_and_x_without_touching_v() {
    // The NesDev wiki's own worked example: $7D then $5E.
    let mut ppu = Ppu::new(false, colors());
    ppu.write_scroll(0x7D); // coarse X 15, fine X 5
    ppu.write_scroll(0x5E); // coarse Y 11, fine Y 6
    assert_eq!(ppu.t, (6 << 12) | (11 << 5) | 15);
    assert_eq!(ppu.x, 5);
    assert_eq!(ppu.v, 0); // staged, not applied
}

#[test]
fn the_second_address_knock_moves_the_camera() {
    let mut ppu = Ppu::new(false, colors());
    ppu.write_address(0x21);
    assert_eq!(ppu.v, 0); // one knock: still staged
    ppu.write_address(0x08);
    assert_eq!(ppu.v, 0x2108); // two knocks: applied
}

#[test]
fn walking_off_a_nametable_lands_in_its_neighbor() {
    let mut ppu = Ppu::new(false, colors());

    // Right edge: coarse X 31 wraps to 0 and the horizontal
    // name bit flips.
    ppu.v = 31;
    ppu.increment_x();
    assert_eq!(ppu.v, 0x0400);

    // Bottom edge: fine Y 7 on row 29 wraps to row 0 of the
    // nametable below.
    ppu.v = (7 << 12) | (29 << 5);
    ppu.increment_y();
    assert_eq!(ppu.v, 0x0800);
}

#[test]
fn the_warm_up_lap_applies_the_staged_camera() {
    let mut ppu = Ppu::new(false, colors());
    ppu.mask = 0b0000_1010; // background on, left window open
    ppu.vram[2] = 1; // two cells in: the solid tile
    ppu.palette_ram[3] = 0x30;

    // Aim two tiles right; nothing moves yet.
    ppu.write_scroll(16);
    ppu.write_scroll(0);

    // The warm-up lap's copy-downs apply it, then the usual
    // priming: and the line starts two tiles into the world.
    let chr = test_chr();
    ppu.tick(261, 257, chr.as_slice());
    ppu.tick(261, 280, chr.as_slice());
    for dot in 321..=336 {
        ppu.tick(261, dot, chr.as_slice());
    }
    for dot in 1..=8 {
        ppu.tick(0, dot, chr.as_slice());
    }
    assert_eq!(ppu.frame[0], SYSTEM_PALETTE[0x30]);
}

#[test]
fn fine_x_slides_the_world_within_a_tile() {
    let mut ppu = Ppu::new(false, colors());
    ppu.mask = 0b0000_1010; // background on, left window open
    ppu.vram[0] = 1; // solid, then blank
    ppu.palette_ram[0] = 0x0F;
    ppu.palette_ram[3] = 0x30;

    ppu.write_scroll(4); // coarse 0, fine 4
    ppu.write_scroll(0);

    let chr = test_chr();
    ppu.tick(261, 257, chr.as_slice());
    ppu.tick(261, 280, chr.as_slice());
    for dot in 321..=336 {
        ppu.tick(261, dot, chr.as_slice());
    }
    for dot in 1..=8 {
        ppu.tick(0, dot, chr.as_slice());
    }

    // The screen's first pixel is the tile's FIFTH: four white
    // pixels remain, then the blank neighbor shows through.
    assert_eq!(ppu.frame[3], SYSTEM_PALETTE[0x30]);
    assert_eq!(ppu.frame[4], SYSTEM_PALETTE[0x0F]);
}

/// Stand a sprite in the roster: the solid tile, at a position,
/// with its manners.
fn place_sprite(ppu: &mut Ppu, slot: usize, x: u8, y: u8, attributes: u8) {
    ppu.oam[slot * 4] = y;
    ppu.oam[slot * 4 + 1] = 1;
    ppu.oam[slot * 4 + 2] = attributes;
    ppu.oam[slot * 4 + 3] = x;
}

/// Draw one full line the honest way: prime on the warm-up lap,
/// walk line 0 (which casts and primes line 1), then line 1.
fn draw_line_one(ppu: &mut Ppu, chr: &[u8]) {
    for dot in 321..=336 {
        ppu.tick(261, dot, chr);
    }
    for dot in 1..=340 {
        ppu.tick(0, dot, chr);
    }
    for dot in 1..=256 {
        ppu.tick(1, dot, chr);
    }
}

#[test]
fn flips_mirror_the_sprite_not_just_its_position() {
    // Zooming Secretary walked left in two pieces: her tiles
    // swapped positions but nobody read bit 6, so each half
    // faced the wrong way. This pins the mirror forever.
    let mut chr = vec![0; 8192];
    for row in 0..8 {
        chr[16 + row] = 0xF0; // tile 1: left half lit...
        chr[24 + row] = 0xF0; // ...in both planes: value 3
    }
    let mut ppu = Ppu::new(false, colors());
    ppu.mask = 0b0001_1110;
    ppu.palette_ram[0] = 0x0F;
    ppu.palette_ram[0x13] = 0x30;

    place_sprite(&mut ppu, 0, 100, 49, 0);
    ppu.evaluate_sprites(50, chr.as_slice());
    for dot in 1..=256 {
        ppu.tick(50, dot, chr.as_slice());
    }
    let row = &ppu.frame[50 * 256..51 * 256];
    assert_eq!(row[100], SYSTEM_PALETTE[0x30]); // lit half left
    assert_eq!(row[107], SYSTEM_PALETTE[0x0F]);

    place_sprite(&mut ppu, 0, 100, 49, 0b0100_0000); // flip H
    ppu.evaluate_sprites(50, chr.as_slice());
    for dot in 1..=256 {
        ppu.tick(50, dot, chr.as_slice());
    }
    let row = &ppu.frame[50 * 256..51 * 256];
    assert_eq!(row[100], SYSTEM_PALETTE[0x0F]); // now mirrored
    assert_eq!(row[107], SYSTEM_PALETTE[0x30]);
}

#[test]
fn sprite_zero_reports_the_meeting() {
    let chr = test_chr();
    let mut ppu = Ppu::new(false, colors());
    ppu.mask = 0b0001_1110;
    ppu.vram[0] = 1; // scenery under the sprite's left half

    place_sprite(&mut ppu, 0, 4, 0, 0); // covers lines 1-8
    draw_line_one(&mut ppu, &chr);
    assert!(ppu.sprite_zero_hit);

    // No scenery, no meeting: same sprite over a blank world.
    let mut ppu = Ppu::new(false, colors());
    ppu.mask = 0b0001_1110;
    place_sprite(&mut ppu, 0, 4, 0, 0);
    draw_line_one(&mut ppu, &chr);
    assert!(!ppu.sprite_zero_hit);
}

#[test]
fn a_ninth_actor_raises_the_overflow_flag() {
    let chr = test_chr();
    let mut ppu = Ppu::new(false, colors());
    ppu.mask = 0b0001_1000;
    for slot in 0..8 {
        place_sprite(&mut ppu, slot, (slot * 8) as u8, 49, 0);
    }
    ppu.evaluate_sprites(50, chr.as_slice());
    assert!(!ppu.sprite_overflow);

    place_sprite(&mut ppu, 8, 64, 49, 0);
    ppu.evaluate_sprites(50, chr.as_slice());
    assert!(ppu.sprite_overflow);
}

#[test]
fn a_behind_sprite_hides_in_scenery_and_shows_in_holes() {
    let chr = test_chr();
    let mut ppu = Ppu::new(false, colors());
    ppu.mask = 0b0001_1110;
    ppu.palette_ram[0] = 0x0F;
    ppu.palette_ram[3] = 0x21;
    ppu.palette_ram[0x13] = 0x30;
    ppu.vram[1] = 1; // scenery over x8-15 only

    place_sprite(&mut ppu, 0, 12, 0, 0b0010_0000); // behind
    draw_line_one(&mut ppu, &chr);
    let row = &ppu.frame[256..512];
    assert_eq!(row[13], SYSTEM_PALETTE[0x21]); // scenery wins
    assert_eq!(row[17], SYSTEM_PALETTE[0x30]); // holes don't
}

#[test]
fn the_roster_door_reads_writes_and_masks() {
    let mut ppu = Ppu::new(false, colors());
    ppu.write_oam_address(5);
    ppu.write_oam_data(0x77);
    assert_eq!(ppu.oam[5], 0x77);

    ppu.write_oam_address(6); // an attribute byte
    ppu.write_oam_data(0xFF);
    ppu.write_oam_address(6);
    assert_eq!(ppu.read_oam_data(), 0xE3); // unwired bits: zero
}

#[test]
fn the_left_window_hides_the_cast() {
    let chr = test_chr();
    let mut ppu = Ppu::new(false, colors());
    ppu.palette_ram[0x13] = 0x30;
    place_sprite(&mut ppu, 0, 2, 0, 0);

    ppu.mask = 0b0001_0000; // sprites on, their window closed
    ppu.evaluate_sprites(1, chr.as_slice());
    for dot in 1..=8 {
        ppu.tick(1, dot, chr.as_slice());
    }
    assert_ne!(ppu.frame[256 + 3], SYSTEM_PALETTE[0x30]);

    ppu.mask = 0b0001_0100; // window open
    for dot in 1..=8 {
        ppu.tick(1, dot, chr.as_slice());
    }
    assert_eq!(ppu.frame[256 + 3], SYSTEM_PALETTE[0x30]);
}

#[test]
fn the_computation_reproduces_chapter_14s_table() {
    // The table is the output of this exact decoding, done ahead of
    // time: the signal must give the same 64 answers.
    let mut ppu = Ppu::new(false, colors());
    for crayon in 0..64 {
        assert_eq!(
            ppu.colors[crayon], SYSTEM_PALETTE[crayon],
            "crayon {crayon:#04X} decoded differently than the table"
        );
    }
}

#[test]
fn every_emphasis_setting_is_its_own_palette() {
    let mut ppu = Ppu::new(false, colors());
    for emphasis in 1..8 {
        let plain = &ppu.colors[..64];
        let dimmed = &ppu.colors[emphasis * 64..emphasis * 64 + 64];
        assert_ne!(plain, dimmed);
    }
}

#[test]
fn the_mask_greys_and_dims() {
    let mut ppu = Ppu::new(false, colors());
    let plain = ppu.color(0x21);

    ppu.mask = 0b0000_0001; // greyscale: the hue drops away
    assert_eq!(ppu.color(0x21), ppu.color(0x20));

    ppu.mask = 0b0010_0000; // red emphasis: same crayon, dimmed
    assert_ne!(ppu.color(0x21), plain);
}

#[test]
fn the_forbidden_crayon_has_grey_cousins() {
    // $0D sits below black. Its column
    // is not all black, though: $3D is a true light grey. The
    // signal knows the difference even where a table shrugs.
    let mut ppu = Ppu::new(false, colors());
    assert_eq!(ppu.colors[0x0D], 0);
    assert!(ppu.colors[0x3D] >> 16 > 100);
}
