//! What the picture chip paints, told in the bytes of its memories: which
//! byte of the album a pixel comes from, which cell of the crayon box colors
//! it, and on which dot of which line each thing happens.

use vstd::prelude::*;

use crate::beam;
use crate::bits;
use crate::ppu;
use crate::ppu::{PpuState, SpriteRow};

verus! {

/// What a column of a byte weighs, the leftmost first.
pub open spec fn weight(column: int) -> u8 {
    if column == 0 {
        128
    } else if column == 1 {
        64
    } else if column == 2 {
        32
    } else if column == 3 {
        16
    } else if column == 4 {
        8
    } else if column == 5 {
        4
    } else if column == 6 {
        2
    } else {
        1
    }
}

proof fn lemma_bits_of_a_byte(byte: u8)
    by (bit_vector)
    ensures
        (byte >> 0u8) & 1 == byte % 2,
        (byte >> 1u8) & 1 == byte / 2 % 2,
        (byte >> 2u8) & 1 == byte / 4 % 2,
        (byte >> 3u8) & 1 == byte / 8 % 2,
        (byte >> 4u8) & 1 == byte / 16 % 2,
        (byte >> 5u8) & 1 == byte / 32 % 2,
        (byte >> 6u8) & 1 == byte / 64 % 2,
        (byte >> 7u8) & 1 == byte / 128 % 2,
        (byte >> 0u8) & 0b11 == byte % 4,
        (byte >> 2u8) & 0b11 == byte / 4 % 4,
        (byte >> 4u8) & 0b11 == byte / 16 % 4,
        (byte >> 6u8) & 0b11 == byte / 64,
{
}

proof fn lemma_bits_of_a_word(word: u16)
    by (bit_vector)
    ensures
        (word >> 8u16) & 1 == word / 256 % 2,
        (word >> 9u16) & 1 == word / 512 % 2,
        (word >> 10u16) & 1 == word / 1024 % 2,
        (word >> 11u16) & 1 == word / 2048 % 2,
        (word >> 12u16) & 1 == word / 4096 % 2,
        (word >> 13u16) & 1 == word / 8192 % 2,
        (word >> 14u16) & 1 == word / 16384 % 2,
        (word >> 15u16) & 1 == word / 32768 % 2,
        word << 1 == word % 32768 * 2,
{
}

/// A column's bit of a byte, by what it weighs.
proof fn lemma_weighed(byte: u8, column: int)
    requires
        0 <= column < 8,
    ensures
        bits::bit(byte, (7 - column) as u8) == byte / weight(column) % 2,
{
    lemma_bits_of_a_byte(byte);
    if column == 0 {
        assert(weight(column) == 128);
    } else if column == 1 {
        assert(weight(column) == 64);
    } else if column == 2 {
        assert(weight(column) == 32);
    } else if column == 3 {
        assert(weight(column) == 16);
    } else if column == 4 {
        assert(weight(column) == 8);
    } else if column == 5 {
        assert(weight(column) == 4);
    } else if column == 6 {
        assert(weight(column) == 2);
    } else {
        assert(weight(column) == 1);
    }
}

/// The same of the upper half of a word.
proof fn lemma_word_weighed(word: u16, column: int)
    requires
        0 <= column < 8,
    ensures
        bits::bit16(word, (15 - column) as u16) as int == word as int / (256 * weight(column)) % 2,
        0 <= word as int / (256 * weight(column)) % 2 < 2,
{
    lemma_bits_of_a_word(word);
    if column == 0 {
        assert(256 * weight(column) == 32768);
    } else if column == 1 {
        assert(256 * weight(column) == 16384);
    } else if column == 2 {
        assert(256 * weight(column) == 8192);
    } else if column == 3 {
        assert(256 * weight(column) == 4096);
    } else if column == 4 {
        assert(256 * weight(column) == 2048);
    } else if column == 5 {
        assert(256 * weight(column) == 1024);
    } else if column == 6 {
        assert(256 * weight(column) == 512);
    } else {
        assert(256 * weight(column) == 256);
    }
}

/// A pixel of a tile is one bit of each of two bytes, eight apart: the first
/// is its low bit, the second its high bit, and the top bit of a byte is the
/// leftmost pixel.
pub proof fn law_pixels_of_a_tile(chr: Seq<u8>, tile: int, row: int, column: int)
    requires
        0 <= column < 8,
    ensures
        beam::tile_pixel(chr, tile, row, column) == chr[16 * tile + row] / weight(column) % 2 + 2 * (chr[16 * tile + 8
            + row] / weight(column) % 2),
{
    lemma_weighed(chr[tile * 16 + row], column);
    lemma_weighed(chr[tile * 16 + row + 8], column);
    bits::lemma_bit_small(chr[tile * 16 + row], (7 - column) as u8);
    bits::lemma_bit_small(chr[tile * 16 + row + 8], (7 - column) as u8);
    assert(tile * 16 + row + 8 == 16 * tile + 8 + row);
}

/// The palette a fetch picks. The attribute byte of a tile's block of four by
/// four stands in the last 64 bytes of its nametable, eight blocks to the
/// row; its lowest two bits are for the block's top left quarter, the next
/// two for the top right, then the bottom left, then the bottom right.
pub proof fn law_palette_by_quarter(state: PpuState, chr: Seq<u8>)
    ensures
        ({
            let column = state.v % 32;
            let row = state.v / 32 % 32;
            let name = state.v / 1024 % 4;
            let byte = state.vram[ppu::mirrored(
                state.mirroring,
                name * 1024 + 960 + row / 4 * 8 + column / 4,
            )];
            state.fetched(chr).next_attr == if row % 4 < 2 {
                if column % 4 < 2 {
                    byte % 4
                } else {
                    byte / 4 % 4
                }
            } else {
                if column % 4 < 2 {
                    byte / 16 % 4
                } else {
                    byte / 64
                }
            }
        }),
{
    let byte = state.vram[ppu::mirrored(state.mirroring, beam::attribute_cell(state.v))];
    lemma_quarter(state.v);
    lemma_bits_of_a_byte(byte);
    assert(state.fetched(chr).next_attr == (byte >> beam::attribute_place(state.v)) & 0b11);
}

/// Where a tile's attribute byte stands, and where in it its two bits begin.
proof fn lemma_quarter(v: u16)
    ensures
        beam::attribute_cell(v) == v / 1024 % 4 * 1024 + 960 + v / 32 % 32 / 4 * 8 + v % 32 / 4,
        v / 32 % 32 % 4 < 2 && v % 32 % 4 < 2 ==> beam::attribute_place(v) == 0,
        v / 32 % 32 % 4 < 2 && v % 32 % 4 >= 2 ==> beam::attribute_place(v) == 2,
        v / 32 % 32 % 4 >= 2 && v % 32 % 4 < 2 ==> beam::attribute_place(v) == 4,
        v / 32 % 32 % 4 >= 2 && v % 32 % 4 >= 2 ==> beam::attribute_place(v) == 6,
{
    lemma_half_of_four((v / 32 % 32) as int);
    lemma_half_of_four((v % 32) as int);
}

/// Which half of four a number is in.
proof fn lemma_half_of_four(n: int)
    requires
        0 <= n,
    ensures
        n % 4 < 2 ==> n / 2 % 2 == 0,
        n % 4 >= 2 ==> n / 2 % 2 == 1,
{
}

/// What a fetch takes: the two bytes, eight apart, of the pixel row that the
/// address's top three bits name, of the tile that the nametable names there,
/// in the half of the album that bit 4 of the settings picks; and nothing but
/// the pockets changes.
pub proof fn law_fetch_takes_the_row(state: PpuState, chr: Seq<u8>)
    ensures
        ({
            let after = state.fetched(chr);
            let tile = state.vram[ppu::mirrored(state.mirroring, state.v as int)];
            let half = if state.ctrl & 0b0001_0000 != 0 {
                4096int
            } else {
                0
            };
            let start = half + 16 * tile + state.v / 4096 % 8;
            &&& after.next_pattern_low == chr[start]
            &&& after.next_pattern_high == chr[start + 8]
            &&& after == (PpuState {
                next_pattern_low: after.next_pattern_low,
                next_pattern_high: after.next_pattern_high,
                next_attr: after.next_attr,
                ..state
            })
        }),
{
}

/// The belt in numbers: a dot doubles its four registers within sixteen bits;
/// a boundary puts the pockets into their low bytes, a palette bit as eight
/// of the same.
pub proof fn law_belt_registers(state: PpuState)
    requires
        state.next_attr < 4,
    ensures
        ({
            let after = state.shifted();
            &&& after.shift_low == state.shift_low % 32768 * 2
            &&& after.shift_high == state.shift_high % 32768 * 2
            &&& after.attr_low == state.attr_low % 32768 * 2
            &&& after.attr_high == state.attr_high % 32768 * 2
        }),
        ({
            let after = state.reloaded();
            &&& after.shift_low == state.shift_low / 256 * 256 + state.next_pattern_low
            &&& after.shift_high == state.shift_high / 256 * 256 + state.next_pattern_high
            &&& after.attr_low == state.attr_low / 256 * 256 + state.next_attr % 2 * 255
            &&& after.attr_high == state.attr_high / 256 * 256 + state.next_attr / 2 * 255
        }),
{
    lemma_bits_of_a_word(state.shift_low);
    lemma_bits_of_a_word(state.shift_high);
    lemma_bits_of_a_word(state.attr_low);
    lemma_bits_of_a_word(state.attr_high);
    lemma_pair_of_bits(state.next_attr);
}

proof fn lemma_pair_of_bits(pair: u8)
    by (bit_vector)
    requires
        pair < 4,
    ensures
        (pair & 1 != 0) == (pair % 2 == 1),
        (pair & 2 != 0) == (pair / 2 == 1),
{
}

/// The background's pixel: of each belt register the bit that fine X counts
/// from the top, the pattern's two a value and the palette's two a palette.
/// Value 0, and every pixel where the layer is off or its left edge is
/// covered, is the backdrop, cell 0; another is cell `4 * palette + value`.
pub proof fn law_background_pixel(state: PpuState, x: int)
    requires
        state.x < 8,
    ensures
        ({
            let place = 256 * weight(state.x as int);
            let value = state.shift_low as int / place % 2 + 2 * (state.shift_high as int / place % 2);
            let palette = state.attr_low as int / place % 2 + 2 * (state.attr_high as int / place % 2);
            let off = state.mask & 0b0000_1000 == 0 || x < 8 && state.mask & 0b0000_0010 == 0;
            &&& value == 0 || off ==> state.background(x) == (0int, state.palette_ram[0])
            &&& value != 0 && !off ==> state.background(x) == (value, state.palette_ram[4 * palette + value])
        }),
{
    lemma_word_weighed(state.shift_low, state.x as int);
    lemma_word_weighed(state.shift_high, state.x as int);
    lemma_word_weighed(state.attr_low, state.x as int);
    lemma_word_weighed(state.attr_high, state.x as int);
}

/// Which sprites cover a line: those whose roster byte is above it by one to
/// the sprite's height.
pub proof fn law_sprites_stand_one_below(y: u8, line: int, height: int)
    ensures
        beam::covers(y, line, height) == (y < line && line <= y + height),
{
}

/// How tall sprites are: sixteen lines with bit 5 of the settings, and eight
/// without.
pub proof fn law_sprite_height(state: PpuState)
    ensures
        state.sprite_height() == if state.ctrl & 0b0010_0000 == 0 {
            8int
        } else {
            16
        },
{
}

/// A sprite's row on a line, byte by byte of its slot: X is the fourth, the
/// attributes the third; counted from one line below the first byte, from the
/// bottom if bit 7 flips it, the row comes out of the tile that the second
/// byte numbers, from the right if bit 6 flips it. Eight lines tall, the tile
/// is in the half that bit 3 of the settings picks; sixteen tall, in the half
/// that the number's low bit picks, the lower eight in the tile after.
pub proof fn law_sprite_row(state: PpuState, slot: int, line: int, chr: Seq<u8>, column: int)
    requires
        0 <= column < 8,
        beam::covers(state.oam[slot * 4], line, state.sprite_height()),
    ensures
        ({
            let sprite = state.cast_row(slot, line, chr);
            let number = state.oam[4 * slot + 1] as int;
            let attributes = state.oam[4 * slot + 2];
            let height = state.sprite_height();
            let down = line - 1 - state.oam[4 * slot];
            let row = if attributes & 0b1000_0000 == 0 {
                down
            } else {
                height - 1 - down
            };
            let across = if attributes & 0b0100_0000 == 0 {
                column
            } else {
                7 - column
            };
            let tile = if height == 8 {
                number + (if state.ctrl & 0b0000_1000 == 0 {
                    0int
                } else {
                    256
                })
            } else {
                number - number % 2 + (if number % 2 == 0 {
                    0int
                } else {
                    256
                }) + (if row < 8 {
                    0int
                } else {
                    1
                })
            };
            let below = if row < 8 {
                row
            } else {
                row - 8
            };
            &&& sprite.x == state.oam[4 * slot + 3]
            &&& sprite.attributes == attributes
            &&& sprite.is_zero == (slot == 0)
            &&& sprite.pixels.len() == 8
            &&& sprite.pixels[column] == beam::tile_pixel(chr, tile, below, across)
        }),
{
}

/// The cast of a line: its first eight sprites in roster order, each with its
/// row; and where a ninth covers the line, the flag rises if the scan finds
/// one, which begins with the ninth and looks one byte further into each slot
/// than into the one before, round the four.
pub proof fn law_cast_of_a_line(state: PpuState, line: int, chr: Seq<u8>, i: int)
    ensures
        ({
            let cast = state.cast(line);
            let after = state.evaluated(line, chr);
            &&& after.line_sprites.len() == if cast.len() < 8 {
                cast.len()
            } else {
                8
            }
            &&& 0 <= i < after.line_sprites.len() ==> after.line_sprites[i] == state.cast_row(cast[i], line, chr)
            &&& after.sprite_overflow == (state.sprite_overflow || cast.len() > 8 && exists|n: int|
                cast[8] <= n < 64 && #[trigger] state.oam[n * 4 + (n - cast[8]) % 4] < line && line
                    <= state.oam[n * 4 + (n - cast[8]) % 4] + state.sprite_height())
            &&& after == (PpuState {
                line_sprites: after.line_sprites,
                sprite_overflow: after.sprite_overflow,
                ..state
            })
        }),
{
    let cast = state.cast(line);
    let height = state.sprite_height();
    if cast.len() > 8 {
        let from = cast[8];
        if beam::overflow_found(state.oam, line, height, from) {
            let n = choose|n: int|
                from <= n < 64 && beam::covers(#[trigger] state.oam[n * 4 + (n - from) % 4], line, height);
            assert(state.oam[n * 4 + (n - from) % 4] < line);
        }
    }
}

/// A line's cast is the slots that cover it, of all sixty-four, in order: a
/// slot is in it exactly when its first byte is above the line by one to the
/// height.
pub proof fn law_cast_is_the_covering_slots(state: PpuState, line: int, slot: int)
    requires
        0 <= slot < 64,
    ensures
        state.cast(line).contains(slot) == (state.oam[slot * 4] < line && line <= state.oam[slot * 4]
            + state.sprite_height()),
{
    let height = state.sprite_height();
    if beam::covers(state.oam[slot * 4], line, height) {
        beam::law_cast_leaves_nobody_out(state.oam, line, height, 64, slot);
    } else if state.cast(line).contains(slot) {
        let i = choose|i: int| 0 <= i < state.cast(line).len() && state.cast(line)[i] == slot;
        beam::law_cast_covers_the_line(state.oam, line, height, 64, i);
    }
}

/// Which sprite a dot shows: the first of the cast that reaches it with a
/// pixel other than 0, and none if no one does.
pub proof fn law_first_opaque_sprite_wins(rows: Seq<SpriteRow>, x: int, i: int)
    requires
        0 <= i < rows.len(),
        rows[i].x <= x,
        x - rows[i].x < 8,
        rows[i].pixels[x - rows[i].x] != 0,
        forall|j: int|
            0 <= j < i ==> !(#[trigger] rows[j].x <= x && x - rows[j].x < 8 && rows[j].pixels[x - rows[j].x] != 0),
    ensures
        beam::sprite_offer(rows, x) == Some(
            (rows[i].pixels[x - rows[i].x] as int, rows[i].attributes, rows[i].is_zero),
        ),
    decreases rows.len(),
{
    if i > 0 {
        let rest = rows.drop_first();
        assert(!beam::opaque_at(rows[0], x)) by {
            assert(rows[0].x <= x || rows[0].x > x);
        }
        assert forall|j: int| 0 <= j < i - 1 implies !(#[trigger] rest[j].x <= x && x - rest[j].x < 8
            && rest[j].pixels[x - rest[j].x] != 0) by {
            assert(rest[j] == rows[j + 1]);
            assert(rows[j + 1].x <= x || rows[j + 1].x > x);
        }
        law_first_opaque_sprite_wins(rest, x, i - 1);
    }
}

/// Where no sprite of the cast reaches a dot with a pixel other than 0, none
/// is shown.
pub proof fn law_clear_sprites_show_nothing(rows: Seq<SpriteRow>, x: int)
    requires
        forall|j: int|
            0 <= j < rows.len() ==> !(#[trigger] rows[j].x <= x && x - rows[j].x < 8 && rows[j].pixels[x - rows[j].x]
                != 0),
    ensures
        beam::sprite_offer(rows, x) is None,
    decreases rows.len(),
{
    if rows.len() > 0 {
        let rest = rows.drop_first();
        assert(!beam::opaque_at(rows[0], x)) by {
            assert(rows[0].x <= x || rows[0].x > x);
        }
        assert forall|j: int| 0 <= j < rest.len() implies !(#[trigger] rest[j].x <= x && x - rest[j].x < 8
            && rest[j].pixels[x - rest[j].x] != 0) by {
            assert(rest[j] == rows[j + 1]);
            assert(rows[j + 1].x <= x || rows[j + 1].x > x);
        }
        law_clear_sprites_show_nothing(rest, x);
    }
}

/// Where sprites can be seen at all: not on the first line, not with their
/// layer off, and not under a covered left edge.
pub proof fn law_sprites_can_be_covered(state: PpuState, scanline: int, x: int)
    ensures
        scanline == 0 || state.mask & 0b0001_0000 == 0 || x < 8 && state.mask & 0b0000_0100 == 0 ==> state.offer(
            scanline,
            x,
        ) is None,
        scanline != 0 && state.mask & 0b0001_0000 != 0 && (x >= 8 || state.mask & 0b0000_0100 != 0) ==> state.offer(
            scanline,
            x,
        ) == beam::sprite_offer(state.line_sprites, x),
{
}

/// The crayon of a dot where a sprite stands: the background's if the sprite
/// is behind, bit 5, and the background is not clear; otherwise, by the low
/// two bits of its attributes, a cell of one of the four sprite palettes, $10
/// and up, $14, $18 or $1C.
pub proof fn law_sprite_is_painted_from_its_palette(
    state: PpuState,
    background: (int, u8),
    value: int,
    attributes: u8,
    is_zero: bool,
)
    ensures
        ({
            let shown = state.shown(background, Some((value, attributes, is_zero)));
            let behind = attributes & 0b0010_0000 != 0 && background.0 != 0;
            &&& behind ==> shown == background.1
            &&& !behind && attributes % 4 == 0 ==> shown == state.palette_ram[0x10 + value]
            &&& !behind && attributes % 4 == 1 ==> shown == state.palette_ram[0x14 + value]
            &&& !behind && attributes % 4 == 2 ==> shown == state.palette_ram[0x18 + value]
            &&& !behind && attributes % 4 == 3 ==> shown == state.palette_ram[0x1C + value]
        }),
        state.shown(background, None) == background.1,
{
}

/// When sprite zero is met: by an opaque background, left of the last column,
/// and by no other sprite.
pub proof fn law_only_sprite_zero_is_met(
    background: (int, u8),
    value: int,
    attributes: u8,
    is_zero: bool,
    x: int,
)
    ensures
        PpuState::meets(background, Some((value, attributes, is_zero)), x) == (is_zero && background.0 != 0 && x
            != 255),
        !PpuState::meets(background, None, x),
{
}

/// The color of a crayon: its place in the table of its emphasis, which the
/// mask's top three bits pick; with the mask's lowest bit, that of the grey at
/// the head of its row.
pub proof fn law_color_of_a_crayon(state: PpuState, crayon: u8)
    ensures
        state.color(crayon) == if state.mask & 0b0000_0001 == 0 {
            state.colors[64 * (state.mask / 32) + crayon % 64]
        } else {
            state.colors[64 * (state.mask / 32) + crayon % 64 / 16 * 16]
        },
{
}

/// A dot is painted: its own pixel of the frame and no other, with the color
/// of the crayon that shows there, and sprite zero's flag stays up or rises
/// with a meeting. With both layers off the backdrop shows, or the crayon the
/// data port is aimed at, and nobody meets.
pub proof fn law_dot_is_painted(state: PpuState, scanline: int, x: int)
    requires
        0 <= scanline < 240,
        0 <= x < 256,
        state.frame.len() == 61440,
    ensures
        ({
            let after = state.drawn(scanline, x);
            let on = state.mask & 0b0001_1000 != 0;
            let port = state.v as int % 0x4000;
            let offer = state.offer(scanline, x);
            &&& after.frame.len() == 61440
            &&& forall|i: int|
                0 <= i < 61440 && i != 256 * scanline + x ==> #[trigger] after.frame[i] == state.frame[i]
            &&& after.frame[256 * scanline + x] == if on {
                state.color(state.shown(state.background(x), offer))
            } else if port >= 0x3F00 {
                state.color(state.palette_ram[ppu::palette_cell(port)])
            } else {
                state.color(state.palette_ram[0])
            }
            &&& after.sprite_zero_hit == (state.sprite_zero_hit || on && PpuState::meets(
                state.background(x),
                offer,
                x,
            ))
            &&& after == (PpuState { frame: after.frame, sprite_zero_hit: after.sprite_zero_hit, ..state })
        }),
{
}

/// Which dots paint: the 256 pixels of the first 240 lines; and which clear
/// the two sprite flags: the second dot of the warm-up lap.
pub proof fn law_dots_that_paint(state: PpuState, scanline: int, dot: int, chr: Seq<u8>)
    requires
        0 <= scanline < 262,
        0 <= dot < 341,
    ensures
        ({
            let after = state.ticked(scanline, dot, chr);
            let pixel = scanline < 240 && 1 <= dot <= 256;
            &&& pixel ==> after.frame == state.drawn(scanline, dot - 1).frame
            &&& pixel ==> after.sprite_zero_hit == state.drawn(scanline, dot - 1).sprite_zero_hit
            &&& !pixel ==> after.frame == state.frame
            &&& scanline == 261 && dot == 1 ==> !after.sprite_zero_hit && !after.sprite_overflow
            &&& !pixel && !(scanline == 261 && dot == 1) ==> after.sprite_zero_hit == state.sprite_zero_hit
            &&& !(scanline < 240 && dot == 257) && !(scanline == 261 && dot == 1) ==> after.sprite_overflow
                == state.sprite_overflow
            &&& after.vram == state.vram && after.palette_ram == state.palette_ram && after.oam == state.oam
            &&& after.ctrl == state.ctrl && after.mask == state.mask && after.t == state.t && after.x == state.x
            &&& after.w == state.w && after.vblank == state.vblank && after.read_buffer == state.read_buffer
            &&& after.oam_addr == state.oam_addr && after.mirroring == state.mirroring && after.colors == state.colors
        }),
{
    reveal(PpuState::ticked);
}

/// When the address moves, with a layer on, on the pictured lines and the
/// warm-up lap: one column right where a tile is fetched, one line down at
/// dot 256, back to the camera's left edge at 257, and to its top edge at 280
/// of the warm-up lap; and at no other time.
pub proof fn law_address_moves_on_its_dots(state: PpuState, scanline: int, dot: int, chr: Seq<u8>)
    requires
        0 <= scanline < 262,
        0 <= dot < 341,
    ensures
        ({
            let after = state.ticked(scanline, dot, chr);
            let working = state.mask & 0b0001_1000 != 0 && (scanline < 240 || scanline == 261);
            let boundary = scanline < 240 && 8 <= dot <= 248 && dot % 8 == 0 || dot == 328 || dot == 336;
            after.v == if !working {
                state.v
            } else if boundary {
                beam::next_column(state.v)
            } else if dot == 256 {
                beam::next_line(state.v)
            } else if dot == 257 {
                beam::horizontal_from(state.v, state.t)
            } else if scanline == 261 && dot == 280 {
                beam::vertical_from(state.v, state.t)
            } else {
                state.v
            }
        }),
{
    let painted = if PpuState::visible(scanline, dot) {
        state.drawn(scanline, dot - 1)
    } else {
        state
    };
    let cleared = if scanline == 261 && dot == 1 {
        PpuState { sprite_zero_hit: false, sprite_overflow: false, ..painted }
    } else {
        painted
    };
    assert(state.ticked(scanline, dot, chr).v == if cleared.working(scanline) {
        cleared.belt_moved(scanline, dot, chr).address_moved(scanline, dot).v
    } else {
        cleared.v
    }) by {
        reveal(PpuState::ticked);
    }
    lemma_belt_address(cleared, scanline, dot, chr);
}

/// A dot's work on the belt moves the address where it takes a tile.
proof fn lemma_belt_address(state: PpuState, scanline: int, dot: int, chr: Seq<u8>)
    ensures
        state.belt_moved(scanline, dot, chr).v == if PpuState::fetches(scanline, dot) {
            beam::next_column(state.v)
        } else {
            state.v
        },
        state.belt_moved(scanline, dot, chr).t == state.t,
{
}

/// When the belt moves, with a layer on, on the pictured lines and the
/// warm-up lap: on the 256 pixels of a pictured line and on dots 321 to 336;
/// after every eighth of them but a line's last it takes the tile that the
/// address names.
pub proof fn law_belt_moves_on_its_dots(state: PpuState, scanline: int, dot: int, chr: Seq<u8>)
    requires
        0 <= scanline < 262,
        0 <= dot < 341,
    ensures
        ({
            let after = state.ticked(scanline, dot, chr);
            let working = state.mask & 0b0001_1000 != 0 && (scanline < 240 || scanline == 261);
            let moving = scanline < 240 && 1 <= dot <= 256 || 321 <= dot <= 336;
            let boundary = scanline < 240 && 8 <= dot <= 248 && dot % 8 == 0 || dot == 328 || dot == 336;
            let belt = if !working || !moving {
                state
            } else if boundary {
                state.shifted().fetched(chr).reloaded()
            } else {
                state.shifted()
            };
            &&& after.shift_low == belt.shift_low && after.shift_high == belt.shift_high
            &&& after.attr_low == belt.attr_low && after.attr_high == belt.attr_high
        }),
{
    reveal(PpuState::ticked);
}

/// When the next line's sprites are chosen: with a layer on, at dot 257 of a
/// pictured line, for the line below; and at no other time.
pub proof fn law_cast_is_chosen_as_a_line_ends(state: PpuState, scanline: int, dot: int, chr: Seq<u8>)
    requires
        0 <= scanline < 262,
        0 <= dot < 341,
    ensures
        ({
            let after = state.ticked(scanline, dot, chr);
            if state.mask & 0b0001_1000 != 0 && scanline < 240 && dot == 257 {
                &&& after.line_sprites =~= state.evaluated(scanline + 1, chr).line_sprites
                &&& after.sprite_overflow == state.evaluated(scanline + 1, chr).sprite_overflow
            } else {
                after.line_sprites == state.line_sprites
            }
        }),
{
    reveal(PpuState::ticked);
}

/// The vblank flag rises on dot 1 of line 241, falls on dot 1 of line 261, and
/// moves on no other dot; the rest of a dot's work is the same.
pub proof fn law_vblank_keeps_its_lines(state: PpuState, scanline: int, dot: int, chr: Seq<u8>)
    requires
        0 <= scanline < 262,
        0 <= dot < 341,
    ensures
        ({
            let after = state.kept_time(scanline, dot, chr);
            &&& scanline == 241 && dot == 1 ==> after.vblank
            &&& scanline == 261 && dot == 1 ==> !after.vblank
            &&& dot != 1 || scanline != 241 && scanline != 261 ==> after == state.ticked(scanline, dot, chr)
            &&& after == (PpuState { vblank: after.vblank, ..state }).ticked(scanline, dot, chr)
        }),
{
    reveal(PpuState::kept_time);
    law_dots_that_paint(PpuState { vblank: state.vblank_at(scanline, dot), ..state }, scanline, dot, chr);
}

} // verus!
