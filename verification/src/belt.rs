//! The belt between fetching and painting: a tile picked up at a boundary
//! rides it and comes out as pixels, in its own columns and its own palette.

use vstd::prelude::*;

use crate::beam;
use crate::bits;
use crate::ppu;
use crate::ppu::PpuState;

verus! {

impl PpuState {
    /// The number, in the album, of the tile that `v` names.
    pub open spec fn named_tile(self) -> int {
        let tile = self.vram[ppu::mirrored(self.mirroring, self.v as int)];
        (if self.ctrl & 0b0001_0000 != 0 {
            256int
        } else {
            0
        }) + tile
    }

    /// The palette that the tile `v` names wears: its two bits of the
    /// attribute byte.
    pub open spec fn named_palette(self) -> int {
        let attribute = self.vram[ppu::mirrored(self.mirroring, beam::attribute_cell(self.v))];
        ((attribute >> beam::attribute_place(self.v)) & 0b11) as int
    }

    /// What rides at a place of the belt, 15 at the front: a pixel's value
    /// and its palette.
    pub open spec fn riding(self, place: int) -> (int, int) {
        let tap = place as u16;
        (
            2 * bits::bit16(self.shift_high, tap) + bits::bit16(self.shift_low, tap),
            2 * bits::bit16(self.attr_high, tap) + bits::bit16(self.attr_low, tap),
        )
    }

    /// Whether the belt carries row `row` of a tile, in palette `palette`,
    /// `slid` dots after the tile was laid on its back: the columns that have
    /// not fallen off the front ride in order.
    pub open spec fn carries(self, chr: Seq<u8>, tile: int, row: int, palette: int, slid: int) -> bool {
        forall|place: int|
            slid <= place < slid + 8 && place < 16 ==> #[trigger] self.riding(place) == (
                beam::tile_pixel(chr, tile, row, 7 + slid - place) as int,
                palette,
            )
    }

    /// Whether the belt moves on a dot.
    pub open spec fn slides(scanline: int, dot: int) -> bool {
        PpuState::visible(scanline, dot) || 321 <= dot <= 336
    }

    /// The switches that say how a dot is painted stand as they stood.
    pub open spec fn switched_as(self, other: PpuState) -> bool {
        &&& self.mask == other.mask
        &&& self.ctrl == other.ctrl
        &&& self.x == other.x
        &&& self.palette_ram == other.palette_ram
    }

    /// `count` dots of one line in a row, from `dot` on, with nobody touching
    /// a register between them.
    pub open spec fn dots(self, scanline: int, dot: int, count: nat, chr: Seq<u8>) -> PpuState
        decreases count,
    {
        if count == 0 {
            self
        } else {
            self.dots(scanline, dot, (count - 1) as nat, chr).ticked(scanline, dot + count - 1, chr)
        }
    }

    /// The background's offer for a pixel of a given value and palette.
    pub open spec fn background_of(self, x: int, value: int, palette: int) -> (int, u8) {
        if self.background_hidden(x) || value == 0 {
            (0, self.palette_ram[0])
        } else {
            (value, self.palette_ram[palette * 4 + value])
        }
    }
}

/// One place of a belt register as the register slides, and as a byte is
/// laid on its back.
proof fn lemma_belt_bits(word: u16, byte: u16, place: u16)
    by (bit_vector)
    requires
        place < 16,
        byte < 256,
    ensures
        place < 15 ==> bits::bit16(word << 1, (place + 1) as u16) == bits::bit16(word, place),
        place < 8 ==> bits::bit16(ppu::with_low_byte(word, byte), place) == bits::bit16(byte, place),
        place >= 8 ==> bits::bit16(ppu::with_low_byte(word, byte), place) == bits::bit16(word, place),
        bits::bit16(word, place) <= 1,
        place < 8 ==> bits::bit16(0xFF, place) == 1,
        bits::bit16(0, place) == 0,
{
}

/// A byte's bits are the same bits in a word.
proof fn lemma_byte_bits(byte: u8, place: u16)
    by (bit_vector)
    requires
        place < 8,
    ensures
        bits::bit16(byte as u16, place) == bits::bit(byte, place as u8) as u16,
{
}

/// A two-bit number is its two bits.
proof fn lemma_palette_bits(palette: u8)
    by (bit_vector)
    requires
        palette < 4,
    ensures
        (palette & 1 != 0) == (palette == 1 || palette == 3),
        (palette & 2 != 0) == (palette == 2 || palette == 3),
{
}

/// A place of the belt as it slides.
proof fn lemma_slide(state: PpuState, place: int)
    requires
        0 <= place < 15,
    ensures
        state.shifted().riding(place + 1) == state.riding(place),
{
    let tap = place as u16;
    assert((tap + 1) as u16 == (place + 1) as u16);
    lemma_belt_bits(state.shift_low, 0, tap);
    lemma_belt_bits(state.shift_high, 0, tap);
    lemma_belt_bits(state.attr_low, 0, tap);
    lemma_belt_bits(state.attr_high, 0, tap);
}

/// A place of the belt as the pockets empty onto its back.
proof fn lemma_reload(state: PpuState, place: int)
    requires
        state.next_attr < 4,
        0 <= place < 16,
    ensures
        place >= 8 ==> state.reloaded().riding(place) == state.riding(place),
        place < 8 ==> state.reloaded().riding(place) == (
            2 * bits::bit(state.next_pattern_high, place as u8) + bits::bit(state.next_pattern_low, place as u8),
            state.next_attr as int,
        ),
{
    let tap = place as u16;
    lemma_belt_bits(state.shift_low, state.next_pattern_low as u16, tap);
    lemma_belt_bits(state.shift_high, state.next_pattern_high as u16, tap);
    lemma_belt_bits(state.attr_low, beam::stretched(state.next_attr & 1 != 0), tap);
    lemma_belt_bits(state.attr_high, beam::stretched(state.next_attr & 2 != 0), tap);
    if place < 8 {
        lemma_byte_bits(state.next_pattern_low, tap);
        lemma_byte_bits(state.next_pattern_high, tap);
        lemma_palette_bits(state.next_attr);
    }
}

/// A dot leaves the switches alone.
proof fn lemma_switches_stand(state: PpuState, scanline: int, dot: int, chr: Seq<u8>)
    ensures
        state.ticked(scanline, dot, chr).switched_as(state),
{
    reveal(PpuState::ticked);
}

/// A fetch lays the row that `v` names on the back of the belt, under the
/// palette its attribute bits pick.
pub proof fn law_fetch_lays_the_tile(state: PpuState, scanline: int, dot: int, chr: Seq<u8>)
    requires
        state.working(scanline),
        PpuState::fetches(scanline, dot),
    ensures
        state.ticked(scanline, dot, chr).carries(
            chr,
            state.named_tile(),
            ppu::fine_y(state.v) as int,
            state.named_palette(),
            0,
        ),
{
    reveal(PpuState::ticked);
    let after = state.ticked(scanline, dot, chr);
    let filled = state.shifted().fetched(chr);
    let row = ppu::fine_y(state.v) as int;
    let attribute = state.vram[ppu::mirrored(state.mirroring, beam::attribute_cell(state.v))];
    bits::lemma_two_bits_small(attribute, beam::attribute_place(state.v));
    assert(state.shifted().pattern_start() == state.named_tile() * 16 + row);
    assert forall|place: int| 0 <= place < 8 implies #[trigger] after.riding(place) == (
        beam::tile_pixel(chr, state.named_tile(), row, 7 - place) as int,
        state.named_palette(),
    ) by {
        lemma_reload(filled, place);
        assert(after.riding(place) == filled.reloaded().riding(place));
        bits::lemma_bit_small(filled.next_pattern_high, place as u8);
        bits::lemma_bit_small(filled.next_pattern_low, place as u8);
    }
}

/// A dot on which the belt moves carries a tile one place on; on any other
/// dot it stays where it is. The next tile is laid behind it: a boundary
/// comes when the tile is past the back half.
pub proof fn law_belt_carries_the_tile(
    state: PpuState,
    scanline: int,
    dot: int,
    chr: Seq<u8>,
    tile: int,
    row: int,
    palette: int,
    slid: int,
)
    requires
        0 <= slid,
        state.working(scanline),
        state.carries(chr, tile, row, palette, slid),
        PpuState::fetches(scanline, dot) ==> slid >= 7,
    ensures
        state.ticked(scanline, dot, chr).carries(
            chr,
            tile,
            row,
            palette,
            if PpuState::slides(scanline, dot) {
                slid + 1
            } else {
                slid
            },
        ),
{
    reveal(PpuState::ticked);
    let after = state.ticked(scanline, dot, chr);
    if PpuState::slides(scanline, dot) {
        let attribute = state.vram[ppu::mirrored(state.mirroring, beam::attribute_cell(state.v))];
        bits::lemma_two_bits_small(attribute, beam::attribute_place(state.v));
        assert forall|place: int| slid + 1 <= place < slid + 9 && place < 16 implies #[trigger] after.riding(place) == (
            beam::tile_pixel(chr, tile, row, 8 + slid - place) as int,
            palette,
        ) by {
            lemma_slide(state, place - 1);
            assert(state.riding(place - 1) == (beam::tile_pixel(chr, tile, row, 8 + slid - place) as int, palette));
            if PpuState::fetches(scanline, dot) {
                let filled = state.shifted().fetched(chr);
                lemma_reload(filled, place);
                assert(after.riding(place) == filled.reloaded().riding(place));
                assert(filled.riding(place) == state.shifted().riding(place));
            } else {
                assert(after.riding(place) == state.shifted().riding(place));
            }
        }
    } else {
        assert forall|place: int| slid <= place < slid + 8 && place < 16 implies #[trigger] after.riding(place)
            == state.riding(place) by {
        }
    }
}

/// What a carried tile shows: `slid` dots after it was laid down, fine X
/// taps column `fine X + slid - 8` of it.
pub proof fn law_front_shows_the_tile(
    state: PpuState,
    x: int,
    chr: Seq<u8>,
    tile: int,
    row: int,
    palette: int,
    slid: int,
)
    requires
        state.x < 8,
        state.carries(chr, tile, row, palette, slid),
        8 <= state.x + slid < 16,
    ensures
        state.background(x) == state.background_of(
            x,
            beam::tile_pixel(chr, tile, row, state.x + slid - 8) as int,
            palette,
        ),
{
    assert(state.riding(15 - state.x) == (
        beam::tile_pixel(chr, tile, row, state.x + slid - 8) as int,
        palette,
    ));
}

/// A run of dots of a line carries a tile on, one place for each dot on
/// which the belt moves.
proof fn lemma_dots_carry(
    state: PpuState,
    scanline: int,
    dot: int,
    count: nat,
    chr: Seq<u8>,
    tile: int,
    row: int,
    palette: int,
    slid: int,
)
    requires
        0 <= slid,
        state.working(scanline),
        state.carries(chr, tile, row, palette, slid),
        forall|d: int| dot <= d < dot + count ==> #[trigger] PpuState::slides(scanline, d),
        forall|d: int|
            dot <= d < dot + count && #[trigger] PpuState::fetches(scanline, d) ==> slid + d - dot >= 7,
    ensures
        state.dots(scanline, dot, count, chr).carries(chr, tile, row, palette, slid + count),
        state.dots(scanline, dot, count, chr).switched_as(state),
    decreases count,
{
    if count > 0 {
        let shorter = (count - 1) as nat;
        lemma_dots_carry(state, scanline, dot, shorter, chr, tile, row, palette, slid);
        let before = state.dots(scanline, dot, shorter, chr);
        assert(PpuState::slides(scanline, dot + shorter));
        lemma_switches_stand(before, scanline, dot + shorter, chr);
        law_belt_carries_the_tile(before, scanline, dot + shorter, chr, tile, row, palette, slid + shorter);
    }
}

/// A run of dots on which the belt rests leaves a tile where it is.
proof fn lemma_dots_rest(
    state: PpuState,
    scanline: int,
    dot: int,
    count: nat,
    chr: Seq<u8>,
    tile: int,
    row: int,
    palette: int,
    slid: int,
)
    requires
        0 <= slid,
        state.working(scanline),
        state.carries(chr, tile, row, palette, slid),
        forall|d: int| dot <= d < dot + count ==> !#[trigger] PpuState::slides(scanline, d),
    ensures
        state.dots(scanline, dot, count, chr).carries(chr, tile, row, palette, slid),
        state.dots(scanline, dot, count, chr).switched_as(state),
    decreases count,
{
    if count > 0 {
        let shorter = (count - 1) as nat;
        lemma_dots_rest(state, scanline, dot, shorter, chr, tile, row, palette, slid);
        let before = state.dots(scanline, dot, shorter, chr);
        assert(!PpuState::slides(scanline, dot + shorter));
        lemma_switches_stand(before, scanline, dot + shorter, chr);
        law_belt_carries_the_tile(before, scanline, dot + shorter, chr, tile, row, palette, slid);
    }
}

/// The tile fetched at a boundary of a visible line is what the line shows
/// from the ninth dot after it to the sixteenth: when the beam is about to
/// paint the dot after `later` more dots, fine X `c` shows column
/// `c + later - 8` of the row that `v` named, under the palette its
/// attribute bits picked. Eight dots after the fetch, that is column `c`.
pub proof fn law_fetched_tile_is_shown(state: PpuState, scanline: int, dot: int, later: nat, x: int, chr: Seq<u8>)
    requires
        state.rendering(),
        0 <= scanline < 240,
        1 <= dot <= 248,
        dot % 8 == 0,
        dot + later <= 256,
        state.x < 8,
        8 <= state.x + later < 16,
    ensures
        state.dots(scanline, dot, 1 + later, chr).background(x) == state.background_of(
            x,
            beam::tile_pixel(chr, state.named_tile(), ppu::fine_y(state.v) as int, state.x + later - 8) as int,
            state.named_palette(),
        ),
{
    let tile = state.named_tile();
    let row = ppu::fine_y(state.v) as int;
    let palette = state.named_palette();
    let laid = state.ticked(scanline, dot, chr);
    law_fetch_lays_the_tile(state, scanline, dot, chr);
    lemma_switches_stand(state, scanline, dot, chr);
    lemma_dots_carry(laid, scanline, dot + 1, later, chr, tile, row, palette, 0);
    lemma_dots_join(state, scanline, dot, 1, later, chr);
    reveal_with_fuel(PpuState::dots, 2);
    assert(state.dots(scanline, dot, 1, chr) == laid);
    law_front_shows_the_tile(laid.dots(scanline, dot + 1, later, chr), x, chr, tile, row, palette, later as int);
}

/// Two runs of dots, one after the other, are one run.
proof fn lemma_dots_join(state: PpuState, scanline: int, dot: int, first: nat, second: nat, chr: Seq<u8>)
    ensures
        state.dots(scanline, dot, first + second, chr) == state.dots(scanline, dot, first, chr).dots(
            scanline,
            dot + first,
            second,
            chr,
        ),
    decreases second,
{
    if second > 0 {
        lemma_dots_join(state, scanline, dot, first, (second - 1) as nat, chr);
    }
}

/// The two tiles fetched as a line ends are the first two that the line
/// below shows: the one fetched at dot 328 from its first pixel on, the one
/// fetched at dot 336 from its ninth. The line may be the warm-up lap, and
/// the line below any visible one.
pub proof fn law_primed_tiles_begin_the_line(
    state: PpuState,
    scanline: int,
    below: int,
    dot: int,
    later: nat,
    x: int,
    chr: Seq<u8>,
)
    requires
        state.working(scanline),
        0 <= below < 240,
        dot == 328 || dot == 336,
        state.x < 8,
        8 <= state.x + later + (336 - dot) < 16,
    ensures
        state.dots(scanline, dot, (341 - dot) as nat, chr).dots(below, 0, 1 + later, chr).background(x)
            == state.background_of(
            x,
            beam::tile_pixel(
                chr,
                state.named_tile(),
                ppu::fine_y(state.v) as int,
                state.x + later + (336 - dot) - 8,
            ) as int,
            state.named_palette(),
        ),
{
    let tile = state.named_tile();
    let row = ppu::fine_y(state.v) as int;
    let palette = state.named_palette();
    let rest = (336 - dot) as nat;
    reveal_with_fuel(PpuState::dots, 2);
    let laid = state.ticked(scanline, dot, chr);
    law_fetch_lays_the_tile(state, scanline, dot, chr);
    lemma_switches_stand(state, scanline, dot, chr);
    lemma_dots_carry(laid, scanline, dot + 1, rest, chr, tile, row, palette, 0);
    let primed = laid.dots(scanline, dot + 1, rest, chr);
    lemma_dots_rest(primed, scanline, 337, 4, chr, tile, row, palette, rest as int);
    let turned = primed.dots(scanline, 337, 4, chr);
    lemma_dots_join(state, scanline, dot, 1, rest, chr);
    lemma_dots_join(state, scanline, dot, 1 + rest, 4, chr);
    assert(state.dots(scanline, dot, 1, chr) == laid);
    assert(state.dots(scanline, dot, (341 - dot) as nat, chr) == turned);
    lemma_dots_rest(turned, below, 0, 1, chr, tile, row, palette, rest as int);
    let begun = turned.dots(below, 0, 1, chr);
    lemma_dots_join(turned, below, 0, 1, later, chr);
    lemma_dots_carry(begun, below, 1, later, chr, tile, row, palette, rest as int);
    law_front_shows_the_tile(begun.dots(below, 1, later, chr), x, chr, tile, row, palette, (rest + later) as int);
}

} // verus!
