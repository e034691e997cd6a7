//! The beam: how the picture chip turns names, patterns and sprites into
//! one color per dot.

use vstd::prelude::*;

use crate::album::Album;
use crate::bits;
use crate::ppu;
use crate::ppu::{LineSprite, Ppu, PpuState, SpriteRow};

verus! {

/// One pixel of a tile: a value of 0 to 3. A tile's first eight bytes are
/// plane 0, every pixel's low bit, one byte per row; its second eight are
/// plane 1, the high bits. Bit 7 is the leftmost pixel.
pub open spec fn tile_pixel(chr: Seq<u8>, tile: int, row: int, column: int) -> u8 {
    let low = bits::bit(chr[tile * 16 + row], (7 - column) as u8);
    let high = bits::bit(chr[tile * 16 + row + 8], (7 - column) as u8);
    (2 * high + low) as u8
}

/// Decode one tile: 16 bytes of the album become 8x8 pixels of 0 to 3.
pub fn decode_tile<A: Album + ?Sized>(chr: &A, tile: usize) -> (pixels: [[u8; 8]; 8])
    requires
        tile * 16 + 16 <= chr.bytes().len(),
        tile * 16 + 16 <= usize::MAX,
    ensures
        forall|row: int, column: int|
            0 <= row < 8 && 0 <= column < 8 ==> #[trigger] pixels@[row]@[column] == tile_pixel(
                chr.bytes(),
                tile as int,
                row,
                column,
            ),
{
    let start: usize = tile * 16;
    let mut pixels: [[u8; 8]; 8] = [[0; 8]; 8];
    let mut row: usize = 0;
    while row < 8
        invariant
            row <= 8,
            start == tile * 16,
            start + 16 <= chr.bytes().len(),
            start + 16 <= usize::MAX,
            forall|r: int, c: int|
                0 <= r < row && 0 <= c < 8 ==> #[trigger] pixels@[r]@[c] == tile_pixel(chr.bytes(), tile as int, r, c),
        decreases 8 - row,
    {
        let plane0 = chr.byte(start + row);
        let plane1 = chr.byte(start + row + 8);
        let mut column: usize = 0;
        while column < 8
            invariant
                row < 8,
                column <= 8,
                start == tile * 16,
                start + 16 <= chr.bytes().len(),
                plane0 == chr.bytes()[start + row],
                plane1 == chr.bytes()[start + row + 8],
                forall|r: int, c: int|
                    0 <= r < 8 && 0 <= c < 8 && (r < row || r == row && c < column)
                        ==> #[trigger] pixels@[r]@[c] == tile_pixel(chr.bytes(), tile as int, r, c),
            decreases 8 - column,
        {
            let place: u8 = 7 - column as u8;
            let low = (plane0 >> place) & 1;
            let high = (plane1 >> place) & 1;
            proof {
                bits::lemma_bit_small(plane0, place);
                bits::lemma_bit_small(plane1, place);
                bits::lemma_bit_pair(low, high);
            }
            pixels[row][column] = (high << 1) | low;
            column = column + 1;
        }
        row = row + 1;
    }
    pixels
}

/// One tile to the right. Off the edge of a nametable means into its
/// neighbor: the column wraps and the horizontal name bit flips.
pub open spec fn next_column(v: u16) -> u16 {
    if ppu::coarse_x(v) == 31 {
        ppu::with_name_x(ppu::with_coarse_x(v, 0), (1 - ppu::name_x(v)) as u16)
    } else {
        ppu::with_coarse_x(v, (ppu::coarse_x(v) + 1) as u16)
    }
}

/// One line down: the pixel row first, then the tile row. Row 29 is a
/// nametable's last, so it wraps into the neighbor below; row 31, in the
/// attribute table's territory, wraps without the flip.
pub open spec fn next_line(v: u16) -> u16 {
    if ppu::fine_y(v) < 7 {
        ppu::with_fine_y(v, (ppu::fine_y(v) + 1) as u16)
    } else {
        let top = ppu::with_fine_y(v, 0);
        if ppu::coarse_y(v) == 29 {
            ppu::with_name_y(ppu::with_coarse_y(top, 0), (1 - ppu::name_y(v)) as u16)
        } else if ppu::coarse_y(v) == 31 {
            ppu::with_coarse_y(top, 0)
        } else {
            ppu::with_coarse_y(top, (ppu::coarse_y(v) + 1) as u16)
        }
    }
}

/// The end-of-line reset: the horizontal fields of `t` copied into `v`.
pub open spec fn horizontal_from(v: u16, t: u16) -> u16 {
    ppu::with_name_x(ppu::with_coarse_x(v, ppu::coarse_x(t)), ppu::name_x(t))
}

/// The start-of-frame reset: the vertical fields of `t` copied into `v`,
/// whose sixteenth bit, part of no field, clears.
pub open spec fn vertical_from(v: u16, t: u16) -> u16 {
    ppu::with_fine_y(ppu::with_name_y(ppu::with_coarse_y((v % 0x8000) as u16, ppu::coarse_y(t)), ppu::name_y(t)), ppu::fine_y(t))
}

/// Where in a nametable's territory the palette picks of a tile stand: the
/// last 64 bytes, one for each block of 4x4 tiles.
pub open spec fn attribute_cell(v: u16) -> int {
    v as int / 1024 % 4 * 1024 + 0x3C0 + ppu::coarse_y(v) / 4 * 8 + ppu::coarse_x(v) / 4
}

/// Where in its attribute byte a tile's two bits begin: two bits for each
/// quadrant of 2x2 tiles.
pub open spec fn attribute_place(v: u16) -> u8 {
    (ppu::coarse_y(v) / 2 % 2 * 4 + ppu::coarse_x(v) / 2 % 2 * 2) as u8
}

/// A palette bit stretched over the eight pixels of a tile.
pub open spec fn stretched(on: bool) -> u16 {
    if on {
        0xFF
    } else {
        0
    }
}

/// Whether a sprite whose roster byte says `y` covers a line: the roster
/// stores the top minus one.
pub open spec fn covers(y: u8, line: int, height: int) -> bool {
    y + 1 <= line < y + 1 + height
}

/// The sprites that cover a line, of the first `n` in the roster, in order.
pub open spec fn cast_of(oam: Seq<u8>, line: int, height: int, n: nat) -> Seq<int>
    decreases n,
{
    if n == 0 {
        Seq::empty()
    } else {
        let before = cast_of(oam, line, height, (n - 1) as nat);
        if covers(oam[(n - 1) * 4], line, height) {
            before.push(n - 1)
        } else {
            before
        }
    }
}

/// The ninth-sprite scan, as the chip wires it: from the ninth sprite on, it
/// walks the roster a byte out of step, so that positions and tile numbers
/// are taken for Ys.
pub open spec fn overflow_found(oam: Seq<u8>, line: int, height: int, from: int) -> bool {
    exists|n: int| from <= n < 64 && covers(#[trigger] oam[n * 4 + (n - from) % 4], line, height)
}

/// A row read the way the attributes say: from the top or, flipped, from the
/// bottom.
pub open spec fn flipped_row(attributes: u8, row: int, height: int) -> int {
    if attributes & 0b1000_0000 != 0 {
        height - 1 - row
    } else {
        row
    }
}

/// A column read from the left or, flipped, from the right.
pub open spec fn flipped_column(attributes: u8, column: int) -> int {
    if attributes & 0b0100_0000 != 0 {
        7 - column
    } else {
        column
    }
}

/// The first sprite, in roster order, with an opaque pixel at `x`: its
/// pixel's value, its attributes, and whether it is sprite zero.
pub open spec fn sprite_offer(rows: Seq<SpriteRow>, x: int) -> Option<(int, u8, bool)>
    decreases rows.len(),
{
    if rows.len() == 0 {
        None
    } else if opaque_at(rows[0], x) {
        Some((rows[0].pixels[x - rows[0].x] as int, rows[0].attributes, rows[0].is_zero))
    } else {
        sprite_offer(rows.drop_first(), x)
    }
}

/// Whether a sprite's row has a pixel at `x` that is not transparent.
pub open spec fn opaque_at(row: SpriteRow, x: int) -> bool {
    row.x <= x < row.x + 8 && row.pixels[x - row.x] != 0
}

/// A sprite's offer with its pixel's value as a number.
pub open spec fn offered(sprite: Option<(usize, u8, bool)>) -> Option<(int, u8, bool)> {
    match sprite {
        None => None,
        Some((value, attributes, is_zero)) => Some((value as int, attributes, is_zero)),
    }
}

impl PpuState {
    /// The first byte of the pattern row that `v` names, in the background's
    /// half of the album.
    pub open spec fn pattern_start(self) -> int {
        let tile = self.vram[ppu::mirrored(self.mirroring, self.v as int)];
        (if self.ctrl & 0b0001_0000 != 0 {
            0x1000int
        } else {
            0
        }) + tile * 16 + ppu::fine_y(self.v)
    }

    /// The pockets filled for the tile that `v` names.
    pub open spec fn fetched(self, chr: Seq<u8>) -> PpuState {
        let attribute = self.vram[ppu::mirrored(self.mirroring, attribute_cell(self.v))];
        PpuState {
            next_attr: (attribute >> attribute_place(self.v)) & 0b11,
            next_pattern_low: chr[self.pattern_start()],
            next_pattern_high: chr[self.pattern_start() + 8],
            ..self
        }
    }

    /// The belt advanced one pixel.
    pub open spec fn shifted(self) -> PpuState {
        PpuState {
            shift_low: self.shift_low << 1,
            shift_high: self.shift_high << 1,
            attr_low: self.attr_low << 1,
            attr_high: self.attr_high << 1,
            ..self
        }
    }

    /// The pockets emptied onto the back of the belt.
    pub open spec fn reloaded(self) -> PpuState {
        PpuState {
            shift_low: ppu::with_low_byte(self.shift_low, self.next_pattern_low as u16),
            shift_high: ppu::with_low_byte(self.shift_high, self.next_pattern_high as u16),
            attr_low: ppu::with_low_byte(self.attr_low, stretched(self.next_attr & 1 != 0)),
            attr_high: ppu::with_low_byte(self.attr_high, stretched(self.next_attr & 2 != 0)),
            ..self
        }
    }

    /// A tile boundary: fetch, reload, and one cell to the right.
    pub open spec fn tile_boundary(self, chr: Seq<u8>) -> PpuState {
        let filled = self.fetched(chr).reloaded();
        PpuState { v: next_column(filled.v), ..filled }
    }

    /// How tall sprites are.
    pub open spec fn sprite_height(self) -> int {
        if self.ctrl & 0b0010_0000 != 0 {
            16
        } else {
            8
        }
    }

    /// The tile that holds row `row` of a sprite. A tall sprite is two tiles
    /// stacked, from the half of the album its own number picks; a short one
    /// asks PPUCTRL.
    pub open spec fn sprite_tile(self, number: int, row: int, height: int) -> int {
        if height == 16 {
            number % 2 * 256 + number / 2 * 2 + row / 8
        } else if self.ctrl & 0b0000_1000 != 0 {
            256 + number
        } else {
            number
        }
    }

    /// One row of one sprite's pixels, flipped as its attributes say.
    pub open spec fn sprite_pixels(self, number: int, attributes: u8, row: int, height: int, chr: Seq<u8>) -> Seq<u8> {
        let flipped = flipped_row(attributes, row, height);
        Seq::new(
            8,
            |column: int|
                tile_pixel(
                    chr,
                    self.sprite_tile(number, flipped, height),
                    flipped % 8,
                    flipped_column(attributes, column),
                ),
        )
    }

    /// The row of the sprite in slot `n` that crosses a line.
    pub open spec fn cast_row(self, n: int, line: int, chr: Seq<u8>) -> SpriteRow {
        SpriteRow {
            x: self.oam[n * 4 + 3],
            pixels: self.sprite_pixels(
                self.oam[n * 4 + 1] as int,
                self.oam[n * 4 + 2],
                line - self.oam[n * 4] - 1,
                self.sprite_height(),
                chr,
            ),
            attributes: self.oam[n * 4 + 2],
            is_zero: n == 0,
        }
    }

    /// The slots of the sprites that cover a line, in roster order.
    pub open spec fn cast(self, line: int) -> Seq<int> {
        cast_of(self.oam, line, self.sprite_height(), 64)
    }

    /// The cast chosen for a line: the first eight sprites that cover it.
    /// A ninth starts the overflow scan.
    pub open spec fn evaluated(self, line: int, chr: Seq<u8>) -> PpuState {
        let cast = self.cast(line);
        PpuState {
            line_sprites: Seq::new(
                if cast.len() < 8 {
                    cast.len()
                } else {
                    8
                },
                |i: int| self.cast_row(cast[i], line, chr),
            ),
            sprite_overflow: self.sprite_overflow || (cast.len() > 8 && overflow_found(
                self.oam,
                line,
                self.sprite_height(),
                cast[8],
            )),
            ..self
        }
    }

    /// The album is long enough for the tile that the sprite in slot `n`
    /// shows on a line.
    pub open spec fn sprite_fits(self, n: int, line: int, chr: Seq<u8>) -> bool {
        let height = self.sprite_height();
        let row = flipped_row(self.oam[n * 4 + 2], line - self.oam[n * 4] - 1, height);
        self.sprite_tile(self.oam[n * 4 + 1] as int, row, height) * 16 + 16 <= chr.len()
    }

    /// The album is long enough for every sprite chosen for a line.
    pub open spec fn cast_fits(self, line: int, chr: Seq<u8>) -> bool {
        let cast = self.cast(line);
        forall|i: int| 0 <= i < 8 && i < cast.len() ==> self.sprite_fits(#[trigger] cast[i], line, chr)
    }

    /// Whether the background is hidden at `x`, by its layer bit or by the
    /// window over the first eight pixels.
    pub open spec fn background_hidden(self, x: int) -> bool {
        self.mask & 0b0000_1000 == 0 || (x < 8 && self.mask & 0b0000_0010 == 0)
    }

    /// Whether the sprites are hidden at `x`.
    pub open spec fn sprites_hidden(self, x: int) -> bool {
        self.mask & 0b0001_0000 == 0 || (x < 8 && self.mask & 0b0000_0100 == 0)
    }

    /// The background's offer for a dot: its pattern value, 0 to 3, where 0
    /// is the backdrop, and its crayon.
    pub open spec fn background(self, x: int) -> (int, u8) {
        let tap = (15 - self.x) as u16;
        let value = 2 * bits::bit16(self.shift_high, tap) + bits::bit16(self.shift_low, tap);
        let palette = 2 * bits::bit16(self.attr_high, tap) + bits::bit16(self.attr_low, tap);
        if self.background_hidden(x) || value == 0 {
            (0, self.palette_ram[0])
        } else {
            (value, self.palette_ram[palette * 4 + value])
        }
    }

    /// The cast's offer for a dot.
    pub open spec fn sprite(self, x: int) -> Option<(int, u8, bool)> {
        if self.sprites_hidden(x) {
            None
        } else {
            sprite_offer(self.line_sprites, x)
        }
    }

    /// What the cast offers a dot of a line. Nobody casts for the first line,
    /// so it shows no sprites: the cast that is still around when the beam
    /// gets there was chosen a frame ago, for the line below the picture.
    pub open spec fn offer(self, scanline: int, x: int) -> Option<(int, u8, bool)> {
        if scanline == 0 {
            None
        } else {
            self.sprite(x)
        }
    }

    /// The crayon that shows where a background and a sprite meet: a sprite
    /// shows unless its attributes put it behind an opaque background.
    pub open spec fn shown(self, background: (int, u8), sprite: Option<(int, u8, bool)>) -> u8 {
        match sprite {
            None => background.1,
            Some((value, attributes, is_zero)) => if background.0 != 0 && attributes & 0b0010_0000 != 0 {
                background.1
            } else {
                self.palette_ram[0x10 + attributes % 4 * 4 + value]
            },
        }
    }

    /// Whether sprite zero meets the background: two opaque pixels, anywhere
    /// but in the last column.
    pub open spec fn meets(background: (int, u8), sprite: Option<(int, u8, bool)>, x: int) -> bool {
        sprite matches Some((value, attributes, is_zero)) && is_zero && background.0 != 0 && x != 255
    }

    /// A crayon seen through the mask: greyscale forces it onto the grey
    /// column, and the top three bits pick the emphasis palette.
    pub open spec fn color(self, crayon: u8) -> u32 {
        let seen = if self.mask & 0b0000_0001 != 0 {
            crayon / 16 % 4 * 16
        } else {
            crayon as int % 64
        };
        self.colors[self.mask / 32 * 64 + seen]
    }

    /// The color of every dot with rendering off: the backdrop, or the crayon
    /// that the address register points at.
    pub open spec fn resting_color(self) -> u32 {
        if self.data_address() >= 0x3F00 {
            self.color(self.palette_ram[ppu::palette_cell(self.data_address())])
        } else {
            self.color(self.palette_ram[0])
        }
    }

    /// The color of a dot.
    pub open spec fn dot_color(self, scanline: int, x: int) -> u32 {
        if self.rendering() {
            self.color(self.shown(self.background(x), self.offer(scanline, x)))
        } else {
            self.resting_color()
        }
    }

    /// One dot painted, and sprite zero's meeting noted.
    pub open spec fn drawn(self, scanline: int, x: int) -> PpuState {
        PpuState {
            frame: self.frame.update(scanline * 256 + x, self.dot_color(scanline, x)),
            sprite_zero_hit: self.sprite_zero_hit || (self.rendering() && PpuState::meets(
                self.background(x),
                self.offer(scanline, x),
                x,
            )),
            ..self
        }
    }

    /// Whether a dot is one of a visible line's 256 pixels.
    pub open spec fn visible(scanline: int, dot: int) -> bool {
        scanline < 240 && 1 <= dot <= 256
    }

    /// Whether the chip fetches a tile on a dot: at every eighth pixel but a
    /// line's last, and twice at a line's end, for the line below.
    pub open spec fn fetches(scanline: int, dot: int) -> bool {
        (PpuState::visible(scanline, dot) && dot % 8 == 0 && dot <= 248) || dot == 328 || dot == 336
    }

    /// Whether the rendering machinery runs on a line: rendering is on, and
    /// the line is a visible one or the warm-up lap.
    pub open spec fn working(self, scanline: int) -> bool {
        self.rendering() && (scanline < 240 || scanline == 261)
    }

    /// A dot's work on the belt: it advances over the pixels and over the
    /// two tiles primed for the line below, and takes a tile at boundaries.
    pub open spec fn belt_moved(self, scanline: int, dot: int, chr: Seq<u8>) -> PpuState {
        if PpuState::visible(scanline, dot) || 321 <= dot <= 336 {
            if PpuState::fetches(scanline, dot) {
                self.shifted().tile_boundary(chr)
            } else {
                self.shifted()
            }
        } else {
            self
        }
    }

    /// A dot's work on the address: one line down after the last pixel, the
    /// camera's left edge right after, its top edge once on the warm-up lap.
    pub open spec fn address_moved(self, scanline: int, dot: int) -> PpuState {
        if dot == 256 {
            PpuState { v: next_line(self.v), ..self }
        } else if dot == 257 {
            PpuState { v: horizontal_from(self.v, self.t), ..self }
        } else if scanline == 261 && dot == 280 {
            PpuState { v: vertical_from(self.v, self.t), ..self }
        } else {
            self
        }
    }

    /// One dot of the chip's day: a visible dot is painted; the warm-up lap
    /// clears last frame's flags; and while rendering, the belt, the address
    /// and, as a visible line ends, the next line's cast move on.
    #[verifier::opaque]
    pub open spec fn ticked(self, scanline: int, dot: int, chr: Seq<u8>) -> PpuState {
        let painted = if PpuState::visible(scanline, dot) {
            self.drawn(scanline, dot - 1)
        } else {
            self
        };
        let cleared = if scanline == 261 && dot == 1 {
            PpuState { sprite_zero_hit: false, sprite_overflow: false, ..painted }
        } else {
            painted
        };
        if cleared.working(scanline) {
            let moved = cleared.belt_moved(scanline, dot, chr).address_moved(scanline, dot);
            if scanline < 240 && dot == 257 {
                moved.evaluated(scanline + 1, chr)
            } else {
                moved
            }
        } else {
            cleared
        }
    }

    /// The vblank flag as a dot leaves it: it rises as the beam enters line
    /// 241, and falls on the warm-up lap.
    pub open spec fn vblank_at(self, scanline: int, dot: int) -> bool {
        if dot == 1 && scanline == 241 {
            true
        } else if dot == 1 && scanline == 261 {
            false
        } else {
            self.vblank
        }
    }

    /// One dot with the vblank flag kept.
    #[verifier::opaque]
    pub open spec fn kept_time(self, scanline: int, dot: int, chr: Seq<u8>) -> PpuState {
        PpuState { vblank: self.vblank_at(scanline, dot), ..self }.ticked(scanline, dot, chr)
    }

    /// The album is long enough for what a dot reads.
    pub open spec fn tick_fits(self, scanline: int, dot: int, chr: Seq<u8>) -> bool {
        self.working(scanline) ==> {
            &&& PpuState::fetches(scanline, dot) ==> self.pattern_start() + 8 < chr.len()
            &&& scanline < 240 && dot == 257 ==> self.cast_fits(scanline + 1, chr)
        }
    }
}

/// The walks' masks and sums, as arithmetic on the fields.
proof fn lemma_walks(v: u16, t: u16)
    by (bit_vector)
    ensures
        v & 0x001F == ppu::coarse_x(v),
        (v & !0x001Fu16) ^ 0x0400 == ppu::with_name_x(ppu::with_coarse_x(v, 0), (1 - ppu::name_x(v)) as u16),
        ppu::coarse_x(v) != 31 ==> v + 1 <= 0xFFFF && (v + 1) as u16 == ppu::with_coarse_x(v, (ppu::coarse_x(v) + 1) as u16),
        (v & 0x7000 == 0x7000) == (ppu::fine_y(v) == 7),
        ppu::fine_y(v) != 7 ==> v + 0x1000 <= 0xFFFF && (v + 0x1000) as u16 == ppu::with_fine_y(v, (ppu::fine_y(v) + 1) as u16),
        (v & !0x7000u16) >> 5 & 0x1F == ppu::coarse_y(v),
        ppu::fine_y(v) == 7 ==> (v & !0x7000u16) & !0x03E0u16 == ppu::with_coarse_y(ppu::with_fine_y(v, 0), 0),
        ppu::fine_y(v) == 7 ==> ((v & !0x7000u16) & !0x03E0u16) ^ 0x0800 == ppu::with_name_y(
            ppu::with_coarse_y(ppu::with_fine_y(v, 0), 0),
            (1 - ppu::name_y(v)) as u16,
        ),
        ppu::fine_y(v) == 7 && ppu::coarse_y(v) != 31 ==> (v & !0x7000u16) + 0x20 <= 0xFFFF && ((v & !0x7000u16) + 0x20) as u16
            == ppu::with_coarse_y(ppu::with_fine_y(v, 0), (ppu::coarse_y(v) + 1) as u16),
        (v & !0x041Fu16) | (t & 0x041F) == horizontal_from(v, t),
        (v & 0x041F) | (t & !0x041Fu16 & 0x7FFF) == vertical_from(v, t),
{
}

impl Ppu {
    /// One tile to the right.
    pub fn increment_x(&mut self)
        ensures
            final(self)@ == (PpuState { v: next_column(old(self).v), ..old(self)@ }),
            old(self)@.wf() ==> final(self)@.wf(),
    {
        let v = self.v;
        proof {
            lemma_walks(v, 0);
        }
        if v & 0x001F == 31 {
            self.v = (v & !0x001Fu16) ^ 0x0400;
        } else {
            self.v = v + 1;
        }
    }

    /// One line down.
    pub fn increment_y(&mut self)
        ensures
            final(self)@ == (PpuState { v: next_line(old(self).v), ..old(self)@ }),
            old(self)@.wf() ==> final(self)@.wf(),
    {
        let v = self.v;
        proof {
            lemma_walks(v, 0);
        }
        if v & 0x7000 != 0x7000 {
            self.v = v + 0x1000;
            return;
        }
        let top: u16 = v & !0x7000u16;
        let row: u16 = (top >> 5) & 0x1F;
        if row == 29 {
            self.v = (top & !0x03E0u16) ^ 0x0800;
        } else if row == 31 {
            self.v = top & !0x03E0u16;
        } else {
            self.v = top + 0x0020;
        }
    }

    /// The end-of-line reset: the horizontal half of `t` copies into `v`.
    pub fn copy_horizontal(&mut self)
        ensures
            final(self)@ == (PpuState { v: horizontal_from(old(self).v, old(self).t), ..old(self)@ }),
            old(self)@.wf() ==> final(self)@.wf(),
    {
        proof {
            lemma_walks(self.v, self.t);
        }
        self.v = (self.v & !0x041Fu16) | (self.t & 0x041F);
    }

    /// The start-of-frame reset, on the warm-up lap: the vertical half of
    /// `t` copies into `v`.
    pub fn copy_vertical(&mut self)
        ensures
            final(self)@ == (PpuState { v: vertical_from(old(self).v, old(self).t), ..old(self)@ }),
            old(self)@.wf() ==> final(self)@.wf(),
    {
        proof {
            lemma_walks(self.v, self.t);
        }
        self.v = (self.v & 0x041F) | (self.t & !0x041Fu16 & 0x7FFF);
    }

    /// Fill the pockets for the tile `v` names: its cell of the nametable,
    /// its palette pick, and the pattern row that fine Y selects.
    pub fn fetch_tile<A: Album + ?Sized>(&mut self, chr: &A)
        requires
            old(self)@.pattern_start() + 8 < chr.bytes().len(),
        ensures
            final(self)@ == old(self)@.fetched(chr.bytes()),
            old(self)@.wf() ==> final(self)@.wf(),
    {
        let v = self.v;
        let tile = self.vram[self.mirror(v)];
        let row: u16 = v / 32 % 32;
        let column: u16 = v % 32;
        let cell: u16 = v / 1024 % 4 * 1024 + 0x3C0 + row / 4 * 8 + column / 4;
        let attribute = self.vram[self.mirror(cell)];
        let place: u8 = (row / 2 % 2 * 4 + column / 2 % 2 * 2) as u8;
        self.next_attr = (attribute >> place) & 0b11;
        proof {
            bits::lemma_two_bits_small(attribute, place);
        }
        let table: usize = if self.ctrl & 0b0001_0000 != 0 {
            0x1000
        } else {
            0
        };
        let start: usize = table + tile as usize * 16 + (v / 4096 % 8) as usize;
        self.next_pattern_low = chr.byte(start);
        self.next_pattern_high = chr.byte(start + 8);
    }

    /// The belt advances one pixel: every register slides one bit toward the
    /// front.
    pub fn shift(&mut self)
        ensures
            final(self)@ == old(self)@.shifted(),
            old(self)@.wf() ==> final(self)@.wf(),
    {
        self.shift_low = self.shift_low << 1;
        self.shift_high = self.shift_high << 1;
        self.attr_low = self.attr_low << 1;
        self.attr_high = self.attr_high << 1;
    }

    /// A tile boundary: the pockets empty onto the back of the belt, the two
    /// attribute bits stretched to cover all eight pixels.
    pub fn reload_shifts(&mut self)
        ensures
            final(self)@ == old(self)@.reloaded(),
            old(self)@.wf() ==> final(self)@.wf(),
    {
        let low: u16 = if self.next_attr & 1 != 0 {
            0xFF
        } else {
            0
        };
        let high: u16 = if self.next_attr & 2 != 0 {
            0xFF
        } else {
            0
        };
        proof {
            ppu::lemma_address_registers(self.shift_low, self.next_pattern_low as u16);
            ppu::lemma_address_registers(self.shift_high, self.next_pattern_high as u16);
            ppu::lemma_address_registers(self.attr_low, low);
            ppu::lemma_address_registers(self.attr_high, high);
        }
        self.shift_low = (self.shift_low & 0xFF00) | self.next_pattern_low as u16;
        self.shift_high = (self.shift_high & 0xFF00) | self.next_pattern_high as u16;
        self.attr_low = (self.attr_low & 0xFF00) | low;
        self.attr_high = (self.attr_high & 0xFF00) | high;
    }

    /// Choose the sprites for one scanline: walk the roster in order, keep
    /// the first eight whose rows cross the line, and decode each one's row.
    /// Sprite zero is whoever sits in slot zero.
    pub fn evaluate_sprites<A: Album + ?Sized>(&mut self, line: usize, chr: &A)
        requires
            old(self)@.cast_fits(line as int, chr.bytes()),
        ensures
            final(self)@ == old(self)@.evaluated(line as int, chr.bytes()),
            old(self)@.wf() ==> final(self)@.wf(),
    {
        let ghost start = self@;
        let ghost rows = Seq::<SpriteRow>::empty();
        self.line_sprites.clear();
        let height: usize = if self.ctrl & 0b0010_0000 != 0 {
            16
        } else {
            8
        };
        let mut n: usize = 0;
        while n < 64
            invariant
                n <= 64,
                start == old(self)@,
                start.cast_fits(line as int, chr.bytes()),
                height == start.sprite_height(),
                self@ == (PpuState { line_sprites: rows, ..start }),
                rows.len() == cast_of(start.oam, line as int, height as int, n as nat).len(),
                rows.len() <= 8,
                forall|i: int|
                    0 <= i < rows.len() ==> #[trigger] rows[i] == start.cast_row(
                        cast_of(start.oam, line as int, height as int, n as nat)[i],
                        line as int,
                        chr.bytes(),
                    ) && ppu::row_wf(rows[i]),
            decreases 64 - n,
        {
            let y = self.oam[n * 4];
            if line >= y as usize + 1 && line - (y as usize + 1) < height {
                let row: usize = line - (y as usize + 1);
                proof {
                    let before = cast_of(start.oam, line as int, height as int, n as nat);
                    let after = cast_of(start.oam, line as int, height as int, (n + 1) as nat);
                    assert(after == before.push(n as int));
                    lemma_cast_grows(start.oam, line as int, height as int, n as nat, 64);
                    lemma_cast_grows(start.oam, line as int, height as int, (n + 1) as nat, 64);
                    assert(start.cast(line as int).take(after.len() as int)[before.len() as int] == n);
                    assert(start.cast(line as int)[rows.len() as int] == n);
                    assert(forall|i: int|
                        0 <= i < rows.len() ==> before[i] == #[trigger] start.cast(line as int)[i]);
                }
                assert(self.line_sprites@.len() == self@.line_sprites.len());
                if self.line_sprites.len() == 8 {
                    self.overflow_scan(line, n, height);
                    assert(self@ =~= start.evaluated(line as int, chr.bytes()));
                    return;
                }
                let attributes = self.oam[n * 4 + 2];
                assert(start.sprite_fits(n as int, line as int, chr.bytes()));
                let pixels = self.sprite_row(self.oam[n * 4 + 1] as usize, attributes, row, height, chr);
                let sprite = LineSprite { x: self.oam[n * 4 + 3], pixels, attributes, is_zero: n == 0 };
                self.line_sprites.push(sprite);
                proof {
                    rows = rows.push(sprite@);
                    assert(self@.line_sprites =~= rows);
                    assert(sprite@.pixels =~= start.cast_row(n as int, line as int, chr.bytes()).pixels);
                }
            }
            n = n + 1;
        }
        assert(self@ =~= start.evaluated(line as int, chr.bytes()));
    }

    /// One row of one sprite, decoded and flipped. `row` counts from the top
    /// of the sprite; a tall sprite is two stacked tiles from the half of
    /// the album its own number picks.
    pub fn sprite_row<A: Album + ?Sized>(
        &self,
        tile: usize,
        attributes: u8,
        row: usize,
        height: usize,
        chr: &A,
    ) -> (pixels: [u8; 8])
        requires
            tile < 256,
            height == 8 || height == 16,
            row < height,
            self@.sprite_tile(tile as int, flipped_row(attributes, row as int, height as int), height as int) * 16 + 16
                <= chr.bytes().len(),
        ensures
            pixels@ == self@.sprite_pixels(tile as int, attributes, row as int, height as int, chr.bytes()),
            forall|i: int| 0 <= i < 8 ==> #[trigger] pixels@[i] < 4,
    {
        let row: usize = if attributes & 0b1000_0000 != 0 {
            height - 1 - row
        } else {
            row
        };
        let number: usize = if height == 16 {
            tile % 2 * 256 + tile / 2 * 2 + row / 8
        } else if self.ctrl & 0b0000_1000 != 0 {
            256 + tile
        } else {
            tile
        };
        let decoded = decode_tile(chr, number)[row % 8];
        let mut pixels: [u8; 8] = decoded;
        if attributes & 0b0100_0000 != 0 {
            let mut column: usize = 0;
            while column < 8
                invariant
                    column <= 8,
                    forall|i: int| 0 <= i < column ==> #[trigger] pixels@[i] == decoded@[7 - i],
                decreases 8 - column,
            {
                pixels[column] = decoded[7 - column];
                column = column + 1;
            }
        }
        proof {
            let tile_row = (row % 8) as int;
            assert forall|i: int| 0 <= i < 8 implies #[trigger] pixels@[i] < 4 && pixels@[i] == tile_pixel(
                chr.bytes(),
                number as int,
                tile_row,
                flipped_column(attributes, i),
            ) by {
                let column = flipped_column(attributes, i);
                assert(decoded@[column] == tile_pixel(chr.bytes(), number as int, tile_row, column));
                bits::lemma_bit_small(chr.bytes()[number * 16 + tile_row], (7 - column) as u8);
                bits::lemma_bit_small(chr.bytes()[number * 16 + tile_row + 8], (7 - column) as u8);
            }
        }
        pixels
    }

    /// One pixel, from whatever is at the front of the belt right now.
    pub fn draw_dot(&mut self, scanline: usize, x: usize)
        requires
            old(self)@.wf(),
            scanline < 240,
            x < 256,
        ensures
            final(self)@ == old(self)@.drawn(scanline as int, x as int),
            final(self)@.wf(),
    {
        let color = if self.rendering() {
            let background = self.background_pixel(x);
            // Nobody cast for the first line: it shows no sprites.
            let sprite = if scanline == 0 {
                None
            } else {
                self.sprite_pixel(x)
            };
            let crayon = self.composite(background, sprite, x);
            self.color(crayon)
        } else {
            let address = self.data_address();
            if address >= 0x3F00 {
                self.color(self.palette_ram[Self::palette_index(address)])
            } else {
                self.color(self.palette_ram[0])
            }
        };
        self.frame[scanline * 256 + x] = color;
    }

    /// The background's offer for a dot: its pattern value and the crayon
    /// that goes with it. A hidden background offers value 0: backdrop.
    pub fn background_pixel(&self, x: usize) -> (offer: (usize, u8))
        requires
            self@.wf(),
        ensures
            (offer.0 as int, offer.1) == self@.background(x as int),
            offer.0 < 4,
    {
        if self.mask & 0b0000_1000 == 0 || (x < 8 && self.mask & 0b0000_0010 == 0) {
            return (0, self.palette_ram[0]);
        }
        let tap: u16 = 15 - self.x as u16;
        let low = (self.shift_low >> tap) & 1;
        let high = (self.shift_high >> tap) & 1;
        let attr_low = (self.attr_low >> tap) & 1;
        let attr_high = (self.attr_high >> tap) & 1;
        proof {
            bits::lemma_bit16_small(self.shift_low, tap);
            bits::lemma_bit16_small(self.shift_high, tap);
            bits::lemma_bit16_small(self.attr_low, tap);
            bits::lemma_bit16_small(self.attr_high, tap);
        }
        let value: usize = (2 * high + low) as usize;
        let palette: usize = (2 * attr_high + attr_low) as usize;
        let crayon = if value == 0 {
            self.palette_ram[0]
        } else {
            self.palette_ram[palette * 4 + value]
        };
        (value, crayon)
    }

    /// The cast's offer: the first sprite on the line with an opaque pixel
    /// at this X wins.
    pub fn sprite_pixel(&self, x: usize) -> (offer: Option<(usize, u8, bool)>)
        requires
            self@.wf(),
        ensures
            match offer {
                None => self@.sprite(x as int) is None,
                Some((value, attributes, is_zero)) => value < 4 && self@.sprite(x as int) == Some(
                    (value as int, attributes, is_zero),
                ),
            },
    {
        if self.mask & 0b0001_0000 == 0 || (x < 8 && self.mask & 0b0000_0100 == 0) {
            return None;
        }
        let ghost rows = self@.line_sprites;
        let mut i: usize = 0;
        assert(rows.skip(0) =~= rows);
        while i < self.line_sprites.len()
            invariant
                i <= self.line_sprites@.len(),
                self@.wf(),
                rows == self@.line_sprites,
                self@.sprite(x as int) == sprite_offer(rows.skip(i as int), x as int),
            decreases self.line_sprites@.len() - i,
        {
            let sprite = &self.line_sprites[i];
            assert(rows.skip(i as int)[0] == sprite@);
            assert(ppu::row_wf(rows[i as int]));
            assert(rows.skip(i as int).drop_first() =~= rows.skip(i + 1));
            if x >= sprite.x as usize && x - (sprite.x as usize) < 8 {
                let value = sprite.pixels[x - sprite.x as usize];
                if value != 0 {
                    return Some((value as usize, sprite.attributes, sprite.is_zero));
                }
            }
            i = i + 1;
        }
        None
    }

    /// The referee. Sprite zero's opaque pixel meeting an opaque background
    /// pixel raises the flag, except in the last column. Then the priority
    /// bit says who shows: a sprite behind loses to scenery but still shows
    /// through its holes. The answer is a crayon.
    pub fn composite(&mut self, background: (usize, u8), sprite: Option<(usize, u8, bool)>, x: usize) -> (crayon: u8)
        requires
            sprite matches Some((value, attributes, is_zero)) ==> value < 4,
        ensures
            crayon == old(self)@.shown((background.0 as int, background.1), offered(sprite)),
            final(self)@ == (PpuState {
                sprite_zero_hit: old(self).sprite_zero_hit || PpuState::meets(
                    (background.0 as int, background.1),
                    offered(sprite),
                    x as int,
                ),
                ..old(self)@
            }),
            old(self)@.wf() ==> final(self)@.wf(),
    {
        match sprite {
            None => background.1,
            Some((value, attributes, is_zero)) => {
                if is_zero && background.0 != 0 && x != 255 {
                    self.sprite_zero_hit = true;
                }
                if background.0 != 0 && attributes & 0b0010_0000 != 0 {
                    background.1
                } else {
                    self.palette_ram[0x10 + (attributes % 4) as usize * 4 + value]
                }
            },
        }
    }

    /// A crayon, seen through the mask: greyscale forces it onto the grey
    /// column, and the top three bits pick which emphasis palette the color
    /// is read from.
    pub fn color(&self, crayon: u8) -> (color: u32)
        requires
            self.colors@.len() == ppu::COLORS,
        ensures
            color == self@.color(crayon),
    {
        let seen: usize = if self.mask & 0b0000_0001 != 0 {
            (crayon / 16 % 4 * 16) as usize
        } else {
            (crayon % 64) as usize
        };
        self.colors[(self.mask / 32) as usize * 64 + seen]
    }

    /// One dot of the picture chip's day. Visible dots leave through the
    /// belt; the belt advances and the pockets refill on the schedule the
    /// beam sets; the tail of every line, warm-up lap included, primes the
    /// first two tiles of the line below.
    pub fn tick<A: Album + ?Sized>(&mut self, scanline: u16, dot: u16, chr: &A)
        requires
            old(self)@.wf(),
            old(self)@.tick_fits(scanline as int, dot as int, chr.bytes()),
        ensures
            final(self)@ == old(self)@.ticked(scanline as int, dot as int, chr.bytes()),
            final(self)@.wf(),
    {
        proof {
            reveal(PpuState::ticked);
        }
        let ghost start = self@;
        if scanline < 240 && 1 <= dot && dot <= 256 {
            self.draw_dot(scanline as usize, dot as usize - 1);
        }
        // The warm-up lap wipes last frame's score, rendering or not.
        if scanline == 261 && dot == 1 {
            self.sprite_zero_hit = false;
            self.sprite_overflow = false;
        }
        let ghost cleared = self@;
        assert(cleared.working(scanline as int) == start.working(scanline as int));
        if !self.rendering() || (scanline >= 240 && scanline != 261) {
            return;
        }
        assert(cleared.pattern_start() == start.pattern_start());
        self.move_belt(scanline, dot, chr);
        self.move_address(scanline, dot);
        // While the beam turns around, the chip casts the next line. Nobody
        // casts for line zero, and drawing it asks nobody.
        if scanline < 240 && dot == 257 {
            assert(self@.oam == start.oam && self@.ctrl == start.ctrl);
            proof {
                lemma_cast_fits_frame(start, self@, scanline + 1, chr.bytes());
            }
            self.evaluate_sprites(scanline as usize + 1, chr);
        }
    }

    /// One dot, through a whole album, with the vblank flag kept: it rises as
    /// the beam enters line 241, and falls on the warm-up lap.
    pub fn keep_time<A: Album + ?Sized>(&mut self, scanline: u16, dot: u16, chr: &A)
        requires
            old(self)@.wf(),
            chr.bytes().len() >= 0x2000,
        ensures
            final(self)@ == old(self)@.kept_time(scanline as int, dot as int, chr.bytes()),
            final(self)@.wf(),
    {
        proof {
            reveal(PpuState::kept_time);
        }
        if dot == 1 {
            if scanline == 241 {
                self.vblank = true;
            } else if scanline == 261 {
                self.vblank = false;
            }
        }
        proof {
            law_whole_album_fits(self@, scanline as int, dot as int, chr.bytes());
        }
        self.tick(scanline, dot, chr);
    }

    /// A dot's work on the belt. A tile fetched here is at the front eight
    /// dots later and has left it sixteen dots later, and the address walks
    /// one cell right at every boundary.
    fn move_belt<A: Album + ?Sized>(&mut self, scanline: u16, dot: u16, chr: &A)
        requires
            old(self)@.wf(),
            PpuState::fetches(scanline as int, dot as int) ==> old(self)@.pattern_start() + 8 < chr.bytes().len(),
        ensures
            final(self)@ == old(self)@.belt_moved(scanline as int, dot as int, chr.bytes()),
            final(self)@.wf(),
            final(self)@.oam == old(self)@.oam,
            final(self)@.ctrl == old(self)@.ctrl,
    {
        let visible = scanline < 240 && 1 <= dot && dot <= 256;
        if visible || (321 <= dot && dot <= 336) {
            self.shift();
            if (visible && dot % 8 == 0 && dot <= 248) || dot == 328 || dot == 336 {
                assert(self@.pattern_start() == old(self)@.pattern_start());
                self.fetch_tile(chr);
                self.reload_shifts();
                self.increment_x();
            }
        }
    }

    /// A dot's work on the address: the line's turnarounds.
    fn move_address(&mut self, scanline: u16, dot: u16)
        requires
            old(self)@.wf(),
        ensures
            final(self)@ == old(self)@.address_moved(scanline as int, dot as int),
            final(self)@.wf(),
            final(self)@.oam == old(self)@.oam,
            final(self)@.ctrl == old(self)@.ctrl,
    {
        if dot == 256 {
            self.increment_y();
        }
        if dot == 257 {
            self.copy_horizontal();
        }
        if scanline == 261 && dot == 280 {
            self.copy_vertical();
        }
    }

    /// The ninth-sprite scan, bug included: the chip increments the byte
    /// offset alongside the sprite index, so it wanders a diagonal through
    /// the roster, comparing X positions and tile numbers as if they were Ys.
    pub fn overflow_scan(&mut self, line: usize, from: usize, height: usize)
        requires
            from <= 64,
            height <= 256,
        ensures
            final(self)@ == (PpuState {
                sprite_overflow: old(self).sprite_overflow || overflow_found(
                    old(self)@.oam,
                    line as int,
                    height as int,
                    from as int,
                ),
                ..old(self)@
            }),
            old(self)@.wf() ==> final(self)@.wf(),
    {
        let mut m: usize = 0;
        let mut n: usize = from;
        while n < 64
            invariant
                from <= n <= 64,
                height <= 256,
                m == (n - from) % 4,
                *self == *old(self),
                forall|k: int|
                    from <= k < n ==> !covers(
                        #[trigger] self.oam@[k * 4 + (k - from) % 4],
                        line as int,
                        height as int,
                    ),
            decreases 64 - n,
        {
            let y = self.oam[n * 4 + m];
            if line >= y as usize + 1 && line - (y as usize + 1) < height {
                self.sprite_overflow = true;
                assert(covers(self.oam@[n * 4 + (n - from) % 4], line as int, height as int));
                return;
            }
            m = (m + 1) % 4;
            n = n + 1;
        }
    }
}

/// What a line's cast reads of the album depends on the roster and the
/// settings alone.
proof fn lemma_cast_fits_frame(before: PpuState, after: PpuState, line: int, chr: Seq<u8>)
    requires
        before.cast_fits(line, chr),
        before.oam == after.oam,
        before.ctrl == after.ctrl,
    ensures
        after.cast_fits(line, chr),
{
    let cast = after.cast(line);
    assert(cast == before.cast(line));
    assert forall|i: int| 0 <= i < 8 && i < cast.len() implies after.sprite_fits(#[trigger] cast[i], line, chr) by {
        assert(before.sprite_fits(cast[i], line, chr));
    }
}

/// The cast of the roster's first slots is where the whole roster's begins.
proof fn lemma_cast_grows(oam: Seq<u8>, line: int, height: int, n: nat, m: nat)
    requires
        n <= m,
    ensures
        cast_of(oam, line, height, n).len() <= cast_of(oam, line, height, m).len(),
        cast_of(oam, line, height, n) == cast_of(oam, line, height, m).take(
            cast_of(oam, line, height, n).len() as int,
        ),
        cast_of(oam, line, height, n).len() < cast_of(oam, line, height, m).len() ==> n < m,
    decreases m,
{
    if n < m {
        lemma_cast_grows(oam, line, height, n, (m - 1) as nat);
    }
    assert(cast_of(oam, line, height, n) =~= cast_of(oam, line, height, m).take(
        cast_of(oam, line, height, n).len() as int,
    ));
}

/// A line's cast is what it says: sprites of the roster that cover the line,
/// each once, in roster order.
pub proof fn law_cast_covers_the_line(oam: Seq<u8>, line: int, height: int, n: nat, i: int)
    requires
        0 <= i < cast_of(oam, line, height, n).len(),
    ensures
        ({
            let cast = cast_of(oam, line, height, n);
            &&& 0 <= cast[i] < n
            &&& covers(oam[cast[i] * 4], line, height)
            &&& i > 0 ==> cast[i - 1] < cast[i]
        }),
    decreases n,
{
    let before = cast_of(oam, line, height, (n - 1) as nat);
    if i < before.len() {
        law_cast_covers_the_line(oam, line, height, (n - 1) as nat, i);
    } else if i > 0 {
        law_cast_covers_the_line(oam, line, height, (n - 1) as nat, i - 1);
    }
}

/// No sprite that covers a line is left out of its cast.
pub proof fn law_cast_leaves_nobody_out(oam: Seq<u8>, line: int, height: int, n: nat, slot: int)
    requires
        0 <= slot < n,
        covers(oam[slot * 4], line, height),
    ensures
        cast_of(oam, line, height, n).contains(slot),
    decreases n,
{
    let cast = cast_of(oam, line, height, n);
    if slot == n - 1 {
        assert(cast[cast.len() - 1] == slot);
    } else {
        law_cast_leaves_nobody_out(oam, line, height, (n - 1) as nat, slot);
        let before = cast_of(oam, line, height, (n - 1) as nat);
        let i = choose|i: int| 0 <= i < before.len() && before[i] == slot;
        assert(cast[i] == slot);
    }
}

/// Eight kibibytes of album are enough for every dot of every line.
pub proof fn law_whole_album_fits(state: PpuState, scanline: int, dot: int, chr: Seq<u8>)
    requires
        state.wf(),
        chr.len() >= 0x2000,
    ensures
        state.tick_fits(scanline, dot, chr),
{
    let line = scanline + 1;
    let cast = state.cast(line);
    assert forall|i: int| 0 <= i < 8 && i < cast.len() implies state.sprite_fits(
        #[trigger] cast[i],
        line,
        chr,
    ) by {
        law_cast_covers_the_line(state.oam, line, state.sprite_height(), 64, i);
    }
}

/// What a step to the right does to the fields of an address.
proof fn lemma_column_fields(v: u16)
    by (bit_vector)
    ensures
        ({
            let next = next_column(v);
            &&& ppu::coarse_x(next) == (ppu::coarse_x(v) + 1) % 32
            &&& ppu::name_x(next) == (if ppu::coarse_x(v) == 31 {
                (1 - ppu::name_x(v)) as u16
            } else {
                ppu::name_x(v)
            })
            &&& next & !0x041Fu16 == v & !0x041Fu16
        }),
{
}

/// An address is its horizontal fields and the rest.
proof fn lemma_columns_decide(v: u16, other: u16)
    by (bit_vector)
    requires
        ppu::coarse_x(v) == ppu::coarse_x(other),
        ppu::name_x(v) == ppu::name_x(other),
        v & !0x041Fu16 == other & !0x041Fu16,
    ensures
        v == other,
{
}

/// `columns` steps to the right.
pub open spec fn columns_on(v: u16, columns: nat) -> u16
    decreases columns,
{
    if columns == 0 {
        v
    } else {
        next_column(columns_on(v, (columns - 1) as nat))
    }
}

/// One column more, counted round two nametables of 32.
proof fn lemma_one_column_more(place: int)
    requires
        0 <= place,
    ensures
        (place + 1) % 32 == (place % 32 + 1) % 32,
        (place + 1) / 32 % 2 == (if place % 32 == 31 {
            1 - place / 32 % 2
        } else {
            place / 32 % 2
        }),
{
}

/// Walking right counts columns round two nametables: the column and the
/// name are where counting puts them, and nothing else of the address moves.
#[verifier::spinoff_prover]
pub proof fn law_walking_right_counts(v: u16, columns: nat)
    ensures
        ({
            let there = columns_on(v, columns);
            let place = ppu::name_x(v) * 32 + ppu::coarse_x(v) + columns;
            &&& ppu::coarse_x(there) == place % 32
            &&& ppu::name_x(there) == place / 32 % 2
            &&& there & !0x041Fu16 == v & !0x041Fu16
        }),
    decreases columns,
{
    assert(ppu::name_x(v) < 2);
    if columns > 0 {
        law_walking_right_counts(v, (columns - 1) as nat);
        lemma_column_fields(columns_on(v, (columns - 1) as nat));
        lemma_one_column_more(ppu::name_x(v) * 32 + ppu::coarse_x(v) + columns - 1);
    }
}

/// Walking off a nametable lands in its neighbor, and walking off that one
/// lands where the walk began: sixty-four steps right are none.
pub proof fn law_sixty_four_columns_are_none(v: u16)
    ensures
        ppu::name_x(columns_on(v, 32)) == 1 - ppu::name_x(v),
        ppu::coarse_x(columns_on(v, 32)) == ppu::coarse_x(v),
        columns_on(v, 64) == v,
{
    law_walking_right_counts(v, 32);
    law_walking_right_counts(v, 64);
    lemma_columns_decide(columns_on(v, 64), v);
}

/// What a step down does to the fields of an address that is within a
/// nametable's thirty rows.
proof fn lemma_line_fields(v: u16)
    by (bit_vector)
    requires
        ppu::coarse_y(v) < 30,
    ensures
        ({
            let next = next_line(v);
            let line = ppu::coarse_y(v) * 8 + ppu::fine_y(v);
            &&& ppu::coarse_y(next) < 30
            &&& ppu::coarse_y(next) * 8 + ppu::fine_y(next) == (if line == 239 {
                0
            } else {
                line + 1
            })
            &&& ppu::name_y(next) == (if line == 239 {
                (1 - ppu::name_y(v)) as u16
            } else {
                ppu::name_y(v)
            })
            &&& next & 0x841F == v & 0x841F
        }),
{
}

/// An address is its vertical fields and the rest.
proof fn lemma_lines_decide(v: u16, other: u16)
    by (bit_vector)
    requires
        ppu::coarse_y(v) == ppu::coarse_y(other),
        ppu::fine_y(v) == ppu::fine_y(other),
        ppu::name_y(v) == ppu::name_y(other),
        v & 0x841F == other & 0x841F,
    ensures
        v == other,
{
}

/// `lines` steps down.
pub open spec fn lines_on(v: u16, lines: nat) -> u16
    decreases lines,
{
    if lines == 0 {
        v
    } else {
        next_line(lines_on(v, (lines - 1) as nat))
    }
}

/// Where a walk down stands, counted in lines round two nametables.
#[verifier::opaque]
pub open spec fn line_place(v: u16) -> int {
    ppu::name_y(v) * 240 + ppu::coarse_y(v) * 8 + ppu::fine_y(v)
}

/// Whether two addresses agree on everything that a walk down leaves alone.
#[verifier::opaque]
pub open spec fn same_column(v: u16, other: u16) -> bool {
    v & 0x841F == other & 0x841F
}

/// Whether an address is within a nametable's thirty rows.
#[verifier::opaque]
pub open spec fn in_rows(v: u16) -> bool {
    ppu::coarse_y(v) < 30
}

proof fn lemma_line_place(v: u16)
    requires
        in_rows(v),
    ensures
        in_rows(next_line(v)),
        line_place(next_line(v)) == (line_place(v) + 1) % 480,
        0 <= line_place(v) < 480,
        same_column(next_line(v), v),
{
    reveal(line_place);
    reveal(in_rows);
    reveal(same_column);
    lemma_line_fields(v);
    let next = next_line(v);
    let row = ppu::coarse_y(v) * 8 + ppu::fine_y(v);
    let next_row = ppu::coarse_y(next) * 8 + ppu::fine_y(next);
    assert(ppu::name_y(v) < 2 && ppu::fine_y(v) < 8);
}

/// One more, counted round a ring.
proof fn lemma_one_more(place: int, steps: int, ring: int)
    requires
        ring > 0,
    ensures
        ((place + steps) % ring + 1) % ring == (place + steps + 1) % ring,
{
    vstd::arithmetic::div_mod::lemma_add_mod_noop_right(1, place + steps, ring);
}

/// One line more of a walk down.
proof fn lemma_one_line_more(v: u16, before: u16, lines: nat)
    requires
        in_rows(before),
        line_place(before) == (line_place(v) + lines) % 480,
        same_column(before, v),
    ensures
        in_rows(next_line(before)),
        line_place(next_line(before)) == (line_place(v) + lines + 1) % 480,
        same_column(next_line(before), v),
{
    lemma_line_place(before);
    lemma_one_more(line_place(v), lines as int, 480);
    reveal(same_column);
}

/// Walking down from a nametable's thirty rows counts lines round two of
/// them, 240 to each, and moves nothing else of the address.
#[verifier::spinoff_prover]
pub proof fn law_walking_down_counts(v: u16, lines: nat)
    requires
        in_rows(v),
    ensures
        in_rows(lines_on(v, lines)),
        line_place(lines_on(v, lines)) == (line_place(v) + lines) % 480,
        same_column(lines_on(v, lines), v),
    decreases lines,
{
    if lines == 0 {
        lemma_line_place(v);
        reveal(same_column);
    } else {
        let less = (lines - 1) as nat;
        law_walking_down_counts(v, less);
        lemma_one_line_more(v, lines_on(v, less), less);
    }
}

/// Two screens down is where the walk began, and one screen down is the same
/// place in the other nametable.
pub proof fn law_two_screens_down_are_none(v: u16)
    requires
        in_rows(v),
    ensures
        line_place(lines_on(v, 240)) == (line_place(v) + 240) % 480,
        lines_on(v, 480) == v,
{
    law_walking_down_counts(v, 240);
    law_walking_down_counts(v, 480);
    lemma_line_place(v);
    lemma_place_decides(lines_on(v, 480), v);
}

/// An address within the rows is its place and what a walk down leaves
/// alone.
proof fn lemma_place_decides(v: u16, other: u16)
    requires
        in_rows(v),
        in_rows(other),
        line_place(v) == line_place(other),
        same_column(v, other),
    ensures
        v == other,
{
    reveal(line_place);
    reveal(in_rows);
    reveal(same_column);
    let (a, b, c) = (ppu::name_y(v) as int, ppu::coarse_y(v) as int, ppu::fine_y(v) as int);
    let (d, e, f) = (ppu::name_y(other) as int, ppu::coarse_y(other) as int, ppu::fine_y(other) as int);
    assert(a < 2 && d < 2 && c < 8 && f < 8);
    assert(a * 240 + b * 8 + c == d * 240 + e * 8 + f);
    assert(a == d && b == e && c == f);
    lemma_lines_decide(v, other);
}

/// The two copies apply the staged camera: after both, the address in use is
/// the staged one, less the bit that belongs to no field.
pub proof fn law_copies_apply_the_camera(v: u16, t: u16)
    by (bit_vector)
    ensures
        vertical_from(horizontal_from(v, t), t) == t % 0x8000,
        horizontal_from(vertical_from(v, t), t) == t % 0x8000,
{
}

/// A line's cast is eight sprites at most, and sprite zero is in it only as
/// its first.
pub proof fn law_eight_sprites_a_line(state: PpuState, line: int, chr: Seq<u8>, i: int)
    ensures
        state.evaluated(line, chr).line_sprites.len() <= 8,
        0 < i < state.evaluated(line, chr).line_sprites.len() ==> !state.evaluated(
            line,
            chr,
        ).line_sprites[i].is_zero,
{
    let cast = state.cast(line);
    if 0 < i < 8 && i < cast.len() {
        law_cast_covers_the_line(state.oam, line, state.sprite_height(), 64, i);
        law_cast_covers_the_line(state.oam, line, state.sprite_height(), 64, i - 1);
    }
}

/// The overflow flag is only ever raised by a line that wanted a ninth
/// sprite.
pub proof fn law_overflow_needs_a_ninth(state: PpuState, line: int, chr: Seq<u8>)
    requires
        state.cast(line).len() <= 8,
    ensures
        state.evaluated(line, chr).sprite_overflow == state.sprite_overflow,
{
}

/// Sprite zero's meeting needs two opaque pixels and a layer each: hidden
/// sprites meet nobody, a hidden background is met by nobody, and nobody
/// meets in the last column.
pub proof fn law_meeting_needs_both(state: PpuState, x: int)
    requires
        state.sprites_hidden(x) || state.background_hidden(x) || x == 255,
    ensures
        !PpuState::meets(state.background(x), state.sprite(x), x),
{
}

/// The first line shows no sprites: whatever cast is around, a dot of it is
/// painted as the background alone paints it, and sprite zero meets nobody
/// there.
pub proof fn law_first_line_shows_no_sprites(state: PpuState, x: int, chr: Seq<u8>)
    requires
        0 <= x < 256,
    ensures
        state.ticked(0, x + 1, chr).frame == state.frame.update(
            x,
            if state.rendering() {
                state.color(state.background(x).1)
            } else {
                state.resting_color()
            },
        ),
        state.ticked(0, x + 1, chr).sprite_zero_hit == state.sprite_zero_hit,
{
    reveal(PpuState::ticked);
}

/// The mask's grey switch drops the hue: every crayon of a row shows as the
/// row's grey.
pub proof fn law_greyscale_drops_the_hue(state: PpuState, crayon: u8, other: u8)
    requires
        state.mask & 0b0000_0001 != 0,
        crayon / 16 % 4 == other / 16 % 4,
    ensures
        state.color(crayon) == state.color(other),
{
}

/// A flipped row read twice is the row: mirroring a sprite again undoes it.
pub proof fn law_flips_undo_themselves(attributes: u8, row: int, column: int, height: int)
    ensures
        flipped_row(attributes, flipped_row(attributes, row, height), height) == row,
        flipped_column(attributes, flipped_column(attributes, column)) == column,
{
}

/// The walks and the copies in numbers. An address is a column of five bits,
/// a row of five, a name across, a name down, and a pixel row of three. A
/// step right counts columns, and from the last goes to the first of the
/// other name across; a step down counts pixel rows, then rows, and from row
/// 29 goes to the first of the other name down, from row 31 to the first of
/// the same one.
pub proof fn law_walks_in_numbers(v: u16)
    by (bit_vector)
    ensures
        v % 32 < 31 ==> next_column(v) == v + 1,
        v % 32 == 31 && v / 1024 % 2 == 0 ==> next_column(v) == v - 31 + 1024,
        v % 32 == 31 && v / 1024 % 2 == 1 ==> next_column(v) == v - 31 - 1024,
        v / 4096 % 8 < 7 ==> next_line(v) == v + 4096,
        v / 4096 % 8 == 7 && v / 32 % 32 != 29 && v / 32 % 32 != 31 ==> next_line(v) == v - 7 * 4096
            + 32,
        v / 4096 % 8 == 7 && v / 32 % 32 == 29 && v / 2048 % 2 == 0 ==> next_line(v) == v - 7 * 4096
            - 29 * 32 + 2048,
        v / 4096 % 8 == 7 && v / 32 % 32 == 29 && v / 2048 % 2 == 1 ==> next_line(v) == v - 7 * 4096
            - 29 * 32 - 2048,
        v / 4096 % 8 == 7 && v / 32 % 32 == 31 ==> next_line(v) == v - 7 * 4096 - 31 * 32,
{
}

/// The copies in numbers: one brings the column and the name across of the
/// staged address, the other its row, its name down and its pixel row, and
/// each keeps the fields of the other.
pub proof fn law_copies_in_numbers(v: u16, t: u16)
    by (bit_vector)
    ensures
        horizontal_from(v, t) == v / 2048 * 2048 + t / 1024 % 2 * 1024 + v / 32 % 32 * 32 + t % 32,
        vertical_from(v, t) == t / 4096 % 8 * 4096 + t / 2048 % 2 * 2048 + v / 1024 % 2 * 1024 + t
            / 32 % 32 * 32 + v % 32,
{
}

} // verus!
