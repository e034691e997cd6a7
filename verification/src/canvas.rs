//! The picture the window shows: the game's frame alone, or the game beside
//! the panels that watch it.

use vstd::prelude::*;

use crate::bits;
use crate::font::{Font, GLYPH_SIZE};

verus! {

/// A rectangle of pixels, one `u32` each, as 0x00RRGGBB.
pub struct Canvas {
    pub width: usize,
    pub height: usize,
    pub pixels: Vec<u32>,
}

/// Whether a character's glyph is lit at a column and a row.
pub open spec fn glyph_lit(font: Font, c: char, column: int, row: int) -> bool {
    bits::bit(font.rows(c)[row], column as u8) == 1
}

/// Whether a line of text is lit at a distance from its top-left corner.
pub open spec fn text_lit(font: Font, line: Seq<char>, across: int, down: int) -> bool {
    &&& 0 <= down < 8
    &&& 0 <= across < 8 * line.len()
    &&& glyph_lit(font, line[across / 8], across % 8, down)
}

/// Whether every lit pixel of a line of text, its top-left corner at (x, y),
/// has coordinates that can be counted.
pub open spec fn text_fits(font: Font, line: Seq<char>, x: int, y: int) -> bool {
    forall|column: int, bit: int, row: int|
        0 <= column < line.len() && 0 <= bit < 8 && 0 <= row < 8 && #[trigger] glyph_lit(
            font,
            line[column],
            bit,
            row,
        ) ==> x + 8 * column + bit <= usize::MAX && y + row <= usize::MAX
}

/// Whether a place at a distance from the corner of a picture `width` wide
/// lies among the picture's first `count` pixels.
pub open spec fn within(width: int, across: int, down: int, count: int) -> bool {
    0 <= across < width && 0 <= down && down * width + across < count
}

impl Canvas {
    /// There is a pixel for every place.
    pub open spec fn wf(self) -> bool {
        self.pixels@.len() == self.width * self.height
    }

    /// Whether a place is on the canvas.
    pub open spec fn holds(self, x: int, y: int) -> bool {
        0 <= x < self.width && 0 <= y < self.height
    }

    /// The color at a place.
    pub open spec fn color_at(self, x: int, y: int) -> u32 {
        self.pixels@[y * self.width + x]
    }

    /// Whether another canvas has the same shape.
    pub open spec fn same_shape(self, other: Canvas) -> bool {
        self.wf() && self.width == other.width && self.height == other.height
    }

    /// A black canvas of the given size.
    pub fn new(width: usize, height: usize) -> (canvas: Canvas)
        requires
            width * height <= usize::MAX,
        ensures
            canvas.wf(),
            canvas.width == width,
            canvas.height == height,
            forall|i: int| 0 <= i < width * height ==> canvas.pixels@[i] == 0,
    {
        Canvas { width, height, pixels: vec![0; width * height] }
    }

    /// Paint one pixel. Off the edge is quietly ignored, so a panel drawn
    /// near the border needs no bounds arithmetic of its own.
    pub fn pixel(&mut self, x: usize, y: usize, color: u32)
        requires
            old(self).wf(),
        ensures
            final(self).same_shape(*old(self)),
            forall|px: int, py: int|
                old(self).holds(px, py) ==> #[trigger] final(self).color_at(px, py) == (if px == x && py
                    == y {
                    color
                } else {
                    old(self).color_at(px, py)
                }),
            !old(self).holds(x as int, y as int) ==> *final(self) == *old(self),
    {
        if x < self.width && y < self.height {
            proof {
                lemma_place(self.width as int, self.height as int, x as int, y as int);
                assert(self.pixels.len() == self.width * self.height);
            }
            self.pixels[y * self.width + x] = color;
            proof {
                assert forall|px: int, py: int| old(self).holds(px, py) implies #[trigger] self.color_at(px, py)
                    == (if px == x && py == y {
                    color
                } else {
                    old(self).color_at(px, py)
                }) by {
                    lemma_place(self.width as int, self.height as int, px, py);
                    lemma_places_differ(self.width as int, x as int, y as int, px, py);
                }
            }
        }
    }

    /// Fill a rectangle.
    pub fn fill(&mut self, x: usize, y: usize, width: usize, height: usize, color: u32)
        requires
            old(self).wf(),
            height > 0 ==> x + width <= usize::MAX,
            y + height <= usize::MAX,
        ensures
            final(self).same_shape(*old(self)),
            forall|px: int, py: int|
                old(self).holds(px, py) ==> #[trigger] final(self).color_at(px, py) == (if x <= px < x
                    + width && y <= py < y + height {
                    color
                } else {
                    old(self).color_at(px, py)
                }),
    {
        let mut row: usize = y;
        while row < y + height
            invariant
                y <= row <= y + height,
                height > 0 ==> x + width <= usize::MAX,
                y + height <= usize::MAX,
                self.same_shape(*old(self)),
                forall|px: int, py: int|
                    old(self).holds(px, py) ==> #[trigger] self.color_at(px, py) == (if x <= px < x
                        + width && y <= py < row {
                        color
                    } else {
                        old(self).color_at(px, py)
                    }),
            decreases y + height - row,
        {
            let mut column: usize = x;
            while column < x + width
                invariant
                    y <= row < y + height,
                    x <= column <= x + width,
                    x + width <= usize::MAX,
                    self.same_shape(*old(self)),
                    forall|px: int, py: int|
                        old(self).holds(px, py) ==> #[trigger] self.color_at(px, py) == (if x <= px < x
                            + width && y <= py < row || x <= px < column && py == row {
                            color
                        } else {
                            old(self).color_at(px, py)
                        }),
                decreases x + width - column,
            {
                self.pixel(column, row, color);
                column = column + 1;
            }
            row = row + 1;
        }
    }

    /// Copy a picture in, its top-left corner at (x, y). The source is
    /// `width` pixels wide and as tall as its length allows.
    pub fn blit(&mut self, x: usize, y: usize, width: usize, source: &[u32])
        requires
            old(self).wf(),
            source@.len() > 0 ==> {
                &&& width > 0
                &&& x + width - 1 <= usize::MAX || x + source@.len() - 1 <= usize::MAX
                &&& y + (source@.len() - 1) / (width as int) <= usize::MAX
            },
        ensures
            final(self).same_shape(*old(self)),
            forall|px: int, py: int|
                old(self).holds(px, py) ==> #[trigger] final(self).color_at(px, py) == (if within(
                    width as int,
                    px - x,
                    py - y,
                    source@.len() as int,
                ) {
                    source@[(py - y) * width + (px - x)]
                } else {
                    old(self).color_at(px, py)
                }),
    {
        let mut index: usize = 0;
        proof {
            assert forall|px: int, py: int| #[trigger] self.color_at(px, py) == self.color_at(px, py) && !within(width as int,
                px - x,
                py - y,
                0,
            ) by {
                lemma_place_is_no_less(width as int, px - x, py - y);
            }
        }
        while index < source.len()
            invariant
                index <= source@.len(),
                source@.len() > 0 ==> {
                    &&& width > 0
                    &&& x + width - 1 <= usize::MAX || x + source@.len() - 1 <= usize::MAX
                    &&& y + (source@.len() - 1) / (width as int) <= usize::MAX
                },
                self.same_shape(*old(self)),
                forall|px: int, py: int|
                    old(self).holds(px, py) ==> #[trigger] self.color_at(px, py) == (if within(width as int,
                        px - x,
                        py - y,
                        index as int,
                    ) {
                        source@[(py - y) * width + (px - x)]
                    } else {
                        old(self).color_at(px, py)
                    }),
            decreases source@.len() - index,
        {
            let column: usize = index % width;
            let row: usize = index / width;
            let ghost before = *self;
            proof {
                vstd::arithmetic::div_mod::lemma_mod_decreases(index as nat, width as nat);
                vstd::arithmetic::div_mod::lemma_div_is_ordered(
                    index as int,
                    source@.len() - 1,
                    width as int,
                );
            }
            self.pixel(x + column, y + row, source[index]);
            proof {
                assert(index == row * width + column) by {
                    vstd::arithmetic::div_mod::lemma_fundamental_div_mod(index as int, width as int);
                    assert(row * width == width * row) by (nonlinear_arith);
                }
                assert forall|px: int, py: int| old(self).holds(px, py) implies #[trigger] self.color_at(px, py)
                    == (if within(width as int, px - x, py - y, index + 1) {
                    source@[(py - y) * width + (px - x)]
                } else {
                    old(self).color_at(px, py)
                }) by {
                    assert(before.color_at(px, py) == before.color_at(px, py));
                    if 0 <= px - x < width && 0 <= py - y {
                        lemma_places_differ(
                            width as int,
                            column as int,
                            row as int,
                            px - x,
                            py - y,
                        );
                    }
                }
            }
            index = index + 1;
        }
    }

    /// Paint row `row` of the glyph in column `column` of a line: only the
    /// lit bits, so the text sits on whatever was there.
    fn glyph_row(&mut self, x: usize, column: usize, y: usize, row: usize, lit: u8, color: u32)
        requires
            old(self).wf(),
            row < 8,
            forall|bit: int|
                0 <= bit < 8 && #[trigger] bits::bit(lit, bit as u8) == 1 ==> x + 8 * column + bit <= usize::MAX && y
                    + row <= usize::MAX,
        ensures
            final(self).same_shape(*old(self)),
            forall|px: int, py: int|
                old(self).holds(px, py) ==> #[trigger] final(self).color_at(px, py) == (if py == y + row && 0 <= px
                    - x - 8 * column < 8 && bits::bit(lit, (px - x - 8 * column) as u8) == 1 {
                    color
                } else {
                    old(self).color_at(px, py)
                }),
    {
        let mut bit: usize = 0;
        while bit < 8
            invariant
                bit <= 8,
                row < 8,
                forall|b: int|
                    0 <= b < 8 && #[trigger] bits::bit(lit, b as u8) == 1 ==> x + 8 * column + b <= usize::MAX && y
                        + row <= usize::MAX,
                self.same_shape(*old(self)),
                forall|px: int, py: int|
                    old(self).holds(px, py) ==> #[trigger] self.color_at(px, py) == (if py == y + row && 0 <= px - x
                        - 8 * column < bit && bits::bit(lit, (px - x - 8 * column) as u8) == 1 {
                        color
                    } else {
                        old(self).color_at(px, py)
                    }),
            decreases 8 - bit,
        {
            let place: u8 = bit as u8;
            if (lit >> place) & 1 == 1 {
                assert(bits::bit(lit, bit as int as u8) == 1);
                self.pixel(x + column * GLYPH_SIZE + bit, y + row, color);
            }
            bit = bit + 1;
        }
    }

    /// Paint one character, in column `column` of a line.
    fn character(&mut self, font: &Font, x: usize, column: usize, y: usize, c: char, color: u32)
        requires
            old(self).wf(),
            font.wf(),
            forall|bit: int, row: int|
                0 <= bit < 8 && 0 <= row < 8 && #[trigger] glyph_lit(*font, c, bit, row) ==> x + 8 * column + bit
                    <= usize::MAX && y + row <= usize::MAX,
        ensures
            final(self).same_shape(*old(self)),
            forall|px: int, py: int|
                old(self).holds(px, py) ==> #[trigger] final(self).color_at(px, py) == (if 0 <= py - y < 8 && 0 <= px
                    - x - 8 * column < 8 && glyph_lit(*font, c, px - x - 8 * column, py - y) {
                    color
                } else {
                    old(self).color_at(px, py)
                }),
    {
        let rows = font.glyph(c);
        let mut row: usize = 0;
        while row < 8
            invariant
                row <= 8,
                rows@ == font.rows(c),
                rows@.len() == 8,
                forall|bit: int, r: int|
                    0 <= bit < 8 && 0 <= r < 8 && #[trigger] glyph_lit(*font, c, bit, r) ==> x + 8 * column + bit
                        <= usize::MAX && y + r <= usize::MAX,
                self.same_shape(*old(self)),
                forall|px: int, py: int|
                    old(self).holds(px, py) ==> #[trigger] self.color_at(px, py) == (if 0 <= py - y < row && 0 <= px
                        - x - 8 * column < 8 && glyph_lit(*font, c, px - x - 8 * column, py - y) {
                        color
                    } else {
                        old(self).color_at(px, py)
                    }),
            decreases 8 - row,
        {
            let lit = rows[row];
            assert forall|bit: int| 0 <= bit < 8 && #[trigger] bits::bit(lit, bit as u8) == 1 implies x + 8 * column
                + bit <= usize::MAX && y + row <= usize::MAX by {
                assert(glyph_lit(*font, c, bit, row as int));
            }
            self.glyph_row(x, column, y, row, lit, color);
            row = row + 1;
        }
    }

    /// Print a string, one glyph per character, starting at (x, y). Only the
    /// lit bits are painted.
    pub fn text(&mut self, font: &Font, x: usize, y: usize, text: &str, color: u32)
        requires
            old(self).wf(),
            font.wf(),
            text_fits(*font, text@, x as int, y as int),
        ensures
            final(self).same_shape(*old(self)),
            forall|px: int, py: int|
                old(self).holds(px, py) ==> #[trigger] final(self).color_at(px, py) == (if text_lit(
                    *font,
                    text@,
                    px - x,
                    py - y,
                ) {
                    color
                } else {
                    old(self).color_at(px, py)
                }),
    {
        let len = text.unicode_len();
        let mut column: usize = 0;
        while column < len
            invariant
                column <= len,
                len == text@.len(),
                font.wf(),
                text_fits(*font, text@, x as int, y as int),
                self.same_shape(*old(self)),
                forall|px: int, py: int|
                    old(self).holds(px, py) ==> #[trigger] self.color_at(px, py) == (if px - x < 8 * column
                        && text_lit(*font, text@, px - x, py - y) {
                        color
                    } else {
                        old(self).color_at(px, py)
                    }),
            decreases len - column,
        {
            let c = text.get_char(column);
            assert forall|bit: int, row: int|
                0 <= bit < 8 && 0 <= row < 8 && #[trigger] glyph_lit(*font, c, bit, row) implies x + 8 * column + bit
                <= usize::MAX && y + row <= usize::MAX by {
                assert(glyph_lit(*font, text@[column as int], bit, row));
            }
            self.character(font, x, column, y, c, color);
            column = column + 1;
        }
    }
}

/// A line of text with room for all of its pixels has room for the lit ones.
pub(crate) proof fn lemma_text_fits(font: Font, line: Seq<char>, x: int, y: int)
    requires
        x + 8 * line.len() - 1 <= usize::MAX,
        y + 7 <= usize::MAX,
    ensures
        text_fits(font, line, x, y),
{
}

/// Every place on a canvas has its pixel.
pub(crate) proof fn lemma_place(width: int, height: int, x: int, y: int)
    by (nonlinear_arith)
    requires
        0 <= x < width,
        0 <= y < height,
    ensures
        0 <= y * width + x < width * height,
        0 <= y * width <= width * height,
{
}

/// No two places share a pixel.
proof fn lemma_places_differ(width: int, x: int, y: int, other_x: int, other_y: int)
    by (nonlinear_arith)
    requires
        0 <= x < width,
        0 <= other_x < width,
        0 <= y,
        0 <= other_y,
    ensures
        y * width + x == other_y * width + other_x <==> x == other_x && y == other_y,
{
}

/// A place below and right of the corner is no less than the corner.
proof fn lemma_place_is_no_less(width: int, across: int, down: int)
    by (nonlinear_arith)
    ensures
        0 <= across < width && 0 <= down ==> down * width + across >= 0,
{
}

/// A canvas keeps its pixels row after row, from the top left.
pub proof fn law_pixels_stand_row_by_row(canvas: Canvas, x: int, y: int)
    requires
        canvas.wf(),
        0 <= x < canvas.width,
        0 <= y < canvas.height,
    ensures
        canvas.holds(x, y),
        0 <= canvas.width * y + x < canvas.pixels@.len(),
        canvas.color_at(x, y) == canvas.pixels@[canvas.width * y + x],
        x + 1 < canvas.width ==> canvas.color_at(x + 1, y) == canvas.pixels@[canvas.width * y + x
            + 1],
{
    lemma_place(canvas.width as int, canvas.height as int, x, y);
    assert(y * canvas.width == canvas.width * y) by (nonlinear_arith);
}

/// Which pixels a line of text lights: character after character, each eight
/// wide and eight tall, and in a row of a glyph the pixel so many from the
/// left where the bit so many from the lowest is set.
pub proof fn law_text_lights_its_glyphs(font: Font, line: Seq<char>, n: int, column: int, row: int)
    requires
        font.wf(),
        0 <= n < line.len(),
        0 <= column < 8,
        0 <= row < 8,
    ensures
        ({
            let code = if (line[n] as int) < 128 {
                line[n] as int
            } else {
                63
            };
            let byte = font.glyphs@[8 * code + row];
            text_lit(font, line, 8 * n + column, row) == (if column == 0 {
                byte % 2 == 1
            } else if column == 1 {
                byte / 2 % 2 == 1
            } else if column == 2 {
                byte / 4 % 2 == 1
            } else if column == 3 {
                byte / 8 % 2 == 1
            } else if column == 4 {
                byte / 16 % 2 == 1
            } else if column == 5 {
                byte / 32 % 2 == 1
            } else if column == 6 {
                byte / 64 % 2 == 1
            } else {
                byte / 128 == 1
            })
        }),
{
    assert((8 * n + column) / 8 == n);
    assert((8 * n + column) % 8 == column);
    crate::font::law_glyphs_stand_in_code_order(font, line[n], row);
    bits::lemma_places_of_a_byte(font.rows(line[n])[row]);
}

/// Beside, above and below its glyphs a line of text lights nothing.
pub proof fn law_text_stays_in_its_line(font: Font, line: Seq<char>, across: int, down: int)
    ensures
        text_lit(font, line, across, down) ==> 0 <= down < 8 && 0 <= across < 8 * line.len(),
{
}

/// A picture covers as many places as it has pixels, and no column beyond
/// its width.
pub proof fn law_picture_covers_its_pixels(width: int, across: int, down: int, count: int)
    requires
        0 < width,
    ensures
        within(width, across, down, count) == (0 <= across && across < width && 0 <= down && width
            * down + across < count),
{
    assert(down * width == width * down) by (nonlinear_arith);
}

} // verus!
