//! The debugger's typeface: 128 characters, eight bytes each.

use vstd::prelude::*;
use vstd::slice::slice_subrange;

use crate::text;

verus! {

/// A glyph is a square of pixels, so many on a side: one byte per row, one
/// bit per pixel, bit 0 the leftmost.
pub const GLYPH_SIZE: usize = 8;

/// How many characters a typeface holds: the ASCII range, code 0 to 127.
pub const GLYPHS: usize = 128;

/// A typeface.
pub struct Font {
    /// Every glyph in code order: 'A' is code 65, so its rows start at byte
    /// 65 * 8.
    pub glyphs: Vec<u8>,
}

/// The code a character prints as: its own, or beyond ASCII a question
/// mark's.
pub open spec fn code(c: char) -> int {
    if (c as int) < GLYPHS {
        c as int
    } else {
        '?' as int
    }
}

impl Font {
    /// A whole typeface.
    pub open spec fn wf(self) -> bool {
        self.glyphs@.len() == GLYPHS * GLYPH_SIZE
    }

    /// The rows of one character.
    pub open spec fn rows(self, c: char) -> Seq<u8> {
        self.glyphs@.subrange(code(c) * GLYPH_SIZE, (code(c) + 1) * GLYPH_SIZE)
    }

    /// A typeface from bytes already in hand. One of the wrong size is
    /// refused: half a font would print garbage without a word of complaint.
    pub fn from_bytes(glyphs: Vec<u8>) -> (result: Result<Font, String>)
        ensures
            match result {
                Ok(font) => font.wf() && font.glyphs@ == glyphs@,
                Err(why) => {
                    &&& glyphs@.len() != 1024
                    &&& why@ == "a font is 1024 bytes, this one is "@ + text::decimal(glyphs@.len())
                },
            },
    {
        let expected: usize = GLYPHS * GLYPH_SIZE;
        if glyphs.len() != expected {
            let mut why = "a font is 1024 bytes, this one is ".to_owned();
            why.append(text::decimal_number(glyphs.len() as u64).as_str());
            return Err(why);
        }
        Ok(Font { glyphs })
    }

    /// The rows of one character. Anything beyond ASCII prints as '?'.
    pub fn glyph(&self, c: char) -> (rows: &[u8])
        requires
            self.wf(),
        ensures
            rows@ == self.rows(c),
            rows@.len() == GLYPH_SIZE,
    {
        let code: usize = if (c as u32) < 128 {
            c as u32 as usize
        } else {
            '?' as u32 as usize
        };
        slice_subrange(self.glyphs.as_slice(), code * GLYPH_SIZE, (code + 1) * GLYPH_SIZE)
    }
}

/// Characters beyond ASCII all print as a question mark.
pub proof fn law_beyond_ascii_is_a_question_mark(font: Font, c: char)
    requires
        c as int >= 128,
    ensures
        font.rows(c) == font.rows('?'),
{
}

/// A character's rows are eight bytes of the typeface, from eight times its
/// code.
pub proof fn law_glyphs_stand_in_code_order(font: Font, c: char, row: int)
    requires
        font.wf(),
        0 <= row < 8,
    ensures
        font.rows(c).len() == 8,
        (c as int) < 128 ==> font.rows(c)[row] == font.glyphs@[8 * (c as int) + row],
        c as int >= 128 ==> font.rows(c)[row] == font.glyphs@[8 * 63 + row],
{
}

} // verus!
