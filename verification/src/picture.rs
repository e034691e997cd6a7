//! Pictures: the test pattern, the composed window, and the file format that
//! a picture leaves in.

use vstd::prelude::*;

use crate::canvas;
use crate::canvas::Canvas;
use crate::debugger;
use crate::debugger::{Debugger, PANEL};
use crate::font::Font;
use crate::machine::{Machine, MachineState};
use crate::ppu::FRAME_PIXELS;
use crate::text;

verus! {

/// The picture is exactly 256 pixels wide...
pub const WIDTH: usize = 256;

/// ...and 240 pixels tall.
pub const HEIGHT: usize = 240;

/// How much room the debugger's panels get beside the picture: a gutter,
/// twenty-eight characters of text, a margin.
pub const SIDEBAR: usize = 240;

/// The test pattern's color at a place: red grows from left to right, green
/// from top to bottom, with a fixed dash of blue everywhere.
pub open spec fn pattern_color(x: int, y: int) -> int {
    x * 0x1_0000 + y * 255 / 239 * 0x100 + 128
}

/// A color darkened: each of its three parts halved.
pub open spec fn darkened(color: u32) -> u32 {
    (color >> 1) & 0x007F_7F7F
}

/// Whether a place is on the grid that marks the 8x8 tiles.
pub open spec fn on_grid(index: int) -> bool {
    index % 256 % 8 == 0 || index / 256 % 8 == 0
}

/// Fill the whole buffer with a smooth color gradient, to show that every
/// pixel is under control.
pub fn draw_test_pattern(buffer: &mut [u32])
    requires
        old(buffer)@.len() >= FRAME_PIXELS,
    ensures
        final(buffer)@.len() == old(buffer)@.len(),
        forall|i: int|
            0 <= i < old(buffer)@.len() ==> #[trigger] final(buffer)@[i] == (if i < FRAME_PIXELS {
                pattern_color(i % 256, i / 256)
            } else {
                old(buffer)@[i] as int
            }),
{
    let mut index: usize = 0;
    while index < FRAME_PIXELS
        invariant
            index <= FRAME_PIXELS,
            buffer@.len() == old(buffer)@.len(),
            buffer@.len() >= FRAME_PIXELS,
            forall|i: int|
                0 <= i < buffer@.len() ==> #[trigger] buffer@[i] == (if i < index {
                    pattern_color(i % 256, i / 256)
                } else {
                    old(buffer)@[i] as int
                }),
        decreases FRAME_PIXELS - index,
    {
        let red: u32 = (index % WIDTH) as u32;
        // Stretched to reach 255 on the last row.
        let green: u32 = (index / WIDTH) as u32 * 255 / 239;
        buffer[index] = red * 0x1_0000 + green * 0x100 + 128;
        index = index + 1;
    }
}

/// Darken every eighth row and column. The picture is built out of 8x8
/// tiles; this grid marks their territory.
pub fn draw_tile_grid(buffer: &mut [u32])
    requires
        old(buffer)@.len() >= FRAME_PIXELS,
    ensures
        final(buffer)@.len() == old(buffer)@.len(),
        forall|i: int|
            0 <= i < old(buffer)@.len() ==> #[trigger] final(buffer)@[i] == (if i < FRAME_PIXELS && on_grid(
                i,
            ) {
                darkened(old(buffer)@[i])
            } else {
                old(buffer)@[i]
            }),
{
    let mut index: usize = 0;
    while index < FRAME_PIXELS
        invariant
            index <= FRAME_PIXELS,
            buffer@.len() == old(buffer)@.len(),
            buffer@.len() >= FRAME_PIXELS,
            forall|i: int|
                0 <= i < buffer@.len() ==> #[trigger] buffer@[i] == (if i < index && on_grid(i) {
                    darkened(old(buffer)@[i])
                } else {
                    old(buffer)@[i]
                }),
        decreases FRAME_PIXELS - index,
    {
        if index % WIDTH % 8 == 0 || index / WIDTH % 8 == 0 {
            let color = buffer[index];
            // The mask clears the bits that spilled over from one part into
            // its neighbor.
            buffer[index] = (color >> 1) & 0x007F_7F7F;
        }
        index = index + 1;
    }
}

/// What lies under the panels: the game's frame on the left, the panels'
/// background on the right of it.
pub open spec fn backdrop(frame: Seq<u32>, x: int, y: int) -> u32 {
    if canvas::within(256, x, y, frame.len() as int) {
        frame[y * 256 + x]
    } else if x >= 256 {
        PANEL
    } else {
        0
    }
}

/// Whether a canvas shows the game's frame alone.
pub open spec fn shows_frame(canvas: Canvas, frame: Seq<u32>) -> bool {
    &&& canvas.wf()
    &&& canvas.width == WIDTH
    &&& canvas.height == HEIGHT
    &&& forall|x: int, y: int|
        canvas.holds(x, y) ==> #[trigger] canvas.color_at(x, y) == (if canvas::within(
            256,
            x,
            y,
            frame.len() as int,
        ) {
            frame[y * 256 + x]
        } else {
            0
        })
}

/// Whether a canvas shows the game's frame with the registers panel, and no
/// other, in a sidebar beside it.
pub open spec fn shows_panels(canvas: Canvas, frame: Seq<u32>, machine: MachineState, font: Font) -> bool {
    &&& canvas.wf()
    &&& canvas.width == WIDTH + SIDEBAR
    &&& canvas.height == HEIGHT
    &&& forall|x: int, y: int|
        canvas.holds(x, y) ==> #[trigger] canvas.color_at(x, y) == debugger::panel_color(
            debugger::registers_panel(machine),
            font,
            x - (WIDTH + 8),
            y - 4,
            backdrop(frame, x, y),
        )
}

/// The picture for the window: the game's frame alone, or, with the debugger
/// open, the frame with a sidebar. The registers are the only panel in it:
/// the sidebar has no page for a listing or a ledger under them and no status
/// line, and the keys it names are those in the registers panel.
pub fn compose(frame: &[u32], machine: Option<&Machine>, debugger: &Debugger, font: &Font) -> (canvas: Canvas)
    requires
        font.wf(),
    ensures
        match machine {
            Some(machine) => if debugger.open {
                shows_panels(canvas, frame@, machine@, *font)
            } else {
                shows_frame(canvas, frame@)
            },
            None => shows_frame(canvas, frame@),
        },
{
    assert(frame.len() == frame@.len());
    match machine {
        Some(machine) if debugger.open => {
            let mut canvas = Canvas::new(WIDTH + SIDEBAR, HEIGHT);
            let ghost black = canvas;
            proof {
                lemma_black(black);
            }
            canvas.fill(WIDTH, 0, SIDEBAR, HEIGHT, PANEL);
            canvas.blit(0, 0, WIDTH, frame);
            proof {
                debugger::law_registers_fit(machine@, *font, WIDTH + 8, 4);
            }
            debugger.paint_registers(&mut canvas, font, machine, WIDTH + 8, 4);
            canvas
        },
        _ => {
            let mut canvas = Canvas::new(WIDTH, HEIGHT);
            let ghost black = canvas;
            proof {
                lemma_black(black);
            }
            canvas.blit(0, 0, WIDTH, frame);
            canvas
        },
    }
}

/// A canvas of zeros is black everywhere.
proof fn lemma_black(canvas: Canvas)
    requires
        canvas.wf(),
        forall|i: int| 0 <= i < canvas.width * canvas.height ==> canvas.pixels@[i] == 0,
    ensures
        forall|x: int, y: int| canvas.holds(x, y) ==> #[trigger] canvas.color_at(x, y) == 0,
{
    assert forall|x: int, y: int| canvas.holds(x, y) implies #[trigger] canvas.color_at(x, y) == 0 by {
        canvas::lemma_place(canvas.width as int, canvas.height as int, x, y);
    }
}

/// Characters as bytes, one each.
pub open spec fn bytes_of(text: Seq<char>) -> Seq<u8> {
    text.map_values(|c: char| c as u8)
}

/// The three lines that open a PPM file: what it is, its size, and the
/// brightest value a color part takes.
pub open spec fn ppm_header(width: nat, height: nat) -> Seq<u8> {
    seq![0x50u8, 0x36, 0x0A] + bytes_of(text::decimal(width)) + seq![0x20u8] + bytes_of(
        text::decimal(height),
    ) + seq![0x0Au8, 0x32, 0x35, 0x35, 0x0A]
}

/// A color part of a pixel: red, green or blue.
pub open spec fn color_part(pixel: u32, part: int) -> u8 {
    if part == 0 {
        (pixel / 0x1_0000 % 0x100) as u8
    } else if part == 1 {
        (pixel / 0x100 % 0x100) as u8
    } else {
        (pixel % 0x100) as u8
    }
}

/// The body of a PPM file: one byte per color part, pixel after pixel.
pub open spec fn ppm_body(pixels: Seq<u32>) -> Seq<u8> {
    Seq::new(pixels.len() * 3, |i: int| color_part(pixels[i / 3], i % 3))
}

/// Add a number in decimal to a file.
fn write_decimal(file: &mut Vec<u8>, value: u64)
    ensures
        final(file)@ == old(file)@ + bytes_of(text::decimal(value as nat)),
    decreases value,
{
    if value >= 10 {
        write_decimal(file, value / 10);
    }
    let ghost front = file@;
    file.push(0x30 + (value % 10) as u8);
    proof {
        let whole = bytes_of(text::decimal(value as nat));
        let last = text::digit(value as int % 10) as u8;
        if value >= 10 {
            assert(whole =~= bytes_of(text::decimal((value / 10) as nat)).push(last));
        } else {
            assert(whole =~= seq![last]);
        }
        assert(file@ =~= old(file)@ + whole);
    }
}

/// A canvas as a PPM file: a three-line header, then one byte per color part,
/// red, green, blue, row after row.
pub fn write_ppm(canvas: &Canvas) -> (file: Vec<u8>)
    ensures
        file@ == ppm_header(canvas.width as nat, canvas.height as nat) + ppm_body(canvas.pixels@),
{
    let mut file: Vec<u8> = Vec::new();
    file.push(0x50);
    file.push(0x36);
    file.push(0x0A);
    write_decimal(&mut file, canvas.width as u64);
    file.push(0x20);
    write_decimal(&mut file, canvas.height as u64);
    file.push(0x0A);
    file.push(0x32);
    file.push(0x35);
    file.push(0x35);
    file.push(0x0A);
    let ghost header = ppm_header(canvas.width as nat, canvas.height as nat);
    assert(file@ =~= header + ppm_body(canvas.pixels@.take(0)));
    let mut index: usize = 0;
    while index < canvas.pixels.len()
        invariant
            index <= canvas.pixels@.len(),
            file@ == header + ppm_body(canvas.pixels@.take(index as int)),
        decreases canvas.pixels@.len() - index,
    {
        let pixel = canvas.pixels[index];
        let ghost before = file@;
        file.push((pixel / 0x1_0000 % 0x100) as u8);
        file.push((pixel / 0x100 % 0x100) as u8);
        file.push((pixel % 0x100) as u8);
        proof {
            let more = ppm_body(canvas.pixels@.take(index + 1));
            assert(more =~= ppm_body(canvas.pixels@.take(index as int)).push(
                color_part(pixel, 0),
            ).push(color_part(pixel, 1)).push(color_part(pixel, 2)));
            assert(file@ =~= header + more);
        }
        index = index + 1;
    }
    assert(canvas.pixels@.take(index as int) =~= canvas.pixels@);
    file
}

/// A PPM file is a header and three bytes a pixel, and the bytes of a pixel
/// are where its place in the picture says.
pub proof fn law_three_bytes_a_pixel(pixels: Seq<u32>, i: int, part: int)
    requires
        0 <= i < pixels.len(),
        0 <= part < 3,
    ensures
        ppm_body(pixels).len() == 3 * pixels.len(),
        ppm_body(pixels)[3 * i + part] == color_part(pixels[i], part),
{
    assert((3 * i + part) / 3 == i);
    assert((3 * i + part) % 3 == part);
}

/// The test pattern, part by part: red is the column, green the row stretched
/// over 0 to 255, and blue is 128 everywhere.
pub proof fn law_pattern_part_by_part(x: int, y: int)
    requires
        0 <= x < 256,
        0 <= y < 240,
    ensures
        pattern_color(x, y) / 0x10000 == x,
        pattern_color(x, y) / 0x100 % 0x100 == 255 * y / 239,
        pattern_color(x, y) % 0x100 == 128,
{
    lemma_three_parts(x, y * 255 / 239, 128);
}

/// A color put together from its three parts comes apart into them.
proof fn lemma_three_parts(red: int, green: int, blue: int)
    requires
        0 <= red < 256,
        0 <= green < 256,
        0 <= blue < 256,
    ensures
        (red * 0x10000 + green * 0x100 + blue) / 0x10000 == red,
        (red * 0x10000 + green * 0x100 + blue) / 0x100 % 0x100 == green,
        (red * 0x10000 + green * 0x100 + blue) % 0x100 == blue,
{
    assert((red * 0x10000 + green * 0x100 + blue) / 0x100 == red * 0x100 + green);
}

/// Darkening halves each of the three parts of a color, and drops what stands
/// above them.
pub proof fn law_darkening_halves_the_parts(color: u32)
    by (bit_vector)
    ensures
        darkened(color) / 0x10000 == color / 0x10000 % 0x100 / 2,
        darkened(color) / 0x100 % 0x100 == color / 0x100 % 0x100 / 2,
        darkened(color) % 0x100 == color % 0x100 / 2,
{
}

/// The grid: every eighth column and every eighth row, from the first.
pub proof fn law_grid_marks_the_tiles(x: int, y: int)
    requires
        0 <= x < 256,
        0 <= y < 240,
    ensures
        on_grid(256 * y + x) == (x % 8 == 0 || y % 8 == 0),
{
    assert((256 * y + x) % 256 == x);
    assert((256 * y + x) / 256 == y);
}

/// The parts of a pixel: red is the third byte, green the second, blue the
/// lowest.
pub proof fn law_parts_of_a_pixel(pixel: u32)
    ensures
        color_part(pixel, 0) == pixel / 65536 % 256,
        color_part(pixel, 1) == pixel / 256 % 256,
        color_part(pixel, 2) == pixel % 256,
{
}

/// What a picture's file opens with, character by character: the format's
/// name, the width and the height, and 255, on three lines.
pub proof fn law_header_reads_as_text(width: nat, height: nat)
    ensures
        ppm_header(width, height) == bytes_of(
            seq!['P', '6', '\n'] + text::decimal(width) + seq![' '] + text::decimal(height) + seq![
                '\n',
                '2',
                '5',
                '5',
                '\n',
            ],
        ),
{
    let texts = seq!['P', '6', '\n'] + text::decimal(width) + seq![' '] + text::decimal(height)
        + seq!['\n', '2', '5', '5', '\n'];
    assert(ppm_header(width, height) =~= bytes_of(texts));
}

/// A text of ASCII as bytes: one character more is one byte more, the
/// character's code.
pub proof fn law_plain_characters_are_bytes(text: Seq<char>, c: char)
    requires
        (c as int) < 128,
    ensures
        bytes_of(Seq::empty()) == Seq::<u8>::empty(),
        bytes_of(text.push(c)).len() == bytes_of(text).len() + 1,
        bytes_of(text.push(c)).drop_last() == bytes_of(text),
        bytes_of(text.push(c)).last() == c as int,
{
    assert(bytes_of(Seq::empty()) =~= Seq::<u8>::empty());
    assert(bytes_of(text.push(c)).drop_last() =~= bytes_of(text));
}

/// The window with the panels closed: the frame, pixel for pixel, on a canvas
/// of 256 by 240, and black where the frame has no pixel.
pub proof fn law_frame_fills_the_window(canvas: Canvas, frame: Seq<u32>, x: int, y: int)
    requires
        shows_frame(canvas, frame),
        0 <= x < 256,
        0 <= y < 240,
    ensures
        canvas.width == 256,
        canvas.height == 240,
        canvas.color_at(x, y) == (if 256 * y + x < frame.len() {
            frame[256 * y + x]
        } else {
            0
        }),
{
    assert(canvas.holds(x, y));
}

/// The window with the panels open: the frame on the left as ever, and on the
/// right of it a sidebar of 240 columns, its background broken only by the
/// registers panel, whose corner stands eight columns and four rows in.
pub proof fn law_sidebar_stands_beside_the_frame(
    canvas: Canvas,
    frame: Seq<u32>,
    machine: MachineState,
    font: Font,
    x: int,
    y: int,
)
    requires
        shows_panels(canvas, frame, machine, font),
        0 <= x < 496,
        0 <= y < 240,
    ensures
        canvas.width == 496,
        canvas.height == 240,
        x < 256 && 256 * y + x < frame.len() ==> canvas.color_at(x, y) == frame[256 * y + x],
        x < 256 && 256 * y + x >= frame.len() ==> canvas.color_at(x, y) == 0,
        x >= 256 ==> canvas.color_at(x, y) == debugger::panel_color(
            debugger::registers_panel(machine),
            font,
            x - 264,
            y - 4,
            0x0018_1820,
        ),
{
    assert(canvas.holds(x, y));
    if x < 256 {
        debugger::law_panels_stay_right_of_their_corner(
            debugger::registers_panel(machine),
            font,
            x - 264,
            y - 4,
            backdrop(frame, x, y),
        );
    }
}

} // verus!
