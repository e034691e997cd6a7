//! The clock: the metronome every chip in the machine marches to.

use vstd::prelude::*;

verus! {

/// How many dots a line has.
pub const LINE_DOTS: u16 = 341;

/// How many lines a frame has.
pub const FRAME_LINES: u16 = 262;

/// Where the beam is, counted the way the hardware counts: in dots. 341 dots
/// make a line, 262 lines make a frame, and the processor ticks once for
/// every three dots.
#[derive(Clone, Copy)]
pub struct Clock {
    /// 0 to 340 across the current line.
    pub dot: u16,
    /// 0 to 261 down the current frame: 0 to 239 are drawn, 240 is a rest,
    /// 241 to 260 are vblank, and 261 is the warm-up lap before the next
    /// picture.
    pub scanline: u16,
    /// Finished frames since power-on.
    pub frame: u64,
}

impl Clock {
    /// The beam is on the screen, or in the margins around it.
    pub open spec fn wf(self) -> bool {
        self.dot < LINE_DOTS && self.scanline < FRAME_LINES
    }

    /// Every dot since power-on, counted.
    pub open spec fn dots(self) -> int {
        (self.frame * 262 + self.scanline) * 341 + self.dot
    }

    /// One dot forward.
    pub open spec fn ticked(self) -> Clock {
        if self.dot + 1 != LINE_DOTS {
            Clock { dot: (self.dot + 1) as u16, ..self }
        } else if self.scanline + 1 != FRAME_LINES {
            Clock { dot: 0, scanline: (self.scanline + 1) as u16, ..self }
        } else {
            Clock { dot: 0, scanline: 0, frame: (self.frame + 1) as u64 }
        }
    }

    /// A clock at the top-left corner of frame zero.
    pub fn new() -> (clock: Clock)
        ensures
            clock.dot == 0,
            clock.scanline == 0,
            clock.frame == 0,
            clock.wf(),
    {
        Clock { dot: 0, scanline: 0, frame: 0 }
    }

    /// One dot forward, wrapping dot into line into frame.
    pub fn tick(&mut self)
        requires
            old(self).dot < u16::MAX,
            old(self).dot + 1 == LINE_DOTS ==> old(self).scanline < u16::MAX,
            old(self).dot + 1 == LINE_DOTS && old(self).scanline + 1 == FRAME_LINES ==> old(self).frame < u64::MAX,
        ensures
            *final(self) == old(self).ticked(),
            old(self).wf() ==> final(self).wf() && final(self).dots() == old(self).dots() + 1,
    {
        self.dot = self.dot + 1;
        if self.dot == LINE_DOTS {
            self.dot = 0;
            self.scanline = self.scanline + 1;
            if self.scanline == FRAME_LINES {
                self.scanline = 0;
                self.frame = self.frame + 1;
            }
        }
    }
}

/// `dots` dots forward.
pub open spec fn ticked_times(clock: Clock, dots: nat) -> Clock
    decreases dots,
{
    if dots == 0 {
        clock
    } else {
        ticked_times(clock, (dots - 1) as nat).ticked()
    }
}

/// The clock misses nothing: after any number of dots it stands that many
/// dots further, and still on the screen or in its margins.
pub proof fn law_clock_counts_dots(clock: Clock, dots: nat)
    requires
        clock.wf(),
        clock.dots() + dots < 0x1_0000_0000_0000_0000 * 89342,
    ensures
        ticked_times(clock, dots).wf(),
        ticked_times(clock, dots).dots() == clock.dots() + dots,
    decreases dots,
{
    if dots > 0 {
        law_clock_counts_dots(clock, (dots - 1) as nat);
    }
}

/// Where the beam is follows from the count alone: a line is 341 dots, and a
/// frame is 262 lines.
pub proof fn law_position_follows_from_the_count(clock: Clock)
    requires
        clock.wf(),
    ensures
        clock.dot == clock.dots() % 341,
        clock.scanline == clock.dots() / 341 % 262,
        clock.frame == clock.dots() / 89342,
{
    let lines = clock.frame * 262 + clock.scanline;
    assert(clock.dots() == lines * 341 + clock.dot);
    assert(clock.dots() / 341 == lines);
    assert(lines / 262 == clock.frame);
}

/// A dot moves the beam one to the right; past the 341st it starts the next
/// line, and past the 262nd line the next frame.
pub proof fn law_beam_sweeps_the_screen(clock: Clock)
    requires
        clock.wf(),
        clock.frame < u64::MAX,
    ensures
        clock.dot < 340 ==> clock.ticked() == (Clock { dot: (clock.dot + 1) as u16, ..clock }),
        clock.dot == 340 && clock.scanline < 261 ==> clock.ticked() == (Clock {
            dot: 0,
            scanline: (clock.scanline + 1) as u16,
            ..clock
        }),
        clock.dot == 340 && clock.scanline == 261 ==> clock.ticked() == (Clock {
            dot: 0,
            scanline: 0,
            frame: (clock.frame + 1) as u64,
        }),
{
}

} // verus!
