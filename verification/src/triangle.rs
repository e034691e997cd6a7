//! The triangle voice, the console's bass.

use vstd::prelude::*;

use crate::length::LengthCounter;
use crate::timer;

verus! {

/// The triangle's staircase, thirty-two steps down then up.
pub const TRIANGLE_STEPS: [u8; 32] = [
    15, 14, 13, 12, 11, 10, 9, 8, 7, 6, 5, 4, 3, 2, 1, 0, 0, 1, 2, 3, 4, 5, 6, 7, 8, 9, 10, 11, 12,
    13, 14, 15,
];

/// The third voice. Its timer runs at twice the pulses' rate, and its
/// note-off has two locks: the shared length counter, and a private linear
/// counter with finer, quarter-frame resolution.
#[derive(Clone, Copy)]
pub struct Triangle {
    pub timer: u16,
    /// The second lock: counted down every quarter frame.
    pub linear: u8,
    /// What the linear counter reloads to.
    pub linear_reload: u8,
    /// Hold the note: reload the linear counter every quarter frame instead
    /// of counting it down.
    pub linear_halt: bool,
    /// Set by a note-on; the next quarter frame reloads the linear counter
    /// instead of counting it.
    pub reload_flag: bool,
    pub length: LengthCounter,
}

impl Triangle {
    /// A voice at rest.
    pub open spec fn idle() -> Triangle {
        Triangle {
            timer: 0,
            linear: 0,
            linear_reload: 0,
            linear_halt: false,
            reload_flag: false,
            length: LengthCounter::idle(),
        }
    }

    /// What every operation keeps: an eleven-bit timer, and its counter in
    /// order.
    pub open spec fn wf(self) -> bool {
        self.timer <= 0x7FF && self.length.wf()
    }

    /// A control write: the linear counter's reload value, and the hold bit.
    pub open spec fn control_written(self, value: u8) -> Triangle {
        Triangle {
            linear_reload: value % 128,
            linear_halt: value >= 128,
            length: self.length.halt_set(value >= 128),
            ..self
        }
    }

    /// A write of the timer's low byte.
    pub open spec fn timer_low_written(self, value: u8) -> Triangle {
        Triangle { timer: timer::with_low(self.timer, value as u16), ..self }
    }

    /// A write of the timer's top bits, and a note-on.
    pub open spec fn timer_high_written(self, value: u8) -> Triangle {
        Triangle {
            timer: timer::with_high(self.timer, value as u16),
            length: self.length.loaded(value),
            reload_flag: true,
            ..self
        }
    }

    /// The quarter-frame beat.
    pub open spec fn quarter_framed(self) -> Triangle {
        Triangle {
            linear: if self.reload_flag {
                self.linear_reload
            } else if self.linear > 0 {
                (self.linear - 1) as u8
            } else {
                0
            },
            reload_flag: self.reload_flag && self.linear_halt,
            ..self
        }
    }

    /// The half-frame beat, which only the length counter hears.
    pub open spec fn half_framed(self) -> Triangle {
        Triangle { length: self.length.ticked(), ..self }
    }

    /// Whether the voice sings: both locks open, and a timer that sings
    /// within hearing.
    pub open spec fn sounding(self) -> bool {
        self.length.counter > 0 && self.linear > 0 && self.timer >= 2
    }

    /// What the voice sings at a step of its staircase.
    pub open spec fn note(self, step: int) -> u8 {
        if self.sounding() {
            TRIANGLE_STEPS@[step % 32]
        } else {
            0
        }
    }

    /// A voice at rest.
    pub fn new() -> (triangle: Triangle)
        ensures
            triangle.wf(),
            triangle == Self::idle(),
    {
        Triangle {
            timer: 0,
            linear: 0,
            linear_reload: 0,
            linear_halt: false,
            reload_flag: false,
            length: LengthCounter::new(),
        }
    }

    /// $4008: the linear counter's reload value and the hold bit.
    pub fn write_control(&mut self, value: u8)
        ensures
            *final(self) == old(self).control_written(value),
            old(self).wf() ==> final(self).wf(),
    {
        self.linear_reload = value % 128;
        self.linear_halt = value >= 128;
        self.length.set_halt(self.linear_halt);
    }

    /// $400A: the timer's low eight bits.
    pub fn write_timer_low(&mut self, value: u8)
        ensures
            *final(self) == old(self).timer_low_written(value),
            old(self).wf() ==> final(self).wf(),
    {
        self.timer = timer::low_written(self.timer, value);
    }

    /// $400B: timer high, and a note-on. Length loads, and the linear
    /// counter is flagged to reload at the next quarter frame.
    pub fn write_timer_high(&mut self, value: u8)
        ensures
            *final(self) == old(self).timer_high_written(value),
            old(self).wf() ==> final(self).wf(),
    {
        self.timer = timer::high_written(self.timer, value);
        self.length.load(value);
        self.reload_flag = true;
    }

    /// The quarter-frame clock: the linear counter's turn.
    pub fn quarter_frame(&mut self)
        ensures
            *final(self) == old(self).quarter_framed(),
            old(self).wf() ==> final(self).wf(),
    {
        if self.reload_flag {
            self.linear = self.linear_reload;
        } else if self.linear > 0 {
            self.linear = self.linear - 1;
        }
        // With the hold bit set the reload flag stays up, so the counter
        // reloads every beat and the note sustains forever.
        if !self.linear_halt {
            self.reload_flag = false;
        }
    }

    /// Whether the voice sings at all right now.
    pub fn sings(&self) -> (sings: bool)
        ensures
            sings == self.sounding(),
    {
        self.length.active() && self.linear != 0 && self.timer >= 2
    }

    /// One sample at a step of the staircase. Both locks must be open; a
    /// timer under 2 would sing far above hearing, so it is silence.
    pub fn sample(&self, step: usize) -> (sample: u8)
        ensures
            sample == self.note(step as int),
            sample <= 15,
    {
        if !self.sings() {
            return 0;
        }
        TRIANGLE_STEPS[step % 32]
    }
}

/// The voice needs both locks open: with either counter at zero it is
/// silent at every step.
pub proof fn law_both_locks_must_be_open(triangle: Triangle, step: int)
    requires
        triangle.linear == 0 || triangle.length.counter == 0,
    ensures
        triangle.note(step) == 0,
{
}

/// The staircase goes down and comes back up the same way: it reads the
/// same from both ends, and each of its sixteen levels is met once on the
/// way down.
pub proof fn law_staircase_is_symmetric(step: int)
    requires
        0 <= step < 16,
    ensures
        TRIANGLE_STEPS@[step] == 15 - step,
        TRIANGLE_STEPS@[31 - step] == 15 - step,
{
}

/// What each of the triangle's registers does, field by field: 0 the linear
/// counter and the hold bit, 2 and 3 the timer, and with 3 a note-on.
pub open spec fn triangle_hears(before: Triangle, after: Triangle, register: int, value: u8) -> bool {
    if register == 0 {
        &&& after.linear_reload == value % 128
        &&& after.linear_halt == (value >= 128)
        &&& after.length == before.length.halt_set(value >= 128)
        &&& after.timer == before.timer && after.linear == before.linear && after.reload_flag == before.reload_flag
    } else if register == 2 {
        &&& after.timer == before.timer / 256 % 8 * 256 + value
        &&& after == (Triangle { timer: after.timer, ..before })
    } else if register == 3 {
        &&& after.timer == value % 8 * 256 + before.timer % 256
        &&& after.length == before.length.loaded(value)
        &&& after.reload_flag
        &&& after.linear == before.linear && after.linear_reload == before.linear_reload && after.linear_halt
            == before.linear_halt
    } else {
        after == before
    }
}

/// The quarter-frame beat: a flagged linear counter starts over, another
/// counts down to zero, and the flag stays up only while the note is held.
pub proof fn law_quarter_frame_counts_the_line(triangle: Triangle)
    ensures
        ({
            let after = triangle.quarter_framed();
            &&& triangle.reload_flag ==> after.linear == triangle.linear_reload
            &&& !triangle.reload_flag && triangle.linear != 0 ==> after.linear == triangle.linear - 1
            &&& !triangle.reload_flag && triangle.linear == 0 ==> after.linear == 0
            &&& after.reload_flag == (triangle.reload_flag && triangle.linear_halt)
            &&& after.timer == triangle.timer && after.linear_reload == triangle.linear_reload && after.linear_halt
                == triangle.linear_halt && after.length == triangle.length
            &&& triangle.half_framed().length == triangle.length.ticked()
            &&& triangle.half_framed() == (Triangle { length: triangle.length.ticked(), ..triangle })
        }),
{
}

/// What the triangle sings: its staircase, fifteen down to zero and up again
/// every thirty-two steps, while both counters run and the timer is at least
/// two; and nothing otherwise.
pub proof fn law_triangle_sings_its_staircase(triangle: Triangle, step: int)
    requires
        0 <= step < 32,
    ensures
        triangle.note(step) == if triangle.length.counter == 0 || triangle.linear == 0 || triangle.timer < 2 {
            0
        } else if step < 16 {
            15 - step
        } else {
            step - 16
        },
        triangle.note(step + 32) == triangle.note(step),
{
    if step < 16 {
        law_staircase_is_symmetric(step);
    } else {
        law_staircase_is_symmetric(31 - step);
    }
}

/// A triangle at rest: no pitch, no line to count, nothing switched on.
pub proof fn law_triangle_rests_blank()
    ensures
        ({
            let triangle = Triangle::idle();
            &&& triangle.timer == 0 && triangle.linear == 0 && triangle.linear_reload == 0
            &&& !triangle.linear_halt && !triangle.reload_flag
            &&& triangle.length == LengthCounter::idle()
        }),
{
}

} // verus!
