//! The frame counter, the sound chip's conductor.

use vstd::prelude::*;

verus! {

/// Where the four-step sequence wraps: one cycle past its last clock.
pub const FOUR_STEP_WRAP: u64 = 29830;

/// Where the five-step sequence wraps.
pub const FIVE_STEP_WRAP: u64 = 37282;

/// Where a sequence wraps.
pub open spec fn wrap(five_step: bool) -> u64 {
    if five_step {
        FIVE_STEP_WRAP
    } else {
        FOUR_STEP_WRAP
    }
}

/// Whether a cycle of the sequence clocks the half-frame units: the second
/// and the last of its four clocks do.
pub open spec fn half_clock(five_step: bool, cycle: int) -> bool {
    cycle == 14913 || cycle == wrap(five_step) - 1
}

/// Whether a cycle of the sequence clocks the quarter-frame units: all four
/// of its clocks do.
pub open spec fn quarter_clock(five_step: bool, cycle: int) -> bool {
    cycle == 7457 || cycle == 22371 || half_clock(five_step, cycle)
}

/// A divider off the processor's clock that cues the envelopes, sweeps,
/// linear and length counters at fixed points in a repeating sequence.
#[derive(Clone, Copy)]
pub struct FrameCounter {
    /// The five-step sequence instead of the four-step.
    pub five_step: bool,
    /// Cycles since the sequence last restarted.
    pub cycle: u64,
    /// Never raise the interrupt, and drop any pending.
    pub irq_inhibit: bool,
    /// The interrupt flag, cleared by reading it.
    pub irq_pending: bool,
    /// A write restarts the sequence, but not immediately: three cycles
    /// later if it lands on an even cycle, four if it lands between two.
    pub pending_reset: Option<u8>,
    /// Which half of the divide-by-two the last cycle fell on.
    pub apu_cycle: bool,
}

impl FrameCounter {
    /// The conductor at power-on.
    pub open spec fn idle() -> FrameCounter {
        FrameCounter {
            five_step: false,
            cycle: 0,
            irq_inhibit: false,
            irq_pending: false,
            pending_reset: None,
            apu_cycle: true,
        }
    }

    /// The cycle of the sequence that the next tick is.
    pub open spec fn next_cycle(self) -> int {
        if self.pending_reset == Some(0u8) {
            1
        } else {
            self.cycle + 1
        }
    }

    /// The next tick's clocks: quarter frame, half frame.
    pub open spec fn clocks(self) -> (bool, bool) {
        (
            quarter_clock(self.five_step, self.next_cycle()),
            half_clock(self.five_step, self.next_cycle()),
        )
    }

    /// Whether the next tick raises the interrupt: the four-step sequence
    /// holds it up across its last three cycles.
    pub open spec fn raises_irq(self) -> bool {
        !self.five_step && !self.irq_inhibit && 29828 <= self.next_cycle() <= 29830
    }

    /// Whether another cycle can be counted: there is room for it, or the
    /// count is about to begin again.
    pub open spec fn has_room(self) -> bool {
        self.pending_reset == Some(0u8) || self.cycle < u64::MAX
    }

    /// One cycle.
    pub open spec fn ticked(self) -> FrameCounter {
        FrameCounter {
            cycle: if self.next_cycle() == wrap(self.five_step) {
                0
            } else {
                self.next_cycle() as u64
            },
            pending_reset: match self.pending_reset {
                Some(delay) => if delay == 0 {
                    None
                } else {
                    Some((delay - 1) as u8)
                },
                None => None,
            },
            apu_cycle: !self.apu_cycle,
            irq_pending: self.irq_pending || self.raises_irq(),
            ..self
        }
    }

    /// A write: the sequence, the inhibit bit, and a restart to come.
    pub open spec fn written(self, value: u8) -> FrameCounter {
        FrameCounter {
            five_step: value & 0b1000_0000 != 0,
            irq_inhibit: value & 0b0100_0000 != 0,
            irq_pending: self.irq_pending && value & 0b0100_0000 == 0,
            pending_reset: Some(
                if self.apu_cycle {
                    3
                } else {
                    4
                },
            ),
            ..self
        }
    }

    /// Whether the sequence is running its course: somewhere before its end,
    /// with no restart to come.
    pub open spec fn in_course(self) -> bool {
        self.cycle < wrap(self.five_step) && self.pending_reset is None
    }

    /// The conductor at power-on.
    pub fn new() -> (counter: FrameCounter)
        ensures
            counter == Self::idle(),
    {
        FrameCounter {
            five_step: false,
            cycle: 0,
            irq_inhibit: false,
            irq_pending: false,
            pending_reset: None,
            apu_cycle: true,
        }
    }

    /// What a cycle of the sequence in force clocks: quarter frame, half
    /// frame.
    pub fn clocks_at(&self, cycle: u64) -> (clocks: (bool, bool))
        ensures
            clocks.0 == quarter_clock(self.five_step, cycle as int),
            clocks.1 == half_clock(self.five_step, cycle as int),
    {
        let last: u64 = self.wrap() - 1;
        let half = cycle == 14913 || cycle == last;
        (half || cycle == 7457 || cycle == 22371, half)
    }

    /// Where the sequence in force wraps.
    pub fn wrap(&self) -> (at: u64)
        ensures
            at == wrap(self.five_step),
    {
        if self.five_step {
            FIVE_STEP_WRAP
        } else {
            FOUR_STEP_WRAP
        }
    }

    /// Advance one cycle. Returns what to clock: quarter frame, half frame.
    pub fn tick(&mut self) -> (clocks: (bool, bool))
        requires
            old(self).has_room(),
        ensures
            clocks == old(self).clocks(),
            *final(self) == old(self).ticked(),
            final(self).cycle <= old(self).cycle + 1,
    {
        if let Some(delay) = self.pending_reset {
            if delay == 0 {
                self.pending_reset = None;
                self.cycle = 0;
            } else {
                self.pending_reset = Some(delay - 1);
            }
        }
        self.cycle = self.cycle + 1;
        self.apu_cycle = !self.apu_cycle;
        let clocks = self.clocks_at(self.cycle);
        // A program that reads the status inside this window clears the
        // flag and finds it set again on the very next cycle.
        if !self.five_step && !self.irq_inhibit && 29828 <= self.cycle && self.cycle <= 29830 {
            self.irq_pending = true;
        }
        if self.cycle == self.wrap() {
            self.cycle = 0;
        }
        clocks
    }

    /// A $4017 write. Returns whether to clock quarter and half frames
    /// immediately: the five-step bit does.
    pub fn write(&mut self, value: u8) -> (clock_now: bool)
        ensures
            clock_now == (value & 0b1000_0000 != 0),
            *final(self) == old(self).written(value),
    {
        self.five_step = value & 0b1000_0000 != 0;
        self.irq_inhibit = value & 0b0100_0000 != 0;
        if self.irq_inhibit {
            self.irq_pending = false;
        }
        self.pending_reset = Some(
            if self.apu_cycle {
                3
            } else {
                4
            },
        );
        self.five_step
    }

    /// Whether the next tick clocks the length counters.
    pub fn clocks_length_next(&self) -> (imminent: bool)
        requires
            self.has_room(),
        ensures
            imminent == self.clocks().1,
    {
        if let Some(delay) = self.pending_reset {
            if delay == 0 {
                return false;
            }
        }
        self.clocks_at(self.cycle + 1).1
    }

    /// Read-and-clear, as reading the status does.
    pub fn take_irq(&mut self) -> (pending: bool)
        ensures
            pending == old(self).irq_pending,
            *final(self) == (FrameCounter { irq_pending: false, ..*old(self) }),
    {
        let pending = self.irq_pending;
        self.irq_pending = false;
        pending
    }
}

/// `cycles` cycles in a row.
pub open spec fn ticked_times(counter: FrameCounter, cycles: nat) -> FrameCounter
    decreases cycles,
{
    if cycles == 0 {
        counter
    } else {
        ticked_times(counter, (cycles - 1) as nat).ticked()
    }
}

/// A sequence left alone repeats: `cycles` cycles on, it stands where
/// counting round its length puts it.
pub proof fn law_sequence_repeats(counter: FrameCounter, cycles: nat)
    requires
        counter.in_course(),
    ensures
        ({
            let after = ticked_times(counter, cycles);
            &&& after.in_course()
            &&& after.five_step == counter.five_step
            &&& after.irq_inhibit == counter.irq_inhibit
            &&& after.cycle == (counter.cycle + cycles) % (wrap(counter.five_step) as int)
        }),
    decreases cycles,
{
    let round = wrap(counter.five_step) as int;
    if cycles == 0 {
        vstd::arithmetic::div_mod::lemma_small_mod(counter.cycle as nat, round as nat);
    } else {
        law_sequence_repeats(counter, (cycles - 1) as nat);
        let before = counter.cycle + cycles - 1;
        vstd::arithmetic::div_mod::lemma_fundamental_div_mod(before, round);
        if before % round == round - 1 {
            vstd::arithmetic::div_mod::lemma_fundamental_div_mod_converse(
                before + 1,
                round,
                before / round + 1,
                0,
            );
            assert((before / round + 1) * round == round * (before / round) + round)
                by (nonlinear_arith);
        } else {
            vstd::arithmetic::div_mod::lemma_fundamental_div_mod_converse(
                before + 1,
                round,
                before / round,
                before % round + 1,
            );
            assert((before / round) * round == round * (before / round)) by (nonlinear_arith);
        }
    }
}

/// The conductor never beats a half frame without a quarter frame.
pub proof fn law_half_beats_are_quarter_beats(counter: FrameCounter)
    ensures
        counter.clocks().1 ==> counter.clocks().0,
{
}

/// The inhibit bit silences the conductor: from the write on, no number of
/// cycles raises the interrupt.
pub proof fn law_inhibit_silences_the_conductor(counter: FrameCounter, value: u8, cycles: nat)
    requires
        value & 0b0100_0000 != 0,
    ensures
        !ticked_times(counter.written(value), cycles).irq_pending,
        ticked_times(counter.written(value), cycles).irq_inhibit,
    decreases cycles,
{
    if cycles > 0 {
        law_inhibit_silences_the_conductor(counter, value, (cycles - 1) as nat);
    }
}

/// The five-step sequence never raises the interrupt.
pub proof fn law_five_steps_raise_nothing(counter: FrameCounter)
    requires
        counter.five_step,
    ensures
        counter.ticked().irq_pending == counter.irq_pending,
{
}

/// A write restarts the sequence a moment later: three cycles on if it
/// landed on an even cycle and four if between two, after which the next
/// cycle is the sequence's first.
pub proof fn law_write_restarts_the_sequence(counter: FrameCounter, value: u8)
    ensures
        ({
            let delay: nat = if counter.apu_cycle {
                3
            } else {
                4
            };
            &&& ticked_times(counter.written(value), delay).next_cycle() == 1
            &&& ticked_times(counter.written(value), delay + 1).cycle == 1
            &&& ticked_times(counter.written(value), delay + 1).pending_reset is None
        }),
{
    reveal_with_fuel(ticked_times, 6);
}

/// The score, in cycles: a quarter frame at 7457, 14913, 22371 and at the
/// end, a half frame at the second and the last of them; the end is cycle
/// 29829 of four steps and 37281 of five, after which the count begins again;
/// and across the last three cycles of four steps the interrupt rises, unless
/// it is inhibited.
pub proof fn law_score_is_kept(counter: FrameCounter)
    ensures
        ({
            let next = if counter.pending_reset == Some(0u8) {
                1
            } else {
                counter.cycle + 1
            };
            let last = if counter.five_step {
                37281int
            } else {
                29829
            };
            let after = counter.ticked();
            &&& counter.clocks().0 == (next == 7457 || next == 14913 || next == 22371 || next == last)
            &&& counter.clocks().1 == (next == 14913 || next == last)
            &&& next <= u64::MAX ==> after.cycle == if next == last + 1 {
                0
            } else {
                next
            }
            &&& after.irq_pending == (counter.irq_pending || !counter.five_step && !counter.irq_inhibit && (next
                == 29828 || next == 29829 || next == 29830))
            &&& after.apu_cycle != counter.apu_cycle
            &&& counter.pending_reset is None ==> after.pending_reset is None
            &&& counter.pending_reset is Some ==> after.pending_reset == if counter.pending_reset->0 == 0 {
                None
            } else {
                Some((counter.pending_reset->0 - 1) as u8)
            }
            &&& after.five_step == counter.five_step && after.irq_inhibit == counter.irq_inhibit
        }),
{
}

/// A write to the conductor, field by field: bit 7 is the five-step sequence,
/// bit 6 inhibits the interrupt and drops one that is up, and the count
/// begins again three or four cycles later.
pub proof fn law_conductor_obeys(counter: FrameCounter, value: u8)
    ensures
        ({
            let after = counter.written(value);
            &&& after.five_step == (value & 0b1000_0000 != 0)
            &&& after.irq_inhibit == (value & 0b0100_0000 != 0)
            &&& after.irq_pending == (counter.irq_pending && value & 0b0100_0000 == 0)
            &&& after.pending_reset == Some(if counter.apu_cycle {
                3u8
            } else {
                4u8
            })
            &&& after.cycle == counter.cycle && after.apu_cycle == counter.apu_cycle
        }),
{
}

/// The conductor at rest: at the top of the four-step score, free to ask for
/// attention, with nothing asked for and no restart waiting.
pub proof fn law_conductor_rests_at_the_top()
    ensures
        ({
            let frame = FrameCounter::idle();
            &&& frame.cycle == 0 && frame.apu_cycle
            &&& !frame.five_step && !frame.irq_inhibit && !frame.irq_pending
            &&& frame.pending_reset is None
        }),
{
}

} // verus!
