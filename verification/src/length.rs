//! The note's alarm clock.

use vstd::prelude::*;

verus! {

/// The thirty-two note lengths a channel can be told to hold, in half
/// frames.
pub const LENGTH_TABLE: [u8; 32] = [
    10, 254, 20, 2, 40, 4, 80, 6, 160, 8, 60, 10, 14, 12, 26, 14, 12, 16, 24, 18, 48, 20, 96, 22,
    192, 24, 72, 26, 16, 28, 32, 30,
];

/// The note's alarm clock: loaded when a note starts, counted down at half
/// frame rate, and the voice is cut the moment it hits zero.
#[derive(Clone, Copy)]
pub struct LengthCounter {
    pub counter: u8,
    /// The halt flag: a note that never ends.
    pub halt: bool,
    /// The channel's enable bit. A disabled channel holds its counter at
    /// zero and refuses loads.
    pub enabled: bool,
    /// Whether the next cycle is one that clocks this counter.
    pub clock_imminent: bool,
    /// A halt flag written while the clock was imminent: it applies after
    /// that clock, not before it.
    pub pending_halt: Option<bool>,
    /// A reload accepted on the imminent clock, which must not eat the
    /// value just loaded.
    pub reloaded_on_the_clock: bool,
}

impl LengthCounter {
    /// A counter with no note, on a channel that is off.
    pub open spec fn idle() -> LengthCounter {
        LengthCounter {
            counter: 0,
            halt: false,
            enabled: false,
            clock_imminent: false,
            pending_halt: None,
            reloaded_on_the_clock: false,
        }
    }

    /// The end of one cycle: what the clock was holding up applies, and the
    /// counter learns whether the next cycle carries the clock.
    pub open spec fn cycle_ended(self, clock_imminent: bool) -> LengthCounter {
        LengthCounter {
            halt: if self.pending_halt is Some {
                self.pending_halt->0
            } else {
                self.halt
            },
            pending_halt: None,
            reloaded_on_the_clock: self.reloaded_on_the_clock && self.clock_imminent,
            clock_imminent,
            ..self
        }
    }

    /// A reload: ignored on the clock's own cycle while a note still runs,
    /// ignored on a disabled channel, and otherwise a table entry.
    pub open spec fn loaded(self, value: u8) -> LengthCounter {
        if self.clock_imminent && self.counter > 0 {
            self
        } else {
            LengthCounter {
                reloaded_on_the_clock: self.reloaded_on_the_clock || self.clock_imminent,
                counter: if self.enabled {
                    LENGTH_TABLE@[value as int / 8]
                } else {
                    self.counter
                },
                ..self
            }
        }
    }

    /// The halt bit, at once or after the imminent clock.
    pub open spec fn halt_set(self, halt: bool) -> LengthCounter {
        if self.clock_imminent {
            LengthCounter { pending_halt: Some(halt), ..self }
        } else {
            LengthCounter { halt, ..self }
        }
    }

    /// The enable bit: disabling silences the note now.
    pub open spec fn enabled_set(self, enabled: bool) -> LengthCounter {
        LengthCounter {
            enabled,
            counter: if enabled {
                self.counter
            } else {
                0
            },
            ..self
        }
    }

    /// Whether the half-frame clock will count.
    pub open spec fn counts(self) -> bool {
        self.counter > 0 && !self.halt && !self.reloaded_on_the_clock
    }

    /// The half-frame clock.
    pub open spec fn ticked(self) -> LengthCounter {
        LengthCounter {
            counter: if self.counts() {
                (self.counter - 1) as u8
            } else {
                self.counter
            },
            reloaded_on_the_clock: false,
            ..self
        }
    }

    /// A channel that is switched off holds no note.
    pub open spec fn wf(self) -> bool {
        !self.enabled ==> self.counter == 0
    }

    /// A counter at rest: no note, and the channel off.
    pub fn new() -> (counter: LengthCounter)
        ensures
            counter == Self::idle(),
            counter.wf(),
    {
        LengthCounter {
            counter: 0,
            halt: false,
            enabled: false,
            clock_imminent: false,
            pending_halt: None,
            reloaded_on_the_clock: false,
        }
    }

    /// Close one cycle: apply what the clock was holding up, then note
    /// whether the next cycle carries the clock.
    pub fn end_cycle(&mut self, clock_imminent: bool)
        ensures
            *final(self) == old(self).cycle_ended(clock_imminent),
            old(self).wf() ==> final(self).wf(),
    {
        if let Some(halt) = self.pending_halt {
            self.halt = halt;
        }
        self.pending_halt = None;
        if !self.clock_imminent {
            self.reloaded_on_the_clock = false;
        }
        self.clock_imminent = clock_imminent;
    }

    /// A note-on: look the five top bits up in the table. A reload landing
    /// on the very cycle the counter is clocked is ignored, unless the
    /// counter had already run out; then it goes through and the clock
    /// leaves it alone.
    pub fn load(&mut self, value: u8)
        ensures
            *final(self) == old(self).loaded(value),
            old(self).wf() ==> final(self).wf(),
    {
        if self.clock_imminent {
            if self.counter > 0 {
                return;
            }
            self.reloaded_on_the_clock = true;
        }
        if self.enabled {
            self.counter = LENGTH_TABLE[(value / 8) as usize];
        }
    }

    /// The halt bit from a control write. On the clock's own cycle it
    /// applies after the clock.
    pub fn set_halt(&mut self, halt: bool)
        ensures
            *final(self) == old(self).halt_set(halt),
            old(self).wf() ==> final(self).wf(),
    {
        if self.clock_imminent {
            self.pending_halt = Some(halt);
        } else {
            self.halt = halt;
        }
    }

    /// The channel's enable bit. Disabling silences the note now.
    pub fn set_enabled(&mut self, enabled: bool)
        ensures
            *final(self) == old(self).enabled_set(enabled),
            final(self).wf(),
    {
        self.enabled = enabled;
        if !enabled {
            self.counter = 0;
        }
    }

    /// The half-frame clock.
    pub fn tick(&mut self)
        ensures
            *final(self) == old(self).ticked(),
            old(self).wf() ==> final(self).wf(),
    {
        if self.counter > 0 && !self.halt && !self.reloaded_on_the_clock {
            self.counter = self.counter - 1;
        }
        self.reloaded_on_the_clock = false;
    }

    /// Is the note still sounding? Also the channel's status bit.
    pub fn active(&self) -> (active: bool)
        ensures
            active == (self.counter > 0),
    {
        self.counter > 0
    }
}

/// `beats` half-frame clocks in a row.
pub open spec fn ticked_times(counter: LengthCounter, beats: nat) -> LengthCounter
    decreases beats,
{
    if beats == 0 {
        counter
    } else {
        ticked_times(counter, (beats - 1) as nat).ticked()
    }
}

/// A halted note holds forever: no number of clocks moves its counter.
pub proof fn law_halt_holds_the_note(counter: LengthCounter, beats: nat)
    requires
        counter.halt,
    ensures
        ticked_times(counter, beats).counter == counter.counter,
        ticked_times(counter, beats).halt,
    decreases beats,
{
    if beats > 0 {
        law_halt_holds_the_note(counter, (beats - 1) as nat);
    }
}

/// A note that is not halted lasts exactly as many half frames as its
/// counter says: it sounds until then, and is cut then.
pub proof fn law_note_lasts_its_length(counter: LengthCounter, beats: nat)
    requires
        !counter.halt,
        !counter.reloaded_on_the_clock,
    ensures
        ticked_times(counter, beats).counter == (if beats < counter.counter {
            counter.counter - beats
        } else {
            0
        }),
        !ticked_times(counter, beats).halt,
        !ticked_times(counter, beats).reloaded_on_the_clock,
    decreases beats,
{
    if beats > 0 {
        law_note_lasts_its_length(counter, (beats - 1) as nat);
    }
}

/// Disabling a channel silences it, and no note-on sticks until it is
/// enabled again.
pub proof fn law_disabled_channel_is_silent(counter: LengthCounter, value: u8)
    ensures
        counter.enabled_set(false).counter == 0,
        counter.enabled_set(false).loaded(value).counter == 0,
{
}

/// The clock's own cycle: a reload of a running note is lost, a reload of a
/// finished one goes through whole, and a halt flag waits until the clock
/// has passed.
pub proof fn law_writes_on_the_clock(counter: LengthCounter, value: u8, halt: bool, imminent: bool)
    requires
        counter.clock_imminent,
    ensures
        counter.counter > 0 ==> counter.loaded(value) == counter,
        counter.counter == 0 && counter.enabled ==> counter.loaded(value).ticked().counter
            == LENGTH_TABLE@[value as int / 8],
        counter.halt_set(halt).ticked().counter == counter.ticked().counter,
        counter.halt_set(halt).ticked().cycle_ended(imminent).halt == halt,
{
}

/// The table of lengths: odd entries count up in twos, but for the first,
/// which is the longest; even entries are notes of two tempos, from a
/// sixteenth to a whole and dotted, and their triplets.
pub proof fn law_lengths_are_notes(i: int)
    requires
        0 <= i < 16,
    ensures
        LENGTH_TABLE@[2 * i + 1] == if i == 0 {
            254
        } else {
            2 * i
        },
        LENGTH_TABLE@[2 * i] == seq![10u8, 20, 40, 80, 160, 60, 14, 26, 12, 24, 48, 96, 192, 72, 16, 32][i],
{
}

/// What a note-on does to the counter, field by field: with the clock upon it
/// and a note running, nothing; otherwise an enabled channel takes the length
/// that the top five bits name, and a clock upon it leaves the new value
/// alone.
pub proof fn law_note_on_loads_the_table(counter: LengthCounter, value: u8)
    ensures
        ({
            let after = counter.loaded(value);
            let lost = counter.clock_imminent && counter.counter != 0;
            &&& after.counter == if lost || !counter.enabled {
                counter.counter
            } else {
                LENGTH_TABLE@[(value as int) / 8]
            }
            &&& after.reloaded_on_the_clock == (counter.reloaded_on_the_clock || counter.clock_imminent && counter.counter
                == 0)
            &&& after.halt == counter.halt && after.enabled == counter.enabled
            &&& after.clock_imminent == counter.clock_imminent && after.pending_halt == counter.pending_halt
        }),
{
}

/// What the other writes and the end of a cycle do, field by field.
pub proof fn law_switches_of_a_note(counter: LengthCounter, bit: bool)
    ensures
        ({
            let halted = counter.halt_set(bit);
            &&& counter.clock_imminent ==> halted.pending_halt == Some(bit) && halted.halt == counter.halt
            &&& !counter.clock_imminent ==> halted.halt == bit && halted.pending_halt == counter.pending_halt
            &&& halted.counter == counter.counter && halted.enabled == counter.enabled
            &&& halted.clock_imminent == counter.clock_imminent && halted.reloaded_on_the_clock
                == counter.reloaded_on_the_clock
        }),
        ({
            let switched = counter.enabled_set(bit);
            &&& switched.enabled == bit
            &&& switched.counter == if bit {
                counter.counter
            } else {
                0
            }
            &&& switched.halt == counter.halt && switched.pending_halt == counter.pending_halt
            &&& switched.clock_imminent == counter.clock_imminent && switched.reloaded_on_the_clock
                == counter.reloaded_on_the_clock
        }),
        ({
            let ended = counter.cycle_ended(bit);
            &&& ended.clock_imminent == bit
            &&& counter.pending_halt is None ==> ended.halt == counter.halt
            &&& counter.pending_halt is Some ==> ended.halt == counter.pending_halt->0
            &&& ended.pending_halt is None
            &&& ended.reloaded_on_the_clock == (counter.reloaded_on_the_clock && counter.clock_imminent)
            &&& ended.counter == counter.counter && ended.enabled == counter.enabled
        }),
        ({
            let beaten = counter.ticked();
            &&& beaten.counter == if counter.halt || counter.reloaded_on_the_clock || counter.counter == 0 {
                counter.counter as int
            } else {
                counter.counter - 1
            }
            &&& !beaten.reloaded_on_the_clock
            &&& beaten.halt == counter.halt && beaten.enabled == counter.enabled
            &&& beaten.clock_imminent == counter.clock_imminent && beaten.pending_halt == counter.pending_halt
        }),
{
}

/// A length counter at rest: switched off, at zero, with nothing waiting.
pub proof fn law_counter_rests_blank()
    ensures
        ({
            let length = LengthCounter::idle();
            &&& length.counter == 0
            &&& !length.enabled && !length.halt
            &&& !length.clock_imminent && !length.reloaded_on_the_clock
            &&& length.pending_halt is None
        }),
{
}

} // verus!
