//! The pulse voices, and the sweep that bends them.

use vstd::prelude::*;

use crate::envelope::Envelope;
use crate::length::LengthCounter;
use crate::timer;

verus! {

/// The four shapes a pulse can sing, as one repeating cycle of eight steps.
pub const DUTY: [[u8; 8]; 4] = [
    [0, 1, 0, 0, 0, 0, 0, 0],
    [0, 1, 1, 0, 0, 0, 0, 0],
    [0, 1, 1, 1, 1, 0, 0, 0],
    [1, 0, 0, 1, 1, 1, 1, 1],
];

/// A pitch bender. Every few half frames it shifts the pulse's own period
/// and adds or subtracts the result.
#[derive(Clone, Copy)]
pub struct Sweep {
    pub enabled: bool,
    pub period: u8,
    pub negate: bool,
    pub shift: u8,
    /// The divider that slows half frames to the programmed rate.
    pub divider: u8,
    /// A write restarts the divider at the next half frame.
    pub reload: bool,
    /// Pulse 1 negates with one extra step down: the two channels' adders
    /// are wired differently.
    pub extra_step: bool,
}

impl Sweep {
    /// A sweep at rest.
    pub open spec fn idle(extra_step: bool) -> Sweep {
        Sweep {
            enabled: false,
            period: 0,
            negate: false,
            shift: 0,
            divider: 0,
            reload: false,
            extra_step,
        }
    }

    /// The shift is three bits wide.
    pub open spec fn wf(self) -> bool {
        self.shift < 8
    }

    /// A sweep write.
    pub open spec fn written(self, value: u8) -> Sweep {
        Sweep {
            enabled: value & 0b1000_0000 != 0,
            period: value / 16 % 8,
            negate: value & 0b0000_1000 != 0,
            shift: value % 8,
            reload: true,
            ..self
        }
    }

    /// Where the bend is headed from `timer`: up by the shifted period,
    /// round the sixteen bits, or down by it and the extra step, no lower
    /// than zero.
    pub open spec fn aim(self, timer: u16) -> int {
        let change = timer >> self.shift;
        if self.negate {
            let down = timer - change - (if self.extra_step {
                1int
            } else {
                0
            });
            if down < 0 {
                0
            } else {
                down
            }
        } else {
            (timer + change) % 0x10000
        }
    }

    /// The mute rule: a period under 8, or a target over eleven bits.
    pub open spec fn muting(self, timer: u16) -> bool {
        timer < 8 || self.aim(timer) > 0x7FF
    }

    /// Whether the half-frame clock bends the pitch.
    pub open spec fn bends(self, timer: u16) -> bool {
        self.divider == 0 && self.enabled && self.shift > 0 && !self.muting(timer)
    }

    /// The half-frame clock's effect on the divider.
    pub open spec fn ticked(self) -> Sweep {
        if self.divider == 0 || self.reload {
            Sweep { divider: self.period, reload: false, ..self }
        } else {
            Sweep { divider: (self.divider - 1) as u8, ..self }
        }
    }

    /// A sweep at rest.
    pub fn new(extra_step: bool) -> (sweep: Sweep)
        ensures
            sweep == Self::idle(extra_step),
            sweep.wf(),
    {
        Sweep {
            enabled: false,
            period: 0,
            negate: false,
            shift: 0,
            divider: 0,
            reload: false,
            extra_step,
        }
    }

    /// A sweep write.
    pub fn write(&mut self, value: u8)
        ensures
            *final(self) == old(self).written(value),
            final(self).wf(),
    {
        self.enabled = value & 0b1000_0000 != 0;
        self.period = value / 16 % 8;
        self.negate = value & 0b0000_1000 != 0;
        self.shift = value % 8;
        self.reload = true;
    }

    /// Where the bend is headed from `timer`.
    pub fn target(&self, timer: u16) -> (target: u16)
        requires
            self.shift < 16,
        ensures
            target == self.aim(timer),
    {
        let change = timer >> self.shift;
        if self.negate {
            let down = timer.saturating_sub(change);
            if self.extra_step {
                down.saturating_sub(1)
            } else {
                down
            }
        } else {
            timer.wrapping_add(change)
        }
    }

    /// The mute rule: the sweep silences its channel whenever the period is
    /// under 8 or the target overflows eleven bits, even with the sweep
    /// disabled.
    pub fn mutes(&self, timer: u16) -> (muted: bool)
        requires
            self.shift < 16,
        ensures
            muted == self.muting(timer),
    {
        timer < 8 || self.target(timer) > 0x7FF
    }

    /// The half-frame clock: maybe hand back a new period.
    pub fn tick(&mut self, timer: u16) -> (moved: Option<u16>)
        requires
            old(self).shift < 16,
        ensures
            *final(self) == old(self).ticked(),
            old(self).wf() ==> final(self).wf(),
            moved is Some <==> old(self).bends(timer),
            moved is Some ==> moved->0 == old(self).aim(timer) && moved->0 <= 0x7FF,
    {
        let mut moved: Option<u16> = None;
        if self.divider == 0 && self.enabled && self.shift > 0 && !self.mutes(timer) {
            moved = Some(self.target(timer));
        }
        if self.divider == 0 || self.reload {
            self.divider = self.period;
            self.reload = false;
        } else {
            self.divider = self.divider - 1;
        }
        moved
    }
}

/// One pulse voice: a shape, a loudness, a pitch.
#[derive(Clone, Copy)]
pub struct Pulse {
    /// Which row of [`DUTY`] to sing.
    pub duty: usize,
    /// The eleven-bit countdown that sets the pitch: the voice walks one
    /// step of its shape every 2 x (timer + 1) cycles.
    pub timer: u16,
    /// Set by a note-on: whoever walks the voice through its shape goes
    /// back to the first step.
    pub restart: bool,
    /// The note's alarm clock.
    pub length: LengthCounter,
    /// The note's fade.
    pub envelope: Envelope,
    /// The note's bend.
    pub sweep: Sweep,
}

impl Pulse {
    /// A voice at rest.
    pub open spec fn idle(extra_step: bool) -> Pulse {
        Pulse {
            duty: 0,
            timer: 0,
            restart: false,
            length: LengthCounter::idle(),
            envelope: Envelope::idle(),
            sweep: Sweep::idle(extra_step),
        }
    }

    /// What every operation keeps: the shape is one of the four, the timer
    /// eleven bits, and the parts are in order.
    pub open spec fn wf(self) -> bool {
        &&& self.duty < 4
        &&& self.timer <= 0x7FF
        &&& self.length.wf()
        &&& self.envelope.wf()
        &&& self.sweep.wf()
    }

    /// A control write: shape, envelope, and the halt bit.
    pub open spec fn control_written(self, value: u8) -> Pulse {
        Pulse {
            duty: (value / 64) as usize,
            envelope: self.envelope.written(value),
            length: self.length.halt_set(value & 0b0010_0000 != 0),
            ..self
        }
    }

    /// A write of the timer's low byte.
    pub open spec fn timer_low_written(self, value: u8) -> Pulse {
        Pulse { timer: timer::with_low(self.timer, value as u16), ..self }
    }

    /// A write of the timer's top bits, and a note-on.
    pub open spec fn timer_high_written(self, value: u8) -> Pulse {
        Pulse {
            timer: timer::with_high(self.timer, value as u16),
            length: self.length.loaded(value),
            envelope: self.envelope.started(),
            restart: true,
            ..self
        }
    }

    /// The half-frame beat.
    pub open spec fn half_framed(self) -> Pulse {
        Pulse {
            timer: if self.sweep.bends(self.timer) {
                self.sweep.aim(self.timer) as u16
            } else {
                self.timer
            },
            sweep: self.sweep.ticked(),
            length: self.length.ticked(),
            ..self
        }
    }

    /// Whether the voice sings at all: its note runs, and its sweep does not
    /// mute it.
    pub open spec fn sounding(self) -> bool {
        self.length.counter > 0 && !self.sweep.muting(self.timer)
    }

    /// What the voice sings at a step of its shape: the envelope's volume
    /// where the shape is up, silence where it is down.
    pub open spec fn note(self, step: int) -> u8 {
        if self.sounding() && DUTY@[self.duty as int]@[step % 8] == 1 {
            self.envelope.level()
        } else {
            0
        }
    }

    /// A voice at rest. Pulse 1's sweep takes the extra step.
    pub fn new(extra_step: bool) -> (pulse: Pulse)
        ensures
            pulse.wf(),
            pulse == Self::idle(extra_step),
    {
        Pulse {
            duty: 0,
            timer: 0,
            restart: false,
            length: LengthCounter::new(),
            envelope: Envelope::new(),
            sweep: Sweep::new(extra_step),
        }
    }

    /// $4000 / $4004: shape, envelope, and the halt bit.
    pub fn write_control(&mut self, value: u8)
        ensures
            *final(self) == old(self).control_written(value),
            old(self).wf() ==> final(self).wf(),
    {
        self.duty = (value / 64) as usize;
        self.envelope.write(value);
        self.length.set_halt(value & 0b0010_0000 != 0);
    }

    /// $4002 / $4006: the timer's low eight bits.
    pub fn write_timer_low(&mut self, value: u8)
        ensures
            *final(self) == old(self).timer_low_written(value),
            old(self).wf() ==> final(self).wf(),
    {
        self.timer = timer::low_written(self.timer, value);
    }

    /// $4003 / $4007: the timer's top three bits, and a note-on. The length
    /// counter loads, the envelope restarts, the shape restarts.
    pub fn write_timer_high(&mut self, value: u8)
        ensures
            *final(self) == old(self).timer_high_written(value),
            old(self).wf() ==> final(self).wf(),
    {
        self.timer = timer::high_written(self.timer, value);
        self.length.load(value);
        self.envelope.start = true;
        self.restart = true;
    }

    /// The half-frame beat: the sweep may bend the pitch, and the alarm
    /// clock counts the note down.
    pub fn half_frame(&mut self)
        requires
            old(self).sweep.shift < 16,
        ensures
            *final(self) == old(self).half_framed(),
            old(self).wf() ==> final(self).wf(),
    {
        if let Some(timer) = self.sweep.tick(self.timer) {
            self.timer = timer;
        }
        self.length.tick();
    }

    /// Whether the voice sings at all right now.
    pub fn sings(&self) -> (sings: bool)
        requires
            self.sweep.shift < 16,
        ensures
            sings == self.sounding(),
    {
        self.length.active() && !self.sweep.mutes(self.timer)
    }

    /// Whether a note-on has asked for the shape to start over since the
    /// last time somebody looked. Looking clears the request.
    pub fn take_restart(&mut self) -> (restart: bool)
        ensures
            restart == old(self).restart,
            *final(self) == (Pulse { restart: false, ..*old(self) }),
            old(self).wf() ==> final(self).wf(),
    {
        let restart = self.restart;
        self.restart = false;
        restart
    }

    /// One sample at a step of the shape: the envelope's volume, shaped by
    /// the duty row, gated by the alarm clock and the sweep's mute rule.
    pub fn sample(&self, step: usize) -> (sample: u8)
        requires
            self.wf(),
        ensures
            sample == self.note(step as int),
            sample <= 15,
    {
        if !self.sings() {
            return 0;
        }
        if DUTY[self.duty][step % 8] == 1 {
            self.envelope.volume()
        } else {
            0
        }
    }
}

/// Pulse 1 negates one deeper than pulse 2: of two sweeps that agree on
/// everything but the wiring of their adder, the one with the extra step
/// aims one lower, as far as zero allows.
pub proof fn law_extra_step_aims_one_lower(sweep: Sweep, timer: u16)
    requires
        sweep.negate,
    ensures
        ({
            let deep = Sweep { extra_step: true, ..sweep }.aim(timer);
            let plain = Sweep { extra_step: false, ..sweep }.aim(timer);
            deep == if plain == 0 {
                0
            } else {
                plain - 1
            }
        }),
{
}

/// The mute rule never sleeps: whether it silences a voice depends on the
/// period, the shift and the direction alone, not on whether the sweep is
/// enabled or where its divider stands.
pub proof fn law_mute_rule_never_sleeps(sweep: Sweep, other: Sweep, timer: u16)
    requires
        other.shift == sweep.shift,
        other.negate == sweep.negate,
        other.extra_step == sweep.extra_step,
    ensures
        other.muting(timer) == sweep.muting(timer),
{
}

/// The sweep never bends a voice out of its eleven bits, and never bends
/// one that it mutes.
pub proof fn law_bend_stays_in_range(pulse: Pulse)
    requires
        pulse.wf(),
    ensures
        pulse.half_framed().timer <= 0x7FF,
        pulse.sweep.muting(pulse.timer) ==> pulse.half_framed().timer == pulse.timer,
{
}

/// A timer divided by two as often as a sweep's shift says.
pub open spec fn halved(timer: int, shift: int) -> int
    decreases shift,
{
    if shift <= 0 {
        timer
    } else {
        halved(timer, shift - 1) / 2
    }
}

proof fn lemma_halved(timer: u16, shift: u8)
    requires
        shift < 8,
    ensures
        timer >> shift == halved(timer as int, shift as int),
        0 <= halved(timer as int, shift as int) <= timer,
    decreases shift,
{
    if shift > 0 {
        lemma_halved(timer, (shift - 1) as u8);
        lemma_shift_halves(timer, (shift - 1) as u8);
    } else {
        lemma_shift_halves(timer, 0);
    }
}

proof fn lemma_shift_halves(timer: u16, shift: u8)
    by (bit_vector)
    requires
        shift < 8,
    ensures
        timer >> 0u8 == timer,
        timer >> ((shift + 1) as u8) == (timer >> shift) / 2,
{
}

/// Where a bend is headed: up by the timer halved as often as the shift says,
/// or down by it, one further with the extra step and never below zero. A
/// voice is muted under a period of 8, and where the way up leaves eleven
/// bits.
pub proof fn law_bends_go_by_halves(sweep: Sweep, timer: u16)
    requires
        sweep.shift < 8,
        timer <= 0x7FF,
    ensures
        ({
            let change = halved(timer as int, sweep.shift as int);
            let extra = if sweep.extra_step {
                1int
            } else {
                0
            };
            &&& !sweep.negate ==> sweep.aim(timer) == timer + change
            &&& sweep.negate && timer - change >= extra ==> sweep.aim(timer) == timer - change - extra
            &&& sweep.negate && timer - change < extra ==> sweep.aim(timer) == 0
            &&& sweep.muting(timer) == (timer < 8 || !sweep.negate && timer + change >= 2048)
        }),
{
    lemma_halved(timer, sweep.shift);
}

/// The half-frame beat of a pulse: its pitch bends to where the sweep is
/// headed exactly when the divider has run out, the sweep is on and shifts at
/// all, and the voice is not muted; the divider begins again when it has run
/// out or was told to, and counts down otherwise; and of the rest only the
/// length counter hears it.
pub proof fn law_half_frame_bends_the_pitch(pulse: Pulse)
    requires
        pulse.wf(),
    ensures
        ({
            let after = pulse.half_framed();
            let sweep = pulse.sweep;
            let due = sweep.divider == 0 && sweep.enabled && sweep.shift != 0 && !sweep.muting(pulse.timer);
            &&& after.timer == if due {
                sweep.aim(pulse.timer)
            } else {
                pulse.timer as int
            }
            &&& after.sweep.divider == if sweep.divider == 0 || sweep.reload {
                sweep.period as int
            } else {
                sweep.divider - 1
            }
            &&& !after.sweep.reload
            &&& after.sweep.enabled == sweep.enabled && after.sweep.period == sweep.period && after.sweep.negate
                == sweep.negate && after.sweep.shift == sweep.shift && after.sweep.extra_step == sweep.extra_step
            &&& after.length == pulse.length.ticked()
            &&& after.duty == pulse.duty && after.envelope == pulse.envelope && after.restart == pulse.restart
        }),
{
    if pulse.sweep.bends(pulse.timer) {
        law_bends_go_by_halves(pulse.sweep, pulse.timer);
    }
}

/// What a pulse sings: nothing once its note is over or while it is muted,
/// and otherwise its volume for one step in eight, two, four, or all but two,
/// as its shape says.
pub proof fn law_pulse_sings_its_shape(pulse: Pulse, step: int)
    requires
        pulse.duty < 4,
        0 <= step < 8,
    ensures
        ({
            let up = if pulse.duty == 0 {
                step == 1
            } else if pulse.duty == 1 {
                step == 1 || step == 2
            } else if pulse.duty == 2 {
                1 <= step <= 4
            } else {
                step != 1 && step != 2
            };
            pulse.note(step) == if up && pulse.length.counter != 0 && !pulse.sweep.muting(pulse.timer) {
                if pulse.envelope.constant {
                    pulse.envelope.period
                } else {
                    pulse.envelope.decay
                }
            } else {
                0
            }
        }),
        forall|later: int| #[trigger] pulse.note(later) == pulse.note(later % 8),
{
}

/// What each of a pulse's four registers does, field by field.
pub open spec fn pulse_hears(before: Pulse, after: Pulse, register: int, value: u8) -> bool {
    if register == 0 {
        &&& after.duty == value / 64
        &&& after.envelope.loops == (value & 0b0010_0000 != 0)
        &&& after.envelope.constant == (value & 0b0001_0000 != 0)
        &&& after.envelope.period == value % 16
        &&& after.envelope.start == before.envelope.start && after.envelope.divider == before.envelope.divider
            && after.envelope.decay == before.envelope.decay
        &&& after.length == before.length.halt_set(value & 0b0010_0000 != 0)
        &&& after.timer == before.timer && after.restart == before.restart && after.sweep == before.sweep
    } else if register == 1 {
        &&& after.sweep.enabled == (value & 0b1000_0000 != 0)
        &&& after.sweep.period == value / 16 % 8
        &&& after.sweep.negate == (value & 0b0000_1000 != 0)
        &&& after.sweep.shift == value % 8
        &&& after.sweep.reload
        &&& after.sweep.divider == before.sweep.divider && after.sweep.extra_step == before.sweep.extra_step
        &&& after.duty == before.duty && after.timer == before.timer && after.restart == before.restart
            && after.length == before.length && after.envelope == before.envelope
    } else if register == 2 {
        &&& after.timer == before.timer / 256 % 8 * 256 + value
        &&& after == (Pulse { timer: after.timer, ..before })
    } else {
        &&& after.timer == value % 8 * 256 + before.timer % 256
        &&& after.length == before.length.loaded(value)
        &&& after.envelope.start
        &&& after.restart
        &&& after.envelope.divider == before.envelope.divider && after.envelope.decay == before.envelope.decay
            && after.envelope.loops == before.envelope.loops && after.envelope.constant == before.envelope.constant
            && after.envelope.period == before.envelope.period
        &&& after.duty == before.duty && after.sweep == before.sweep
    }
}

/// A pulse voice at rest: the first shape, no pitch, no bend, nothing
/// switched on; of the two voices, one alone bends down a step further.
pub proof fn law_pulse_rests_blank(extra_step: bool)
    ensures
        ({
            let pulse = Pulse::idle(extra_step);
            &&& pulse.duty == 0 && pulse.timer == 0 && !pulse.restart
            &&& pulse.length == LengthCounter::idle() && pulse.envelope == Envelope::idle()
            &&& pulse.sweep.period == 0 && pulse.sweep.shift == 0 && pulse.sweep.divider == 0
            &&& !pulse.sweep.enabled && !pulse.sweep.negate && !pulse.sweep.reload
            &&& pulse.sweep.extra_step == extra_step
        }),
{
}

} // verus!
