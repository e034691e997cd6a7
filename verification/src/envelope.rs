//! The envelope: a note's fade.

use vstd::prelude::*;

verus! {

/// Hardware decay. Started by a note-on, it walks a volume from 15 down to
/// 0 at a programmed rate, or loops back to 15, or is bypassed entirely for
/// constant volume.
#[derive(Clone, Copy)]
pub struct Envelope {
    /// Set by a note-on; the next quarter frame restarts the decay.
    pub start: bool,
    /// The divider that slows quarter frames down to the decay rate.
    pub divider: u8,
    /// The decaying volume itself, 15 down to 0.
    pub decay: u8,
    /// Loop: at zero, wrap back to 15 instead of staying silent.
    pub loops: bool,
    /// Constant-volume mode: ignore the decay, play `period` as the volume.
    pub constant: bool,
    /// Doubles as the decay rate and the constant volume.
    pub period: u8,
}

impl Envelope {
    /// An envelope at rest.
    pub open spec fn idle() -> Envelope {
        Envelope { start: false, divider: 0, decay: 0, loops: false, constant: false, period: 0 }
    }

    /// Volumes are four bits wide.
    pub open spec fn wf(self) -> bool {
        self.decay <= 15 && self.period <= 15 && self.divider <= 15
    }

    /// The low six bits of a control write.
    pub open spec fn written(self, value: u8) -> Envelope {
        Envelope {
            loops: value & 0b0010_0000 != 0,
            constant: value & 0b0001_0000 != 0,
            period: value % 16,
            ..self
        }
    }

    /// A note-on: the decay restarts at the next quarter frame.
    pub open spec fn started(self) -> Envelope {
        Envelope { start: true, ..self }
    }

    /// The quarter-frame clock.
    pub open spec fn ticked(self) -> Envelope {
        if self.start {
            Envelope { start: false, decay: 15, divider: self.period, ..self }
        } else if self.divider > 0 {
            Envelope { divider: (self.divider - 1) as u8, ..self }
        } else {
            Envelope {
                divider: self.period,
                decay: if self.decay > 0 {
                    (self.decay - 1) as u8
                } else if self.loops {
                    15
                } else {
                    0
                },
                ..self
            }
        }
    }

    /// What the channel plays at.
    pub open spec fn level(self) -> u8 {
        if self.constant {
            self.period
        } else {
            self.decay
        }
    }

    /// An envelope at rest.
    pub fn new() -> (envelope: Envelope)
        ensures
            envelope == Self::idle(),
            envelope.wf(),
    {
        Envelope { start: false, divider: 0, decay: 0, loops: false, constant: false, period: 0 }
    }

    /// The low six bits of a control write.
    pub fn write(&mut self, value: u8)
        ensures
            *final(self) == old(self).written(value),
            old(self).wf() ==> final(self).wf(),
    {
        self.loops = value & 0b0010_0000 != 0;
        self.constant = value & 0b0001_0000 != 0;
        self.period = value % 16;
    }

    /// The quarter-frame clock.
    pub fn tick(&mut self)
        ensures
            *final(self) == old(self).ticked(),
            old(self).wf() ==> final(self).wf(),
    {
        if self.start {
            self.start = false;
            self.decay = 15;
            self.divider = self.period;
        } else if self.divider == 0 {
            self.divider = self.period;
            if self.decay > 0 {
                self.decay = self.decay - 1;
            } else if self.loops {
                self.decay = 15;
            }
        } else {
            self.divider = self.divider - 1;
        }
    }

    /// What the channel should play at, right now.
    pub fn volume(&self) -> (volume: u8)
        ensures
            volume == self.level(),
            self.wf() ==> volume <= 15,
    {
        if self.constant {
            self.period
        } else {
            self.decay
        }
    }
}

/// `beats` quarter-frame clocks in a row.
pub open spec fn ticked_times(envelope: Envelope, beats: nat) -> Envelope
    decreases beats,
{
    if beats == 0 {
        envelope
    } else {
        ticked_times(envelope, (beats - 1) as nat).ticked()
    }
}

/// A restarted fade at the fastest rate starts from the top and walks to
/// silence one step a beat; it then stays silent, unless it loops, in which
/// case the sixteen volumes come round again.
pub proof fn law_fade_walks_to_silence(envelope: Envelope, beats: nat)
    requires
        envelope.start,
        envelope.period == 0,
        beats > 0,
    ensures
        ticked_times(envelope, beats).decay == (if envelope.loops {
            15 - (beats - 1) % 16
        } else if beats <= 16 {
            16 - beats
        } else {
            0
        }),
        ticked_times(envelope, beats).divider == 0,
        !ticked_times(envelope, beats).start,
        ticked_times(envelope, beats).period == 0,
        ticked_times(envelope, beats).loops == envelope.loops,
    decreases beats,
{
    if beats == 1 {
        assert(ticked_times(envelope, 0) == envelope);
    } else {
        law_fade_walks_to_silence(envelope, (beats - 1) as nat);
    }
}

/// In constant mode the fade is heard nowhere: the period is the volume,
/// whatever the clock does.
pub proof fn law_constant_volume_ignores_the_fade(envelope: Envelope, beats: nat)
    requires
        envelope.constant,
    ensures
        ticked_times(envelope, beats).level() == envelope.period,
        ticked_times(envelope, beats).constant,
        ticked_times(envelope, beats).period == envelope.period,
    decreases beats,
{
    if beats > 0 {
        law_constant_volume_ignores_the_fade(envelope, (beats - 1) as nat);
    }
}

/// The quarter-frame beat of a fade, field by field: a started one begins at
/// fifteen; one whose divider still runs waits; and another takes a step down
/// and begins its divider again, looping from zero to fifteen if it loops.
pub proof fn law_fade_takes_its_steps(envelope: Envelope)
    ensures
        ({
            let after = envelope.ticked();
            &&& envelope.start ==> after.decay == 15 && after.divider == envelope.period
            &&& !envelope.start && envelope.divider != 0 ==> after.decay == envelope.decay && after.divider
                == envelope.divider - 1
            &&& !envelope.start && envelope.divider == 0 ==> after.divider == envelope.period
            &&& !envelope.start && envelope.divider == 0 && envelope.decay != 0 ==> after.decay == envelope.decay - 1
            &&& !envelope.start && envelope.divider == 0 && envelope.decay == 0 ==> after.decay == if envelope.loops {
                15int
            } else {
                0
            }
            &&& !after.start
            &&& after.loops == envelope.loops && after.constant == envelope.constant && after.period
                == envelope.period
        }),
        envelope.level() == if envelope.constant {
            envelope.period
        } else {
            envelope.decay
        },
{
}

/// An envelope at rest: nothing starts, nothing fades, every setting is zero.
pub proof fn law_envelope_rests_blank()
    ensures
        ({
            let envelope = Envelope::idle();
            &&& !envelope.start && !envelope.loops && !envelope.constant
            &&& envelope.divider == 0 && envelope.decay == 0 && envelope.period == 0
        }),
{
}

} // verus!
