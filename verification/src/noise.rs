//! The noise voice: the drummer.

use vstd::prelude::*;

use crate::envelope::Envelope;
use crate::length::LengthCounter;

verus! {

/// How many cycles between shifts of the noise register, for each of the
/// sixteen speeds a game can pick: fast is hiss, slow is rumble.
pub const NOISE_PERIODS: [u16; 16] = [
    4, 8, 16, 32, 64, 96, 128, 160, 202, 254, 380, 508, 762, 1016, 2034, 4068,
];

/// One shift of the register: bit 0 against bit 1 (or bit 6) becomes the
/// new bit 14.
pub open spec fn shifted(lfsr: u16, mode: bool) -> u16 {
    let tap: u16 = if mode {
        lfsr / 64 % 2
    } else {
        lfsr / 2 % 2
    };
    if lfsr % 2 == tap {
        lfsr / 2
    } else {
        (lfsr / 2 | 0x4000) as u16
    }
}

/// `times` shifts in a row.
pub open spec fn shifted_times(lfsr: u16, mode: bool, times: nat) -> u16
    decreases times,
{
    if times == 0 {
        lfsr
    } else {
        shifted(shifted_times(lfsr, mode, (times - 1) as nat), mode)
    }
}

proof fn lemma_shift_bits(lfsr: u16)
    by (bit_vector)
    ensures
        (lfsr >> 1) | (((lfsr & 1) ^ ((lfsr >> 6) & 1)) << 14) == shifted(lfsr, true),
        (lfsr >> 1) | (((lfsr & 1) ^ ((lfsr >> 1) & 1)) << 14) == shifted(lfsr, false),
        lfsr < 0x8000 ==> shifted(lfsr, true) < 0x8000 && shifted(lfsr, false) < 0x8000,
        lfsr != 0 ==> shifted(lfsr, false) != 0 && shifted(lfsr, true) != 0,
{
}

/// A fifteen-bit shift register playing pseudo-random bits as sound.
#[derive(Clone, Copy)]
pub struct Noise {
    /// The shift register. Never zero: seeded with 1, and the feedback
    /// keeps it alive forever after.
    pub lfsr: u16,
    /// Feed back from bit 6 instead of bit 1, which shortens the seed's
    /// pattern from 32,767 steps to 93: less hiss, more buzz.
    pub mode: bool,
    /// Cycles between shifts, from [`NOISE_PERIODS`].
    pub period: u16,
    pub length: LengthCounter,
    pub envelope: Envelope,
}

impl Noise {
    /// A voice at rest, its register seeded.
    pub open spec fn idle() -> Noise {
        Noise {
            lfsr: 1,
            mode: false,
            period: 4,
            length: LengthCounter::idle(),
            envelope: Envelope::idle(),
        }
    }

    /// What every operation keeps: fifteen bits in the register, not all of
    /// them zero, and a period from the table.
    pub open spec fn wf(self) -> bool {
        &&& 0 < self.lfsr < 0x8000
        &&& 4 <= self.period <= 4068
        &&& self.length.wf()
        &&& self.envelope.wf()
    }

    /// A control write: envelope and halt, exactly like a pulse's.
    pub open spec fn control_written(self, value: u8) -> Noise {
        Noise {
            envelope: self.envelope.written(value),
            length: self.length.halt_set(value & 0b0010_0000 != 0),
            ..self
        }
    }

    /// A write of the mode bit and the speed.
    pub open spec fn mode_written(self, value: u8) -> Noise {
        Noise { mode: value >= 128, period: NOISE_PERIODS@[value as int % 16], ..self }
    }

    /// A note-on.
    pub open spec fn length_written(self, value: u8) -> Noise {
        Noise { length: self.length.loaded(value), envelope: self.envelope.started(), ..self }
    }

    /// The quarter-frame beat.
    pub open spec fn quarter_framed(self) -> Noise {
        Noise { envelope: self.envelope.ticked(), ..self }
    }

    /// The half-frame beat.
    pub open spec fn half_framed(self) -> Noise {
        Noise { length: self.length.ticked(), ..self }
    }

    /// `times` shifts of the register.
    pub open spec fn run(self, times: nat) -> Noise {
        Noise { lfsr: shifted_times(self.lfsr, self.mode, times), ..self }
    }

    /// What a voice whose note runs plays: the volume, while bit 0 of the
    /// register is clear.
    pub open spec fn note(self) -> u8 {
        if self.lfsr % 2 == 0 {
            self.envelope.level()
        } else {
            0
        }
    }

    /// A voice at rest, its register seeded.
    pub fn new() -> (noise: Noise)
        ensures
            noise.wf(),
            noise == Self::idle(),
    {
        Noise {
            lfsr: 1,
            mode: false,
            period: NOISE_PERIODS[0],
            length: LengthCounter::new(),
            envelope: Envelope::new(),
        }
    }

    /// $400C: envelope and halt.
    pub fn write_control(&mut self, value: u8)
        ensures
            *final(self) == old(self).control_written(value),
            old(self).wf() ==> final(self).wf(),
    {
        self.envelope.write(value);
        self.length.set_halt(value & 0b0010_0000 != 0);
    }

    /// $400E: the mode bit and the speed.
    pub fn write_mode(&mut self, value: u8)
        ensures
            *final(self) == old(self).mode_written(value),
            old(self).wf() ==> final(self).wf(),
    {
        self.mode = value >= 128;
        self.period = NOISE_PERIODS[(value % 16) as usize];
    }

    /// $400F: a note-on. Length loads, envelope restarts.
    pub fn write_length(&mut self, value: u8)
        ensures
            *final(self) == old(self).length_written(value),
            old(self).wf() ==> final(self).wf(),
    {
        self.length.load(value);
        self.envelope.start = true;
    }

    /// One shift: bit 0 XOR bit 1 (or bit 6) becomes the new bit 14.
    pub fn shift(&mut self)
        ensures
            *final(self) == (Noise { lfsr: shifted(old(self).lfsr, old(self).mode), ..*old(self) }),
            old(self).wf() ==> final(self).wf(),
    {
        proof {
            lemma_shift_bits(self.lfsr);
        }
        let tapped: u16 = if self.mode {
            self.lfsr >> 6
        } else {
            self.lfsr >> 1
        };
        let feedback: u16 = (self.lfsr & 1) ^ (tapped & 1);
        self.lfsr = (self.lfsr >> 1) | (feedback << 14);
    }

    /// Whether the note still runs; the register stands still otherwise.
    pub fn sings(&self) -> (sings: bool)
        ensures
            sings == (self.length.counter > 0),
    {
        self.length.active()
    }

    /// One sample: run the register as many shifts as this slice of time
    /// owes it, then let bit 0 gate the volume. A voice whose note is over
    /// is silent, and its register stands still.
    pub fn sample(&mut self, shifts: u32) -> (sample: u8)
        ensures
            old(self).length.counter == 0 ==> sample == 0 && *final(self) == *old(self),
            old(self).length.counter > 0 ==> sample == old(self).run(shifts as nat).note()
                && *final(self) == old(self).run(shifts as nat),
            old(self).wf() ==> final(self).wf() && sample <= 15,
    {
        if !self.length.active() {
            return 0;
        }
        let mut done: u32 = 0;
        while done < shifts
            invariant
                done <= shifts,
                *self == old(self).run(done as nat),
                old(self).wf() ==> self.wf(),
                old(self).length.counter > 0,
            decreases shifts - done,
        {
            self.shift();
            done = done + 1;
        }
        if self.lfsr % 2 == 0 {
            self.envelope.volume()
        } else {
            0
        }
    }
}

/// The register never dies: however often it shifts, in either mode, it
/// stays within fifteen bits and is never zero.
pub proof fn law_register_never_dies(lfsr: u16, mode: bool, times: nat)
    requires
        0 < lfsr < 0x8000,
    ensures
        0 < shifted_times(lfsr, mode, times) < 0x8000,
    decreases times,
{
    if times > 0 {
        law_register_never_dies(lfsr, mode, (times - 1) as nat);
        lemma_shift_bits(shifted_times(lfsr, mode, (times - 1) as nat));
    }
}

/// The register forgets nothing: two states that shift to the same state
/// were the same, so every pattern it plays comes round to its beginning.
pub proof fn law_shift_loses_nothing(one: u16, other: u16, mode: bool)
    by (bit_vector)
    requires
        one < 0x8000,
        other < 0x8000,
        shifted(one, mode) == shifted(other, mode),
    ensures
        one == other,
{
}

/// What each of the noise's registers does, field by field: 0 the fade and
/// the hold, 2 the mode and the speed, 3 a note-on.
pub open spec fn noise_hears(before: Noise, after: Noise, register: int, value: u8) -> bool {
    if register == 0 {
        &&& after.envelope.loops == (value & 0b0010_0000 != 0)
        &&& after.envelope.constant == (value & 0b0001_0000 != 0)
        &&& after.envelope.period == value % 16
        &&& after.envelope.start == before.envelope.start && after.envelope.divider == before.envelope.divider
            && after.envelope.decay == before.envelope.decay
        &&& after.length == before.length.halt_set(value & 0b0010_0000 != 0)
        &&& after.lfsr == before.lfsr && after.mode == before.mode && after.period == before.period
    } else if register == 2 {
        &&& after.mode == (value >= 128)
        &&& after.period == seq![
            4u16,
            8,
            16,
            32,
            64,
            96,
            128,
            160,
            202,
            254,
            380,
            508,
            762,
            1016,
            2034,
            4068,
        ][value as int % 16]
        &&& after.lfsr == before.lfsr && after.length == before.length && after.envelope == before.envelope
    } else if register == 3 {
        &&& after.length == before.length.loaded(value)
        &&& after.envelope.start
        &&& after.envelope.divider == before.envelope.divider && after.envelope.decay == before.envelope.decay
            && after.envelope.loops == before.envelope.loops && after.envelope.constant == before.envelope.constant
            && after.envelope.period == before.envelope.period
        &&& after.lfsr == before.lfsr && after.mode == before.mode && after.period == before.period
    } else {
        after == before
    }
}

/// One shift, in numbers: everything moves down a place, and the place at the
/// top is set exactly when bit 0 differs from bit 1, or from bit 6 in the
/// short mode.
pub proof fn law_shift_feeds_back(lfsr: u16, mode: bool)
    requires
        lfsr < 0x8000,
    ensures
        shifted(lfsr, mode) % 0x4000 == lfsr / 2,
        (shifted(lfsr, mode) >= 0x4000) == (lfsr % 2 != (if mode {
            lfsr / 64
        } else {
            lfsr / 2
        }) % 2),
        shifted(lfsr, mode) < 0x8000,
{
    lemma_top_place(lfsr / 2);
}

proof fn lemma_top_place(low: u16)
    by (bit_vector)
    requires
        low < 0x4000,
    ensures
        (low | 0x4000) == low + 0x4000,
{
}

/// What the noise plays: its volume while bit 0 of the register is clear, and
/// nothing while it is set; and both beats reach the part they are for.
pub proof fn law_noise_is_gated_by_its_register(noise: Noise)
    ensures
        noise.note() == if noise.lfsr % 2 != 0 {
            0
        } else if noise.envelope.constant {
            noise.envelope.period
        } else {
            noise.envelope.decay
        },
        noise.quarter_framed() == (Noise { envelope: noise.envelope.ticked(), ..noise }),
        noise.half_framed() == (Noise { length: noise.length.ticked(), ..noise }),
{
}

/// The noise at rest: one bit in its register, the shortest period, the long
/// pattern, nothing switched on.
pub proof fn law_noise_rests_blank()
    ensures
        ({
            let noise = Noise::idle();
            &&& noise.lfsr == 1 && noise.period == 4 && !noise.mode
            &&& noise.length == LengthCounter::idle() && noise.envelope == Envelope::idle()
        }),
{
}

} // verus!
