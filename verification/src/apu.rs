//! The sound chip: five voices, and the conductor that cues their counters.

use vstd::prelude::*;

use crate::conductor::FrameCounter;
use crate::dmc::Dmc;
use crate::length::LengthCounter;
use crate::noise;
use crate::noise::Noise;
use crate::pulse;
use crate::pulse::Pulse;
use crate::triangle;
use crate::triangle::Triangle;

verus! {

/// The sound chip.
#[derive(Clone, Copy)]
pub struct Apu {
    pub pulse1: Pulse,
    pub pulse2: Pulse,
    pub triangle: Triangle,
    pub noise: Noise,
    pub dmc: Dmc,
    pub frame: FrameCounter,
}

impl Apu {
    /// The chip at power-on: every voice at rest, and of the two pulses only
    /// the first wired with the extra step.
    pub open spec fn idle() -> Apu {
        Apu {
            pulse1: Pulse::idle(true),
            pulse2: Pulse::idle(false),
            triangle: Triangle::idle(),
            noise: Noise::idle(),
            dmc: Dmc::idle(),
            frame: FrameCounter::idle(),
        }
    }

    /// What every operation keeps: each voice's own invariant.
    #[verifier::opaque]
    pub open spec fn wf(self) -> bool {
        &&& self.pulse1.wf()
        &&& self.pulse2.wf()
        &&& self.triangle.wf()
        &&& self.noise.wf()
        &&& self.dmc.wf()
    }

    /// The quarter-frame beat: envelopes and the linear counter.
    pub open spec fn quarter_framed(self) -> Apu {
        Apu {
            pulse1: Pulse { envelope: self.pulse1.envelope.ticked(), ..self.pulse1 },
            pulse2: Pulse { envelope: self.pulse2.envelope.ticked(), ..self.pulse2 },
            triangle: self.triangle.quarter_framed(),
            noise: self.noise.quarter_framed(),
            ..self
        }
    }

    /// The half-frame beat: sweeps and length counters.
    pub open spec fn half_framed(self) -> Apu {
        Apu {
            pulse1: self.pulse1.half_framed(),
            pulse2: self.pulse2.half_framed(),
            triangle: self.triangle.half_framed(),
            noise: self.noise.half_framed(),
            ..self
        }
    }

    /// The switchboard: a bit per channel, and the sampler's interrupt
    /// acknowledged.
    pub open spec fn switched(self, value: u8) -> Apu {
        Apu {
            pulse1: Pulse {
                length: self.pulse1.length.enabled_set(value & 0b0001 != 0),
                ..self.pulse1
            },
            pulse2: Pulse {
                length: self.pulse2.length.enabled_set(value & 0b0010 != 0),
                ..self.pulse2
            },
            triangle: Triangle {
                length: self.triangle.length.enabled_set(value & 0b0100 != 0),
                ..self.triangle
            },
            noise: Noise {
                length: self.noise.length.enabled_set(value & 0b1000 != 0),
                ..self.noise
            },
            dmc: Dmc {
                irq_pending: false,
                ..self.dmc.enabled_set(value & 0b1_0000 != 0, self.frame.apu_cycle)
            },
            ..self
        }
    }

    /// The conductor's register. The five-step bit brings a beat of its own.
    pub open spec fn conducted(self, value: u8) -> Apu {
        let told = Apu { frame: self.frame.written(value), ..self };
        if value & 0b1000_0000 != 0 {
            told.quarter_framed().half_framed()
        } else {
            told
        }
    }

    /// A write to any address: a register hears it, or nobody does.
    #[verifier::opaque]
    pub open spec fn written(self, address: u16, value: u8) -> Apu {
        if address == 0x4000 {
            Apu { pulse1: self.pulse1.control_written(value), ..self }
        } else if address == 0x4001 {
            Apu { pulse1: Pulse { sweep: self.pulse1.sweep.written(value), ..self.pulse1 }, ..self }
        } else if address == 0x4002 {
            Apu { pulse1: self.pulse1.timer_low_written(value), ..self }
        } else if address == 0x4003 {
            Apu { pulse1: self.pulse1.timer_high_written(value), ..self }
        } else if address == 0x4004 {
            Apu { pulse2: self.pulse2.control_written(value), ..self }
        } else if address == 0x4005 {
            Apu { pulse2: Pulse { sweep: self.pulse2.sweep.written(value), ..self.pulse2 }, ..self }
        } else if address == 0x4006 {
            Apu { pulse2: self.pulse2.timer_low_written(value), ..self }
        } else if address == 0x4007 {
            Apu { pulse2: self.pulse2.timer_high_written(value), ..self }
        } else if address == 0x4008 {
            Apu { triangle: self.triangle.control_written(value), ..self }
        } else if address == 0x400A {
            Apu { triangle: self.triangle.timer_low_written(value), ..self }
        } else if address == 0x400B {
            Apu { triangle: self.triangle.timer_high_written(value), ..self }
        } else if address == 0x400C {
            Apu { noise: self.noise.control_written(value), ..self }
        } else if address == 0x400E {
            Apu { noise: self.noise.mode_written(value), ..self }
        } else if address == 0x400F {
            Apu { noise: self.noise.length_written(value), ..self }
        } else if address == 0x4010 {
            Apu { dmc: self.dmc.control_written(value), ..self }
        } else if address == 0x4011 {
            Apu { dmc: Dmc { level: value % 128, ..self.dmc }, ..self }
        } else if address == 0x4012 {
            Apu { dmc: Dmc { sample_address: value, ..self.dmc }, ..self }
        } else if address == 0x4013 {
            Apu { dmc: Dmc { sample_length: value, ..self.dmc }, ..self }
        } else if address == 0x4015 {
            self.switched(value)
        } else if address == 0x4017 {
            self.conducted(value)
        } else {
            self
        }
    }

    /// The end of a cycle, for every length counter.
    pub open spec fn cycle_ended(self, imminent: bool) -> Apu {
        Apu {
            pulse1: Pulse { length: self.pulse1.length.cycle_ended(imminent), ..self.pulse1 },
            pulse2: Pulse { length: self.pulse2.length.cycle_ended(imminent), ..self.pulse2 },
            triangle: Triangle {
                length: self.triangle.length.cycle_ended(imminent),
                ..self.triangle
            },
            noise: Noise { length: self.noise.length.cycle_ended(imminent), ..self.noise },
            ..self
        }
    }

    /// One cycle: the sampler and the conductor move, the beats that are due
    /// sound, and every length counter learns what the next cycle carries.
    #[verifier::opaque]
    pub open spec fn ticked(self) -> Apu {
        let (quarter, half) = self.frame.clocks();
        let moved = Apu { dmc: self.dmc.ticked(), frame: self.frame.ticked(), ..self };
        let beaten = if quarter {
            moved.quarter_framed()
        } else {
            moved
        };
        let counted = if half {
            beaten.half_framed()
        } else {
            beaten
        };
        counted.cycle_ended(counted.frame.clocks().1)
    }

    /// The status byte: a bit for each voice that still sounds, then the
    /// conductor's interrupt and the sampler's.
    #[verifier::opaque]
    pub open spec fn status(self) -> int {
        (if self.pulse1.length.counter > 0 { 1int } else { 0 })
            + (if self.pulse2.length.counter > 0 { 2int } else { 0 })
            + (if self.triangle.length.counter > 0 { 4int } else { 0 })
            + (if self.noise.length.counter > 0 { 8int } else { 0 })
            + (if self.dmc.bytes_remaining > 0 { 16int } else { 0 })
            + (if self.frame.irq_pending { 64int } else { 0 })
            + (if self.dmc.irq_pending { 128int } else { 0 })
    }

    /// What looking at the status does: the conductor's interrupt falls.
    pub open spec fn status_read(self) -> Apu {
        Apu { frame: FrameCounter { irq_pending: false, ..self.frame }, ..self }
    }

    /// The chip at power-on.
    pub fn new() -> (apu: Apu)
        ensures
            apu == Self::idle(),
            apu.wf(),
    {
        proof {
            reveal(Apu::wf);
        }
        Apu {
            pulse1: Pulse::new(true),
            pulse2: Pulse::new(false),
            triangle: Triangle::new(),
            noise: Noise::new(),
            dmc: Dmc::new(),
            frame: FrameCounter::new(),
        }
    }

    /// A write to any sound register.
    pub fn write(&mut self, address: u16, value: u8)
        requires
            old(self).wf(),
        ensures
            *final(self) == old(self).written(address, value),
            final(self).wf(),
            final(self).frame.cycle == old(self).frame.cycle,
    {
        proof {
            reveal(Apu::wf);
            reveal(Apu::written);
        }
        match address {
            0x4000 => self.pulse1.write_control(value),
            0x4001 => self.pulse1.sweep.write(value),
            0x4002 => self.pulse1.write_timer_low(value),
            0x4003 => self.pulse1.write_timer_high(value),
            0x4004 => self.pulse2.write_control(value),
            0x4005 => self.pulse2.sweep.write(value),
            0x4006 => self.pulse2.write_timer_low(value),
            0x4007 => self.pulse2.write_timer_high(value),
            0x4008 => self.triangle.write_control(value),
            0x400A => self.triangle.write_timer_low(value),
            0x400B => self.triangle.write_timer_high(value),
            0x400C => self.noise.write_control(value),
            0x400E => self.noise.write_mode(value),
            0x400F => self.noise.write_length(value),
            0x4010 => self.dmc.write_control(value),
            0x4011 => self.dmc.write_level(value),
            0x4012 => self.dmc.write_address(value),
            0x4013 => self.dmc.write_length(value),
            0x4015 => self.write_switches(value),
            0x4017 => self.write_frame(value),
            _ => {},
        }
    }

    /// One cycle for the whole chip: the conductor beats, the counters
    /// follow, and every length counter closes the cycle knowing whether the
    /// next one carries its clock.
    #[verifier::rlimit(30)]
    pub fn tick(&mut self)
        requires
            old(self).wf(),
            old(self).frame.has_room(),
            old(self).frame.ticked().has_room(),
        ensures
            *final(self) == old(self).ticked(),
            final(self).wf(),
            final(self).frame.cycle <= old(self).frame.cycle + 1,
    {
        proof {
            reveal(Apu::wf);
            reveal(Apu::ticked);
        }
        self.dmc.tick();
        let (quarter, half) = self.frame.tick();
        if quarter {
            self.quarter_frame();
        }
        if half {
            self.half_frame();
        }
        let imminent = self.frame.clocks_length_next();
        self.end_cycle(imminent);
    }

    /// Close the cycle for every length counter.
    fn end_cycle(&mut self, imminent: bool)
        ensures
            *final(self) == old(self).cycle_ended(imminent),
            old(self).wf() ==> final(self).wf(),
    {
        proof {
            reveal(Apu::wf);
        }
        self.pulse1.length.end_cycle(imminent);
        self.pulse2.length.end_cycle(imminent);
        self.triangle.length.end_cycle(imminent);
        self.noise.length.end_cycle(imminent);
    }

    /// $4015: the switchboard.
    fn write_switches(&mut self, value: u8)
        ensures
            *final(self) == old(self).switched(value),
            old(self).wf() ==> final(self).wf(),
    {
        proof {
            reveal(Apu::wf);
        }
        self.pulse1.length.set_enabled(value & 0b0001 != 0);
        self.pulse2.length.set_enabled(value & 0b0010 != 0);
        self.triangle.length.set_enabled(value & 0b0100 != 0);
        self.noise.length.set_enabled(value & 0b1000 != 0);
        self.dmc.set_enabled(value & 0b1_0000 != 0, self.frame.apu_cycle);
        self.dmc.irq_pending = false;
    }

    /// $4017: the conductor's register.
    fn write_frame(&mut self, value: u8)
        requires
            old(self).pulse1.sweep.shift < 16,
            old(self).pulse2.sweep.shift < 16,
        ensures
            *final(self) == old(self).conducted(value),
            old(self).wf() ==> final(self).wf(),
    {
        proof {
            reveal(Apu::wf);
        }
        if self.frame.write(value) {
            self.quarter_frame();
            self.half_frame();
        }
    }

    /// The quarter-frame beat: envelopes and the linear counter.
    pub fn quarter_frame(&mut self)
        ensures
            *final(self) == old(self).quarter_framed(),
            old(self).wf() ==> final(self).wf(),
    {
        proof {
            reveal(Apu::wf);
        }
        self.pulse1.envelope.tick();
        self.pulse2.envelope.tick();
        self.triangle.quarter_frame();
        self.noise.envelope.tick();
    }

    /// The half-frame beat: sweeps and length counters.
    pub fn half_frame(&mut self)
        requires
            old(self).pulse1.sweep.shift < 16,
            old(self).pulse2.sweep.shift < 16,
        ensures
            *final(self) == old(self).half_framed(),
            old(self).wf() ==> final(self).wf(),
    {
        proof {
            reveal(Apu::wf);
        }
        self.pulse1.half_frame();
        self.pulse2.half_frame();
        self.triangle.length.tick();
        self.noise.length.tick();
    }

    /// A read of $4015: which notes still sound, and which interrupts are
    /// up. Reading clears the conductor's.
    pub fn read_status(&mut self) -> (status: u8)
        ensures
            status == old(self).status(),
            *final(self) == old(self).status_read(),
            old(self).wf() ==> final(self).wf(),
    {
        proof {
            reveal(Apu::status);
        }
        proof {
            reveal(Apu::wf);
        }
        let mut status: u8 = 0;
        if self.pulse1.length.active() {
            status = status + 0b0001;
        }
        if self.pulse2.length.active() {
            status = status + 0b0010;
        }
        if self.triangle.length.active() {
            status = status + 0b0100;
        }
        if self.noise.length.active() {
            status = status + 0b1000;
        }
        if self.dmc.bytes_remaining > 0 {
            status = status + 0b1_0000;
        }
        if self.dmc.irq_pending {
            status = status + 0b1000_0000;
        }
        if self.frame.take_irq() {
            status = status + 0b0100_0000;
        }
        status
    }

    /// Whether the chip is pulling the interrupt line: the conductor's flag
    /// or the sampler's.
    pub fn irq_pending(&self) -> (pending: bool)
        ensures
            pending == (self.frame.irq_pending || self.dmc.irq_pending),
    {
        self.frame.irq_pending || self.dmc.irq_pending
    }

    /// The sampler's fetch request, passed through. Clears the ask.
    pub fn dmc_fetch(&mut self) -> (fetch: Option<u16>)
        ensures
            fetch == old(self).dmc.pending_fetch,
            *final(self) == (Apu { dmc: Dmc { pending_fetch: None, ..old(self).dmc }, ..*old(self) }),
            old(self).wf() ==> final(self).wf(),
    {
        proof {
            reveal(Apu::wf);
        }
        self.dmc.take_fetch()
    }

    /// The answer to the sampler's request, passed back in.
    pub fn dmc_supply(&mut self, value: u8)
        ensures
            *final(self) == (Apu { dmc: old(self).dmc.supplied(value), ..*old(self) }),
            old(self).wf() ==> final(self).wf(),
    {
        proof {
            reveal(Apu::wf);
        }
        self.dmc.supply(value);
    }
}

/// How many samples a frame of picture owes a queue that already holds some:
/// a sixtieth of a second of them, unless a fifteenth is waiting, so that a
/// slow frame cannot let the lag behind the picture grow forever.
pub fn samples_due(queued: usize, sample_rate: usize) -> (due: usize)
    ensures
        due == (if queued < sample_rate / 15 {
            sample_rate / 60
        } else {
            0
        }),
        due > 0 ==> queued + due < sample_rate / 15 + sample_rate / 60,
{
    if queued < sample_rate / 15 {
        sample_rate / 60
    } else {
        0
    }
}

/// Reading the status clears the conductor's interrupt and nothing else: a
/// second read reports the same notes without it.
pub proof fn law_status_read_clears_the_irq(apu: Apu)
    ensures
        apu.status_read().status() == apu.status() - (if apu.frame.irq_pending {
            64int
        } else {
            0
        }),
        apu.status_read().status_read() == apu.status_read(),
{
    reveal(Apu::status);
}

/// The switchboard silences a disabled voice: whatever note was running, a
/// channel whose bit is clear reports none and sings nothing.
pub proof fn law_switchboard_silences(apu: Apu, value: u8, step: int)
    ensures
        value & 0b0001 == 0 ==> apu.written(0x4015, value).pulse1.note(step) == 0,
        value & 0b0010 == 0 ==> apu.written(0x4015, value).pulse2.note(step) == 0,
        value & 0b0100 == 0 ==> apu.written(0x4015, value).triangle.note(step) == 0,
        value & 0b1000 == 0 ==> apu.written(0x4015, value).noise.length.counter == 0,
        value & 0b1_0000 == 0 ==> apu.written(0x4015, value).dmc.bytes_remaining == 0,
{
    reveal(Apu::written);
}

/// A write to the switchboard acknowledges the sampler's interrupt.
pub proof fn law_switchboard_acknowledges(apu: Apu, value: u8)
    ensures
        !apu.written(0x4015, value).dmc.irq_pending,
        apu.written(0x4015, value).frame == apu.frame,
{
    reveal(Apu::written);
}

/// The five-step bit clocks everything at once: a running, unhalted note is
/// one half frame shorter the moment the write lands.
pub proof fn law_five_step_bit_clocks_at_once(apu: Apu, value: u8)
    requires
        value & 0b1000_0000 != 0,
    ensures
        apu.written(0x4017, value).pulse1.length == apu.pulse1.length.ticked(),
        apu.written(0x4017, value).pulse2.length == apu.pulse2.length.ticked(),
        apu.written(0x4017, value).triangle.length == apu.triangle.length.ticked(),
        apu.written(0x4017, value).noise.length == apu.noise.length.ticked(),
{
    reveal(Apu::written);
}

/// The registers of the two pulses: $4000 to $4003 reach the first and
/// nothing else, $4004 to $4007 the second and nothing else, each as the
/// register of that place does.
#[verifier::rlimit(40)]
#[verifier::spinoff_prover]
pub proof fn law_pulse_registers(apu: Apu, register: int, value: u8)
    requires
        0 <= register < 4,
    ensures
        ({
            let after = apu.written((0x4000 + register) as u16, value);
            &&& pulse::pulse_hears(apu.pulse1, after.pulse1, register, value)
            &&& after.pulse2 == apu.pulse2 && after.triangle == apu.triangle && after.noise == apu.noise
            &&& after.dmc == apu.dmc && after.frame == apu.frame
        }),
        ({
            let after = apu.written((0x4004 + register) as u16, value);
            &&& pulse::pulse_hears(apu.pulse2, after.pulse2, register, value)
            &&& after.pulse1 == apu.pulse1 && after.triangle == apu.triangle && after.noise == apu.noise
            &&& after.dmc == apu.dmc && after.frame == apu.frame
        }),
{
    reveal(Apu::written);
}

/// The registers of the triangle and of the noise: $4008 to $400B and $400C
/// to $400F, each reaching its own voice and nothing else.
pub proof fn law_triangle_and_noise_registers(apu: Apu, register: int, value: u8)
    requires
        0 <= register < 4,
    ensures
        ({
            let after = apu.written((0x4008 + register) as u16, value);
            &&& triangle::triangle_hears(apu.triangle, after.triangle, register, value)
            &&& after.pulse1 == apu.pulse1 && after.pulse2 == apu.pulse2 && after.noise == apu.noise
            &&& after.dmc == apu.dmc && after.frame == apu.frame
        }),
        ({
            let after = apu.written((0x400C + register) as u16, value);
            &&& noise::noise_hears(apu.noise, after.noise, register, value)
            &&& after.pulse1 == apu.pulse1 && after.pulse2 == apu.pulse2 && after.triangle == apu.triangle
            &&& after.dmc == apu.dmc && after.frame == apu.frame
        }),
{
    reveal(Apu::written);
    lemma_periods(value as int % 16);
}

/// The noise's periods.
proof fn lemma_periods(i: int)
    requires
        0 <= i < 16,
    ensures
        noise::NOISE_PERIODS@[i] == seq![
            4u16,
            8,
            16,
            32,
            64,
            96,
            128,
            160,
            202,
            254,
            380,
            508,
            762,
            1016,
            2034,
            4068,
        ][i],
{
}

/// The sampler's registers, $4010 to $4013, reach it and nothing else: the
/// control, the level's seven bits, the address and the length. Nobody hears
/// any other address but $4015 and $4017.
pub proof fn law_sampler_registers(apu: Apu, address: u16, value: u8)
    requires
        address >= 0x4010,
        address != 0x4015 && address != 0x4017,
    ensures
        ({
            let after = apu.written(address, value);
            &&& after.pulse1 == apu.pulse1 && after.pulse2 == apu.pulse2 && after.triangle == apu.triangle
            &&& after.noise == apu.noise && after.frame == apu.frame
            &&& address == 0x4010 ==> after.dmc == apu.dmc.control_written(value)
            &&& address == 0x4011 ==> after.dmc == (Dmc { level: value % 128, ..apu.dmc })
            &&& address == 0x4012 ==> after.dmc == (Dmc { sample_address: value, ..apu.dmc })
            &&& address == 0x4013 ==> after.dmc == (Dmc { sample_length: value, ..apu.dmc })
            &&& address > 0x4013 ==> after.dmc == apu.dmc
        }),
{
    reveal(Apu::written);
}

/// Below its own page nobody on the chip hears anything.
pub proof fn law_no_registers_below(apu: Apu, address: u16, value: u8)
    requires
        address < 0x4000,
    ensures
        apu.written(address, value) == apu,
{
    reveal(Apu::written);
}

/// A voice's timer after its two writes: the low byte, and the three low bits
/// of the high one above it, whatever stood there; and only that voice's.
pub proof fn law_two_writes_tune_a_voice(apu: Apu, low: u8, high: u8)
    ensures
        ({
            let after = apu.written(0x4002, low).written(0x4003, high);
            &&& after.pulse1.timer == high % 8 * 256 + low
            &&& after.pulse2 == apu.pulse2 && after.triangle == apu.triangle && after.noise == apu.noise
        }),
        ({
            let after = apu.written(0x4006, low).written(0x4007, high);
            &&& after.pulse2.timer == high % 8 * 256 + low
            &&& after.pulse1 == apu.pulse1 && after.triangle == apu.triangle && after.noise == apu.noise
        }),
        ({
            let after = apu.written(0x400A, low).written(0x400B, high);
            &&& after.triangle.timer == high % 8 * 256 + low
            &&& after.pulse1 == apu.pulse1 && after.pulse2 == apu.pulse2 && after.noise == apu.noise
        }),
{
    law_pulse_registers(apu, 2, low);
    law_pulse_registers(apu.written(0x4002, low), 3, high);
    law_pulse_registers(apu.written(0x4006, low), 3, high);
    law_triangle_and_noise_registers(apu, 2, low);
    law_triangle_and_noise_registers(apu.written(0x400A, low), 3, high);
}

/// The switchboard, bit by bit: each voice's length counter is switched by
/// its own bit, the sampler by the fifth, its interrupt falls, and nothing
/// else of any voice changes.
pub proof fn law_switchboard_switches(apu: Apu, value: u8)
    ensures
        ({
            let after = apu.written(0x4015, value);
            let dmc = apu.dmc.enabled_set(value & 0b1_0000 != 0, apu.frame.apu_cycle);
            &&& after.pulse1 == (Pulse {
                length: apu.pulse1.length.enabled_set(value & 0b0_0001 != 0),
                ..apu.pulse1
            })
            &&& after.pulse2 == (Pulse {
                length: apu.pulse2.length.enabled_set(value & 0b0_0010 != 0),
                ..apu.pulse2
            })
            &&& after.triangle == (Triangle {
                length: apu.triangle.length.enabled_set(value & 0b0_0100 != 0),
                ..apu.triangle
            })
            &&& after.noise == (Noise {
                length: apu.noise.length.enabled_set(value & 0b0_1000 != 0),
                ..apu.noise
            })
            &&& after.dmc == (Dmc { irq_pending: false, ..dmc })
            &&& after.frame == apu.frame
        }),
{
    reveal(Apu::written);
}

/// The conductor's register: the conductor hears it, and with bit 7 both
/// beats sound at once; without it nothing else happens.
pub proof fn law_conductor_register(apu: Apu, value: u8)
    ensures
        ({
            let after = apu.written(0x4017, value);
            &&& after.frame == apu.frame.written(value)
            &&& after.dmc == apu.dmc
            &&& value & 0b1000_0000 == 0 ==> after.pulse1 == apu.pulse1 && after.pulse2 == apu.pulse2 && after.triangle
                == apu.triangle && after.noise == apu.noise
            &&& value & 0b1000_0000 != 0 ==> {
                &&& after.pulse1.envelope == apu.pulse1.envelope.ticked() && after.pulse2.envelope
                    == apu.pulse2.envelope.ticked() && after.noise.envelope == apu.noise.envelope.ticked()
                &&& after.triangle.linear == apu.triangle.quarter_framed().linear
                &&& after.pulse1.timer == apu.pulse1.half_framed().timer && after.pulse2.timer
                    == apu.pulse2.half_framed().timer
                &&& after.pulse1.sweep == apu.pulse1.half_framed().sweep && after.pulse2.sweep
                    == apu.pulse2.half_framed().sweep
            }
        }),
{
    reveal(Apu::written);
}

/// Which part of which voice a beat reaches: a quarter frame the three fades
/// and the triangle's linear counter, a half frame the two sweeps and the
/// four length counters, and nothing else.
pub proof fn law_beats_reach_their_parts(apu: Apu)
    ensures
        ({
            let quarter = apu.quarter_framed();
            &&& quarter.pulse1 == (Pulse { envelope: apu.pulse1.envelope.ticked(), ..apu.pulse1 })
            &&& quarter.pulse2 == (Pulse { envelope: apu.pulse2.envelope.ticked(), ..apu.pulse2 })
            &&& quarter.triangle == apu.triangle.quarter_framed()
            &&& quarter.noise == (Noise { envelope: apu.noise.envelope.ticked(), ..apu.noise })
            &&& quarter.dmc == apu.dmc && quarter.frame == apu.frame
        }),
        ({
            let half = apu.half_framed();
            &&& half.pulse1 == apu.pulse1.half_framed() && half.pulse2 == apu.pulse2.half_framed()
            &&& half.triangle == (Triangle { length: apu.triangle.length.ticked(), ..apu.triangle })
            &&& half.noise == (Noise { length: apu.noise.length.ticked(), ..apu.noise })
            &&& half.dmc == apu.dmc && half.frame == apu.frame
        }),
{
}

/// One cycle of the chip, voice by voice: the sampler and the conductor take
/// theirs, each beat that the conductor sounds reaches its parts, and every
/// length counter then learns whether the coming cycle beats a half frame.
pub proof fn law_cycle_of_the_chip(apu: Apu)
    ensures
        ({
            let after = apu.ticked();
            let quarter = apu.frame.clocks().0;
            let half = apu.frame.clocks().1;
            let coming = apu.frame.ticked().clocks().1;
            &&& after.frame == apu.frame.ticked()
            &&& after.dmc == apu.dmc.ticked()
            &&& after.pulse1.envelope == if quarter {
                apu.pulse1.envelope.ticked()
            } else {
                apu.pulse1.envelope
            }
            &&& after.pulse2.envelope == if quarter {
                apu.pulse2.envelope.ticked()
            } else {
                apu.pulse2.envelope
            }
            &&& after.noise.envelope == if quarter {
                apu.noise.envelope.ticked()
            } else {
                apu.noise.envelope
            }
            &&& after.triangle.linear == if quarter {
                apu.triangle.quarter_framed().linear
            } else {
                apu.triangle.linear
            }
            &&& after.triangle.reload_flag == if quarter {
                apu.triangle.quarter_framed().reload_flag
            } else {
                apu.triangle.reload_flag
            }
            &&& after.pulse1.timer == if half {
                apu.pulse1.half_framed().timer
            } else {
                apu.pulse1.timer
            }
            &&& after.pulse2.timer == if half {
                apu.pulse2.half_framed().timer
            } else {
                apu.pulse2.timer
            }
            &&& after.pulse1.sweep == if half {
                apu.pulse1.half_framed().sweep
            } else {
                apu.pulse1.sweep
            }
            &&& after.pulse2.sweep == if half {
                apu.pulse2.half_framed().sweep
            } else {
                apu.pulse2.sweep
            }
            &&& after.pulse1.length == lengthened(apu.pulse1.length, half, coming)
            &&& after.pulse2.length == lengthened(apu.pulse2.length, half, coming)
            &&& after.triangle.length == lengthened(apu.triangle.length, half, coming)
            &&& after.noise.length == lengthened(apu.noise.length, half, coming)
            &&& after.pulse1.duty == apu.pulse1.duty && after.pulse2.duty == apu.pulse2.duty
            &&& after.triangle.timer == apu.triangle.timer && after.noise.lfsr == apu.noise.lfsr && after.noise.period
                == apu.noise.period && after.noise.mode == apu.noise.mode
        }),
{
    reveal(Apu::ticked);
}

/// A length counter after a cycle: counted if the cycle beat a half frame,
/// and told whether the coming one does.
pub open spec fn lengthened(counter: LengthCounter, half: bool, coming: bool) -> LengthCounter {
    if half {
        counter.ticked().cycle_ended(coming)
    } else {
        counter.cycle_ended(coming)
    }
}

/// The status byte, bit by bit: 0 to 3 for the voices whose notes run, 4 for
/// a sample with bytes to come, 6 for the conductor's interrupt and 7 for the
/// sampler's. Bit 5 is always clear.
pub proof fn law_status_bits(apu: Apu)
    ensures
        0 <= apu.status() < 256,
        apu.status() % 2 == 1 <==> apu.pulse1.length.counter != 0,
        apu.status() / 2 % 2 == 1 <==> apu.pulse2.length.counter != 0,
        apu.status() / 4 % 2 == 1 <==> apu.triangle.length.counter != 0,
        apu.status() / 8 % 2 == 1 <==> apu.noise.length.counter != 0,
        apu.status() / 16 % 2 == 1 <==> apu.dmc.bytes_remaining != 0,
        apu.status() / 32 % 2 == 0,
        apu.status() / 64 % 2 == 1 <==> apu.frame.irq_pending,
        apu.status() / 128 == 1 <==> apu.dmc.irq_pending,
{
    reveal(Apu::status);
}

/// The chip at power-on: every voice off and silent, the noise's register
/// seeded, the sampler at its slowest, and only the first pulse wired with
/// the extra step.
pub proof fn law_chip_powers_on_silent(step: int)
    ensures
        ({
            let apu = Apu::idle();
            &&& apu.pulse1.note(step) == 0 && apu.pulse2.note(step) == 0 && apu.triangle.note(step) == 0
            &&& apu.pulse1.sweep.extra_step && !apu.pulse2.sweep.extra_step
            &&& !apu.pulse1.length.enabled && !apu.pulse2.length.enabled && !apu.triangle.length.enabled
                && !apu.noise.length.enabled
            &&& apu.noise.lfsr == 1 && apu.noise.period == 4 && !apu.noise.mode
            &&& apu.dmc.timer == 428 && apu.dmc.silence && apu.dmc.level == 0 && apu.dmc.bits_remaining == 8
            &&& apu.frame.cycle == 0 && !apu.frame.five_step && !apu.frame.irq_inhibit && !apu.frame.irq_pending
                && apu.frame.apu_cycle
            &&& apu.status() == 0
        }),
{
    reveal(Apu::status);
}

} // verus!
