//! The sound chip.

use graybox::apu::Apu;
use graybox::envelope::Envelope;
use graybox::noise::Noise;
use graybox::pulse::{Pulse, Sweep};
use graybox::triangle::Triangle;

/// The processor's clock in hertz: pitch is measured in its cycles.
const CPU_HZ: f32 = 1_789_773.0;

/// Where a voice is in its cycle, as a fraction of it, and the shifts owed to
/// a register.
struct Walk {
    phase: f32,
}

impl Walk {
    fn new() -> Walk {
        Walk { phase: 0.0 }
    }

    /// Sing one sample of a pulse.
    fn pulse(&mut self, pulse: &mut Pulse, sample_rate: f32) -> u8 {
        if pulse.take_restart() {
            self.phase = 0.0;
        }
        if !pulse.sings() {
            return 0;
        }
        let step = (self.phase * 8.0) as usize & 7;
        let frequency = CPU_HZ / (16.0 * (pulse.timer as f32 + 1.0));
        self.phase = (self.phase + frequency / sample_rate).fract();
        pulse.sample(step)
    }

    /// Sing one sample of a triangle.
    fn triangle(&mut self, triangle: &Triangle, sample_rate: f32) -> u8 {
        if !triangle.sings() {
            return 0;
        }
        let step = (self.phase * 32.0) as usize & 31;
        let frequency = CPU_HZ / (32.0 * (triangle.timer as f32 + 1.0));
        self.phase = (self.phase + frequency / sample_rate).fract();
        triangle.sample(step)
    }

    /// Sing one sample of noise.
    fn noise(&mut self, noise: &mut Noise, sample_rate: f32) -> u8 {
        if !noise.sings() {
            return 0;
        }
        self.phase += CPU_HZ / noise.period as f32 / sample_rate;
        let shifts = self.phase as u32;
        self.phase -= shifts as f32;
        noise.sample(shifts)
    }
}

/// The four walking voices together.
struct Band {
    pulse1: Walk,
    pulse2: Walk,
    triangle: Walk,
    noise: Walk,
}

impl Band {
    fn new() -> Band {
        Band { pulse1: Walk::new(), pulse2: Walk::new(), triangle: Walk::new(), noise: Walk::new() }
    }

    /// One sample of the chip, mixed.
    fn sample(&mut self, apu: &mut Apu, sample_rate: f32) -> f32 {
        let pulse1 = self.pulse1.pulse(&mut apu.pulse1, sample_rate);
        let pulse2 = self.pulse2.pulse(&mut apu.pulse2, sample_rate);
        let triangle = self.triangle.triangle(&apu.triangle, sample_rate);
        let noise = self.noise.noise(&mut apu.noise, sample_rate);
        mix(pulse1, pulse2, triangle, noise, apu.dmc.level)
    }
}

/// The chip's two mixing curves.
fn mix(pulse1: u8, pulse2: u8, triangle: u8, noise: u8, dmc: u8) -> f32 {
    let pulses = (pulse1 + pulse2) as f32;
    let pulse_out = if pulses == 0.0 { 0.0 } else { 95.88 / (8128.0 / pulses + 100.0) };
    let tnd = triangle as f32 / 8227.0 + noise as f32 / 12241.0 + dmc as f32 / 22638.0;
    let tnd_out = if tnd == 0.0 { 0.0 } else { 159.79 / (1.0 / tnd + 100.0) };
    pulse_out + tnd_out
}

/// A pulse mid-note, built the way the bus would build it. The
/// note-on only lands if the channel is enabled first: the same
/// order every real program follows.
fn singing(control: u8, timer: u16) -> Pulse {
    let mut pulse = Pulse::new(true);
    pulse.length.set_enabled(true);
    pulse.write_control(control);
    pulse.write_timer_low(timer as u8);
    pulse.write_timer_high((timer >> 8) as u8);
    pulse
}

/// Count how many times a second of output rises from silence -
/// which is the frequency, measured the way a tuner measures it.
fn risings_per_second(pulse: &mut Pulse) -> usize {
    let mut walk = Walk::new();
    let mut count = 0;
    let mut previous = 0;
    for _ in 0..44_100 {
        let sample = walk.pulse(pulse, 44_100.0);
        if previous == 0 && sample > 0 {
            count += 1;
        }
        previous = sample;
    }
    count
}

#[test]
fn a_timer_of_253_sings_the_tuning_a() {
    // 1,789,773 / (16 x 254) = 440.4 Hz: the A orchestras tune to.
    let mut pulse = singing(0b0111_1111, 253);
    let risings = risings_per_second(&mut pulse);
    assert!((438..=442).contains(&risings), "sang {risings} Hz");
}

#[test]
fn volume_zero_and_tiny_timers_are_silence() {
    let mut muted = singing(0b0111_0000, 253); // volume 0
    let mut shrill = singing(0b0111_1111, 7); // timer under 8
    let (mut one, mut two) = (Walk::new(), Walk::new());
    for _ in 0..1000 {
        assert_eq!(one.pulse(&mut muted, 44_100.0), 0);
        assert_eq!(two.pulse(&mut shrill, 44_100.0), 0);
    }
}

#[test]
fn the_switchboard_silences_a_disabled_voice() {
    let mut apu = Apu::new();
    apu.write(0x4000, 0b0111_1111);
    apu.write(0x4002, 253);
    apu.write(0x4015, 0b0000_0010); // pulse 2 on: pulse 1 OFF
    let mut band = Band::new();
    for _ in 0..1000 {
        assert_eq!(band.sample(&mut apu, 44_100.0), 0.0);
    }
}
#[test]
fn the_fat_square_is_up_half_the_time() {
    // Bit 4 asks for constant volume.
    let mut pulse = singing(0b1001_1111, 253);
    let mut walk = Walk::new();
    let loud = (0..44_100).filter(|_| walk.pulse(&mut pulse, 44_100.0) > 0).count();
    let ratio = loud as f32 / 44_100.0;
    assert!((0.45..=0.55).contains(&ratio), "up {ratio} of the time");
}

/// Tick the whole chip for a stretch of CPU cycles.
fn run(apu: &mut Apu, cycles: u64) {
    for _ in 0..cycles {
        apu.tick();
    }
}

#[test]
fn the_conductor_beats_four_times_a_sequence() {
    let mut apu = Apu::new();
    apu.write(0x4015, 0b0001);
    apu.write(0x4000, 0b0001_1111); // halt off, constant volume
    apu.write(0x4003, 0); // length index 0: ten half-frames

    // Ten half-frames arrive over five sequences of the 4-step
    // beat. One cycle short of the fifth sequence's last clock,
    // the note still sounds; one cycle later it is cut.
    run(&mut apu, 4 * 29830 + 29828);
    assert_ne!(apu.read_status() & 0b0001, 0, "cut too early");
    run(&mut apu, 1);
    assert_eq!(apu.read_status() & 0b0001, 0, "still on at ten");
}

#[test]
fn the_halt_flag_holds_a_note_forever() {
    let mut apu = Apu::new();
    apu.write(0x4015, 0b0001);
    apu.write(0x4000, 0b0011_1111); // bit 5: halt ON
    apu.write(0x4003, 0);

    run(&mut apu, 29830 * 20);
    assert_ne!(apu.read_status() & 0b0001, 0, "halted note ended");
}

#[test]
fn disabling_a_channel_cuts_its_note_now() {
    let mut apu = Apu::new();
    apu.write(0x4015, 0b0001);
    apu.write(0x4003, 0);
    assert_ne!(apu.read_status() & 0b0001, 0);

    apu.write(0x4015, 0);
    assert_eq!(apu.read_status() & 0b0001, 0, "disable must silence");

    // And a note-on while disabled must not stick.
    apu.write(0x4003, 0);
    assert_eq!(apu.read_status() & 0b0001, 0, "loaded while disabled");
}

#[test]
fn the_envelope_decays_and_the_constant_bit_bypasses_it() {
    let mut envelope = Envelope::new();
    envelope.write(0b0000_0000); // decay mode, fastest rate
    envelope.start = true;
    envelope.tick();
    assert_eq!(envelope.volume(), 15, "decay starts from the top");
    for _ in 0..15 {
        envelope.tick();
    }
    assert_eq!(envelope.volume(), 0, "and walks to silence");

    envelope.write(0b0001_0101); // constant volume 5
    assert_eq!(envelope.volume(), 5, "constant mode reads the period");
}

#[test]
fn the_sweep_bends_and_its_mute_rule_never_sleeps() {
    let mut pulse = singing(0b0011_1111, 100);

    // Sweep up, shift 2: 100 + 25 = 125 at the first half-frame.
    pulse.sweep.write(0b1000_0010);
    pulse.half_frame();
    assert_eq!(pulse.timer, 125, "the bend moved the pitch");

    // A target past $7FF mutes the voice even between beats:
    // $700 + ($700 >> 2) overflows the eleven bits.
    pulse.timer = 0x700;
    assert!(pulse.sweep.mutes(pulse.timer));
    assert_eq!(Walk::new().pulse(&mut pulse, 44_100.0), 0);
}

#[test]
fn pulse_one_negates_one_deeper_than_pulse_two() {
    let mut one = Sweep::new(true);
    let mut two = Sweep::new(false);
    one.write(0b1000_1010); // negate, shift 2
    two.write(0b1000_1010);
    assert_eq!(one.target(100), 74, "ones' complement: 100 - 25 - 1");
    assert_eq!(two.target(100), 75, "two's complement: 100 - 25");
}

#[test]
fn the_triangle_needs_both_locks_open() {
    let mut apu = Apu::new();
    apu.write(0x4015, 0b0100);
    apu.write(0x4008, 0x81); // hold bit + linear reload 1
    apu.write(0x400A, 70); // the 788 Hz lead from Lan Master
    apu.write(0x400B, 0); // note-on

    let mut walk = Walk::new();

    // Before any quarter-frame the linear counter is still zero:
    // the length lock is open, the linear lock is not.
    assert_eq!(walk.triangle(&apu.triangle, 44_100.0), 0, "linear lock closed");
    run(&mut apu, 7457); // the first quarter-frame beat
    let mut sang = false;
    for _ in 0..100 {
        sang |= walk.triangle(&apu.triangle, 44_100.0) > 0;
    }
    assert!(sang, "both locks open, still silent");

    // A note-off the FamiTone way: reload value zero.
    apu.write(0x4008, 0x80);
    run(&mut apu, 29830);
    assert_eq!(walk.triangle(&apu.triangle, 44_100.0), 0, "note-off ignored");
}

#[test]
fn the_triangle_walks_all_thirty_two_steps() {
    let mut apu = Apu::new();
    apu.write(0x4015, 0b0100);
    apu.write(0x4008, 0xFF);
    apu.write(0x400A, 70);
    apu.write(0x400B, 0);
    run(&mut apu, 7457);

    let mut walk = Walk::new();
    let mut seen = [false; 16];
    for _ in 0..1000 {
        seen[walk.triangle(&apu.triangle, 44_100.0) as usize] = true;
    }
    assert!(seen.iter().all(|s| *s), "some staircase level missing");
}

#[test]
fn the_noise_register_ticks_like_the_hardware() {
    let mut noise = Noise::new();
    // Mode 1 turns the register into a 93-step loop; walk one
    // full loop and land back at the seed.
    noise.mode = true;
    let seed = noise.lfsr;
    for _ in 0..93 {
        noise.shift();
    }
    assert_eq!(noise.lfsr, seed, "mode 1 is a 93-step pattern");

    // Mode 0 must NOT close after 93: its period is 32,767.
    noise.mode = false;
    noise.lfsr = 1;
    for _ in 0..93 {
        noise.shift();
    }
    assert_ne!(noise.lfsr, 1, "mode 0 closed far too soon");
}

#[test]
fn reading_status_clears_the_conductors_irq() {
    let mut apu = Apu::new();
    run(&mut apu, 29830);
    let first = apu.read_status();
    assert_ne!(first & 0b0100_0000, 0, "the sequence's end raises it");
    let second = apu.read_status();
    assert_eq!(second & 0b0100_0000, 0, "and reading clears it");
}

#[test]
fn the_inhibit_bit_silences_the_conductor() {
    let mut apu = Apu::new();
    apu.write(0x4017, 0b0100_0000);
    run(&mut apu, 29830 * 3);
    assert_eq!(apu.read_status() & 0b0100_0000, 0, "inhibited IRQ fired");
}

#[test]
fn a_4017_write_restarts_the_sequence_a_moment_later() {
    let mut apu = Apu::new();
    // Get near the first beat, then restart: the sequence starts
    // over: three cycles late, because the write landed on an
    // APU cycle (four, had it landed between two).
    run(&mut apu, 7000);
    apu.write(0x4017, 0);
    run(&mut apu, 1000);
    assert_eq!(apu.frame.cycle, 997, "restart was not deferred by 3");
}

#[test]
fn the_five_step_bit_clocks_everything_immediately() {
    let mut apu = Apu::new();
    apu.write(0x4015, 0b0001);
    apu.write(0x4000, 0b0001_1111); // halt off
    apu.write(0x4003, 0b1111_1000); // length index 31: thirty

    // No conductor beat has happened: but the 5-step bit brings
    // its own: one write, and thirty is already twenty-nine.
    apu.write(0x4017, 0b1000_0000);
    assert_eq!(apu.pulse1.length.counter, 29, "no immediate clock");
}
#[test]
fn the_sampler_asks_the_moment_its_buffer_is_empty() {
    let mut apu = Apu::new();
    apu.write(0x4012, 2); // sample at $C000 + 2 x 64
    apu.write(0x4013, 1); // 17 bytes
    apu.write(0x4015, 0b1_0000);

    // The request surfaces a couple of cycles later: parity
    // manners: and names the sample's first address.
    assert_eq!(apu.dmc_fetch(), None, "asked before the delay ran out");
    run(&mut apu, 3);
    assert_eq!(apu.dmc_fetch(), Some(0xC080));
}

#[test]
fn each_bit_nudges_the_level_by_two() {
    let mut apu = Apu::new();
    apu.write(0x4012, 0);
    apu.write(0x4013, 0); // "zero" still means one byte
    apu.write(0x4015, 0b1_0000);
    run(&mut apu, 3);
    apu.dmc_fetch();
    apu.dmc_supply(0b1111_1111); // eight steps up

    // The output unit must first shift out the eight silent bits
    // it woke up with; only then does the byte load and nudge the
    // level up 2 x 8 = 16 over the next eight periods.
    run(&mut apu, 428 * 18);
    assert_eq!(apu.dmc.level, 16);
}

#[test]
fn the_level_never_leaves_its_seven_bits() {
    let mut apu = Apu::new();
    apu.write(0x4011, 0x7E); // near the top
    apu.write(0x4012, 0);
    apu.write(0x4013, 0);
    apu.write(0x4015, 0b1_0000);
    run(&mut apu, 3);
    apu.dmc_fetch();
    apu.dmc_supply(0xFF); // eight more ups
    run(&mut apu, 428 * 18);
    assert!(apu.dmc.level <= 0x7F, "the DAC is seven bits wide");
}

#[test]
fn a_finished_sample_raises_the_irq_and_4015_reports_it() {
    let mut apu = Apu::new();
    apu.write(0x4010, 0b1000_0000); // IRQ on, no loop
    apu.write(0x4012, 0);
    apu.write(0x4013, 0); // one byte
    apu.write(0x4015, 0b1_0000);
    run(&mut apu, 3);
    let address = apu.dmc_fetch().unwrap();
    apu.dmc_supply(0x00);
    assert_eq!(address, 0xC000);
    assert_ne!(apu.read_status() & 0b1000_0000, 0, "the sample ended");

    // Writing $4015 clears the sampler's IRQ: that is the
    // acknowledgement games use.
    apu.write(0x4015, 0);
    assert_eq!(apu.read_status() & 0b1000_0000, 0);
}

#[test]
fn a_byte_for_a_cancelled_sample_changes_nothing() {
    let mut apu = Apu::new();
    apu.write(0x4012, 0);
    apu.write(0x4013, 1);
    apu.write(0x4015, 0b1_0000);
    run(&mut apu, 3);
    apu.dmc_fetch();

    // The game calls the sample off while the DMA is in flight.
    apu.write(0x4015, 0);
    apu.dmc_supply(0xAA);

    // The late byte must not resurrect it: a $4015 read that
    // says "still playing" here would say it forever.
    assert_eq!(apu.read_status() & 0b1_0000, 0, "a ghost sample plays on");
}

