//! The voices' parts, one at a time.

use graybox::apu::{samples_due, Apu};
use graybox::conductor::FrameCounter;
use graybox::dmc::Dmc;
use graybox::envelope::Envelope;
use graybox::length::{LengthCounter, LENGTH_TABLE};
use graybox::noise::Noise;
use graybox::pulse::{Pulse, Sweep, DUTY};
use graybox::timer::{high_written, low_written};
use graybox::triangle::{Triangle, TRIANGLE_STEPS};

fn running(counter: u8) -> LengthCounter {
    let mut length = LengthCounter::new();
    length.set_enabled(true);
    length.counter = counter;
    length
}

#[test]
fn two_writes_set_a_timer() {
    assert_eq!(high_written(low_written(0xFFFF, 0x34), 0xFD), 0x0534);
    assert_eq!(low_written(0x0712, 0x99), 0x0799);
    assert_eq!(high_written(0x0799, 0x08), 0x0099);
}

#[test]
fn a_note_lasts_its_length() {
    let mut length = running(3);
    for left in [2, 1, 0, 0] {
        length.tick();
        assert_eq!(length.counter, left);
    }
    assert!(!length.active());
}

#[test]
fn a_halted_note_holds() {
    let mut length = running(3);
    length.set_halt(true);
    for _ in 0..1000 {
        length.tick();
    }
    assert_eq!(length.counter, 3);
}

#[test]
fn loads_look_in_the_table() {
    let mut length = running(0);
    for (index, expected) in LENGTH_TABLE.iter().enumerate() {
        length.load((index as u8) << 3 | 0b111);
        assert_eq!(length.counter, *expected);
    }
}

#[test]
fn a_reload_on_the_clock_is_lost_unless_the_note_is_over() {
    let mut length = running(5);
    length.end_cycle(true);
    length.load(0xF8);
    assert_eq!(length.counter, 5);
    length.tick();
    assert_eq!(length.counter, 4);

    let mut length = running(0);
    length.end_cycle(true);
    length.load(0xF8);
    assert_eq!(length.counter, 30);
    length.tick();
    assert_eq!(length.counter, 30, "the clock ate a note it never saw");
    length.tick();
    assert_eq!(length.counter, 29);
}

#[test]
fn a_halt_on_the_clock_waits_for_it() {
    let mut length = running(5);
    length.end_cycle(true);
    length.set_halt(true);
    length.tick();
    assert_eq!(length.counter, 4);
    length.end_cycle(false);
    assert!(length.halt);
    length.tick();
    assert_eq!(length.counter, 4);
}

#[test]
fn a_slow_fade_divides_its_beats() {
    let mut envelope = Envelope::new();
    envelope.write(0b0000_0010);
    envelope.start = true;
    envelope.tick();
    assert_eq!(envelope.volume(), 15);
    envelope.tick();
    envelope.tick();
    assert_eq!(envelope.volume(), 15);
    envelope.tick();
    assert_eq!(envelope.volume(), 14);
}

#[test]
fn a_looping_fade_comes_round() {
    let mut envelope = Envelope::new();
    envelope.write(0b0010_0000);
    envelope.start = true;
    for beat in 0..40 {
        envelope.tick();
        assert_eq!(envelope.volume(), 15 - beat % 16);
    }
}

#[test]
fn a_finished_fade_stays_silent() {
    let mut envelope = Envelope::new();
    envelope.write(0);
    envelope.start = true;
    for _ in 0..40 {
        envelope.tick();
    }
    assert_eq!(envelope.volume(), 0);
}

#[test]
fn the_extra_step_stops_at_zero() {
    let mut sweep = Sweep::new(true);
    sweep.write(0b1000_1000); // negate, shift 0
    assert_eq!(sweep.target(100), 0);
    let mut plain = Sweep::new(false);
    plain.write(0b1000_1001);
    sweep.write(0b1000_1001);
    assert_eq!((plain.target(100), sweep.target(100)), (50, 49));
}

#[test]
fn muting_does_not_ask_whether_the_sweep_is_on() {
    let mut sweep = Sweep::new(false);
    sweep.write(0b0000_0001); // disabled, shift 1, up
    assert!(sweep.mutes(7));
    assert!(!sweep.mutes(8));
    assert!(!sweep.mutes(0x554));
    assert!(sweep.mutes(0x556));
    assert_eq!(sweep.tick(100), None);
}

#[test]
fn a_sweep_waits_for_its_divider() {
    let mut sweep = Sweep::new(false);
    sweep.write(0b1001_0001); // period 1
    assert_eq!(sweep.tick(100), Some(150));
    assert_eq!(sweep.tick(150), None);
    assert_eq!(sweep.tick(150), Some(225));
}

#[test]
fn a_pulse_sings_its_shape() {
    let mut pulse = Pulse::new(false);
    pulse.length.set_enabled(true);
    for duty in 0..4u8 {
        pulse.write_control(duty << 6 | 0b0001_0111);
        pulse.write_timer_low(100);
        pulse.write_timer_high(0);
        assert!(pulse.take_restart());
        assert!(!pulse.take_restart());
        for step in 0..16 {
            assert_eq!(pulse.sample(step), 7 * DUTY[duty as usize][step % 8]);
        }
    }
}

#[test]
fn the_staircase_goes_down_and_up() {
    for step in 0..16 {
        assert_eq!(TRIANGLE_STEPS[step], 15 - step as u8);
        assert_eq!(TRIANGLE_STEPS[31 - step], 15 - step as u8);
    }
}

#[test]
fn each_lock_alone_silences_the_triangle() {
    let mut triangle = Triangle::new();
    triangle.length.set_enabled(true);
    triangle.write_control(0x05);
    triangle.write_timer_low(50);
    triangle.write_timer_high(0);
    triangle.quarter_frame();
    assert_eq!((triangle.linear, triangle.reload_flag), (5, false));
    assert_eq!(triangle.sample(0), 15);
    triangle.length.set_enabled(false);
    assert_eq!(triangle.sample(0), 0);
    triangle.length.set_enabled(true);
    triangle.write_timer_high(0);
    triangle.linear = 0;
    assert_eq!(triangle.sample(0), 0);
    triangle.linear = 1;
    triangle.write_timer_low(1);
    assert_eq!(triangle.sample(0), 0, "far above hearing");
}

#[test]
fn the_linear_counter_counts_down() {
    let mut triangle = Triangle::new();
    triangle.write_control(0x02);
    triangle.write_timer_high(0);
    for left in [2, 1, 0, 0] {
        triangle.quarter_frame();
        assert_eq!(triangle.linear, left);
    }
}

#[test]
fn the_register_plays_every_pattern_before_it_repeats() {
    let mut noise = Noise::new();
    let mut steps = 0;
    loop {
        noise.shift();
        steps += 1;
        assert!(noise.lfsr != 0 && noise.lfsr < 0x8000);
        if noise.lfsr == 1 {
            break;
        }
    }
    assert_eq!(steps, 32_767);
}

#[test]
fn every_register_comes_round_and_the_long_way_none_sooner() {
    for seed in [1u16, 2, 0x1234, 0x7FFF] {
        for (mode, whole) in [(0x00, 32_767), (0x80, 93)] {
            let mut noise = Noise::new();
            noise.write_mode(mode);
            noise.lfsr = seed;
            let mut first = 0;
            for step in 1..=whole {
                noise.shift();
                if noise.lfsr == seed && first == 0 {
                    first = step;
                }
            }
            assert_eq!(noise.lfsr, seed);
            if mode == 0 || seed == 1 {
                assert_eq!(first, whole);
            }
        }
    }
}

#[test]
fn noise_is_gated_by_bit_zero() {
    let mut noise = Noise::new();
    noise.length.set_enabled(true);
    noise.write_control(0b0001_1001);
    noise.write_mode(0x03);
    assert_eq!(noise.period, 32);
    // No note: silent, and the register stands still.
    assert_eq!(noise.sample(5), 0);
    assert_eq!(noise.lfsr, 1);
    noise.write_length(0);
    assert_eq!(noise.sample(0), 0);
    assert_eq!(noise.sample(1), 9);
    assert_eq!(noise.lfsr, 0x4000);
}

#[test]
fn the_conductor_beats_where_the_score_says() {
    let mut frame = FrameCounter::new();
    let mut quarters = Vec::new();
    let mut halves = Vec::new();
    for cycle in 1..=29830u64 {
        let (quarter, half) = frame.tick();
        if quarter {
            quarters.push(cycle);
        }
        if half {
            halves.push(cycle);
        }
    }
    assert_eq!(quarters, [7457, 14913, 22371, 29829]);
    assert_eq!(halves, [14913, 29829]);
    assert_eq!(frame.cycle, 0);
    assert!(frame.irq_pending);
}

#[test]
fn five_steps_have_a_longer_tail_and_no_irq() {
    let mut frame = FrameCounter::new();
    assert!(frame.write(0b1000_0000));
    for _ in 0..4 {
        frame.tick();
    }
    assert_eq!(frame.cycle, 1);
    let mut last = 0;
    for cycle in 2..=37282u64 {
        if frame.tick().1 {
            last = cycle;
        }
    }
    assert_eq!(last, 37281);
    assert_eq!(frame.cycle, 0);
    assert!(!frame.irq_pending);
}

#[test]
fn the_irq_window_is_three_cycles_wide() {
    let mut frame = FrameCounter::new();
    for _ in 0..29827 {
        frame.tick();
    }
    assert!(!frame.take_irq());
    for _ in 0..3 {
        frame.tick();
        assert!(frame.take_irq());
    }
    frame.tick();
    assert!(!frame.take_irq());
}

#[test]
fn the_conductor_knows_what_comes_next() {
    let mut frame = FrameCounter::new();
    for _ in 0..29830 * 2 {
        let expected = frame.clocks_length_next();
        assert_eq!(frame.tick().1, expected);
    }
}

#[test]
fn a_write_between_two_cycles_waits_four() {
    let mut frame = FrameCounter::new();
    frame.tick();
    assert!(!frame.apu_cycle);
    frame.write(0);
    assert_eq!(frame.pending_reset, Some(4));
    for _ in 0..5 {
        frame.tick();
    }
    assert_eq!((frame.cycle, frame.pending_reset), (1, None));
}

#[test]
fn a_level_near_either_end_stays_there() {
    let mut dmc = Dmc::new();
    dmc.silence = false;
    dmc.timer_value = 0;
    dmc.level = 0x7E;
    dmc.shift = 1;
    dmc.tick();
    assert_eq!(dmc.level, 0x7E);
    dmc.timer_value = 0;
    dmc.level = 1;
    dmc.shift = 0;
    dmc.tick();
    assert_eq!(dmc.level, 1);
    dmc.timer_value = 0;
    dmc.level = 2;
    dmc.tick();
    assert_eq!(dmc.level, 0);
}

#[test]
fn a_silent_sampler_holds_its_level() {
    let mut dmc = Dmc::new();
    dmc.write_level(0xC5);
    for _ in 0..10_000 {
        dmc.tick();
    }
    assert_eq!(dmc.level, 0x45);
}

#[test]
fn a_sample_loops_or_ends() {
    let mut dmc = Dmc::new();
    dmc.write_control(0b1000_0000);
    dmc.write_address(1);
    dmc.write_length(1);
    dmc.set_enabled(true, true);
    assert_eq!((dmc.current_address, dmc.bytes_remaining, dmc.start_delay), (0xC040, 17, 3));
    for byte in 0..17 {
        assert!(!dmc.irq_pending);
        dmc.supply(byte);
    }
    assert_eq!((dmc.bytes_remaining, dmc.irq_pending), (0, true));
    dmc.write_control(0b0100_0000);
    assert!(!dmc.irq_pending, "switching the interrupt off drops it");
    dmc.set_enabled(true, false);
    for byte in 0..17 {
        dmc.supply(byte);
    }
    assert_eq!((dmc.current_address, dmc.bytes_remaining, dmc.irq_pending), (0xC040, 17, false));
}

#[test]
fn the_reader_wraps_to_the_bottom_of_rom() {
    let mut dmc = Dmc::new();
    dmc.set_enabled(true, true);
    dmc.current_address = 0xFFFF;
    dmc.bytes_remaining = 2;
    dmc.supply(1);
    assert_eq!(dmc.current_address, 0x8000);
}

#[test]
fn status_reports_every_voice() {
    let mut apu = Apu::new();
    apu.write(0x4015, 0b1_1111);
    for address in [0x4003, 0x4007, 0x400B, 0x400F] {
        apu.write(address, 0);
    }
    assert_eq!(apu.read_status(), 0b1_1111);
    apu.frame.irq_pending = true;
    apu.dmc.irq_pending = true;
    assert!(apu.irq_pending());
    assert_eq!(apu.read_status(), 0b1101_1111);
    assert_eq!(apu.read_status(), 0b1001_1111);
    apu.write(0x4015, 0);
    assert_eq!(apu.read_status(), 0);
    assert!(!apu.irq_pending());
}

#[test]
fn unlisted_registers_hear_nothing() {
    let mut apu = Apu::new();
    apu.write(0x4009, 0xFF);
    apu.write(0x400D, 0xFF);
    apu.write(0x4014, 0xFF);
    assert_eq!(apu.read_status(), 0);
    assert_eq!(apu.triangle.linear_reload, 0);
}

#[test]
fn a_frame_owes_a_sixtieth_of_a_second() {
    assert_eq!(samples_due(0, 44_100), 735);
    assert_eq!(samples_due(2939, 44_100), 735);
    assert_eq!(samples_due(2940, 44_100), 0);
    assert_eq!(samples_due(0, 0), 0);
}

#[test]
fn a_due_reset_needs_no_room_for_the_count() {
    let mut frame = FrameCounter::new();
    frame.cycle = u64::MAX;
    frame.pending_reset = Some(0);
    assert!(!frame.clocks_length_next());
    assert_eq!(frame.tick(), (false, false));
    assert_eq!((frame.cycle, frame.pending_reset), (1, None));
}
