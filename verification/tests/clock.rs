//! The metronome.

use graybox::clock::Clock;

#[test]
fn a_scanline_is_341_dots() {
    let mut clock = Clock::new();
    for _ in 0..341 {
        clock.tick();
    }
    assert_eq!((clock.scanline, clock.dot), (1, 0));
}

#[test]
fn a_frame_is_262_scanlines() {
    let mut clock = Clock::new();
    for _ in 0..341 * 262 {
        clock.tick();
    }
    assert_eq!((clock.frame, clock.scanline, clock.dot), (1, 0, 0));
}

#[test]
fn a_full_counter_only_matters_where_it_wraps() {
    let mut clock = Clock { dot: 7, scanline: u16::MAX, frame: u64::MAX };
    clock.tick();
    assert_eq!((clock.dot, clock.scanline, clock.frame), (8, u16::MAX, u64::MAX));
    let mut clock = Clock { dot: 340, scanline: 5, frame: u64::MAX };
    clock.tick();
    assert_eq!((clock.dot, clock.scanline, clock.frame), (0, 6, u64::MAX));
}
