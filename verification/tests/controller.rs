//! The pad.

use graybox::controller::Controller;

/// A controller holding `buttons`, strobed the way games do it:
/// stare, then freeze.
fn frozen(buttons: u8) -> Controller {
    let mut controller = Controller::new();
    controller.buttons = buttons;
    controller.write(1);
    controller.write(0);
    controller
}

#[test]
fn buttons_come_out_one_bit_at_a_time_a_first() {
    // Start is bit 3, Right is bit 7.
    let mut controller = frozen(0b1000_1000);
    let bits: Vec<u8> = (0..8).map(|_| controller.read()).collect();
    assert_eq!(bits, [0, 0, 0, 1, 0, 0, 0, 1]);
}

#[test]
fn past_the_eighth_button_a_real_pad_answers_one() {
    let mut controller = frozen(0);
    for _ in 0..8 {
        controller.read();
    }
    assert_eq!(controller.read(), 1);
    assert_eq!(controller.read(), 1);
}

#[test]
fn the_snapshot_freezes_when_the_strobe_drops() {
    let mut controller = frozen(0b0000_0001);
    // Released after the freeze: too late, the read still says A.
    controller.buttons = 0;
    assert_eq!(controller.read(), 1);
}

#[test]
fn while_the_strobe_is_high_every_read_reports_a() {
    let mut controller = Controller::new();
    controller.buttons = 0b0000_0001;
    controller.write(1);
    assert_eq!(controller.read(), 1);
    // Still A. Staring is not stepping.
    assert_eq!(controller.read(), 1);
}

#[test]
fn a_fresh_strobe_rewinds_to_the_first_button() {
    let mut controller = frozen(0b0000_0010);
    controller.read();
    controller.read();
    controller.write(1);
    controller.write(0);
    assert_eq!(controller.read(), 0); // A again...
    assert_eq!(controller.read(), 1); // ...then B.
}
