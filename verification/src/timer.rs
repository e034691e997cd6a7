//! The eleven-bit timers that set a voice's pitch, written a byte and a
//! half at a time.

use vstd::prelude::*;

verus! {

/// A timer with another low byte: of the rest, three bits survive.
pub open spec fn with_low(timer: u16, value: u16) -> u16 {
    (timer / 256 % 8 * 256 + value) as u16
}

/// A timer with other top bits: its low byte, under the low three bits of
/// what was written.
pub open spec fn with_high(timer: u16, value: u16) -> u16 {
    (timer % 256 + value % 8 * 256) as u16
}

proof fn lemma_timer_bits(timer: u16, value: u16)
    by (bit_vector)
    requires
        value < 256,
    ensures
        (timer & 0x0700) | value == with_low(timer, value),
        (timer & 0x00FF) | ((value & 0x07) << 8) == with_high(timer, value),
        with_low(timer, value) <= 0x7FF,
        with_high(timer, value) <= 0x7FF,
{
}

/// A write to a timer's low register.
pub fn low_written(timer: u16, value: u8) -> (written: u16)
    ensures
        written == with_low(timer, value as u16),
        written <= 0x7FF,
{
    proof {
        lemma_timer_bits(timer, value as u16);
    }
    (timer & 0x0700) | value as u16
}

/// A write to a timer's high register.
pub fn high_written(timer: u16, value: u8) -> (written: u16)
    ensures
        written == with_high(timer, value as u16),
        written <= 0x7FF,
{
    proof {
        lemma_timer_bits(timer, value as u16);
    }
    (timer & 0x00FF) | (((value & 0x07) as u16) << 8)
}

/// Two writes, low register first, set the whole timer: eleven bits of
/// whatever was asked, and nothing of what stood there before.
pub proof fn law_two_writes_set_the_timer(before: u16, wanted: u16)
    ensures
        with_high(with_low(before, wanted % 256), wanted / 256) == wanted % 0x800,
{
    assert(with_low(before, wanted % 256) % 256 == wanted % 256);
}

/// Each write sets its own bits and leaves the others: the low register the
/// low eight, the high register the three above them.
pub proof fn law_each_write_sets_its_bits(timer: u16, value: u16)
    requires
        value < 256,
    ensures
        with_low(timer, value) % 256 == value,
        with_low(timer, value) / 256 == timer / 256 % 8,
        with_high(timer, value) % 256 == timer % 256,
        with_high(timer, value) / 256 == value % 8,
{
}

} // verus!
