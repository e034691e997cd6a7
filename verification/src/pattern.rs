//! How long the noise register's patterns are: 32,767 shifts in its long
//! mode, whatever it holds, and 93 in its short one.

use vstd::prelude::*;

use crate::noise;
use crate::noise::{shifted, shifted_times};

verus! {

/// `count` shifts at once, as long as the bits that come back in all come
/// from the register as it stands: each is a bit combined with the one `tap`
/// places above it, and `mask` picks the lowest `count` of them.
spec fn leap(lfsr: u16, tap: u16, count: u16, mask: u16) -> u16 {
    (lfsr >> count) | (((lfsr ^ (lfsr >> tap)) & mask) << ((15 - count) as u16))
}

/// A number if a bit of a pick is set.
spec fn picked(pick: u16, bit: u16, value: u16) -> u16 {
    if pick & bit != 0 {
        value
    } else {
        0
    }
}

/// A combination of one, two, four and eight shifts of the long mode, as the
/// bits of `pick` say. Every power of two of shifts is one of them.
spec fn long_mix(lfsr: u16, pick: u16) -> u16 {
    picked(pick, 1, leap(lfsr, 1, 1, 0x0001)) ^ picked(pick, 2, leap(lfsr, 1, 2, 0x0003)) ^ picked(
        pick,
        4,
        leap(lfsr, 1, 4, 0x000F),
    ) ^ picked(pick, 8, leap(lfsr, 1, 8, 0x00FF))
}

/// The pick for twice as many shifts. Sixteen are two and one combined.
spec fn twice(pick: u16) -> u16 {
    if pick < 8 {
        (2 * pick) as u16
    } else {
        ((2 * pick) as u16) ^ 0b10011
    }
}

/// The pick for two to the `k` shifts.
spec fn pick_for(k: nat) -> u16
    decreases k,
{
    if k == 0 {
        1
    } else {
        twice(pick_for((k - 1) as nat))
    }
}

/// Two to the `k`.
spec fn power(k: nat) -> nat
    decreases k,
{
    if k == 0 {
        1
    } else {
        2 * power((k - 1) as nat)
    }
}

/// A combination of no, three, six, nine and twelve shifts of the short
/// mode.
spec fn short_mix(lfsr: u16, pick: u16) -> u16 {
    picked(pick, 1, lfsr) ^ picked(pick, 2, leap(lfsr, 6, 3, 0x0007)) ^ picked(
        pick,
        4,
        leap(lfsr, 6, 6, 0x003F),
    ) ^ picked(pick, 8, leap(lfsr, 6, 9, 0x01FF)) ^ picked(
        pick,
        16,
        leap(leap(lfsr, 6, 6, 0x003F), 6, 6, 0x003F),
    )
}

/// The combination for three times two to the `k` shifts of the short mode.
spec fn short_pick(k: nat) -> u16 {
    if k == 1 {
        4
    } else if k == 2 {
        16
    } else if k == 3 {
        13
    } else if k == 4 {
        27
    } else {
        2
    }
}

/// A combination made twice is the combination for twice as many shifts.
proof fn lemma_twice(lfsr: u16, pick: u16)
    by (bit_vector)
    requires
        lfsr < 0x8000,
        0 < pick < 16,
    ensures
        long_mix(lfsr, 1) == shifted(lfsr, false),
        long_mix(long_mix(lfsr, pick), pick) == long_mix(lfsr, twice(pick)),
        long_mix(lfsr, pick) < 0x8000,
        0 < twice(pick) < 16,
{
}

/// The short mode's combinations, from three shifts to ninety-six, which are
/// three again.
proof fn lemma_short_doublings(lfsr: u16)
    by (bit_vector)
    requires
        lfsr < 0x8000,
    ensures
        short_mix(lfsr, 2) == shifted(shifted(shifted(lfsr, true), true), true),
        short_mix(lfsr, 4) == short_mix(short_mix(lfsr, 2), 2),
        short_mix(lfsr, 16) == short_mix(short_mix(lfsr, 4), 4),
        short_mix(lfsr, 13) == short_mix(short_mix(lfsr, 16), 16),
        short_mix(lfsr, 27) == short_mix(short_mix(lfsr, 13), 13),
        short_mix(lfsr, 2) == short_mix(short_mix(lfsr, 27), 27),
        short_mix(lfsr, 2) < 0x8000,
        short_mix(lfsr, 4) < 0x8000,
        short_mix(lfsr, 16) < 0x8000,
        short_mix(lfsr, 13) < 0x8000,
        short_mix(lfsr, 27) < 0x8000,
{
}

/// The seed after thirty-one shifts of the short mode, and after three.
proof fn lemma_short_seed()
    by (bit_vector)
    ensures
        shifted(short_mix(short_mix(1, 13), 4), true) != 1,
        short_mix(1, 2) != 1,
{
}

/// No register but the empty one is itself again after 217, 1057 or 4681
/// shifts of the long mode, taken in powers of two.
proof fn lemma_not_217(v: u16, v128: u16, v192: u16, v208: u16, v216: u16)
    by (bit_vector)
    requires
        0 < v < 0x8000,
        v128 == long_mix(v, 11),
        v192 == long_mix(v128, 12),
        v208 == long_mix(v192, 3),
        v216 == long_mix(v208, 8),
    ensures
        long_mix(v216, 1) != v,
{
}

proof fn lemma_not_1057(v: u16, v1024: u16, v1056: u16)
    by (bit_vector)
    requires
        0 < v < 0x8000,
        v1024 == long_mix(v, 7),
        v1056 == long_mix(v1024, 6),
    ensures
        long_mix(v1056, 1) != v,
{
}

proof fn lemma_not_4681(v: u16, v4096: u16, v4608: u16, v4672: u16, v4680: u16)
    by (bit_vector)
    requires
        0 < v < 0x8000,
        v4096 == long_mix(v, 15),
        v4608 == long_mix(v4096, 10),
        v4672 == long_mix(v4608, 12),
        v4680 == long_mix(v4672, 8),
    ensures
        long_mix(v4680, 1) != v,
{
}

/// 32,767 is 7 * 31 * 151: whatever divides it, and is smaller, divides what
/// it leaves without one of them.
proof fn lemma_divisors(count: u32, rounds: u32)
    by (bit_vector)
    requires
        0 < count < 32767,
        rounds < 32768,
        count * rounds == 32767,
    ensures
        4681u32 % count == 0 || 1057u32 % count == 0 || 217u32 % count == 0,
{
}

/// The picks, one power of two after the other.
proof fn lemma_twice_of_each()
    by (bit_vector)
    ensures
        twice(1) == 2,
        twice(2) == 4,
        twice(4) == 8,
        twice(8) == 3,
        twice(3) == 6,
        twice(6) == 12,
        twice(12) == 11,
        twice(11) == 5,
        twice(5) == 10,
        twice(10) == 7,
        twice(7) == 14,
        twice(14) == 15,
        twice(15) == 13,
        twice(13) == 9,
        twice(9) == 1,
{
}

/// The picks that the proofs below use, with the shifts they stand for.
proof fn lemma_picks()
    ensures
        power(0) == 1 && pick_for(0) == 1,
        power(3) == 8 && pick_for(3) == 8,
        power(4) == 16 && pick_for(4) == 3,
        power(5) == 32 && pick_for(5) == 6,
        power(6) == 64 && pick_for(6) == 12,
        power(7) == 128 && pick_for(7) == 11,
        power(9) == 512 && pick_for(9) == 10,
        power(10) == 1024 && pick_for(10) == 7,
        power(12) == 4096 && pick_for(12) == 15,
        power(15) == 32768 && pick_for(15) == 1,
{
    lemma_twice_of_each();
    reveal_with_fuel(pick_for, 16);
    reveal_with_fuel(power, 16);
}

/// Shifts after shifts are shifts.
proof fn lemma_join(lfsr: u16, mode: bool, first: nat, second: nat)
    ensures
        shifted_times(lfsr, mode, first + second) == shifted_times(
            shifted_times(lfsr, mode, first),
            mode,
            second,
        ),
    decreases second,
{
    if second > 0 {
        lemma_join(lfsr, mode, first, (second - 1) as nat);
    }
}

/// A power of two of shifts is its combination.
proof fn lemma_power(lfsr: u16, k: nat)
    requires
        lfsr < 0x8000,
    ensures
        0 < pick_for(k) < 16,
        shifted_times(lfsr, false, power(k)) == long_mix(lfsr, pick_for(k)),
        long_mix(lfsr, pick_for(k)) < 0x8000,
    decreases k,
{
    if k == 0 {
        lemma_twice(lfsr, 1);
        reveal_with_fuel(shifted_times, 2);
    } else {
        let half = (k - 1) as nat;
        lemma_power(lfsr, half);
        let middle = long_mix(lfsr, pick_for(half));
        lemma_power(middle, half);
        lemma_join(lfsr, false, power(half), power(half));
        lemma_twice(lfsr, pick_for(half));
        lemma_twice(lfsr, pick_for(k));
    }
}

/// A register that is itself again after some shifts is, after more, what the
/// remainder makes of it.
proof fn lemma_rounds(lfsr: u16, mode: bool, count: nat, times: nat)
    requires
        count > 0,
        shifted_times(lfsr, mode, count) == lfsr,
    ensures
        shifted_times(lfsr, mode, times) == shifted_times(lfsr, mode, times % count),
    decreases times,
{
    if times >= count {
        let less = (times - count) as nat;
        lemma_join(lfsr, mode, count, less);
        lemma_rounds(lfsr, mode, count, less);
        vstd::arithmetic::div_mod::lemma_mod_sub_multiples_vanish(times as int, count as int);
    } else {
        vstd::arithmetic::div_mod::lemma_small_mod(times, count);
    }
}

/// A count after which a register is itself again, and that is no longer than
/// another such count, leaves a smaller one, unless it divides the other.
/// Here it leaves, in the end, one that divides it.
proof fn lemma_divisor(lfsr: u16, mode: bool, whole: nat, count: nat) -> (divisor: nat)
    requires
        0 < count < whole,
        shifted_times(lfsr, mode, whole) == lfsr,
        shifted_times(lfsr, mode, count) == lfsr,
    ensures
        0 < divisor < whole,
        whole % divisor == 0,
        shifted_times(lfsr, mode, divisor) == lfsr,
    decreases count,
{
    let rest = whole % count;
    if rest == 0 {
        count
    } else {
        lemma_rounds(lfsr, mode, count, whole);
        vstd::arithmetic::div_mod::lemma_mod_bound(whole as int, count as int);
        lemma_divisor(lfsr, mode, whole, rest)
    }
}

/// 217, 1057 and 4681 shifts of the long mode change every register but the
/// empty one.
proof fn lemma_long_parts(lfsr: u16)
    requires
        0 < lfsr < 0x8000,
    ensures
        shifted_times(lfsr, false, 217) != lfsr,
        shifted_times(lfsr, false, 1057) != lfsr,
        shifted_times(lfsr, false, 4681) != lfsr,
{
    lemma_picks();
    let v128 = long_mix(lfsr, 11);
    let v192 = long_mix(v128, 12);
    let v208 = long_mix(v192, 3);
    let v216 = long_mix(v208, 8);
    lemma_power(lfsr, 7);
    lemma_power(v128, 6);
    lemma_power(v192, 4);
    lemma_power(v208, 3);
    lemma_power(v216, 0);
    lemma_join(lfsr, false, 128, 64);
    lemma_join(lfsr, false, 192, 16);
    lemma_join(lfsr, false, 208, 8);
    lemma_join(lfsr, false, 216, 1);
    lemma_not_217(lfsr, v128, v192, v208, v216);
    let v1024 = long_mix(lfsr, 7);
    let v1056 = long_mix(v1024, 6);
    lemma_power(lfsr, 10);
    lemma_power(v1024, 5);
    lemma_power(v1056, 0);
    lemma_join(lfsr, false, 1024, 32);
    lemma_join(lfsr, false, 1056, 1);
    lemma_not_1057(lfsr, v1024, v1056);
    let v4096 = long_mix(lfsr, 15);
    let v4608 = long_mix(v4096, 10);
    let v4672 = long_mix(v4608, 12);
    let v4680 = long_mix(v4672, 8);
    lemma_power(lfsr, 12);
    lemma_power(v4096, 9);
    lemma_power(v4608, 6);
    lemma_power(v4672, 3);
    lemma_power(v4680, 0);
    lemma_join(lfsr, false, 4096, 512);
    lemma_join(lfsr, false, 4608, 64);
    lemma_join(lfsr, false, 4672, 8);
    lemma_join(lfsr, false, 4680, 1);
    lemma_not_4681(lfsr, v4096, v4608, v4672, v4680);
}

/// The long mode's pattern is 32,767 shifts long, whatever the register
/// holds: after so many it is itself again, and after no smaller number.
pub proof fn law_long_pattern(lfsr: u16, times: nat)
    requires
        0 < lfsr < 0x8000,
    ensures
        shifted_times(lfsr, false, 32767) == lfsr,
        0 < times < 32767 ==> shifted_times(lfsr, false, times) != lfsr,
{
    lemma_picks();
    lemma_power(lfsr, 15);
    lemma_twice(lfsr, 1);
    let last = shifted_times(lfsr, false, 32767);
    assert(shifted_times(lfsr, false, 32768) == shifted(last, false));
    noise::law_register_never_dies(lfsr, false, 32767);
    noise::law_shift_loses_nothing(last, lfsr, false);
    if 0 < times < 32767 && shifted_times(lfsr, false, times) == lfsr {
        let count = lemma_divisor(lfsr, false, 32767, times);
        let rounds = 32767int / count as int;
        vstd::arithmetic::div_mod::lemma_fundamental_div_mod(32767, count as int);
        assert(0 <= rounds <= 32767) by (nonlinear_arith)
            requires
                count > 0,
                count * rounds == 32767,
        ;
        lemma_divisors(count as u32, rounds as u32);
        lemma_rounds(lfsr, false, count, 4681);
        lemma_rounds(lfsr, false, count, 1057);
        lemma_rounds(lfsr, false, count, 217);
        lemma_long_parts(lfsr);
    }
}

/// Three times a power of two of shifts of the short mode is its
/// combination.
proof fn lemma_short_power(lfsr: u16, k: nat)
    requires
        lfsr < 0x8000,
        k <= 5,
    ensures
        shifted_times(lfsr, true, 3 * power(k)) == short_mix(lfsr, short_pick(k)),
        short_mix(lfsr, short_pick(k)) < 0x8000,
    decreases k,
{
    lemma_short_doublings(lfsr);
    if k == 0 {
        reveal_with_fuel(shifted_times, 4);
    } else {
        let half = (k - 1) as nat;
        lemma_short_power(lfsr, half);
        lemma_short_power(short_mix(lfsr, short_pick(half)), half);
        lemma_join(lfsr, true, 3 * power(half), 3 * power(half));
    }
}

/// The short mode's pattern: after 93 shifts every register is itself again,
/// and the seed after no smaller number.
pub proof fn law_short_pattern(lfsr: u16, times: nat)
    requires
        0 < lfsr < 0x8000,
    ensures
        shifted_times(lfsr, true, 93) == lfsr,
        lfsr == 1 && 0 < times < 93 ==> shifted_times(lfsr, true, times) != lfsr,
{
    reveal_with_fuel(power, 6);
    lemma_short_power(lfsr, 5);
    lemma_short_power(lfsr, 0);
    let last = shifted_times(lfsr, true, 93);
    noise::law_register_never_dies(lfsr, true, 93);
    lemma_join(lfsr, true, 93, 3);
    lemma_three_lose_nothing(last, lfsr);
    if lfsr == 1 && 0 < times < 93 && shifted_times(lfsr, true, times) == lfsr {
        let count = lemma_divisor(lfsr, true, 93, times);
        assert(count == 1 || count == 3 || count == 31) by {
            lemma_small_divisors(count as u32);
        }
        lemma_rounds(lfsr, true, count, 3);
        lemma_rounds(lfsr, true, count, 31);
        lemma_short_power(lfsr, 3);
        lemma_short_power(short_mix(lfsr, 13), 1);
        lemma_join(lfsr, true, 24, 6);
        lemma_join(lfsr, true, 30, 1);
        reveal_with_fuel(shifted_times, 2);
        lemma_short_seed();
    }
}

/// Two registers that three shifts of the short mode make the same were the
/// same.
proof fn lemma_three_lose_nothing(one: u16, other: u16)
    requires
        0 < one < 0x8000,
        0 < other < 0x8000,
        shifted_times(one, true, 3) == shifted_times(other, true, 3),
    ensures
        one == other,
{
    reveal_with_fuel(shifted_times, 4);
    noise::law_register_never_dies(one, true, 1);
    noise::law_register_never_dies(one, true, 2);
    noise::law_register_never_dies(other, true, 1);
    noise::law_register_never_dies(other, true, 2);
    noise::law_shift_loses_nothing(shifted_times(one, true, 2), shifted_times(other, true, 2), true);
    noise::law_shift_loses_nothing(shifted_times(one, true, 1), shifted_times(other, true, 1), true);
    noise::law_shift_loses_nothing(one, other, true);
}

/// What divides 93 and is smaller.
proof fn lemma_small_divisors(count: u32)
    by (bit_vector)
    requires
        0 < count < 93,
        93u32 % count == 0,
    ensures
        count == 1 || count == 3 || count == 31,
{
}

} // verus!
