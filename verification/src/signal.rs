//! The wire: what the picture chip puts on it for each of its colors.
//!
//! A color is a square wave. Twelve samples make one cycle of the color
//! carrier, a hue is nothing but a phase offset into it, and brightness is
//! the pair of voltages the wave swings between.

use vstd::prelude::*;

use crate::ppu::COLORS;

verus! {

/// One sample of a wave: which of the eight signal levels it sits at (the
/// low four are the troughs, the high four the crests), and whether a
/// de-emphasis bit darkens it.
#[derive(Clone, Copy, PartialEq, Eq, Debug, Structural)]
pub struct Spot {
    pub level: usize,
    pub dimmed: bool,
}

/// Whether sample `p` of the twelve falls in the half-cycle where a hue's
/// wave is high.
pub open spec fn high_half(hue: int, p: int) -> bool {
    (hue + p + 8) % 12 < 6
}

/// The hue of a color.
pub open spec fn hue_of(index: int) -> int {
    index % 16
}

/// The brightness of a color. Hues 14 and 15 ignore their brightness bits.
pub open spec fn brightness_of(index: int) -> int {
    if hue_of(index) > 13 {
        1
    } else {
        index / 16 % 4
    }
}

/// Whether a color's wave is up at a sample: hue 0 never drops, and hues 13
/// to 15 never rise.
pub open spec fn crest(index: int, p: int) -> bool {
    let hue = hue_of(index);
    hue == 0 || (hue < 13 && high_half(hue, p))
}

/// Whether an emphasis setting darkens a sample: each of its three bits
/// darkens the samples in phase with one primary, red at 12, green at 4 and
/// blue at 8.
pub open spec fn dims(emphasis: int, p: int) -> bool {
    ||| emphasis % 2 == 1 && high_half(12, p)
    ||| emphasis / 2 % 2 == 1 && high_half(4, p)
    ||| emphasis / 4 % 2 == 1 && high_half(8, p)
}

/// One sample of a color's wave. A color is a crayon in its low six bits,
/// and an emphasis setting above them.
pub open spec fn spot_of(index: int, p: int) -> Spot {
    Spot {
        level: (brightness_of(index) + (if crest(index, p) {
            4int
        } else {
            0
        })) as usize,
        dimmed: dims(index / 64 % 8, p),
    }
}

/// Whether sample `p` of the twelve falls in the half-cycle where `hue`'s
/// wave is high.
pub fn in_phase(hue: i32, p: i32) -> (high: bool)
    requires
        0 <= hue <= 15,
        0 <= p < 12,
    ensures
        high == high_half(hue as int, p as int),
{
    (hue + p + 8) % 12 < 6
}

/// One sample of a color's wave.
fn spot(index: usize, p: i32) -> (spot: Spot)
    requires
        index < COLORS,
        0 <= p < 12,
    ensures
        spot == spot_of(index as int, p as int),
        spot.level < 8,
{
    let hue: i32 = (index % 16) as i32;
    let emphasis: usize = index / 64 % 8;
    let brightness: usize = if hue > 13 {
        1
    } else {
        index / 16 % 4
    };
    let up = hue == 0 || (hue < 13 && in_phase(hue, p));
    let dimmed = (emphasis % 2 == 1 && in_phase(12, p)) || (emphasis / 2 % 2 == 1 && in_phase(4, p))
        || (emphasis / 4 % 2 == 1 && in_phase(8, p));
    Spot {
        level: if up {
            brightness + 4
        } else {
            brightness
        },
        dimmed,
    }
}

/// The wave a color puts on the wire: twelve samples, one cycle of the color
/// carrier.
pub fn wave(index: usize) -> (spots: [Spot; 12])
    requires
        index < COLORS,
    ensures
        forall|p: int| 0 <= p < 12 ==> #[trigger] spots@[p] == spot_of(index as int, p),
        forall|p: int| 0 <= p < 12 ==> (#[trigger] spots@[p]).level < 8,
{
    let mut spots: [Spot; 12] = [Spot { level: 0, dimmed: false }; 12];
    let mut p: usize = 0;
    while p < 12
        invariant
            p <= 12,
            index < COLORS,
            forall|i: int| 0 <= i < p ==> #[trigger] spots@[i] == spot_of(index as int, i),
            forall|i: int| 0 <= i < p ==> (#[trigger] spots@[i]).level < 8,
        decreases 12 - p,
    {
        spots[p] = spot(index, p as i32);
        p = p + 1;
    }
    spots
}

/// A hue's wave is high for half of the twelve samples: the opposite hue's
/// is high for the other half.
pub proof fn law_opposite_hues_alternate(hue: int, p: int)
    ensures
        high_half(hue, p) == !high_half(hue + 6, p),
        high_half(hue + 12, p) == high_half(hue, p),
{
}

/// The grey column and the black column are flat: a wave that never moves
/// carries no color.
pub proof fn law_grey_and_black_are_flat(index: int, p: int, q: int)
    requires
        0 <= index < COLORS,
        hue_of(index) == 0 || hue_of(index) >= 13,
    ensures
        spot_of(index, p).level == spot_of(index, q).level,
{
}

/// Emphasis darkens a wave, and never bends it: colors that share a crayon
/// share its levels, and without emphasis nothing is darkened.
pub proof fn law_emphasis_only_darkens(crayon: int, emphasis: int, p: int)
    requires
        0 <= crayon < 64,
        0 <= emphasis < 8,
    ensures
        spot_of(emphasis * 64 + crayon, p).level == spot_of(crayon, p).level,
        !spot_of(crayon, p).dimmed,
{
}

/// The wave of a color, level by level: its brightness is a trough, and four
/// more a crest. Hue 0 is all crest; hues 1 to 12 are crest for the six of
/// the twelve samples that hue and sample together put at 4 to 9; hue 13 is
/// all trough; and hues 14 and 15 are trough 1, whatever their brightness.
#[verifier::rlimit(40)]
#[verifier::spinoff_prover]
pub proof fn law_waves_swing_between_their_levels(index: int, p: int)
    requires
        0 <= index < 512,
        0 <= p < 12,
    ensures
        ({
            let hue = index % 16;
            let trough = index % 64 / 16;
            let level = spot_of(index, p).level;
            &&& hue == 0 ==> level == trough + 4
            &&& 1 <= hue <= 12 && 4 <= (hue + p) % 12 <= 9 ==> level == trough + 4
            &&& 1 <= hue <= 12 && !(4 <= (hue + p) % 12 <= 9) ==> level == trough
            &&& hue == 13 ==> level == trough
            &&& hue >= 14 ==> level == 1
        }),
{
    assert(index / 16 % 4 == index % 64 / 16);
}

/// The samples each emphasis bit darkens: red's, the lowest, 4 to 9; green's
/// 0 to 5; and blue's 8 to 11 and on to 1. Nothing else is darkened.
pub proof fn law_emphasis_darkens_its_samples(index: int, p: int)
    requires
        0 <= index < 512,
        0 <= p < 12,
    ensures
        spot_of(index, p).dimmed == (index / 64 % 2 == 1 && 4 <= p <= 9 || index / 128 % 2 == 1 && p
            <= 5 || index / 256 % 2 == 1 && (p >= 8 || p <= 1)),
{
    let emphasis = index / 64 % 8;
    assert(emphasis % 2 == index / 64 % 2);
    assert(emphasis / 2 % 2 == index / 128 % 2);
    assert(emphasis / 4 % 2 == index / 256 % 2);
}

/// A hue's wave is high for the samples that, with the hue, come to 4 to 9
/// round the twelve.
pub proof fn law_hue_sets_the_phase(hue: int, p: int)
    ensures
        high_half(hue, p) == (4 <= (hue + p) % 12 <= 9),
{
}

} // verus!
