//! The controller: eight buttons on one wire, read a bit at a time.

use vstd::prelude::*;

use crate::bits;

verus! {

/// One controller. All eight buttons fit in one byte, in the order the
/// console shifts them out: A, B, Select, Start, Up, Down, Left, Right, with
/// A in bit 0 and Right in bit 7.
#[derive(Clone, Copy)]
pub struct Controller {
    /// What the player is holding at this instant.
    pub buttons: u8,
    /// The frozen copy the game actually reads, taken the moment the strobe
    /// drops.
    pub snapshot: u8,
    /// The "stare at the buttons" line. High: the pad watches the buttons
    /// live. Dropped: the snapshot freezes.
    pub strobe: bool,
    /// Which bit of the snapshot the next read hands out.
    pub index: u8,
}

impl Controller {
    /// A write: raising bit 0 makes the pad stare, dropping it freezes what
    /// it saw and rewinds to the first button.
    pub open spec fn written(self, value: u8) -> Controller {
        if self.strobe && value % 2 == 0 {
            Controller { snapshot: self.buttons, index: 0, strobe: false, ..self }
        } else {
            Controller { strobe: value % 2 == 1, ..self }
        }
    }

    /// The bit the next read answers: A, live, under the strobe; the next
    /// button of the snapshot otherwise; and 1 past the eighth.
    pub open spec fn answer(self) -> u8 {
        if self.strobe {
            bits::bit(self.buttons, 0)
        } else if self.index < 8 {
            bits::bit(self.snapshot, self.index)
        } else {
            1
        }
    }

    /// What a read moves: the place in the snapshot, unless the pad stares
    /// or has no more buttons.
    pub open spec fn read_once(self) -> Controller {
        if !self.strobe && self.index < 8 {
            Controller { index: (self.index + 1) as u8, ..self }
        } else {
            self
        }
    }

    /// A pad nobody holds.
    pub fn new() -> (controller: Controller)
        ensures
            controller == (Controller { buttons: 0, snapshot: 0, strobe: false, index: 0 }),
    {
        Controller { buttons: 0, snapshot: 0, strobe: false, index: 0 }
    }

    /// A write to $4016. Only bit 0 matters.
    pub fn write(&mut self, value: u8)
        ensures
            *final(self) == old(self).written(value),
    {
        let high = value % 2 == 1;
        if self.strobe && !high {
            self.snapshot = self.buttons;
            self.index = 0;
        }
        self.strobe = high;
    }

    /// A read from $4016: the next button of the snapshot, low bit of the
    /// answer. While the strobe is high every read reports A, live, and past
    /// the eighth button a real pad answers 1.
    pub fn read(&mut self) -> (bit: u8)
        ensures
            bit == old(self).answer(),
            *final(self) == old(self).read_once(),
    {
        if self.strobe {
            return (self.buttons >> 0u8) & 1;
        }
        let index = self.index;
        if index < 8 {
            self.index = index + 1;
            (self.snapshot >> index) & 1
        } else {
            1
        }
    }
}

/// The byte of the buttons held, of the first `n` in the console's order.
pub open spec fn held_byte(held: Seq<bool>, n: nat) -> int
    decreases n,
{
    if n == 0 {
        0
    } else {
        held_byte(held, (n - 1) as nat) + (if held[n - 1] {
            vstd::arithmetic::power2::pow2((n - 1) as nat) as int
        } else {
            0
        })
    }
}

/// The buttons held, as the pad's byte: one bit each, in the console's
/// order, A lowest.
pub fn buttons_of(held: &[bool; 8]) -> (buttons: u8)
    ensures
        buttons == held_byte(held@, 8),
{
    let mut buttons: u8 = 0;
    let mut bit: u8 = 1;
    let mut n: usize = 0;
    proof {
        vstd::arithmetic::power2::lemma2_to64();
    }
    while n < 8
        invariant
            n <= 8,
            buttons == held_byte(held@, n as nat),
            n < 8 ==> bit == vstd::arithmetic::power2::pow2(n as nat),
            buttons < vstd::arithmetic::power2::pow2(n as nat),
        decreases 8 - n,
    {
        proof {
            vstd::arithmetic::power2::lemma2_to64();
            vstd::arithmetic::power2::lemma_pow2_unfold((n + 1) as nat);
            vstd::arithmetic::power2::lemma_pow2_strictly_increases(n as nat, 8);
        }
        if held[n] {
            buttons = buttons + bit;
        }
        if n < 7 {
            proof {
                vstd::arithmetic::power2::lemma_pow2_strictly_increases((n + 1) as nat, 8);
            }
            bit = bit * 2;
        }
        n = n + 1;
    }
    buttons
}

/// `reads` reads in a row.
pub open spec fn read_times(controller: Controller, reads: nat) -> Controller
    decreases reads,
{
    if reads == 0 {
        controller
    } else {
        read_times(controller, (reads - 1) as nat).read_once()
    }
}

/// Strobed and frozen, a pad hands out the eight buttons it saw, one bit a
/// read with A first, and answers 1 ever after, whatever was held before.
pub proof fn law_frozen_pad_hands_out_its_buttons(pad: Controller, reads: nat)
    ensures
        ({
            let frozen = pad.written(1).written(0);
            read_times(frozen, reads).answer() == if reads < 8 {
                bits::bit(pad.buttons, reads as u8)
            } else {
                1u8
            }
        }),
        read_times(pad.written(1).written(0), reads).index == (if reads < 8 {
            reads
        } else {
            8
        }),
        read_times(pad.written(1).written(0), reads).snapshot == pad.buttons,
        !read_times(pad.written(1).written(0), reads).strobe,
    decreases reads,
{
    if reads > 0 {
        law_frozen_pad_hands_out_its_buttons(pad, (reads - 1) as nat);
    }
}

/// The snapshot freezes when the strobe drops: what the player does after
/// that changes no answer.
pub proof fn law_released_too_late(pad: Controller, buttons: u8, reads: nat)
    requires
        !pad.strobe,
    ensures
        read_times(Controller { buttons, ..pad }, reads).answer() == read_times(pad, reads).answer(),
        read_times(Controller { buttons, ..pad }, reads) == (Controller {
            buttons,
            ..read_times(pad, reads)
        }),
        !read_times(pad, reads).strobe,
    decreases reads,
{
    if reads > 0 {
        law_released_too_late(pad, buttons, (reads - 1) as nat);
    }
}

/// Staring is not stepping: under the strobe every read reports A, live.
pub proof fn law_staring_is_not_stepping(pad: Controller)
    requires
        pad.strobe,
    ensures
        pad.read_once() == pad,
        pad.answer() == bits::bit(pad.buttons, 0),
{
}

/// What a write does: bit 0 is the strobe, and its drop, and nothing else,
/// freezes the buttons and rewinds to the first.
pub proof fn law_strobe_freezes_as_it_drops(pad: Controller, value: u8)
    ensures
        ({
            let after = pad.written(value);
            &&& after.strobe == (value % 2 == 1)
            &&& after.buttons == pad.buttons
            &&& pad.strobe && value % 2 == 0 ==> after.snapshot == pad.buttons && after.index == 0
            &&& !pad.strobe || value % 2 == 1 ==> after.snapshot == pad.snapshot && after.index
                == pad.index
        }),
{
}

/// What a read does: under the strobe it answers the lowest bit of what is
/// held and moves nothing; else it answers the bit of the snapshot that is
/// next and moves on by one, or answers 1 and stays, past the eighth.
pub proof fn law_reads_hand_out_one_bit(pad: Controller)
    ensures
        pad.strobe ==> pad.answer() == pad.buttons % 2,
        pad.strobe ==> pad.read_once() == pad,
        !pad.strobe && pad.index == 0 ==> pad.answer() == pad.snapshot % 2,
        !pad.strobe && pad.index == 1 ==> pad.answer() == pad.snapshot / 2 % 2,
        !pad.strobe && pad.index == 2 ==> pad.answer() == pad.snapshot / 4 % 2,
        !pad.strobe && pad.index == 3 ==> pad.answer() == pad.snapshot / 8 % 2,
        !pad.strobe && pad.index == 4 ==> pad.answer() == pad.snapshot / 16 % 2,
        !pad.strobe && pad.index == 5 ==> pad.answer() == pad.snapshot / 32 % 2,
        !pad.strobe && pad.index == 6 ==> pad.answer() == pad.snapshot / 64 % 2,
        !pad.strobe && pad.index == 7 ==> pad.answer() == pad.snapshot / 128,
        !pad.strobe && pad.index < 8 ==> pad.read_once() == (Controller {
            index: (pad.index + 1) as u8,
            ..pad
        }),
        !pad.strobe && pad.index >= 8 ==> pad.answer() == 1 && pad.read_once() == pad,
{
    bits::lemma_places_of_a_byte(pad.buttons);
    bits::lemma_places_of_a_byte(pad.snapshot);
}

/// The buttons held are the bits of the pad's byte: A is worth 1, B 2,
/// Select 4, Start 8, Up 16, Down 32, Left 64 and Right 128.
pub proof fn law_buttons_have_their_weights(held: Seq<bool>)
    requires
        held.len() == 8,
    ensures
        held_byte(held, 8) == (if held[0] {
            1int
        } else {
            0
        }) + (if held[1] {
            2int
        } else {
            0
        }) + (if held[2] {
            4int
        } else {
            0
        }) + (if held[3] {
            8int
        } else {
            0
        }) + (if held[4] {
            16int
        } else {
            0
        }) + (if held[5] {
            32int
        } else {
            0
        }) + (if held[6] {
            64int
        } else {
            0
        }) + (if held[7] {
            128int
        } else {
            0
        }),
{
    vstd::arithmetic::power2::lemma2_to64();
    reveal_with_fuel(held_byte, 9);
}

} // verus!
