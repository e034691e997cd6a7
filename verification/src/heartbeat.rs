//! The heartbeat: what the chips do while time passes, whatever the
//! processor is busy with.

use vstd::prelude::*;

use crate::bus::{Bus, BusState};

verus! {

impl BusState {
    /// One dot: the picture chip paints where the beam is, and the beam
    /// moves on.
    #[verifier::opaque]
    pub open spec fn dotted(self) -> BusState {
        BusState {
            ppu: self.ppu.kept_time(
                self.clock.scanline as int,
                self.clock.dot as int,
                self.cartridge.album(),
            ),
            clock: self.clock.ticked(),
            ..self
        }
    }

    /// One cycle: one tick of the sound chip, three dots of the picture.
    #[verifier::opaque]
    pub open spec fn beaten(self) -> BusState {
        BusState { apu: self.apu.ticked(), ..self }.dotted().dotted().dotted()
    }
}

impl Bus {
    /// One dot: the picture chip paints where the beam is, and the beam
    /// moves on.
    pub fn dot(&mut self)
        requires
            old(self)@.in_order(),
            old(self).clock.frame < u64::MAX,
        ensures
            final(self)@ == old(self)@.dotted(),
            final(self)@.in_order(),
            final(self)@.cartridge == old(self)@.cartridge,
            final(self).clock.dots() == old(self).clock.dots() + 1,
            final(self).apu == old(self).apu,
            final(self).dma_stall == old(self).dma_stall,
    {
        proof {
            reveal(<Bus as View>::view);
            reveal(BusState::in_order);
            reveal(BusState::dotted);
        }
        self.ppu.keep_time(self.clock.scanline, self.clock.dot, &self.cartridge);
        self.clock.tick();
    }

    /// One cycle: one tick of the sound chip, three dots of the picture.
    pub fn beat(&mut self)
        requires
            old(self)@.in_order(),
            old(self).clock.dots() + 2 < 0xFFFF_FFFF_FFFF_FFFF * 89342,
            old(self).apu.frame.has_room(),
            old(self).apu.frame.ticked().has_room(),
        ensures
            final(self)@ == old(self)@.beaten(),
            final(self)@.in_order(),
            final(self)@.cartridge == old(self)@.cartridge,
            final(self).clock.dots() == old(self).clock.dots() + 3,
            final(self).apu.frame.cycle <= old(self).apu.frame.cycle + 1,
            final(self).dma_stall == old(self).dma_stall,
    {
        proof {
            reveal(<Bus as View>::view);
            reveal(BusState::in_order);
            reveal(BusState::beaten);
        }
        self.apu.tick();
        self.dot();
        self.dot();
        self.dot();
    }
}

/// A dot belongs to the picture and the clock: the chip is shown where the
/// beam is and the whole album, the beam moves on by one, and nothing else
/// changes.
pub proof fn law_dot_moves_the_beam(bus: BusState)
    ensures
        ({
            let after = bus.dotted();
            &&& after == (BusState { ppu: after.ppu, clock: after.clock, ..bus })
            &&& after.ppu == bus.ppu.kept_time(
                bus.clock.scanline as int,
                bus.clock.dot as int,
                bus.cartridge.album(),
            )
            &&& bus.clock.wf() && bus.clock.frame < u64::MAX ==> after.clock.wf()
                && after.clock.dots() == bus.clock.dots() + 1
        }),
{
    reveal(BusState::dotted);
}

/// A cycle is one tick of the sound chip and three dots of the picture, one
/// after another, and nothing else.
pub proof fn law_cycle_is_three_dots(bus: BusState)
    ensures
        ({
            let after = bus.beaten();
            &&& after == (BusState {
                apu: bus.apu.ticked(),
                ppu: bus.dotted().dotted().dotted().ppu,
                clock: bus.dotted().dotted().dotted().clock,
                ..bus
            })
            &&& bus.clock.wf() && bus.clock.frame < u64::MAX ==> after.clock.wf()
                && after.clock.dots() == bus.clock.dots() + 3
        }),
{
    reveal(BusState::dotted);
    reveal(BusState::beaten);
}

} // verus!
