//! Machines that never go on: how to tell, of one that takes no time, that
//! it never will.

use vstd::prelude::*;
use vstd::set_lib;

use crate::apu::Apu;
use crate::bus::{Bus, BusState};
use crate::conductor::FrameCounter;
use crate::controller::Controller;
use crate::debugger;
use crate::machine::{Machine, MachineState};
use crate::pace;
use crate::ppu::PpuState;

verus! {

/// Whether no step from here on, however many are made, is one that the
/// machine runs: it walks from stop sign to stop sign, or stands still, and
/// time never passes again.
pub open spec fn asleep(machine: MachineState) -> bool {
    forall|steps: nat| !debugger::goes_on(#[trigger] debugger::stepped_times(machine, steps))
}

/// All that a step can change that does not go on: the program counter, and
/// what the registers do when an opcode is fetched out of them.
#[derive(Clone, Copy, PartialEq, Eq, Structural)]
pub struct Mood {
    pub pc: u16,
    pub v: u16,
    pub read_buffer: u8,
    pub index: u8,
    pub vblank: bool,
    pub w: bool,
    pub irq_pending: bool,
    pub pad_read: bool,
    pub sample_fetched: bool,
}

/// A bus's part of a mood, with a program counter.
pub open spec fn bus_mood(bus: BusState, pc: u16) -> Mood {
    Mood {
        pc,
        v: bus.ppu.v,
        read_buffer: bus.ppu.read_buffer,
        index: bus.controller.index,
        vblank: bus.ppu.vblank,
        w: bus.ppu.w,
        irq_pending: bus.apu.frame.irq_pending,
        pad_read: bus.read_4016_this_instruction,
        sample_fetched: bus.dmc_fetched_this_instruction,
    }
}

/// A machine's mood.
pub open spec fn mood(machine: MachineState) -> Mood {
    bus_mood(machine.bus, machine.pc)
}

/// A bus in another mood.
#[verifier::opaque]
pub open spec fn bus_in_mood(bus: BusState, mood: Mood) -> BusState {
    BusState {
        ppu: PpuState {
            v: mood.v,
            read_buffer: mood.read_buffer,
            vblank: mood.vblank,
            w: mood.w,
            ..bus.ppu
        },
        controller: Controller { index: mood.index, ..bus.controller },
        apu: Apu {
            frame: FrameCounter { irq_pending: mood.irq_pending, ..bus.apu.frame },
            ..bus.apu
        },
        read_4016_this_instruction: mood.pad_read,
        dmc_fetched_this_instruction: mood.sample_fetched,
        ..bus
    }
}

/// A machine in another mood.
pub open spec fn in_mood(machine: MachineState, mood: Mood) -> MachineState {
    MachineState { pc: mood.pc, bus: bus_in_mood(machine.bus, mood), ..machine }
}

/// Looking at one of the picture chip's registers moves the data port, clears
/// two flags, and changes nothing else.
proof fn lemma_look_at_picture(chip: PpuState, register: int, pattern: u8)
    ensures
        chip.register_read(register, pattern) == (PpuState {
            v: chip.register_read(register, pattern).v,
            read_buffer: chip.register_read(register, pattern).read_buffer,
            vblank: chip.register_read(register, pattern).vblank,
            w: chip.register_read(register, pattern).w,
            ..chip
        }),
{
    reveal(PpuState::register_read);
}

/// Whether a bus differs from another in its mood alone.
spec fn moody(bus: BusState, after: BusState) -> bool {
    forall|pc: u16| after == bus_in_mood(bus, #[trigger] bus_mood(after, pc))
}

/// What a bus's mood was does not matter when it gets another, and neither do
/// an instruction's notes.
proof fn lemma_moods_replace(bus: BusState, first: Mood, second: Mood)
    ensures
        bus_in_mood(bus_in_mood(bus, first), second) == bus_in_mood(bus, second),
        bus_in_mood(bus, first).clock == bus.clock,
        bus_in_mood(bus, first).dma_stall == bus.dma_stall,
        bus_in_mood(
            BusState { read_4016_this_instruction: false, dmc_fetched_this_instruction: false, ..bus },
            second,
        ) == bus_in_mood(bus, second),
{
    reveal(bus_in_mood);
}

/// A picture chip that changed in its mood alone leaves a bus that did.
proof fn lemma_moody_picture(bus: BusState, after: BusState, ppu: PpuState)
    requires
        after == (BusState { ppu, ..bus }),
        ppu == (PpuState {
            v: ppu.v,
            read_buffer: ppu.read_buffer,
            vblank: ppu.vblank,
            w: ppu.w,
            ..bus.ppu
        }),
    ensures
        moody(bus, after),
{
    reveal(bus_in_mood);
}

/// The same of the sound chip.
proof fn lemma_moody_sound(bus: BusState, after: BusState)
    requires
        after == (BusState { apu: bus.apu.status_read(), ..bus }),
    ensures
        moody(bus, after),
{
    reveal(bus_in_mood);
}

/// The same of the pad.
proof fn lemma_moody_pad(bus: BusState, after: BusState)
    requires
        after == (BusState {
            controller: bus.pad().read_once(),
            read_4016_this_instruction: true,
            ..bus
        }),
    ensures
        moody(bus, after),
{
    reveal(bus_in_mood);
}

/// A bus that did not change at all.
proof fn lemma_moody_none(bus: BusState)
    ensures
        moody(bus, bus),
{
    reveal(bus_in_mood);
}

/// Looking anywhere changes a bus's mood and nothing else.
proof fn lemma_look(bus: BusState, address: int)
    ensures
        moody(bus, bus.after_read(address)),
{
    lemma_moody_none(bus);
    reveal(BusState::after_read);
    let after = bus.after_read(address);
    if 0x2000 <= address < 0x4000 {
        let pattern = bus.cartridge.album()[bus.ppu.data_address()];
        lemma_look_at_picture(bus.ppu, address % 8, pattern);
        lemma_moody_picture(bus, after, bus.ppu.register_read(address % 8, pattern));
    } else if address == 0x4015 {
        lemma_moody_sound(bus, after);
    } else if address == 0x4016 {
        lemma_moody_pad(bus, after);
    }
}

/// A step that does not go on changes a machine's mood and nothing else.
proof fn lemma_only_the_mood(machine: MachineState)
    requires
        !debugger::goes_on(machine),
    ensures
        machine.stepped() == in_mood(machine, mood(machine.stepped())),
{
    let bus = machine.fresh().bus;
    let after = bus.after_read(machine.pc as int);
    let pc = machine.stepped().pc;
    lemma_look(bus, machine.pc as int);
    assert(machine.stepped() == (MachineState { pc, bus: after, ..machine })) by {
        reveal(MachineState::stepped);
    }
    lemma_moods_replace(machine.bus, bus_mood(after, pc), bus_mood(after, pc));
    assert(after == bus_in_mood(bus, bus_mood(after, pc)));
}

/// Nor do many such steps.
proof fn lemma_only_the_moods(machine: MachineState, steps: nat)
    requires
        forall|k: nat| k < steps ==> !debugger::goes_on(#[trigger] debugger::stepped_times(machine, k)),
    ensures
        debugger::stepped_times(machine, steps) == in_mood(
            machine,
            mood(debugger::stepped_times(machine, steps)),
        ),
    decreases steps,
{
    if steps > 0 {
        let less = (steps - 1) as nat;
        let here = debugger::stepped_times(machine, less);
        lemma_only_the_moods(machine, less);
        lemma_only_the_mood(here);
        lemma_moods_replace(machine.bus, mood(here), mood(here.stepped()));
    } else {
        lemma_moody_none(machine.bus);
        assert(machine.bus == bus_in_mood(machine.bus, bus_mood(machine.bus, machine.pc)));
    }
}

/// A machine that comes back to where it was without having gone on goes
/// round like that for good.
proof fn lemma_round(machine: MachineState, round: nat, steps: nat)
    requires
        round > 0,
        debugger::stepped_times(machine, round) == machine,
        forall|k: nat| k < round ==> !debugger::goes_on(#[trigger] debugger::stepped_times(machine, k)),
    ensures
        !debugger::goes_on(debugger::stepped_times(machine, steps)),
    decreases steps,
{
    if steps >= round {
        let less = (steps - round) as nat;
        pace::lemma_steps_join(machine, round, less);
        lemma_round(machine, round, less);
    }
}

/// Two steps of a walk that found the machine in the same mood: it is asleep
/// from the first of them on.
proof fn lemma_same_mood_twice(rest: MachineState, first: nat, second: nat, now: nat)
    requires
        first < second <= now,
        forall|k: nat| k < now ==> !debugger::goes_on(#[trigger] debugger::stepped_times(rest, k)),
        mood(debugger::stepped_times(rest, first)) == mood(debugger::stepped_times(rest, second)),
    ensures
        asleep(debugger::stepped_times(rest, now)),
{
    let here = debugger::stepped_times(rest, first);
    let round = (second - first) as nat;
    lemma_only_the_moods(rest, first);
    lemma_only_the_moods(rest, second);
    pace::lemma_steps_join(rest, first, round);
    assert forall|k: nat| k < round implies !debugger::goes_on(#[trigger] debugger::stepped_times(here, k)) by {
        pace::lemma_steps_join(rest, first, k);
        assert(!debugger::goes_on(debugger::stepped_times(rest, first + k)));
    }
    let there = debugger::stepped_times(rest, now);
    assert forall|steps: nat| !debugger::goes_on(#[trigger] debugger::stepped_times(there, steps)) by {
        pace::lemma_steps_join(rest, now, steps);
        pace::lemma_steps_join(rest, first, (now - first + steps) as nat);
        lemma_round(here, round, (now - first + steps) as nat);
    }
}

/// How many moods there are.
pub const MOODS: u64 = 0x20_0000_0000_0000;

/// A truth as a number.
spec fn number(truth: bool) -> int {
    if truth {
        1
    } else {
        0
    }
}

/// A mood's flags as a number.
spec fn flags(mood: Mood) -> int {
    number(mood.vblank) + 2 * number(mood.w) + 4 * number(mood.irq_pending) + 8 * number(mood.pad_read) + 16 * number(
        mood.sample_fetched,
    )
}

/// A mood as a number.
spec fn counted(mood: Mood) -> int {
    flags(mood) + 32 * (mood.index + 0x100 * (mood.read_buffer + 0x100 * (mood.v + 0x1_0000 * mood.pc)))
}

/// A number's last digit and the rest of it.
proof fn lemma_digits(base: int, low: int, high: int, other_low: int, other_high: int)
    by (nonlinear_arith)
    requires
        0 <= low < base,
        0 <= other_low < base,
        low + base * high == other_low + base * other_high,
    ensures
        low == other_low,
        high == other_high,
{
}

/// No two moods have the same number, and every number is below [`MOODS`].
proof fn lemma_counted(one: Mood, other: Mood)
    ensures
        0 <= counted(one) < MOODS,
        counted(one) == counted(other) ==> one == other,
{
    if counted(one) == counted(other) {
        let a = one.v + 0x1_0000 * one.pc;
        let b = other.v + 0x1_0000 * other.pc;
        let c = one.read_buffer + 0x100 * a;
        let d = other.read_buffer + 0x100 * b;
        lemma_digits(32, flags(one), one.index + 0x100 * c, flags(other), other.index + 0x100 * d);
        lemma_digits(0x100, one.index as int, c, other.index as int, d);
        lemma_digits(0x100, one.read_buffer as int, a, other.read_buffer as int, b);
        lemma_digits(0x1_0000, one.v as int, one.pc as int, other.v as int, other.pc as int);
    }
}

/// More things than there are numbers to give them: two share one.
proof fn lemma_two_share(numbering: spec_fn(int) -> int, count: int) -> (pair: (int, int))
    requires
        0 <= count,
        forall|i: int| 0 <= i <= count ==> 0 <= #[trigger] numbering(i) < count,
    ensures
        0 <= pair.0 < pair.1 <= count,
        numbering(pair.0) == numbering(pair.1),
{
    let things = set_lib::set_int_range(0, count + 1);
    let numbers = set_lib::set_int_range(0, count);
    if forall|i: int, j: int|
        0 <= i < j <= count ==> #[trigger] numbering(i) != #[trigger] numbering(j) {
        set_lib::lemma_int_range(0, count + 1);
        set_lib::lemma_int_range(0, count);
        assert(vstd::relations::injective_on(numbering, things));
        set_lib::lemma_map_size(things, things.map(numbering), numbering);
        assert(things.map(numbering).subset_of(numbers));
        set_lib::lemma_len_subset(things.map(numbering), numbers);
    }
    choose|i: int, j: int| 0 <= i < j <= count && #[trigger] numbering(i) == #[trigger] numbering(j)
}

/// A walk with more steps than there are moods has found the machine in one
/// of them twice.
proof fn lemma_long_walk(rest: MachineState)
    requires
        forall|k: nat| k < MOODS ==> !debugger::goes_on(#[trigger] debugger::stepped_times(rest, k)),
    ensures
        asleep(debugger::stepped_times(rest, MOODS as nat)),
{
    let numbering = |k: int| counted(mood(debugger::stepped_times(rest, k as nat)));
    assert forall|i: int| 0 <= i <= MOODS implies 0 <= #[trigger] numbering(i) < MOODS by {
        let here = mood(debugger::stepped_times(rest, i as nat));
        lemma_counted(here, here);
    }
    let pair = lemma_two_share(numbering, MOODS as int);
    let first = pair.0 as nat;
    let second = pair.1 as nat;
    lemma_counted(mood(debugger::stepped_times(rest, first)), mood(debugger::stepped_times(rest, second)));
    lemma_same_mood_twice(rest, first, second, MOODS as nat);
}

/// A machine that is asleep stays so, and nothing of its time or its books
/// moves, however often it is stepped.
pub proof fn law_sleep_is_for_good(machine: MachineState, steps: nat)
    requires
        asleep(machine),
    ensures
        asleep(debugger::stepped_times(machine, steps)),
        debugger::stepped_times(machine, steps).cycles == machine.cycles,
        debugger::stepped_times(machine, steps).bus.clock == machine.bus.clock,
        debugger::stepped_times(machine, steps).bus.dma_stall == machine.bus.dma_stall,
{
    lemma_only_the_moods(machine, steps);
    lemma_moods_replace(
        machine.bus,
        mood(debugger::stepped_times(machine, steps)),
        mood(debugger::stepped_times(machine, steps)),
    );
    let there = debugger::stepped_times(machine, steps);
    assert forall|more: nat| !debugger::goes_on(#[trigger] debugger::stepped_times(there, more)) by {
        pace::lemma_steps_join(machine, steps, more);
        assert(!debugger::goes_on(debugger::stepped_times(machine, steps + more)));
    }
}

/// Someone who watches a machine that takes no time: it remembers a mood the
/// machine was in, and a later one each time the walk is twice as long.
pub struct Watch {
    /// Where the machine was when it last took any time.
    pub rest: Ghost<MachineState>,
    /// How many steps it has made since.
    pub idle: u64,
    /// The mood remembered, and after how many of them it was seen.
    pub mark: Mood,
    pub marked: u64,
}

impl Watch {
    /// Where the watched machine is.
    pub open spec fn here(self) -> MachineState {
        debugger::stepped_times(self.rest@, self.idle as nat)
    }

    /// What the watch knows: nothing has gone on, and the mood it remembers
    /// is one that it saw.
    pub open spec fn wf(self) -> bool {
        &&& self.marked <= self.idle < MOODS
        &&& self.mark == mood(debugger::stepped_times(self.rest@, self.marked as nat))
        &&& forall|k: nat|
            k < self.idle ==> !debugger::goes_on(#[trigger] debugger::stepped_times(self.rest@, k))
    }

    /// Begin to watch.
    pub(crate) fn new(machine: &Machine) -> (watch: Watch)
        ensures
            watch.wf(),
            watch.here() == machine@,
            watch.idle == 0,
    {
        Watch { rest: Ghost(machine@), idle: 0, mark: mood_of(machine), marked: 0 }
    }

    /// Watch a step that did not go on. Says whether the machine is asleep,
    /// as far as can be told yet.
    pub(crate) fn sees(&mut self, machine: &Machine) -> (sleeps: bool)
        requires
            old(self).wf(),
            !debugger::goes_on(old(self).here()),
            machine@ == old(self).here().stepped(),
        ensures
            sleeps ==> asleep(machine@),
            !sleeps ==> final(self).wf() && final(self).here() == machine@ && final(self).idle == old(self).idle + 1,
    {
        let now = mood_of(machine);
        let ghost rest = self.rest@;
        let ghost steps = (self.idle + 1) as nat;
        assert(debugger::stepped_times(rest, steps) == machine@);
        if now == self.mark {
            proof {
                lemma_same_mood_twice(rest, self.marked as nat, steps, steps);
            }
            return true;
        }
        self.idle = self.idle + 1;
        if self.idle == MOODS {
            proof {
                lemma_long_walk(rest);
            }
            return true;
        }
        if self.idle / 2 >= self.marked {
            self.mark = now;
            self.marked = self.idle;
        }
        false
    }
}

/// A machine's mood.
fn mood_of(machine: &Machine) -> (now: Mood)
    ensures
        now == mood(machine@),
{
    proof {
        reveal(<Bus as View>::view);
    }
    Mood {
        pc: machine.pc,
        v: machine.bus.ppu.v,
        read_buffer: machine.bus.ppu.read_buffer,
        index: machine.bus.controller.index,
        vblank: machine.bus.ppu.vblank,
        w: machine.bus.ppu.w,
        irq_pending: machine.bus.apu.frame.irq_pending,
        pad_read: machine.bus.read_4016_this_instruction,
        sample_fetched: machine.bus.dmc_fetched_this_instruction,
    }
}

} // verus!
