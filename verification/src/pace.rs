//! How time passes: what a step and a frame's worth of steps cost.

use vstd::prelude::*;

use crate::bus::BusState;
use crate::clock::Clock;
use crate::cpu;
use crate::cpu::AddressingMode;
use crate::debugger;
use crate::debugger::{Mode, Step};
use crate::machine;
use crate::machine::MachineState;

verus! {

/// Whether a machine's beam is where its odometer says: three dots for every
/// cycle.
pub open spec fn in_time(machine: MachineState) -> bool {
    &&& machine.bus.clock.wf()
    &&& machine.bus.clock.dots() == 3 * machine.cycles
}

/// Whether a bus holds the clock and the books of another.
pub open spec fn same_books(bus: BusState, other: BusState) -> bool {
    bus.clock == other.clock && bus.dma_stall == other.dma_stall
}

/// Reads touch neither the clock nor the books.
proof fn lemma_reads_keep(bus: BusState, address: int, index: u8)
    ensures
        same_books(bus.after_read(address), bus),
        same_books(machine::after_word(bus, address), bus),
        same_books(machine::after_pointer(bus, address, index), bus),
{
    reveal(BusState::after_read);
    reveal(machine::after_word);
    reveal(machine::after_pointer);
}

/// Streaming a page touches neither the clock nor the books.
proof fn lemma_stream_keeps(bus: BusState, page: int, bytes: nat)
    ensures
        same_books(bus.streamed(page, bytes), bus),
    decreases bytes,
{
    if bytes > 0 {
        lemma_stream_keeps(bus, page, (bytes - 1) as nat);
        let before = bus.streamed(page, (bytes - 1) as nat);
        lemma_reads_keep(before, page * 256 + bytes - 1, 0);
    }
}

/// Writes touch neither the clock nor the books.
proof fn lemma_write_keeps(bus: BusState, address: int, value: u8)
    ensures
        same_books(bus.written(address, value), bus),
{
    reveal(BusState::written);
    lemma_stream_keeps(bus, value as int, 256);
}

/// Finding an operand touches neither the clock nor the books, and takes no
/// time.
proof fn lemma_operand_keeps(machine: MachineState, mode: AddressingMode)
    ensures
        same_books(machine.after_operand(mode).bus, machine.bus),
        machine.after_operand(mode).cycles == machine.cycles,
{
    lemma_reads_keep(machine.bus, machine.pc as int, machine.x);
    lemma_reads_keep(machine.bus, machine.pc as int, 0);
}

/// What an instruction does touches neither the clock nor the books; its
/// price is paid after it.
proof fn lemma_instruction_keeps(machine: MachineState, opcode: u8)
    requires
        machine::runs(opcode),
    ensures
        same_books(machine.executed(opcode).bus, machine.bus),
        machine.executed(opcode).cycles == machine.cycles,
        2 <= machine.price(opcode) <= 6,
{
    reveal(MachineState::executed);
    reveal(MachineState::price);
    if cpu::load_mode(opcode) is Some {
        let mode = cpu::load_mode(opcode)->0;
        lemma_operand_keeps(machine, mode);
        lemma_reads_keep(machine.after_operand(mode).bus, machine.operand(mode), 0);
    } else if cpu::store_mode(opcode) is Some {
        let mode = cpu::store_mode(opcode)->0;
        lemma_operand_keeps(machine, mode);
        lemma_write_keeps(machine.after_operand(mode).bus, machine.operand(mode), machine.a);
    } else {
        lemma_reads_keep(machine.bus, machine.pc as int, 0);
    }
}

/// A beat is three dots of the clock, and leaves the books alone.
proof fn lemma_beat(bus: BusState)
    requires
        bus.clock.wf(),
        bus.clock.dots() + 3 < 0x1_0000_0000_0000_0000 * 89342,
    ensures
        bus.beaten().clock.wf(),
        bus.beaten().clock.dots() == bus.clock.dots() + 3,
        bus.beaten().dma_stall == bus.dma_stall,
{
    reveal(BusState::beaten);
    reveal(BusState::dotted);
    lemma_dot(bus.clock);
    lemma_dot(bus.clock.ticked());
    lemma_dot(bus.clock.ticked().ticked());
}

/// A dot of the clock.
proof fn lemma_dot(clock: Clock)
    requires
        clock.wf(),
        clock.dots() + 1 < 0x1_0000_0000_0000_0000 * 89342,
    ensures
        clock.ticked().wf(),
        clock.ticked().dots() == clock.dots() + 1,
{
}

/// So many cycles are so many cycles, and three times as many dots.
proof fn lemma_spent(machine: MachineState, count: nat)
    requires
        in_time(machine),
        machine.cycles + count <= u64::MAX,
    ensures
        in_time(machine.spent(count)),
        machine.spent(count).cycles == machine.cycles + count,
        machine.spent(count).bus.dma_stall == machine.bus.dma_stall,
    decreases count,
{
    if count > 0 {
        lemma_spent(machine, (count - 1) as nat);
        lemma_beat(machine.spent((count - 1) as nat).bus);
    }
}

/// What a step costs: at least two cycles and at most what stood on the
/// books and the longest step, with the books cleared; or, on an opcode that
/// does not run, nothing. The beam keeps up with the odometer.
pub proof fn law_step_takes_its_time(machine: MachineState)
    requires
        in_time(machine),
        machine.cycles + machine.bus.dma_stall + machine::LONGEST_STEP < u64::MAX,
    ensures
        in_time(machine.stepped()),
        debugger::goes_on(machine) ==> machine.cycles + 2 <= machine.stepped().cycles <= machine.cycles
            + machine.bus.dma_stall + machine::LONGEST_STEP,
        debugger::goes_on(machine) ==> machine.stepped().bus.dma_stall == 0,
        !debugger::goes_on(machine) ==> machine.stepped().cycles == machine.cycles
            && same_books(machine.stepped().bus, machine.bus),
{
    reveal(MachineState::stepped);
    let opcode = machine.opcode();
    lemma_reads_keep(machine.fresh().bus, machine.pc as int, 0);
    if machine::runs(opcode) {
        let fetched = machine.fetched();
        let price = fetched.price(opcode);
        lemma_instruction_keeps(fetched, opcode);
        let done = fetched.executed(opcode);
        let count = (price + done.bill(price)) as nat;
        assert(in_time(done.settled()));
        lemma_spent(done.settled(), count);
    }
}

/// A frame's cycles, rounded up.
pub const FRAME_CYCLES: u64 = 29781;

/// Whether a machine goes on and on: every step it will take, however many
/// are behind it, is one that it runs.
pub open spec fn steady(machine: MachineState) -> bool {
    forall|steps: nat| debugger::goes_on(#[trigger] debugger::stepped_times(machine, steps))
}

/// A machine in order is in time.
pub(crate) proof fn lemma_in_time(machine: MachineState)
    requires
        machine.wf(),
    ensures
        in_time(machine),
{
    reveal(machine::in_step);
}

/// Where in a frame an odometer may stand.
pub(crate) proof fn lemma_frame_bounds(machine: MachineState)
    requires
        in_time(machine),
    ensures
        machine.bus.clock.frame * 89342 <= 3 * machine.cycles < (machine.bus.clock.frame + 1) * 89342,
        machine.bus.clock.frame * 89342 + machine.bus.clock.scanline * 341 <= 3 * machine.cycles
            < machine.bus.clock.frame * 89342 + machine.bus.clock.scanline * 341 + 341,
{
}

/// Steps after steps are steps.
pub(crate) proof fn lemma_steps_join(machine: MachineState, first: nat, second: nat)
    ensures
        debugger::stepped_times(machine, first + second) == debugger::stepped_times(
            debugger::stepped_times(machine, first),
            second,
        ),
    decreases second,
{
    if second > 0 {
        lemma_steps_join(machine, first, (second - 1) as nat);
    }
}

/// A machine that goes on and on still does after some steps.
proof fn lemma_still_steady(machine: MachineState, steps: nat)
    requires
        steady(machine),
    ensures
        steady(debugger::stepped_times(machine, steps)),
{
    let after = debugger::stepped_times(machine, steps);
    assert forall|more: nat| debugger::goes_on(#[trigger] debugger::stepped_times(after, more)) by {
        lemma_steps_join(machine, steps, more);
        assert(debugger::goes_on(debugger::stepped_times(machine, steps + more)));
    }
}

/// The steps of a frame, as far as they have come.
proof fn lemma_inside_frame(before: MachineState, steps: nat, k: nat)
    requires
        in_time(before),
        steady(before),
        debugger::has_room(before),
        debugger::frame_run(before, steps),
        k <= steps,
    ensures
        in_time(debugger::stepped_times(before, k)),
        debugger::stepped_times(before, k).cycles >= before.cycles + k,
        debugger::stepped_times(before, k).bus.dma_stall <= before.bus.dma_stall,
        before.bus.dma_stall <= 1000 ==> debugger::stepped_times(before, k).bus.clock.frame
            <= before.bus.clock.frame + 1,
    decreases k,
{
    if k > 0 {
        let less = (k - 1) as nat;
        let here = debugger::stepped_times(before, less);
        lemma_inside_frame(before, steps, less);
        assert(debugger::same_frame(here, before));
        assert(debugger::goes_on(here));
        lemma_frame_bounds(here);
        lemma_frame_bounds(before);
        law_step_takes_its_time(here);
        lemma_frame_bounds(here.stepped());
    }
}

/// The steps of a line, as far as they have come. Only the first may carry a
/// stall; after it none is long enough to come round to the line again.
proof fn lemma_inside_line(before: MachineState, steps: nat, k: nat)
    requires
        in_time(before),
        steady(before),
        debugger::has_room(before),
        debugger::line_run(before, steps),
        k <= steps,
    ensures
        in_time(debugger::stepped_times(before, k)),
        debugger::stepped_times(before, k).cycles >= before.cycles + k,
        debugger::stepped_times(before, k).bus.dma_stall <= before.bus.dma_stall,
        k > 0 ==> debugger::stepped_times(before, k).bus.dma_stall == 0,
        0 < k < steps ==> debugger::stepped_times(before, k).bus.clock.frame == debugger::stepped_times(
            before,
            1,
        ).bus.clock.frame,
        k > 0 ==> debugger::stepped_times(before, 1).cycles <= before.cycles + before.bus.dma_stall
            + machine::LONGEST_STEP,
    decreases k,
{
    if k > 0 {
        let less = (k - 1) as nat;
        let here = debugger::stepped_times(before, less);
        lemma_inside_line(before, steps, less);
        assert(debugger::same_line(here, before));
        assert(debugger::goes_on(here));
        lemma_frame_bounds(here);
        lemma_frame_bounds(before);
        reveal_with_fuel(debugger::stepped_times, 2);
        if less > 0 {
            lemma_inside_line(before, steps, 1);
            lemma_frame_bounds(debugger::stepped_times(before, 1));
            assert(debugger::same_line(debugger::stepped_times(before, 1), before));
        }
        law_step_takes_its_time(here);
        lemma_frame_bounds(here.stepped());
        if k < steps {
            assert(debugger::same_line(debugger::stepped_times(before, k), before));
        }
    }
}

/// A trip is so many steps.
pub(crate) proof fn lemma_trip_is_steps(mode: Mode, before: MachineState, after: MachineState) -> (steps: nat)
    requires
        mode == Mode::Running || mode == Mode::Step(Step::Scanline),
        debugger::moved(mode, before, after),
    ensures
        after == debugger::stepped_times(before, steps),
{
    if mode == Mode::Running {
        choose|steps: nat| #[trigger]
            debugger::frame_run(before, steps) && after == debugger::stepped_times(before, steps)
    } else {
        choose|steps: nat| #[trigger]
            debugger::line_run(before, steps) && after == debugger::stepped_times(before, steps)
    }
}

/// A trip of a machine that goes on and on: it takes time, the beam keeps up,
/// and the books get no fuller. With a small stall on them, a frame's trip
/// ends in the next frame at the latest.
pub(crate) proof fn lemma_trip_goes_on(mode: Mode, before: MachineState, after: MachineState)
    requires
        mode == Mode::Running || mode == Mode::Step(Step::Scanline),
        in_time(before),
        steady(before),
        debugger::has_room(before),
        debugger::moved(mode, before, after),
    ensures
        in_time(after),
        steady(after),
        after.cycles > before.cycles,
        after.bus.dma_stall <= before.bus.dma_stall,
        mode == Mode::Running && before.bus.dma_stall <= 1000 ==> after.bus.clock.frame
            <= before.bus.clock.frame + 1,
{
    if mode == Mode::Running {
        let steps = choose|steps: nat| #[trigger]
            debugger::frame_run(before, steps) && after == debugger::stepped_times(before, steps);
        lemma_inside_frame(before, steps, steps);
        lemma_still_steady(before, steps);
    } else {
        let steps = choose|steps: nat| #[trigger]
            debugger::line_run(before, steps) && after == debugger::stepped_times(before, steps);
        lemma_inside_line(before, steps, steps);
        lemma_still_steady(before, steps);
    }
}

} // verus!
