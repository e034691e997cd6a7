//! A session without a window: the frames asked for, then a stop where the
//! picture is to be taken.

use vstd::prelude::*;

use crate::debugger;
use crate::debugger::{Debugger, Mode, Step};
use crate::machine;
use crate::machine::{Machine, MachineState};
use crate::options::Options;
use crate::pace;
use crate::sleep;
use crate::sleep::Watch;

verus! {

/// Where a trip round the loop ends. There is only one such place.
#[verifier::opaque]
pub open spec fn trip(mode: Mode, before: MachineState) -> MachineState {
    choose|after: MachineState| debugger::moved(mode, before, after)
}

/// `trips` trips round the loop in one mode.
pub open spec fn tripped(mode: Mode, before: MachineState, trips: nat) -> MachineState
    decreases trips,
{
    if trips == 0 {
        before
    } else {
        trip(mode, tripped(mode, before, (trips - 1) as nat))
    }
}

/// Whether the trip after `k` trips goes as far as the mode says.
#[verifier::opaque]
pub open spec fn trip_ends(mode: Mode, before: MachineState, k: nat) -> bool {
    debugger::moved(mode, tripped(mode, before, k), tripped(mode, before, k + 1))
}

/// A machine that runs, `trips` trips of a frame each, until the frame
/// counter reaches a target. It stops short where its odometer has no room
/// for another frame, and where it is asleep: it would never get there.
pub open spec fn frames_run(before: MachineState, target: u64, trips: nat) -> bool {
    &&& forall|k: nat|
        k < trips ==> (#[trigger] tripped(Mode::Running, before, k)).bus.clock.frame < target && debugger::has_room(
            tripped(Mode::Running, before, k),
        ) && trip_ends(Mode::Running, before, k)
    &&& {
        let after = tripped(Mode::Running, before, trips);
        ||| after.bus.clock.frame >= target
        ||| !debugger::has_room(after)
        ||| sleep::asleep(after)
    }
}

/// A machine that runs, `trips` trips of a line each, until its beam stands
/// on a line, or, as above, until it cannot go on.
pub open spec fn lines_run(before: MachineState, line: u16, trips: nat) -> bool {
    let mode = Mode::Step(Step::Scanline);
    &&& forall|k: nat|
        k < trips ==> (#[trigger] tripped(mode, before, k)).bus.clock.scanline != line && debugger::has_room(
            tripped(mode, before, k),
        ) && trip_ends(mode, before, k)
    &&& {
        let after = tripped(mode, before, trips);
        ||| after.bus.clock.scanline == line
        ||| !debugger::has_room(after)
        ||| sleep::asleep(after)
    }
}

/// Whether a run to a frame may stop at a machine.
pub open spec fn ran_to_frame(before: MachineState, target: u64, after: MachineState) -> bool {
    exists|trips: nat| #[trigger] frames_run(before, target, trips) && after == tripped(Mode::Running, before, trips)
}

/// Whether a run to a line may stop at a machine.
pub open spec fn ran_to_line(before: MachineState, line: u16, after: MachineState) -> bool {
    exists|trips: nat| #[trigger]
        lines_run(before, line, trips) && after == tripped(Mode::Step(Step::Scanline), before, trips)
}

/// Trips of a machine that is asleep: it still is, and no time has passed.
proof fn lemma_sleeping_trips(mode: Mode, before: MachineState, from: nat, trips: nat)
    requires
        mode == Mode::Running || mode == Mode::Step(Step::Scanline),
        from <= trips,
        sleep::asleep(tripped(mode, before, from)),
        forall|k: nat| from <= k < trips ==> #[trigger] trip_ends(mode, before, k),
    ensures
        sleep::asleep(tripped(mode, before, trips)),
        tripped(mode, before, trips).cycles == tripped(mode, before, from).cycles,
        tripped(mode, before, trips).bus.clock == tripped(mode, before, from).bus.clock,
    decreases trips,
{
    if from < trips {
        let less = (trips - 1) as nat;
        let here = tripped(mode, before, less);
        lemma_sleeping_trips(mode, before, from, less);
        assert(trip_ends(mode, before, less));
        reveal(trip_ends);
        let steps = pace::lemma_trip_is_steps(mode, here, tripped(mode, before, trips));
        sleep::law_sleep_is_for_good(here, steps);
    }
}

/// A machine that is asleep never gets anywhere: however many trips it
/// makes, its frame and its line stay what they are.
pub proof fn law_sleeper_never_arrives(mode: Mode, before: MachineState, trips: nat)
    requires
        mode == Mode::Running || mode == Mode::Step(Step::Scanline),
        sleep::asleep(before),
        forall|k: nat| k < trips ==> #[trigger] trip_ends(mode, before, k),
    ensures
        tripped(mode, before, trips).cycles == before.cycles,
        tripped(mode, before, trips).bus.clock == before.bus.clock,
{
    lemma_sleeping_trips(mode, before, 0, trips);
}

/// A run to a frame stops in one place only, unless it never gets there: two
/// runs from one machine end at the same machine, or both at one asleep.
pub proof fn law_run_to_frame_is_determined(
    before: MachineState,
    target: u64,
    one: MachineState,
    other: MachineState,
)
    requires
        ran_to_frame(before, target, one),
        ran_to_frame(before, target, other),
    ensures
        one == other || sleep::asleep(one) && sleep::asleep(other),
{
    let mode = Mode::Running;
    let m = choose|trips: nat| #[trigger] frames_run(before, target, trips) && one == tripped(mode, before, trips);
    let n = choose|trips: nat| #[trigger] frames_run(before, target, trips) && other == tripped(mode, before, trips);
    if m < n {
        assert(tripped(mode, before, m).bus.clock.frame < target);
        assert forall|k: nat| k < n implies #[trigger] trip_ends(mode, before, k) by {
            assert(tripped(mode, before, k).bus.clock.frame < target);
        }
        lemma_sleeping_trips(mode, before, m, n);
    } else if n < m {
        assert(tripped(mode, before, n).bus.clock.frame < target);
        assert forall|k: nat| k < m implies #[trigger] trip_ends(mode, before, k) by {
            assert(tripped(mode, before, k).bus.clock.frame < target);
        }
        lemma_sleeping_trips(mode, before, n, m);
    }
}

/// A run to a line stops in one place only, unless it never gets there.
pub proof fn law_run_to_line_is_determined(
    before: MachineState,
    line: u16,
    one: MachineState,
    other: MachineState,
)
    requires
        ran_to_line(before, line, one),
        ran_to_line(before, line, other),
    ensures
        one == other || sleep::asleep(one) && sleep::asleep(other),
{
    let mode = Mode::Step(Step::Scanline);
    let m = choose|trips: nat| #[trigger] lines_run(before, line, trips) && one == tripped(mode, before, trips);
    let n = choose|trips: nat| #[trigger] lines_run(before, line, trips) && other == tripped(mode, before, trips);
    if m < n {
        assert(tripped(mode, before, m).bus.clock.scanline != line);
        assert forall|k: nat| k < n implies #[trigger] trip_ends(mode, before, k) by {
            assert(tripped(mode, before, k).bus.clock.scanline != line);
        }
        lemma_sleeping_trips(mode, before, m, n);
    } else if n < m {
        assert(tripped(mode, before, n).bus.clock.scanline != line);
        assert forall|k: nat| k < m implies #[trigger] trip_ends(mode, before, k) by {
            assert(tripped(mode, before, k).bus.clock.scanline != line);
        }
        lemma_sleeping_trips(mode, before, n, m);
    }
}

/// A run that begins asleep ends asleep.
proof fn lemma_sleeping_runs(before: MachineState, target: u64, line: u16, after: MachineState)
    requires
        sleep::asleep(before),
        ran_to_frame(before, target, after) || ran_to_line(before, line, after),
    ensures
        sleep::asleep(after),
{
    if ran_to_frame(before, target, after) {
        let mode = Mode::Running;
        let n = choose|trips: nat| #[trigger] frames_run(before, target, trips) && after == tripped(mode, before, trips);
        assert forall|k: nat| 0 <= k < n implies #[trigger] trip_ends(mode, before, k) by {
            assert(tripped(mode, before, k).bus.clock.frame < target);
        }
        lemma_sleeping_trips(mode, before, 0, n);
    } else {
        let mode = Mode::Step(Step::Scanline);
        let n = choose|trips: nat| #[trigger] lines_run(before, line, trips) && after == tripped(mode, before, trips);
        assert forall|k: nat| 0 <= k < n implies #[trigger] trip_ends(mode, before, k) by {
            assert(tripped(mode, before, k).bus.clock.scanline != line);
        }
        lemma_sleeping_trips(mode, before, 0, n);
    }
}

/// Where a trip ends is where it was seen to end.
proof fn lemma_trip(mode: Mode, before: MachineState, trips: nat, after: MachineState)
    requires
        debugger::moved(mode, tripped(mode, before, trips), after),
    ensures
        tripped(mode, before, trips + 1) == after,
        trip_ends(mode, before, trips),
{
    reveal(trip);
    reveal(trip_ends);
    let here = tripped(mode, before, trips);
    debugger::law_trip_is_determined(mode, here, after, trip(mode, here));
}

/// Run until so many frames are finished.
pub fn run_to_frame(debugger: &mut Debugger, machine: &mut Machine, target: u64)
    requires
        old(machine)@.wf(),
        old(debugger).mode == Mode::Running,
    ensures
        ran_to_frame(old(machine)@, target, final(machine)@),
        final(machine)@.wf(),
        *final(debugger) == *old(debugger),
{
    let ghost before = machine@;
    let ghost mut trips: nat = 0;
    let mut watch = Watch::new(machine);
    proof {
        machine::lemma_view_fields(*machine);
    }
    while machine.bus.clock.frame < target
        invariant_except_break
            watch.wf(),
            watch.here() == machine@,
        invariant
            before == old(machine)@,
            machine@.wf(),
            machine@ == tripped(Mode::Running, before, trips),
            machine.bus.clock == machine@.bus.clock,
            *debugger == *old(debugger),
            debugger.mode == Mode::Running,
            forall|k: nat|
                k < trips ==> (#[trigger] tripped(Mode::Running, before, k)).bus.clock.frame < target
                    && debugger::has_room(tripped(Mode::Running, before, k)) && trip_ends(Mode::Running, before, k),
        ensures
            frames_run(before, target, trips),
        decreases u64::MAX - machine.cycles, sleep::MOODS - watch.idle,
    {
        proof {
            machine::lemma_view_fields(*machine);
        }
        if !room(machine) {
            break;
        }
        let cycles = machine.cycles;
        debugger.run(machine);
        proof {
            lemma_trip(Mode::Running, before, trips, machine@);
            machine::lemma_view_fields(*machine);
            trips = trips + 1;
        }
        if machine.cycles != cycles {
            watch = Watch::new(machine);
        } else if watch.sees(machine) {
            break;
        }
    }
    assert(frames_run(before, target, trips));
}

/// Step a line at a time until the beam is on a line.
pub fn run_to_line(debugger: &mut Debugger, machine: &mut Machine, line: u16)
    requires
        old(machine)@.wf(),
        old(debugger).open,
        old(debugger).mode == Mode::Paused,
    ensures
        ran_to_line(old(machine)@, line, final(machine)@),
        final(machine)@.wf(),
        *final(debugger) == *old(debugger),
{
    let ghost before = machine@;
    let ghost mut trips: nat = 0;
    let ghost mode = Mode::Step(Step::Scanline);
    let mut watch = Watch::new(machine);
    proof {
        machine::lemma_view_fields(*machine);
    }
    while machine.bus.clock.scanline != line
        invariant_except_break
            watch.wf(),
            watch.here() == machine@,
        invariant
            before == old(machine)@,
            mode == Mode::Step(Step::Scanline),
            machine@.wf(),
            machine@ == tripped(mode, before, trips),
            machine.bus.clock == machine@.bus.clock,
            *debugger == *old(debugger),
            debugger.open,
            debugger.mode == Mode::Paused,
            forall|k: nat|
                k < trips ==> (#[trigger] tripped(mode, before, k)).bus.clock.scanline != line
                    && debugger::has_room(tripped(mode, before, k)) && trip_ends(mode, before, k),
        ensures
            lines_run(before, line, trips),
        decreases u64::MAX - machine.cycles, sleep::MOODS - watch.idle,
    {
        proof {
            machine::lemma_view_fields(*machine);
        }
        if !room(machine) {
            break;
        }
        let cycles = machine.cycles;
        debugger.step(Step::Scanline);
        debugger.run(machine);
        proof {
            lemma_trip(mode, before, trips, machine@);
            machine::lemma_view_fields(*machine);
            trips = trips + 1;
        }
        if machine.cycles != cycles {
            watch = Watch::new(machine);
        } else if watch.sees(machine) {
            break;
        }
    }
    assert(lines_run(before, line, trips));
}

/// Whether a machine has room on its odometer for a frame.
pub fn room(machine: &Machine) -> (enough: bool)
    ensures
        enough == debugger::has_room(machine@),
{
    proof {
        machine::lemma_view_fields(*machine);
    }
    let most: u64 = 0xFFFF_FFFF_FFFF_FFFF - debugger::LONGEST_FRAME;
    machine.bus.dma_stall < most && machine.cycles < most - machine.bus.dma_stall
}

/// The frame a session runs to: the frames asked for, and sixty more if a
/// trap was asked for.
pub open spec fn last_frame(frames: u64, trapped: bool) -> int {
    if trapped {
        frames + 60
    } else {
        frames as int
    }
}

/// Whether the frames of a session may end at a machine: the frames asked
/// for, and then, if a trap was asked for, sixty more.
pub open spec fn frames_ran(before: MachineState, frames: u64, trapped: bool, late: MachineState) -> bool {
    if trapped {
        exists|run: MachineState| #[trigger]
            ran_to_frame(before, frames, run) && ran_to_frame(run, (frames + 60) as u64, late)
    } else {
        ran_to_frame(before, frames, late)
    }
}

/// Whether a session may stop at a machine: the frames run, then the line to
/// stop on. No trap is ever armed, so none springs: a session that asks for
/// one waits its sixty frames out.
pub open spec fn session_ran(
    before: MachineState,
    frames: u64,
    trapped: bool,
    line: Option<u16>,
    after: MachineState,
) -> bool {
    match line {
        Some(line) => exists|late: MachineState| #[trigger]
            frames_ran(before, frames, trapped, late) && ran_to_line(late, line, after),
        None => frames_ran(before, frames, trapped, after),
    }
}

/// Run without a window: the frames asked for, and to the stop where the
/// picture is to be taken. Hands back the debugger as it stands there: open
/// if its panels were asked for, or if it had to step to a line. The debugger
/// has no traps: of a trap in the options only the sixty frames that it is
/// given after the others remain.
pub fn headless(machine: &mut Machine, options: &Options) -> (debugger: Debugger)
    requires
        old(machine)@.wf(),
        options.trap is Some ==> options.frames + 60 <= u64::MAX,
        options.line is Some ==> options.line->0 < 262,
    ensures
        session_ran(old(machine)@, options.frames, options.trap is Some, options.line, final(machine)@),
        final(machine)@.wf(),
        debugger.open == (options.debug || options.line is Some),
        debugger.mode == (if debugger.open {
            Mode::Paused
        } else {
            Mode::Running
        }),
{
    let ghost before = machine@;
    let mut debugger = Debugger::new();
    run_to_frame(&mut debugger, machine, options.frames);
    if options.trap.is_some() {
        run_to_frame(&mut debugger, machine, options.frames + 60);
    }
    assert(frames_ran(before, options.frames, options.trap is Some, machine@));
    if options.debug {
        debugger.toggle();
    }
    if let Some(line) = options.line {
        if !debugger.open {
            debugger.toggle();
        }
        run_to_line(&mut debugger, machine, line);
    }
    debugger
}

/// What so many trips leave of a machine all of whose steps go on: its beam
/// in time, its books no fuller, and at least a cycle gone by for every trip
/// since the first `from`.
proof fn lemma_trips_go_on(mode: Mode, before: MachineState, trips: nat, from: nat)
    requires
        mode == Mode::Running || mode == Mode::Step(Step::Scanline),
        pace::in_time(before),
        pace::steady(before),
        from <= trips,
        forall|k: nat|
            k < trips ==> debugger::has_room(#[trigger] tripped(mode, before, k)) && trip_ends(mode, before, k),
    ensures
        pace::in_time(tripped(mode, before, trips)),
        pace::steady(tripped(mode, before, trips)),
        tripped(mode, before, trips).cycles >= tripped(mode, before, from).cycles + (trips - from),
        tripped(mode, before, trips).bus.dma_stall <= before.bus.dma_stall,
    decreases trips,
{
    if trips > 0 {
        let less = (trips - 1) as nat;
        let here = tripped(mode, before, less);
        lemma_trips_go_on(mode, before, less, if from < trips {
            from
        } else {
            less
        });
        assert(debugger::has_room(here) && trip_ends(mode, before, less));
        reveal(trip_ends);
        pace::lemma_trip_goes_on(mode, here, tripped(mode, before, trips));
    }
}

/// A machine with a small stall on its books passes no frame over.
proof fn lemma_frames_are_counted(before: MachineState, target: u64, trips: nat, k: nat)
    requires
        pace::in_time(before),
        pace::steady(before),
        frames_run(before, target, trips),
        before.bus.dma_stall <= 1000,
        k <= trips,
    ensures
        tripped(Mode::Running, before, k).bus.clock.frame <= before.bus.clock.frame || tripped(
            Mode::Running,
            before,
            k,
        ).bus.clock.frame <= target,
    decreases k,
{
    if k > 0 {
        let less = (k - 1) as nat;
        let here = tripped(Mode::Running, before, less);
        lemma_frames_are_counted(before, target, trips, less);
        lemma_trips_go_on(Mode::Running, before, less, less);
        assert(here.bus.clock.frame < target && trip_ends(Mode::Running, before, less));
        reveal(trip_ends);
        pace::lemma_trip_goes_on(Mode::Running, here, tripped(Mode::Running, before, k));
    }
}

/// A machine all of whose steps go on is awake.
proof fn lemma_awake(machine: MachineState)
    requires
        pace::steady(machine),
    ensures
        !sleep::asleep(machine),
{
    assert(debugger::goes_on(debugger::stepped_times(machine, 0)));
}

/// A run to a frame gets there, if every step goes on and the odometer has
/// room for so many frames; and it stops in that very frame, or in the one it
/// began in if that is later, unless a long stall was on the books. What
/// comes after it is a machine of the same kind.
pub proof fn law_frame_is_reached(before: MachineState, target: u64, after: MachineState)
    requires
        pace::in_time(before),
        pace::steady(before),
        target * pace::FRAME_CYCLES + before.bus.dma_stall + debugger::LONGEST_FRAME < u64::MAX,
        ran_to_frame(before, target, after),
    ensures
        after.bus.clock.frame >= target,
        after.bus.clock.frame >= before.bus.clock.frame,
        before.bus.dma_stall <= 1000 ==> after.bus.clock.frame == if before.bus.clock.frame >= target {
            before.bus.clock.frame
        } else {
            target
        },
        pace::in_time(after),
        pace::steady(after),
        after.bus.dma_stall <= before.bus.dma_stall,
{
    let trips = choose|trips: nat| #[trigger]
        frames_run(before, target, trips) && after == tripped(Mode::Running, before, trips);
    lemma_trips_go_on(Mode::Running, before, trips, 0);
    lemma_awake(after);
    pace::lemma_frame_bounds(after);
    pace::lemma_frame_bounds(before);
    assert(tripped(Mode::Running, before, 0) == before);
    if before.bus.dma_stall <= 1000 {
        lemma_frames_are_counted(before, target, trips, trips);
    }
}

/// A run to a line gets there, if every step goes on, unless the odometer
/// ran out of room: a machine that stalls as the beam comes by may miss the
/// line in one frame after the other.
pub proof fn law_line_is_reached(before: MachineState, line: u16, after: MachineState)
    requires
        pace::in_time(before),
        pace::steady(before),
        ran_to_line(before, line, after),
    ensures
        after.bus.clock.scanline == line || !debugger::has_room(after),
        after.bus.clock.frame >= before.bus.clock.frame,
{
    let mode = Mode::Step(Step::Scanline);
    let trips = choose|trips: nat| #[trigger]
        lines_run(before, line, trips) && after == tripped(mode, before, trips);
    lemma_trips_go_on(mode, before, trips, 0);
    lemma_awake(after);
    pace::lemma_frame_bounds(after);
    pace::lemma_frame_bounds(before);
    assert(tripped(mode, before, 0) == before);
}

/// Where a session ends, if every step goes on and the odometer has room:
/// with the frames it was asked for behind it, in exactly that frame, or the
/// one it began in if that is later, when no long stall was on the books and
/// no line was asked for; and with the beam on the line asked for.
pub proof fn law_session_ends_where_asked(
    before: MachineState,
    frames: u64,
    trapped: bool,
    line: Option<u16>,
    after: MachineState,
)
    requires
        before.wf(),
        pace::steady(before),
        trapped ==> frames + 60 <= u64::MAX,
        last_frame(frames, trapped) * pace::FRAME_CYCLES + before.bus.dma_stall + debugger::LONGEST_FRAME
            < u64::MAX,
        session_ran(before, frames, trapped, line, after),
        line is Some ==> debugger::has_room(after),
    ensures
        after.bus.clock.frame >= last_frame(frames, trapped),
        line is None && before.bus.dma_stall <= 1000 ==> after.bus.clock.frame == if before.bus.clock.frame
            >= last_frame(frames, trapped) {
            before.bus.clock.frame as int
        } else {
            last_frame(frames, trapped)
        },
        line is Some ==> after.bus.clock.scanline == line->0,
{
    pace::lemma_in_time(before);
    let late = match line {
        Some(line) => choose|late: MachineState| #[trigger]
            frames_ran(before, frames, trapped, late) && ran_to_line(late, line, after),
        None => after,
    };
    if trapped {
        let run = choose|run: MachineState| #[trigger]
            ran_to_frame(before, frames, run) && ran_to_frame(run, (frames + 60) as u64, late);
        law_frame_is_reached(before, frames, run);
        law_frame_is_reached(run, (frames + 60) as u64, late);
    } else {
        law_frame_is_reached(before, frames, late);
    }
    if let Some(line) = line {
        law_line_is_reached(late, line, after);
    }
}

/// The frames of a session end in one place only, unless they never do.
proof fn lemma_frames_are_determined(
    before: MachineState,
    frames: u64,
    trapped: bool,
    one: MachineState,
    other: MachineState,
)
    requires
        frames_ran(before, frames, trapped, one),
        frames_ran(before, frames, trapped, other),
    ensures
        one == other || sleep::asleep(one) && sleep::asleep(other),
{
    if trapped {
        let later = (frames + 60) as u64;
        let a = choose|run: MachineState| #[trigger] ran_to_frame(before, frames, run) && ran_to_frame(run, later, one);
        let b = choose|run: MachineState| #[trigger] ran_to_frame(before, frames, run) && ran_to_frame(run, later, other);
        law_run_to_frame_is_determined(before, frames, a, b);
        if a == b {
            law_run_to_frame_is_determined(a, later, one, other);
        } else {
            lemma_sleeping_runs(a, later, 0, one);
            lemma_sleeping_runs(b, later, 0, other);
        }
    } else {
        law_run_to_frame_is_determined(before, frames, one, other);
    }
}

/// A session stops in one place only, unless it never gets where it was sent:
/// two sessions from one machine end at the same machine, or both at one
/// asleep.
pub proof fn law_session_is_determined(
    before: MachineState,
    frames: u64,
    trapped: bool,
    line: Option<u16>,
    one: MachineState,
    other: MachineState,
)
    requires
        session_ran(before, frames, trapped, line, one),
        session_ran(before, frames, trapped, line, other),
    ensures
        one == other || sleep::asleep(one) && sleep::asleep(other),
{
    match line {
        Some(line) => {
            let a = choose|late: MachineState| #[trigger]
                frames_ran(before, frames, trapped, late) && ran_to_line(late, line, one);
            let b = choose|late: MachineState| #[trigger]
                frames_ran(before, frames, trapped, late) && ran_to_line(late, line, other);
            lemma_frames_are_determined(before, frames, trapped, a, b);
            if a == b {
                law_run_to_line_is_determined(a, line, one, other);
            } else {
                lemma_sleeping_runs(a, 0, line, one);
                lemma_sleeping_runs(b, 0, line, other);
            }
        },
        None => lemma_frames_are_determined(before, frames, trapped, one, other),
    }
}

/// The frame a session runs to: the one asked for, or with a trap the
/// sixtieth after it.
pub proof fn law_traps_wait_sixty_frames(frames: u64)
    ensures
        last_frame(frames, false) == frames,
        last_frame(frames, true) == frames + 60,
{
}

} // verus!
