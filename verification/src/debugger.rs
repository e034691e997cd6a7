//! Stopping the machine, and looking at it while it stands still.

use vstd::prelude::*;

use crate::canvas;
use crate::canvas::Canvas;
use crate::font::Font;
use crate::machine;
use crate::machine::{Machine, MachineState};
use crate::text;

verus! {

/// How far to move the machine before it stops again.
#[derive(Clone, Copy, PartialEq, Eq, Debug, Structural)]
pub enum Step {
    /// One instruction, the smallest move this processor can make.
    Instruction,
    /// Until the beam is on the next scanline.
    Scanline,
    /// Until the picture is complete.
    Frame,
}

/// What the machine does on the next trip round the window loop.
#[derive(Clone, Copy, PartialEq, Eq, Debug, Structural)]
pub enum Mode {
    /// A whole frame per trip, as if nobody were watching.
    Running,
    /// Nothing at all: the machine stands still and the panels read it.
    Paused,
    /// One step, then a pause.
    Step(Step),
}

/// The debugger: a mode, and whether its panels are on screen.
#[derive(Clone, Copy)]
pub struct Debugger {
    pub mode: Mode,
    pub open: bool,
}

/// Text in the panels: light on dark.
pub const INK: u32 = 0x00E0_E0E0;

/// Labels and the key help, dimmer, so the numbers stand out.
pub const DIM: u32 = 0x0080_8080;

/// The panels' background: dark, but not the black the game's own picture
/// might use.
pub const PANEL: u32 = 0x0018_1820;

/// `steps` instructions in a row.
pub open spec fn stepped_times(machine: MachineState, steps: nat) -> MachineState
    decreases steps,
{
    if steps == 0 {
        machine
    } else {
        stepped_times(machine, (steps - 1) as nat).stepped()
    }
}

/// Whether a machine's next step goes on.
pub open spec fn goes_on(machine: MachineState) -> bool {
    machine::runs(machine.opcode())
}

/// Whether two machines are in the same frame.
pub open spec fn same_frame(machine: MachineState, other: MachineState) -> bool {
    machine.bus.clock.frame == other.bus.clock.frame
}

/// Whether two machines' beams are on the same line.
pub open spec fn same_line(machine: MachineState, other: MachineState) -> bool {
    machine.bus.clock.scanline == other.bus.clock.scanline
}

/// A machine run, `steps` steps, until the frame was over: every step but
/// the last left it in the frame and able to go on, and the last left the
/// frame or found an opcode that does not run.
pub open spec fn frame_run(before: MachineState, steps: nat) -> bool {
    &&& steps > 0
    &&& forall|k: nat| k < steps ==> same_frame(#[trigger] stepped_times(before, k), before)
    &&& forall|k: nat| k + 1 < steps ==> goes_on(#[trigger] stepped_times(before, k))
    &&& !same_frame(stepped_times(before, steps), before) || !goes_on(
        stepped_times(before, (steps - 1) as nat),
    )
}

/// The same for a line.
pub open spec fn line_run(before: MachineState, steps: nat) -> bool {
    &&& steps > 0
    &&& forall|k: nat| k < steps ==> same_line(#[trigger] stepped_times(before, k), before)
    &&& forall|k: nat| k + 1 < steps ==> goes_on(#[trigger] stepped_times(before, k))
    &&& !same_line(stepped_times(before, steps), before) || !goes_on(
        stepped_times(before, (steps - 1) as nat),
    )
}

/// The room a frame needs on the odometer.
pub const LONGEST_FRAME: u64 = 40000;

/// Whether a machine has room on its odometer for a frame.
pub open spec fn has_room(machine: MachineState) -> bool {
    machine.cycles + machine.bus.dma_stall + LONGEST_FRAME < u64::MAX
}

/// What a debugger's mode makes of a machine.
pub open spec fn moved(mode: Mode, before: MachineState, after: MachineState) -> bool {
    match mode {
        Mode::Paused => after == before,
        Mode::Step(Step::Instruction) => after == before.stepped(),
        Mode::Step(Step::Scanline) => exists|steps: nat|
            #[trigger] line_run(before, steps) && after == stepped_times(before, steps),
        Mode::Running | Mode::Step(Step::Frame) => exists|steps: nat|
            #[trigger] frame_run(before, steps) && after == stepped_times(before, steps),
    }
}

/// The mode a trip leaves: a step ends in a pause.
pub open spec fn rested(mode: Mode) -> Mode {
    match mode {
        Mode::Step(_) => Mode::Paused,
        _ => mode,
    }
}

impl Debugger {
    /// Closed and running: a machine that does not know it is watched.
    pub fn new() -> (debugger: Debugger)
        ensures
            debugger.mode == Mode::Running,
            !debugger.open,
    {
        Debugger { mode: Mode::Running, open: false }
    }

    /// Open the panels and stop the machine, or close them and let it go.
    pub fn toggle(&mut self)
        ensures
            final(self).open == !old(self).open,
            final(self).mode == (if final(self).open {
                Mode::Paused
            } else {
                Mode::Running
            }),
    {
        self.open = !self.open;
        self.mode = if self.open {
            Mode::Paused
        } else {
            Mode::Running
        };
    }

    /// Ask for one step. A running machine ignores the request: the step
    /// keys mean something only while the panels are open.
    pub fn step(&mut self, step: Step)
        ensures
            final(self).open == old(self).open,
            final(self).mode == (if old(self).open {
                Mode::Step(step)
            } else {
                old(self).mode
            }),
    {
        if self.open {
            self.mode = Mode::Step(step);
        }
    }

    /// Move the machine as far as the mode says. A step ends in a pause; a
    /// jammed machine stops wherever it is.
    pub fn run(&mut self, machine: &mut Machine)
        requires
            old(machine)@.wf(),
            has_room(old(machine)@),
        ensures
            moved(old(self).mode, old(machine)@, final(machine)@),
            final(machine)@.wf(),
            final(machine).cycles >= old(machine).cycles,
            old(machine).bus.dma_stall <= 1000 && (old(self).mode == Mode::Running || old(self).mode
                == Mode::Step(Step::Frame)) ==> final(machine).bus.clock.frame <= old(
                machine,
            ).bus.clock.frame + 1,
            old(self).mode != Mode::Paused && final(machine).cycles == old(machine).cycles ==> !goes_on(
                old(machine)@,
            ) && final(machine)@ == old(machine)@.stepped(),
            final(self).mode == rested(old(self).mode),
            final(self).open == old(self).open,
    {
        match self.mode {
            Mode::Running => run_frame(machine),
            Mode::Paused => {},
            Mode::Step(Step::Instruction) => {
                proof {
                    machine::lemma_view_fields(*machine);
                }
                machine.step();
            },
            Mode::Step(Step::Scanline) => run_scanline(machine),
            Mode::Step(Step::Frame) => run_frame(machine),
        }
        if let Mode::Step(_) = self.mode {
            self.mode = Mode::Paused;
        }
    }
}

/// Where a machine's odometer puts its beam.
pub(crate) proof fn lemma_beam(machine: MachineState)
    requires
        machine.wf(),
    ensures
        machine.bus.clock.frame * 89342 <= 3 * machine.cycles < (machine.bus.clock.frame + 1) * 89342,
        machine.bus.clock.dot < 341,
        machine.bus.clock.scanline < 262,
        3 * machine.cycles == machine.bus.clock.frame * 89342 + machine.bus.clock.scanline * 341
            + machine.bus.clock.dot,
{
    reveal(machine::in_step);
}

/// Run until the clock's frame counter moves. A jammed machine keeps its
/// last picture.
pub fn run_frame(machine: &mut Machine)
    requires
        old(machine)@.wf(),
        has_room(old(machine)@),
    ensures
        exists|steps: nat| #[trigger] frame_run(old(machine)@, steps) && final(machine)@ == stepped_times(old(machine)@, steps),
        final(machine)@.wf(),
        final(machine).cycles >= old(machine).cycles,
        old(machine).bus.dma_stall <= 1000 ==> final(machine).bus.clock.frame <= old(machine).bus.clock.frame
            + 1,
        final(machine).cycles == old(machine).cycles ==> !goes_on(old(machine)@) && final(machine)@ == old(
            machine,
        )@.stepped(),
{
    reveal_with_fuel(stepped_times, 2);
    let frame = machine.bus.clock.frame;
    let ghost mut steps: nat = 0;
    let ghost before = machine@;
    proof {
        machine::lemma_view_fields(*machine);
        lemma_beam(machine@);
    }
    while machine.bus.clock.frame == frame
        invariant_except_break
            steps > 0 ==> goes_on(stepped_times(before, (steps - 1) as nat)),
            steps > 0 ==> machine.cycles > before.cycles,
            forall|k: nat| k < steps ==> goes_on(#[trigger] stepped_times(before, k)),
        invariant
            before == old(machine)@,
            has_room(before),
            before.wf(),
            frame == before.bus.clock.frame,
            machine@ == stepped_times(before, steps),
            machine@.wf(),
            machine.cycles >= before.cycles,
            machine.bus.clock == machine@.bus.clock,
            machine.bus.dma_stall <= before.bus.dma_stall,
            before.bus.dma_stall <= 1000 ==> machine.bus.clock.frame <= frame + 1,
            forall|k: nat| k < steps ==> same_frame(#[trigger] stepped_times(before, k), before),
        ensures
            frame_run(before, steps),
            machine.cycles == before.cycles ==> steps == 1 && !goes_on(before),
        decreases 3 * u64::MAX - 3 * machine.cycles,
    {
        proof {
            machine::lemma_view_fields(*machine);
            lemma_beam(before);
            lemma_beam(machine@);
            assert(same_frame(stepped_times(before, steps), before));
        }
        let went_on = machine.step();
        proof {
            steps = steps + 1;
            assert(machine@ == stepped_times(before, steps));
            machine::lemma_view_fields(*machine);
            lemma_beam(machine@);
        }
        if !went_on {
            break;
        }
    }
}

/// Run until the beam is on a different scanline. The stop lands on an
/// instruction boundary, never on the line's first dot: this processor
/// finishes what it started.
#[verifier::rlimit(30)]
pub fn run_scanline(machine: &mut Machine)
    requires
        old(machine)@.wf(),
        has_room(old(machine)@),
    ensures
        exists|steps: nat| #[trigger] line_run(old(machine)@, steps) && final(machine)@ == stepped_times(old(machine)@, steps),
        final(machine)@.wf(),
        final(machine).cycles >= old(machine).cycles,
        final(machine).cycles == old(machine).cycles ==> !goes_on(old(machine)@) && final(machine)@ == old(
            machine,
        )@.stepped(),
{
    reveal_with_fuel(stepped_times, 2);
    let scanline = machine.bus.clock.scanline;
    let ghost mut steps: nat = 0;
    // The odometer after the first step, which alone may carry a stall.
    let ghost mut landed: int = 0;
    let ghost before = machine@;
    proof {
        machine::lemma_view_fields(*machine);
        lemma_beam(machine@);
    }
    while machine.bus.clock.scanline == scanline
        invariant_except_break
            steps > 0 ==> goes_on(stepped_times(before, (steps - 1) as nat)),
            steps > 0 ==> machine.cycles > before.cycles,
            forall|k: nat| k < steps ==> goes_on(#[trigger] stepped_times(before, k)),
            machine.bus.dma_stall == (if steps == 0 {
                before.bus.dma_stall
            } else {
                0
            }),
            steps == 0 ==> machine.cycles == before.cycles,
        invariant
            before == old(machine)@,
            has_room(before),
            before.wf(),
            scanline == before.bus.clock.scanline,
            machine@ == stepped_times(before, steps),
            machine@.wf(),
            machine.cycles >= before.cycles,
            machine.bus.clock == machine@.bus.clock,
            steps > 0 ==> landed <= before.cycles + before.bus.dma_stall + machine::LONGEST_STEP,
            steps > 0 && machine.bus.clock.scanline == scanline ==> machine.bus.clock.frame * 89342
                + scanline * 341 <= 3 * landed,
            forall|k: nat| k < steps ==> same_line(#[trigger] stepped_times(before, k), before),
        ensures
            line_run(before, steps),
            machine.cycles == before.cycles ==> steps == 1 && !goes_on(before),
        decreases 3 * u64::MAX - 3 * machine.cycles,
    {
        proof {
            machine::lemma_view_fields(*machine);
            lemma_beam(before);
            lemma_beam(machine@);
            assert(same_line(stepped_times(before, steps), before));
        }
        let went_on = machine.step();
        proof {
            if steps == 0 {
                landed = machine.cycles as int;
            }
            steps = steps + 1;
            assert(machine@ == stepped_times(before, steps));
            machine::lemma_view_fields(*machine);
            lemma_beam(machine@);
        }
        if !went_on {
            break;
        }
    }
}

/// One line of a panel: which row of text it is, what it says, and in what
/// color.
pub ghost struct PanelLine {
    pub row: int,
    pub text: Seq<char>,
    pub color: u32,
}

/// The registers panel: the pockets, the flags spelled out over their bits,
/// where the beam is, and the keys.
pub open spec fn registers_panel(machine: MachineState) -> Seq<PanelLine> {
    let clock = machine.bus.clock;
    seq![
        PanelLine {
            row: 0,
            text: "A:"@ + text::padded(machine.a as int, 16, 2) + " X:"@ + text::padded(
                machine.x as int,
                16,
                2,
            ) + " Y:"@ + text::padded(machine.y as int, 16, 2) + " SP:"@ + text::padded(
                machine.sp as int,
                16,
                2,
            ),
            color: INK,
        },
        PanelLine { row: 1, text: "PC:"@ + text::padded(machine.pc as int, 16, 4), color: INK },
        PanelLine { row: 2, text: "NV-BDIZC"@, color: DIM },
        PanelLine { row: 3, text: text::padded(machine.status as int, 2, 8), color: INK },
        PanelLine { row: 5, text: "frame "@ + text::decimal(clock.frame as nat), color: INK },
        PanelLine {
            row: 6,
            text: "line "@ + text::decimal(clock.scanline as nat) + "  dot "@ + text::decimal(
                clock.dot as nat,
            ),
            color: INK,
        },
        PanelLine { row: 8, text: "Tab run/stop  N step"@, color: DIM },
        PanelLine { row: 9, text: "L scanline    F frame"@, color: DIM },
    ]
}

/// The color of a panel at a distance from its corner, over what was there:
/// that of the last line lit there. Rows are ten pixels apart, eight of
/// glyph and two of air.
pub open spec fn panel_color(lines: Seq<PanelLine>, font: Font, across: int, down: int, under: u32) -> u32
    decreases lines.len(),
{
    if lines.len() == 0 {
        under
    } else if canvas::text_lit(font, lines.last().text, across, down - lines.last().row * 10) {
        lines.last().color
    } else {
        panel_color(lines.drop_last(), font, across, down, under)
    }
}

/// A canvas with a panel painted over it, and nothing else.
pub open spec fn panel_painted(before: Canvas, after: Canvas, font: Font, lines: Seq<PanelLine>, x: int, y: int) -> bool {
    &&& after.same_shape(before)
    &&& forall|px: int, py: int|
        before.holds(px, py) ==> #[trigger] after.color_at(px, py) == panel_color(
            lines,
            font,
            px - x,
            py - y,
            before.color_at(px, py),
        )
}

/// Whether every lit pixel of a panel, its top-left corner at (x, y), has
/// coordinates that can be counted.
pub open spec fn panel_fits(lines: Seq<PanelLine>, font: Font, x: int, y: int) -> bool {
    forall|i: int|
        0 <= i < lines.len() ==> canvas::text_fits(font, (#[trigger] lines[i]).text, x, y + lines[i].row * 10)
}

/// The registers panel is at most 26 characters wide: where there is room for
/// all of them and for its ten lines, it fits.
pub proof fn law_registers_fit(machine: MachineState, font: Font, x: int, y: int)
    requires
        x + 207 <= usize::MAX,
        y + 97 <= usize::MAX,
    ensures
        panel_fits(registers_panel(machine), font, x, y),
{
    let panel = registers_panel(machine);
    reveal_strlit("A:");
    reveal_strlit(" X:");
    reveal_strlit(" Y:");
    reveal_strlit(" SP:");
    reveal_strlit("PC:");
    reveal_strlit("NV-BDIZC");
    reveal_strlit("frame ");
    reveal_strlit("line ");
    reveal_strlit("  dot ");
    reveal_strlit("Tab run/stop  N step");
    reveal_strlit("L scanline    F frame");
    text::law_hexadecimal_reads_back(machine.a as int, 2);
    text::law_hexadecimal_reads_back(machine.x as int, 2);
    text::law_hexadecimal_reads_back(machine.y as int, 2);
    text::law_hexadecimal_reads_back(machine.sp as int, 2);
    text::law_hexadecimal_reads_back(machine.pc as int, 4);
    reveal_with_fuel(text::padded, 9);
    reveal_with_fuel(vstd::arithmetic::power::pow, 21);
    text::law_decimal_is_short(machine.bus.clock.frame as nat, 20);
    text::law_decimal_is_short(machine.bus.clock.scanline as nat, 5);
    text::law_decimal_is_short(machine.bus.clock.dot as nat, 5);
    assert forall|i: int| 0 <= i < panel.len() implies canvas::text_fits(
        font,
        (#[trigger] panel[i]).text,
        x,
        y + panel[i].row * 10,
    ) by {
        canvas::lemma_text_fits(font, panel[i].text, x, y + panel[i].row * 10);
    }
}

/// Paint one more line of a panel.
fn paint_line(
    canvas: &mut Canvas,
    font: &Font,
    x: usize,
    y: usize,
    row: usize,
    text: &str,
    color: u32,
    Ghost(before): Ghost<Canvas>,
    Ghost(lines): Ghost<Seq<PanelLine>>,
)
    requires
        old(canvas).wf(),
        font.wf(),
        row < 10,
        y + 90 <= usize::MAX,
        canvas::text_fits(*font, text@, x as int, y + row * 10),
        panel_painted(before, *old(canvas), *font, lines, x as int, y as int),
    ensures
        panel_painted(
            before,
            *final(canvas),
            *font,
            lines.push(PanelLine { row: row as int, text: text@, color }),
            x as int,
            y as int,
        ),
{
    let ghost more = lines.push(PanelLine { row: row as int, text: text@, color });
    canvas.text(font, x, y + row * 10, text, color);
    proof {
        assert(more.drop_last() =~= lines);
        assert forall|px: int, py: int| before.holds(px, py) implies #[trigger] canvas.color_at(px, py)
            == panel_color(more, *font, px - x, py - y, before.color_at(px, py)) by {
            assert(old(canvas).holds(px, py));
            assert(old(canvas).color_at(px, py) == panel_color(
                lines,
                *font,
                px - x,
                py - y,
                before.color_at(px, py),
            ));
        }
    }
}

/// The pockets on one line.
fn pockets_line(machine: &Machine) -> (line: String)
    ensures
        line@ == registers_panel(machine@)[0].text,
{
    let mut line = "A:".to_owned();
    line.append(text::hex_byte(machine.a).as_str());
    line.append(" X:");
    line.append(text::hex_byte(machine.x).as_str());
    line.append(" Y:");
    line.append(text::hex_byte(machine.y).as_str());
    line.append(" SP:");
    line.append(text::hex_byte(machine.sp).as_str());
    line
}

/// Where the beam is, on one line.
fn beam_line(scanline: u16, dot: u16) -> (line: String)
    ensures
        line@ == "line "@ + text::decimal(scanline as nat) + "  dot "@ + text::decimal(dot as nat),
{
    let mut line = "line ".to_owned();
    line.append(text::decimal_number(scanline as u64).as_str());
    line.append("  dot ");
    line.append(text::decimal_number(dot as u64).as_str());
    line
}

impl Debugger {
    /// The registers panel, its top-left corner at (x, y).
    pub fn paint_registers(&self, canvas: &mut Canvas, font: &Font, machine: &Machine, x: usize, y: usize)
        requires
            old(canvas).wf(),
            font.wf(),
            y + 90 <= usize::MAX,
            panel_fits(registers_panel(machine@), *font, x as int, y as int),
        ensures
            panel_painted(
                *old(canvas),
                *final(canvas),
                *font,
                registers_panel(machine@),
                x as int,
                y as int,
            ),
    {
        proof {
            machine::lemma_view_fields(*machine);
        }
        let clock = machine.bus.clock;
        let ghost before = *canvas;
        let ghost panel = registers_panel(machine@);
        let pockets = pockets_line(machine);
        let mut counter = "PC:".to_owned();
        counter.append(text::hex_word(machine.pc).as_str());
        let flags = text::binary_byte(machine.status);
        let mut frame = "frame ".to_owned();
        frame.append(text::decimal_number(clock.frame).as_str());
        let beam = beam_line(clock.scanline, clock.dot);
        paint_line(canvas, font, x, y, 0, pockets.as_str(), INK, Ghost(before), Ghost(panel.take(0)));
        assert(panel.take(1) =~= panel.take(0).push(panel[0]));
        paint_line(canvas, font, x, y, 1, counter.as_str(), INK, Ghost(before), Ghost(panel.take(1)));
        assert(panel.take(2) =~= panel.take(1).push(panel[1]));
        paint_line(canvas, font, x, y, 2, "NV-BDIZC", DIM, Ghost(before), Ghost(panel.take(2)));
        assert(panel.take(3) =~= panel.take(2).push(panel[2]));
        paint_line(canvas, font, x, y, 3, flags.as_str(), INK, Ghost(before), Ghost(panel.take(3)));
        assert(panel.take(4) =~= panel.take(3).push(panel[3]));
        paint_line(canvas, font, x, y, 5, frame.as_str(), INK, Ghost(before), Ghost(panel.take(4)));
        assert(panel.take(5) =~= panel.take(4).push(panel[4]));
        paint_line(canvas, font, x, y, 6, beam.as_str(), INK, Ghost(before), Ghost(panel.take(5)));
        assert(panel.take(6) =~= panel.take(5).push(panel[5]));
        paint_line(canvas, font, x, y, 8, "Tab run/stop  N step", DIM, Ghost(before), Ghost(panel.take(6)));
        assert(panel.take(7) =~= panel.take(6).push(panel[6]));
        paint_line(canvas, font, x, y, 9, "L scanline    F frame", DIM, Ghost(before), Ghost(panel.take(7)));
        assert(panel.take(8) =~= panel.take(7).push(panel[7]));
        assert(panel.take(8) =~= panel);
    }
}

/// A step is one step: the trip that makes it leaves the debugger paused,
/// and the next trip moves nothing.
pub proof fn law_step_is_one_step(step: Step, before: MachineState, after: MachineState)
    requires
        moved(rested(Mode::Step(step)), before, after),
    ensures
        after == before,
{
}

/// How far a trip goes is determined: from the same machine, in the same
/// mode, there is only one place it can stop.
pub proof fn law_trip_is_determined(mode: Mode, before: MachineState, one: MachineState, other: MachineState)
    requires
        moved(mode, before, one),
        moved(mode, before, other),
    ensures
        one == other,
{
    match mode {
        Mode::Step(Step::Scanline) => {
            let m = choose|steps: nat| #[trigger] line_run(before, steps) && one == stepped_times(before, steps);
            let n = choose|steps: nat| #[trigger] line_run(before, steps) && other == stepped_times(before, steps);
            lemma_line_run_is_unique(before, m, n);
            lemma_line_run_is_unique(before, n, m);
        },
        Mode::Running | Mode::Step(Step::Frame) => {
            let m = choose|steps: nat| #[trigger] frame_run(before, steps) && one == stepped_times(before, steps);
            let n = choose|steps: nat| #[trigger] frame_run(before, steps) && other == stepped_times(before, steps);
            lemma_frame_run_is_unique(before, m, n);
            lemma_frame_run_is_unique(before, n, m);
        },
        _ => {},
    }
}

proof fn lemma_frame_run_is_unique(before: MachineState, m: nat, n: nat)
    requires
        frame_run(before, m),
        frame_run(before, n),
    ensures
        m >= n,
{
    if m < n {
        assert(same_frame(stepped_times(before, m), before));
        assert(goes_on(stepped_times(before, (m - 1) as nat)));
    }
}

proof fn lemma_line_run_is_unique(before: MachineState, m: nat, n: nat)
    requires
        line_run(before, m),
        line_run(before, n),
    ensures
        m >= n,
{
    if m < n {
        assert(same_line(stepped_times(before, m), before));
        assert(goes_on(stepped_times(before, (m - 1) as nat)));
    }
}

/// A panel lights nothing left of its corner or above it.
pub proof fn law_panels_stay_right_of_their_corner(
    lines: Seq<PanelLine>,
    font: Font,
    across: int,
    down: int,
    under: u32,
)
    requires
        across < 0,
    ensures
        panel_color(lines, font, across, down, under) == under,
    decreases lines.len(),
{
    if lines.len() > 0 {
        law_panels_stay_right_of_their_corner(lines.drop_last(), font, across, down, under);
    }
}

/// A panel's lines are ten pixels apart: a line lit at a place gives it its
/// color, unless a later one is lit there too, and where none is lit, what
/// was there stays.
pub proof fn law_last_line_lit_gives_the_color(
    lines: Seq<PanelLine>,
    font: Font,
    across: int,
    down: int,
    under: u32,
    n: int,
)
    requires
        -1 <= n < lines.len(),
        forall|i: int|
            n < i < lines.len() ==> !canvas::text_lit(
                font,
                (#[trigger] lines[i]).text,
                across,
                down - 10 * lines[i].row,
            ),
        n >= 0 ==> canvas::text_lit(font, lines[n].text, across, down - 10 * lines[n].row),
    ensures
        panel_color(lines, font, across, down, under) == (if n >= 0 {
            lines[n].color
        } else {
            under
        }),
    decreases lines.len(),
{
    if lines.len() > 0 && n < lines.len() - 1 {
        let less = lines.drop_last();
        assert(lines[lines.len() - 1] == lines.last());
        assert forall|i: int| n < i < less.len() implies !canvas::text_lit(
            font,
            (#[trigger] less[i]).text,
            across,
            down - 10 * less[i].row,
        ) by {
            assert(less[i] == lines[i]);
        }
        law_last_line_lit_gives_the_color(less, font, across, down, under, n);
    }
}

/// What the registers panel says, line by line: numbers in light ink, labels
/// and keys in dim.
pub proof fn law_panel_says_the_registers(machine: MachineState)
    ensures
        ({
            let panel = registers_panel(machine);
            let clock = machine.bus.clock;
            &&& panel.len() == 8
            &&& panel[0].text == seq!['A', ':'] + text::padded(machine.a as int, 16, 2) + seq![
                ' ',
                'X',
                ':',
            ] + text::padded(machine.x as int, 16, 2) + seq![' ', 'Y', ':'] + text::padded(
                machine.y as int,
                16,
                2,
            ) + seq![' ', 'S', 'P', ':'] + text::padded(machine.sp as int, 16, 2)
            &&& panel[1].text == seq!['P', 'C', ':'] + text::padded(machine.pc as int, 16, 4)
            &&& panel[2].text == seq!['N', 'V', '-', 'B', 'D', 'I', 'Z', 'C']
            &&& panel[3].text == text::padded(machine.status as int, 2, 8)
            &&& panel[4].text == seq!['f', 'r', 'a', 'm', 'e', ' '] + text::decimal(
                clock.frame as nat,
            )
            &&& panel[5].text == seq!['l', 'i', 'n', 'e', ' '] + text::decimal(
                clock.scanline as nat,
            ) + seq![' ', ' ', 'd', 'o', 't', ' '] + text::decimal(clock.dot as nat)
            &&& panel[6].text == "Tab run/stop  N step"@
            &&& panel[7].text == "L scanline    F frame"@
        }),
{
    let panel = registers_panel(machine);
    reveal_strlit("A:");
    reveal_strlit(" X:");
    reveal_strlit(" Y:");
    reveal_strlit(" SP:");
    reveal_strlit("PC:");
    reveal_strlit("NV-BDIZC");
    reveal_strlit("frame ");
    reveal_strlit("line ");
    reveal_strlit("  dot ");
    assert("A:"@ =~= seq!['A', ':']);
    assert(" X:"@ =~= seq![' ', 'X', ':']);
    assert(" Y:"@ =~= seq![' ', 'Y', ':']);
    assert(" SP:"@ =~= seq![' ', 'S', 'P', ':']);
    assert("PC:"@ =~= seq!['P', 'C', ':']);
    assert("NV-BDIZC"@ =~= seq!['N', 'V', '-', 'B', 'D', 'I', 'Z', 'C']);
    assert("frame "@ =~= seq!['f', 'r', 'a', 'm', 'e', ' ']);
    assert("line "@ =~= seq!['l', 'i', 'n', 'e', ' ']);
    assert("  dot "@ =~= seq![' ', ' ', 'd', 'o', 't', ' ']);
}

/// Where the registers panel's lines stand and how they are inked: the
/// labels over the flags and the keys dim, the rest light, with a row of air
/// before the beam and before the keys.
pub proof fn law_panel_has_its_rows(machine: MachineState)
    ensures
        ({
            let panel = registers_panel(machine);
            &&& panel[0].row == 0 && panel[0].color == 0x00E0_E0E0
            &&& panel[1].row == 1 && panel[1].color == 0x00E0_E0E0
            &&& panel[2].row == 2 && panel[2].color == 0x0080_8080
            &&& panel[3].row == 3 && panel[3].color == 0x00E0_E0E0
            &&& panel[4].row == 5 && panel[4].color == 0x00E0_E0E0
            &&& panel[5].row == 6 && panel[5].color == 0x00E0_E0E0
            &&& panel[6].row == 8 && panel[6].color == 0x0080_8080
            &&& panel[7].row == 9 && panel[7].color == 0x0080_8080
        }),
{
}

/// How far a trip goes. Paused, nowhere; a step of an instruction is one
/// instruction. Running, or a step of a frame, makes steps for as long as the
/// frame counter stays what it was and the opcodes are ones that run, and not
/// one more; a step of a line goes by the beam's line the same way.
pub proof fn law_trips_go_as_far_as_the_mode_says(
    mode: Mode,
    before: MachineState,
    after: MachineState,
) -> (steps: nat)
    requires
        moved(mode, before, after),
    ensures
        after == stepped_times(before, steps),
        mode == Mode::Paused ==> steps == 0,
        mode == Mode::Step(Step::Instruction) ==> steps == 1,
        mode == Mode::Running || mode == Mode::Step(Step::Frame) ==> {
            &&& steps > 0
            &&& forall|k: nat|
                k < steps ==> (#[trigger] stepped_times(before, k)).bus.clock.frame
                    == before.bus.clock.frame
            &&& after.bus.clock.frame != before.bus.clock.frame || !machine::runs(
                stepped_times(before, (steps - 1) as nat).opcode(),
            )
        },
        mode == Mode::Step(Step::Scanline) ==> {
            &&& steps > 0
            &&& forall|k: nat|
                k < steps ==> (#[trigger] stepped_times(before, k)).bus.clock.scanline
                    == before.bus.clock.scanline
            &&& after.bus.clock.scanline != before.bus.clock.scanline || !machine::runs(
                stepped_times(before, (steps - 1) as nat).opcode(),
            )
        },
        mode != Mode::Paused ==> forall|k: nat|
            k + 1 < steps ==> machine::runs((#[trigger] stepped_times(before, k)).opcode()),
{
    match mode {
        Mode::Paused => 0,
        Mode::Step(Step::Instruction) => {
            reveal_with_fuel(stepped_times, 2);
            1
        },
        Mode::Step(Step::Scanline) => {
            let steps = choose|steps: nat|
                #[trigger] line_run(before, steps) && after == stepped_times(before, steps);
            assert forall|k: nat| k < steps implies (#[trigger] stepped_times(
                before,
                k,
            )).bus.clock.scanline == before.bus.clock.scanline by {
                assert(same_line(stepped_times(before, k), before));
            }
            assert forall|k: nat| k + 1 < steps implies machine::runs(
                (#[trigger] stepped_times(before, k)).opcode(),
            ) by {
                assert(goes_on(stepped_times(before, k)));
            }
            steps
        },
        Mode::Running | Mode::Step(Step::Frame) => {
            let steps = choose|steps: nat|
                #[trigger] frame_run(before, steps) && after == stepped_times(before, steps);
            assert forall|k: nat| k < steps implies (#[trigger] stepped_times(
                before,
                k,
            )).bus.clock.frame == before.bus.clock.frame by {
                assert(same_frame(stepped_times(before, k), before));
            }
            assert forall|k: nat| k + 1 < steps implies machine::runs(
                (#[trigger] stepped_times(before, k)).opcode(),
            ) by {
                assert(goes_on(stepped_times(before, k)));
            }
            steps
        },
    }
}

/// Steps in a row are steps, one after another.
pub proof fn law_steps_add_up(machine: MachineState, steps: nat)
    ensures
        stepped_times(machine, 0) == machine,
        stepped_times(machine, steps + 1) == stepped_times(machine, steps).stepped(),
{
}

/// A step rests in a pause, and the other modes stay what they are.
pub proof fn law_steps_rest(step: Step)
    ensures
        rested(Mode::Step(step)) == Mode::Paused,
        rested(Mode::Paused) == Mode::Paused,
        rested(Mode::Running) == Mode::Running,
{
}

} // verus!
