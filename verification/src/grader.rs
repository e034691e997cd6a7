//! The grader: the machine run against a golden log, line by line. The first
//! difference is the truth.

use vstd::prelude::*;
use vstd::utf8;

use crate::debugger;
use crate::machine;
use crate::machine::{Machine, MachineState};
use crate::text;

verus! {

/// What the grader found when it stopped.
pub enum Verdict {
    /// Every line matched.
    AllMatched,
    /// The next line reads one way in the log, and another way here.
    Mismatch { golden: String, ours: String },
    /// The next line is no line of a log.
    Unreadable,
}

/// A machine as a log line: the program counter, the pockets, the odometer.
pub open spec fn our_line(machine: MachineState) -> Seq<char> {
    text::padded(machine.pc as int, 16, 4) + " A:"@ + text::padded(machine.a as int, 16, 2) + " X:"@
        + text::padded(machine.x as int, 16, 2) + " Y:"@ + text::padded(machine.y as int, 16, 2)
        + " P:"@ + text::padded(machine.status as int, 16, 2) + " SP:"@ + text::padded(
        machine.sp as int,
        16,
        2,
    ) + " CYC:"@ + text::decimal(machine.cycles as nat)
}

/// Whether a line's odometer column is announced at a place.
pub open spec fn announced(line: Seq<char>, at: int) -> bool {
    0 <= at && at + 4 <= line.len() && line.subrange(at, at + 4) == "CYC:"@
}

/// The first place, from a place on, where the odometer column is announced,
/// or the line's end.
pub open spec fn next_announced(line: Seq<char>, from: int) -> int
    decreases line.len() - from,
{
    if from >= line.len() {
        line.len() as int
    } else if announced(line, from) {
        from
    } else {
        next_announced(line, from + 1)
    }
}

/// A line's odometer column: what stands between its first announcement and
/// the next, or a question mark if it has none.
pub open spec fn golden_cycles(line: Seq<char>) -> Seq<char> {
    let at = next_announced(line, 0);
    if at == line.len() {
        "?"@
    } else {
        line.subrange(at + 4, next_announced(line, at + 4))
    }
}

/// Whether a line can be cut before a byte: it has so many, and the cut goes
/// through no character.
pub open spec fn can_cut(line: Seq<char>, at: int) -> bool {
    utf8::is_char_boundary(utf8::encode_utf8(line), at)
}

/// A line's column, from one byte of it to another.
pub open spec fn column(line: Seq<char>, from: int, to: int) -> Seq<char> {
    utf8::decode_utf8(utf8::encode_utf8(line).subrange(from, to))
}

/// A log line cut down to what a machine can say of itself: four bytes of
/// program counter, twenty-five of pockets, and the odometer. A line too
/// short for its columns, or one whose columns end inside a character, is no
/// line of a log.
pub open spec fn golden_line(line: Seq<char>) -> Option<Seq<char>> {
    if can_cut(line, 4) && can_cut(line, 48) && can_cut(line, 73) {
        Some(column(line, 0, 4) + " "@ + column(line, 48, 73) + " CYC:"@ + golden_cycles(line))
    } else {
        None
    }
}

/// In a line of ASCII alone a byte is a character: any line of 73 or more can
/// be cut to its columns, and they are its characters 0 to 3 and 48 to 72.
pub proof fn law_plain_lines_are_cut_by_character(line: Seq<char>)
    requires
        utf8::is_ascii_chars(line),
    ensures
        golden_line(line) == if line.len() < 73 {
            None
        } else {
            Some(line.subrange(0, 4) + " "@ + line.subrange(48, 73) + " CYC:"@ + golden_cycles(line))
        },
{
    lemma_plain_cut(line, 4);
    lemma_plain_cut(line, 48);
    lemma_plain_cut(line, 73);
    if line.len() >= 73 {
        lemma_plain_column(line, 0, 4);
        lemma_plain_column(line, 48, 73);
    }
}

/// A line of ASCII can be cut anywhere.
proof fn lemma_plain_cut(line: Seq<char>, at: int)
    requires
        utf8::is_ascii_chars(line),
        0 < at,
    ensures
        can_cut(line, at) == (at <= line.len()),
{
    let bytes = utf8::encode_utf8(line);
    utf8::is_ascii_chars_encode_utf8(line);
    utf8::encode_utf8_valid_utf8(line);
    if at < line.len() {
        utf8::is_char_boundary_iff_not_is_continuation_byte(bytes, at);
    } else if at == line.len() {
        utf8::is_char_boundary_start_end_of_seq(bytes);
    }
}

/// A column of a line of ASCII is its characters there.
proof fn lemma_plain_column(line: Seq<char>, from: int, to: int)
    requires
        utf8::is_ascii_chars(line),
        0 <= from <= to <= line.len(),
    ensures
        column(line, from, to) == line.subrange(from, to),
{
    let part = line.subrange(from, to);
    utf8::is_ascii_chars_encode_utf8(line);
    utf8::is_ascii_chars_encode_utf8(part);
    assert(utf8::encode_utf8(line).subrange(from, to) =~= utf8::encode_utf8(part));
    utf8::encode_utf8_decode_utf8(part);
}

proof fn lemma_next_announced(line: Seq<char>, from: int)
    requires
        0 <= from <= line.len(),
    ensures
        from <= next_announced(line, from) <= line.len(),
        next_announced(line, from) < line.len() ==> announced(line, next_announced(line, from)),
    decreases line.len() - from,
{
    if from < line.len() && !announced(line, from) {
        lemma_next_announced(line, from + 1);
    }
}

/// Find the next announcement of the odometer column.
fn find_announced(line: &str, from: usize) -> (at: usize)
    requires
        from <= line@.len(),
    ensures
        at == next_announced(line@, from as int),
        from <= at <= line@.len(),
{
    let len = line.unicode_len();
    let mut at: usize = from;
    while at < len
        invariant
            from <= at <= len,
            len == line@.len(),
            next_announced(line@, from as int) == next_announced(line@, at as int),
        decreases len - at,
    {
        if len - at >= 4 {
            let word = line.substring_char(at, at + 4).to_owned();
            if text::is_word(&word, "CYC:") {
                return at;
            }
        }
        at = at + 1;
    }
    at
}

/// A line's column.
fn cut_column<'a>(line: &'a str, from: usize, to: usize) -> (part: &'a str)
    requires
        from <= to,
        can_cut(line@, from as int),
        can_cut(line@, to as int),
    ensures
        part@ == column(line@, from as int, to as int),
{
    let ghost bytes = utf8::encode_utf8(line@);
    proof {
        utf8::encode_utf8_valid_utf8(line@);
        lemma_cut_inside(line@, from as int, to as int);
    }
    let head = line.split_at(to).0;
    let part = head.split_at(from).1;
    proof {
        assert(utf8::encode_utf8(part@) =~= bytes.subrange(from as int, to as int));
        utf8::encode_utf8_decode_utf8(part@);
    }
    part
}

/// A cut in what stands before another cut.
proof fn lemma_cut_inside(line: Seq<char>, from: int, to: int)
    requires
        0 <= from <= to,
        can_cut(line, from),
        can_cut(line, to),
    ensures
        to <= utf8::encode_utf8(line).len(),
        utf8::is_char_boundary(utf8::encode_utf8(line).subrange(0, to), from),
{
    let bytes = utf8::encode_utf8(line);
    let head = bytes.subrange(0, to);
    utf8::encode_utf8_valid_utf8(line);
    utf8::valid_utf8_split(bytes, to);
    if from < to {
        utf8::is_char_boundary_iff_not_is_continuation_byte(bytes, from);
        utf8::is_char_boundary_iff_not_is_continuation_byte(head, from);
    } else {
        utf8::is_char_boundary_start_end_of_seq(head);
    }
}

/// A log line cut down to what a machine can say of itself.
pub fn cut_golden(line: &str) -> (cut: Option<String>)
    ensures
        match cut {
            Some(cut) => golden_line(line@) == Some(cut@),
            None => golden_line(line@) is None,
        },
{
    if !line.is_char_boundary(4) || !line.is_char_boundary(48) || !line.is_char_boundary(73) {
        return None;
    }
    proof {
        utf8::encode_utf8_valid_utf8(line@);
    }
    let mut cut = cut_column(line, 0, 4).to_owned();
    cut.append(" ");
    cut.append(cut_column(line, 48, 73));
    cut.append(" CYC:");
    let len = line.unicode_len();
    let at = find_announced(line, 0);
    proof {
        lemma_next_announced(line@, 0);
    }
    if at == len {
        cut.append("?");
    } else {
        let end = find_announced(line, at + 4);
        cut.append(line.substring_char(at + 4, end));
    }
    Some(cut)
}

/// A machine as a log line.
pub fn write_ours(machine: &Machine) -> (line: String)
    ensures
        line@ == our_line(machine@),
{
    let mut line = text::hex_word(machine.pc);
    line.append(" A:");
    line.append(text::hex_byte(machine.a).as_str());
    line.append(" X:");
    line.append(text::hex_byte(machine.x).as_str());
    line.append(" Y:");
    line.append(text::hex_byte(machine.y).as_str());
    line.append(" P:");
    line.append(text::hex_byte(machine.status).as_str());
    line.append(" SP:");
    line.append(text::hex_byte(machine.sp).as_str());
    line.append(" CYC:");
    line.append(text::decimal_number(machine.cycles).as_str());
    line
}

/// Whether a machine, `k` steps on, reads as line `k` of a log.
#[verifier::opaque]
pub open spec fn matches_line(before: MachineState, log: Seq<String>, k: nat) -> bool {
    golden_line(log[k as int]@) == Some(our_line(debugger::stepped_times(before, k)))
}

/// Grade a machine against a log, a line before every step. Returns how many
/// lines matched, and why it stopped there.
pub fn grade(machine: &mut Machine, log: &[String]) -> (report: (usize, Verdict))
    requires
        old(machine)@.wf(),
        old(machine).cycles + old(machine).bus.dma_stall + (log@.len() + 1) * machine::LONGEST_STEP
            < u64::MAX,
    ensures
        report.0 <= log@.len(),
        forall|k: nat| k < report.0 ==> #[trigger] matches_line(old(machine)@, log@, k),
        final(machine)@ == debugger::stepped_times(old(machine)@, report.0 as nat),
        final(machine)@.wf(),
        match report.1 {
            Verdict::AllMatched => report.0 == log@.len(),
            Verdict::Mismatch { golden, ours } => {
                &&& report.0 < log@.len()
                &&& golden_line(log@[report.0 as int]@) == Some(golden@)
                &&& ours@ == our_line(final(machine)@)
                &&& golden@ != ours@
            },
            Verdict::Unreadable => {
                &&& report.0 < log@.len()
                &&& golden_line(log@[report.0 as int]@) is None
            },
        },
{
    let ghost before = machine@;
    let mut matched: usize = 0;
    while matched < log.len()
        invariant
            before == old(machine)@,
            matched <= log@.len(),
            machine@.wf(),
            machine@ == debugger::stepped_times(before, matched as nat),
            machine.cycles + machine.bus.dma_stall + (log@.len() + 1 - matched) * machine::LONGEST_STEP
                < u64::MAX,
            forall|k: nat| k < matched ==> #[trigger] matches_line(before, log@, k),
        decreases log@.len() - matched,
    {
        let ours = write_ours(machine);
        match cut_golden(log[matched].as_str()) {
            Some(golden) => {
                if golden != ours {
                    return (matched, Verdict::Mismatch { golden, ours });
                }
            },
            None => return (matched, Verdict::Unreadable),
        }
        proof {
            assert(matches_line(before, log@, matched as nat)) by {
                reveal(matches_line);
            }
        }
        machine.step();
        matched = matched + 1;
    }
    (matched, Verdict::AllMatched)
}

/// What a machine says of itself: its program counter in four digits, A, X,
/// Y, the flags and the stack pointer in two each, and its cycles in decimal.
pub proof fn law_our_line_says_the_registers(machine: MachineState)
    ensures
        our_line(machine) == text::padded(machine.pc as int, 16, 4) + seq![' ', 'A', ':']
            + text::padded(machine.a as int, 16, 2) + seq![' ', 'X', ':'] + text::padded(
            machine.x as int,
            16,
            2,
        ) + seq![' ', 'Y', ':'] + text::padded(machine.y as int, 16, 2) + seq![' ', 'P', ':']
            + text::padded(machine.status as int, 16, 2) + seq![' ', 'S', 'P', ':'] + text::padded(
            machine.sp as int,
            16,
            2,
        ) + seq![' ', 'C', 'Y', 'C', ':'] + text::decimal(machine.cycles as nat),
{
    reveal_strlit(" A:");
    reveal_strlit(" X:");
    reveal_strlit(" Y:");
    reveal_strlit(" P:");
    reveal_strlit(" SP:");
    reveal_strlit(" CYC:");
    assert(" A:"@ =~= seq![' ', 'A', ':']);
    assert(" X:"@ =~= seq![' ', 'X', ':']);
    assert(" Y:"@ =~= seq![' ', 'Y', ':']);
    assert(" P:"@ =~= seq![' ', 'P', ':']);
    assert(" SP:"@ =~= seq![' ', 'S', 'P', ':']);
    assert(" CYC:"@ =~= seq![' ', 'C', 'Y', 'C', ':']);
}

/// Whether a line reads `CYC:` at a place.
pub open spec fn reads_cyc(line: Seq<char>, at: int) -> bool {
    &&& 0 <= at && at + 4 <= line.len()
    &&& line[at] == 'C' && line[at + 1] == 'Y' && line[at + 2] == 'C' && line[at + 3] == ':'
}

proof fn lemma_reads_cyc(line: Seq<char>, at: int)
    ensures
        announced(line, at) == reads_cyc(line, at),
{
    reveal_strlit("CYC:");
    if 0 <= at && at + 4 <= line.len() {
        let word = line.subrange(at, at + 4);
        assert(word[0] == line[at] && word[1] == line[at + 1] && word[2] == line[at + 2] && word[3]
            == line[at + 3]);
        if reads_cyc(line, at) {
            assert(word =~= "CYC:"@);
        }
    }
}

/// Where an announcement comes next.
proof fn lemma_next_is_first(line: Seq<char>, from: int, at: int)
    requires
        0 <= from <= at <= line.len(),
        at == line.len() || reads_cyc(line, at),
        forall|k: int| from <= k < at ==> !#[trigger] reads_cyc(line, k),
    ensures
        next_announced(line, from) == at,
    decreases at - from,
{
    lemma_reads_cyc(line, from);
    if from < at {
        assert(!reads_cyc(line, from));
        lemma_next_is_first(line, from + 1, at);
    }
}

/// A log line's cycles: what stands behind its first `CYC:`, up to the next
/// or to the line's end, and a question mark where the line has none.
pub proof fn law_cycles_stand_behind_their_name(line: Seq<char>, at: int, end: int)
    requires
        0 <= at <= line.len(),
        forall|k: int| 0 <= k < at ==> !#[trigger] reads_cyc(line, k),
        at < line.len() ==> reads_cyc(line, at),
        at < line.len() ==> at + 4 <= end <= line.len(),
        at < line.len() ==> forall|k: int| at + 4 <= k < end ==> !#[trigger] reads_cyc(line, k),
        at < line.len() ==> end == line.len() || reads_cyc(line, end),
    ensures
        at < line.len() ==> golden_cycles(line) == line.subrange(at + 4, end),
        at == line.len() ==> golden_cycles(line) == seq!['?'],
{
    lemma_next_is_first(line, 0, at);
    if at < line.len() {
        lemma_next_is_first(line, at + 4, end);
    }
    reveal_strlit("?");
    assert("?"@ =~= seq!['?']);
}

/// A line matches where the log, cut to its columns, reads what the machine
/// says of itself after so many steps; a line that cannot be cut matches
/// nothing.
pub proof fn law_matching_lines_read_the_same(before: MachineState, log: Seq<String>, k: nat)
    ensures
        matches_line(before, log, k) ==> golden_line(log[k as int]@) is Some && golden_line(
            log[k as int]@,
        )->0 == our_line(debugger::stepped_times(before, k)),
        golden_line(log[k as int]@) is None ==> !matches_line(before, log, k),
        golden_line(log[k as int]@) is Some && golden_line(log[k as int]@)->0 == our_line(
            debugger::stepped_times(before, k),
        ) ==> matches_line(before, log, k),
{
    reveal(matches_line);
}

} // verus!
