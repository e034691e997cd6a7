//! The command line: file paths, and the switches that ask for a picture
//! instead of a window.

use vstd::prelude::*;

use crate::text;

verus! {

/// Something to stop the machine at, as the command line names it: an
/// instruction's address, or a write to one.
#[derive(Clone, Copy, PartialEq, Eq, Debug, Structural)]
pub enum Trap {
    Execute(u16),
    Write(u16),
}

/// The switches a picture needs. Without them the window opens as always.
pub struct Options {
    /// Frames to run before the picture is taken.
    pub frames: u64,
    /// Where to write the picture; `None` means open a window instead.
    pub out: Option<String>,
    /// Take the picture with the debugger's panels open.
    pub debug: bool,
    /// Stop the beam on this scanline of the frame after the last.
    pub line: Option<u16>,
    /// A trap, asked for by `--break ADDR` or `--watch ADDR`, in hex. The
    /// debugger has no traps, so none is armed and none springs: a session
    /// gives it the sixty frames after the others, and that is all.
    pub trap: Option<Trap>,
    /// Asked for by `--ledger`: the ledger page instead of the listing. The
    /// sidebar has neither page, so the picture is the same without it.
    pub ledger: bool,
}

/// [`Options`] as a mathematical value.
pub ghost struct OptionsState {
    pub frames: u64,
    pub out: Option<Seq<char>>,
    pub debug: bool,
    pub line: Option<u16>,
    pub trap: Option<Trap>,
    pub ledger: bool,
}

impl View for Options {
    type V = OptionsState;

    open spec fn view(&self) -> OptionsState {
        OptionsState {
            frames: self.frames,
            out: match self.out {
                Some(out) => Some(out@),
                None => None,
            },
            debug: self.debug,
            line: self.line,
            trap: self.trap,
            ledger: self.ledger,
        }
    }
}

/// A command line as texts.
pub open spec fn words(args: Seq<String>) -> Seq<Seq<char>> {
    args.map_values(|arg: String| arg@)
}

/// What an empty command line asks for.
pub open spec fn plain() -> OptionsState {
    OptionsState { frames: 60, out: None, debug: false, line: None, trap: None, ledger: false }
}

/// The number the first of some words spells, if there is one and it does.
pub open spec fn first_number(words: Seq<Seq<char>>, base: int, most: int) -> Option<int> {
    if words.len() == 0 {
        None
    } else {
        text::number(words[0], base, most)
    }
}

/// Whether a word is a switch that the next word belongs to.
pub open spec fn takes_value(word: Seq<char>) -> bool {
    word == "--frames"@ || word == "--out"@ || word == "--line"@ || word == "--break"@ || word
        == "--watch"@
}

/// Whether a word is a switch at all. Anything else is a path.
pub open spec fn is_switch(word: Seq<char>) -> bool {
    takes_value(word) || word == "--debug"@ || word == "--ledger"@
}

/// A trap at an address, if there is one.
pub open spec fn trap_at(watch: bool, address: Option<int>) -> Option<Trap> {
    match address {
        Some(address) => Some(
            if watch {
                Trap::Write(address as u16)
            } else {
                Trap::Execute(address as u16)
            },
        ),
        None => None,
    }
}

/// What a switch makes of the options, given the words after it.
pub open spec fn switched(options: OptionsState, word: Seq<char>, rest: Seq<Seq<char>>) -> OptionsState {
    if word == "--frames"@ {
        OptionsState {
            frames: match first_number(rest, 10, u64::MAX as int) {
                Some(frames) => frames as u64,
                None => 60,
            },
            ..options
        }
    } else if word == "--out"@ {
        OptionsState {
            out: if rest.len() > 0 {
                Some(rest[0])
            } else {
                None
            },
            ..options
        }
    } else if word == "--debug"@ {
        OptionsState { debug: true, ..options }
    } else if word == "--line"@ {
        OptionsState {
            line: match first_number(rest, 10, u16::MAX as int) {
                Some(line) => Some(line as u16),
                None => None,
            },
            ..options
        }
    } else if word == "--break"@ {
        OptionsState { trap: trap_at(false, first_number(rest, 16, u16::MAX as int)), ..options }
    } else if word == "--watch"@ {
        OptionsState { trap: trap_at(true, first_number(rest, 16, u16::MAX as int)), ..options }
    } else if word == "--ledger"@ {
        OptionsState { ledger: true, ..options }
    } else {
        options
    }
}

/// A command line sorted into paths and switches, from its front, onto what
/// was sorted before.
pub open spec fn sorted(words: Seq<Seq<char>>, paths: Seq<Seq<char>>, options: OptionsState) -> (Seq<Seq<char>>, OptionsState)
    decreases words.len(),
{
    if words.len() == 0 {
        (paths, options)
    } else {
        let word = words[0];
        let rest = words.drop_first();
        let after = switched(options, word, rest);
        if !is_switch(word) {
            sorted(rest, paths.push(word), after)
        } else if takes_value(word) && rest.len() > 0 {
            sorted(rest.drop_first(), paths, after)
        } else {
            sorted(rest, paths, after)
        }
    }
}

/// The number an argument spells, if there is such an argument and it does.
fn number_at(args: &[String], i: usize, base: u64, most: u64) -> (number: Option<u64>)
    requires
        2 <= base <= 16,
    ensures
        match number {
            Some(number) => i < args@.len() && text::number(args@[i as int]@, base as int, most as int)
                == Some(number as int) && number <= most,
            None => i < args@.len() ==> text::number(args@[i as int]@, base as int, most as int) is None,
        },
{
    if i < args.len() {
        text::parse_number(args[i].as_str(), base, most)
    } else {
        None
    }
}

/// Take one switch: what it makes of the options.
fn take_switch(options: &mut Options, args: &[String], i: usize)
    requires
        i < args@.len(),
    ensures
        final(options)@ == switched(
            old(options)@,
            args@[i as int]@,
            words(args@).skip(i + 1),
        ),
{
    let ghost rest = words(args@).skip(i + 1);
    proof {
        if i + 1 < args@.len() {
            assert(rest[0] == args@[i + 1]@);
        }
    }
    assert(args.len() == args@.len());
    let next: usize = i + 1;
    if text::is_word(&args[i], "--frames") {
        options.frames = match number_at(args, next, 10, u64::MAX) {
            Some(frames) => frames,
            None => 60,
        };
    } else if text::is_word(&args[i], "--out") {
        options.out = if next < args.len() {
            Some(args[next].clone())
        } else {
            None
        };
    } else if text::is_word(&args[i], "--debug") {
        options.debug = true;
    } else if text::is_word(&args[i], "--line") {
        options.line = match number_at(args, next, 10, 65535) {
            Some(line) => Some(line as u16),
            None => None,
        };
    } else if text::is_word(&args[i], "--break") {
        options.trap = match number_at(args, next, 16, 65535) {
            Some(address) => Some(Trap::Execute(address as u16)),
            None => None,
        };
    } else if text::is_word(&args[i], "--watch") {
        options.trap = match number_at(args, next, 16, 65535) {
            Some(address) => Some(Trap::Write(address as u16)),
            None => None,
        };
    } else if text::is_word(&args[i], "--ledger") {
        options.ledger = true;
    }
}

/// Split the command line into file paths and switches: `--frames N`,
/// `--out FILE`, `--debug`, `--line N`, `--break ADDR`, `--watch ADDR`,
/// `--ledger`. Anything else is a path.
pub fn parse_args(args: &[String]) -> (parsed: (Vec<String>, Options))
    ensures
        (words(parsed.0@), parsed.1@) == sorted(words(args@), Seq::empty(), plain()),
{
    let mut paths: Vec<String> = Vec::new();
    let mut options = Options { frames: 60, out: None, debug: false, line: None, trap: None, ledger: false };
    let mut i: usize = 0;
    let ghost all = words(args@);
    assert(all.skip(0) =~= all);
    assert(words(paths@) =~= Seq::empty());
    while i < args.len()
        invariant
            i <= args@.len(),
            all == words(args@),
            sorted(all.skip(i as int), words(paths@), options@) == sorted(all, Seq::empty(), plain()),
        decreases args@.len() - i,
    {
        let ghost rest = all.skip(i as int);
        assert(rest.drop_first() =~= all.skip(i + 1));
        if i + 1 < args.len() {
            assert(rest.drop_first().drop_first() =~= all.skip(i + 2));
        }
        take_switch(&mut options, args, i);
        let valued = text::is_word(&args[i], "--frames") || text::is_word(&args[i], "--out")
            || text::is_word(&args[i], "--line") || text::is_word(&args[i], "--break")
            || text::is_word(&args[i], "--watch");
        if valued {
            if i + 1 < args.len() {
                i = i + 1;
            }
        } else if !text::is_word(&args[i], "--debug") && !text::is_word(&args[i], "--ledger") {
            let ghost before = paths@;
            paths.push(args[i].clone());
            assert(words(paths@) =~= words(before).push(args@[i as int]@));
        }
        i = i + 1;
    }
    assert(all.skip(i as int) =~= Seq::empty());
    (paths, options)
}

/// A command line without switches is all paths, in order.
pub proof fn law_no_switches_all_paths(line: Seq<Seq<char>>, paths: Seq<Seq<char>>, options: OptionsState)
    requires
        forall|i: int| 0 <= i < line.len() ==> !is_switch(#[trigger] line[i]),
    ensures
        sorted(line, paths, options) == (paths + line, options),
    decreases line.len(),
{
    if line.len() == 0 {
        assert(paths + line =~= paths);
    } else {
        let rest = line.drop_first();
        assert forall|i: int| 0 <= i < rest.len() implies !is_switch(#[trigger] rest[i]) by {
            assert(rest[i] == line[i + 1]);
        }
        law_no_switches_all_paths(rest, paths.push(line[0]), options);
        assert(paths.push(line[0]) + rest =~= paths + line);
    }
}

/// The paths that come out are never switches.
pub proof fn law_paths_are_no_switches(line: Seq<Seq<char>>, paths: Seq<Seq<char>>, options: OptionsState)
    requires
        forall|i: int| 0 <= i < paths.len() ==> !is_switch(#[trigger] paths[i]),
    ensures
        forall|i: int|
            0 <= i < sorted(line, paths, options).0.len() ==> !is_switch(
                #[trigger] sorted(line, paths, options).0[i],
            ),
    decreases line.len(),
{
    if line.len() > 0 {
        let word = line[0];
        let rest = line.drop_first();
        let after = switched(options, word, rest);
        if !is_switch(word) {
            law_paths_are_no_switches(rest, paths.push(word), after);
            assert(sorted(line, paths, options) == sorted(rest, paths.push(word), after));
        } else if takes_value(word) && rest.len() > 0 {
            law_paths_are_no_switches(rest.drop_first(), paths, after);
            assert(sorted(line, paths, options) == sorted(rest.drop_first(), paths, after));
        } else {
            law_paths_are_no_switches(rest, paths, after);
            assert(sorted(line, paths, options) == sorted(rest, paths, after));
        }
    }
}

/// The switches are seven different words.
proof fn lemma_switches_differ()
    ensures
        "--frames"@ != "--out"@,
        "--frames"@ != "--debug"@,
        "--frames"@ != "--line"@,
        "--frames"@ != "--break"@,
        "--frames"@ != "--watch"@,
        "--frames"@ != "--ledger"@,
        "--out"@ != "--debug"@,
        "--out"@ != "--line"@,
        "--out"@ != "--break"@,
        "--out"@ != "--watch"@,
        "--out"@ != "--ledger"@,
        "--debug"@ != "--line"@,
        "--debug"@ != "--break"@,
        "--debug"@ != "--watch"@,
        "--debug"@ != "--ledger"@,
        "--line"@ != "--break"@,
        "--line"@ != "--watch"@,
        "--line"@ != "--ledger"@,
        "--break"@ != "--watch"@,
        "--break"@ != "--ledger"@,
        "--watch"@ != "--ledger"@,
{
    reveal_strlit("--frames");
    reveal_strlit("--out");
    reveal_strlit("--debug");
    reveal_strlit("--line");
    reveal_strlit("--break");
    reveal_strlit("--watch");
    reveal_strlit("--ledger");
    assert("--frames"@[2] == 'f');
    assert("--debug"@[2] == 'd');
    assert("--break"@[2] == 'b');
    assert("--watch"@[2] == 'w');
    assert("--out"@[2] == 'o');
    assert("--line"@[2] == 'l');
    assert("--line"@[3] == 'i');
    assert("--ledger"@[2] == 'l');
    assert("--ledger"@[3] == 'e');
}

/// What the two switches without a value do: they set their own option, and
/// the command line goes on behind them.
pub proof fn law_bare_switches(line: Seq<Seq<char>>, paths: Seq<Seq<char>>, options: OptionsState)
    requires
        line.len() > 0,
    ensures
        line[0] == "--debug"@ ==> sorted(line, paths, options) == sorted(
            line.skip(1),
            paths,
            OptionsState { debug: true, ..options },
        ),
        line[0] == "--ledger"@ ==> sorted(line, paths, options) == sorted(
            line.skip(1),
            paths,
            OptionsState { ledger: true, ..options },
        ),
{
    lemma_switches_differ();
    assert(line.drop_first() =~= line.skip(1));
}

/// What the five switches with a value do: each takes the word behind it,
/// sets its own option by it and no other, and the command line goes on
/// behind that. Frames that are no number are sixty, a line or an address
/// that is none is not asked for, and addresses are hexadecimal.
pub proof fn law_valued_switches(line: Seq<Seq<char>>, paths: Seq<Seq<char>>, options: OptionsState)
    requires
        line.len() > 1,
    ensures
        line[0] == "--frames"@ ==> sorted(line, paths, options) == sorted(
            line.skip(2),
            paths,
            OptionsState {
                frames: match text::number(line[1], 10, 0xFFFF_FFFF_FFFF_FFFF) {
                    Some(frames) => frames as u64,
                    None => 60,
                },
                ..options
            },
        ),
        line[0] == "--out"@ ==> sorted(line, paths, options) == sorted(
            line.skip(2),
            paths,
            OptionsState { out: Some(line[1]), ..options },
        ),
        line[0] == "--line"@ ==> sorted(line, paths, options) == sorted(
            line.skip(2),
            paths,
            OptionsState {
                line: match text::number(line[1], 10, 0xFFFF) {
                    Some(number) => Some(number as u16),
                    None => None,
                },
                ..options
            },
        ),
        line[0] == "--break"@ ==> sorted(line, paths, options) == sorted(
            line.skip(2),
            paths,
            OptionsState {
                trap: match text::number(line[1], 16, 0xFFFF) {
                    Some(address) => Some(Trap::Execute(address as u16)),
                    None => None,
                },
                ..options
            },
        ),
        line[0] == "--watch"@ ==> sorted(line, paths, options) == sorted(
            line.skip(2),
            paths,
            OptionsState {
                trap: match text::number(line[1], 16, 0xFFFF) {
                    Some(address) => Some(Trap::Write(address as u16)),
                    None => None,
                },
                ..options
            },
        ),
{
    lemma_switches_differ();
    assert(line.drop_first().drop_first() =~= line.skip(2));
    assert(line.drop_first()[0] == line[1]);
}

/// A switch that the line ends with has no value to take: sixty frames, no
/// picture, no line, no trap.
pub proof fn law_last_switch_has_no_value(word: Seq<char>, paths: Seq<Seq<char>>, options: OptionsState)
    ensures
        word == "--frames"@ ==> sorted(seq![word], paths, options) == (paths, OptionsState {
            frames: 60,
            ..options
        }),
        word == "--out"@ ==> sorted(seq![word], paths, options) == (paths, OptionsState {
            out: None,
            ..options
        }),
        word == "--line"@ ==> sorted(seq![word], paths, options) == (paths, OptionsState {
            line: None,
            ..options
        }),
        word == "--break"@ || word == "--watch"@ ==> sorted(seq![word], paths, options) == (
            paths,
            OptionsState { trap: None, ..options },
        ),
{
    lemma_switches_differ();
    assert(seq![word].drop_first() =~= Seq::empty());
    reveal_with_fuel(sorted, 2);
}

/// Any other word is a path, kept in its place behind the paths before it.
pub proof fn law_other_words_are_paths(line: Seq<Seq<char>>, paths: Seq<Seq<char>>, options: OptionsState)
    requires
        line.len() > 0,
        line[0] != "--frames"@ && line[0] != "--out"@ && line[0] != "--debug"@ && line[0]
            != "--line"@ && line[0] != "--break"@ && line[0] != "--watch"@ && line[0]
            != "--ledger"@,
    ensures
        sorted(line, paths, options) == sorted(line.skip(1), paths.push(line[0]), options),
{
    assert(line.drop_first() =~= line.skip(1));
}

/// An empty command line asks for sixty frames and nothing else.
pub proof fn law_nothing_asked_for(paths: Seq<Seq<char>>, options: OptionsState)
    ensures
        sorted(Seq::empty(), paths, options) == (paths, options),
        plain().frames == 60,
        plain().out is None && plain().line is None && plain().trap is None,
        !plain().debug && !plain().ledger,
{
}

} // verus!
