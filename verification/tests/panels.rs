//! Panels, pictures and sessions.

use graybox::canvas::Canvas;
use graybox::cartridge::Cartridge;
use graybox::debugger::{Debugger, Mode, Step, DIM, INK, PANEL};
use graybox::disasm::{disassemble, syntax, Syntax};
use graybox::font::Font;
use graybox::grader::{cut_golden, grade, write_ours, Verdict};
use graybox::machine::Machine;
use graybox::options::parse_args;
use graybox::picture::{compose, draw_test_pattern, draw_tile_grid, write_ppm, HEIGHT, SIDEBAR, WIDTH};
use graybox::session::headless;

/// A machine with a program, reset.
fn machine(program: &[u8]) -> Machine {
    let mut prg = vec![0x00; 16384];
    prg[..program.len()].copy_from_slice(program);
    prg[0x3FFC] = 0x00;
    prg[0x3FFD] = 0x80;
    let mut bytes = vec![b'N', b'E', b'S', 0x1A, 1, 0, 0, 0, 0, 0, 0, 0, 0, 0, 0, 0];
    bytes.extend(prg);
    let mut machine = Machine::new(Cartridge::load(&bytes).unwrap(), vec![0x11_2233; 512]);
    machine.reset();
    machine
}

fn idling() -> Machine {
    machine(&[0x4C, 0x00, 0x80])
}

/// A typeface in which every glyph is a solid block, but the space.
fn blocks() -> Font {
    let mut bytes = vec![0xFF; 1024];
    bytes[b' ' as usize * 8..b' ' as usize * 8 + 8].fill(0);
    Font::from_bytes(bytes).unwrap()
}

fn session(words: &[&str], machine: &mut Machine) -> Debugger {
    let words: Vec<String> = words.iter().map(|word| word.to_string()).collect();
    headless(machine, &parse_args(&words).1)
}

#[test]
fn a_font_says_what_is_wrong_with_it() {
    let why = Font::from_bytes(vec![0; 1000]).err().unwrap();
    assert_eq!(why, "a font is 1024 bytes, this one is 1000");
}

#[test]
fn every_character_beyond_ascii_is_the_same() {
    let mut bytes = vec![0; 1024];
    bytes[b'?' as usize * 8 + 3] = 0x7E;
    let font = Font::from_bytes(bytes).unwrap();
    for c in ['é', '\u{80}', '漢', '🎮'] {
        assert_eq!(font.glyph(c), font.glyph('?'));
    }
    assert_eq!(font.glyph('\u{7F}'), &[0; 8]);
}

#[test]
fn glyphs_are_painted_bit_zero_leftmost() {
    let mut bytes = vec![0; 1024];
    bytes[b'A' as usize * 8 + 2] = 0b1000_0010;
    let font = Font::from_bytes(bytes).unwrap();
    let mut canvas = Canvas::new(16, 8);
    canvas.text(&font, 3, 1, "A", 7);
    let lit: Vec<usize> = (0..128).filter(|i| canvas.pixels[*i] == 7).collect();
    assert_eq!(lit, [3 * 16 + 4, 3 * 16 + 10]);
}

#[test]
fn text_keeps_what_it_does_not_light() {
    let font = Font::from_bytes(vec![0; 1024]).unwrap();
    let mut canvas = Canvas::new(16, 8);
    canvas.fill(0, 0, 16, 8, 5);
    canvas.text(&font, 0, 0, "AB", 7);
    assert!(canvas.pixels.iter().all(|pixel| *pixel == 5));
}

#[test]
fn a_ragged_picture_stops_where_it_ends() {
    let mut canvas = Canvas::new(3, 3);
    canvas.blit(0, 0, 2, &[1, 2, 3]);
    assert_eq!(canvas.pixels, [1, 2, 0, 3, 0, 0, 0, 0, 0]);
    canvas.blit(2, 2, 2, &[8, 9]);
    assert_eq!(canvas.pixels[8], 8);
    canvas.blit(0, 0, 0, &[]);
}

#[test]
fn the_test_pattern_grows_two_ways() {
    let mut buffer = vec![7; WIDTH * HEIGHT + 1];
    draw_test_pattern(&mut buffer);
    assert_eq!(buffer[0], 0x00_0080);
    assert_eq!(buffer[255], 0xFF_0080);
    assert_eq!(buffer[239 * 256], 0x00_FF80);
    assert_eq!(buffer[120 * 256 + 10], 0x0A_8080);
    assert_eq!(buffer[WIDTH * HEIGHT], 7);
    draw_tile_grid(&mut buffer);
    assert_eq!(buffer[255], 0x7F_0040);
    assert_eq!(buffer[120 * 256 + 10], 0x05_4040);
    assert_eq!(buffer[121 * 256 + 10], 0x0A_8180);
}

#[test]
fn a_closed_debugger_shows_the_frame_alone() {
    let machine = idling();
    let frame: Vec<u32> = (0..61440).collect();
    let canvas = compose(&frame, Some(&machine), &Debugger::new(), &blocks());
    assert_eq!((canvas.width, canvas.height), (256, 240));
    assert_eq!(canvas.pixels, frame);
    let canvas = compose(&frame, None, &Debugger { mode: Mode::Paused, open: true }, &blocks());
    assert_eq!(canvas.pixels, frame);
}

#[test]
fn an_open_debugger_gets_a_sidebar() {
    let machine = idling();
    let frame: Vec<u32> = vec![9; 61440];
    let mut debugger = Debugger::new();
    debugger.toggle();
    let canvas = compose(&frame, Some(&machine), &debugger, &blocks());
    assert_eq!((canvas.width, canvas.height), (WIDTH + SIDEBAR, HEIGHT));
    let at = |x: usize, y: usize| canvas.pixels[y * canvas.width + x];
    assert_eq!(at(255, 100), 9);
    assert_eq!(at(256, 0), PANEL);
    // The first character of the first line, the first of the flags' names,
    // and the air between lines.
    assert_eq!(at(264, 4), INK);
    assert_eq!(at(264, 24), DIM);
    assert_eq!(at(264, 12), PANEL);
    // "A:00 X": the fifth character is a space.
    assert_eq!(at(264 + 4 * 8, 4), PANEL);
    assert_eq!(at(264 + 5 * 8, 4), INK);
}

#[test]
fn the_panel_prints_the_pockets() {
    // Each line of blocks is as long as its text.
    let mut machine = idling();
    machine.status = 0b1010_0101;
    let mut canvas = Canvas::new(256, 120);
    Debugger::new().paint_registers(&mut canvas, &blocks(), &machine, 0, 0);
    let lit = |row: usize| (0..32).filter(|c| canvas.pixels[row * 10 * 256 + c * 8] != 0).count();
    assert_eq!(lit(0), "A:00X:00Y:00SP:FD".len());
    assert_eq!(lit(1), "PC:8000".len());
    assert_eq!(lit(2), 8);
    assert_eq!(lit(3), 8);
    assert_eq!(lit(4), 0);
    assert_eq!(lit(5), "frame0".len());
    assert_eq!(lit(6), "line0dot21".len());
    assert_eq!(lit(7), 0);
    assert_eq!(lit(8), "Tabrun/stopNstep".len());
    assert_eq!(lit(9), "LscanlineFframe".len());
    assert_eq!(canvas.pixels[8 * 10 * 256], DIM);
}

#[test]
fn a_picture_file_is_exact() {
    let mut canvas = Canvas::new(12, 1);
    canvas.pixels[0] = 0x01_0203;
    let file = write_ppm(&canvas);
    assert_eq!(file.len(), "P6\n12 1\n255\n".len() + 36);
    assert_eq!(&file[..15], b"P6\n12 1\n255\n\x01\x02\x03");
}

#[test]
fn a_session_runs_its_frames() {
    let mut machine = idling();
    let debugger = session(&["--frames", "3"], &mut machine);
    assert_eq!(machine.bus.clock.frame, 3);
    assert!(!debugger.open);
    assert_eq!(debugger.mode, Mode::Running);
}

#[test]
fn a_session_with_a_trap_gives_it_a_second() {
    let mut machine = idling();
    session(&["--frames", "1", "--break", "9000"], &mut machine);
    assert_eq!(machine.bus.clock.frame, 61);
}

#[test]
fn a_session_stops_on_a_line() {
    let mut machine = idling();
    let debugger = session(&["--frames", "1", "--line", "100"], &mut machine);
    assert_eq!((machine.bus.clock.frame, machine.bus.clock.scanline), (1, 100));
    assert!(machine.bus.clock.dot < 9);
    assert!(debugger.open);
    assert_eq!(debugger.mode, Mode::Paused);
}

#[test]
fn a_session_with_a_jammed_machine_ends() {
    let mut machine = machine(&[0x02]);
    let debugger = session(&["--frames", "5", "--debug", "--line", "9"], &mut machine);
    assert_eq!((machine.bus.clock.frame, machine.cycles), (0, 7));
    assert_eq!(machine.pc, 0x8000);
    assert!(debugger.open);
}

#[test]
fn a_session_walks_past_stop_signs() {
    // BRK; BRK; JMP $8002
    let mut machine = machine(&[0x00, 0x00, 0x4C, 0x02, 0x80]);
    session(&["--frames", "2", "--line", "9"], &mut machine);
    assert_eq!((machine.bus.clock.frame, machine.bus.clock.scanline), (2, 9));
    assert_eq!(machine.pc, 0x8002);
}

#[test]
fn a_session_waits_for_a_machine_that_wakes_late() {
    // Stop signs all round memory. The data port, fetched from eight bytes
    // apart, walks the album; five rounds on it hands out opcodes that run.
    let mut machine = machine(&[]);
    machine.bus.cartridge.prg_rom.fill(0);
    machine.bus.cartridge.chr_ram[0x1500..0x1600].fill(0xE8);
    session(&["--frames", "0", "--line", "1"], &mut machine);
    assert_eq!(machine.bus.clock.scanline, 1);
    assert!(machine.x > 40);
}

#[test]
fn a_session_ends_with_a_machine_that_never_wakes() {
    // Nothing but stop signs, in the registers too: the pad is watched live.
    let mut machine = machine(&[]);
    machine.bus.cartridge.prg_rom.fill(0);
    machine.bus.controller.strobe = true;
    session(&["--frames", "1"], &mut machine);
    assert_eq!((machine.bus.clock.frame, machine.cycles), (0, 7));
}

#[test]
fn a_session_that_began_late_stays_in_its_frame() {
    let mut machine = idling();
    session(&["--frames", "4"], &mut machine);
    let cycles = machine.cycles;
    session(&["--frames", "2"], &mut machine);
    assert_eq!((machine.bus.clock.frame, machine.cycles), (4, cycles));
}

#[test]
fn toggling_twice_lets_the_machine_go() {
    let mut debugger = Debugger::new();
    debugger.toggle();
    debugger.step(Step::Frame);
    assert_eq!(debugger.mode, Mode::Step(Step::Frame));
    debugger.toggle();
    assert_eq!(debugger.mode, Mode::Running);
    assert!(!debugger.open);
}

#[test]
fn a_step_is_one_step() {
    let mut debugger = Debugger::new();
    debugger.toggle();
    debugger.step(Step::Instruction);
    let mut machine = idling();
    debugger.run(&mut machine);
    let after = machine.cycles;
    debugger.run(&mut machine);
    assert_eq!(machine.cycles, after);
}

#[test]
fn the_same_trip_ends_in_the_same_place() {
    let (mut one, mut two) = (idling(), idling());
    let mut debugger = Debugger::new();
    debugger.run(&mut one);
    debugger.run(&mut two);
    assert_eq!((one.cycles, one.pc), (two.cycles, two.pc));
    assert_eq!(one.bus.ppu.frame, two.bus.ppu.frame);
    assert_eq!(one.bus.ppu.frame[0], 0x11_2233);
}

#[test]
fn unnamed_opcodes_list_as_question_marks() {
    let machine = machine(&[0x02, 0x20, 0x34, 0x12, 0x96, 0x10, 0xA1, 0x20, 0x00]);
    assert_eq!(disassemble(&machine, 0x8000), ("???".to_string(), 1));
    assert_eq!(disassemble(&machine, 0x8001), ("JSR $1234".to_string(), 3));
    assert_eq!(disassemble(&machine, 0x8004), ("STX $10,Y".to_string(), 2));
    assert_eq!(disassemble(&machine, 0x8006), ("LDA ($20,X)".to_string(), 2));
    assert_eq!(disassemble(&machine, 0x8008), ("BRK".to_string(), 1));
}

#[test]
fn a_listing_does_not_read_operands_out_of_registers() {
    let mut machine = machine(&[]);
    machine.bus.ram[0x7FF] = 0xAD;
    // The echo at $1FFF: its operand bytes would lie at $2000.
    assert_eq!(disassemble(&machine, 0x1FFF), ("LDA $0000".to_string(), 3));
}

#[test]
fn a_branch_back_wraps_round_memory() {
    let mut machine = machine(&[]);
    machine.bus.ram[0] = 0xF0;
    machine.bus.ram[1] = 0x80;
    assert_eq!(disassemble(&machine, 0x0000).0, "BEQ $FF82");
}

#[test]
fn spellings_have_their_lengths() {
    assert_eq!(syntax(0x6C), Syntax::Indirect);
    assert_eq!(Syntax::Indirect.operand_bytes(), 2);
    assert_eq!(Syntax::Relative.operand_bytes(), 1);
    assert_eq!(Syntax::Accumulator.operand_bytes(), 0);
    let two = (0..=255u8).filter(|op| syntax(*op).operand_bytes() == 2).count();
    assert_eq!(two, 81);
}

/// A log line in its columns.
fn log_line(pc: &str, pockets: &str, tail: &str) -> String {
    let pockets = format!("{pockets:25}");
    format!("{pc}  4C 00 80  {:32}{pockets}{tail}", "JMP $8000")
}

#[test]
fn a_log_line_is_cut_to_its_columns() {
    let line = log_line("8000", "A:00 X:00 Y:00 P:24 SP:FD", " PPU:  0, 21 CYC:7");
    assert_eq!(&line[48..73], "A:00 X:00 Y:00 P:24 SP:FD");
    let cut = cut_golden(&line).unwrap();
    assert_eq!(cut, "8000 A:00 X:00 Y:00 P:24 SP:FD CYC:7");
    assert_eq!(cut, write_ours(&idling()));
    let bare = log_line("8000", "A:00 X:00 Y:00 P:24 SP:FD", "");
    assert_eq!(cut_golden(&bare).unwrap(), "8000 A:00 X:00 Y:00 P:24 SP:FD CYC:?");
    let twice = log_line("8000", "A:00 X:00 Y:00 P:24 SP:FD", " CYC:7 CYC:8");
    assert_eq!(cut_golden(&twice).unwrap(), "8000 A:00 X:00 Y:00 P:24 SP:FD CYC:7 ");
    assert_eq!(cut_golden("8000"), None);
    // Columns are counted in bytes: an accent takes two of them.
    let accented = line.replace("JMP ", "jé ");
    assert_eq!(accented.len(), line.len());
    assert_eq!(cut_golden(&accented).unwrap(), cut);
    let before_the_tail = log_line("8000", "A:00 X:00 Y:00 P:24 SP:FD", " é CYC:7é");
    assert_eq!(cut_golden(&before_the_tail).unwrap(), "8000 A:00 X:00 Y:00 P:24 SP:FD CYC:7é");
    let in_the_pocket = line.replace("A:00 X:00", "A:00 é:0");
    assert_eq!(in_the_pocket.len(), line.len());
    assert_eq!(
        cut_golden(&in_the_pocket).unwrap(),
        "8000 A:00 é:0 Y:00 P:24 SP:FD CYC:7",
    );
    // A cut through a character is no cut.
    for at in [3, 47, 72] {
        let mut bytes = line.clone().into_bytes();
        bytes.splice(at..at + 2, "é".bytes());
        assert_eq!(cut_golden(&String::from_utf8(bytes).unwrap()), None);
    }
    assert!(cut_golden(&line[..73]).is_some());
    assert_eq!(cut_golden(&line[..72]), None);
}

#[test]
fn the_grader_counts_to_the_first_difference() {
    let right = |cycles: u64| {
        log_line("8000", "A:00 X:00 Y:00 P:24 SP:FD", &format!(" CYC:{cycles}"))
    };
    let (matched, verdict) = grade(&mut idling(), &[right(7), right(10), right(13)]);
    assert_eq!(matched, 3);
    assert!(matches!(verdict, Verdict::AllMatched));

    let mut machine = idling();
    let (matched, verdict) = grade(&mut machine, &[right(7), right(11)]);
    assert_eq!((matched, machine.cycles), (1, 10));
    match verdict {
        Verdict::Mismatch { golden, ours } => {
            assert_eq!(golden, "8000 A:00 X:00 Y:00 P:24 SP:FD CYC:11");
            assert_eq!(ours, "8000 A:00 X:00 Y:00 P:24 SP:FD CYC:10");
        }
        _ => panic!("the difference went unseen"),
    }
    let (matched, verdict) = grade(&mut idling(), &[right(7), "short".to_string()]);
    assert_eq!(matched, 1);
    assert!(matches!(verdict, Verdict::Unreadable));
}
