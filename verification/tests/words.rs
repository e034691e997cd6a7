//! Text, numbers, and the command line.

use graybox::options::{parse_args, Trap};
use graybox::text::{binary_byte, decimal_number, hex_byte, hex_word, is_word, parse_number};

fn args(words: &[&str]) -> Vec<String> {
    words.iter().map(|word| word.to_string()).collect()
}

#[test]
fn numbers_are_written_as_they_should_be() {
    for value in 0..=255u8 {
        assert_eq!(hex_byte(value), format!("{value:02X}"));
        assert_eq!(binary_byte(value), format!("{value:08b}"));
    }
    for value in [0, 1, 0xBEEF, 0xFFFF, 0x0A0B] {
        assert_eq!(hex_word(value), format!("{value:04X}"));
    }
    for value in [0, 9, 10, 12345, u64::MAX] {
        assert_eq!(decimal_number(value), format!("{value}"));
    }
}

#[test]
fn what_is_written_reads_back() {
    for value in [0, 7, 10, 99, 100, 65535, u64::MAX] {
        assert_eq!(parse_number(&decimal_number(value), 10, u64::MAX), Some(value));
    }
    for value in [0u16, 0x7F, 0xC0DE] {
        assert_eq!(parse_number(&hex_word(value), 16, 65535), Some(value as u64));
    }
}

#[test]
fn what_is_no_number_is_refused() {
    for text in ["", "+", "-1", "1.5", " 1", "1 ", "0x10", "++1", "é"] {
        assert_eq!(parse_number(text, 10, u64::MAX), None, "{text:?}");
        assert_eq!(parse_number(text, 10, u64::MAX), text.parse::<u64>().ok());
    }
    assert_eq!(parse_number("+17", 10, 100), Some(17));
    assert_eq!(parse_number("65535", 10, 65535), Some(65535));
    assert_eq!(parse_number("65536", 10, 65535), None);
    assert_eq!(parse_number("18446744073709551616", 10, u64::MAX), None);
    assert_eq!(parse_number("c0dE", 16, 65535), Some(0xC0DE));
    assert_eq!(parse_number("A", 10, 65535), None);
    assert_eq!(parse_number("00012", 10, 100), Some(12));
}

#[test]
fn words_are_compared_whole() {
    assert!(is_word(&"--out".to_string(), "--out"));
    assert!(!is_word(&"--outer".to_string(), "--out"));
}

#[test]
fn an_empty_line_asks_for_nothing() {
    let (paths, options) = parse_args(&[]);
    assert!(paths.is_empty());
    assert_eq!((options.frames, options.debug, options.line, options.ledger), (60, false, None, false));
    assert!(options.out.is_none() && options.trap.is_none());
}

#[test]
fn a_line_without_switches_is_all_paths() {
    let (paths, _) = parse_args(&args(&["a.nes", "-b", "--", "--frame"]));
    assert_eq!(paths, ["a.nes", "-b", "--", "--frame"]);
}

#[test]
fn traps_and_the_ledger_have_their_switches() {
    let (_, options) = parse_args(&args(&["--break", "c000"]));
    assert_eq!(options.trap, Some(Trap::Execute(0xC000)));
    let (_, options) = parse_args(&args(&["--watch", "2006", "--ledger"]));
    assert_eq!(options.trap, Some(Trap::Write(0x2006)));
    assert!(options.ledger);
    let (_, options) = parse_args(&args(&["--break", "c000", "--watch", "zzz"]));
    assert_eq!(options.trap, None);
}

#[test]
fn a_switch_takes_the_next_word_whatever_it_is() {
    let (paths, options) = parse_args(&args(&["--frames", "--debug", "game.nes"]));
    assert_eq!(options.frames, 60);
    assert!(!options.debug);
    assert_eq!(paths, ["game.nes"]);
}

#[test]
fn a_switch_at_the_end_has_no_value() {
    let (paths, options) = parse_args(&args(&["x", "--line", "7", "--line"]));
    assert_eq!(paths, ["x"]);
    assert_eq!(options.line, None);
    let (_, options) = parse_args(&args(&["--out"]));
    assert_eq!(options.out, None);
    let (_, options) = parse_args(&args(&["--frames"]));
    assert_eq!(options.frames, 60);
}

#[test]
fn a_line_number_must_fit() {
    let (_, options) = parse_args(&args(&["--line", "65536"]));
    assert_eq!(options.line, None);
    let (_, options) = parse_args(&args(&["--line", "+12"]));
    assert_eq!(options.line, Some(12));
}
