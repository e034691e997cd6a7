//! The processor's corners.

use graybox::cpu::{decode_load, decode_store, join, note, AddressingMode, Cpu, FLAG_NEGATIVE, FLAG_ZERO};

/// A processor about to run a program at $8000.
fn loaded(program: &[u8]) -> Cpu {
    let mut cpu = Cpu::new();
    for (i, byte) in program.iter().enumerate() {
        cpu.write(0x8000 + i as u16, *byte);
    }
    cpu.write(0xFFFC, 0x00);
    cpu.write(0xFFFD, 0x80);
    cpu.reset();
    cpu
}

#[test]
fn a_write_moves_nothing_else() {
    let mut cpu = Cpu::new();
    cpu.write(0x0200, 1);
    cpu.write(0x0201, 2);
    cpu.write(0x0200, 3);
    assert_eq!((cpu.read(0x01FF), cpu.read(0x0200), cpu.read(0x0201)), (0, 3, 2));
}

#[test]
fn a_word_at_the_top_wraps_to_the_bottom() {
    let mut cpu = Cpu::new();
    cpu.write(0xFFFF, 0x34);
    cpu.write(0x0000, 0x12);
    assert_eq!(cpu.read_word(0xFFFF), 0x1234);
    assert_eq!(join(0x34, 0x12), 0x1234);
}

#[test]
fn notes_touch_two_flags_and_no_others() {
    assert_eq!(note(0xFF, 0x00), 0x7F);
    assert_eq!(note(0x00, 0x00), FLAG_ZERO);
    assert_eq!(note(0x00, 0x80), FLAG_NEGATIVE);
    assert_eq!(note(0xFF, 0x01), 0x7D);
    for status in 0..=255u8 {
        for value in 0..=255u8 {
            let noted = note(status, value);
            assert_eq!(noted & FLAG_ZERO != 0, value == 0);
            assert_eq!(noted & FLAG_NEGATIVE != 0, value >= 128);
            assert_eq!(noted & 0x7D, status & 0x7D);
        }
    }
}

#[test]
fn the_pointer_s_high_byte_may_leave_the_zero_page() {
    // ($FF),Y: the pointer's low byte is at $00FF, its high byte at $0100.
    let mut cpu = loaded(&[0xB1, 0xFF, 0x00]);
    cpu.write(0x00FF, 0x10);
    cpu.write(0x0100, 0x03);
    cpu.write(0x0315, 0x5A);
    cpu.y = 5;
    assert!(cpu.step());
    assert_eq!(cpu.a, 0x5A);
    assert_eq!(cpu.pc, 0x8002);
}

#[test]
fn an_absolute_index_wraps_round_memory() {
    let mut cpu = loaded(&[0xBD, 0xFF, 0xFF, 0x00]);
    cpu.x = 2;
    cpu.write(0x0001, 0x66);
    cpu.step();
    assert_eq!(cpu.a, 0x66);
}

#[test]
fn storing_keeps_the_flags_and_the_other_bytes() {
    let mut cpu = loaded(&[0x85, 0x10, 0x00]);
    cpu.a = 0;
    cpu.status = 0xA5;
    cpu.write(0x0011, 9);
    cpu.step();
    assert_eq!((cpu.read(0x0010), cpu.read(0x0011), cpu.status), (0, 9, 0xA5));
}

#[test]
fn every_store_flavor_lands_where_the_load_looks() {
    // STA then LDA of the same flavor, through the same operand.
    for (store, load) in [(0x85, 0xA5), (0x95, 0xB5), (0x81, 0xA1), (0x91, 0xB1)] {
        let mut cpu = loaded(&[store, 0x20, 0xA9, 0x00, load, 0x20, 0x00]);
        cpu.x = 3;
        cpu.y = 4;
        cpu.a = 0x77;
        for address in 0x20..0x30 {
            cpu.write(address, 0x03);
        }
        cpu.step();
        cpu.step();
        assert_eq!(cpu.a, 0x00);
        cpu.step();
        assert_eq!(cpu.a, 0x77, "flavor {store:02X}");
    }
    for (store, load) in [(0x8D, 0xAD), (0x9D, 0xBD), (0x99, 0xB9)] {
        let mut cpu = loaded(&[store, 0x00, 0x03, 0xA9, 0x00, load, 0x00, 0x03, 0x00]);
        cpu.x = 3;
        cpu.y = 4;
        cpu.a = 0x78;
        cpu.step();
        cpu.step();
        cpu.step();
        assert_eq!(cpu.a, 0x78, "flavor {store:02X}");
    }
}

#[test]
fn brk_stops_past_itself() {
    let mut cpu = loaded(&[0x00]);
    assert!(!cpu.step());
    assert_eq!(cpu.pc, 0x8001);
}

#[test]
fn operands_move_the_counter_by_their_length() {
    let mut cpu = loaded(&[0x34, 0x12]);
    assert_eq!(cpu.operand_address(AddressingMode::Absolute), 0x1234);
    assert_eq!(cpu.pc, 0x8002);
    cpu.pc = 0x8000;
    assert_eq!(cpu.operand_address(AddressingMode::Immediate), 0x8000);
    assert_eq!(cpu.pc, 0x8001);
}

#[test]
fn only_fifteen_opcodes_load_or_store() {
    let count = (0..=255u8).filter(|op| decode_load(*op).is_some() || decode_store(*op).is_some()).count();
    assert_eq!(count, 15);
    assert!(decode_store(0x89).is_none());
}

#[test]
fn reset_forgets_the_pockets() {
    let mut cpu = loaded(&[0xEA]);
    cpu.a = 1;
    cpu.x = 2;
    cpu.y = 3;
    cpu.sp = 4;
    cpu.status = 5;
    cpu.pc = 6;
    cpu.reset();
    assert_eq!((cpu.a, cpu.x, cpu.y, cpu.sp, cpu.status, cpu.pc), (0, 0, 0, 0xFD, 0x24, 0x8000));
}
