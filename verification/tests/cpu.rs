//! The processor and its instructions.

use graybox::cpu::{Cpu, FLAG_NEGATIVE, FLAG_ZERO};

#[test]
fn what_you_write_is_what_you_read() {
    let mut cpu = Cpu::new();
    cpu.write(0x0200, 42);
    assert_eq!(cpu.read(0x0200), 42);
}

#[test]
fn words_are_stored_little_end_first() {
    let mut cpu = Cpu::new();
    cpu.write(0x0200, 0x34); // the little end comes first...
    cpu.write(0x0201, 0x12); // ...the big end second.
    assert_eq!(cpu.read_word(0x0200), 0x1234);
}

#[test]
fn reset_starts_at_the_reset_vector() {
    let mut cpu = Cpu::new();
    cpu.write(0xFFFC, 0x00);
    cpu.write(0xFFFD, 0x80);

    cpu.reset();

    assert_eq!(cpu.pc, 0x8000);
    assert_eq!(cpu.a, 0);
    assert_eq!(cpu.x, 0);
    assert_eq!(cpu.y, 0);
    assert_eq!(cpu.sp, 0xFD);
    assert_eq!(cpu.status, 0b0010_0100);
}

/// Put a little program at $8000, point the reset vector at it,
/// run it until BRK, and hand the CPU back for inspection.
fn run_program(program: &[u8]) -> Cpu {
    let mut cpu = Cpu::new();
    for (i, byte) in program.iter().enumerate() {
        cpu.write(0x8000 + i as u16, *byte);
    }
    cpu.write(0xFFFC, 0x00);
    cpu.write(0xFFFD, 0x80);
    cpu.reset();

    while cpu.step() {}
    cpu
}

#[test]
fn lda_loads_a_number_into_a() {
    let cpu = run_program(&[0xA9, 0x07, 0x00]);
    assert_eq!(cpu.a, 0x07);
}

#[test]
fn lda_zero_switches_the_zero_flag_on() {
    let cpu = run_program(&[0xA9, 0x00, 0x00]);
    assert!(cpu.status & FLAG_ZERO != 0);
}

#[test]
fn lda_top_bit_switches_the_negative_flag_on() {
    let cpu = run_program(&[0xA9, 0x80, 0x00]);
    assert!(cpu.status & FLAG_NEGATIVE != 0);
}

#[test]
fn tax_copies_a_into_x() {
    let cpu = run_program(&[0xA9, 0x0A, 0xAA, 0x00]);
    assert_eq!(cpu.x, 0x0A);
    assert_eq!(cpu.a, 0x0A); // A keeps its copy
}

#[test]
fn inx_adds_one_to_x() {
    let cpu = run_program(&[0xA9, 0x0A, 0xAA, 0xE8, 0x00]);
    assert_eq!(cpu.x, 0x0B);
}

#[test]
fn inx_wraps_255_around_to_zero() {
    let cpu = run_program(&[0xA9, 0xFF, 0xAA, 0xE8, 0x00]);
    assert_eq!(cpu.x, 0);
    assert!(cpu.status & FLAG_ZERO != 0);
}

/// Like `run_program`, but first plant some values in memory -
/// the addressing modes need something to find.
fn run_program_with(program: &[u8], plants: &[(u16, u8)]) -> Cpu {
    let mut cpu = Cpu::new();
    for (i, byte) in program.iter().enumerate() {
        cpu.write(0x8000 + i as u16, *byte);
    }
    for (address, value) in plants {
        cpu.write(*address, *value);
    }
    cpu.write(0xFFFC, 0x00);
    cpu.write(0xFFFD, 0x80);
    cpu.reset();

    while cpu.step() {}
    cpu
}

#[test]
fn lda_zero_page_reads_from_the_first_page() {
    // LDA $10: the byte planted at $0010 lands in A.
    let cpu = run_program_with(&[0xA5, 0x10, 0x00], &[(0x0010, 0x2A)]);
    assert_eq!(cpu.a, 0x2A);
}

#[test]
fn lda_zero_page_x_wraps_inside_the_page() {
    // X = 2 (via TAX), then LDA $FF,X: $FF + 2 wraps to $01.
    let cpu = run_program_with(&[0xA9, 0x02, 0xAA, 0xB5, 0xFF, 0x00], &[(0x0001, 0x77)]);
    assert_eq!(cpu.a, 0x77);
}

#[test]
fn lda_absolute_reads_anywhere() {
    // LDA $0234.
    let cpu = run_program_with(&[0xAD, 0x34, 0x02, 0x00], &[(0x0234, 0x55)]);
    assert_eq!(cpu.a, 0x55);
}

#[test]
fn lda_absolute_x_adds_x() {
    // A = X = 5 via TAX, then LDA $0200,X reads $0205.
    let cpu = run_program_with(
        &[0xA9, 0x05, 0xAA, 0xBD, 0x00, 0x02, 0x00],
        &[(0x0205, 0x11)],
    );
    assert_eq!(cpu.a, 0x11);
}

#[test]
fn lda_absolute_y_adds_y() {
    // The test sets Y by hand: robots may reach anywhere.
    let mut cpu = Cpu::new();
    for (i, byte) in [0xB9, 0x00, 0x02, 0x00].iter().enumerate() {
        cpu.write(0x8000 + i as u16, *byte);
    }
    cpu.write(0x0205, 0x66);
    cpu.write(0xFFFC, 0x00);
    cpu.write(0xFFFD, 0x80);
    cpu.reset();
    cpu.y = 5;
    while cpu.step() {}
    assert_eq!(cpu.a, 0x66);
}

#[test]
fn lda_indirect_x_adds_x_then_follows_the_pointer() {
    // X = 4 via TAX; ($1C,X) means the pointer waits at $20,
    // and the pointer says $0300.
    let cpu = run_program_with(
        &[0xA9, 0x04, 0xAA, 0xA1, 0x1C, 0x00],
        &[(0x0020, 0x00), (0x0021, 0x03), (0x0300, 0x88)],
    );
    assert_eq!(cpu.a, 0x88);
}

#[test]
fn lda_indirect_y_follows_the_pointer_then_adds_y() {
    // The pointer at $20/$21 says $0300; Y adds 4; $0304 holds the prize.
    let mut cpu = Cpu::new();
    for (i, byte) in [0xB1, 0x20, 0x00].iter().enumerate() {
        cpu.write(0x8000 + i as u16, *byte);
    }
    cpu.write(0x0020, 0x00); // pointer, little end
    cpu.write(0x0021, 0x03); // pointer, big end
    cpu.write(0x0304, 0x99);
    cpu.write(0xFFFC, 0x00);
    cpu.write(0xFFFD, 0x80);
    cpu.reset();
    cpu.y = 4;
    while cpu.step() {}
    assert_eq!(cpu.a, 0x99);
}

#[test]
fn sta_stores_a_into_memory() {
    // LDA #$42, STA $0250.
    let cpu = run_program(&[0xA9, 0x42, 0x8D, 0x50, 0x02, 0x00]);
    assert_eq!(cpu.read(0x0250), 0x42);
}
