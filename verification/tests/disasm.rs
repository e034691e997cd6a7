//! Listings.

use graybox::cartridge::Cartridge;
use graybox::cpu::Cpu;
use graybox::disasm::{disassemble, syntax};
use graybox::machine::Machine;


/// A machine with a program at $8000 and nothing else to do.
fn machine_with(program: &[u8]) -> Machine {
    let mut prg = vec![0u8; 16 * 1024];
    prg[..program.len()].copy_from_slice(program);
    prg[0x3FFC] = 0x00;
    prg[0x3FFD] = 0x80;

    let mut rom = vec![b'N', b'E', b'S', 0x1A, 1, 0, 0, 0, 0, 0, 0, 0, 0, 0, 0, 0];
    rom.extend(prg);
    Machine::new(Cartridge::load(&rom).unwrap(), vec![0; 512])
}

/// A named opcode is as long as its spelling says, for every opcode: the
/// length is counted from the spelling, not kept beside the name.
#[test]
fn every_named_opcode_agrees_on_its_length() {
    for opcode in 0..=255u8 {
        if let Some((name, length)) = Cpu::opcode_name_and_length(opcode) {
            assert_eq!(
                syntax(opcode).operand_bytes() + 1,
                length,
                "opcode {opcode:02X} ({name}) spells {:?}",
                syntax(opcode)
            );
        }
    }
}

#[test]
fn every_mode_has_its_spelling() {
    let cpu = machine_with(&[
        0xBD, 0x34, 0x12, // LDA $1234,X
        0x10, 0xFB, //       BPL $8000
        0x6C, 0x00, 0x80, // JMP ($8000)
        0x4A, //             LSR A
        0xB6, 0x10, //       LDX $10,Y
        0xB1, 0x20, //       LDA ($20),Y
        0xEA, //             NOP
    ]);
    let mut address = 0x8000;
    let mut listing = Vec::new();
    for _ in 0..7 {
        let (text, length) = disassemble(&cpu, address);
        listing.push(text);
        address += length;
    }
    assert_eq!(
        listing,
        [
            "LDA $1234,X",
            "BPL $8000",
            "JMP ($8000)",
            "LSR A",
            "LDX $10,Y",
            "LDA ($20),Y",
            "NOP"
        ]
    );
}

#[test]
fn a_branch_shows_where_it_lands_not_how_far() {
    let cpu = machine_with(&[0xEA, 0xD0, 0x03]); // NOP; BNE +3
    assert_eq!(disassemble(&cpu, 0x8001).0, "BNE $8006");
}

#[test]
fn register_space_is_not_guessed_at() {
    let cpu = machine_with(&[]);
    assert_eq!(disassemble(&cpu, 0x2002), ("??".to_string(), 1));
}
