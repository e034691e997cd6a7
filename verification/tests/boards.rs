//! Boards and files in their corners.

use graybox::cartridge::{Cartridge, Mirroring};

/// A file with its program and art numbered by bank.
fn rom(mapper: u8, prg_banks: u8, chr_banks: u8) -> Vec<u8> {
    let mut bytes = vec![b'N', b'E', b'S', 0x1A, prg_banks, chr_banks, mapper << 4, mapper & 0xF0];
    bytes.extend([0; 8]);
    for bank in 0..prg_banks {
        bytes.extend(vec![bank; 16384]);
    }
    for bank in 0..chr_banks {
        bytes.extend(vec![0x80 + bank; 8192]);
    }
    bytes
}

fn send(cartridge: &mut Cartridge, address: u16, word: u8) {
    for bit in 0..5 {
        cartridge.write_prg(address, (word >> bit) & 1);
    }
}

#[test]
fn each_refusal_has_its_words() {
    assert_eq!(Cartridge::load(&[]).err().unwrap(), "not an iNES file");
    assert_eq!(Cartridge::load(&rom(0, 1, 1)[..15]).err().unwrap(), "not an iNES file");
    let mut wrong = rom(0, 1, 1);
    wrong[3] = 0;
    assert_eq!(Cartridge::load(&wrong).err().unwrap(), "not an iNES file");
    let short = rom(0, 1, 1);
    let cut = &short[..short.len() - 1];
    assert_eq!(Cartridge::load(cut).err().unwrap(), "file is shorter than its header promises");
    assert!(Cartridge::load(&short).is_ok());
}

#[test]
fn a_trainer_is_stepped_over() {
    let mut bytes = rom(0, 1, 1);
    bytes[6] |= 0b0000_0100;
    assert!(Cartridge::load(&bytes).is_err());
    let mut with = bytes[..16].to_vec();
    with.extend(vec![0xEE; 512]);
    with.extend(&bytes[16..]);
    with[16 + 512] = 0x42;
    let cartridge = Cartridge::load(&with).unwrap();
    assert_eq!(cartridge.prg_rom[0], 0x42);
    assert_eq!(cartridge.chr_rom[0], 0x80);
    assert_eq!((cartridge.prg_rom.len(), cartridge.chr_rom.len()), (16384, 8192));
}

#[test]
fn a_fresh_board_is_as_the_header_says() {
    let mut bytes = rom(1, 2, 0);
    bytes[6] |= 1;
    let cartridge = Cartridge::load(&bytes).unwrap();
    assert!(cartridge.vertical_mirroring);
    assert_eq!((cartridge.shift, cartridge.control), (0b1_0000, 0x0C));
    assert_eq!((cartridge.chr_ram.len(), cartridge.prg_ram.len()), (8192, 8192));
    assert_eq!((cartridge.prg_bank, cartridge.chr_bank, cartridge.chr0, cartridge.chr1, cartridge.prg), (0, 0, 0, 0, 0));
}

#[test]
fn completeness_wants_a_bank_of_program() {
    assert!(Cartridge::load(&rom(0, 1, 1)).unwrap().is_complete());
    assert!(Cartridge::load(&rom(0, 1, 0)).unwrap().is_complete());
    assert!(!Cartridge::load(&rom(0, 0, 1)).unwrap().is_complete());
}

#[test]
fn uxrom_never_unbolts_the_back() {
    let mut cartridge = Cartridge::load(&rom(2, 4, 1)).unwrap();
    for value in [0, 1, 2, 3, 0xF1] {
        cartridge.write_prg(0x8000, value);
        assert_eq!(cartridge.read_prg(0xFFFF), 3);
        assert_eq!(cartridge.read_prg(0x8000), value & 0x03);
    }
}

#[test]
fn plain_boards_ignore_writes() {
    let mut cartridge = Cartridge::load(&rom(0, 2, 1)).unwrap();
    cartridge.write_prg(0x8000, 1);
    assert_eq!(cartridge.read_prg(0x8000), 0);
    assert_eq!(cartridge.prg_rom[0], 0);
}

#[test]
fn cnrom_takes_two_bits() {
    let mut cartridge = Cartridge::load(&rom(3, 1, 4)).unwrap();
    cartridge.write_prg(0xFFFF, 0xFE);
    assert_eq!(cartridge.chr_bank, 2);
    assert_eq!(cartridge.read_chr(0x1FFF), 0x82);
    assert_eq!(cartridge.read_prg(0x8000), 0);
}

#[test]
fn mmc1_waits_for_the_fifth_bit() {
    let mut cartridge = Cartridge::load(&rom(1, 4, 2)).unwrap();
    for bit in [1, 1, 1, 1] {
        cartridge.write_prg(0x8000, bit);
    }
    assert_eq!(cartridge.control, 0x0C);
    // The fifth write's address alone picks the register.
    cartridge.write_prg(0xA000, 1);
    assert_eq!((cartridge.control, cartridge.chr0, cartridge.shift), (0x0C, 0b1_1111, 0b1_0000));
    send(&mut cartridge, 0xC000, 0b0_0110);
    assert_eq!(cartridge.chr1, 0b0_0110);
    send(&mut cartridge, 0xE000, 0b1_0011);
    assert_eq!(cartridge.prg, 0b0_0011);
}

#[test]
fn mmc1_has_four_program_modes() {
    let mut cartridge = Cartridge::load(&rom(1, 4, 1)).unwrap();
    send(&mut cartridge, 0xE000, 3);
    // Modes 0 and 1: 32 KiB at a time.
    send(&mut cartridge, 0x8000, 0b0_0000);
    assert_eq!((cartridge.read_prg(0x8000), cartridge.read_prg(0xC000)), (2, 3));
    send(&mut cartridge, 0x8000, 0b0_0100);
    assert_eq!((cartridge.read_prg(0x8000), cartridge.read_prg(0xC000)), (2, 3));
    // Mode 2: the first bank fixed in front.
    send(&mut cartridge, 0xE000, 2);
    send(&mut cartridge, 0x8000, 0b0_1000);
    assert_eq!((cartridge.read_prg(0x8000), cartridge.read_prg(0xC000)), (0, 2));
    // Mode 3: the last bank fixed behind.
    send(&mut cartridge, 0x8000, 0b0_1100);
    assert_eq!((cartridge.read_prg(0x8000), cartridge.read_prg(0xC000)), (2, 3));
}

#[test]
fn mmc1_swaps_its_album_whole_or_in_halves() {
    let mut cartridge = Cartridge::load(&rom(1, 2, 2)).unwrap();
    send(&mut cartridge, 0xA000, 3);
    send(&mut cartridge, 0xC000, 1);
    // Whole: the low bit is ignored, and 2 is the second album's front half.
    assert_eq!((cartridge.read_chr(0), cartridge.read_chr(0x1000)), (0x81, 0x81));
    send(&mut cartridge, 0x8000, 0b1_1100);
    assert_eq!((cartridge.read_chr(0), cartridge.read_chr(0x1000)), (0x81, 0x80));
}

#[test]
fn mmc1_wires_all_four_ways() {
    let mut cartridge = Cartridge::load(&rom(1, 2, 1)).unwrap();
    for (word, wired) in [
        (0, Mirroring::SingleLow),
        (1, Mirroring::SingleHigh),
        (2, Mirroring::Vertical),
        (3, Mirroring::Horizontal),
    ] {
        send(&mut cartridge, 0x8000, word);
        assert!(cartridge.mirroring() == wired);
    }
    // Slamming the port shut keeps the wiring.
    cartridge.write_prg(0x8000, 0xFF);
    assert!(cartridge.mirroring() == Mirroring::Horizontal);
    assert_eq!(cartridge.control, 0b0_1111);
}

#[test]
fn printed_art_refuses_ink() {
    let mut cartridge = Cartridge::load(&rom(0, 1, 1)).unwrap();
    cartridge.write_chr(5, 0x11);
    assert_eq!(cartridge.read_chr(5), 0x80);
    let mut blank = Cartridge::load(&rom(0, 1, 0)).unwrap();
    blank.write_chr(5, 0x11);
    assert_eq!((blank.read_chr(4), blank.read_chr(5), blank.read_chr(6)), (0, 0x11, 0));
}
