//! Files, boards and banks.

use graybox::cartridge::{Cartridge, Mirroring};

/// Build a tiny iNES file in memory: a header plus filler ROMs.
fn fake_rom(prg_banks: u8, chr_banks: u8) -> Vec<u8> {
    let mut bytes = vec![0u8; 16];
    bytes[0..4].copy_from_slice(b"NES\x1A");
    bytes[4] = prg_banks;
    bytes[5] = chr_banks;
    bytes.extend(vec![0xAB; prg_banks as usize * 16 * 1024]);
    bytes.extend(vec![0xCD; chr_banks as usize * 8 * 1024]);
    bytes
}

#[test]
fn load_reads_the_header() {
    let cartridge = Cartridge::load(&fake_rom(2, 1)).unwrap();
    assert_eq!(cartridge.prg_rom.len(), 32 * 1024);
    assert_eq!(cartridge.chr_rom.len(), 8 * 1024);
    assert_eq!(cartridge.mapper, 0);
}

#[test]
fn a_wrong_magic_number_is_refused() {
    let mut bytes = fake_rom(1, 1);
    bytes[0] = b'X';
    assert!(Cartridge::load(&bytes).is_err());
}

#[test]
fn a_16k_program_appears_twice() {
    // One PRG bank: $8000 and $C000 read the same byte.
    let mut bytes = fake_rom(1, 1);
    bytes[16] = 0x42; // the first PRG byte
    let cartridge = Cartridge::load(&bytes).unwrap();
    assert_eq!(cartridge.read_prg(0x8000), 0x42);
    assert_eq!(cartridge.read_prg(0xC000), 0x42);
}

#[test]
fn a_32k_program_fills_the_window() {
    let mut bytes = fake_rom(2, 1);
    bytes[16] = 0x11; // first byte of the first bank
    bytes[16 + 16 * 1024] = 0x22; // first byte of the second bank
    let cartridge = Cartridge::load(&bytes).unwrap();
    assert_eq!(cartridge.read_prg(0x8000), 0x11);
    assert_eq!(cartridge.read_prg(0xC000), 0x22);
}

#[test]
fn the_mapper_number_reassembles_from_its_halves() {
    let mut bytes = fake_rom(1, 1);
    bytes[6] = 0x40; // low half 4, riding in the top of byte 6
    bytes[7] = 0x20; // high half 2
    let cartridge = Cartridge::load(&bytes).unwrap();
    assert_eq!(cartridge.mapper, 0x24);
}

/// A switching board: `banks` 16 KiB of PRG, each filled with
/// its own bank number, so reads confess where they came from.
fn switcher(mapper: u8, banks: u8) -> Cartridge {
    let mut bytes = fake_rom(banks, 1);
    bytes[6] = mapper << 4; // the mapper's low half rides up here
    for bank in 0..banks as usize {
        for b in &mut bytes[16 + bank * 16 * 1024..16 + (bank + 1) * 16 * 1024] {
            *b = bank as u8;
        }
    }
    Cartridge::load(&bytes).unwrap()
}

#[test]
fn uxrom_switches_the_front_and_bolts_the_back() {
    let mut cartridge = switcher(2, 4);
    cartridge.write_prg(0x8000, 2);
    assert_eq!(cartridge.read_prg(0x8000), 2); // the chosen bank
    assert_eq!(cartridge.read_prg(0xC000), 3); // the bolted last
}

#[test]
fn cnrom_swaps_whole_albums() {
    let mut bytes = fake_rom(1, 2);
    bytes[6] = 3 << 4;
    bytes[16 + 16 * 1024] = 0x11; // first byte of album 0
    bytes[16 + 16 * 1024 + 8 * 1024] = 0x22; // first byte of album 1
    let mut cartridge = Cartridge::load(&bytes).unwrap();
    assert_eq!(cartridge.read_chr(0), 0x11);
    cartridge.write_prg(0x8000, 1);
    assert_eq!(cartridge.read_chr(0), 0x22);
}

#[test]
fn mmc1_listens_five_bits_at_a_time() {
    let mut cartridge = switcher(1, 4);
    // Serial-write 0b01110 into control: fix-last mode, then
    // pick bank 2 in front through the PRG register.
    for bit in [0, 1, 1, 1, 0] {
        cartridge.write_prg(0x8000, bit);
    }
    for bit in [0, 1, 0, 0, 0] {
        cartridge.write_prg(0xE000, bit);
    }
    assert_eq!(cartridge.read_prg(0x8000), 2);
    assert_eq!(cartridge.read_prg(0xC000), 3);

    // Bit 7 slams the port shut mid-word: the half-entered word
    // vanishes and fix-last comes back.
    cartridge.write_prg(0x8000, 1);
    cartridge.write_prg(0x8000, 0x80);
    for bit in [1, 0, 0, 0, 0] {
        cartridge.write_prg(0xE000, bit);
    }
    assert_eq!(cartridge.read_prg(0x8000), 1);
}

#[test]
fn mmc1_rewires_the_name_ram() {
    let mut cartridge = switcher(1, 2);
    for bit in [0, 1, 0, 0, 0] {
        cartridge.write_prg(0x8000, bit); // control = 0b00010
    }
    assert!(cartridge.mirroring() == Mirroring::Vertical);
    for bit in [1, 1, 0, 0, 0] {
        cartridge.write_prg(0x8000, bit); // control = 0b00011
    }
    assert!(cartridge.mirroring() == Mirroring::Horizontal);
}

#[test]
fn a_blank_album_accepts_ink() {
    let mut cartridge = Cartridge::load(&fake_rom(1, 0)).unwrap();
    assert_eq!(cartridge.chr_ram.len(), 8 * 1024);
    cartridge.write_chr(0x0123, 0x77);
    assert_eq!(cartridge.read_chr(0x0123), 0x77);
}
