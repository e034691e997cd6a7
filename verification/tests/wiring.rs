//! The bus and the machine on it.

use graybox::bus::Bus;
use graybox::cartridge::{Cartridge, Mirroring};
use graybox::controller::buttons_of;
use graybox::machine::Machine;

fn cartridge(mapper: u8, chr_banks: u8, program: &[u8]) -> Cartridge {
    let mut prg = vec![0xEA; 16384];
    prg[..program.len()].copy_from_slice(program);
    prg[0x3FFC] = 0x00;
    prg[0x3FFD] = 0x80;
    let mut bytes = vec![b'N', b'E', b'S', 0x1A, 1, chr_banks, mapper << 4, 0];
    bytes.extend([0; 8]);
    bytes.extend(prg);
    bytes.extend(vec![0xCD; chr_banks as usize * 8192]);
    Cartridge::load(&bytes).unwrap()
}

fn bus() -> Bus {
    Bus::new(cartridge(0, 0, &[]), vec![0; 512])
}

fn machine(program: &[u8]) -> Machine {
    let mut machine = Machine::new(cartridge(0, 0, program), vec![0; 512]);
    machine.reset();
    machine
}

#[test]
fn ram_answers_at_every_echo() {
    let mut bus = bus();
    bus.write(0x0812, 0x5A);
    for address in [0x0012, 0x0812, 0x1012, 0x1812] {
        assert_eq!(bus.read(address), 0x5A);
    }
    assert_eq!(bus.read(0x0013), 0);
}

#[test]
fn registers_answer_every_eight_bytes() {
    let mut bus = bus();
    bus.write(0x3FFB, 0x10); // $2003: the door
    bus.write(0x2014, 0x99); // $2004: one byte through it
    assert_eq!(bus.ppu.oam[0x10], 0x99);
    assert_eq!(bus.ppu.oam_addr, 0x11);
    bus.ppu.vblank = true;
    assert_eq!(bus.read(0x200A), 0x80);
    assert_eq!(bus.read(0x2002), 0x00);
    // Write-only registers answer nothing.
    assert_eq!(bus.read(0x2000), 0);
}

#[test]
fn the_mask_and_the_settings_are_kept() {
    let mut bus = bus();
    bus.write(0x2000, 0x93);
    bus.write(0x2001, 0x1E);
    assert_eq!((bus.ppu.ctrl, bus.ppu.mask, bus.ppu.t), (0x93, 0x1E, 0x0C00));
}

#[test]
fn pattern_space_belongs_to_the_board() {
    let mut bus = bus();
    bus.write(0x2006, 0x01);
    bus.write(0x2006, 0x23);
    bus.write(0x2007, 0x77);
    assert_eq!(bus.cartridge.chr_ram[0x0123], 0x77);
    assert_eq!(bus.ppu.v, 0x0124);
    bus.write(0x2006, 0x01);
    bus.write(0x2006, 0x23);
    assert_eq!(bus.read(0x2007), 0x00);
    assert_eq!(bus.read(0x2007), 0x77);
}

#[test]
fn the_pocket_keeps_ink_and_the_rom_does_not() {
    let mut bus = bus();
    bus.write(0x6000, 1);
    bus.write(0x7FFF, 2);
    bus.write(0x8000, 3);
    assert_eq!((bus.read(0x6000), bus.read(0x7FFF), bus.read(0x8000)), (1, 2, 0xEA));
    // Unwired territory.
    bus.write(0x5000, 9);
    assert_eq!(bus.read(0x5000), 0);
}

#[test]
fn a_page_streams_into_the_roster() {
    let mut bus = bus();
    for offset in 0..256u16 {
        bus.write(0x0300 + offset, offset as u8);
    }
    bus.write(0x2003, 0x10);
    bus.write(0x4014, 0x03);
    assert!(bus.oam_dma_started);
    assert_eq!(bus.ppu.oam[0x10], 0x00);
    assert_eq!(bus.ppu.oam[0xFF], 0xEF);
    assert_eq!(bus.ppu.oam[0x0F], 0xFF);
    assert_eq!(bus.ppu.oam_addr, 0x10);
}

#[test]
fn the_pad_is_read_a_bit_at_a_time() {
    let mut bus = bus();
    bus.controller.buttons = 0b0000_0101;
    bus.write(0x4016, 1);
    bus.write(0x4016, 0);
    assert_eq!((bus.read(0x4016), bus.read(0x4016), bus.read(0x4016)), (1, 0, 1));
    assert!(bus.read_4016_this_instruction);
}

#[test]
fn a_sampler_fetch_steals_a_bit() {
    let mut bus = bus();
    bus.controller.buttons = 0b0000_0010;
    bus.write(0x4016, 1);
    bus.write(0x4016, 0);
    bus.dmc_fetched_this_instruction = true;
    assert_eq!(bus.read(0x4016), 1);
}

#[test]
fn sound_registers_reach_the_sound_chip() {
    let mut bus = bus();
    bus.write(0x4015, 0b0000_0001);
    bus.write(0x4003, 0);
    assert_eq!(bus.read(0x4015), 0b0000_0001);
    bus.write(0x4017, 0b1000_0000);
    assert!(bus.apu.frame.five_step);
    assert_eq!(bus.read(0x4017), 0);
}

#[test]
fn a_board_rewires_the_name_ram() {
    let mut bus = Bus::new(cartridge(1, 1, &[]), vec![0; 512]);
    assert!(bus.ppu.mirroring == Mirroring::Horizontal);
    for bit in [0, 1, 0, 0, 0] {
        bus.write(0x8000, bit);
    }
    assert!(bus.ppu.mirroring == Mirroring::Vertical);
}

#[test]
fn a_cycle_is_three_dots() {
    let mut bus = bus();
    for _ in 0..114 {
        bus.beat();
    }
    assert_eq!((bus.clock.scanline, bus.clock.dot), (1, 1));
    assert_eq!(bus.apu.frame.cycle, 114);
}

#[test]
fn vblank_rises_on_line_241_and_falls_on_the_lap() {
    let mut bus = bus();
    for _ in 0..241 * 341 + 1 {
        bus.dot();
    }
    assert!(!bus.ppu.vblank);
    bus.dot();
    assert!(bus.ppu.vblank);
    for _ in 0..20 * 341 - 1 {
        bus.dot();
    }
    assert!(bus.ppu.vblank);
    bus.dot();
    assert!(!bus.ppu.vblank);
}

#[test]
fn reset_takes_seven_cycles_and_the_vector() {
    let machine = machine(&[]);
    assert_eq!((machine.pc, machine.sp, machine.status, machine.cycles), (0x8000, 0xFD, 0x24, 7));
    assert_eq!(machine.bus.clock.dot, 21);
}

#[test]
fn instructions_cost_what_they_cost() {
    // LDA #; LDA zp; STA zp; LDA zp,X; LDA abs; STA abs; TAX; INX; JMP
    let program = [
        (vec![0xA9, 0x05], 2),
        (vec![0xA5, 0x10], 3),
        (vec![0x85, 0x10], 3),
        (vec![0xB5, 0x10], 4),
        (vec![0x95, 0x10], 4),
        (vec![0xAD, 0x00, 0x02], 4),
        (vec![0x8D, 0x00, 0x02], 4),
        (vec![0xBD, 0x00, 0x02], 4),
        (vec![0x9D, 0x00, 0x02], 5),
        (vec![0xB9, 0x00, 0x02], 4),
        (vec![0x99, 0x00, 0x02], 5),
        (vec![0xA1, 0x10], 6),
        (vec![0x81, 0x10], 6),
        (vec![0xB1, 0x10], 5),
        (vec![0x91, 0x10], 6),
        (vec![0xAA], 2),
        (vec![0xE8], 2),
        (vec![0x4C, 0x00, 0x80], 3),
    ];
    for (bytes, cycles) in program {
        let mut machine = machine(&bytes);
        let before = machine.cycles;
        assert!(machine.step());
        assert_eq!(machine.cycles - before, cycles, "opcode {:02X}", bytes[0]);
        assert_eq!(machine.bus.clock.dot as u64, 3 * machine.cycles % 341);
    }
}

#[test]
fn carrying_into_a_page_costs_a_load_one_more() {
    for (bytes, x, y) in [
        (vec![0xBD, 0xFF, 0x02], 1, 0),
        (vec![0xB9, 0xFF, 0x02], 0, 1),
    ] {
        let mut machine = machine(&bytes);
        machine.x = x;
        machine.y = y;
        let before = machine.cycles;
        machine.step();
        assert_eq!(machine.cycles - before, 5);
    }
    let mut machine = machine(&[0xB1, 0x10]);
    machine.bus.ram[0x10] = 0xFF;
    machine.y = 1;
    let before = machine.cycles;
    machine.step();
    assert_eq!(machine.cycles - before, 6);
}

#[test]
fn a_sprite_page_stalls_the_machine() {
    // STA $4014: four cycles, then 513, or 514 from an odd cycle.
    let mut machine = machine(&[0x8D, 0x14, 0x40]);
    assert_eq!(machine.cycles, 7);
    machine.step();
    assert_eq!(machine.cycles, 7 + 4 + 514);
    assert!(!machine.bus.oam_dma_started);
    let mut machine = Machine::new(cartridge(0, 0, &[0x8D, 0x14, 0x40]), vec![0; 512]);
    machine.pc = 0x8000;
    machine.step();
    assert_eq!(machine.cycles, 4 + 513);
}

#[test]
fn loads_and_stores_agree_with_plain_memory() {
    let mut machine = machine(&[0xA9, 0x80, 0x85, 0x10, 0xA9, 0x00, 0xA5, 0x10]);
    for _ in 0..4 {
        machine.step();
    }
    assert_eq!(machine.a, 0x80);
    assert_eq!(machine.status & 0x82, 0x80);
    assert_eq!(machine.bus.ram[0x10], 0x80);
}

#[test]
fn a_jammed_machine_stays() {
    let mut machine = machine(&[0x02]);
    let before = machine.cycles;
    assert!(!machine.step());
    assert!(!machine.step());
    assert_eq!((machine.pc, machine.cycles), (0x8000, before));
}

#[test]
fn a_brk_stops_the_machine_and_is_walked_past() {
    let mut machine = machine(&[0x00, 0xE8]);
    let before = machine.cycles;
    assert!(!machine.step());
    assert_eq!((machine.pc, machine.cycles), (0x8001, before));
    assert!(machine.step());
    assert_eq!((machine.x, machine.pc, machine.cycles), (1, 0x8002, before + 2));
}

#[test]
fn peeking_shows_memory_and_hides_registers() {
    let mut machine = machine(&[0x4C]);
    machine.bus.ram[5] = 0x11;
    machine.bus.cartridge.prg_ram[0] = 0x22;
    assert_eq!(machine.peek(0x0805), Some(0x11));
    assert_eq!(machine.peek(0x6000), Some(0x22));
    assert_eq!(machine.peek(0x8000), Some(0x4C));
    assert_eq!(machine.peek(0xC000), Some(0x4C));
    assert_eq!(machine.peek(0x4020), Some(0));
    assert_eq!(machine.peek(0x5FFF), Some(0));
    for address in [0x2000, 0x2002, 0x3FFF, 0x4000, 0x4016, 0x401F] {
        assert_eq!(machine.peek(address), None);
    }
}

#[test]
fn a_program_can_paint_through_the_port() {
    // LDA #$3F; STA $2006; LDA #$00; STA $2006; LDA #$21; STA $2007
    let mut machine = machine(&[
        0xA9, 0x3F, 0x8D, 0x06, 0x20, 0xA9, 0x00, 0x8D, 0x06, 0x20, 0xA9, 0x21, 0x8D, 0x07, 0x20,
    ]);
    for _ in 0..6 {
        machine.step();
    }
    assert_eq!(machine.bus.ppu.palette_ram[0], 0x21);
}

#[test]
fn held_keys_make_the_pad_s_byte() {
    for buttons in 0..=255u8 {
        let mut held = [false; 8];
        for bit in 0..8 {
            held[bit] = buttons >> bit & 1 == 1;
        }
        assert_eq!(buttons_of(&held), buttons);
    }
}

#[test]
fn a_bus_without_a_program_still_reads_and_writes_the_rest() {
    let mut bytes = vec![b'N', b'E', b'S', 0x1A, 0, 0, 0, 0];
    bytes.extend([0; 8]);
    let mut bus = Bus::new(Cartridge::load(&bytes).unwrap(), vec![0; 512]);
    bus.write(0x0203, 0x77);
    bus.write(0x6000, 0x11);
    bus.write(0x8000, 0x22);
    bus.write(0x2003, 0x00);
    bus.write(0x4014, 0x02);
    assert_eq!((bus.read(0x0203), bus.read(0x6000)), (0x77, 0x11));
    assert_eq!(bus.ppu.oam[3], 0x77);
}
