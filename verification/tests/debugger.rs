//! Stopping and stepping.

use graybox::cartridge::Cartridge;
use graybox::debugger::{Debugger, Mode, Step};
use graybox::machine::Machine;


/// A machine whose only program is a jump to itself: three cycles,
/// forever, with the picture chip ticking along underneath.
fn idling_machine() -> Machine {
    let mut prg = vec![0xEA; 16 * 1024];
    prg[0..3].copy_from_slice(&[0x4C, 0x00, 0x80]); // JMP $8000
    prg[0x3FFC] = 0x00; // the reset vector: $8000
    prg[0x3FFD] = 0x80;

    let mut rom = vec![b'N', b'E', b'S', 0x1A, 1, 0, 0, 0, 0, 0, 0, 0, 0, 0, 0, 0];
    rom.extend(prg);

    let mut cpu = Machine::new(Cartridge::load(&rom).unwrap(), vec![0; 512]);
    cpu.reset();
    cpu
}

#[test]
fn a_closed_debugger_runs_and_ignores_the_step_keys() {
    let mut debugger = Debugger::new();
    debugger.step(Step::Instruction);
    assert_eq!(debugger.mode, Mode::Running);

    let mut cpu = idling_machine();
    debugger.run(&mut cpu);
    assert_eq!(cpu.bus.clock.frame, 1, "running means a frame per trip");
}

#[test]
fn opening_the_debugger_stops_the_machine() {
    let mut debugger = Debugger::new();
    debugger.toggle();
    assert_eq!(debugger.mode, Mode::Paused);

    let mut cpu = idling_machine();
    let before = cpu.cycles;
    debugger.run(&mut cpu);
    assert_eq!(cpu.cycles, before, "paused means not a single cycle");
}

#[test]
fn an_instruction_step_is_one_instruction_then_a_pause() {
    let mut debugger = Debugger::new();
    debugger.toggle();
    debugger.step(Step::Instruction);

    let mut cpu = idling_machine();
    let before = cpu.cycles;
    debugger.run(&mut cpu);
    assert_eq!(cpu.cycles - before, 3, "JMP costs three cycles");
    assert_eq!(debugger.mode, Mode::Paused);
}

#[test]
fn a_scanline_step_lands_on_the_next_line() {
    let mut debugger = Debugger::new();
    debugger.toggle();
    debugger.step(Step::Scanline);

    let mut cpu = idling_machine();
    let line = cpu.bus.clock.scanline;
    debugger.run(&mut cpu);
    assert_eq!(cpu.bus.clock.scanline, line + 1);
    assert!(cpu.bus.clock.dot < 9, "at most one instruction past the line's start");
}

#[test]
fn a_frame_step_finishes_the_picture() {
    let mut debugger = Debugger::new();
    debugger.toggle();
    debugger.step(Step::Frame);

    let mut cpu = idling_machine();
    debugger.run(&mut cpu);
    assert_eq!(cpu.bus.clock.frame, 1);
    assert_eq!(debugger.mode, Mode::Paused);
}
