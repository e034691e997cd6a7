//! The whole machine: the processor on the bus, and the time it takes.

use vstd::prelude::*;

use crate::bus::{Bus, BusState};
use crate::cartridge::Cartridge;
use crate::cpu;
use crate::cpu::AddressingMode;
use crate::ppu::COLORS;

verus! {

/// A processor wired to a bus, with the odometer that counts its cycles. It
/// fetches no samples for the sound chip's fifth voice, so on a whole machine
/// none plays and no fetch disturbs the pad, and it answers no interrupt,
/// whoever holds the line.
pub struct Machine {
    pub a: u8,
    pub x: u8,
    pub y: u8,
    pub pc: u16,
    pub sp: u8,
    pub status: u8,
    /// Every cycle since power-on.
    pub cycles: u64,
    pub bus: Bus,
}

/// A [`Machine`] as a mathematical value.
pub ghost struct MachineState {
    pub a: u8,
    pub x: u8,
    pub y: u8,
    pub pc: u16,
    pub sp: u8,
    pub status: u8,
    pub cycles: u64,
    pub bus: BusState,
}

impl View for Machine {
    type V = MachineState;

    open spec fn view(&self) -> MachineState {
        MachineState {
            a: self.a,
            x: self.x,
            y: self.y,
            pc: self.pc,
            sp: self.sp,
            status: self.status,
            cycles: self.cycles,
            bus: self.bus@,
        }
    }
}

/// The opcodes the machine runs: the loads, the stores, TAX, INX, and the
/// absolute JMP.
pub open spec fn runs(opcode: u8) -> bool {
    cpu::load_mode(opcode) is Some || cpu::store_mode(opcode) is Some || opcode == 0xAA || opcode
        == 0xE8 || opcode == 0x4C
}

/// The stop sign's opcode.
pub const BRK: u8 = 0x00;

/// Whether an address is one that changes things when looked at, or answers
/// with nothing a listing should show.
pub open spec fn is_register(address: int) -> bool {
    0x2000 <= address < 0x4020
}

/// A bus in step with an odometer: in order itself, with three dots gone by
/// for every cycle, and a conductor that has not counted past it.
#[verifier::opaque]
pub open spec fn in_step(bus: BusState, cycles: u64) -> bool {
    &&& bus.wf()
    &&& bus.clock.wf()
    &&& bus.clock.dots() == 3 * cycles
    &&& bus.apu.frame.cycle <= cycles
}

/// The two-byte number at an address, its low byte looked at first.
#[verifier::opaque]
pub open spec fn word_answer(bus: BusState, address: int) -> u16 {
    cpu::word(bus.answer(address), bus.after_read(address).answer(cpu::further(address, 1)))
}

/// What looking at a two-byte number changes.
#[verifier::opaque]
pub open spec fn after_word(bus: BusState, address: int) -> BusState {
    bus.after_read(address).after_read(cpu::further(address, 1))
}

/// The address in the zero-page pointer that the byte at `at` names, an
/// index further round the page.
#[verifier::opaque]
pub open spec fn pointer_answer(bus: BusState, at: int, index: u8) -> u16 {
    word_answer(bus.after_read(at), (bus.answer(at) + index) % 0x100)
}

/// What following such a pointer changes.
#[verifier::opaque]
pub open spec fn after_pointer(bus: BusState, at: int, index: u8) -> BusState {
    after_word(bus.after_read(at), (bus.answer(at) + index) % 0x100)
}

impl MachineState {
    /// What every instruction keeps: the bus in step with the odometer.
    pub open spec fn wf(self) -> bool {
        in_step(self.bus, self.cycles)
    }

    /// The byte that answers at an address.
    pub open spec fn sees(self, address: int) -> u8 {
        self.bus.answer(address)
    }

    /// What looking at an address leaves.
    pub open spec fn looked(self, address: int) -> MachineState {
        MachineState { bus: self.bus.after_read(address), ..self }
    }

    /// The two-byte number at an address, its low byte looked at first.
    pub open spec fn sees_word(self, address: int) -> u16 {
        word_answer(self.bus, address)
    }

    /// What looking at a two-byte number leaves.
    pub open spec fn looked_word(self, address: int) -> MachineState {
        MachineState { bus: after_word(self.bus, address), ..self }
    }

    /// The program counter moved so many bytes on.
    pub open spec fn moved(self, bytes: int) -> MachineState {
        MachineState { pc: cpu::further(self.pc as int, bytes) as u16, ..self }
    }

    /// The address in the pointer that waits at a zero-page spot: the one
    /// the program names, an index further round the page.
    pub open spec fn sees_pointer(self, index: u8) -> u16 {
        pointer_answer(self.bus, self.pc as int, index)
    }

    /// What following such a pointer leaves.
    pub open spec fn looked_pointer(self, index: u8) -> MachineState {
        MachineState { bus: after_pointer(self.bus, self.pc as int, index), ..self }
    }

    /// The address an indexed mode starts from, before it adds its index.
    pub open spec fn base(self, mode: AddressingMode) -> int {
        let at = self.pc as int;
        match mode {
            AddressingMode::Immediate => at,
            AddressingMode::ZeroPage | AddressingMode::ZeroPageX => self.sees(at) as int,
            AddressingMode::Absolute | AddressingMode::AbsoluteX | AddressingMode::AbsoluteY => self.sees_word(
                at,
            ) as int,
            AddressingMode::IndirectX => self.sees_pointer(self.x) as int,
            AddressingMode::IndirectY => self.sees_pointer(0) as int,
        }
    }

    /// Where an instruction's value lives.
    pub open spec fn operand(self, mode: AddressingMode) -> int {
        match mode {
            AddressingMode::ZeroPageX => (self.base(mode) + self.x) % 0x100,
            AddressingMode::AbsoluteX => cpu::further(self.base(mode), self.x as int),
            AddressingMode::AbsoluteY | AddressingMode::IndirectY => cpu::further(
                self.base(mode),
                self.y as int,
            ),
            _ => self.base(mode),
        }
    }

    /// What finding an instruction's value leaves: the program counter past
    /// the operand, and every byte on the way looked at.
    pub open spec fn after_operand(self, mode: AddressingMode) -> MachineState {
        let at = self.pc as int;
        let looked = match mode {
            AddressingMode::Immediate => self,
            AddressingMode::ZeroPage | AddressingMode::ZeroPageX => self.looked(at),
            AddressingMode::Absolute | AddressingMode::AbsoluteX | AddressingMode::AbsoluteY => self.looked_word(
                at,
            ),
            AddressingMode::IndirectX => self.looked_pointer(self.x),
            AddressingMode::IndirectY => self.looked_pointer(0),
        };
        looked.moved(cpu::operand_len(mode))
    }

    /// Whether adding the index carried the address into another page.
    pub open spec fn crosses(self, mode: AddressingMode) -> bool {
        self.operand(mode) / 0x100 != self.base(mode) / 0x100
    }

    /// A load: the byte goes into A, and the flags take note.
    pub open spec fn loaded(self, mode: AddressingMode) -> MachineState {
        let found = self.after_operand(mode);
        let value = found.sees(self.operand(mode));
        MachineState {
            a: value,
            status: cpu::noted(self.status, value),
            ..found.looked(self.operand(mode))
        }
    }

    /// A load's cycles. Carrying into another page costs one more where the
    /// chip guesses that it will not.
    pub open spec fn load_price(self, mode: AddressingMode) -> int {
        match mode {
            AddressingMode::Immediate => 2,
            AddressingMode::ZeroPage => 3,
            AddressingMode::ZeroPageX | AddressingMode::Absolute => 4,
            AddressingMode::AbsoluteX | AddressingMode::AbsoluteY => if self.crosses(mode) {
                5
            } else {
                4
            },
            AddressingMode::IndirectX => 6,
            AddressingMode::IndirectY => if self.crosses(mode) {
                6
            } else {
                5
            },
        }
    }

    /// A store: A goes out on the bus, and no flag moves.
    pub open spec fn stored(self, mode: AddressingMode) -> MachineState {
        let found = self.after_operand(mode);
        MachineState { bus: found.bus.written(self.operand(mode), self.a), ..found }
    }

    /// X set to a value, and the flags take note.
    pub open spec fn with_x(self, value: u8) -> MachineState {
        MachineState { x: value, status: cpu::noted(self.status, value), ..self }
    }

    /// A jump to the address in the program.
    pub open spec fn jumped(self) -> MachineState {
        MachineState {
            pc: self.sees_word(self.pc as int),
            ..self.looked_word(self.pc as int)
        }
    }

    /// What an instruction does, its opcode already fetched.
    #[verifier::opaque]
    pub open spec fn executed(self, opcode: u8) -> MachineState {
        if cpu::load_mode(opcode) is Some {
            self.loaded(cpu::load_mode(opcode)->0)
        } else if cpu::store_mode(opcode) is Some {
            self.stored(cpu::store_mode(opcode)->0)
        } else if opcode == 0xAA {
            self.with_x(self.a)
        } else if opcode == 0xE8 {
            self.with_x(((self.x + 1) % 0x100) as u8)
        } else {
            self.jumped()
        }
    }

    /// An instruction's cycles.
    #[verifier::opaque]
    pub open spec fn price(self, opcode: u8) -> int {
        if cpu::load_mode(opcode) is Some {
            self.load_price(cpu::load_mode(opcode)->0)
        } else if cpu::store_mode(opcode) is Some {
            store_price(cpu::store_mode(opcode)->0)
        } else if opcode == 0x4C {
            3
        } else {
            2
        }
    }

    /// What transfers stole during an instruction, billed as it ends: the
    /// stall on the books, and for a sprite page 513 cycles, or 514 from an
    /// odd cycle.
    pub open spec fn bill(self, price: int) -> int {
        self.bus.dma_stall + (if self.bus.oam_dma_started {
            513 + (self.cycles + price) % 2
        } else {
            0
        })
    }

    /// The books cleared.
    pub open spec fn settled(self) -> MachineState {
        MachineState {
            bus: BusState { dma_stall: 0, oam_dma_started: false, ..self.bus },
            ..self
        }
    }

    /// `count` cycles of everything else.
    pub open spec fn spent(self, count: nat) -> MachineState
        decreases count,
    {
        if count == 0 {
            self
        } else {
            let before = self.spent((count - 1) as nat);
            MachineState { cycles: (before.cycles + 1) as u64, bus: before.bus.beaten(), ..before }
        }
    }

    /// The instruction's own notes, blank again.
    pub open spec fn fresh(self) -> MachineState {
        MachineState {
            bus: BusState {
                read_4016_this_instruction: false,
                dmc_fetched_this_instruction: false,
                ..self.bus
            },
            ..self
        }
    }

    /// The opcode the next step fetches.
    pub open spec fn opcode(self) -> u8 {
        self.fresh().sees(self.pc as int)
    }

    /// The machine with its opcode fetched.
    pub open spec fn fetched(self) -> MachineState {
        self.fresh().looked(self.pc as int).moved(1)
    }

    /// One instruction, and the time it takes. BRK is a stop sign: the
    /// machine walks past it, and nothing else happens. On any other opcode
    /// that it does not run, it stands still.
    #[verifier::opaque]
    pub open spec fn stepped(self) -> MachineState {
        let opcode = self.opcode();
        if runs(opcode) {
            let price = self.fetched().price(opcode);
            let done = self.fetched().executed(opcode);
            done.settled().spent((price + done.bill(price)) as nat)
        } else if opcode == BRK {
            self.fetched()
        } else {
            self.fresh().looked(self.pc as int)
        }
    }

    /// The reset button: the pockets as the chip's reset leaves them, the
    /// program counter from the vector at $FFFC, and the seven cycles the
    /// sequence takes.
    pub open spec fn was_reset(self) -> MachineState {
        MachineState {
            a: 0,
            x: 0,
            y: 0,
            sp: 0xFD,
            status: 0b0010_0100,
            pc: self.sees_word(0xFFFC),
            ..self.looked_word(0xFFFC)
        }.spent(7)
    }

    /// What a listing may show of an address.
    pub open spec fn peeked(self, address: int) -> Option<u8> {
        if is_register(address) {
            None
        } else {
            Some(self.sees(address))
        }
    }
}

/// A store's cycles. It cannot guess: carrying or not, the slow road.
pub open spec fn store_price(mode: AddressingMode) -> int {
    match mode {
        AddressingMode::Immediate => 2,
        AddressingMode::ZeroPage => 3,
        AddressingMode::ZeroPageX | AddressingMode::Absolute => 4,
        AddressingMode::AbsoluteX | AddressingMode::AbsoluteY => 5,
        AddressingMode::IndirectX | AddressingMode::IndirectY => 6,
    }
}

/// The room an instruction needs on the odometer: its own cycles, and the
/// longest bill.
pub const LONGEST_STEP: u64 = 530;

impl Machine {
    /// A machine around a cartridge: every pocket empty, nothing counted.
    /// `colors` is the picture chip's palette.
    pub fn new(cartridge: Cartridge, colors: Vec<u32>) -> (machine: Machine)
        requires
            colors@.len() == COLORS,
        ensures
            machine@ == (MachineState {
                a: 0,
                x: 0,
                y: 0,
                pc: 0,
                sp: 0,
                status: 0,
                cycles: 0,
                bus: BusState::wired(cartridge@, colors@),
            }),
            cartridge@.wf() ==> machine@.wf(),
    {
        proof {
            reveal(<Bus as View>::view);
            reveal(in_step);
        }
        Machine { a: 0, x: 0, y: 0, pc: 0, sp: 0, status: 0, cycles: 0, bus: Bus::new(cartridge, colors) }
    }

    /// Read one byte over the bus.
    fn read(&mut self, address: u16) -> (value: u8)
        requires
            old(self)@.wf(),
        ensures
            value == old(self)@.sees(address as int),
            final(self)@ == old(self)@.looked(address as int),
            final(self)@.wf(),
            final(self).bus.dma_stall == old(self).bus.dma_stall,
    {
        proof {
            reveal(<Bus as View>::view);
            reveal(in_step);
        }
        self.bus.read(address)
    }

    /// Write one byte over the bus.
    fn write(&mut self, address: u16, value: u8)
        requires
            old(self)@.wf(),
        ensures
            final(self)@ == (MachineState {
                bus: old(self)@.bus.written(address as int, value),
                ..old(self)@
            }),
            final(self)@.wf(),
            final(self).bus.dma_stall == old(self).bus.dma_stall,
    {
        proof {
            reveal(<Bus as View>::view);
            reveal(in_step);
        }
        self.bus.write(address, value);
    }

    /// Read a two-byte number over the bus, little end first.
    fn read_word(&mut self, address: u16) -> (value: u16)
        requires
            old(self)@.wf(),
        ensures
            value == old(self)@.sees_word(address as int),
            final(self)@ == old(self)@.looked_word(address as int),
            final(self)@.wf(),
            final(self).bus.dma_stall == old(self).bus.dma_stall,
    {
        proof {
            reveal(word_answer);
            reveal(after_word);
        }
        let low = self.read(address);
        let high = self.read(address.wrapping_add(1));
        cpu::join(low, high)
    }

    /// The modes that name a zero-page spot.
    fn zero_page_operand(&mut self, mode: AddressingMode) -> (found: (u16, u16))
        requires
            old(self)@.wf(),
            mode is ZeroPage || mode is ZeroPageX,
        ensures
            found.0 == old(self)@.operand(mode),
            found.1 == old(self)@.base(mode),
            final(self)@ == old(self)@.after_operand(mode),
            final(self)@.wf(),
            final(self).bus.dma_stall == old(self).bus.dma_stall,
    {
        let base = self.read(self.pc);
        self.pc = self.pc.wrapping_add(1);
        let address = match mode {
            AddressingMode::ZeroPageX => base.wrapping_add(self.x),
            _ => base,
        };
        (address as u16, base as u16)
    }

    /// The modes that carry a whole address.
    fn absolute_operand(&mut self, mode: AddressingMode) -> (found: (u16, u16))
        requires
            old(self)@.wf(),
            mode is Absolute || mode is AbsoluteX || mode is AbsoluteY,
        ensures
            found.0 == old(self)@.operand(mode),
            found.1 == old(self)@.base(mode),
            final(self)@ == old(self)@.after_operand(mode),
            final(self)@.wf(),
            final(self).bus.dma_stall == old(self).bus.dma_stall,
    {
        let base = self.read_word(self.pc);
        self.pc = self.pc.wrapping_add(2);
        let address = match mode {
            AddressingMode::AbsoluteX => base.wrapping_add(self.x as u16),
            AddressingMode::AbsoluteY => base.wrapping_add(self.y as u16),
            _ => base,
        };
        (address, base)
    }

    /// Follow the zero-page pointer that the program names, an index further
    /// round the page.
    fn follow(&mut self, index: u8) -> (address: u16)
        requires
            old(self)@.wf(),
        ensures
            address == old(self)@.sees_pointer(index),
            final(self)@ == old(self)@.looked_pointer(index),
            final(self)@.wf(),
            final(self).bus.dma_stall == old(self).bus.dma_stall,
    {
        proof {
            reveal(pointer_answer);
            reveal(after_pointer);
        }
        let spot = self.read(self.pc);
        self.read_word(spot.wrapping_add(index) as u16)
    }

    /// The modes that follow a zero-page pointer.
    fn indirect_operand(&mut self, mode: AddressingMode) -> (found: (u16, u16))
        requires
            old(self)@.wf(),
            mode is IndirectX || mode is IndirectY,
        ensures
            found.0 == old(self)@.operand(mode),
            found.1 == old(self)@.base(mode),
            final(self)@ == old(self)@.after_operand(mode),
            final(self)@.wf(),
            final(self).bus.dma_stall == old(self).bus.dma_stall,
    {
        let index = match mode {
            AddressingMode::IndirectX => self.x,
            _ => 0,
        };
        let base = self.follow(index);
        self.pc = self.pc.wrapping_add(1);
        let address = match mode {
            AddressingMode::IndirectX => base,
            _ => base.wrapping_add(self.y as u16),
        };
        (address, base)
    }

    /// Where an instruction's value lives, and the address its index was
    /// added to. Moves the program counter past the operand.
    fn operand_address(&mut self, mode: AddressingMode) -> (found: (u16, u16))
        requires
            old(self)@.wf(),
        ensures
            found.0 == old(self)@.operand(mode),
            found.1 == old(self)@.base(mode),
            final(self)@ == old(self)@.after_operand(mode),
            final(self)@.wf(),
            final(self).bus.dma_stall == old(self).bus.dma_stall,
    {
        match mode {
            AddressingMode::Immediate => {
                let at = self.pc;
                self.pc = at.wrapping_add(1);
                (at, at)
            },
            AddressingMode::ZeroPage => self.zero_page_operand(mode),
            AddressingMode::ZeroPageX => self.zero_page_operand(mode),
            AddressingMode::IndirectX => self.indirect_operand(mode),
            AddressingMode::IndirectY => self.indirect_operand(mode),
            _ => self.absolute_operand(mode),
        }
    }

    /// LDA, any flavor. Returns its cycles.
    fn lda(&mut self, mode: AddressingMode) -> (price: u64)
        requires
            old(self)@.wf(),
        ensures
            price == old(self)@.load_price(mode),
            final(self)@ == old(self)@.loaded(mode),
            final(self)@.wf(),
            final(self).bus.dma_stall == old(self).bus.dma_stall,
    {
        let (address, base) = self.operand_address(mode);
        let value = self.read(address);
        self.a = value;
        self.status = cpu::note(self.status, value);
        let carried: u64 = if address / 0x100 != base / 0x100 {
            1
        } else {
            0
        };
        match mode {
            AddressingMode::Immediate => 2,
            AddressingMode::ZeroPage => 3,
            AddressingMode::ZeroPageX => 4,
            AddressingMode::Absolute => 4,
            AddressingMode::AbsoluteX => 4 + carried,
            AddressingMode::AbsoluteY => 4 + carried,
            AddressingMode::IndirectX => 6,
            AddressingMode::IndirectY => 5 + carried,
        }
    }

    /// STA, any flavor. Returns its cycles.
    fn sta(&mut self, mode: AddressingMode) -> (price: u64)
        requires
            old(self)@.wf(),
        ensures
            price == store_price(mode),
            final(self)@ == old(self)@.stored(mode),
            final(self)@.wf(),
            final(self).bus.dma_stall == old(self).bus.dma_stall,
    {
        let (address, _) = self.operand_address(mode);
        self.write(address, self.a);
        match mode {
            AddressingMode::Immediate => 2,
            AddressingMode::ZeroPage => 3,
            AddressingMode::ZeroPageX => 4,
            AddressingMode::Absolute => 4,
            AddressingMode::AbsoluteX => 5,
            AddressingMode::AbsoluteY => 5,
            AddressingMode::IndirectX => 6,
            AddressingMode::IndirectY => 6,
        }
    }

    /// Execute one opcode, already fetched. Returns its cycles, or `None`,
    /// with nothing done, for an opcode the machine does not run.
    fn execute(&mut self, opcode: u8) -> (price: Option<u64>)
        requires
            old(self)@.wf(),
        ensures
            price is Some <==> runs(opcode),
            price is Some ==> price->0 == old(self)@.price(opcode) && 2 <= price->0 <= 6,
            price is Some ==> final(self)@ == old(self)@.executed(opcode),
            price is None ==> final(self)@ == old(self)@,
            final(self).cycles == old(self).cycles,
            final(self)@.wf(),
            final(self).bus.dma_stall == old(self).bus.dma_stall,
    {
        proof {
            reveal(MachineState::executed);
            reveal(MachineState::price);
        }
        if let Some(mode) = cpu::decode_load(opcode) {
            return Some(self.lda(mode));
        }
        if let Some(mode) = cpu::decode_store(opcode) {
            return Some(self.sta(mode));
        }
        match opcode {
            0xAA => {
                self.x = self.a;
                self.status = cpu::note(self.status, self.x);
                Some(2)
            },
            0xE8 => {
                self.x = self.x.wrapping_add(1);
                self.status = cpu::note(self.status, self.x);
                Some(2)
            },
            0x4C => {
                let target = self.read_word(self.pc);
                self.pc = target;
                Some(3)
            },
            _ => None,
        }
    }

    /// Let one cycle pass for everything else on the bus.
    fn beat(&mut self)
        requires
            old(self)@.wf(),
            old(self).cycles < u64::MAX - 1,
        ensures
            final(self)@ == (MachineState {
                cycles: (old(self).cycles + 1) as u64,
                bus: old(self)@.bus.beaten(),
                ..old(self)@
            }),
            final(self)@.wf(),
            final(self).bus.dma_stall == old(self).bus.dma_stall,
    {
        proof {
            reveal(<Bus as View>::view);
            reveal(in_step);
            reveal(BusState::in_order);
        }
        self.bus.beat();
        self.cycles = self.cycles + 1;
    }

    /// Let so many cycles pass for everything else on the bus.
    fn spend(&mut self, count: u64)
        requires
            old(self)@.wf(),
            old(self).cycles + count < u64::MAX - 1,
        ensures
            final(self)@ == old(self)@.spent(count as nat),
            final(self)@.wf(),
            final(self).cycles == old(self).cycles + count,
            final(self).bus.dma_stall == old(self).bus.dma_stall,
    {
        let mut done: u64 = 0;
        while done < count
            invariant
                done <= count,
                self@ == old(self)@.spent(done as nat),
                self@.wf(),
                self.cycles == old(self).cycles + done,
                old(self).cycles + count < u64::MAX - 1,
                self.bus.dma_stall == old(self).bus.dma_stall,
            decreases count - done,
        {
            self.beat();
            done = done + 1;
        }
    }

    /// Turn to a fresh page of the instruction's own notes.
    fn begin(&mut self)
        requires
            old(self)@.wf(),
        ensures
            final(self)@ == old(self)@.fresh(),
            final(self)@.wf(),
            final(self).bus.dma_stall == old(self).bus.dma_stall,
    {
        proof {
            reveal(<Bus as View>::view);
            reveal(in_step);
            reveal(BusState::in_order);
        }
        self.bus.read_4016_this_instruction = false;
        self.bus.dmc_fetched_this_instruction = false;
    }

    /// What transfers stole during an instruction, taken off the books.
    fn settle(&mut self, price: u64) -> (bill: u64)
        requires
            old(self)@.wf(),
            price <= 6,
            old(self).cycles + old(self).bus.dma_stall + LONGEST_STEP < u64::MAX,
        ensures
            bill == old(self)@.bill(price as int),
            bill <= old(self).bus.dma_stall + 514,
            final(self)@ == old(self)@.settled(),
            final(self)@.wf(),
            final(self).bus.dma_stall == 0,
    {
        proof {
            reveal(<Bus as View>::view);
            reveal(in_step);
            reveal(BusState::in_order);
        }
        let mut bill: u64 = self.bus.dma_stall;
        if self.bus.oam_dma_started {
            bill = bill + 513 + (self.cycles + price) % 2;
        }
        self.bus.dma_stall = 0;
        self.bus.oam_dma_started = false;
        bill
    }

    /// Run one instruction, and let the time it takes pass. Returns `false`
    /// on a BRK, which it walks past, and on an opcode the machine does not
    /// run, where it stands still; neither takes any time.
    pub fn step(&mut self) -> (goes_on: bool)
        requires
            old(self)@.wf(),
            old(self).cycles + old(self).bus.dma_stall + LONGEST_STEP < u64::MAX,
        ensures
            goes_on == runs(old(self)@.opcode()),
            final(self)@ == old(self)@.stepped(),
            final(self)@.wf(),
            goes_on ==> old(self).cycles + 2 <= final(self).cycles <= old(self).cycles + old(
                self,
            ).bus.dma_stall + LONGEST_STEP,
            !goes_on ==> final(self).cycles == old(self).cycles,
            final(self).bus.dma_stall == (if goes_on {
                0
            } else {
                old(self).bus.dma_stall
            }),
    {
        proof {
            reveal(MachineState::stepped);
        }
        self.begin();
        let opcode = self.read(self.pc);
        let at = self.pc;
        self.pc = at.wrapping_add(1);
        match self.execute(opcode) {
            Some(price) => {
                let bill = self.settle(price);
                self.spend(price + bill);
                true
            },
            None => {
                if opcode != BRK {
                    self.pc = at;
                }
                false
            },
        }
    }

    /// Press the reset button.
    pub fn reset(&mut self)
        requires
            old(self)@.wf(),
            old(self).cycles + LONGEST_STEP < u64::MAX,
        ensures
            final(self)@ == old(self)@.was_reset(),
            final(self)@.wf(),
            final(self).cycles == old(self).cycles + 7,
            final(self).bus.dma_stall == old(self).bus.dma_stall,
    {
        self.a = 0;
        self.x = 0;
        self.y = 0;
        self.sp = 0xFD;
        self.status = 0b0010_0100;
        self.pc = self.read_word(0xFFFC);
        self.spend(7);
    }

    /// What a listing may show of an address, without disturbing anything:
    /// nothing of the registers, and the byte of everything else.
    pub fn peek(&self, address: u16) -> (value: Option<u8>)
        requires
            self.bus@.in_order(),
            address >= 0x8000 ==> self.bus@.cartridge.has_program(),
        ensures
            value == self@.peeked(address as int),
    {
        proof {
            reveal(<Bus as View>::view);
            reveal(BusState::in_order);
            reveal(BusState::answer);
        }
        match address {
            0x0000..=0x1FFF => Some(self.bus.ram[address as usize % 2048]),
            0x2000..=0x401F => None,
            0x4020..=0x5FFF => Some(0),
            0x6000..=0x7FFF => Some(self.bus.cartridge.prg_ram[address as usize - 0x6000]),
            0x8000..=0xFFFF => Some(self.bus.cartridge.read_prg(address)),
        }
    }
}

/// A machine's view holds its clock and its books as they are.
pub proof fn lemma_view_fields(machine: Machine)
    ensures
        machine@.bus.clock == machine.bus.clock,
        machine@.bus.dma_stall == machine.bus.dma_stall,
{
    reveal(<Bus as View>::view);
}

/// A machine's beam is where its odometer says: three dots for every cycle,
/// 341 to the line, 262 lines to the frame.
pub proof fn law_three_dots_a_cycle(machine: MachineState)
    requires
        machine.wf(),
    ensures
        machine.bus.clock.dot == 3 * machine.cycles % 341,
        machine.bus.clock.scanline == 3 * machine.cycles / 341 % 262,
        machine.bus.clock.frame == 3 * machine.cycles / 89342,
{
    reveal(in_step);
    crate::clock::law_position_follows_from_the_count(machine.bus.clock);
}

/// What a listing may show, it shows without a trace: looking at an address
/// that is no register leaves the machine as it was.
pub proof fn law_peeking_leaves_no_trace(machine: MachineState, address: int)
    requires
        0 <= address < 0x10000,
        machine.peeked(address) is Some,
    ensures
        machine.looked(address) == machine,
{
    reveal(BusState::after_read);
}

/// A machine that stands on an opcode it does not run, and that is no BRK,
/// stands there for good: if that opcode is in memory and not in a register,
/// a step changes nothing but the instruction's own notes.
pub proof fn law_jammed_machine_stays(machine: MachineState)
    requires
        !runs(machine.opcode()),
        machine.opcode() != BRK,
        !is_register(machine.pc as int),
    ensures
        machine.stepped() == machine.fresh(),
        machine.stepped().stepped() == machine.stepped(),
{
    reveal(MachineState::stepped);
    reveal(BusState::after_read);
}

/// A BRK in memory moves the program counter past it and does nothing else:
/// no time passes, and no pocket changes.
pub proof fn law_brk_is_walked_past(machine: MachineState)
    requires
        machine.opcode() == BRK,
        !is_register(machine.pc as int),
    ensures
        machine.stepped() == machine.fresh().moved(1),
        machine.stepped().cycles == machine.cycles,
        machine.stepped().pc == cpu::further(machine.pc as int, 1),
{
    reveal(MachineState::stepped);
    reveal(BusState::after_read);
}

/// A machine as a processor on plain memory would see it: the pockets, and
/// the byte that answers at each of the 64 Ki addresses.
pub open spec fn flat(machine: MachineState) -> cpu::CpuState {
    cpu::CpuState {
        a: machine.a,
        x: machine.x,
        y: machine.y,
        pc: machine.pc,
        sp: machine.sp,
        status: machine.status,
        memory: Seq::new(0x10000, |address: int| machine.sees(address)),
    }
}

/// Whether an operand is read from memory all the way: neither its own bytes
/// nor the byte it names lie among the registers.
pub open spec fn in_memory(machine: MachineState, mode: AddressingMode) -> bool {
    &&& !is_register(machine.pc as int)
    &&& !is_register(cpu::further(machine.pc as int, 1))
    &&& !is_register(machine.operand(mode))
}

/// A word in memory is read as it stands in plain memory, and without a
/// trace.
proof fn lemma_words_agree(machine: MachineState, address: int)
    requires
        0 <= address < 0x10000,
        !is_register(address),
        !is_register(cpu::further(address, 1)),
    ensures
        machine.looked(address) == machine,
        machine.sees_word(address) == flat(machine).word_at(address),
        machine.looked_word(address) == machine,
{
    reveal(BusState::after_read);
    reveal(word_answer);
    reveal(after_word);
}

/// Addressing on the bus is addressing in memory: away from the registers,
/// an instruction's value lives where it would live in plain memory, and
/// finding it changes nothing but the program counter.
pub proof fn law_operands_agree(machine: MachineState, mode: AddressingMode)
    requires
        in_memory(machine, mode),
    ensures
        machine.operand(mode) == flat(machine).operand(mode, machine.pc as int),
        machine.after_operand(mode) == machine.moved(cpu::operand_len(mode)),
        0 <= machine.operand(mode) < 0x10000,
{
    let at = machine.pc as int;
    let x = (machine.sees(at) + machine.x) % 0x100;
    let y = (machine.sees(at) + 0) % 0x100;
    lemma_words_agree(machine, at);
    lemma_words_agree(machine, x);
    lemma_words_agree(machine, y);
    reveal(pointer_answer);
    reveal(after_pointer);
    assert(machine.sees(at) == flat(machine).memory[at]);
    assert(machine.sees_pointer(machine.x) == flat(machine).word_at(x));
    assert(machine.looked_pointer(machine.x) == machine);
    assert(machine.sees_pointer(0) == flat(machine).word_at(y));
    assert(machine.looked_pointer(0) == machine);
}

/// A load on the bus does to the pockets what it does in plain memory, and
/// leaves the rest of the machine alone.
pub proof fn law_loads_agree(machine: MachineState, mode: AddressingMode)
    requires
        in_memory(machine, mode),
    ensures
        flat(machine.loaded(mode)) == flat(machine).loaded(mode),
        machine.loaded(mode).bus == machine.bus,
{
    law_operands_agree(machine, mode);
    reveal(BusState::after_read);
    assert(flat(machine.loaded(mode)).memory =~= flat(machine).memory);
}

/// A store on the bus into RAM does what it does in plain memory: at the
/// address it names, and at its echoes, the byte that answers is A.
pub proof fn law_stores_agree(machine: MachineState, mode: AddressingMode)
    requires
        machine.wf(),
        in_memory(machine, mode),
        machine.operand(mode) < 0x2000,
    ensures
        machine.stored(mode).sees(machine.operand(mode)) == machine.a,
        machine.stored(mode).a == flat(machine).stored(mode).a,
        machine.stored(mode).status == flat(machine).stored(mode).status,
        machine.stored(mode).pc == flat(machine).stored(mode).pc,
{
    law_operands_agree(machine, mode);
    reveal(in_step);
    crate::bus::law_ram_echoes(
        machine.bus,
        machine.operand(mode),
        machine.a,
        machine.operand(mode),
    );
}

/// The opcodes the machine runs, one by one: eight loads, seven stores, TAX,
/// INX, and the absolute JMP.
pub proof fn law_machine_runs_eighteen_opcodes(opcode: u8)
    ensures
        runs(opcode) == (opcode == 0xA9 || opcode == 0xA5 || opcode == 0xB5 || opcode == 0xAD
            || opcode == 0xBD || opcode == 0xB9 || opcode == 0xA1 || opcode == 0xB1 || opcode
            == 0x85 || opcode == 0x95 || opcode == 0x8D || opcode == 0x9D || opcode == 0x99
            || opcode == 0x81 || opcode == 0x91 || opcode == 0xAA || opcode == 0xE8 || opcode
            == 0x4C),
{
}

/// The two bytes after the program counter, as one number with its little
/// end first.
pub open spec fn program_word(machine: MachineState) -> int {
    machine.sees(machine.pc as int) + 256 * machine.sees((machine.pc + 1) % 0x10000)
}

/// The address in the pointer that waits at a spot of the zero page.
pub open spec fn zero_page_word(machine: MachineState, spot: int) -> int {
    machine.sees(spot) + 256 * machine.sees(spot + 1)
}

/// The address that a load or a store names, its opcode already fetched.
pub open spec fn aim(machine: MachineState, opcode: u8) -> int {
    let low = machine.sees(machine.pc as int) as int;
    let shifted = (low + machine.x) % 256;
    if opcode == 0xA9 {
        machine.pc as int
    } else if opcode == 0xA5 || opcode == 0x85 {
        low
    } else if opcode == 0xB5 || opcode == 0x95 {
        shifted
    } else if opcode == 0xAD || opcode == 0x8D {
        program_word(machine)
    } else if opcode == 0xBD || opcode == 0x9D {
        (program_word(machine) + machine.x) % 0x10000
    } else if opcode == 0xB9 || opcode == 0x99 {
        (program_word(machine) + machine.y) % 0x10000
    } else if opcode == 0xA1 || opcode == 0x81 {
        zero_page_word(machine, shifted)
    } else {
        (zero_page_word(machine, low) + machine.y) % 0x10000
    }
}

/// How many bytes an instruction's operand takes.
pub open spec fn trail(opcode: u8) -> int {
    if opcode == 0xAD || opcode == 0x8D || opcode == 0xBD || opcode == 0x9D || opcode == 0xB9
        || opcode == 0x99 {
        2
    } else {
        1
    }
}

/// What is read on the way to an address lies in memory.
proof fn lemma_aims_agree(machine: MachineState, mode: AddressingMode, opcode: u8)
    requires
        !(0x2000 <= machine.pc < 0x4020),
        !(0x2000 <= (machine.pc + 1) % 0x10000 < 0x4020),
        cpu::load_mode(opcode) == Some(mode) || cpu::store_mode(opcode) == Some(mode),
    ensures
        machine.operand(mode) == aim(machine, opcode),
        machine.after_operand(mode) == (MachineState {
            pc: ((machine.pc + trail(opcode)) % 0x10000) as u16,
            ..machine
        }),
{
    let at = machine.pc as int;
    let x = (machine.sees(at) + machine.x) % 0x100;
    let y = (machine.sees(at) + 0) % 0x100;
    lemma_words_agree(machine, at);
    lemma_words_agree(machine, x);
    lemma_words_agree(machine, y);
    reveal(pointer_answer);
    reveal(after_pointer);
    assert(machine.looked_pointer(machine.x) == machine);
    assert(machine.looked_pointer(0) == machine);
    assert(machine.sees_pointer(machine.x) == zero_page_word(machine, x));
    assert(machine.sees_pointer(0) == zero_page_word(machine, y));
    assert(machine.sees_word(at) == program_word(machine));
}

/// A load takes the byte at the address it names, the flags tell of it, and
/// nothing else of the machine moves but the program counter.
pub proof fn law_machine_loads(machine: MachineState, opcode: u8)
    requires
        !(0x2000 <= machine.pc < 0x4020),
        !(0x2000 <= (machine.pc + 1) % 0x10000 < 0x4020),
        opcode == 0xA9 || opcode == 0xA5 || opcode == 0xB5 || opcode == 0xAD || opcode == 0xBD
            || opcode == 0xB9 || opcode == 0xA1 || opcode == 0xB1,
    ensures
        ({
            let after = machine.executed(opcode);
            &&& after.a == machine.sees(aim(machine, opcode))
            &&& cpu::tells_of(after.status, after.a, machine.status)
            &&& after.pc == (machine.pc + trail(opcode)) % 0x10000
            &&& after.bus == machine.bus.after_read(aim(machine, opcode))
            &&& after.x == machine.x && after.y == machine.y && after.sp == machine.sp
            &&& after.cycles == machine.cycles
        }),
{
    lemma_aims_agree(machine, cpu::load_mode(opcode)->0, opcode);
    reveal(MachineState::executed);
    cpu::law_notes_say_what_they_mean(machine.status, machine.executed(opcode).a);
}

/// A store puts A on the bus at the address it names, and nothing else of
/// the machine moves but the program counter.
pub proof fn law_machine_stores(machine: MachineState, opcode: u8)
    requires
        !(0x2000 <= machine.pc < 0x4020),
        !(0x2000 <= (machine.pc + 1) % 0x10000 < 0x4020),
        opcode == 0x85 || opcode == 0x95 || opcode == 0x8D || opcode == 0x9D || opcode == 0x99
            || opcode == 0x81 || opcode == 0x91,
    ensures
        machine.executed(opcode) == (MachineState {
            pc: ((machine.pc + trail(opcode)) % 0x10000) as u16,
            bus: machine.bus.written(aim(machine, opcode), machine.a),
            ..machine
        }),
{
    lemma_aims_agree(machine, cpu::store_mode(opcode)->0, opcode);
    reveal(MachineState::executed);
}

/// TAX copies A into X, INX counts X on, round the byte, and the flags tell
/// of the X that came out; JMP goes where its two bytes say, and touches no
/// flag.
pub proof fn law_machine_sets_x_and_jumps(machine: MachineState)
    ensures
        ({
            let after = machine.executed(0xAA);
            &&& after == (MachineState { x: machine.a, status: after.status, ..machine })
            &&& cpu::tells_of(after.status, after.x, machine.status)
        }),
        ({
            let after = machine.executed(0xE8);
            &&& after == (MachineState { x: after.x, status: after.status, ..machine })
            &&& after.x == (if machine.x == 255 {
                0
            } else {
                machine.x + 1
            })
            &&& cpu::tells_of(after.status, after.x, machine.status)
        }),
        !(0x2000 <= machine.pc < 0x4020) && !(0x2000 <= (machine.pc + 1) % 0x10000 < 0x4020)
            ==> machine.executed(0x4C) == (MachineState {
            pc: program_word(machine) as u16,
            ..machine
        }),
{
    reveal(MachineState::executed);
    cpu::law_notes_say_what_they_mean(machine.status, machine.executed(0xAA).x);
    cpu::law_notes_say_what_they_mean(machine.status, machine.executed(0xE8).x);
    if !is_register(machine.pc as int) && !is_register(cpu::further(machine.pc as int, 1)) {
        lemma_words_agree(machine, machine.pc as int);
    }
}

/// What every instruction costs, in cycles. An indexed load pays one more
/// where its index carries it out of the page it started from; a store pays
/// for that always.
pub proof fn law_prices(machine: MachineState)
    requires
        !(0x2000 <= machine.pc < 0x4020),
        !(0x2000 <= (machine.pc + 1) % 0x10000 < 0x4020),
    ensures
        machine.price(0xA9) == 2,
        machine.price(0xA5) == 3,
        machine.price(0xB5) == 4,
        machine.price(0xAD) == 4,
        machine.price(0xBD) == (if program_word(machine) % 256 + machine.x >= 256 {
            5int
        } else {
            4
        }),
        machine.price(0xB9) == (if program_word(machine) % 256 + machine.y >= 256 {
            5int
        } else {
            4
        }),
        machine.price(0xA1) == 6,
        machine.price(0xB1) == (if machine.sees(machine.sees(machine.pc as int) as int) + machine.y
            >= 256 {
            6int
        } else {
            5
        }),
        machine.price(0x85) == 3,
        machine.price(0x95) == 4,
        machine.price(0x8D) == 4,
        machine.price(0x9D) == 5,
        machine.price(0x99) == 5,
        machine.price(0x81) == 6,
        machine.price(0x91) == 6,
        machine.price(0xAA) == 2,
        machine.price(0xE8) == 2,
        machine.price(0x4C) == 3,
{
    reveal(MachineState::price);
    reveal(pointer_answer);
    lemma_words_agree(machine, machine.pc as int);
    lemma_words_agree(machine, (machine.sees(machine.pc as int) + 0) % 0x100);
    assert(machine.sees_word(machine.pc as int) == program_word(machine));
    assert(machine.sees_pointer(0) == zero_page_word(
        machine,
        machine.sees(machine.pc as int) as int,
    ));
    lemma_carry_leaves_the_page(program_word(machine), machine.x as int);
    lemma_carry_leaves_the_page(program_word(machine), machine.y as int);
    lemma_carry_leaves_the_page(
        zero_page_word(machine, machine.sees(machine.pc as int) as int),
        machine.y as int,
    );
}

/// An index carries an address out of its page just where the low bytes do
/// not fit one byte together.
proof fn lemma_carry_leaves_the_page(base: int, index: int)
    requires
        0 <= base < 0x10000,
        0 <= index < 256,
    ensures
        ((base + index) % 0x10000 / 256 != base / 256) == (base % 256 + index >= 256),
{
}

/// Time passes in beats of the bus: a cycle is one beat, counted, and it
/// touches no pocket.
pub proof fn law_time_passes_in_beats(machine: MachineState, count: nat)
    requires
        machine.cycles + count < u64::MAX,
    ensures
        machine.spent(0) == machine,
        machine.spent(count + 1).bus == machine.spent(count).bus.beaten(),
        machine.spent(count) == (MachineState {
            cycles: (machine.cycles + count) as u64,
            bus: machine.spent(count).bus,
            ..machine
        }),
    decreases count,
{
    if count > 0 {
        law_time_passes_in_beats(machine, (count - 1) as nat);
    }
}

/// Beats keep what is no chip's own: RAM, the cartridge, the pad, and the
/// books.
proof fn lemma_beats_keep(machine: MachineState, count: nat)
    ensures
        ({
            let after = machine.spent(count).bus;
            &&& after == (BusState {
                apu: after.apu,
                ppu: after.ppu,
                clock: after.clock,
                ..machine.bus
            })
        }),
    decreases count,
{
    if count > 0 {
        lemma_beats_keep(machine, (count - 1) as nat);
        crate::heartbeat::law_cycle_is_three_dots(machine.spent((count - 1) as nat).bus);
    }
}

/// A step is the instruction, its cycles, and the bill: what the books hold,
/// and for a sprite page 513 cycles more, 514 where the instruction ended on
/// an odd cycle. The books are blank afterwards, and memory is as the
/// instruction left it.
pub proof fn law_step_pays_its_price(machine: MachineState)
    requires
        runs(machine.opcode()),
        ({
            let fetched = machine.fetched();
            machine.cycles + fetched.price(machine.opcode()) + fetched.executed(
                machine.opcode(),
            ).bus.dma_stall + 514 < u64::MAX
        }),
    ensures
        ({
            let price = machine.fetched().price(machine.opcode());
            let done = machine.fetched().executed(machine.opcode());
            let after = machine.stepped();
            &&& after.cycles == machine.cycles + price + done.bus.dma_stall + (
            if !done.bus.oam_dma_started {
                0int
            } else if (machine.cycles + price) % 2 == 0 {
                513
            } else {
                514
            })
            &&& after.bus.dma_stall == 0
            &&& !after.bus.oam_dma_started
            &&& after.a == done.a && after.x == done.x && after.y == done.y
            &&& after.pc == done.pc && after.sp == done.sp && after.status == done.status
            &&& after.bus.ram == done.bus.ram
            &&& after.bus.cartridge == done.bus.cartridge
            &&& after.bus.controller == done.bus.controller
        }),
{
    reveal(MachineState::stepped);
    reveal(MachineState::executed);
    let fetched = machine.fetched();
    let price = fetched.price(machine.opcode());
    let done = fetched.executed(machine.opcode());
    assert(price >= 2) by {
        reveal(MachineState::price);
    }
    let count = (price + done.bill(price)) as nat;
    law_time_passes_in_beats(done.settled(), count);
    lemma_beats_keep(done.settled(), count);
}

/// What comes before an instruction: the last one's two notes are struck, and
/// the opcode is the byte at the program counter, which moves past it.
pub proof fn law_fetch_strikes_the_notes(machine: MachineState)
    requires
        !(0x2000 <= machine.pc < 0x4020),
    ensures
        machine.opcode() == machine.sees(machine.pc as int),
        machine.fetched() == (MachineState {
            pc: ((machine.pc + 1) % 0x10000) as u16,
            bus: BusState {
                read_4016_this_instruction: false,
                dmc_fetched_this_instruction: false,
                ..machine.bus
            },
            ..machine
        }),
{
    reveal(BusState::answer);
    reveal(BusState::after_read);
}

/// What the reset button leaves: the three pockets empty, the stack pointer
/// at $FD, interrupts off, the program counter at the address that the top
/// of memory holds, and seven cycles gone by.
pub proof fn law_machine_resets_at_the_vector(machine: MachineState)
    requires
        machine.cycles + 7 < u64::MAX,
    ensures
        ({
            let after = machine.was_reset();
            &&& after.a == 0 && after.x == 0 && after.y == 0
            &&& after.sp == 0xFD && after.status == 0x24
            &&& after.pc == machine.sees(0xFFFC) + 256 * machine.sees(0xFFFD)
            &&& after.cycles == machine.cycles + 7
            &&& after.bus
                == machine.bus.beaten().beaten().beaten().beaten().beaten().beaten().beaten()
        }),
{
    lemma_words_agree(machine, 0xFFFC);
    let start = MachineState {
        a: 0,
        x: 0,
        y: 0,
        sp: 0xFD,
        status: 0b0010_0100,
        pc: machine.sees_word(0xFFFC),
        ..machine
    };
    law_time_passes_in_beats(start, 7);
    reveal_with_fuel(MachineState::spent, 8);
}

/// What a listing may show: the byte that answers, of every address but the
/// registers from $2000 to $401F.
pub proof fn law_listings_skip_the_registers(machine: MachineState, address: int)
    ensures
        0x2000 <= address <= 0x401F ==> machine.peeked(address) is None,
        address < 0x2000 || 0x4020 <= address ==> machine.peeked(address) == Some(
            machine.bus.answer(address),
        ),
{
}

} // verus!
