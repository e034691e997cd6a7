//! The processor, with 64 KiB of plain memory around it.

use vstd::prelude::*;

verus! {

/// The processor: a handful of small pockets and the memory it reads and
/// writes.
pub struct Cpu {
    /// A, the accumulator.
    pub a: u8,
    /// X, an index register.
    pub x: u8,
    /// Y, the other index register.
    pub y: u8,
    /// The program counter: the address of the next instruction.
    pub pc: u16,
    /// The stack pointer: where in page one the next push lands.
    pub sp: u8,
    /// The status byte: eight yes/no flags packed into one byte.
    pub status: u8,
    /// Every address from $0000 to $FFFF.
    pub memory: [u8; 65536],
}

/// The Zero flag: on when the last value the processor handled was zero.
pub const FLAG_ZERO: u8 = 0b0000_0010;

/// The Negative flag: a copy of the top bit of the last value the processor
/// handled.
pub const FLAG_NEGATIVE: u8 = 0b1000_0000;

/// The ways an instruction can say where its value lives.
#[derive(Clone, Copy, PartialEq, Eq, Structural)]
pub enum AddressingMode {
    /// The value sits right after the opcode, in the program itself.
    Immediate,
    /// One byte names an address in the first 256, the zero page.
    ZeroPage,
    /// Zero page, then add X.
    ZeroPageX,
    /// A full two-byte address.
    Absolute,
    /// Absolute, then add X.
    AbsoluteX,
    /// Absolute, then add Y.
    AbsoluteY,
    /// ($xx,X): add X to a zero-page spot; a pointer waits there.
    IndirectX,
    /// ($xx),Y: a pointer waits at a zero-page spot; add Y afterwards.
    IndirectY,
}

/// A [`Cpu`] as a mathematical value.
#[verifier::ext_equal]
pub ghost struct CpuState {
    pub a: u8,
    pub x: u8,
    pub y: u8,
    pub pc: u16,
    pub sp: u8,
    pub status: u8,
    pub memory: Seq<u8>,
}

impl View for Cpu {
    type V = CpuState;

    open spec fn view(&self) -> CpuState {
        CpuState {
            a: self.a,
            x: self.x,
            y: self.y,
            pc: self.pc,
            sp: self.sp,
            status: self.status,
            memory: self.memory@,
        }
    }
}

/// A status byte that has taken note of a value: zero or not, top bit or
/// not, the other six flags as they were.
pub open spec fn noted(status: u8, value: u8) -> u8 {
    (status & 0b0111_1101) | (if value == 0 {
        FLAG_ZERO
    } else {
        0
    }) | (if value >= 128 {
        FLAG_NEGATIVE
    } else {
        0
    })
}

/// A two-byte number, little end first.
pub open spec fn word(low: u8, high: u8) -> u16 {
    (low + high * 256) as u16
}

/// An address so many bytes further, round the 64 KiB.
pub open spec fn further(address: int, bytes: int) -> int {
    (address + bytes) % 0x10000
}

/// How many bytes of the program an addressing mode uses up.
pub open spec fn operand_len(mode: AddressingMode) -> int {
    match mode {
        AddressingMode::Absolute | AddressingMode::AbsoluteX | AddressingMode::AbsoluteY => 2,
        _ => 1,
    }
}

/// The mode of the load that an opcode is, if it is one.
pub open spec fn load_mode(opcode: u8) -> Option<AddressingMode> {
    match opcode {
        0xA9 => Some(AddressingMode::Immediate),
        0xA5 => Some(AddressingMode::ZeroPage),
        0xB5 => Some(AddressingMode::ZeroPageX),
        0xAD => Some(AddressingMode::Absolute),
        0xBD => Some(AddressingMode::AbsoluteX),
        0xB9 => Some(AddressingMode::AbsoluteY),
        0xA1 => Some(AddressingMode::IndirectX),
        0xB1 => Some(AddressingMode::IndirectY),
        _ => None,
    }
}

/// The mode of the store that an opcode is, if it is one.
pub open spec fn store_mode(opcode: u8) -> Option<AddressingMode> {
    match opcode {
        0x85 => Some(AddressingMode::ZeroPage),
        0x95 => Some(AddressingMode::ZeroPageX),
        0x8D => Some(AddressingMode::Absolute),
        0x9D => Some(AddressingMode::AbsoluteX),
        0x99 => Some(AddressingMode::AbsoluteY),
        0x81 => Some(AddressingMode::IndirectX),
        0x91 => Some(AddressingMode::IndirectY),
        _ => None,
    }
}

/// The opcodes the processor knows: the loads, the stores, TAX, INX, and
/// BRK, the stop sign.
pub open spec fn known(opcode: u8) -> bool {
    load_mode(opcode) is Some || store_mode(opcode) is Some || opcode == 0xAA || opcode == 0xE8
        || opcode == 0x00
}

/// Switching the two flags on and off one at a time comes to the same.
proof fn lemma_notes(status: u8, value: u8)
    by (bit_vector)
    ensures
        ({
            let first = if value == 0 {
                status | FLAG_ZERO
            } else {
                status & !FLAG_ZERO
            };
            if value >= 128 {
                first | FLAG_NEGATIVE == noted(status, value)
            } else {
                first & !FLAG_NEGATIVE == noted(status, value)
            }
        }),
{
}

/// Take note of a value in a status byte: two flags about it, the others
/// untouched.
pub fn note(status: u8, value: u8) -> (updated: u8)
    ensures
        updated == noted(status, value),
{
    proof {
        lemma_notes(status, value);
    }
    let first = if value == 0 {
        status | FLAG_ZERO
    } else {
        status & !FLAG_ZERO
    };
    if value >= 128 {
        first | FLAG_NEGATIVE
    } else {
        first & !FLAG_NEGATIVE
    }
}

/// Glue two bytes into an address, little end first.
pub fn join(low: u8, high: u8) -> (joined: u16)
    ensures
        joined == word(low, high),
{
    low as u16 + high as u16 * 256
}

/// The mode of the load that an opcode is, if it is one.
pub fn decode_load(opcode: u8) -> (mode: Option<AddressingMode>)
    ensures
        mode == load_mode(opcode),
{
    match opcode {
        0xA9 => Some(AddressingMode::Immediate),
        0xA5 => Some(AddressingMode::ZeroPage),
        0xB5 => Some(AddressingMode::ZeroPageX),
        0xAD => Some(AddressingMode::Absolute),
        0xBD => Some(AddressingMode::AbsoluteX),
        0xB9 => Some(AddressingMode::AbsoluteY),
        0xA1 => Some(AddressingMode::IndirectX),
        0xB1 => Some(AddressingMode::IndirectY),
        _ => None,
    }
}

/// The mode of the store that an opcode is, if it is one.
pub fn decode_store(opcode: u8) -> (mode: Option<AddressingMode>)
    ensures
        mode == store_mode(opcode),
{
    match opcode {
        0x85 => Some(AddressingMode::ZeroPage),
        0x95 => Some(AddressingMode::ZeroPageX),
        0x8D => Some(AddressingMode::Absolute),
        0x9D => Some(AddressingMode::AbsoluteX),
        0x99 => Some(AddressingMode::AbsoluteY),
        0x81 => Some(AddressingMode::IndirectX),
        0x91 => Some(AddressingMode::IndirectY),
        _ => None,
    }
}

impl CpuState {
    /// All 64 KiB are there.
    pub open spec fn wf(self) -> bool {
        self.memory.len() == 0x10000
    }

    /// A byte stored at an address.
    pub open spec fn written(self, address: int, value: u8) -> CpuState {
        CpuState { memory: self.memory.update(address, value), ..self }
    }

    /// The two-byte number at an address.
    pub open spec fn word_at(self, address: int) -> u16 {
        word(self.memory[address], self.memory[further(address, 1)])
    }

    /// Where an instruction's value lives, its operand bytes starting at
    /// `at`.
    pub open spec fn operand(self, mode: AddressingMode, at: int) -> int {
        let byte = self.memory[at];
        match mode {
            AddressingMode::Immediate => at,
            AddressingMode::ZeroPage => byte as int,
            AddressingMode::ZeroPageX => (byte + self.x) % 0x100,
            AddressingMode::Absolute => self.word_at(at) as int,
            AddressingMode::AbsoluteX => further(self.word_at(at) as int, self.x as int),
            AddressingMode::AbsoluteY => further(self.word_at(at) as int, self.y as int),
            AddressingMode::IndirectX => self.word_at((byte + self.x) % 0x100) as int,
            AddressingMode::IndirectY => further(self.word_at(byte as int) as int, self.y as int),
        }
    }

    /// The program counter moved so many bytes on.
    pub open spec fn moved(self, bytes: int) -> CpuState {
        CpuState { pc: further(self.pc as int, bytes) as u16, ..self }
    }

    /// A load: the byte goes into A, and the flags take note.
    pub open spec fn loaded(self, mode: AddressingMode) -> CpuState {
        let value = self.memory[self.operand(mode, self.pc as int)];
        CpuState {
            a: value,
            status: noted(self.status, value),
            ..self.moved(operand_len(mode))
        }
    }

    /// A store: A goes into memory, and no flag moves.
    pub open spec fn stored(self, mode: AddressingMode) -> CpuState {
        self.written(self.operand(mode, self.pc as int), self.a).moved(operand_len(mode))
    }

    /// X set to a value, and the flags take note.
    pub open spec fn with_x(self, value: u8) -> CpuState {
        CpuState { x: value, status: noted(self.status, value), ..self }
    }

    /// The opcode the program counter points at.
    pub open spec fn opcode(self) -> u8 {
        self.memory[self.pc as int]
    }

    /// One instruction, of those the processor knows.
    pub open spec fn stepped(self) -> CpuState {
        let opcode = self.opcode();
        let fetched = self.moved(1);
        if load_mode(opcode) is Some {
            fetched.loaded(load_mode(opcode)->0)
        } else if store_mode(opcode) is Some {
            fetched.stored(store_mode(opcode)->0)
        } else if opcode == 0xAA {
            fetched.with_x(self.a)
        } else if opcode == 0xE8 {
            fetched.with_x(((self.x + 1) % 0x100) as u8)
        } else {
            fetched
        }
    }

    /// The reset button: the pockets as the chip's reset leaves them, and
    /// the program counter from the vector at $FFFC.
    pub open spec fn was_reset(self) -> CpuState {
        CpuState {
            a: 0,
            x: 0,
            y: 0,
            sp: 0xFD,
            status: 0b0010_0100,
            pc: self.word_at(0xFFFC),
            ..self
        }
    }
}

impl Cpu {
    /// A brand-new processor: every pocket empty, every byte of memory zero.
    pub fn new() -> (cpu: Cpu)
        ensures
            cpu@ == (CpuState {
                a: 0,
                x: 0,
                y: 0,
                pc: 0,
                sp: 0,
                status: 0,
                memory: Seq::new(0x10000, |i: int| 0u8),
            }),
            cpu@.wf(),
    {
        Cpu { a: 0, x: 0, y: 0, pc: 0, sp: 0, status: 0, memory: [0; 65536] }
    }

    /// Read the byte stored at an address.
    pub fn read(&self, address: u16) -> (value: u8)
        ensures
            value == self@.memory[address as int],
    {
        self.memory[address as usize]
    }

    /// Store a byte at an address.
    pub fn write(&mut self, address: u16, value: u8)
        ensures
            final(self)@ == old(self)@.written(address as int, value),
            final(self)@.wf(),
    {
        self.memory[address as usize] = value;
    }

    /// Read a two-byte number, little end first.
    pub fn read_word(&self, address: u16) -> (value: u16)
        ensures
            value == self@.word_at(address as int),
    {
        let low = self.read(address);
        let high = self.read(address.wrapping_add(1));
        join(low, high)
    }

    /// Press the reset button.
    pub fn reset(&mut self)
        ensures
            final(self)@ == old(self)@.was_reset(),
            final(self)@.wf(),
    {
        self.a = 0;
        self.x = 0;
        self.y = 0;
        self.sp = 0xFD;
        self.status = 0b0010_0100;
        self.pc = self.read_word(0xFFFC);
    }

    /// Where does this instruction's value live? Every addressing mode
    /// answers differently. Moves the program counter past whatever bytes
    /// the mode used up.
    pub fn operand_address(&mut self, mode: AddressingMode) -> (address: u16)
        ensures
            address == old(self)@.operand(mode, old(self).pc as int),
            final(self)@ == old(self)@.moved(operand_len(mode)),
            final(self)@.wf(),
    {
        match mode {
            AddressingMode::Immediate => {
                let address = self.pc;
                self.pc = self.pc.wrapping_add(1);
                address
            },
            AddressingMode::ZeroPage => {
                let address = self.read(self.pc) as u16;
                self.pc = self.pc.wrapping_add(1);
                address
            },
            // The sum wraps within the page: $FF + 2 lands on $01, never on
            // $101.
            AddressingMode::ZeroPageX => {
                let base = self.read(self.pc);
                self.pc = self.pc.wrapping_add(1);
                base.wrapping_add(self.x) as u16
            },
            AddressingMode::Absolute => {
                let address = self.read_word(self.pc);
                self.pc = self.pc.wrapping_add(2);
                address
            },
            AddressingMode::AbsoluteX => {
                let base = self.read_word(self.pc);
                self.pc = self.pc.wrapping_add(2);
                base.wrapping_add(self.x as u16)
            },
            AddressingMode::AbsoluteY => {
                let base = self.read_word(self.pc);
                self.pc = self.pc.wrapping_add(2);
                base.wrapping_add(self.y as u16)
            },
            // Add X to the zero-page spot, then follow the pointer there.
            AddressingMode::IndirectX => {
                let base = self.read(self.pc);
                self.pc = self.pc.wrapping_add(1);
                let pointer = base.wrapping_add(self.x) as u16;
                self.read_word(pointer)
            },
            // Follow the pointer at the zero-page spot, then add Y.
            AddressingMode::IndirectY => {
                let base = self.read(self.pc) as u16;
                self.pc = self.pc.wrapping_add(1);
                self.read_word(base).wrapping_add(self.y as u16)
            },
        }
    }

    /// Run one instruction: fetch it, decode it, execute it. Returns `false`
    /// when the program says stop, `true` otherwise.
    pub fn step(&mut self) -> (goes_on: bool)
        requires
            known(old(self)@.opcode()),
        ensures
            goes_on == (old(self)@.opcode() != 0x00),
            final(self)@ == old(self)@.stepped(),
            final(self)@.wf(),
    {
        let opcode = self.read(self.pc);
        self.pc = self.pc.wrapping_add(1);
        // LDA, in every flavor; STA in the same, minus immediate.
        if let Some(mode) = decode_load(opcode) {
            self.lda(mode);
            return true;
        }
        if let Some(mode) = decode_store(opcode) {
            self.sta(mode);
            return true;
        }
        match opcode {
            // TAX: X gets a copy of A.
            0xAA => {
                self.x = self.a;
                self.update_zero_and_negative(self.x);
                true
            },
            // INX: add one, round the byte.
            0xE8 => {
                self.x = self.x.wrapping_add(1);
                self.update_zero_and_negative(self.x);
                true
            },
            // BRK: the stop sign.
            _ => false,
        }
    }

    /// LDA, any flavor: find the value, load it into A, take notes.
    pub fn lda(&mut self, mode: AddressingMode)
        ensures
            final(self)@ == old(self)@.loaded(mode),
            final(self)@.wf(),
    {
        let address = self.operand_address(mode);
        self.a = self.read(address);
        self.update_zero_and_negative(self.a);
    }

    /// STA, any flavor: find the address, store A there. No flags.
    pub fn sta(&mut self, mode: AddressingMode)
        ensures
            final(self)@ == old(self)@.stored(mode),
            final(self)@.wf(),
    {
        let address = self.operand_address(mode);
        self.write(address, self.a);
    }

    /// Almost every instruction ends the same way: two flags about the value
    /// it just produced.
    pub fn update_zero_and_negative(&mut self, value: u8)
        ensures
            final(self)@ == (CpuState { status: noted(old(self).status, value), ..old(self)@ }),
            final(self)@.wf(),
    {
        self.status = note(self.status, value);
    }
}

/// What a note says: the Zero flag is on exactly for zero, the Negative flag
/// exactly for values with their top bit set, and no other flag moves.
pub proof fn law_notes_say_what_they_mean(status: u8, value: u8)
    by (bit_vector)
    ensures
        (noted(status, value) & FLAG_ZERO != 0) == (value == 0),
        (noted(status, value) & FLAG_NEGATIVE != 0) == (value >= 128),
        noted(status, value) & 0b0111_1101 == status & 0b0111_1101,
{
}

/// What you write is what you read, and nothing else changes.
pub proof fn law_write_then_read(state: CpuState, address: int, value: u8, other: int)
    requires
        state.wf(),
        0 <= address < 0x10000,
        0 <= other < 0x10000,
    ensures
        state.written(address, value).memory[other] == (if other == address {
            value
        } else {
            state.memory[other]
        }),
        state.written(address, value) == (CpuState {
            memory: state.written(address, value).memory,
            ..state
        }),
{
}

/// Words are stored little end first: a number written as two bytes, the
/// little one first, reads back whole.
pub proof fn law_words_are_little_endian(state: CpuState, address: int, value: u16)
    requires
        state.wf(),
        0 <= address < 0x10000,
    ensures
        state.written(address, (value % 0x100) as u8).written(
            further(address, 1),
            (value / 0x100) as u8,
        ).word_at(address) == value,
{
}

/// The zero page stays the zero page: X never carries an address out of the
/// first 256.
pub proof fn law_zero_page_wraps(state: CpuState, at: int)
    ensures
        0 <= state.operand(AddressingMode::ZeroPageX, at) < 0x100,
        0 <= state.operand(AddressingMode::ZeroPage, at) < 0x100,
{
}

/// Loading leaves memory alone, and storing leaves every pocket and every
/// flag alone but the program counter, and all of memory but one byte.
pub proof fn law_loads_and_stores_keep_to_themselves(state: CpuState, mode: AddressingMode, other: int)
    requires
        state.wf(),
        0 <= other < 0x10000,
    ensures
        state.loaded(mode).memory == state.memory,
        state.loaded(mode).x == state.x && state.loaded(mode).y == state.y,
        state.stored(mode).a == state.a && state.stored(mode).x == state.x && state.stored(mode).y == state.y,
        state.stored(mode).status == state.status,
        other != state.operand(mode, state.pc as int) ==> state.stored(mode).memory[other] == state.memory[other],
{
}

/// What a store writes, a load of the same mode reads back, if the store did
/// not overwrite what names the address.
pub proof fn law_load_reads_what_store_wrote(before: CpuState, after: CpuState, mode: AddressingMode)
    requires
        before.wf(),
        after.memory == before.stored(mode).memory,
        after.operand(mode, after.pc as int) == before.operand(mode, before.pc as int),
    ensures
        after.loaded(mode).a == before.a,
{
}

/// The reset button sets every pocket, whatever they held.
pub proof fn law_reset_forgets_the_pockets(one: CpuState, other: CpuState)
    requires
        one.memory == other.memory,
    ensures
        one.was_reset() == other.was_reset(),
{
}

/// Whether a status byte says of a value what the two flags are for, Zero in
/// bit 1 and Negative in bit 7, and of everything else what another says.
pub open spec fn tells_of(status: u8, value: u8, before: u8) -> bool {
    &&& (status & 0b0000_0010 != 0) == (value == 0)
    &&& (status & 0b1000_0000 != 0) == (value >= 128)
    &&& status & 0b0111_1101 == before & 0b0111_1101
}

/// TAX and INX: X becomes a copy of A, or one more than it was, round the
/// byte; the flags tell of the X that came out; the program counter moves
/// past the one byte; and nothing else changes.
pub proof fn law_tax_and_inx_set_x(state: CpuState)
    requires
        state.wf(),
        state.memory[state.pc as int] == 0xAA || state.memory[state.pc as int] == 0xE8,
    ensures
        ({
            let after = state.stepped();
            &&& state.memory[state.pc as int] == 0xAA ==> after.x == state.a
            &&& state.memory[state.pc as int] == 0xE8 ==> after.x == if state.x == 255 {
                0
            } else {
                state.x + 1
            }
            &&& tells_of(after.status, after.x, state.status)
            &&& after.pc == (state.pc + 1) % 0x10000
            &&& after.a == state.a && after.y == state.y && after.sp == state.sp
            &&& after.memory == state.memory
        }),
{
    law_notes_say_what_they_mean(state.status, state.stepped().x);
}

/// Where an instruction's value lives, of every mode, in the bytes of memory
/// themselves: `at` is the operand's place, and a word has its little end
/// first.
pub proof fn law_addressing_modes(state: CpuState, at: int)
    requires
        state.wf(),
        0 <= at < 0x10000,
    ensures
        ({
            let low = state.memory[at] as int;
            let word = low + 256 * state.memory[(at + 1) % 0x10000];
            let shifted = (low + state.x) % 256;
            &&& state.operand(AddressingMode::Immediate, at) == at
            &&& state.operand(AddressingMode::ZeroPage, at) == low
            &&& state.operand(AddressingMode::ZeroPageX, at) == shifted
            &&& state.operand(AddressingMode::Absolute, at) == word
            &&& state.operand(AddressingMode::AbsoluteX, at) == (word + state.x) % 0x10000
            &&& state.operand(AddressingMode::AbsoluteY, at) == (word + state.y) % 0x10000
            &&& state.operand(AddressingMode::IndirectX, at) == state.memory[shifted] + 256
                * state.memory[shifted + 1]
            &&& state.operand(AddressingMode::IndirectY, at) == (state.memory[low] + 256 * state.memory[low + 1]
                + state.y) % 0x10000
            &&& forall|mode: AddressingMode| #[trigger]
                operand_len(mode) == (if mode == AddressingMode::Absolute || mode == AddressingMode::AbsoluteX || mode
                    == AddressingMode::AbsoluteY {
                    2int
                } else {
                    1
                })
        }),
{
}

/// The eight loads, byte by byte of the program: each puts the byte it names
/// into A, the flags tell of it, the program counter moves past the
/// instruction, and nothing else changes.
#[verifier::spinoff_prover]
pub proof fn law_loads_fill_a(state: CpuState)
    requires
        state.wf(),
        load_mode(state.memory[state.pc as int]) is Some,
    ensures
        ({
            let opcode = state.memory[state.pc as int];
            let memory = state.memory;
            let low = memory[(state.pc + 1) % 0x10000] as int;
            let word = low + 256 * memory[(state.pc + 2) % 0x10000];
            let shifted = (low + state.x) % 256;
            let after = state.stepped();
            &&& opcode == 0xA9 ==> after.a == low
            &&& opcode == 0xA5 ==> after.a == memory[low]
            &&& opcode == 0xB5 ==> after.a == memory[shifted]
            &&& opcode == 0xAD ==> after.a == memory[word]
            &&& opcode == 0xBD ==> after.a == memory[(word + state.x) % 0x10000]
            &&& opcode == 0xB9 ==> after.a == memory[(word + state.y) % 0x10000]
            &&& opcode == 0xA1 ==> after.a == memory[memory[shifted] + 256 * memory[shifted + 1]]
            &&& opcode == 0xB1 ==> after.a == memory[(memory[low] + 256 * memory[low + 1] + state.y) % 0x10000]
            &&& tells_of(after.status, after.a, state.status)
            &&& after.pc == (state.pc + (if opcode == 0xAD || opcode == 0xBD || opcode == 0xB9 {
                3int
            } else {
                2
            })) % 0x10000
            &&& after.x == state.x && after.y == state.y && after.sp == state.sp
            &&& after.memory == state.memory
        }),
{
    law_addressing_modes(state.moved(1), state.moved(1).pc as int);
    law_notes_say_what_they_mean(state.status, state.stepped().a);
}

/// The seven stores, byte by byte of the program: each puts A at the address
/// it names and nowhere else, the program counter moves past the
/// instruction, and no pocket and no flag changes.
#[verifier::spinoff_prover]
pub proof fn law_stores_put_a(state: CpuState)
    requires
        state.wf(),
        store_mode(state.memory[state.pc as int]) is Some,
    ensures
        ({
            let opcode = state.memory[state.pc as int];
            let memory = state.memory;
            let low = memory[(state.pc + 1) % 0x10000] as int;
            let word = low + 256 * memory[(state.pc + 2) % 0x10000];
            let shifted = (low + state.x) % 256;
            let after = state.stepped();
            &&& opcode == 0x85 ==> after.memory == memory.update(low, state.a)
            &&& opcode == 0x95 ==> after.memory == memory.update(shifted, state.a)
            &&& opcode == 0x8D ==> after.memory == memory.update(word, state.a)
            &&& opcode == 0x9D ==> after.memory == memory.update((word + state.x) % 0x10000, state.a)
            &&& opcode == 0x99 ==> after.memory == memory.update((word + state.y) % 0x10000, state.a)
            &&& opcode == 0x81 ==> after.memory == memory.update(
                memory[shifted] + 256 * memory[shifted + 1],
                state.a,
            )
            &&& opcode == 0x91 ==> after.memory == memory.update(
                (memory[low] + 256 * memory[low + 1] + state.y) % 0x10000,
                state.a,
            )
            &&& after.pc == (state.pc + (if opcode == 0x8D || opcode == 0x9D || opcode == 0x99 {
                3int
            } else {
                2
            })) % 0x10000
            &&& after.a == state.a && after.x == state.x && after.y == state.y && after.sp == state.sp
            &&& after.status == state.status
        }),
{
    let fetched = state.moved(1);
    let mode = store_mode(state.memory[state.pc as int])->0;
    law_addressing_modes(fetched, fetched.pc as int);
    lemma_store_lands(fetched, mode);
    assert(state.stepped() == fetched.stored(mode));
}

/// A store puts A where its mode says, and moves the program counter past
/// its operand.
proof fn lemma_store_lands(state: CpuState, mode: AddressingMode)
    ensures
        state.stored(mode).memory == state.memory.update(
            state.operand(mode, state.pc as int),
            state.a,
        ),
        state.stored(mode).pc == (state.pc + operand_len(mode)) % 0x10000,
        state.stored(mode) == (CpuState {
            memory: state.stored(mode).memory,
            pc: state.stored(mode).pc,
            ..state
        }),
{
}

/// Which opcodes the processor knows, and which it takes for loads and
/// stores: the eight and the seven, TAX, INX and BRK, and no others.
pub proof fn law_opcodes_known(opcode: u8)
    ensures
        (load_mode(opcode) is Some) == (opcode == 0xA9 || opcode == 0xA5 || opcode == 0xB5 || opcode == 0xAD || opcode
            == 0xBD || opcode == 0xB9 || opcode == 0xA1 || opcode == 0xB1),
        (store_mode(opcode) is Some) == (opcode == 0x85 || opcode == 0x95 || opcode == 0x8D || opcode == 0x9D || opcode
            == 0x99 || opcode == 0x81 || opcode == 0x91),
        known(opcode) == (load_mode(opcode) is Some || store_mode(opcode) is Some || opcode == 0xAA || opcode == 0xE8
            || opcode == 0x00),
{
}

/// BRK moves the program counter past itself and changes nothing else.
pub proof fn law_brk_changes_nothing(state: CpuState)
    requires
        state.wf(),
        state.memory[state.pc as int] == 0x00,
    ensures
        state.stepped() == (CpuState { pc: ((state.pc + 1) % 0x10000) as u16, ..state }),
{
}

/// What the reset button leaves: the three pockets empty, the stack pointer
/// at $FD, interrupts off, and the program counter at the address that the
/// top of memory holds, little end first.
pub proof fn law_reset_starts_at_the_vector(state: CpuState)
    requires
        state.wf(),
    ensures
        ({
            let after = state.was_reset();
            &&& after.pc == state.memory[0xFFFC] + 256 * state.memory[0xFFFD]
            &&& after.a == 0 && after.x == 0 && after.y == 0
            &&& after.sp == 0xFD && after.status == 0x24
            &&& after.memory == state.memory
        }),
{
}

} // verus!
