//! Reading a program without running it: bytes turned back into mnemonics
//! and operands.

use vstd::prelude::*;

use crate::cpu;
use crate::cpu::Cpu;
use crate::machine::{Machine, MachineState};
use crate::text;

verus! {

/// The opcode map, sixteen to the row: the mnemonic of every documented
/// opcode, and an empty text for the others.
pub const MNEMONICS: [&'static str; 256] = [
    "BRK", "ORA", "", "", "", "ORA", "ASL", "", "PHP", "ORA", "ASL", "", "", "ORA", "ASL", "",
    "BPL", "ORA", "", "", "", "ORA", "ASL", "", "CLC", "ORA", "", "", "", "ORA", "ASL", "",
    "JSR", "AND", "", "", "BIT", "AND", "ROL", "", "PLP", "AND", "ROL", "", "BIT", "AND", "ROL", "",
    "BMI", "AND", "", "", "", "AND", "ROL", "", "SEC", "AND", "", "", "", "AND", "ROL", "",
    "RTI", "EOR", "", "", "", "EOR", "LSR", "", "PHA", "EOR", "LSR", "", "JMP", "EOR", "LSR", "",
    "BVC", "EOR", "", "", "", "EOR", "LSR", "", "CLI", "EOR", "", "", "", "EOR", "LSR", "",
    "RTS", "ADC", "", "", "", "ADC", "ROR", "", "PLA", "ADC", "ROR", "", "JMP", "ADC", "ROR", "",
    "BVS", "ADC", "", "", "", "ADC", "ROR", "", "SEI", "ADC", "", "", "", "ADC", "ROR", "",
    "", "STA", "", "", "STY", "STA", "STX", "", "DEY", "", "TXA", "", "STY", "STA", "STX", "",
    "BCC", "STA", "", "", "STY", "STA", "STX", "", "TYA", "STA", "TXS", "", "", "STA", "", "",
    "LDY", "LDA", "LDX", "", "LDY", "LDA", "LDX", "", "TAY", "LDA", "TAX", "", "LDY", "LDA", "LDX", "",
    "BCS", "LDA", "", "", "LDY", "LDA", "LDX", "", "CLV", "LDA", "TSX", "", "LDY", "LDA", "LDX", "",
    "CPY", "CMP", "", "", "CPY", "CMP", "DEC", "", "INY", "CMP", "DEX", "", "CPY", "CMP", "DEC", "",
    "BNE", "CMP", "", "", "", "CMP", "DEC", "", "CLD", "CMP", "", "", "", "CMP", "DEC", "",
    "CPX", "SBC", "", "", "CPX", "SBC", "INC", "", "INX", "SBC", "NOP", "", "CPX", "SBC", "INC", "",
    "BEQ", "SBC", "", "", "", "SBC", "INC", "", "SED", "SBC", "", "", "", "SBC", "INC", "",
];

/// How an instruction spells its operand: the assembler's view of the
/// addressing modes, including the three the executor never needed a name
/// for: no operand at all, the accumulator, and a branch's offset.
#[derive(Clone, Copy, PartialEq, Eq, Debug, Structural)]
pub enum Syntax {
    /// `TAX`: everything is in the opcode.
    Implied,
    /// `LSR A`: the accumulator, named.
    Accumulator,
    /// `LDA #$10`
    Immediate,
    /// `LDA $10`
    ZeroPage,
    /// `LDA $10,X`
    ZeroPageX,
    /// `LDX $10,Y`
    ZeroPageY,
    /// `LDA $1234`
    Absolute,
    /// `LDA $1234,X`
    AbsoluteX,
    /// `LDA $1234,Y`
    AbsoluteY,
    /// `JMP ($1234)`: the one instruction that jumps through a pointer.
    Indirect,
    /// `LDA ($10,X)`
    IndirectX,
    /// `LDA ($10),Y`
    IndirectY,
    /// `BNE $C010`: one signed byte of distance, shown as where it lands.
    Relative,
}

/// Bytes after the opcode.
pub open spec fn operand_len(syntax: Syntax) -> u16 {
    match syntax {
        Syntax::Implied | Syntax::Accumulator => 0,
        Syntax::Absolute | Syntax::AbsoluteX | Syntax::AbsoluteY | Syntax::Indirect => 2,
        _ => 1,
    }
}

/// The spelling of an opcode, by its column in a map of 32 to the row, and
/// by the few that break their column's rule.
pub open spec fn spelling(opcode: u8) -> Syntax {
    let column = opcode % 32;
    let lower = opcode >= 0x80;
    if column == 0x00 {
        if opcode == 0x20 {
            Syntax::Absolute
        } else if lower {
            Syntax::Immediate
        } else {
            Syntax::Implied
        }
    } else if column == 0x02 {
        if lower {
            Syntax::Immediate
        } else {
            Syntax::Implied
        }
    } else if column == 0x01 || column == 0x03 {
        Syntax::IndirectX
    } else if 0x04 <= column <= 0x07 {
        Syntax::ZeroPage
    } else if column == 0x09 || column == 0x0B {
        Syntax::Immediate
    } else if column == 0x0A && !lower {
        Syntax::Accumulator
    } else if 0x0C <= column <= 0x0F {
        if opcode == 0x6C {
            Syntax::Indirect
        } else {
            Syntax::Absolute
        }
    } else if column == 0x10 {
        Syntax::Relative
    } else if column == 0x11 || column == 0x13 {
        Syntax::IndirectY
    } else if 0x14 <= column <= 0x17 {
        // X is busy being the value.
        if opcode == 0x96 || opcode == 0x97 || opcode == 0xB6 || opcode == 0xB7 {
            Syntax::ZeroPageY
        } else {
            Syntax::ZeroPageX
        }
    } else if column == 0x19 || column == 0x1B {
        Syntax::AbsoluteY
    } else if 0x1C <= column {
        if opcode == 0x9E || opcode == 0x9F || opcode == 0xBE || opcode == 0xBF {
            Syntax::AbsoluteY
        } else {
            Syntax::AbsoluteX
        }
    } else {
        Syntax::Implied
    }
}

impl Syntax {
    /// Bytes after the opcode.
    pub fn operand_bytes(self) -> (bytes: u16)
        ensures
            bytes == operand_len(self),
    {
        match self {
            Syntax::Implied => 0,
            Syntax::Accumulator => 0,
            Syntax::Absolute => 2,
            Syntax::AbsoluteX => 2,
            Syntax::AbsoluteY => 2,
            Syntax::Indirect => 2,
            _ => 1,
        }
    }
}

/// The spelling of every one of the 256 opcodes, laid out by mode.
pub fn syntax(opcode: u8) -> (syntax: Syntax)
    ensures
        syntax == spelling(opcode),
{
    match opcode {
        // The shifts and rotates that work on A itself.
        0x0A | 0x2A | 0x4A | 0x6A => Syntax::Accumulator,
        // A value in the program.
        0x09 | 0x29 | 0x49 | 0x69 | 0xA9 | 0xC9 | 0xE9 | 0xA0 | 0xA2 | 0xC0 | 0xE0 | 0x0B
        | 0x2B | 0x4B | 0x6B | 0x80 | 0x82 | 0x89 | 0x8B | 0xAB | 0xC2 | 0xCB | 0xE2 | 0xEB => {
            Syntax::Immediate
        }
        // The zero page.
        0x04 | 0x05 | 0x06 | 0x07 | 0x24 | 0x25 | 0x26 | 0x27 | 0x44 | 0x45 | 0x46 | 0x47
        | 0x64 | 0x65 | 0x66 | 0x67 | 0x84 | 0x85 | 0x86 | 0x87 | 0xA4 | 0xA5 | 0xA6 | 0xA7
        | 0xC4 | 0xC5 | 0xC6 | 0xC7 | 0xE4 | 0xE5 | 0xE6 | 0xE7 => Syntax::ZeroPage,
        // Zero page plus X, except the four that index by Y.
        0x14 | 0x15 | 0x16 | 0x17 | 0x34 | 0x35 | 0x36 | 0x37 | 0x54 | 0x55 | 0x56 | 0x57
        | 0x74 | 0x75 | 0x76 | 0x77 | 0x94 | 0x95 | 0xB4 | 0xB5 | 0xD4 | 0xD5 | 0xD6 | 0xD7
        | 0xF4 | 0xF5 | 0xF6 | 0xF7 => Syntax::ZeroPageX,
        0x96 | 0x97 | 0xB6 | 0xB7 => Syntax::ZeroPageY,
        // Anywhere.
        0x0C | 0x0D | 0x0E | 0x0F | 0x20 | 0x2C | 0x2D | 0x2E | 0x2F | 0x4C | 0x4D | 0x4E
        | 0x4F | 0x6D | 0x6E | 0x6F | 0x8C | 0x8D | 0x8E | 0x8F | 0xAC | 0xAD | 0xAE | 0xAF
        | 0xCC | 0xCD | 0xCE | 0xCF | 0xEC | 0xED | 0xEE | 0xEF => Syntax::Absolute,
        0x6C => Syntax::Indirect,
        // Anywhere plus X, and the handful plus Y.
        0x1C | 0x1D | 0x1E | 0x1F | 0x3C | 0x3D | 0x3E | 0x3F | 0x5C | 0x5D | 0x5E | 0x5F
        | 0x7C | 0x7D | 0x7E | 0x7F | 0x9C | 0x9D | 0xBC | 0xBD | 0xDC | 0xDD | 0xDE | 0xDF
        | 0xFC | 0xFD | 0xFE | 0xFF => Syntax::AbsoluteX,
        0x19 | 0x1B | 0x39 | 0x3B | 0x59 | 0x5B | 0x79 | 0x7B | 0x99 | 0x9B | 0x9E | 0x9F
        | 0xB9 | 0xBB | 0xBE | 0xBF | 0xD9 | 0xDB | 0xF9 | 0xFB => Syntax::AbsoluteY,
        // Through a zero-page pointer.
        0x01 | 0x03 | 0x21 | 0x23 | 0x41 | 0x43 | 0x61 | 0x63 | 0x81 | 0x83 | 0xA1 | 0xA3
        | 0xC1 | 0xC3 | 0xE1 | 0xE3 => Syntax::IndirectX,
        0x11 | 0x13 | 0x31 | 0x33 | 0x51 | 0x53 | 0x71 | 0x73 | 0x91 | 0x93 | 0xB1 | 0xB3
        | 0xD1 | 0xD3 | 0xF1 | 0xF3 => Syntax::IndirectY,
        // The eight branches.
        0x10 | 0x30 | 0x50 | 0x70 | 0x90 | 0xB0 | 0xD0 | 0xF0 => Syntax::Relative,
        // Everything else stands alone: the transfers, the flag
        // instructions, the stack, the returns, the NOPs, and the jams.
        _ => Syntax::Implied,
    }
}

impl Cpu {
    /// A documented opcode's mnemonic, and how many bytes the whole
    /// instruction takes.
    pub fn opcode_name_and_length(opcode: u8) -> (named: Option<(&'static str, u16)>)
        ensures
            match named {
                Some((name, length)) => {
                    &&& name@.len() > 0
                    &&& name@ == MNEMONICS@[opcode as int]@
                    &&& length == operand_len(spelling(opcode)) + 1
                },
                None => MNEMONICS@[opcode as int]@.len() == 0,
            },
    {
        let name = MNEMONICS[opcode as usize];
        if name.is_empty() {
            None
        } else {
            Some((name, syntax(opcode).operand_bytes() + 1))
        }
    }
}

/// Where a branch at `address` lands: its byte is a signed distance from the
/// instruction after it.
pub open spec fn landing(address: int, distance: u8) -> int {
    (address + 2 + (if distance < 128 {
        distance as int
    } else {
        distance - 256
    })) % 0x10000
}

/// An operand's text: what stands before the number, the number in two
/// digits or four, and what stands after it.
pub open spec fn operand_text(syntax: Syntax, low: u8, word: u16, landing: int) -> Seq<char> {
    let byte = text::padded(low as int, 16, 2);
    let whole = text::padded(word as int, 16, 4);
    match syntax {
        Syntax::Implied => Seq::empty(),
        Syntax::Accumulator => "A"@,
        Syntax::Immediate => "#$"@ + byte,
        Syntax::ZeroPage => "$"@ + byte,
        Syntax::ZeroPageX => "$"@ + byte + ",X"@,
        Syntax::ZeroPageY => "$"@ + byte + ",Y"@,
        Syntax::Absolute => "$"@ + whole,
        Syntax::AbsoluteX => "$"@ + whole + ",X"@,
        Syntax::AbsoluteY => "$"@ + whole + ",Y"@,
        Syntax::Indirect => "($"@ + whole + ")"@,
        Syntax::IndirectX => "($"@ + byte + ",X)"@,
        Syntax::IndirectY => "($"@ + byte + "),Y"@,
        Syntax::Relative => "$"@ + text::padded(landing, 16, 4),
    }
}

/// A byte of the program as a listing shows it: zero where it may not look.
pub open spec fn listed_byte(machine: MachineState, address: int) -> u8 {
    match machine.peeked(address) {
        Some(byte) => byte,
        None => 0,
    }
}

/// An instruction as a line of a listing, and how many bytes it takes. Of an
/// opcode without a name a listing says `???`.
#[verifier::opaque]
pub open spec fn line_of(opcode: u8, low: u8, high: u8, address: int) -> (Seq<char>, int) {
    let name = MNEMONICS@[opcode as int]@;
    let spelled = spelling(opcode);
    if name.len() == 0 {
        ("???"@, 1)
    } else if spelled is Implied {
        (name, 1)
    } else {
        (
            name + " "@ + operand_text(spelled, low, cpu::word(low, high), landing(address, low)),
            operand_len(spelled) + 1,
        )
    }
}

/// The instruction at an address as a line of a listing. Where a listing may
/// not look it says `??`.
pub open spec fn listed(machine: MachineState, address: int) -> (Seq<char>, int) {
    match machine.peeked(address) {
        None => ("??"@, 1),
        Some(opcode) => line_of(
            opcode,
            listed_byte(machine, cpu::further(address, 1)),
            listed_byte(machine, cpu::further(address, 2)),
            address,
        ),
    }
}

/// Three texts, one after another.
fn glued(front: &str, middle: &String, back: &str) -> (whole: String)
    ensures
        whole@ == front@ + middle@ + back@,
{
    let mut whole = String::new();
    whole.append(front);
    whole.append(middle.as_str());
    whole.append(back);
    assert(whole@ =~= front@ + middle@ + back@);
    whole
}

/// Two texts, one after another.
fn prefixed(front: &str, back: &String) -> (whole: String)
    ensures
        whole@ == front@ + back@,
{
    let mut whole = String::new();
    whole.append(front);
    whole.append(back.as_str());
    assert(whole@ =~= front@ + back@);
    whole
}

/// An operand as an assembler would write it. The reader of a branch wants
/// the destination, not the trip.
fn spell(syntax: Syntax, low: u8, word: u16, landing: u16) -> (operand: String)
    ensures
        operand@ == operand_text(syntax, low, word, landing as int),
{
    match syntax {
        Syntax::Implied => String::new(),
        Syntax::Accumulator => "A".to_owned(),
        Syntax::Immediate => prefixed("#$", &text::hex_byte(low)),
        Syntax::ZeroPage => prefixed("$", &text::hex_byte(low)),
        Syntax::ZeroPageX => glued("$", &text::hex_byte(low), ",X"),
        Syntax::ZeroPageY => glued("$", &text::hex_byte(low), ",Y"),
        Syntax::Absolute => prefixed("$", &text::hex_word(word)),
        Syntax::AbsoluteX => glued("$", &text::hex_word(word), ",X"),
        Syntax::AbsoluteY => glued("$", &text::hex_word(word), ",Y"),
        Syntax::Indirect => glued("($", &text::hex_word(word), ")"),
        Syntax::IndirectX => glued("($", &text::hex_byte(low), ",X)"),
        Syntax::IndirectY => glued("($", &text::hex_byte(low), "),Y"),
        Syntax::Relative => prefixed("$", &text::hex_word(landing)),
    }
}

/// One line of a listing.
fn write_line(opcode: u8, low: u8, high: u8, address: u16) -> (line: (String, u16))
    ensures
        (line.0@, line.1 as int) == line_of(opcode, low, high, address as int),
{
    proof {
        reveal(line_of);
    }
    let (name, length) = match Cpu::opcode_name_and_length(opcode) {
        Some(named) => named,
        None => return ("???".to_owned(), 1),
    };
    let spelled = syntax(opcode);
    if spelled == Syntax::Implied {
        return (name.to_owned(), length);
    }
    let operand = spell(spelled, low, cpu::join(low, high), branch_target(address, low));
    let mut line = name.to_owned();
    line.append(" ");
    line.append(operand.as_str());
    (line, length)
}

/// Where a branch lands.
fn branch_target(address: u16, distance: u8) -> (target: u16)
    ensures
        target == landing(address as int, distance),
{
    let next = address.wrapping_add(2);
    if distance < 128 {
        next.wrapping_add(distance as u16)
    } else {
        next.wrapping_sub(256 - distance as u16)
    }
}

/// A byte of the program as a listing shows it.
fn list_byte(machine: &Machine, address: u16) -> (byte: u8)
    requires
        machine.bus@.wf(),
    ensures
        byte == listed_byte(machine@, address as int),
{
    match machine.peek(address) {
        Some(byte) => byte,
        None => 0,
    }
}

/// The instruction at `address`, as text, and how many bytes it takes, so
/// the next one can be found. Memory the listing must not touch, like the
/// picture chip's registers, disassembles as `??`.
pub fn disassemble(machine: &Machine, address: u16) -> (line: (String, u16))
    requires
        machine.bus@.wf(),
    ensures
        (line.0@, line.1 as int) == listed(machine@, address as int),
{
    match machine.peek(address) {
        Some(opcode) => {
            let low = list_byte(machine, address.wrapping_add(1));
            let high = list_byte(machine, address.wrapping_add(2));
            write_line(opcode, low, high, address)
        },
        None => ("??".to_owned(), 1),
    }
}

/// A line of a listing takes one, two or three bytes: as many as its
/// opcode's spelling says, so that the next line starts where the next
/// instruction does.
pub proof fn law_lines_have_their_length(machine: MachineState, address: int)
    ensures
        1 <= listed(machine, address).1 <= 3,
        match machine.peeked(address) {
            Some(opcode) => MNEMONICS@[opcode as int]@.len() > 0 ==> listed(machine, address).1
                == operand_len(spelling(opcode)) + 1,
            None => listed(machine, address).1 == 1,
        },
{
    reveal(line_of);
}

/// Every instruction that the processor executes has the length that its
/// spelling says: a load or a store by its addressing mode.
pub proof fn law_spelling_agrees_with_the_executor(opcode: u8)
    ensures
        cpu::load_mode(opcode) is Some ==> operand_len(spelling(opcode)) == cpu::operand_len(
            cpu::load_mode(opcode)->0,
        ),
        cpu::store_mode(opcode) is Some ==> operand_len(spelling(opcode)) == cpu::operand_len(
            cpu::store_mode(opcode)->0,
        ),
{
}

/// The arithmetic opcodes, those that leave 1 by four: each run of 32 is one
/// instruction, in eight modes, but for the store, which has no immediate.
pub proof fn law_names_of_the_arithmetic(opcode: u8)
    requires
        opcode % 4 == 1,
    ensures
        MNEMONICS@[opcode as int]@ == (if opcode == 0x89 {
            ""@
        } else if opcode < 0x20 {
            "ORA"@
        } else if opcode < 0x40 {
            "AND"@
        } else if opcode < 0x60 {
            "EOR"@
        } else if opcode < 0x80 {
            "ADC"@
        } else if opcode < 0xA0 {
            "STA"@
        } else if opcode < 0xC0 {
            "LDA"@
        } else if opcode < 0xE0 {
            "CMP"@
        } else {
            "SBC"@
        }),
{
}

/// The opcodes that leave 2 by four: four shifts and rotates, X's store and
/// load, and the two counters, each in a run of 32; what X and A and the
/// stack pointer tell one another; DEX and NOP; and nothing in the columns
/// that the chip left empty.
pub proof fn law_names_of_the_shifts(opcode: u8)
    requires
        opcode % 4 == 2,
    ensures
        MNEMONICS@[opcode as int]@ == (if opcode == 0xA2 {
            "LDX"@
        } else if opcode == 0x8A {
            "TXA"@
        } else if opcode == 0xAA {
            "TAX"@
        } else if opcode == 0xCA {
            "DEX"@
        } else if opcode == 0xEA {
            "NOP"@
        } else if opcode == 0x9A {
            "TXS"@
        } else if opcode == 0xBA {
            "TSX"@
        } else if opcode % 32 == 0x02 || opcode % 32 == 0x12 || opcode % 32 == 0x1A || opcode == 0x9E {
            ""@
        } else if opcode < 0x20 {
            "ASL"@
        } else if opcode < 0x40 {
            "ROL"@
        } else if opcode < 0x60 {
            "LSR"@
        } else if opcode < 0x80 {
            "ROR"@
        } else if opcode < 0xA0 {
            "STX"@
        } else if opcode < 0xC0 {
            "LDX"@
        } else if opcode < 0xE0 {
            "DEC"@
        } else {
            "INC"@
        }),
{
}

/// The opcodes that leave 0 by four and have a column to themselves: the
/// calls and returns, the stack, the counters, the eight branches, and the
/// flags.
pub proof fn law_names_of_the_rest()
    ensures
        MNEMONICS@[0x00]@ == "BRK"@,
        MNEMONICS@[0x20]@ == "JSR"@,
        MNEMONICS@[0x40]@ == "RTI"@,
        MNEMONICS@[0x60]@ == "RTS"@,
        MNEMONICS@[0x08]@ == "PHP"@,
        MNEMONICS@[0x28]@ == "PLP"@,
        MNEMONICS@[0x48]@ == "PHA"@,
        MNEMONICS@[0x68]@ == "PLA"@,
        MNEMONICS@[0x88]@ == "DEY"@,
        MNEMONICS@[0xA8]@ == "TAY"@,
        MNEMONICS@[0xC8]@ == "INY"@,
        MNEMONICS@[0xE8]@ == "INX"@,
        MNEMONICS@[0x10]@ == "BPL"@,
        MNEMONICS@[0x30]@ == "BMI"@,
        MNEMONICS@[0x50]@ == "BVC"@,
        MNEMONICS@[0x70]@ == "BVS"@,
        MNEMONICS@[0x90]@ == "BCC"@,
        MNEMONICS@[0xB0]@ == "BCS"@,
        MNEMONICS@[0xD0]@ == "BNE"@,
        MNEMONICS@[0xF0]@ == "BEQ"@,
        MNEMONICS@[0x18]@ == "CLC"@,
        MNEMONICS@[0x38]@ == "SEC"@,
        MNEMONICS@[0x58]@ == "CLI"@,
        MNEMONICS@[0x78]@ == "SEI"@,
        MNEMONICS@[0x98]@ == "TYA"@,
        MNEMONICS@[0xB8]@ == "CLV"@,
        MNEMONICS@[0xD8]@ == "CLD"@,
        MNEMONICS@[0xF8]@ == "SED"@,
{
}

/// The other opcodes that leave 0 by four: Y's and X's loads, stores and
/// comparisons, BIT, and the two jumps; the opcodes that leave 3 have no
/// names.
pub proof fn law_names_in_more_modes(opcode: u8)
    ensures
        opcode % 8 == 4 || opcode == 0x80 || opcode == 0xA0 || opcode == 0xC0 || opcode == 0xE0
            ==> MNEMONICS@[opcode as int]@ == (if opcode == 0x24 || opcode == 0x2C {
                "BIT"@
            } else if opcode == 0x4C || opcode == 0x6C {
                "JMP"@
            } else if opcode == 0x84 || opcode == 0x8C || opcode == 0x94 {
                "STY"@
            } else if opcode == 0xA0 || opcode == 0xA4 || opcode == 0xAC || opcode == 0xB4 || opcode == 0xBC {
                "LDY"@
            } else if opcode == 0xC0 || opcode == 0xC4 || opcode == 0xCC {
                "CPY"@
            } else if opcode == 0xE0 || opcode == 0xE4 || opcode == 0xEC {
                "CPX"@
            } else {
                ""@
            }),
        opcode % 4 == 3 ==> MNEMONICS@[opcode as int]@ == ""@,
{
}

/// How the opcodes spell their operands, column by column of a map of 32 to
/// the row: the named ones, and the ones without a name like their
/// neighbors.
pub proof fn law_spellings_by_column(opcode: u8)
    ensures
        ({
            let column = opcode % 32;
            let spelled = spelling(opcode);
            &&& column == 0x01 || column == 0x03 ==> spelled == Syntax::IndirectX
            &&& column == 0x11 || column == 0x13 ==> spelled == Syntax::IndirectY
            &&& column == 0x04 || column == 0x05 || column == 0x06 || column == 0x07 ==> spelled
                == Syntax::ZeroPage
            &&& column == 0x08 || column == 0x18 || column == 0x1A || column == 0x12 ==> spelled
                == Syntax::Implied
            &&& column == 0x09 || column == 0x0B ==> spelled == Syntax::Immediate
            &&& column == 0x02 && opcode >= 0x80 ==> spelled == Syntax::Immediate
            &&& column == 0x02 && opcode < 0x80 ==> spelled == Syntax::Implied
            &&& column == 0x0A && opcode < 0x80 ==> spelled == Syntax::Accumulator
            &&& column == 0x0A && opcode >= 0x80 ==> spelled == Syntax::Implied
            &&& column == 0x0C && opcode != 0x6C ==> spelled == Syntax::Absolute
            &&& opcode == 0x6C ==> spelled == Syntax::Indirect
            &&& column == 0x0D || column == 0x0E || column == 0x0F ==> spelled == Syntax::Absolute
            &&& column == 0x10 ==> spelled == Syntax::Relative
            &&& column == 0x14 || column == 0x15 ==> spelled == Syntax::ZeroPageX
            &&& column == 0x16 || column == 0x17 ==> spelled == (if opcode / 16 == 0x9 || opcode
                / 16 == 0xB {
                Syntax::ZeroPageY
            } else {
                Syntax::ZeroPageX
            })
            &&& column == 0x19 || column == 0x1B ==> spelled == Syntax::AbsoluteY
            &&& column == 0x1C || column == 0x1D ==> spelled == Syntax::AbsoluteX
            &&& column == 0x1E || column == 0x1F ==> spelled == (if opcode / 16 == 0x9 || opcode
                / 16 == 0xB {
                Syntax::AbsoluteY
            } else {
                Syntax::AbsoluteX
            })
            &&& opcode == 0x00 || opcode == 0x40 || opcode == 0x60 ==> spelled == Syntax::Implied
            &&& opcode == 0x20 ==> spelled == Syntax::Absolute
            &&& opcode == 0x80 || opcode == 0xA0 || opcode == 0xC0 || opcode == 0xE0 ==> spelled
                == Syntax::Immediate
        }),
{
}

/// How long the spellings are, in bytes after the opcode.
pub proof fn law_spellings_have_their_length(syntax: Syntax)
    ensures
        syntax is Implied || syntax is Accumulator ==> operand_len(syntax) == 0,
        syntax is Absolute || syntax is AbsoluteX || syntax is AbsoluteY || syntax is Indirect
            ==> operand_len(syntax) == 2,
        syntax is Immediate || syntax is ZeroPage || syntax is ZeroPageX || syntax is ZeroPageY
            || syntax is IndirectX || syntax is IndirectY || syntax is Relative ==> operand_len(
            syntax,
        ) == 1,
{
}

/// What a listing says of a named instruction: its name, and behind a space
/// its operand, a byte in two hexadecimal digits, an address in four, each
/// between the marks of its mode. A branch shows where it lands, the byte
/// after its two and the signed distance from there.
pub proof fn law_lines_spell_their_operands(opcode: u8, low: u8, high: u8, address: int)
    requires
        0 <= address < 0x10000,
        MNEMONICS@[opcode as int]@.len() > 0,
    ensures
        ({
            let name = MNEMONICS@[opcode as int]@;
            let byte = text::padded(low as int, 16, 2);
            let word = text::padded(low + 256 * high, 16, 4);
            let distance = if low < 128 {
                low as int
            } else {
                low - 256
            };
            let target = text::padded((address + 2 + distance) % 0x10000, 16, 4);
            let line = line_of(opcode, low, high, address).0;
            match spelling(opcode) {
                Syntax::Implied => line == name,
                Syntax::Accumulator => line == name + seq![' ', 'A'],
                Syntax::Immediate => line == name + seq![' ', '#', '$'] + byte,
                Syntax::ZeroPage => line == name + seq![' ', '$'] + byte,
                Syntax::ZeroPageX => line == name + seq![' ', '$'] + byte + seq![',', 'X'],
                Syntax::ZeroPageY => line == name + seq![' ', '$'] + byte + seq![',', 'Y'],
                Syntax::Absolute => line == name + seq![' ', '$'] + word,
                Syntax::AbsoluteX => line == name + seq![' ', '$'] + word + seq![',', 'X'],
                Syntax::AbsoluteY => line == name + seq![' ', '$'] + word + seq![',', 'Y'],
                Syntax::Indirect => line == name + seq![' ', '(', '$'] + word + seq![')'],
                Syntax::IndirectX => line == name + seq![' ', '(', '$'] + byte + seq![
                    ',',
                    'X',
                    ')',
                ],
                Syntax::IndirectY => line == name + seq![' ', '(', '$'] + byte + seq![
                    ')',
                    ',',
                    'Y',
                ],
                Syntax::Relative => line == name + seq![' ', '$'] + target,
            }
        }),
{
    reveal(line_of);
    reveal_strlit(" ");
    reveal_strlit("A");
    reveal_strlit("$");
    reveal_strlit("#$");
    reveal_strlit("($");
    reveal_strlit(",X");
    reveal_strlit(",Y");
    reveal_strlit(")");
    reveal_strlit(",X)");
    reveal_strlit("),Y");
}

/// What a listing says of the rest: three question marks for an opcode that
/// has no name, and two where it may not look. The operand's bytes are the
/// two after the opcode, zero where it may not look.
pub proof fn law_lines_of_the_unknown(machine: MachineState, address: int)
    ensures
        machine.peeked(address) is None ==> listed(machine, address) == (seq!['?', '?'], 1int),
        machine.peeked(address) is Some && MNEMONICS@[machine.peeked(address)->0 as int]@.len() == 0
            ==> listed(machine, address) == (seq!['?', '?', '?'], 1int),
        machine.peeked(address) is Some ==> listed(machine, address) == line_of(
            machine.peeked(address)->0,
            match machine.peeked((address + 1) % 0x10000) {
                Some(byte) => byte,
                None => 0,
            },
            match machine.peeked((address + 2) % 0x10000) {
                Some(byte) => byte,
                None => 0,
            },
            address,
        ),
{
    reveal(line_of);
    reveal_strlit("??");
    reveal_strlit("???");
    assert("??"@ =~= seq!['?', '?']);
    assert("???"@ =~= seq!['?', '?', '?']);
}

} // verus!
