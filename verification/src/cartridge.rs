//! The cartridge: the game itself, and the board that decides which of its
//! bytes the machine sees.

use vstd::prelude::*;
use vstd::slice::{slice_subrange, slice_to_vec};

use crate::album::Album;

verus! {

/// The four ways a board can wire the picture chip's two rooms of name RAM
/// over the four addressable names.
#[derive(Clone, Copy, PartialEq, Eq, Structural)]
pub enum Mirroring {
    Vertical,
    Horizontal,
    SingleLow,
    SingleHigh,
}

/// What comes out of a .nes file: the two ROMs and the board type, with the
/// board's own memory and latches.
pub struct Cartridge {
    /// PRG ROM: code and data for the processor.
    pub prg_rom: Vec<u8>,
    /// CHR ROM: tile graphics for the picture chip.
    pub chr_rom: Vec<u8>,
    /// Which board ("mapper") the game expects. Number 0 is NROM: two ROMs,
    /// no tricks.
    pub mapper: u8,
    /// How the board wires the name RAM: vertical mirroring, or horizontal.
    pub vertical_mirroring: bool,
    /// CHR RAM: the blank album of a file that brings no CHR ROM.
    pub chr_ram: Vec<u8>,
    /// PRG RAM at $6000-$7FFF: the pocket on the board.
    pub prg_ram: Vec<u8>,
    /// UxROM's latch: which 16 KiB program bank sits at $8000.
    pub prg_bank: u8,
    /// CNROM's latch: which 8 KiB album is wired in.
    pub chr_bank: u8,
    /// MMC1's serial port, filled by five writes of one bit each, and the
    /// four registers those writes fill.
    pub shift: u8,
    pub control: u8,
    pub chr0: u8,
    pub chr1: u8,
    pub prg: u8,
}

/// A [`Cartridge`] as a mathematical value.
#[verifier::ext_equal]
pub ghost struct CartridgeState {
    pub prg_rom: Seq<u8>,
    pub chr_rom: Seq<u8>,
    pub mapper: u8,
    pub vertical_mirroring: bool,
    pub chr_ram: Seq<u8>,
    pub prg_ram: Seq<u8>,
    pub prg_bank: u8,
    pub chr_bank: u8,
    pub shift: u8,
    pub control: u8,
    pub chr0: u8,
    pub chr1: u8,
    pub prg: u8,
}

impl View for Cartridge {
    type V = CartridgeState;

    open spec fn view(&self) -> CartridgeState {
        CartridgeState {
            prg_rom: self.prg_rom@,
            chr_rom: self.chr_rom@,
            mapper: self.mapper,
            vertical_mirroring: self.vertical_mirroring,
            chr_ram: self.chr_ram@,
            prg_ram: self.prg_ram@,
            prg_bank: self.prg_bank,
            chr_bank: self.chr_bank,
            shift: self.shift,
            control: self.control,
            chr0: self.chr0,
            chr1: self.chr1,
            prg: self.prg,
        }
    }
}

/// One 16 KiB bank of program.
pub const PRG_BANK: usize = 16384;

/// One 8 KiB album.
pub const CHR_BANK: usize = 8192;

/// Whether a file opens the way every iNES file does: sixteen bytes of
/// header, of which the first four are the letters N, E, S and $1A.
pub open spec fn header_found(bytes: Seq<u8>) -> bool {
    bytes.len() >= 16 && bytes[0] == 0x4E && bytes[1] == 0x45 && bytes[2] == 0x53 && bytes[3] == 0x1A
}

/// How much program a header promises.
pub open spec fn prg_size(bytes: Seq<u8>) -> int {
    bytes[4] * PRG_BANK
}

/// How much tile art a header promises.
pub open spec fn chr_size(bytes: Seq<u8>) -> int {
    bytes[5] * CHR_BANK
}

/// Where the ROMs begin: after the header, and after the 512-byte trainer
/// that some files carry.
pub open spec fn rom_start(bytes: Seq<u8>) -> int {
    if bytes[6] & 0b0000_0100 != 0 {
        528
    } else {
        16
    }
}

/// A run of zeros.
pub open spec fn blank(len: nat) -> Seq<u8> {
    Seq::new(len, |i: int| 0u8)
}

/// What an iNES file unpacks to, or why it is refused.
pub open spec fn unpacked(bytes: Seq<u8>) -> Result<CartridgeState, Seq<char>> {
    let start = rom_start(bytes);
    let middle = start + prg_size(bytes);
    let end = middle + chr_size(bytes);
    if !header_found(bytes) {
        Err("not an iNES file"@)
    } else if bytes.len() < end {
        Err("file is shorter than its header promises"@)
    } else {
        Ok(
            CartridgeState {
                prg_rom: bytes.subrange(start, middle),
                chr_rom: bytes.subrange(middle, end),
                mapper: (bytes[7] / 16 * 16 + bytes[6] / 16) as u8,
                vertical_mirroring: bytes[6] & 0b0000_0001 != 0,
                chr_ram: if chr_size(bytes) == 0 {
                    blank(CHR_BANK as nat)
                } else {
                    Seq::empty()
                },
                prg_ram: blank(8192),
                prg_bank: 0,
                chr_bank: 0,
                shift: 0b1_0000,
                control: 0x0C,
                chr0: 0,
                chr1: 0,
                prg: 0,
            },
        )
    }
}

impl CartridgeState {
    /// What every board has, a program or none: a pocket of 8 KiB, and either
    /// a blank album or tile art.
    pub open spec fn fits(self) -> bool {
        &&& self.prg_ram.len() == 8192
        &&& self.chr_ram.len() == CHR_BANK || (self.chr_ram.len() == 0 && self.chr_rom.len() > 0)
    }

    /// Whether there is a program to read: at least a bank of it.
    pub open spec fn has_program(self) -> bool {
        self.prg_rom.len() >= PRG_BANK
    }

    /// What every board on the shelf has: all that it takes to fit, and a
    /// program.
    pub open spec fn wf(self) -> bool {
        self.has_program() && self.fits()
    }

    /// Where in PRG ROM an address of $8000 and up reads, before the ROM's
    /// own length folds it.
    pub open spec fn prg_index(self, address: int) -> int {
        let offset = address - 0x8000;
        let last = self.prg_rom.len() - PRG_BANK;
        if self.mapper == 1 {
            let mode = self.control / 4 % 4;
            if mode <= 1 {
                // 32 KiB at a time: the bank number's low bit ignored.
                self.prg / 2 * 2 * PRG_BANK + offset
            } else if mode == 2 {
                // First bank fixed in front, chosen bank behind.
                if offset < 0x4000 {
                    offset
                } else {
                    self.prg * PRG_BANK + (offset - 0x4000)
                }
            } else {
                // Chosen bank in front, last bank fixed behind.
                if offset < 0x4000 {
                    self.prg * PRG_BANK + offset
                } else {
                    last + (offset - 0x4000)
                }
            }
        } else if self.mapper == 2 {
            if offset < 0x4000 {
                self.prg_bank * PRG_BANK + offset
            } else {
                last + (offset - 0x4000)
            }
        } else {
            offset
        }
    }

    /// The program byte the processor sees at an address of $8000 and up.
    #[verifier::opaque]
    pub open spec fn prg_byte(self, address: int) -> u8 {
        self.prg_rom[self.prg_index(address) % (self.prg_rom.len() as int)]
    }

    /// Where in CHR ROM an address of the album reads, before the ROM's own
    /// length folds it.
    pub open spec fn chr_index(self, address: int) -> int {
        if self.mapper == 1 {
            if self.control & 0b1_0000 != 0 {
                // 4 KiB halves, chosen separately.
                (if address < 0x1000 {
                    self.chr0
                } else {
                    self.chr1
                }) * 4096 + address % 0x1000
            } else {
                self.chr0 / 2 * 2 * 4096 + address
            }
        } else if self.mapper == 3 {
            self.chr_bank * CHR_BANK + address
        } else {
            address
        }
    }

    /// The album's byte at an address: CHR RAM if the album is blank, CHR
    /// ROM through the board otherwise.
    #[verifier::opaque]
    pub open spec fn chr_byte(self, address: int) -> u8 {
        if self.chr_ram.len() > 0 {
            self.chr_ram[address]
        } else {
            self.chr_rom[self.chr_index(address) % (self.chr_rom.len() as int)]
        }
    }

    /// Whether the album has a byte at an address.
    pub open spec fn chr_holds(self, address: int) -> bool {
        if self.chr_ram.len() > 0 {
            address < self.chr_ram.len()
        } else {
            self.chr_rom.len() > 0
        }
    }

    /// How far the album reaches: a blank one to its end, art through the
    /// 8 KiB window.
    pub open spec fn album_len(self) -> nat {
        if self.chr_ram.len() > 0 {
            if self.chr_ram.len() < 0x10000 {
                self.chr_ram.len()
            } else {
                0x10000
            }
        } else if self.chr_rom.len() > 0 {
            CHR_BANK as nat
        } else {
            0
        }
    }

    /// The album as the picture chip sees it.
    pub open spec fn album(self) -> Seq<u8> {
        Seq::new(self.album_len(), |address: int| self.chr_byte(address))
    }

    /// One bit into MMC1's serial port. Bit 7 of the value shuts the port
    /// and fixes the last bank; otherwise the low bit enters from the top,
    /// and the fifth one delivers the word to the register that its address
    /// picks.
    pub open spec fn serial_written(self, address: int, value: u8) -> CartridgeState {
        let shifted = (self.shift >> 1) | ((value & 1) << 4);
        if value & 0x80 != 0 {
            CartridgeState { shift: 0b1_0000, control: self.control | 0x0C, ..self }
        } else if self.shift & 1 == 0 {
            CartridgeState { shift: shifted, ..self }
        } else if 0x8000 <= address < 0xA000 {
            CartridgeState { control: shifted, shift: 0b1_0000, ..self }
        } else if 0xA000 <= address < 0xC000 {
            CartridgeState { chr0: shifted, shift: 0b1_0000, ..self }
        } else if 0xC000 <= address < 0xE000 {
            CartridgeState { chr1: shifted, shift: 0b1_0000, ..self }
        } else {
            CartridgeState { prg: shifted & 0x0F, shift: 0b1_0000, ..self }
        }
    }

    /// A write into ROM territory, as the board's latches take it.
    #[verifier::opaque]
    pub open spec fn prg_written(self, address: int, value: u8) -> CartridgeState {
        if self.mapper == 1 {
            self.serial_written(address, value)
        } else if self.mapper == 2 {
            CartridgeState { prg_bank: value & 0x0F, ..self }
        } else if self.mapper == 3 {
            CartridgeState { chr_bank: value & 0x03, ..self }
        } else {
            self
        }
    }

    /// A write into the album, which only a blank one keeps.
    pub open spec fn chr_written(self, address: int, value: u8) -> CartridgeState {
        if self.chr_ram.len() > 0 {
            CartridgeState { chr_ram: self.chr_ram.update(address, value), ..self }
        } else {
            self
        }
    }

    /// How the board is wiring the name RAM right now: MMC1 as its control
    /// register says, the others as the header said.
    #[verifier::opaque]
    pub open spec fn mirroring(self) -> Mirroring {
        if self.mapper == 1 {
            if self.control % 4 == 0 {
                Mirroring::SingleLow
            } else if self.control % 4 == 1 {
                Mirroring::SingleHigh
            } else if self.control % 4 == 2 {
                Mirroring::Vertical
            } else {
                Mirroring::Horizontal
            }
        } else if self.vertical_mirroring {
            Mirroring::Vertical
        } else {
            Mirroring::Horizontal
        }
    }
}

impl Cartridge {
    /// Unpack an iNES file: sixteen bytes of header, then the ROMs.
    pub fn load(bytes: &[u8]) -> (result: Result<Cartridge, String>)
        ensures
            match result {
                Ok(cartridge) => unpacked(bytes@) == Ok::<CartridgeState, Seq<char>>(cartridge@),
                Err(why) => unpacked(bytes@) == Err::<CartridgeState, Seq<char>>(why@),
            },
    {
        if bytes.len() < 16 || bytes[0] != 0x4E || bytes[1] != 0x45 || bytes[2] != 0x53 || bytes[3] != 0x1A {
            return Err("not an iNES file".to_owned());
        }
        let prg_size: usize = bytes[4] as usize * PRG_BANK;
        let chr_size: usize = bytes[5] as usize * CHR_BANK;
        // The mapper number arrives split in half: its low four bits ride in
        // the top of byte 6, its high four bits in byte 7.
        let mapper: u8 = bytes[7] / 16 * 16 + bytes[6] / 16;
        let vertical_mirroring = bytes[6] & 0b0000_0001 != 0;
        let start: usize = if bytes[6] & 0b0000_0100 != 0 {
            16 + 512
        } else {
            16
        };
        if bytes.len() < start + prg_size + chr_size {
            return Err("file is shorter than its header promises".to_owned());
        }
        let middle: usize = start + prg_size;
        let chr_ram: Vec<u8> = if chr_size == 0 {
            vec![0; CHR_BANK]
        } else {
            Vec::new()
        };
        let cartridge = Cartridge {
            prg_rom: slice_to_vec(slice_subrange(bytes, start, middle)),
            chr_rom: slice_to_vec(slice_subrange(bytes, middle, middle + chr_size)),
            mapper,
            vertical_mirroring,
            chr_ram,
            prg_ram: vec![0; 8192],
            prg_bank: 0,
            chr_bank: 0,
            shift: 0b1_0000,
            control: 0x0C,
            chr0: 0,
            chr1: 0,
            prg: 0,
        };
        assert(cartridge@ =~= unpacked(bytes@)->Ok_0);
        Ok(cartridge)
    }

    /// Whether a machine can play this: at least a bank of program, the
    /// pocket, and an album of one kind or the other.
    pub fn is_complete(&self) -> (complete: bool)
        ensures
            complete == self@.wf(),
    {
        self.prg_rom.len() >= PRG_BANK && self.prg_ram.len() == 8192 && (self.chr_ram.len() == CHR_BANK || (
        self.chr_ram.len() == 0 && self.chr_rom.len() > 0))
    }

    /// Read from PRG as the processor sees it, through whichever board is in
    /// the slot.
    pub fn read_prg(&self, address: u16) -> (value: u8)
        requires
            address >= 0x8000,
            self.prg_rom@.len() >= PRG_BANK,
        ensures
            value == self@.prg_byte(address as int),
    {
        proof {
            reveal(CartridgeState::prg_byte);
        }
        let offset: usize = address as usize - 0x8000;
        let last: usize = self.prg_rom.len() - PRG_BANK;
        let index: usize = if self.mapper == 1 {
            let mode: u8 = self.control / 4 % 4;
            if mode <= 1 {
                (self.prg / 2 * 2) as usize * PRG_BANK + offset
            } else if mode == 2 {
                if offset < 0x4000 {
                    offset
                } else {
                    self.prg as usize * PRG_BANK + (offset - 0x4000)
                }
            } else {
                if offset < 0x4000 {
                    self.prg as usize * PRG_BANK + offset
                } else {
                    last + (offset - 0x4000)
                }
            }
        } else if self.mapper == 2 {
            if offset < 0x4000 {
                self.prg_bank as usize * PRG_BANK + offset
            } else {
                last + (offset - 0x4000)
            }
        } else {
            offset
        };
        self.prg_rom[index % self.prg_rom.len()]
    }

    /// A write into ROM territory reaches the board, not the ROM.
    pub fn write_prg(&mut self, address: u16, value: u8)
        ensures
            final(self)@ == old(self)@.prg_written(address as int, value),
            old(self)@.fits() ==> final(self)@.fits(),
            final(self)@.prg_rom == old(self)@.prg_rom,
    {
        proof {
            reveal(CartridgeState::prg_written);
        }
        match self.mapper {
            1 => self.mmc1_serial(address, value),
            2 => {
                self.prg_bank = value & 0x0F;
            },
            3 => {
                self.chr_bank = value & 0x03;
            },
            _ => {},
        }
    }

    /// MMC1 listens one bit at a time: five writes fill the shift register,
    /// and the fifth write's address picks which register receives it. Bit 7
    /// slams the port shut and starts over.
    pub fn mmc1_serial(&mut self, address: u16, value: u8)
        ensures
            final(self)@ == old(self)@.serial_written(address as int, value),
            old(self)@.fits() ==> final(self)@.fits(),
            final(self)@.prg_rom == old(self)@.prg_rom,
    {
        if value & 0x80 != 0 {
            self.shift = 0b1_0000;
            self.control = self.control | 0x0C;
            return;
        }
        let full = self.shift;
        assert(full & 1 == 0 || full & 1 == 1) by (bit_vector);
        let complete = self.shift & 1 != 0;
        let shifted: u8 = (self.shift >> 1) | ((value & 1) << 4);
        if !complete {
            self.shift = shifted;
            return;
        }
        match address {
            0x8000..=0x9FFF => {
                self.control = shifted;
            },
            0xA000..=0xBFFF => {
                self.chr0 = shifted;
            },
            0xC000..=0xDFFF => {
                self.chr1 = shifted;
            },
            _ => {
                self.prg = shifted & 0x0F;
            },
        }
        self.shift = 0b1_0000;
    }

    /// Read one byte of the album, through the board.
    pub fn read_chr(&self, address: u16) -> (value: u8)
        requires
            self@.chr_holds(address as int),
        ensures
            value == self@.chr_byte(address as int),
    {
        proof {
            reveal(CartridgeState::chr_byte);
        }
        let address = address as usize;
        if self.chr_ram.len() > 0 {
            return self.chr_ram[address];
        }
        let index: usize = if self.mapper == 1 {
            if self.control & 0b1_0000 != 0 {
                let bank = if address < 0x1000 {
                    self.chr0
                } else {
                    self.chr1
                };
                bank as usize * 4096 + address % 0x1000
            } else {
                (self.chr0 / 2 * 2) as usize * 4096 + address
            }
        } else if self.mapper == 3 {
            self.chr_bank as usize * CHR_BANK + address
        } else {
            address
        };
        self.chr_rom[index % self.chr_rom.len()]
    }

    /// Write into the album: only blank albums accept ink.
    pub fn write_chr(&mut self, address: u16, value: u8)
        requires
            old(self)@.chr_ram.len() > 0 ==> address < old(self)@.chr_ram.len(),
        ensures
            final(self)@ == old(self)@.chr_written(address as int, value),
            old(self)@.fits() ==> final(self)@.fits(),
            final(self)@.prg_rom == old(self)@.prg_rom,
    {
        if self.chr_ram.len() > 0 {
            self.chr_ram[address as usize] = value;
        }
    }

    /// How the board is wiring the name RAM right now.
    pub fn mirroring(&self) -> (mirroring: Mirroring)
        ensures
            mirroring == self@.mirroring(),
    {
        proof {
            reveal(CartridgeState::mirroring);
        }
        if self.mapper == 1 {
            return match self.control % 4 {
                0 => Mirroring::SingleLow,
                1 => Mirroring::SingleHigh,
                2 => Mirroring::Vertical,
                _ => Mirroring::Horizontal,
            };
        }
        if self.vertical_mirroring {
            Mirroring::Vertical
        } else {
            Mirroring::Horizontal
        }
    }
}

impl Album for Cartridge {
    open spec fn bytes(&self) -> Seq<u8> {
        self@.album()
    }

    fn byte(&self, address: usize) -> (value: u8) {
        self.read_chr(address as u16)
    }
}

/// Every file that unpacks and promises at least a bank of program makes a
/// cartridge that a machine can play.
pub proof fn law_unpacked_cartridge_is_complete(bytes: Seq<u8>)
    requires
        unpacked(bytes) is Ok,
        bytes[4] > 0,
    ensures
        unpacked(bytes)->Ok_0.wf(),
{
}

/// What comes out of a file is what the file holds: the program, then the
/// art, byte for byte, from where the header says they start.
pub proof fn law_unpacking_keeps_the_bytes(bytes: Seq<u8>, i: int)
    requires
        unpacked(bytes) is Ok,
    ensures
        ({
            let cartridge = unpacked(bytes)->Ok_0;
            &&& cartridge.prg_rom.len() == prg_size(bytes)
            &&& cartridge.chr_rom.len() == chr_size(bytes)
            &&& 0 <= i < prg_size(bytes) ==> cartridge.prg_rom[i] == bytes[rom_start(bytes) + i]
            &&& 0 <= i < chr_size(bytes) ==> cartridge.chr_rom[i] == bytes[rom_start(bytes) + prg_size(bytes)
                + i]
        }),
{
}

/// A 16 KiB program on a plain board appears twice: at $8000, and again at
/// $C000.
pub proof fn law_16k_program_appears_twice(cartridge: CartridgeState, address: int)
    requires
        cartridge.mapper != 1 && cartridge.mapper != 2,
        cartridge.prg_rom.len() == PRG_BANK,
        0x8000 <= address < 0xC000,
    ensures
        cartridge.prg_byte(address + 0x4000) == cartridge.prg_byte(address),
        cartridge.prg_byte(address) == cartridge.prg_rom[address - 0x8000],
{
    reveal(CartridgeState::prg_byte);
}

/// A 32 KiB program on a plain board fills the window.
pub proof fn law_32k_program_fills_the_window(cartridge: CartridgeState, address: int)
    requires
        cartridge.mapper != 1 && cartridge.mapper != 2,
        cartridge.prg_rom.len() == 2 * PRG_BANK,
        0x8000 <= address < 0x10000,
    ensures
        cartridge.prg_byte(address) == cartridge.prg_rom[address - 0x8000],
{
    reveal(CartridgeState::prg_byte);
    vstd::arithmetic::div_mod::lemma_small_mod((address - 0x8000) as nat, cartridge.prg_rom.len());
}

/// UxROM switches the front and bolts the back: whatever is written, and
/// wherever, the top half of the window shows the last bank, and the front
/// shows the bank that was asked for.
pub proof fn law_uxrom_bolts_the_back(cartridge: CartridgeState, address: int, value: u8, read: int)
    requires
        cartridge.mapper == 2,
        cartridge.prg_rom.len() >= PRG_BANK,
        0x8000 <= read < 0x10000,
    ensures
        ({
            let after = cartridge.prg_written(address, value);
            let rom = cartridge.prg_rom;
            if read >= 0xC000 {
                after.prg_byte(read) == rom[rom.len() - PRG_BANK + (read - 0xC000)]
            } else {
                (value & 0x0F) * PRG_BANK + (read - 0x8000) < rom.len() ==> after.prg_byte(read)
                    == rom[(value & 0x0F) * PRG_BANK + (read - 0x8000)]
            }
        }),
{
    reveal(CartridgeState::prg_byte);
    reveal(CartridgeState::prg_written);
    let after = cartridge.prg_written(address, value);
    let index = after.prg_index(read);
    assert(0 <= index);
    if index < cartridge.prg_rom.len() {
        vstd::arithmetic::div_mod::lemma_small_mod(index as nat, cartridge.prg_rom.len());
    }
}

/// CNROM swaps whole albums, and leaves the program alone.
pub proof fn law_cnrom_swaps_albums(cartridge: CartridgeState, address: int, value: u8, read: int)
    requires
        cartridge.mapper == 3,
        cartridge.chr_ram.len() == 0,
        0 <= read < CHR_BANK,
        (value & 0x03) * CHR_BANK + read < cartridge.chr_rom.len(),
    ensures
        cartridge.prg_written(address, value).chr_byte(read) == cartridge.chr_rom[(value & 0x03)
            * CHR_BANK + read],
        cartridge.prg_written(address, value).prg_byte(0x8000 + read) == cartridge.prg_byte(
            0x8000 + read,
        ),
{
    reveal(CartridgeState::prg_byte);
    reveal(CartridgeState::chr_byte);
    reveal(CartridgeState::prg_written);
    vstd::arithmetic::div_mod::lemma_small_mod(
        ((value & 0x03) * CHR_BANK + read) as nat,
        cartridge.chr_rom.len(),
    );
}

/// The five-bit word that five low bits make, the first the lowest.
pub open spec fn word_of(b0: u8, b1: u8, b2: u8, b3: u8, b4: u8) -> u8 {
    (b0 % 2 + b1 % 2 * 2 + b2 % 2 * 4 + b3 % 2 * 8 + b4 % 2 * 16) as u8
}

proof fn lemma_serial_port(b0: u8, b1: u8, b2: u8, b3: u8, b4: u8)
    by (bit_vector)
    ensures
        ({
            let s1 = (0b1_0000u8 >> 1) | ((b0 & 1) << 4);
            let s2 = (s1 >> 1) | ((b1 & 1) << 4);
            let s3 = (s2 >> 1) | ((b2 & 1) << 4);
            let s4 = (s3 >> 1) | ((b3 & 1) << 4);
            let s5 = (s4 >> 1) | ((b4 & 1) << 4);
            &&& 0b1_0000u8 & 1 == 0
            &&& s1 & 1 == 0
            &&& s2 & 1 == 0
            &&& s3 & 1 == 0
            &&& s4 & 1 == 1
            &&& s5 == word_of(b0, b1, b2, b3, b4)
        }),
{
}

/// MMC1 listens five bits at a time: from a port at rest, five writes with
/// their top bits clear change nothing but the port until the fifth, whose
/// address picks the register that receives the whole word, lowest bit
/// first; and the port is at rest again.
pub proof fn law_mmc1_listens_five_bits(
    cartridge: CartridgeState,
    a0: int,
    a1: int,
    a2: int,
    a3: int,
    a4: int,
    b0: u8,
    b1: u8,
    b2: u8,
    b3: u8,
    b4: u8,
)
    requires
        cartridge.mapper == 1,
        cartridge.shift == 0b1_0000,
        b0 & 0x80 == 0,
        b1 & 0x80 == 0,
        b2 & 0x80 == 0,
        b3 & 0x80 == 0,
        b4 & 0x80 == 0,
    ensures
        ({
            let four = cartridge.prg_written(a0, b0).prg_written(a1, b1).prg_written(a2, b2).prg_written(
                a3,
                b3,
            );
            let five = four.prg_written(a4, b4);
            let word = word_of(b0, b1, b2, b3, b4);
            &&& four == (CartridgeState { shift: four.shift, ..cartridge })
            &&& five == if 0x8000 <= a4 < 0xA000 {
                CartridgeState { control: word, ..cartridge }
            } else if 0xA000 <= a4 < 0xC000 {
                CartridgeState { chr0: word, ..cartridge }
            } else if 0xC000 <= a4 < 0xE000 {
                CartridgeState { chr1: word, ..cartridge }
            } else {
                CartridgeState { prg: word & 0x0F, ..cartridge }
            }
        }),
{
    reveal(CartridgeState::prg_written);
    lemma_serial_port(b0, b1, b2, b3, b4);
}

proof fn lemma_fixed_mode(control: u8)
    by (bit_vector)
    ensures
        (control | 0x0C) / 4 % 4 == 3,
        (control | 0x0C) % 4 == control % 4,
        (control | 0x0C) & 0b1_0000 == control & 0b1_0000,
{
}

/// Bit 7 slams MMC1's port shut: the half-entered word vanishes, the last
/// bank is bolted behind again, and the name RAM stays wired as it was.
pub proof fn law_mmc1_port_slams_shut(cartridge: CartridgeState, address: int, value: u8, read: int)
    requires
        cartridge.mapper == 1,
        cartridge.prg_rom.len() >= PRG_BANK,
        value & 0x80 != 0,
        0xC000 <= read < 0x10000,
    ensures
        ({
            let after = cartridge.prg_written(address, value);
            let rom = cartridge.prg_rom;
            &&& after.shift == 0b1_0000
            &&& after.prg_byte(read) == rom[rom.len() - PRG_BANK + (read - 0xC000)]
            &&& after.mirroring() == cartridge.mirroring()
        }),
{
    reveal(CartridgeState::prg_byte);
    reveal(CartridgeState::prg_written);
    reveal(CartridgeState::mirroring);
    lemma_fixed_mode(cartridge.control);
    vstd::arithmetic::div_mod::lemma_small_mod(
        (cartridge.prg_rom.len() - PRG_BANK + (read - 0xC000)) as nat,
        cartridge.prg_rom.len(),
    );
}

/// A blank album accepts ink: what is written is read, and nothing else
/// changes.
pub proof fn law_blank_album_accepts_ink(cartridge: CartridgeState, address: int, value: u8, other: int)
    requires
        0 <= address < cartridge.chr_ram.len(),
        0 <= other < cartridge.chr_ram.len(),
    ensures
        cartridge.chr_written(address, value).chr_byte(other) == (if other == address {
            value
        } else {
            cartridge.chr_byte(other)
        }),
{
    reveal(CartridgeState::chr_byte);
}

/// Printed art refuses it: a cartridge with tile ROM ignores every write
/// into its album.
pub proof fn law_printed_album_refuses_ink(cartridge: CartridgeState, address: int, value: u8)
    requires
        cartridge.chr_ram.len() == 0,
    ensures
        cartridge.chr_written(address, value) == cartridge,
{
}

/// A board only ever moves its latches: no write into ROM territory changes
/// the ROMs, the album, the pocket, or which board it is.
pub proof fn law_boards_only_move_latches(cartridge: CartridgeState, address: int, value: u8)
    ensures
        ({
            let after = cartridge.prg_written(address, value);
            &&& after.prg_rom == cartridge.prg_rom
            &&& after.chr_rom == cartridge.chr_rom
            &&& after.chr_ram == cartridge.chr_ram
            &&& after.prg_ram == cartridge.prg_ram
            &&& after.mapper == cartridge.mapper
            &&& after.vertical_mirroring == cartridge.vertical_mirroring
        }),
{
    reveal(CartridgeState::prg_written);
}

/// A plain board hides nothing: the program is read straight through from
/// $8000, round and round if it is shorter than the window, and the album
/// straight through from 0.
pub proof fn law_plain_board_reads_straight(cartridge: CartridgeState, address: int)
    requires
        cartridge.mapper != 1,
    ensures
        cartridge.mapper != 2 && 0x8000 <= address < 0x10000 ==> cartridge.prg_byte(address) == cartridge.prg_rom[(
        address - 0x8000) % (cartridge.prg_rom.len() as int)],
        cartridge.mapper != 3 && cartridge.chr_ram.len() == 0 && 0 <= address < 0x2000 && cartridge.chr_rom.len()
            >= 0x2000 ==> cartridge.chr_byte(address) == cartridge.chr_rom[address],
        cartridge.mapper != 3 && cartridge.chr_ram.len() == 0 && 0 <= address < 0x2000 ==> cartridge.chr_byte(address)
            == cartridge.chr_rom[address % (cartridge.chr_rom.len() as int)],
{
    reveal(CartridgeState::prg_byte);
    reveal(CartridgeState::chr_byte);
    if 0 <= address < 0x2000 && cartridge.chr_rom.len() >= 0x2000 {
        vstd::arithmetic::div_mod::lemma_small_mod(address as nat, cartridge.chr_rom.len());
    }
}

/// A blank album is read straight through, whatever the board.
pub proof fn law_blank_album_reads_straight(cartridge: CartridgeState, address: int)
    requires
        0 <= address < cartridge.chr_ram.len(),
    ensures
        cartridge.chr_byte(address) == cartridge.chr_ram[address],
{
    reveal(CartridgeState::chr_byte);
}

/// UxROM and CNROM by their latches: the front bank is the latch's, the back
/// one the last; the album is the latch's 8 KiB. Numbers past the end come
/// round.
pub proof fn law_latches_pick_banks(cartridge: CartridgeState, address: int)
    ensures
        cartridge.mapper == 2 && 0x8000 <= address < 0xC000 ==> cartridge.prg_byte(address) == cartridge.prg_rom[(
        cartridge.prg_bank * 16384 + address - 0x8000) % (cartridge.prg_rom.len() as int)],
        cartridge.mapper == 2 && 0xC000 <= address < 0x10000 && cartridge.prg_rom.len() >= 16384
            ==> cartridge.prg_byte(address) == cartridge.prg_rom[cartridge.prg_rom.len() - 0x10000 + address],
        cartridge.mapper == 3 && cartridge.chr_ram.len() == 0 && 0 <= address < 0x2000 ==> cartridge.chr_byte(address)
            == cartridge.chr_rom[(cartridge.chr_bank * 8192 + address) % (cartridge.chr_rom.len() as int)],
{
    reveal(CartridgeState::prg_byte);
    reveal(CartridgeState::chr_byte);
    if 0xC000 <= address < 0x10000 && cartridge.prg_rom.len() >= 16384 {
        vstd::arithmetic::div_mod::lemma_small_mod(
            (cartridge.prg_rom.len() - 0x10000 + address) as nat,
            cartridge.prg_rom.len(),
        );
    }
}

/// Which latch a write moves: UxROM's takes four bits, CNROM's two, from a
/// write anywhere in ROM territory, and on no other board does either move.
pub proof fn law_latches_take_their_bits(cartridge: CartridgeState, address: int, value: u8)
    ensures
        ({
            let after = cartridge.prg_written(address, value);
            &&& after.prg_bank == if cartridge.mapper == 2 {
                value & 0x0F
            } else {
                cartridge.prg_bank
            }
            &&& after.chr_bank == if cartridge.mapper == 3 {
                value & 0x03
            } else {
                cartridge.chr_bank
            }
            &&& cartridge.mapper != 1 ==> after.control == cartridge.control && after.chr0 == cartridge.chr0
                && after.chr1 == cartridge.chr1 && after.prg == cartridge.prg && after.shift == cartridge.shift
        }),
{
    reveal(CartridgeState::prg_written);
}

/// MMC1's program window, by bits 2 and 3 of its control register: 32 KiB at
/// once, the number's low bit ignored; the first bank bolted in front; or the
/// last bolted behind.
pub proof fn law_mmc1_program_window(cartridge: CartridgeState, address: int)
    requires
        cartridge.mapper == 1,
        cartridge.prg_rom.len() >= 16384,
        0x8000 <= address < 0x10000,
    ensures
        ({
            let rom = cartridge.prg_rom;
            let shown = cartridge.prg_byte(address);
            let bank = cartridge.prg as int;
            let mode = cartridge.control / 4 % 4;
            let len = rom.len() as int;
            &&& mode < 2 ==> shown == rom[(bank / 2 * 32768 + address - 0x8000) % len]
            &&& mode == 2 && address < 0xC000 ==> shown == rom[address - 0x8000]
            &&& mode == 2 && address >= 0xC000 ==> shown == rom[(bank * 16384 + address - 0xC000) % len]
            &&& mode == 3 && address < 0xC000 ==> shown == rom[(bank * 16384 + address - 0x8000) % len]
            &&& mode == 3 && address >= 0xC000 ==> shown == rom[len - 0x10000 + address]
        }),
{
    reveal(CartridgeState::prg_byte);
    let len = cartridge.prg_rom.len();
    if address >= 0xC000 {
        vstd::arithmetic::div_mod::lemma_small_mod((len - 0x10000 + address) as nat, len);
    } else {
        vstd::arithmetic::div_mod::lemma_small_mod((address - 0x8000) as nat, len);
    }
}

/// MMC1's album, by bit 4 of its control register: two halves of 4 KiB, each
/// with its own number, or 8 KiB at once, the first number's low bit ignored.
pub proof fn law_mmc1_album(cartridge: CartridgeState, address: int)
    requires
        cartridge.mapper == 1,
        cartridge.chr_ram.len() == 0,
        cartridge.chr_rom.len() > 0,
        0 <= address < 0x2000,
    ensures
        ({
            let rom = cartridge.chr_rom;
            let shown = cartridge.chr_byte(address);
            let len = rom.len() as int;
            if cartridge.control & 0b1_0000 == 0 {
                shown == rom[(cartridge.chr0 / 2 * 8192 + address) % len]
            } else if address < 0x1000 {
                shown == rom[(cartridge.chr0 * 4096 + address) % len]
            } else {
                shown == rom[(cartridge.chr1 * 4096 + address - 0x1000) % len]
            }
        }),
{
    reveal(CartridgeState::chr_byte);
    assert(cartridge.chr0 / 2 * 2 * 4096 == cartridge.chr0 / 2 * 8192);
    if address < 0x1000 {
        assert(address % 0x1000 == address);
    } else {
        assert(address % 0x1000 == address - 0x1000);
        assert(cartridge.chr1 * 4096 + address % 0x1000 == cartridge.chr1 * 4096 + address - 0x1000);
    }
}

/// MMC1's five writes, in numbers: the register that the fifth write's
/// address picks receives the five low bits, the first the lowest, and the
/// program register only four of them.
pub proof fn law_mmc1_word_is_lowest_bit_first(
    cartridge: CartridgeState,
    address: int,
    b0: u8,
    b1: u8,
    b2: u8,
    b3: u8,
    b4: u8,
)
    requires
        cartridge.mapper == 1,
        cartridge.shift == 0b1_0000,
        b0 < 128 && b1 < 128 && b2 < 128 && b3 < 128 && b4 < 128,
        0x8000 <= address < 0x10000,
    ensures
        ({
            let word = b0 % 2 + b1 % 2 * 2 + b2 % 2 * 4 + b3 % 2 * 8 + b4 % 2 * 16;
            let after = cartridge.prg_written(address, b0).prg_written(address, b1).prg_written(
                address,
                b2,
            ).prg_written(address, b3).prg_written(address, b4);
            &&& after.control == if address < 0xA000 {
                word
            } else {
                cartridge.control as int
            }
            &&& after.chr0 == if 0xA000 <= address < 0xC000 {
                word
            } else {
                cartridge.chr0 as int
            }
            &&& after.chr1 == if 0xC000 <= address < 0xE000 {
                word
            } else {
                cartridge.chr1 as int
            }
            &&& after.prg == if 0xE000 <= address {
                word % 16
            } else {
                cartridge.prg as int
            }
            &&& after.shift == 0b1_0000
        }),
{
    lemma_top_bits(b0, b1, b2, b3, b4);
    law_mmc1_listens_five_bits(cartridge, address, address, address, address, address, b0, b1, b2, b3, b4);
}

proof fn lemma_top_bits(b0: u8, b1: u8, b2: u8, b3: u8, b4: u8)
    by (bit_vector)
    requires
        b0 < 128 && b1 < 128 && b2 < 128 && b3 < 128 && b4 < 128,
    ensures
        b0 & 0x80 == 0 && b1 & 0x80 == 0 && b2 & 0x80 == 0 && b3 & 0x80 == 0 && b4 & 0x80 == 0,
        word_of(b0, b1, b2, b3, b4) & 0x0F == word_of(b0, b1, b2, b3, b4) % 16,
{
}

/// A write with bit 7 set, whatever the port holds: the port is at rest, the
/// last bank is bolted behind, and no other register changes.
pub proof fn law_mmc1_reset_keeps_the_registers(cartridge: CartridgeState, address: int, value: u8)
    requires
        cartridge.mapper == 1,
        value & 0x80 != 0,
    ensures
        ({
            let after = cartridge.prg_written(address, value);
            &&& after.shift == 0b1_0000
            &&& after.control / 4 % 4 == 3
            &&& after.control % 4 == cartridge.control % 4
            &&& after.control & 0b1_0000 == cartridge.control & 0b1_0000
            &&& after.chr0 == cartridge.chr0 && after.chr1 == cartridge.chr1 && after.prg == cartridge.prg
        }),
{
    reveal(CartridgeState::prg_written);
    lemma_fixed_mode(cartridge.control);
}

/// How a board wires the name RAM: MMC1 by the low two bits of its control
/// register, every other board as its header said.
pub proof fn law_boards_wire_the_names(cartridge: CartridgeState)
    ensures
        cartridge.mapper != 1 ==> cartridge.mirroring() == if cartridge.vertical_mirroring {
            Mirroring::Vertical
        } else {
            Mirroring::Horizontal
        },
        cartridge.mapper == 1 && cartridge.control % 4 == 0 ==> cartridge.mirroring() == Mirroring::SingleLow,
        cartridge.mapper == 1 && cartridge.control % 4 == 1 ==> cartridge.mirroring() == Mirroring::SingleHigh,
        cartridge.mapper == 1 && cartridge.control % 4 == 2 ==> cartridge.mirroring() == Mirroring::Vertical,
        cartridge.mapper == 1 && cartridge.control % 4 == 3 ==> cartridge.mirroring() == Mirroring::Horizontal,
{
    reveal(CartridgeState::mirroring);
}

/// What a header means: which files unpack, why the others do not, and of one
/// that does where its ROMs lie, which board it names, how it is wired, and
/// how the board powers on: every latch at zero, MMC1 with its last bank
/// bolted behind.
pub proof fn law_header_is_obeyed(bytes: Seq<u8>, i: int)
    ensures
        ({
            let good = bytes.len() >= 16 && bytes[0] == 0x4E && bytes[1] == 0x45 && bytes[2] == 0x53 && bytes[3]
                == 0x1A;
            let start = if bytes[6] & 0b0000_0100 != 0 {
                528int
            } else {
                16
            };
            let middle = start + 16384 * bytes[4];
            let end = middle + 8192 * bytes[5];
            let cartridge = unpacked(bytes)->Ok_0;
            &&& (unpacked(bytes) is Ok) == (good && bytes.len() >= end)
            &&& !good ==> unpacked(bytes) == Err::<CartridgeState, Seq<char>>("not an iNES file"@)
            &&& good && bytes.len() < end ==> unpacked(bytes) == Err::<CartridgeState, Seq<char>>(
                "file is shorter than its header promises"@,
            )
            &&& good && bytes.len() >= end ==> {
                &&& cartridge.prg_rom.len() == middle - start
                &&& 0 <= i < middle - start ==> cartridge.prg_rom[i] == bytes[start + i]
                &&& cartridge.chr_rom.len() == end - middle
                &&& 0 <= i < end - middle ==> cartridge.chr_rom[i] == bytes[middle + i]
                &&& cartridge.mapper % 16 == bytes[6] / 16 && cartridge.mapper / 16 == bytes[7] / 16
                &&& cartridge.vertical_mirroring == (bytes[6] & 0b0000_0001 != 0)
                &&& cartridge.chr_ram.len() == if bytes[5] == 0 {
                    8192int
                } else {
                    0
                }
                &&& 0 <= i < cartridge.chr_ram.len() ==> cartridge.chr_ram[i] == 0
                &&& cartridge.prg_ram.len() == 8192
                &&& 0 <= i < 8192 ==> cartridge.prg_ram[i] == 0
                &&& cartridge.prg_bank == 0 && cartridge.chr_bank == 0 && cartridge.shift == 0x10
                &&& cartridge.control == 0x0C && cartridge.chr0 == 0 && cartridge.chr1 == 0 && cartridge.prg == 0
            }
        }),
{
}

/// The album that the picture chip is shown: the byte that the board shows at
/// each address, through all of the 8 KiB window where there is art, and to
/// the end of a blank album.
pub proof fn law_album_is_what_the_board_shows(cartridge: CartridgeState, address: int)
    requires
        cartridge.chr_ram.len() <= 0x10000,
    ensures
        cartridge.chr_ram.len() > 0 ==> cartridge.album().len() == cartridge.chr_ram.len(),
        cartridge.chr_ram.len() == 0 && cartridge.chr_rom.len() > 0 ==> cartridge.album().len()
            == 8192,
        cartridge.chr_ram.len() == 0 && cartridge.chr_rom.len() == 0 ==> cartridge.album().len()
            == 0,
        0 <= address < cartridge.album().len() ==> cartridge.album()[address] == cartridge.chr_byte(
            address,
        ),
{
}

} // verus!
