//! The picture chip: its memory, its registers, and the ports through which
//! a program reaches them.

use vstd::prelude::*;

use crate::album::Album;
use crate::bits;
use crate::cartridge::Mirroring;

verus! {

/// The picture is 256 pixels wide and 240 tall.
pub const FRAME_PIXELS: usize = 61440;

/// The chip can emit 512 colors: 64 crayons under each of the eight
/// emphasis settings.
pub const COLORS: usize = 512;

/// The picture chip's own state: its private memory and the registers the
/// processor can reach through the bus.
pub struct Ppu {
    /// The nametables' RAM: 2 KiB on the console's board.
    pub vram: [u8; 2048],
    /// The eight palettes: 32 bytes the games fill at boot.
    pub palette_ram: [u8; 32],
    /// The sprite roster, OAM: 64 sprites, four bytes each.
    pub oam: [u8; 256],
    /// PPUCTRL, as last written: a byte of settings.
    pub ctrl: u8,
    /// PPUMASK: which layers draw, plus the tint and clipping switches.
    pub mask: u8,
    /// The picture, one color per pixel, painted a dot at a time.
    pub frame: Vec<u32>,
    /// Every color the chip can emit: 64 crayons for each emphasis setting.
    pub colors: Vec<u32>,
    /// The conveyor: pattern bits for the tile being drawn and the tile
    /// behind it. The front pixel leaves from bit 15.
    pub shift_low: u16,
    pub shift_high: u16,
    /// The same conveyor for the palette choice, two bits per pixel.
    pub attr_low: u16,
    pub attr_high: u16,
    /// The pockets the fetch fills: one tile's pattern planes and its
    /// palette pick, waiting for the next tile boundary.
    pub next_pattern_low: u8,
    pub next_pattern_high: u8,
    pub next_attr: u8,
    /// Whether the chip is in its vertical-blank rest period.
    pub vblank: bool,
    /// `v`: the address the chip is using, where the beam reads tiles while
    /// drawing and where the data port lands between frames.
    pub v: u16,
    /// `t`: the address being staged, waiting to be copied into `v`.
    pub t: u16,
    /// `x`, fine X: which of a tile's eight pixels the left screen edge
    /// cuts through.
    pub x: u8,
    /// The one-byte waiting room for PPUDATA reads.
    pub read_buffer: u8,
    /// `w`: the two-knock latch that $2005 and $2006 share.
    pub w: bool,
    /// $2002 bit 6: sprite zero met the background this frame.
    pub sprite_zero_hit: bool,
    /// $2002 bit 5: a scanline wanted a ninth sprite.
    pub sprite_overflow: bool,
    /// OAMADDR: where the next $2004 access lands.
    pub oam_addr: u8,
    /// The sprites chosen for the line being drawn, eight at most.
    pub line_sprites: Vec<LineSprite>,
    /// How the board arranges the four nametable names over the two rooms.
    pub mirroring: Mirroring,
}

/// One sprite as the beam meets it: a single row of eight decoded pixels,
/// parked at an X position, with its manners attached.
pub struct LineSprite {
    pub x: u8,
    pub pixels: [u8; 8],
    pub attributes: u8,
    pub is_zero: bool,
}

/// A [`LineSprite`] as a mathematical value.
#[verifier::ext_equal]
pub ghost struct SpriteRow {
    pub x: u8,
    pub pixels: Seq<u8>,
    pub attributes: u8,
    pub is_zero: bool,
}

impl View for LineSprite {
    type V = SpriteRow;

    open spec fn view(&self) -> SpriteRow {
        SpriteRow {
            x: self.x,
            pixels: self.pixels@,
            attributes: self.attributes,
            is_zero: self.is_zero,
        }
    }
}

/// A [`Ppu`] as a mathematical value: the memories are sequences.
#[verifier::ext_equal]
pub ghost struct PpuState {
    pub vram: Seq<u8>,
    pub palette_ram: Seq<u8>,
    pub oam: Seq<u8>,
    pub ctrl: u8,
    pub mask: u8,
    pub frame: Seq<u32>,
    pub colors: Seq<u32>,
    pub shift_low: u16,
    pub shift_high: u16,
    pub attr_low: u16,
    pub attr_high: u16,
    pub next_pattern_low: u8,
    pub next_pattern_high: u8,
    pub next_attr: u8,
    pub vblank: bool,
    pub v: u16,
    pub t: u16,
    pub x: u8,
    pub read_buffer: u8,
    pub w: bool,
    pub sprite_zero_hit: bool,
    pub sprite_overflow: bool,
    pub oam_addr: u8,
    pub line_sprites: Seq<SpriteRow>,
    pub mirroring: Mirroring,
}

impl View for Ppu {
    type V = PpuState;

    open spec fn view(&self) -> PpuState {
        PpuState {
            vram: self.vram@,
            palette_ram: self.palette_ram@,
            oam: self.oam@,
            ctrl: self.ctrl,
            mask: self.mask,
            frame: self.frame@,
            colors: self.colors@,
            shift_low: self.shift_low,
            shift_high: self.shift_high,
            attr_low: self.attr_low,
            attr_high: self.attr_high,
            next_pattern_low: self.next_pattern_low,
            next_pattern_high: self.next_pattern_high,
            next_attr: self.next_attr,
            vblank: self.vblank,
            v: self.v,
            t: self.t,
            x: self.x,
            read_buffer: self.read_buffer,
            w: self.w,
            sprite_zero_hit: self.sprite_zero_hit,
            sprite_overflow: self.sprite_overflow,
            oam_addr: self.oam_addr,
            line_sprites: self.line_sprites@.map_values(|sprite: LineSprite| sprite@),
            mirroring: self.mirroring,
        }
    }
}

// The fields of a scroll address. From the bottom up: five bits of coarse X,
// five of coarse Y, two that name a nametable (horizontal, then vertical),
// three of fine Y. The sixteenth bit belongs to no field.

/// The tile column of a scroll address.
pub open spec fn coarse_x(address: u16) -> u16 {
    address % 32
}

/// The tile row of a scroll address.
pub open spec fn coarse_y(address: u16) -> u16 {
    address / 32 % 32
}

/// The horizontal half of a scroll address's nametable name.
pub open spec fn name_x(address: u16) -> u16 {
    address / 1024 % 2
}

/// The vertical half of a scroll address's nametable name.
pub open spec fn name_y(address: u16) -> u16 {
    address / 2048 % 2
}

/// The pixel row of a scroll address within its tile.
pub open spec fn fine_y(address: u16) -> u16 {
    address / 4096 % 8
}

/// `address` with another tile column.
pub open spec fn with_coarse_x(address: u16, column: u16) -> u16 {
    (address - coarse_x(address) + column) as u16
}

/// `address` with another tile row.
pub open spec fn with_coarse_y(address: u16, row: u16) -> u16 {
    (address - coarse_y(address) * 32 + row * 32) as u16
}

/// `address` with another horizontal name bit.
pub open spec fn with_name_x(address: u16, name: u16) -> u16 {
    (address - name_x(address) * 1024 + name * 1024) as u16
}

/// `address` with another vertical name bit.
pub open spec fn with_name_y(address: u16, name: u16) -> u16 {
    (address - name_y(address) * 2048 + name * 2048) as u16
}

/// `address` with another pixel row.
pub open spec fn with_fine_y(address: u16, row: u16) -> u16 {
    (address - fine_y(address) * 4096 + row * 4096) as u16
}

/// A word with another low byte.
pub open spec fn with_low_byte(word: u16, byte: u16) -> u16 {
    (word - word % 0x100 + byte) as u16
}

/// Where in the two rooms of name RAM a nametable address lands: four names
/// fold onto two rooms of 1 KiB, the way the board wires them.
pub open spec fn mirrored(mirroring: Mirroring, address: int) -> int {
    let name = address % 0x1000 / 0x400;
    let room = match mirroring {
        Mirroring::Vertical => name % 2,
        Mirroring::Horizontal => name / 2,
        Mirroring::SingleLow => 0,
        Mirroring::SingleHigh => 1,
    };
    room * 0x400 + address % 0x400
}

/// Which of the 32 palette cells an address names. Cells $10, $14, $18 and
/// $1C are the same cells as $00, $04, $08 and $0C.
pub open spec fn palette_cell(address: int) -> int {
    let cell = address % 32;
    if cell >= 16 && cell % 4 == 0 {
        cell - 16
    } else {
        cell
    }
}

impl PpuState {
    /// A powered-on chip: memory blank, registers zero, wired the way the
    /// board dictates.
    pub open spec fn powered(vertical_mirroring: bool, colors: Seq<u32>) -> PpuState {
        PpuState {
            vram: Seq::new(2048, |i: int| 0u8),
            palette_ram: Seq::new(32, |i: int| 0u8),
            oam: Seq::new(256, |i: int| 0u8),
            ctrl: 0,
            mask: 0,
            frame: Seq::new(FRAME_PIXELS as nat, |i: int| 0u32),
            colors,
            shift_low: 0,
            shift_high: 0,
            attr_low: 0,
            attr_high: 0,
            next_pattern_low: 0,
            next_pattern_high: 0,
            next_attr: 0,
            vblank: false,
            v: 0,
            t: 0,
            x: 0,
            read_buffer: 0,
            w: false,
            sprite_zero_hit: false,
            sprite_overflow: false,
            oam_addr: 0,
            line_sprites: Seq::empty(),
            mirroring: if vertical_mirroring {
                Mirroring::Vertical
            } else {
                Mirroring::Horizontal
            },
        }
    }

    /// What every operation keeps: the memories have their sizes, fine X is
    /// one of a tile's eight pixels, and a line's cast is eight sprites at
    /// most, each a row of eight two-bit pixels.
    pub open spec fn wf(self) -> bool {
        &&& self.vram.len() == 2048
        &&& self.palette_ram.len() == 32
        &&& self.oam.len() == 256
        &&& self.frame.len() == FRAME_PIXELS
        &&& self.colors.len() == COLORS
        &&& self.x < 8
        &&& self.next_attr < 4
        &&& self.line_sprites.len() <= 8
        &&& forall|i: int| 0 <= i < self.line_sprites.len() ==> row_wf(#[trigger] self.line_sprites[i])
    }

    /// The address the data port is aimed at: `v` without its top two bits.
    pub open spec fn data_address(self) -> int {
        self.v as int % 0x4000
    }

    /// How far a data-port access walks: a byte, or a screen row.
    pub open spec fn address_step(self) -> int {
        if self.ctrl & 0b0000_0100 != 0 {
            32
        } else {
            1
        }
    }

    /// The walk that ends every data-port access.
    pub open spec fn stepped(self) -> PpuState {
        PpuState { v: ((self.v + self.address_step()) % 0x10000) as u16, ..self }
    }

    /// A settings write: the byte is kept, and its bottom two bits stage the
    /// nametable.
    pub open spec fn ctrl_written(self, value: u8) -> PpuState {
        PpuState {
            ctrl: value,
            t: with_name_y(with_name_x(self.t, value as u16 % 2), value as u16 / 2 % 2),
            ..self
        }
    }

    /// A camera write: X on the first knock, Y on the second.
    pub open spec fn scroll_written(self, value: u8) -> PpuState {
        if self.w {
            PpuState {
                t: with_fine_y(with_coarse_y(self.t, value as u16 / 8), value as u16 % 8),
                w: false,
                ..self
            }
        } else {
            PpuState {
                t: with_coarse_x(self.t, value as u16 / 8),
                x: (value % 8) as u8,
                w: true,
                ..self
            }
        }
    }

    /// An address write: the big half, its top two bits dropped, on the
    /// first knock; the little half on the second, which also applies it.
    pub open spec fn address_written(self, value: u8) -> PpuState {
        if self.w {
            let whole = with_low_byte(self.t, value as u16);
            PpuState { t: whole, v: whole, w: false, ..self }
        } else {
            PpuState { t: (self.t % 0x100 + value % 64 * 0x100) as u16, w: true, ..self }
        }
    }

    /// A data write: pattern space bounces it off, nametables and palettes
    /// keep it, and the address walks on.
    pub open spec fn data_written(self, value: u8) -> PpuState {
        let address = self.data_address();
        let kept = if address < 0x2000 {
            self
        } else if address < 0x3F00 {
            PpuState { vram: self.vram.update(mirrored(self.mirroring, address), value), ..self }
        } else {
            PpuState { palette_ram: self.palette_ram.update(palette_cell(address), value), ..self }
        };
        kept.stepped()
    }

    /// What the byte at the data port's address is, given what the album
    /// holds there.
    pub open spec fn data_at_port(self, pattern: u8) -> u8 {
        let address = self.data_address();
        if address < 0x2000 {
            pattern
        } else if address < 0x3F00 {
            self.vram[mirrored(self.mirroring, address)]
        } else {
            self.palette_ram[palette_cell(address)]
        }
    }

    /// A data read: the waiting room takes the byte at the address, and the
    /// address walks on.
    pub open spec fn data_read(self, pattern: u8) -> PpuState {
        PpuState { read_buffer: self.data_at_port(pattern), ..self }.stepped()
    }

    /// The status byte: vblank on top, then sprite zero, then overflow.
    pub open spec fn status(self) -> int {
        (if self.vblank { 128int } else { 0 }) + (if self.sprite_zero_hit { 64int } else { 0 })
            + (if self.sprite_overflow { 32int } else { 0 })
    }

    /// What looking at the status does: vblank falls and the latch resets.
    pub open spec fn status_read(self) -> PpuState {
        PpuState { vblank: false, w: false, ..self }
    }

    /// A roster write: one byte through the door, and the door moves on.
    pub open spec fn oam_written(self, value: u8) -> PpuState {
        PpuState {
            oam: self.oam.update(self.oam_addr as int, value),
            oam_addr: ((self.oam_addr + 1) % 256) as u8,
            ..self
        }
    }

    /// What the roster's door shows: an attribute byte, the third of its
    /// four, lacks bits 2, 3 and 4.
    pub open spec fn oam_data(self) -> u8 {
        let value = self.oam[self.oam_addr as int];
        if self.oam_addr % 4 == 2 {
            value & 0b1110_0011
        } else {
            value
        }
    }

    /// A write to one of the eight registers, the last of which is the data
    /// port. Two of them hear nothing.
    #[verifier::opaque]
    pub open spec fn register_written(self, register: int, value: u8) -> PpuState {
        if register == 0 {
            self.ctrl_written(value)
        } else if register == 1 {
            PpuState { mask: value, ..self }
        } else if register == 3 {
            PpuState { oam_addr: value, ..self }
        } else if register == 4 {
            self.oam_written(value)
        } else if register == 5 {
            self.scroll_written(value)
        } else if register == 6 {
            self.address_written(value)
        } else if register == 7 {
            self.data_written(value)
        } else {
            self
        }
    }

    /// What one of the eight registers answers a read. Three of them answer
    /// at all.
    #[verifier::opaque]
    pub open spec fn register_answer(self, register: int) -> u8 {
        if register == 2 {
            self.status() as u8
        } else if register == 4 {
            self.oam_data()
        } else if register == 7 {
            self.read_buffer
        } else {
            0
        }
    }

    /// What a read of one of the eight registers changes, given the album's
    /// byte at the data port's address. Two of them change when looked at.
    #[verifier::opaque]
    pub open spec fn register_read(self, register: int, pattern: u8) -> PpuState {
        if register == 2 {
            self.status_read()
        } else if register == 7 {
            self.data_read(pattern)
        } else {
            self
        }
    }

    /// Whether the mask shows the background, the sprites, or both.
    pub open spec fn rendering(self) -> bool {
        self.mask & 0b0001_1000 != 0
    }
}

/// A sprite's row of pixels is eight two-bit values.
pub open spec fn row_wf(row: SpriteRow) -> bool {
    &&& row.pixels.len() == 8
    &&& forall|i: int| 0 <= i < 8 ==> #[trigger] row.pixels[i] < 4
}

/// The address registers' masks and shifts, as arithmetic. `value` is a byte.
pub(crate) proof fn lemma_address_registers(t: u16, value: u16)
    by (bit_vector)
    requires
        value < 0x100,
    ensures
        (t & !0x0C00u16) | ((value & 0b11) << 10) == with_name_y(with_name_x(t, value % 2), value / 2 % 2),
        (t & !0x001Fu16) | (value >> 3) == with_coarse_x(t, value / 8),
        (t & !0x73E0u16) | ((value & 0b111) << 12) | ((value >> 3) << 5) == with_fine_y(
            with_coarse_y(t, value / 8),
            value % 8,
        ),
        (t & 0xFF00u16) | value == with_low_byte(t, value),
        (t & 0x00FFu16) | ((value & 0x3F) << 8) == (t % 0x100 + value % 64 * 0x100) as u16,
        value & 0b111 == value % 8,
        t & 0x3FFF == t % 0x4000,
{
}

impl Ppu {
    /// A powered-on chip: memory blank, registers zero, wired the way the
    /// board dictates. `colors` holds the chip's palette: for each emphasis
    /// setting in turn, the color of each of the 64 crayons.
    pub fn new(vertical_mirroring: bool, colors: Vec<u32>) -> (ppu: Ppu)
        requires
            colors@.len() == COLORS,
        ensures
            ppu@.wf(),
            ppu@ == PpuState::powered(vertical_mirroring, colors@),
    {
        Ppu {
            vram: [0; 2048],
            palette_ram: [0; 32],
            oam: [0; 256],
            ctrl: 0,
            mask: 0,
            frame: vec![0; FRAME_PIXELS],
            colors,
            shift_low: 0,
            shift_high: 0,
            attr_low: 0,
            attr_high: 0,
            next_pattern_low: 0,
            next_pattern_high: 0,
            next_attr: 0,
            vblank: false,
            v: 0,
            t: 0,
            x: 0,
            read_buffer: 0,
            w: false,
            sprite_zero_hit: false,
            sprite_overflow: false,
            oam_addr: 0,
            line_sprites: Vec::new(),
            mirroring: if vertical_mirroring {
                Mirroring::Vertical
            } else {
                Mirroring::Horizontal
            },
        }
    }

    /// A write to PPUCTRL ($2000): the settings byte, whose bottom two bits
    /// also stage which nametable `t` starts from.
    pub fn write_ctrl(&mut self, value: u8)
        ensures
            final(self)@ == old(self)@.ctrl_written(value),
            old(self)@.wf() ==> final(self)@.wf(),
    {
        proof {
            lemma_address_registers(self.t, value as u16);
        }
        self.ctrl = value;
        self.t = (self.t & !0x0C00u16) | (((value & 0b11) as u16) << 10);
    }

    /// A write to PPUSCROLL ($2005): the camera. The first knock stages the
    /// X scroll, coarse tile into `t` and fine pixel into `x`; the second
    /// stages Y the same way, fine bits on top.
    pub fn write_scroll(&mut self, value: u8)
        ensures
            final(self)@ == old(self)@.scroll_written(value),
            old(self)@.wf() ==> final(self)@.wf(),
    {
        proof {
            lemma_address_registers(self.t, value as u16);
        }
        if self.w {
            self.t = (self.t & !0x73E0u16) | (((value & 0b111) as u16) << 12) | (((value >> 3) as u16) << 5);
        } else {
            self.t = (self.t & !0x001Fu16) | ((value >> 3) as u16);
            self.x = value & 0b111;
        }
        self.w = !self.w;
    }

    /// A write to OAMADDR ($2003): aim the roster's door.
    pub fn write_oam_address(&mut self, value: u8)
        ensures
            final(self)@ == (PpuState { oam_addr: value, ..old(self)@ }),
            old(self)@.wf() ==> final(self)@.wf(),
    {
        self.oam_addr = value;
    }

    /// A write to OAMDATA ($2004): one byte through the door, and the door
    /// moves on.
    pub fn write_oam_data(&mut self, value: u8)
        ensures
            final(self)@ == old(self)@.oam_written(value),
            old(self)@.wf() ==> final(self)@.wf(),
    {
        self.oam[self.oam_addr as usize] = value;
        self.oam_addr = self.oam_addr.wrapping_add(1);
    }

    /// A read of OAMDATA: what the door shows, without moving it. An
    /// attribute byte's three unwired bits read back as zero.
    pub fn read_oam_data(&self) -> (value: u8)
        ensures
            value == self@.oam_data(),
    {
        let value = self.oam[self.oam_addr as usize];
        let address = self.oam_addr;
        assert(address & 3 == address % 4) by (bit_vector);
        if self.oam_addr & 3 == 2 {
            value & 0xE3
        } else {
            value
        }
    }

    /// A write to PPUADDR ($2006): half of an address, the big half on the
    /// first knock and the little half on the second. Both land in `t`, and
    /// the second knock copies the whole of `t` into `v`.
    pub fn write_address(&mut self, value: u8)
        ensures
            final(self)@ == old(self)@.address_written(value),
            old(self)@.wf() ==> final(self)@.wf(),
    {
        proof {
            lemma_address_registers(self.t, value as u16);
        }
        if self.w {
            self.t = (self.t & 0xFF00u16) | value as u16;
            self.v = self.t;
        } else {
            self.t = (self.t & 0x00FFu16) | (((value & 0x3F) as u16) << 8);
        }
        self.w = !self.w;
    }

    /// The address the data port is aimed at.
    pub fn data_address(&self) -> (address: u16)
        ensures
            address == self@.data_address(),
            address < 0x4000,
    {
        proof {
            lemma_address_registers(self.v, 0);
        }
        self.v & 0x3FFF
    }

    /// How the board wires the name RAM, as the board now says.
    pub fn set_mirroring(&mut self, mirroring: Mirroring)
        ensures
            final(self)@ == (PpuState { mirroring, ..old(self)@ }),
            old(self)@.wf() ==> final(self)@.wf(),
    {
        self.mirroring = mirroring;
    }

    /// Fold a nametable address onto the two real rooms of name RAM.
    pub fn mirror(&self, address: u16) -> (index: usize)
        ensures
            index == mirrored(self.mirroring, address as int),
            index < 2048,
    {
        let index: usize = address as usize % 0x1000;
        let name: usize = index / 0x400;
        let room: usize = match self.mirroring {
            Mirroring::Vertical => name % 2,
            Mirroring::Horizontal => name / 2,
            Mirroring::SingleLow => 0,
            Mirroring::SingleHigh => 1,
        };
        room * 0x400 + index % 0x400
    }

    /// Which palette cell an address names.
    pub fn palette_index(address: u16) -> (index: usize)
        ensures
            index == palette_cell(address as int),
            index < 32,
    {
        let index: usize = address as usize % 32;
        if index >= 0x10 && index % 4 == 0 {
            index - 0x10
        } else {
            index
        }
    }

    /// A write to PPUDATA ($2007): one byte into the chip's memory, wherever
    /// the address points, which then walks forward on its own.
    pub fn write_data(&mut self, value: u8)
        ensures
            final(self)@ == old(self)@.data_written(value),
            old(self)@.wf() ==> final(self)@.wf(),
    {
        let address = self.data_address();
        if address < 0x2000 {
            // Pattern tables are the cartridge's: the write bounces off.
        } else if address < 0x3F00 {
            let index = self.mirror(address);
            self.vram[index] = value;
        } else {
            self.palette_ram[Self::palette_index(address)] = value;
        }
        self.step_address();
    }

    /// The walk every PPUDATA access ends with: one byte, or 32, a screen
    /// row down, when PPUCTRL asks for column order.
    pub fn step_address(&mut self)
        ensures
            final(self)@ == old(self)@.stepped(),
            old(self)@.wf() ==> final(self)@.wf(),
    {
        let step: u16 = if self.ctrl & 0b0000_0100 != 0 {
            32
        } else {
            1
        };
        self.v = self.v.wrapping_add(step);
    }

    /// A read of PPUSTATUS ($2002): vblank in the top bit. Looking clears
    /// the flag and resets the latch to expect a first knock.
    pub fn read_status(&mut self) -> (status: u8)
        ensures
            status == old(self)@.status(),
            final(self)@ == old(self)@.status_read(),
            old(self)@.wf() ==> final(self)@.wf(),
    {
        let mut status: u8 = 0;
        if self.vblank {
            status = status + 0x80;
        }
        if self.sprite_zero_hit {
            status = status + 0x40;
        }
        if self.sprite_overflow {
            status = status + 0x20;
        }
        self.vblank = false;
        self.w = false;
        status
    }

    /// A read of PPUDATA ($2007), through `chr`, the album in view. The byte
    /// arrives one read late, through the waiting room, and reading walks
    /// the address exactly as writing does.
    pub fn read_data<A: Album + ?Sized>(&mut self, chr: &A) -> (value: u8)
        requires
            old(self)@.data_address() < 0x2000 ==> old(self)@.data_address() < chr.bytes().len(),
        ensures
            value == old(self)@.read_buffer,
            final(self)@ == old(self)@.data_read(chr.bytes()[old(self)@.data_address()]),
            old(self)@.wf() ==> final(self)@.wf(),
    {
        let address = self.data_address();
        let value = self.read_buffer;
        if address < 0x2000 {
            self.read_buffer = chr.byte(address as usize);
        } else if address < 0x3F00 {
            self.read_buffer = self.vram[self.mirror(address)];
        } else {
            self.read_buffer = self.palette_ram[Self::palette_index(address)];
        }
        self.step_address();
        value
    }

    /// A write to one of the eight registers.
    pub fn write_register(&mut self, register: u16, value: u8)
        ensures
            final(self)@ == old(self)@.register_written(register as int, value),
            old(self)@.wf() ==> final(self)@.wf(),
    {
        proof {
            reveal(PpuState::register_written);
        }
        match register {
            0 => self.write_ctrl(value),
            1 => {
                self.mask = value;
            },
            3 => self.write_oam_address(value),
            4 => self.write_oam_data(value),
            5 => self.write_scroll(value),
            6 => self.write_address(value),
            7 => self.write_data(value),
            _ => {},
        }
    }

    /// A read of one of the eight registers, through `chr`, the album in
    /// view.
    pub fn read_register<A: Album + ?Sized>(&mut self, register: u16, chr: &A) -> (value: u8)
        requires
            old(self)@.data_address() < 0x2000 ==> old(self)@.data_address() < chr.bytes().len(),
        ensures
            value == old(self)@.register_answer(register as int),
            final(self)@ == old(self)@.register_read(
                register as int,
                chr.bytes()[old(self)@.data_address()],
            ),
            old(self)@.wf() ==> final(self)@.wf(),
    {
        proof {
            reveal(PpuState::register_answer);
            reveal(PpuState::register_read);
        }
        match register {
            2 => self.read_status(),
            4 => self.read_oam_data(),
            7 => self.read_data(chr),
            _ => 0,
        }
    }

    /// Rendering is on when the mask shows the background, the sprites, or
    /// both.
    pub fn rendering(&self) -> (on: bool)
        ensures
            on == self@.rendering(),
    {
        self.mask & 0b0001_1000 != 0
    }
}

/// Four names, two rooms: whichever way a board wires them, every address of
/// the nametables lands in one of the two rooms, at the same place in the
/// room, and its echo 4 KiB up lands with it.
pub proof fn law_names_fold_onto_two_rooms(mirroring: Mirroring, address: int)
    requires
        0 <= address,
    ensures
        0 <= mirrored(mirroring, address) < 2048,
        mirrored(mirroring, address) % 0x400 == address % 0x400,
        mirrored(mirroring, address + 0x1000) == mirrored(mirroring, address),
{
}

/// Vertical mirroring puts the rooms side by side: names 0 and 2 share one,
/// 1 and 3 the other. Horizontal mirroring stacks them: 0 and 1 share one,
/// 2 and 3 the other. Single-screen boards use one room for all four.
pub proof fn law_mirroring_shares_rooms(offset: int)
    requires
        0 <= offset < 0x400,
    ensures
        mirrored(Mirroring::Vertical, 0x2000 + offset) == mirrored(Mirroring::Vertical, 0x2800 + offset),
        mirrored(Mirroring::Vertical, 0x2400 + offset) == mirrored(Mirroring::Vertical, 0x2C00 + offset),
        mirrored(Mirroring::Vertical, 0x2000 + offset) != mirrored(Mirroring::Vertical, 0x2400 + offset),
        mirrored(Mirroring::Horizontal, 0x2000 + offset) == mirrored(
            Mirroring::Horizontal,
            0x2400 + offset,
        ),
        mirrored(Mirroring::Horizontal, 0x2800 + offset) == mirrored(
            Mirroring::Horizontal,
            0x2C00 + offset,
        ),
        mirrored(Mirroring::Horizontal, 0x2000 + offset) != mirrored(
            Mirroring::Horizontal,
            0x2800 + offset,
        ),
        mirrored(Mirroring::SingleLow, 0x2000 + offset) == offset,
        mirrored(Mirroring::SingleHigh, 0x2000 + offset) == 0x400 + offset,
{
}

/// The crayon box folds: the sprites' four backdrop cells are the
/// background's, every other cell is its own, and the box repeats every 32.
pub proof fn law_crayon_box_folds(address: int)
    requires
        0 <= address,
    ensures
        0 <= palette_cell(address) < 32,
        palette_cell(address + 32) == palette_cell(address),
        address % 4 == 0 ==> palette_cell(address + 16) == palette_cell(address),
        address % 4 != 0 ==> palette_cell(address) == address % 32,
{
}

/// Looking at the status takes the vblank flag and resets the latch, and a
/// second look finds the same without it.
pub proof fn law_looking_takes_the_flag(ppu: PpuState)
    ensures
        ppu.status_read().status() == ppu.status() - (if ppu.vblank {
            128int
        } else {
            0
        }),
        !ppu.status_read().w,
        ppu.status_read().status_read() == ppu.status_read(),
{
}

/// The address arrives big half first: after a look at the status, whatever
/// knocks came before, two knocks aim the data port, and only the second
/// applies.
pub proof fn law_two_knocks_aim_the_port(ppu: PpuState, high: u8, low: u8)
    ensures
        ({
            let fresh = ppu.status_read();
            let once = fresh.address_written(high);
            let twice = once.address_written(low);
            &&& once.v == ppu.v
            &&& once.w
            &&& twice.v == high % 64 * 0x100 + low
            &&& twice.data_address() == high % 64 * 0x100 + low
            &&& !twice.w
        }),
{
    let staged = (ppu.t % 0x100 + high % 64 * 0x100) as u16;
    assert(staged % 0x100 == ppu.t % 0x100);
}

/// A camera write stages and does not apply: the first knock sets the pixel
/// and the tile column, the second the pixel row and the tile row, and the
/// address in use stays where it was, with the nametable's name.
pub proof fn law_camera_is_staged(ppu: PpuState, x: u8, y: u8)
    requires
        !ppu.w,
    ensures
        ({
            let aimed = ppu.scroll_written(x).scroll_written(y);
            &&& aimed.v == ppu.v
            &&& aimed.x == x % 8
            &&& coarse_x(aimed.t) == x / 8
            &&& coarse_y(aimed.t) == y / 8
            &&& fine_y(aimed.t) == y % 8
            &&& name_x(aimed.t) == name_x(ppu.t)
            &&& name_y(aimed.t) == name_y(ppu.t)
            &&& !aimed.w
        }),
{
    lemma_camera_fields(ppu.t, x as u16, y as u16);
}

proof fn lemma_camera_fields(t: u16, x: u16, y: u16)
    by (bit_vector)
    requires
        x < 0x100,
        y < 0x100,
    ensures
        ({
            let staged = with_fine_y(with_coarse_y(with_coarse_x(t, x / 8), y / 8), y % 8);
            &&& coarse_x(staged) == x / 8
            &&& coarse_y(staged) == y / 8
            &&& fine_y(staged) == y % 8
            &&& name_x(staged) == name_x(t)
            &&& name_y(staged) == name_y(t)
        }),
{
}

/// A settings write stages the nametable that its bottom two bits name, and
/// nothing else of the camera.
pub proof fn law_settings_stage_the_name(ppu: PpuState, value: u8)
    ensures
        ({
            let told = ppu.ctrl_written(value);
            &&& name_x(told.t) == value % 2
            &&& name_y(told.t) == value / 2 % 2
            &&& coarse_x(told.t) == coarse_x(ppu.t)
            &&& coarse_y(told.t) == coarse_y(ppu.t)
            &&& fine_y(told.t) == fine_y(ppu.t)
            &&& told.v == ppu.v
        }),
{
    lemma_name_fields(ppu.t, value as u16);
}

proof fn lemma_name_fields(t: u16, value: u16)
    by (bit_vector)
    ensures
        ({
            let staged = with_name_y(with_name_x(t, value % 2), value / 2 % 2);
            &&& name_x(staged) == value % 2
            &&& name_y(staged) == value / 2 % 2
            &&& coarse_x(staged) == coarse_x(t)
            &&& coarse_y(staged) == coarse_y(t)
            &&& fine_y(staged) == fine_y(t)
        }),
{
}

/// What the data port writes it reads back, one read late: aimed at the same
/// place again, the byte is in the waiting room after one read. That holds
/// of the nametables and of the palettes; pattern space is the cartridge's.
pub proof fn law_data_reads_back_one_late(ppu: PpuState, value: u8, pattern: u8)
    requires
        ppu.wf(),
        ppu.data_address() >= 0x2000,
    ensures
        ({
            let again = PpuState { v: ppu.v, ..ppu.data_written(value) };
            &&& again.data_read(pattern).read_buffer == value
            &&& ppu.data_written(value).read_buffer == ppu.read_buffer
        }),
{
    law_names_fold_onto_two_rooms(ppu.mirroring, ppu.data_address());
    law_crayon_box_folds(ppu.data_address());
}

/// Reading walks the address exactly as writing does, and touches no memory.
pub proof fn law_reading_walks_like_writing(ppu: PpuState, value: u8, pattern: u8)
    ensures
        ppu.data_read(pattern).v == ppu.data_written(value).v,
        ppu.data_read(pattern).vram == ppu.vram,
        ppu.data_read(pattern).palette_ram == ppu.palette_ram,
{
}

/// The roster's door keeps what is written through it: aimed there again, a
/// byte reads back whole, but for an attribute byte's three unwired bits.
pub proof fn law_roster_door_reads_back(ppu: PpuState, value: u8)
    requires
        ppu.wf(),
    ensures
        ({
            let again = PpuState { oam_addr: ppu.oam_addr, ..ppu.oam_written(value) };
            again.oam_data() == if ppu.oam_addr % 4 == 2 {
                value & 0b1110_0011
            } else {
                value
            }
        }),
        ppu.oam_written(value).oam_addr == (ppu.oam_addr + 1) % 256,
{
}

/// Which room each of the four names is in, whichever way they are wired, and
/// where in it.
pub proof fn law_rooms_of_the_names(offset: int)
    requires
        0 <= offset < 0x400,
    ensures
        mirrored(Mirroring::Vertical, 0x2000 + offset) == offset,
        mirrored(Mirroring::Vertical, 0x2400 + offset) == 0x400 + offset,
        mirrored(Mirroring::Vertical, 0x2800 + offset) == offset,
        mirrored(Mirroring::Vertical, 0x2C00 + offset) == 0x400 + offset,
        mirrored(Mirroring::Horizontal, 0x2000 + offset) == offset,
        mirrored(Mirroring::Horizontal, 0x2400 + offset) == offset,
        mirrored(Mirroring::Horizontal, 0x2800 + offset) == 0x400 + offset,
        mirrored(Mirroring::Horizontal, 0x2C00 + offset) == 0x400 + offset,
        mirrored(Mirroring::SingleLow, 0x2400 + offset) == offset,
        mirrored(Mirroring::SingleLow, 0x2800 + offset) == offset,
        mirrored(Mirroring::SingleLow, 0x2C00 + offset) == offset,
        mirrored(Mirroring::SingleHigh, 0x2400 + offset) == 0x400 + offset,
        mirrored(Mirroring::SingleHigh, 0x2800 + offset) == 0x400 + offset,
        mirrored(Mirroring::SingleHigh, 0x2C00 + offset) == 0x400 + offset,
{
}

/// Which cell of the crayon box each palette address names.
pub proof fn law_cells_of_the_box(address: int)
    requires
        0 <= address,
    ensures
        palette_cell(address) == if address % 32 == 16 || address % 32 == 20 || address % 32 == 24 || address % 32
            == 28 {
            address % 32 - 16
        } else {
            address % 32
        },
{
}

proof fn lemma_staged_bits(t: u16, value: u16)
    by (bit_vector)
    requires
        value < 0x100,
    ensures
        ({
            let name = with_name_y(with_name_x(t, value % 2), value / 2 % 2);
            &&& name % 1024 == t % 1024
            &&& name / 1024 % 4 == value % 4
            &&& name / 4096 == t / 4096
        }),
        ({
            let across = with_coarse_x(t, value / 8);
            &&& across % 32 == value / 8
            &&& across / 32 == t / 32
        }),
        ({
            let down = with_fine_y(with_coarse_y(t, value / 8), value % 8);
            &&& down % 32 == t % 32
            &&& down / 32 % 32 == value / 8
            &&& down / 1024 % 4 == t / 1024 % 4
            &&& down / 4096 % 8 == value % 8
            &&& down / 32768 == t / 32768
        }),
        with_low_byte(t, value) == t / 256 * 256 + value,
{
}

/// The settings, the mask, and the roster's address: registers 0, 1 and 3
/// keep the byte; 0 also stages the nametable in bits 10 and 11; nothing else
/// changes, and register 2 hears nothing.
pub proof fn law_settings_registers(ppu: PpuState, value: u8)
    ensures
        ({
            let after = ppu.register_written(0, value);
            &&& after.ctrl == value
            &&& after.t % 1024 == ppu.t % 1024
            &&& after.t / 1024 % 4 == value % 4
            &&& after.t / 4096 == ppu.t / 4096
            &&& after == (PpuState { ctrl: after.ctrl, t: after.t, ..ppu })
        }),
        ppu.register_written(1, value) == (PpuState { mask: value, ..ppu }),
        ppu.register_written(2, value) == ppu,
        ppu.register_written(3, value) == (PpuState { oam_addr: value, ..ppu }),
        ppu.register_written(4, value) == (PpuState {
            oam: ppu.oam.update(ppu.oam_addr as int, value),
            oam_addr: ((ppu.oam_addr + 1) % 256) as u8,
            ..ppu
        }),
{
    reveal(PpuState::register_written);
    lemma_staged_bits(ppu.t, value as u16);
}

/// The camera, register 5: the first knock sets fine X and the tile column,
/// bits 0 to 4; the second fine Y, bits 12 to 14, and the tile row, bits 5 to
/// 9; and nothing else changes but the latch.
pub proof fn law_camera_register(ppu: PpuState, value: u8)
    ensures
        ({
            let after = ppu.register_written(5, value);
            &&& !ppu.w ==> {
                &&& after.x == value % 8
                &&& after.t % 32 == value / 8
                &&& after.t / 32 == ppu.t / 32
                &&& after.w
            }
            &&& ppu.w ==> {
                &&& after.x == ppu.x
                &&& after.t % 32 == ppu.t % 32
                &&& after.t / 32 % 32 == value / 8
                &&& after.t / 1024 % 4 == ppu.t / 1024 % 4
                &&& after.t / 4096 % 8 == value % 8
                &&& after.t / 32768 == ppu.t / 32768
                &&& !after.w
            }
            &&& after == (PpuState { x: after.x, t: after.t, w: after.w, ..ppu })
        }),
{
    reveal(PpuState::register_written);
    lemma_staged_bits(ppu.t, value as u16);
}

/// The address, register 6: the first knock replaces everything above the low
/// byte by six bits, the second replaces the low byte and puts the whole to
/// use.
pub proof fn law_address_register(ppu: PpuState, value: u8)
    ensures
        ({
            let after = ppu.register_written(6, value);
            &&& !ppu.w ==> after == (PpuState {
                t: (value % 64 * 256 + ppu.t % 256) as u16,
                w: true,
                ..ppu
            })
            &&& ppu.w ==> after.t == ppu.t / 256 * 256 + value && after.v == after.t && after == (PpuState {
                t: after.t,
                v: after.t,
                w: false,
                ..ppu
            })
        }),
{
    reveal(PpuState::register_written);
    lemma_staged_bits(ppu.t, value as u16);
}

/// The data port, register 7, written: below $2000 nothing is kept, below
/// $3F00 a byte of name RAM, and above it a cell of the crayon box; and the
/// address walks 1 or, with bit 2 of the settings, 32.
pub proof fn law_data_port_keeps(ppu: PpuState, value: u8)
    ensures
        ({
            let after = ppu.register_written(7, value);
            let address = ppu.v as int % 0x4000;
            let step = if ppu.ctrl & 0b0000_0100 != 0 {
                32int
            } else {
                1
            };
            &&& after.v == (ppu.v + step) % 0x10000
            &&& after.vram == if 0x2000 <= address < 0x3F00 {
                ppu.vram.update(mirrored(ppu.mirroring, address), value)
            } else {
                ppu.vram
            }
            &&& after.palette_ram == if address >= 0x3F00 {
                ppu.palette_ram.update(palette_cell(address), value)
            } else {
                ppu.palette_ram
            }
            &&& after == (PpuState { v: after.v, vram: after.vram, palette_ram: after.palette_ram, ..ppu })
        }),
{
    reveal(PpuState::register_written);
}

/// What the registers answer, and what looking at them changes: 2 the status,
/// whose top bit and whose latch fall; 4 the roster's byte, an attribute byte
/// without bits 2 to 4; 7 what was waiting, while the byte at the address
/// takes its place and the address walks; the others nothing.
pub proof fn law_registers_answer(ppu: PpuState, register: int, pattern: u8)
    requires
        0 <= register < 8,
    ensures
        ({
            let answer = ppu.register_answer(register);
            let after = ppu.register_read(register, pattern);
            let address = ppu.v as int % 0x4000;
            let step = if ppu.ctrl & 0b0000_0100 != 0 {
                32int
            } else {
                1
            };
            &&& register == 2 ==> (answer / 128 == 1 <==> ppu.vblank)
            &&& register == 2 ==> (answer / 64 % 2 == 1 <==> ppu.sprite_zero_hit)
            &&& register == 2 ==> (answer / 32 % 2 == 1 <==> ppu.sprite_overflow)
            &&& register == 2 ==> answer % 32 == 0
            &&& register == 2 ==> after == (PpuState { vblank: false, w: false, ..ppu })
            &&& register == 4 ==> answer == if ppu.oam_addr % 4 == 2 {
                ppu.oam[ppu.oam_addr as int] & 0b1110_0011
            } else {
                ppu.oam[ppu.oam_addr as int]
            }
            &&& register == 7 ==> answer == ppu.read_buffer
            &&& register == 7 ==> after.v == (ppu.v + step) % 0x10000
            &&& register == 7 ==> after.read_buffer == if address < 0x2000 {
                pattern
            } else if address < 0x3F00 {
                ppu.vram[mirrored(ppu.mirroring, address)]
            } else {
                ppu.palette_ram[palette_cell(address)]
            }
            &&& register == 7 ==> after == (PpuState { v: after.v, read_buffer: after.read_buffer, ..ppu })
            &&& register != 2 && register != 4 && register != 7 ==> answer == 0
            &&& register != 2 && register != 7 ==> after == ppu
        }),
{
    reveal(PpuState::register_answer);
    reveal(PpuState::register_read);
}

/// A picture chip just powered on: every memory zero, every register and
/// flag clear, nobody on the line, the colors it was given, and the name RAM
/// wired as asked.
pub proof fn law_picture_powers_on_clear(vertical: bool, colors: Seq<u32>, i: int)
    ensures
        ({
            let ppu = PpuState::powered(vertical, colors);
            &&& ppu.vram.len() == 2048 && ppu.palette_ram.len() == 32 && ppu.oam.len() == 256
                && ppu.frame.len() == 256 * 240
            &&& 0 <= i < 2048 ==> ppu.vram[i] == 0
            &&& 0 <= i < 32 ==> ppu.palette_ram[i] == 0
            &&& 0 <= i < 256 ==> ppu.oam[i] == 0
            &&& 0 <= i < 256 * 240 ==> ppu.frame[i] == 0
            &&& ppu.colors == colors
            &&& ppu.ctrl == 0 && ppu.mask == 0 && ppu.oam_addr == 0 && ppu.read_buffer == 0
            &&& ppu.v == 0 && ppu.t == 0 && ppu.x == 0 && !ppu.w
            &&& ppu.shift_low == 0 && ppu.shift_high == 0 && ppu.attr_low == 0 && ppu.attr_high == 0
            &&& ppu.next_pattern_low == 0 && ppu.next_pattern_high == 0 && ppu.next_attr == 0
            &&& !ppu.vblank && !ppu.sprite_zero_hit && !ppu.sprite_overflow
            &&& ppu.line_sprites.len() == 0
            &&& vertical ==> ppu.mirroring == Mirroring::Vertical
            &&& !vertical ==> ppu.mirroring == Mirroring::Horizontal
        }),
{
}

} // verus!
