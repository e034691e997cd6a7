//! The bus: the wiring that decides which chip answers each address.

use vstd::prelude::*;

use crate::apu::Apu;
use crate::cartridge::{Cartridge, CartridgeState};
use crate::clock::Clock;
use crate::controller::Controller;
use crate::ppu::{Ppu, PpuState, COLORS};

verus! {

/// Everything on the far side of the processor's read and write lines.
pub struct Bus {
    /// Cycles a transfer stole from the processor, waiting to be billed.
    pub dma_stall: u64,
    /// A $4014 write happened: the bill of 513 or 514 cycles is the
    /// processor's to compute, since only it knows the cycle parity.
    pub oam_dma_started: bool,
    /// The instruction cycle where a sampler fetch was billed full.
    pub dmc_full_bill_at: Option<u64>,
    /// The two halves of the controller-bit steal: the port was read this
    /// instruction; a sampler fetch landed this instruction.
    pub read_4016_this_instruction: bool,
    pub dmc_fetched_this_instruction: bool,
    /// The console's own RAM: two kibibytes.
    pub ram: [u8; 2048],
    /// The game, occupying the top half of the address space.
    pub cartridge: Cartridge,
    /// The picture chip, reachable through its eight registers.
    pub ppu: Ppu,
    /// The first controller port.
    pub controller: Controller,
    /// The sound chip.
    pub apu: Apu,
    /// The metronome: where the beam is, dot by dot.
    pub clock: Clock,
    /// The interrupt-request line: any device on the bus may hold it high.
    pub irq_line: bool,
}

/// A [`Bus`] as a mathematical value.
pub ghost struct BusState {
    pub dma_stall: u64,
    pub oam_dma_started: bool,
    pub dmc_full_bill_at: Option<u64>,
    pub read_4016_this_instruction: bool,
    pub dmc_fetched_this_instruction: bool,
    pub ram: Seq<u8>,
    pub cartridge: CartridgeState,
    pub ppu: PpuState,
    pub controller: Controller,
    pub apu: Apu,
    pub clock: Clock,
    pub irq_line: bool,
}

impl View for Bus {
    type V = BusState;

    #[verifier::opaque]
    open spec fn view(&self) -> BusState {
        BusState {
            dma_stall: self.dma_stall,
            oam_dma_started: self.oam_dma_started,
            dmc_full_bill_at: self.dmc_full_bill_at,
            read_4016_this_instruction: self.read_4016_this_instruction,
            dmc_fetched_this_instruction: self.dmc_fetched_this_instruction,
            ram: self.ram@,
            cartridge: self.cartridge@,
            ppu: self.ppu@,
            controller: self.controller,
            apu: self.apu,
            clock: self.clock,
            irq_line: self.irq_line,
        }
    }
}

impl BusState {
    /// Every chip in order, and a cartridge that fits.
    #[verifier::opaque]
    pub open spec fn in_order(self) -> bool {
        &&& self.ram.len() == 2048
        &&& self.cartridge.fits()
        &&& self.ppu.wf()
        &&& self.apu.wf()
        &&& self.clock.wf()
    }

    /// Every chip in order, and a cartridge that a machine can play.
    pub open spec fn wf(self) -> bool {
        self.in_order() && self.cartridge.has_program()
    }

    /// A bus just wired around a cartridge.
    pub open spec fn wired(cartridge: CartridgeState, colors: Seq<u32>) -> BusState {
        BusState {
            dma_stall: 0,
            oam_dma_started: false,
            dmc_full_bill_at: None,
            read_4016_this_instruction: false,
            dmc_fetched_this_instruction: false,
            ram: Seq::new(2048, |i: int| 0u8),
            ppu: PpuState::powered(cartridge.vertical_mirroring, colors),
            controller: Controller { buttons: 0, snapshot: 0, strobe: false, index: 0 },
            apu: Apu::idle(),
            clock: Clock { dot: 0, scanline: 0, frame: 0 },
            irq_line: false,
            cartridge,
        }
    }

    /// The pad as a read of its port finds it: a sampler fetch that landed
    /// earlier in the instruction has taken one bit already.
    pub open spec fn pad(self) -> Controller {
        if self.dmc_fetched_this_instruction {
            self.controller.read_once()
        } else {
            self.controller
        }
    }

    /// The byte that answers at an address.
    #[verifier::opaque]
    pub open spec fn answer(self, address: int) -> u8 {
        if address < 0x2000 {
            self.ram[address % 2048]
        } else if address < 0x4000 {
            self.ppu.register_answer(address % 8)
        } else if address == 0x4015 {
            self.apu.status() as u8
        } else if address == 0x4016 {
            self.pad().answer()
        } else if address < 0x6000 {
            0
        } else if address < 0x8000 {
            self.cartridge.prg_ram[address - 0x6000]
        } else {
            self.cartridge.prg_byte(address)
        }
    }

    /// What a read changes. Memory does not notice being looked at, and
    /// neither do most registers; four of them do.
    #[verifier::opaque]
    pub open spec fn after_read(self, address: int) -> BusState {
        if 0x2000 <= address < 0x4000 {
            BusState {
                ppu: self.ppu.register_read(
                    address % 8,
                    self.cartridge.album()[self.ppu.data_address()],
                ),
                ..self
            }
        } else if address == 0x4015 {
            BusState { apu: self.apu.status_read(), ..self }
        } else if address == 0x4016 {
            BusState {
                controller: self.pad().read_once(),
                read_4016_this_instruction: true,
                ..self
            }
        } else {
            self
        }
    }

    /// One byte of a page streamed into the sprite roster.
    pub open spec fn streamed_one(self, address: int) -> BusState {
        let read = self.after_read(address);
        BusState { ppu: read.ppu.oam_written(self.answer(address)), ..read }
    }

    /// The first `bytes` bytes of a page streamed into the sprite roster.
    pub open spec fn streamed(self, page: int, bytes: nat) -> BusState
        decreases bytes,
    {
        if bytes == 0 {
            self
        } else {
            self.streamed(page, (bytes - 1) as nat).streamed_one(page * 256 + bytes - 1)
        }
    }

    /// A write to one of the picture chip's eight registers. Pattern space
    /// lives on the cartridge: a data-port write aimed below $2000 reaches
    /// the board, and the port steps on as ever.
    pub open spec fn register_written(self, register: int, value: u8) -> BusState {
        BusState {
            cartridge: if register == 7 && self.ppu.data_address() < 0x2000 {
                self.cartridge.chr_written(self.ppu.data_address(), value)
            } else {
                self.cartridge
            },
            ppu: self.ppu.register_written(register, value),
            ..self
        }
    }

    /// A write into the top half: the board's latches take it, and the
    /// picture chip hears how the name RAM is wired now.
    pub open spec fn board_written(self, address: int, value: u8) -> BusState {
        let cartridge = self.cartridge.prg_written(address, value);
        BusState {
            ppu: PpuState { mirroring: cartridge.mirroring(), ..self.ppu },
            cartridge,
            ..self
        }
    }

    /// One address in, one byte delivered to whoever lives there.
    #[verifier::opaque]
    pub open spec fn written(self, address: int, value: u8) -> BusState {
        if address < 0x2000 {
            BusState { ram: self.ram.update(address % 2048, value), ..self }
        } else if address < 0x4000 {
            self.register_written(address % 8, value)
        } else if address == 0x4014 {
            BusState { oam_dma_started: true, ..self.streamed(value as int, 256) }
        } else if address == 0x4016 {
            BusState { controller: self.controller.written(value), ..self }
        } else if address <= 0x4017 {
            BusState { apu: self.apu.written(address as u16, value), ..self }
        } else if address < 0x6000 {
            self
        } else if address < 0x8000 {
            BusState {
                cartridge: CartridgeState {
                    prg_ram: self.cartridge.prg_ram.update(address - 0x6000, value),
                    ..self.cartridge
                },
                ..self
            }
        } else {
            self.board_written(address, value)
        }
    }
}

impl Bus {
    /// Wire a bus around a cartridge. `colors` is the picture chip's
    /// palette.
    pub fn new(cartridge: Cartridge, colors: Vec<u32>) -> (bus: Bus)
        requires
            colors@.len() == COLORS,
        ensures
            bus@ == BusState::wired(cartridge@, colors@),
            cartridge@.fits() ==> bus@.in_order(),
    {
        proof {
            reveal(<Bus as View>::view);
            reveal(BusState::in_order);
        }
        let bus = Bus {
            dma_stall: 0,
            oam_dma_started: false,
            dmc_full_bill_at: None,
            read_4016_this_instruction: false,
            dmc_fetched_this_instruction: false,
            ram: [0; 2048],
            ppu: Ppu::new(cartridge.vertical_mirroring, colors),
            controller: Controller::new(),
            apu: Apu::new(),
            clock: Clock::new(),
            irq_line: false,
            cartridge,
        };
        assert(bus@.ram =~= BusState::wired(cartridge@, colors@).ram);
        bus
    }

    /// One address in, one byte out, from whichever chip lives there. Some
    /// registers change when looked at.
    pub fn read(&mut self, address: u16) -> (value: u8)
        requires
            old(self)@.in_order(),
            address >= 0x8000 ==> old(self)@.cartridge.has_program(),
        ensures
            value == old(self)@.answer(address as int),
            final(self)@ == old(self)@.after_read(address as int),
            final(self)@.in_order(),
            final(self)@.cartridge.prg_rom == old(self)@.cartridge.prg_rom,
            final(self).clock == old(self).clock,
            final(self).apu.frame.cycle == old(self).apu.frame.cycle,
            final(self).dma_stall == old(self).dma_stall,
    {
        proof {
            reveal(<Bus as View>::view);
            reveal(BusState::in_order);
            reveal(BusState::answer);
            reveal(BusState::after_read);
        }
        match address {
            // The console's RAM, and its three echoes: the board only
            // decodes enough address wires to tell 2 KiB apart.
            0x0000..=0x1FFF => self.ram[address as usize % 2048],
            // The picture chip's eight registers, echoed every eight bytes
            // to the top of the range.
            0x2000..=0x3FFF => self.read_register(address % 8),
            // The sound chip's one readable register.
            0x4015 => self.apu.read_status(),
            0x4016 => self.read_pad(),
            // Write-only registers, the second controller port, and the
            // territory that boards leave unwired. Nobody.
            0x4000..=0x5FFF => 0,
            // The pocket on the board.
            0x6000..=0x7FFF => self.cartridge.prg_ram[address as usize - 0x6000],
            // The cartridge's program ROM.
            0x8000..=0xFFFF => self.cartridge.read_prg(address),
        }
    }

    /// A read of one of the picture chip's eight registers.
    fn read_register(&mut self, register: u16) -> (value: u8)
        requires
            old(self)@.in_order(),
        ensures
            value == old(self)@.ppu.register_answer(register as int),
            final(self)@ == (BusState {
                ppu: old(self)@.ppu.register_read(
                    register as int,
                    old(self)@.cartridge.album()[old(self)@.ppu.data_address()],
                ),
                ..old(self)@
            }),
            final(self)@.in_order(),
            final(self)@.cartridge.prg_rom == old(self)@.cartridge.prg_rom,
    {
        proof {
            reveal(<Bus as View>::view);
            reveal(BusState::in_order);
        }
        self.ppu.read_register(register, &self.cartridge)
    }

    /// A read of the controller port. A sampler fetch that landed earlier in
    /// this very instruction re-clocked it: the bit it read is gone before
    /// the program looks.
    fn read_pad(&mut self) -> (bit: u8)
        ensures
            bit == old(self)@.pad().answer(),
            final(self)@ == (BusState {
                controller: old(self)@.pad().read_once(),
                read_4016_this_instruction: true,
                ..old(self)@
            }),
            old(self)@.in_order() ==> final(self)@.in_order(),
            final(self)@.cartridge.prg_rom == old(self)@.cartridge.prg_rom,
    {
        proof {
            reveal(<Bus as View>::view);
            reveal(BusState::in_order);
        }
        if self.dmc_fetched_this_instruction {
            self.controller.read();
        }
        self.read_4016_this_instruction = true;
        self.controller.read()
    }

    /// One address in, one byte delivered.
    #[verifier::rlimit(30)]
    pub fn write(&mut self, address: u16, value: u8)
        requires
            old(self)@.in_order(),
            address == 0x4014 && value >= 0x80 ==> old(self)@.cartridge.has_program(),
        ensures
            final(self)@ == old(self)@.written(address as int, value),
            final(self)@.in_order(),
            final(self)@.cartridge.prg_rom == old(self)@.cartridge.prg_rom,
            final(self).clock == old(self).clock,
            final(self).apu.frame.cycle == old(self).apu.frame.cycle,
            final(self).dma_stall == old(self).dma_stall,
    {
        proof {
            reveal(<Bus as View>::view);
            reveal(BusState::in_order);
            reveal(BusState::written);
        }
        match address {
            0x0000..=0x1FFF => {
                self.ram[address as usize % 2048] = value;
            },
            0x2000..=0x3FFF => self.write_register(address % 8, value),
            // Sprite memory's fast lane.
            0x4014 => {
                self.stream_page(value);
                self.oam_dma_started = true;
            },
            // The controller's strobe line.
            0x4016 => self.controller.write(value),
            // Everything else on the sound chip's page.
            0x4000..=0x4017 => self.apu.write(address, value),
            // Nobody listening.
            0x4018..=0x5FFF => {},
            // The pocket accepts ink too.
            0x6000..=0x7FFF => {
                self.cartridge.prg_ram[address as usize - 0x6000] = value;
            },
            // ROM territory belongs to the board.
            0x8000..=0xFFFF => self.write_board(address, value),
        }
    }

    /// A write into ROM territory reaches the board's latches, and the board
    /// may have rewired the name RAM by the time it is done, so the picture
    /// chip gets the news.
    fn write_board(&mut self, address: u16, value: u8)
        requires
            old(self)@.in_order(),
        ensures
            final(self)@ == old(self)@.board_written(address as int, value),
            final(self)@.in_order(),
            final(self)@.cartridge.prg_rom == old(self)@.cartridge.prg_rom,
    {
        proof {
            reveal(<Bus as View>::view);
            reveal(BusState::in_order);
        }
        self.cartridge.write_prg(address, value);
        self.ppu.set_mirroring(self.cartridge.mirroring());
    }

    /// A write to one of the picture chip's eight registers.
    fn write_register(&mut self, register: u16, value: u8)
        requires
            old(self)@.in_order(),
        ensures
            final(self)@ == old(self)@.register_written(register as int, value),
            final(self)@.in_order(),
            final(self)@.cartridge.prg_rom == old(self)@.cartridge.prg_rom,
    {
        proof {
            reveal(<Bus as View>::view);
            reveal(BusState::in_order);
        }
        if register == 7 {
            let address = self.ppu.data_address();
            if address < 0x2000 {
                self.cartridge.write_chr(address, value);
            }
        }
        self.ppu.write_register(register, value);
    }

    /// Stream a whole 256-byte page into sprite memory, through the same
    /// door that single bytes use.
    fn stream_page(&mut self, page: u8)
        requires
            old(self)@.in_order(),
            page >= 0x80 ==> old(self)@.cartridge.has_program(),
        ensures
            final(self)@ == old(self)@.streamed(page as int, 256),
            final(self)@.in_order(),
            final(self)@.cartridge.prg_rom == old(self)@.cartridge.prg_rom,
            final(self).clock == old(self).clock,
            final(self).apu.frame.cycle == old(self).apu.frame.cycle,
            final(self).dma_stall == old(self).dma_stall,
    {
        proof {
            reveal(<Bus as View>::view);
            reveal(BusState::in_order);
        }
        let base: u16 = page as u16 * 256;
        let mut offset: u16 = 0;
        while offset < 256
            invariant
                offset <= 256,
                base == page * 256,
                self@ == old(self)@.streamed(page as int, offset as nat),
                self@.in_order(),
                page >= 0x80 ==> self@.cartridge.has_program(),
                self@.cartridge.prg_rom == old(self)@.cartridge.prg_rom,
                self.clock == old(self).clock,
                self.apu.frame.cycle == old(self).apu.frame.cycle,
                self.dma_stall == old(self).dma_stall,
            decreases 256 - offset,
        {
            proof {
                reveal(<Bus as View>::view);
                reveal(BusState::in_order);
            }
            let byte = self.read(base + offset);
            self.ppu.write_oam_data(byte);
            offset = offset + 1;
        }
    }
}

/// RAM answers at each of its echoes: what is written at one address is read
/// at every address that folds onto it, and nowhere else in RAM.
pub proof fn law_ram_echoes(bus: BusState, address: int, value: u8, other: int)
    requires
        bus.in_order(),
        0 <= address < 0x2000,
        0 <= other < 0x2000,
    ensures
        bus.written(address, value).answer(other) == (if other % 2048 == address % 2048 {
            value
        } else {
            bus.answer(other)
        }),
{
    reveal(BusState::in_order);
    reveal(BusState::answer);
    reveal(BusState::written);
}

/// The picture chip's registers answer every eight bytes: addresses of their
/// range that agree on the low three bits are the same register.
pub proof fn law_registers_echo(bus: BusState, address: int, other: int, value: u8)
    requires
        0x2000 <= address < 0x4000,
        0x2000 <= other < 0x4000,
        address % 8 == other % 8,
    ensures
        bus.answer(other) == bus.answer(address),
        bus.after_read(other) == bus.after_read(address),
        bus.written(other, value) == bus.written(address, value),
{
    reveal(BusState::answer);
    reveal(BusState::after_read);
    reveal(BusState::written);
}

/// The pocket on the board keeps what is written into it.
pub proof fn law_pocket_keeps(bus: BusState, address: int, value: u8, other: int)
    requires
        bus.in_order(),
        0x6000 <= address < 0x8000,
        0x6000 <= other < 0x8000,
    ensures
        bus.written(address, value).answer(other) == (if other == address {
            value
        } else {
            bus.answer(other)
        }),
{
    reveal(BusState::in_order);
    reveal(BusState::answer);
    reveal(BusState::written);
}

/// Memory does not notice being looked at: a read outside the registers
/// changes nothing.
pub proof fn law_memory_reads_change_nothing(bus: BusState, address: int)
    requires
        0 <= address < 0x10000,
        !(0x2000 <= address < 0x4020),
    ensures
        bus.after_read(address) == bus,
{
    reveal(BusState::after_read);
}

proof fn lemma_reads_keep_the_board(bus: BusState, address: int)
    ensures
        bus.after_read(address).cartridge == bus.cartridge,
        bus.after_read(address).ram == bus.ram,
{
    reveal(BusState::after_read);
}

proof fn lemma_streams_keep_the_board(bus: BusState, page: int, bytes: nat)
    ensures
        bus.streamed(page, bytes).cartridge == bus.cartridge,
        bus.streamed(page, bytes).ram == bus.ram,
    decreases bytes,
{
    if bytes > 0 {
        lemma_streams_keep_the_board(bus, page, (bytes - 1) as nat);
        lemma_reads_keep_the_board(
            bus.streamed(page, (bytes - 1) as nat),
            page * 256 + bytes - 1,
        );
    }
}

/// ROM is ROM: no write anywhere changes a byte of the cartridge's program
/// or of its tile art.
pub proof fn law_rom_survives_every_write(bus: BusState, address: int, value: u8)
    ensures
        bus.written(address, value).cartridge.prg_rom == bus.cartridge.prg_rom,
        bus.written(address, value).cartridge.chr_rom == bus.cartridge.chr_rom,
{
    reveal(BusState::written);
    reveal(CartridgeState::prg_written);
    lemma_streams_keep_the_board(bus, value as int, 256);
}

/// The fast lane: a page of RAM, streamed, stands in the sprite roster byte
/// for byte, from wherever the roster's door was aimed and round to where it
/// began.
pub proof fn law_page_lands_in_the_roster(bus: BusState, page: u8, offset: int)
    requires
        bus.in_order(),
        page < 0x20,
        0 <= offset < 256,
    ensures
        ({
            let after = bus.written(0x4014, page);
            &&& after.ppu.oam[(bus.ppu.oam_addr + offset) % 256] == bus.answer(page * 256 + offset)
            &&& after.ppu.oam_addr == bus.ppu.oam_addr
            &&& after.oam_dma_started
        }),
{
    reveal(BusState::in_order);
    reveal(BusState::written);
    lemma_streamed_bytes(bus, page as int, 256, offset);
    lemma_streamed_one(bus, page * 256 + offset);
}

/// One byte of RAM, streamed.
proof fn lemma_streamed_one(bus: BusState, address: int)
    requires
        0 <= address < 0x2000,
    ensures
        bus.streamed_one(address) == (BusState {
            ppu: bus.ppu.oam_written(bus.ram[address % 2048]),
            ..bus
        }),
        bus.answer(address) == bus.ram[address % 2048],
{
    reveal(BusState::answer);
    reveal(BusState::after_read);
}

/// Two bytes of a page land in different places of the roster.
proof fn lemma_roster_places_differ(door: int, one: int, other: int)
    requires
        0 <= door < 256,
        0 <= one < other < 256,
    ensures
        (door + one) % 256 != (door + other) % 256,
        (door + other + 1) % 256 == ((door + other) % 256 + 1) % 256,
{
}

/// A page's first bytes, streamed.
#[verifier::rlimit(30)]
#[verifier::spinoff_prover]
proof fn lemma_streamed_bytes(bus: BusState, page: int, bytes: nat, offset: int)
    requires
        bus.ppu.oam.len() == 256,
        0 <= page < 0x20,
        bytes <= 256,
        0 <= offset < bytes,
    ensures
        ({
            let after = bus.streamed(page, bytes);
            &&& after.ram == bus.ram
            &&& after.ppu.oam.len() == 256
            &&& after.ppu.oam_addr == (bus.ppu.oam_addr + bytes) % 256
            &&& after.ppu.oam[(bus.ppu.oam_addr + offset) % 256] == bus.ram[(page * 256 + offset)
                % 2048]
        }),
    decreases bytes,
{
    let before = bus.streamed(page, (bytes - 1) as nat);
    if bytes > 1 {
        lemma_streamed_bytes(bus, page, (bytes - 1) as nat, 0);
        if offset < bytes - 1 {
            lemma_streamed_bytes(bus, page, (bytes - 1) as nat, offset);
        }
    }
    lemma_streamed_one(before, page * 256 + bytes - 1);
    if offset < bytes - 1 {
        lemma_roster_places_differ(bus.ppu.oam_addr as int, offset, bytes - 1);
    }
}

/// Who answers: RAM below $2000, the picture chip up to $3FFF, the sound
/// chip's status at $4015, the pad at $4016, the pocket from $6000, the
/// program from $8000, and nobody, with a zero, anywhere else.
pub proof fn law_each_address_has_its_chip(bus: BusState, address: int)
    requires
        0 <= address < 0x10000,
    ensures
        address < 0x2000 ==> bus.answer(address) == bus.ram[address % 0x800],
        0x2000 <= address < 0x4000 ==> bus.answer(address) == bus.ppu.register_answer(address % 8),
        address == 0x4015 ==> bus.answer(address) == bus.apu.status(),
        address == 0x4016 && !bus.dmc_fetched_this_instruction ==> bus.answer(address)
            == bus.controller.answer(),
        address == 0x4016 && bus.dmc_fetched_this_instruction ==> bus.answer(address)
            == bus.controller.read_once().answer(),
        0x4000 <= address < 0x6000 && address != 0x4015 && address != 0x4016 ==> bus.answer(address)
            == 0,
        0x6000 <= address < 0x8000 ==> bus.answer(address) == bus.cartridge.prg_ram[address
            - 0x6000],
        0x8000 <= address ==> bus.answer(address) == bus.cartridge.prg_byte(address),
{
    reveal(BusState::answer);
    reveal(Apu::status);
}

/// Who notices a read: the picture chip's registers, with the byte that the
/// album holds where the data port is aimed; the conductor, asked for the
/// status; and the pad, which moves on by one button, or by two where a
/// sampler fetch landed in the same instruction. Nobody else does.
pub proof fn law_who_notices_a_read(bus: BusState, address: int)
    requires
        0 <= address < 0x10000,
    ensures
        ({
            let after = bus.after_read(address);
            &&& after == (BusState {
                ppu: after.ppu,
                apu: after.apu,
                controller: after.controller,
                read_4016_this_instruction: after.read_4016_this_instruction,
                ..bus
            })
            &&& 0x2000 <= address < 0x4000 ==> after.ppu == bus.ppu.register_read(
                address % 8,
                bus.cartridge.album()[bus.ppu.v as int % 0x4000],
            )
            &&& !(0x2000 <= address < 0x4000) ==> after.ppu == bus.ppu
            &&& address == 0x4015 ==> after.apu == bus.apu.status_read()
            &&& address != 0x4015 ==> after.apu == bus.apu
            &&& address == 0x4016 ==> after.read_4016_this_instruction && after.controller == (
            if bus.dmc_fetched_this_instruction {
                bus.controller.read_once().read_once()
            } else {
                bus.controller.read_once()
            })
            &&& address != 0x4016 ==> after.controller == bus.controller
                && after.read_4016_this_instruction == bus.read_4016_this_instruction
        }),
{
    reveal(BusState::after_read);
}

/// Who hears a write, and that nobody else does: RAM, the picture chip, the
/// pad, the sound chip, the pocket, and the board.
pub proof fn law_who_hears_a_write(bus: BusState, address: int, value: u8)
    requires
        0 <= address < 0x10000,
        address != 0x4014,
    ensures
        ({
            let after = bus.written(address, value);
            &&& after == (BusState {
                ram: after.ram,
                ppu: after.ppu,
                apu: after.apu,
                controller: after.controller,
                cartridge: after.cartridge,
                ..bus
            })
            &&& after.ram == (if address < 0x2000 {
                bus.ram.update(address % 0x800, value)
            } else {
                bus.ram
            })
            &&& after.controller == (if address == 0x4016 {
                bus.controller.written(value)
            } else {
                bus.controller
            })
            &&& after.apu == (if 0x4000 <= address <= 0x4017 && address != 0x4016 {
                bus.apu.written(address as u16, value)
            } else {
                bus.apu
            })
            &&& 0x2000 <= address < 0x4000 ==> after.ppu == bus.ppu.register_written(
                address % 8,
                value,
            )
            &&& address < 0x2000 || 0x4000 <= address < 0x8000 ==> after.ppu == bus.ppu
            &&& 0x8000 <= address ==> after.ppu == (PpuState {
                mirroring: after.cartridge.mirroring(),
                ..bus.ppu
            })
        }),
{
    reveal(BusState::written);
}

/// What the cartridge hears: the pocket keeps the byte, the board's latches
/// take what is written above $8000, and the art takes what goes through the
/// data port while it is aimed below $2000.
pub proof fn law_what_the_cartridge_hears(bus: BusState, address: int, value: u8)
    requires
        0 <= address < 0x10000,
    ensures
        ({
            let before = bus.cartridge;
            let after = bus.written(address, value).cartridge;
            &&& 0x6000 <= address < 0x8000 ==> after == (CartridgeState {
                prg_ram: before.prg_ram.update(address - 0x6000, value),
                ..before
            })
            &&& 0x8000 <= address ==> after == before.prg_written(address, value)
            &&& 0x2000 <= address < 0x4000 && address % 8 == 7 && bus.ppu.v % 0x4000 < 0x2000
                ==> after == before.chr_written(bus.ppu.v as int % 0x4000, value)
            &&& 0x2000 <= address < 0x4000 && (address % 8 != 7 || bus.ppu.v % 0x4000 >= 0x2000)
                ==> after == before
            &&& address < 0x2000 || 0x4000 <= address < 0x6000 ==> after == before
        }),
{
    reveal(BusState::written);
    lemma_streams_keep_the_board(bus, value as int, 256);
}

/// The fast lane runs from any page of memory, the pocket's and the
/// program's too: the roster fills byte for byte, round from where its door
/// was aimed, and apart from the roster only the note that a transfer
/// started is new.
pub proof fn law_any_page_of_memory_lands(bus: BusState, page: u8, offset: int)
    requires
        bus.in_order(),
        page < 0x20 || page > 0x40,
        0 <= offset < 256,
    ensures
        ({
            let after = bus.written(0x4014, page);
            &&& after.ppu.oam[(bus.ppu.oam_addr + offset) % 256] == bus.answer(page * 256 + offset)
            &&& after.ppu == (PpuState { oam: after.ppu.oam, ..bus.ppu })
            &&& after == (BusState { oam_dma_started: true, ppu: after.ppu, ..bus })
        }),
{
    reveal(BusState::in_order);
    reveal(BusState::written);
    lemma_streamed_frame(bus, page as int, 256);
    lemma_streamed_memory(bus, page as int, 256, offset);
}

/// One byte of memory, streamed.
proof fn lemma_streamed_byte(bus: BusState, address: int)
    requires
        0 <= address < 0x2000 || 0x4100 <= address < 0x10000,
    ensures
        bus.streamed_one(address) == (BusState {
            ppu: bus.ppu.oam_written(bus.answer(address)),
            ..bus
        }),
{
    reveal(BusState::after_read);
}

/// What memory answers does not hang on the picture chip.
proof fn lemma_memory_ignores_the_picture(bus: BusState, ppu: PpuState, address: int)
    requires
        0 <= address < 0x2000 || 0x4100 <= address < 0x10000,
    ensures
        (BusState { ppu, ..bus }).answer(address) == bus.answer(address),
{
    reveal(BusState::answer);
}

/// Streaming a page of memory moves nothing but the roster and its door.
#[verifier::rlimit(40)]
#[verifier::spinoff_prover]
proof fn lemma_streamed_frame(bus: BusState, page: int, bytes: nat)
    requires
        bus.ppu.oam.len() == 256,
        0 <= page < 0x20 || 0x40 < page < 0x100,
        bytes <= 256,
    ensures
        ({
            let after = bus.streamed(page, bytes);
            &&& after == (BusState { ppu: after.ppu, ..bus })
            &&& after.ppu == (PpuState {
                oam: after.ppu.oam,
                oam_addr: after.ppu.oam_addr,
                ..bus.ppu
            })
            &&& after.ppu.oam.len() == 256
            &&& after.ppu.oam_addr == (bus.ppu.oam_addr + bytes) % 256
        }),
    decreases bytes,
{
    if bytes > 0 {
        lemma_streamed_frame(bus, page, (bytes - 1) as nat);
        lemma_streamed_byte(
            bus.streamed(page, (bytes - 1) as nat),
            page * 256 + bytes - 1,
        );
    }
}

/// The first bytes of a page of memory, streamed.
#[verifier::spinoff_prover]
proof fn lemma_streamed_memory(bus: BusState, page: int, bytes: nat, offset: int)
    requires
        bus.ppu.oam.len() == 256,
        0 <= page < 0x20 || 0x40 < page < 0x100,
        bytes <= 256,
        0 <= offset < bytes,
    ensures
        bus.streamed(page, bytes).ppu.oam[(bus.ppu.oam_addr + offset) % 256] == bus.answer(
            page * 256 + offset,
        ),
    decreases bytes,
{
    let before = bus.streamed(page, (bytes - 1) as nat);
    let last = page * 256 + bytes - 1;
    lemma_streamed_frame(bus, page, (bytes - 1) as nat);
    lemma_streamed_byte(before, last);
    assert(bus.streamed(page, bytes).ppu.oam == before.ppu.oam.update(
        (bus.ppu.oam_addr + bytes - 1) % 256,
        before.answer(last),
    ));
    if offset < bytes - 1 {
        lemma_streamed_memory(bus, page, (bytes - 1) as nat, offset);
        lemma_roster_places_differ(bus.ppu.oam_addr as int, offset, bytes - 1);
    } else {
        lemma_memory_ignores_the_picture(bus, before.ppu, last);
    }
}

/// A bus just wired: every byte of RAM zero, nobody holding the pad, nothing
/// billed, the beam in its corner, and the name RAM wired as the cartridge
/// asks.
pub proof fn law_bus_powers_on_clean(cartridge: CartridgeState, colors: Seq<u32>, address: int)
    requires
        0 <= address < 0x2000,
    ensures
        ({
            let bus = BusState::wired(cartridge, colors);
            &&& bus.answer(address) == 0
            &&& bus.ram.len() == 2048
            &&& bus.cartridge == cartridge
            &&& bus.ppu == PpuState::powered(cartridge.vertical_mirroring, colors)
            &&& bus.apu == Apu::idle()
            &&& bus.controller.buttons == 0
            &&& bus.controller.snapshot == 0
            &&& bus.controller.index == 0
            &&& !bus.controller.strobe
            &&& bus.clock.dot == 0
            &&& bus.clock.scanline == 0
            &&& bus.clock.frame == 0
            &&& bus.dma_stall == 0
            &&& !bus.oam_dma_started
            &&& bus.dmc_full_bill_at is None
            &&& !bus.read_4016_this_instruction
            &&& !bus.dmc_fetched_this_instruction
            &&& !bus.irq_line
        }),
{
    reveal(BusState::answer);
}

} // verus!
