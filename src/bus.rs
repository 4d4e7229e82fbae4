//! The processor's 64KB address space: console RAM, the video unit's
//! registers, the input latch and cartridge space, with their mirrors and
//! side effects.

use vstd::prelude::*;
use crate::gamepad::Gamepad;
use crate::mappers::{MappedRead, MappedWrite};
use crate::ppu::{PpuView, PPU};
use crate::rom::ROM;

verus! {

pub const RAM_MIRROR_END: u16 = 0x1FFF;
pub const PPU_REGISTER_MIRROR_END: u16 = 0x3FFF;
pub const PPU_CONTROL_BYTE: u16 = 0x2000;
pub const PPU_MASK_REGISTER: u16 = 0x2001;
pub const PPU_STATUS_REGISTER: u16 = 0x2002;
pub const PPU_OAM_ADDRESS_REGISTER: u16 = 0x2003;
pub const PPU_OAM_DATA_REGISTER: u16 = 0x2004;
pub const PPU_SCROLL_BYTE: u16 = 0x2005;
pub const PPU_ADDRESS_REGISTER: u16 = 0x2006;
pub const PPU_DATA_REGISTER: u16 = 0x2007;
pub const PPU_DMA_ADDRESS: u16 = 0x4014;
pub const GAMEPAD_ADDRESS: u16 = 0x4016;
pub const CARTRIDGE_SPACE_START: u16 = 0x4020;

pub struct Bus {
    pub cpu_vram: Vec<u8>,
    pub prg_rom: Vec<u8>,
    pub prg_ram: Vec<u8>,
    pub ppu: PPU,
    pub gamepad: Gamepad,
    pub cycles: usize,
}

pub struct BusView {
    pub ram: Seq<u8>,
    pub prg_rom: Seq<u8>,
    pub prg_ram: Seq<u8>,
    pub ppu: PpuView,
    pub gamepad: Gamepad,
    pub cycles: usize,
}

impl View for Bus {
    type V = BusView;

    open spec fn view(&self) -> BusView {
        BusView {
            ram: self.cpu_vram@,
            prg_rom: self.prg_rom@,
            prg_ram: self.prg_ram@,
            ppu: self.ppu@,
            gamepad: self.gamepad,
            cycles: self.cycles,
        }
    }
}

/// The byte at `i` of `s`, or `fallback` where `s` is shorter.
pub open spec fn byte_or(s: Seq<u8>, i: usize, fallback: u8) -> u8 {
    if (i as int) < s.len() { s[i as int] } else { fallback }
}

impl BusView {
    pub open spec fn wf(self) -> bool {
        &&& self.ram.len() == 2048
        &&& self.ppu.wf()
    }

    /// What a read of `addr` returns, and the bus after it.
    #[verifier::opaque]
    pub open spec fn read(self, addr: u16) -> (u8, BusView) {
        if addr <= RAM_MIRROR_END {
            (self.ram[(addr & 0x7FF) as int], self)
        } else if addr <= PPU_REGISTER_MIRROR_END {
            let reg = addr & 0x2007;
            if reg == PPU_STATUS_REGISTER {
                (self.ppu.read_status().0, BusView { ppu: self.ppu.read_status().1, ..self })
            } else if reg == PPU_OAM_DATA_REGISTER {
                (self.ppu.read_oam().0, BusView { ppu: self.ppu.read_oam().1, ..self })
            } else if reg == PPU_DATA_REGISTER {
                (self.ppu.read_data().0, BusView { ppu: self.ppu.read_data().1, ..self })
            } else {
                (self.ppu.buffer, self)
            }
        } else if addr == GAMEPAD_ADDRESS {
            (self.gamepad.spec_read().0, BusView { gamepad: self.gamepad.spec_read().1, ..self })
        } else if addr < CARTRIDGE_SPACE_START {
            (0, self)
        } else {
            (match self.ppu.mapper.read(addr) {
                MappedRead::Data(d) => d,
                MappedRead::PrgRAM(i) => byte_or(self.prg_ram, i, self.ppu.buffer),
                MappedRead::PrgROM(i) => byte_or(self.prg_rom, i, self.ppu.buffer),
                _ => self.ppu.buffer,
            }, self)
        }
    }

    /// The bytes read from `base`, `base + 1`, ... (`n` of them), and the bus after.
    pub open spec fn read_page(self, base: u16, n: nat) -> (Seq<u8>, BusView)
        decreases n,
    {
        if n == 0 {
            (Seq::empty(), self)
        } else {
            let prev = self.read_page(base, (n - 1) as nat);
            let next = prev.1.read((base + n - 1) as u16);
            (prev.0.push(next.0), next.1)
        }
    }

    /// The bus after `data` is written to `addr`.
    #[verifier::opaque]
    pub open spec fn write(self, addr: u16, data: u8) -> BusView {
        if addr <= RAM_MIRROR_END {
            BusView { ram: self.ram.update((addr & 0x7FF) as int, data), ..self }
        } else if addr <= PPU_REGISTER_MIRROR_END {
            BusView { ppu: self.ppu.write_register(addr & 0x2007, data), ..self }
        } else if addr == PPU_DMA_ADDRESS {
            self.oam_dma(data)
        } else if addr == GAMEPAD_ADDRESS {
            BusView { gamepad: self.gamepad.spec_write(data), ..self }
        } else if addr < CARTRIDGE_SPACE_START {
            self
        } else {
            self.write_cartridge(addr, data)
        }
    }

    /// The page `data` (addresses `data * 256 ..= data * 256 + 255`) read through
    /// the bus and copied into object memory.
    pub open spec fn oam_dma(self, data: u8) -> BusView {
        let (page, after) = self.read_page(((data as u16) * 256) as u16, 256);
        BusView { ppu: after.ppu.write_oam_seq(page, 0), ..after }
    }

    pub open spec fn write_cartridge(self, addr: u16, data: u8) -> BusView {
        let (target, mapper) = self.ppu.mapper.write(addr, data);
        let prg_ram = match target {
            MappedWrite::PrgRAM(i, d) => if (i as int) < self.prg_ram.len() {
                self.prg_ram.update(i as int, d)
            } else {
                self.prg_ram
            },
            _ => self.prg_ram,
        };
        BusView { prg_ram, ppu: PpuView { mapper, ..self.ppu }, ..self }
    }

    /// A little-endian 16-bit read: low byte at `addr`, high byte at the next address.
    pub open spec fn read16(self, addr: u16) -> (u16, BusView) {
        let lo = self.read(addr);
        let hi = lo.1.read(addr.wrapping_add(1));
        ((hi.0 as u16 * 256 + lo.0 as u16) as u16, hi.1)
    }

    pub open spec fn write16(self, addr: u16, data: u16) -> BusView {
        self.write(addr, (data % 256) as u8).write(addr.wrapping_add(1), (data / 256) as u8)
    }

    /// The clock advanced by `cycles` processor cycles: three video dots
    /// each. The flag says whether a frame completed meanwhile.
    pub open spec fn tick(self, cycles: u8) -> (BusView, bool) {
        let t = video_ticks(self.ppu, cycles as nat);
        (BusView { cycles: self.cycles.wrapping_add(cycles as usize), ppu: t.0, ..self }, t.1)
    }
}

/// The video unit after `n` processor cycles (three dots each), and whether
/// a frame completed on the way.
pub open spec fn video_ticks(p: PpuView, n: nat) -> (PpuView, bool)
    decreases n,
{
    if n == 0 {
        (p, false)
    } else {
        let (q, done) = video_ticks(p, (n - 1) as nat);
        let (r, frame) = q.tick(3);
        (r, done || frame)
    }
}

proof fn lemma_read_keeps_wf(b: BusView, addr: u16)
    requires
        b.wf(),
    ensures
        b.read(addr).1.wf(),
{
    reveal(BusView::read);
}

proof fn lemma_read_page_keeps_wf(b: BusView, base: u16, n: nat)
    requires
        b.wf(),
    ensures
        b.read_page(base, n).1.wf(),
        b.read_page(base, n).0.len() == n,
    decreases n,
{
    if n > 0 {
        lemma_read_page_keeps_wf(b, base, (n - 1) as nat);
        lemma_read_keeps_wf(b.read_page(base, (n - 1) as nat).1, (base + n - 1) as u16);
    }
}

impl Bus {
    /// A bus around the cartridge `rom`, with cleared RAM and a fresh video unit.
    pub fn new(rom: ROM) -> (r: Bus)
        requires
            rom.mapper@.wf(),
        ensures
            r@.wf(),
            r@.ram == Seq::new(2048, |i: int| 0u8),
            r@.prg_rom == rom.prg_rom@,
            r@.prg_ram == rom.prg_ram@,
            r@.ppu.mapper == rom.mapper@,
            r@.ppu.chr_rom == rom.chr_rom@,
            r@.ppu.chr_ram == rom.chr_ram@,
            r@.ppu.ex_ram == rom.ex_ram@,
            r@.ppu.scanline == 0,
            r@.ppu.cycles == 0,
            r@.ppu.control.bits == 0,
            r@.ppu.status.bits == 0,
            r@.ppu.nmi is None,
            r@.gamepad == Gamepad::new_spec(),
            r@.cycles == 0,
    {
        let mut ppu = PPU::new();
        ppu.load_mapper(rom.mapper);
        ppu.load_chr_ram(rom.chr_ram);
        ppu.load_chr_rom(rom.chr_rom);
        ppu.load_ex_ram(rom.ex_ram);
        let r = Bus {
            cpu_vram: vec![0u8; 2048],
            prg_rom: rom.prg_rom,
            prg_ram: rom.prg_ram,
            ppu,
            gamepad: Gamepad::new(),
            cycles: 0,
        };
        assert(r@.ram =~= Seq::new(2048, |i: int| 0u8));
        r
    }

    /// One processor cycle.
    pub fn tick(&mut self) -> (frame: bool)
        requires
            old(self)@.wf(),
        ensures
            (final(self)@, frame) == old(self)@.tick(1),
            final(self)@.wf(),
    {
        self.tick_cycles(1)
    }

    /// Charges `cycles` processor cycles: the video unit runs three dots for
    /// each. True when a frame completed.
    pub fn tick_cycles(&mut self, cycles: u8) -> (frame: bool)
        requires
            old(self)@.wf(),
        ensures
            (final(self)@, frame) == old(self)@.tick(cycles),
            final(self)@.wf(),
    {
        self.cycles = self.cycles.wrapping_add(cycles as usize);
        let mut frame = false;
        let mut i: u8 = 0;
        while i < cycles
            invariant
                i <= cycles,
                self@.wf(),
                (self@.ppu, frame) == video_ticks(old(self)@.ppu, i as nat),
                self@ == (BusView { ppu: self@.ppu, cycles: old(self)@.cycles.wrapping_add(cycles as usize), ..old(self)@ }),
            decreases cycles - i,
        {
            let done = self.ppu.tick(3);
            frame = frame || done;
            i = i + 1;
        }
        frame
    }

    pub fn get_cycles(&self) -> (r: usize)
        ensures
            r == self.cycles,
    {
        self.cycles
    }

    /// Takes the video unit's pending interrupt, if any.
    pub fn poll_nmi(&mut self) -> (r: Option<u8>)
        requires
            old(self)@.wf(),
        ensures
            r == old(self)@.ppu.nmi,
            final(self)@ == (BusView { ppu: old(self)@.ppu.poll_nmi().1, ..old(self)@ }),
            final(self)@.wf(),
    {
        self.ppu.poll_nmi()
    }

    pub fn mem_read_u8(&mut self, addr: u16) -> (r: u8)
        requires
            old(self)@.wf(),
        ensures
            (r, final(self)@) == old(self)@.read(addr),
            final(self)@.wf(),
    {
        proof {
            reveal(BusView::read);
        }
        if addr <= RAM_MIRROR_END {
            assert(addr & 0x7FF < 2048) by (bit_vector);
            self.cpu_vram[(addr & 0x7FF) as usize]
        } else if addr <= PPU_REGISTER_MIRROR_END {
            let reg = addr & 0x2007;
            if reg == PPU_STATUS_REGISTER {
                self.ppu.read_status()
            } else if reg == PPU_OAM_DATA_REGISTER {
                self.ppu.read_oam_data()
            } else if reg == PPU_DATA_REGISTER {
                self.ppu.read_data()
            } else {
                self.ppu.internal_data_buffer
            }
        } else if addr == GAMEPAD_ADDRESS {
            self.gamepad.read()
        } else if addr < CARTRIDGE_SPACE_START {
            0
        } else {
            match self.ppu.mapper.map_read(addr) {
                MappedRead::Data(d) => d,
                MappedRead::PrgRAM(i) => if i < self.prg_ram.len() {
                    self.prg_ram[i]
                } else {
                    self.ppu.internal_data_buffer
                },
                MappedRead::PrgROM(i) => if i < self.prg_rom.len() {
                    self.prg_rom[i]
                } else {
                    self.ppu.internal_data_buffer
                },
                _ => self.ppu.internal_data_buffer,
            }
        }
    }

    pub fn mem_write_u8(&mut self, addr: u16, data: u8)
        requires
            old(self)@.wf(),
        ensures
            final(self)@ == old(self)@.write(addr, data),
            final(self)@.wf(),
    {
        proof {
            reveal(BusView::write);
        }
        if addr <= RAM_MIRROR_END {
            assert(addr & 0x7FF < 2048) by (bit_vector);
            self.cpu_vram.set((addr & 0x7FF) as usize, data);
        } else if addr <= PPU_REGISTER_MIRROR_END {
            self.ppu.write_register(addr & 0x2007, data);
        } else if addr == PPU_DMA_ADDRESS {
            self.oam_dma(data);
        } else if addr == GAMEPAD_ADDRESS {
            self.gamepad.write(data);
        } else if addr >= CARTRIDGE_SPACE_START {
            self.write_cartridge(addr, data);
        }
    }

    /// Copies page `data` into object memory, one bus read per byte.
    fn oam_dma(&mut self, data: u8)
        requires
            old(self)@.wf(),
        ensures
            final(self)@ == old(self)@.oam_dma(data),
            final(self)@.wf(),
    {
        let base: u16 = (data as u16) * 256;
        let mut page: Vec<u8> = Vec::new();
        let mut i: u16 = 0;
        while i < 256
            invariant
                i <= 256,
                base == (data as u16) * 256,
                (page@, self@) == old(self)@.read_page(base, i as nat),
                self@.wf(),
            decreases 256 - i,
        {
            let v = self.mem_read_u8(base + i);
            page.push(v);
            i = i + 1;
        }
        proof { lemma_read_page_keeps_wf(old(self)@, base, 256); }
        self.ppu.write_oam_dma(&page);
    }

    fn write_cartridge(&mut self, addr: u16, data: u8)
        requires
            old(self)@.wf(),
        ensures
            final(self)@ == old(self)@.write_cartridge(addr, data),
            final(self)@.wf(),
    {
        match self.ppu.mapper.map_write(addr, data) {
            MappedWrite::PrgRAM(i, d) => {
                if i < self.prg_ram.len() {
                    self.prg_ram.set(i, d);
                }
            },
            _ => {},
        }
    }

    pub fn mem_read_u16(&mut self, addr: u16) -> (r: u16)
        requires
            old(self)@.wf(),
        ensures
            (r, final(self)@) == old(self)@.read16(addr),
            final(self)@.wf(),
    {
        let lo = self.mem_read_u8(addr) as u16;
        let hi = self.mem_read_u8(addr.wrapping_add(1)) as u16;
        hi * 256 + lo
    }

    pub fn mem_write_u16(&mut self, addr: u16, data: u16)
        requires
            old(self)@.wf(),
        ensures
            final(self)@ == old(self)@.write16(addr, data),
            final(self)@.wf(),
    {
        self.mem_write_u8(addr, (data % 256) as u8);
        self.mem_write_u8(addr.wrapping_add(1), (data / 256) as u8);
    }
}

} // verus!
