//! The video unit's timing state machine, its registers and its small
//! memories (nametables, palette, object memory).

use vstd::prelude::*;
use crate::mappers::{MappedWrite, Mapper, MapperView};
use crate::registers::{AddressRegister, ControlRegister, MaskRegister, StatusRegister};
use crate::rom::ScreenMirroring;

verus! {

/// Dots in one scanline.
pub const DOTS_PER_LINE: usize = 341;
/// Scanlines in one frame.
pub const LINES_PER_FRAME: u16 = 262;
/// The scanline on which vblank begins.
pub const VBLANK_LINE: u16 = 241;

pub struct PPU {
    pub chr_rom: Vec<u8>,
    pub chr_ram: Vec<u8>,
    pub ex_ram: Vec<u8>,
    pub mapper: Mapper,
    pub palette_table: Vec<u8>,
    pub oam_addr: u8,
    pub oam_data: Vec<u8>,
    pub vram: Vec<u8>,
    pub addr: AddressRegister,
    pub control: ControlRegister,
    pub status: StatusRegister,
    pub mask: MaskRegister,
    pub internal_data_buffer: u8,
    pub scanline: u16,
    pub cycles: usize,
    pub should_reset: bool,
    pub nmi: Option<u8>,
}

pub struct PpuView {
    pub chr_rom: Seq<u8>,
    pub chr_ram: Seq<u8>,
    pub ex_ram: Seq<u8>,
    pub mapper: MapperView,
    pub palette: Seq<u8>,
    pub oam_addr: u8,
    pub oam: Seq<u8>,
    pub vram: Seq<u8>,
    pub addr: AddressRegister,
    pub control: ControlRegister,
    pub status: StatusRegister,
    pub mask: MaskRegister,
    pub buffer: u8,
    pub scanline: u16,
    pub cycles: usize,
    pub should_reset: bool,
    pub nmi: Option<u8>,
}

impl View for PPU {
    type V = PpuView;

    open spec fn view(&self) -> PpuView {
        PpuView {
            chr_rom: self.chr_rom@,
            chr_ram: self.chr_ram@,
            ex_ram: self.ex_ram@,
            mapper: self.mapper@,
            palette: self.palette_table@,
            oam_addr: self.oam_addr,
            oam: self.oam_data@,
            vram: self.vram@,
            addr: self.addr,
            control: self.control,
            status: self.status,
            mask: self.mask,
            buffer: self.internal_data_buffer,
            scanline: self.scanline,
            cycles: self.cycles,
            should_reset: self.should_reset,
            nmi: self.nmi,
        }
    }
}

/// Where nametable address `addr` (0x2000..=0x3FFF) lands in the 2KB of
/// nametable memory under mirroring `m`.
pub open spec fn mirror_vram(m: ScreenMirroring, addr: u16) -> u16 {
    let index = ((addr & 0x2FFF) - 0x2000) as u16;
    let table = index / 0x400;
    if (m == ScreenMirroring::Vertical && (table == 2 || table == 3)) || (m == ScreenMirroring::Horizontal
        && table == 3) {
        (index - 0x800) as u16
    } else if m == ScreenMirroring::Horizontal && (table == 1 || table == 2) {
        (index - 0x400) as u16
    } else {
        index
    }
}

/// The slot of the 32-byte palette that `addr` (0x3F00..=0x3FFF) writes to.
pub open spec fn palette_write_index(addr: u16) -> int {
    let i = (addr - 0x3F00) % 32;
    if i == 0x10 || i == 0x14 || i == 0x18 || i == 0x1C {
        i - 0x10
    } else {
        i
    }
}

/// A video address with its 0x3000..=0x3EFF mirror folded onto 0x2000..=0x2EFF.
pub open spec fn fold_vram_mirror(addr: u16) -> u16 {
    if 0x3000 <= addr <= 0x3EFF {
        (addr - 0x1000) as u16
    } else {
        addr
    }
}

impl PpuView {
    pub open spec fn wf(self) -> bool {
        &&& self.palette.len() == 32
        &&& self.oam.len() == 256
        &&& self.vram.len() == 2048
        &&& self.cycles < 341
        &&& self.scanline < 262
        &&& self.mapper.wf()
        &&& self.addr.spec_get() <= 0x3FFF
    }

    /// One tick of `dots` dots: the dot counter advances, a full line moves to
    /// the next scanline, vblank starts on line 241 and the frame wraps after
    /// line 261. The flag says whether the frame completed.
    pub open spec fn tick(self, dots: u8) -> (PpuView, bool) {
        let c = self.cycles + dots;
        if c < 341 {
            (PpuView { cycles: c as usize, ..self }, false)
        } else {
            let line = (self.scanline + 1) as u16;
            let at_vblank = line == 241;
            let status = if at_vblank { self.status.with_vblank(true) } else { self.status };
            let nmi = if at_vblank && self.control.nmi_enabled() { Some(1u8) } else { self.nmi };
            if line >= 262 {
                (PpuView {
                    cycles: (c - 341) as usize,
                    scanline: 0,
                    status: status.with_vblank(false),
                    buffer: 0,
                    nmi: None,
                    ..self
                }, true)
            } else {
                (PpuView { cycles: (c - 341) as usize, scanline: line, status, nmi, ..self }, false)
            }
        }
    }

    pub open spec fn write_ppu_addr(self, data: u8) -> PpuView {
        PpuView { buffer: data, addr: self.addr.spec_update(data), ..self }
    }

    pub open spec fn read_status(self) -> (u8, PpuView) {
        (self.status.bits, PpuView {
            buffer: self.buffer | (self.status.bits & 0xE0),
            status: self.status.with_vblank(false),
            addr: AddressRegister { hi_ptr: true, ..self.addr },
            ..self
        })
    }

    pub open spec fn write_ctrl(self, data: u8) -> PpuView {
        let control = ControlRegister { bits: data };
        let raise = !self.control.nmi_enabled() && control.nmi_enabled() && self.status.in_vblank();
        PpuView { buffer: data, control, nmi: if raise { Some(1u8) } else { self.nmi }, ..self }
    }

    pub open spec fn poll_nmi(self) -> (Option<u8>, PpuView) {
        (self.nmi, PpuView { nmi: None, ..self })
    }

    pub open spec fn read_oam(self) -> (u8, PpuView) {
        (self.oam[self.oam_addr as int], PpuView { buffer: self.oam[self.oam_addr as int], ..self })
    }

    pub open spec fn write_oam(self, data: u8) -> PpuView {
        PpuView {
            buffer: data,
            oam: self.oam.update(self.oam_addr as int, data),
            oam_addr: ((self.oam_addr + 1) % 256) as u8,
            ..self
        }
    }

    pub open spec fn write_oam_addr(self, data: u8) -> PpuView {
        PpuView { buffer: data, oam_addr: data, ..self }
    }

    pub open spec fn write_mask(self, data: u8) -> PpuView {
        PpuView { buffer: data, mask: MaskRegister { bits: data }, ..self }
    }

    /// Writes `data[from..]` to object memory one byte at a time.
    pub open spec fn write_oam_seq(self, data: Seq<u8>, from: int) -> PpuView
        decreases data.len() - from,
    {
        if from >= data.len() || from < 0 {
            self
        } else {
            self.write_oam(data[from]).write_oam_seq(data, from + 1)
        }
    }

    /// A write to register `reg` (0x2000..=0x2007).
    pub open spec fn write_register(self, reg: u16, data: u8) -> PpuView {
        if reg == 0x2000 {
            self.write_ctrl(data)
        } else if reg == 0x2001 {
            self.write_mask(data)
        } else if reg == 0x2002 {
            PpuView { buffer: data, ..self }
        } else if reg == 0x2003 {
            self.write_oam_addr(data)
        } else if reg == 0x2004 {
            self.write_oam(data)
        } else if reg == 0x2006 {
            self.write_ppu_addr(data)
        } else if reg == 0x2007 {
            self.write_data(data)
        } else {
            self
        }
    }

    pub open spec fn advance_addr(self) -> PpuView {
        PpuView { addr: self.addr.spec_increment(self.control.vram_step()), ..self }
    }

    pub open spec fn read_data(self) -> (u8, PpuView) {
        let addr = fold_vram_mirror(self.addr.spec_get());
        let next = self.advance_addr();
        if addr <= 0x1FFF {
            let fetched = if self.chr_ram.len() > 0 {
                if (addr as int) < self.chr_ram.len() { self.chr_ram[addr as int] } else { self.buffer }
            } else {
                if (addr as int) < self.chr_rom.len() { self.chr_rom[addr as int] } else { self.buffer }
            };
            (self.buffer, PpuView { buffer: fetched, ..next })
        } else if addr <= 0x2FFF {
            let i = mirror_vram(self.mapper.mirroring(), addr);
            let fetched = if (i as int) < self.vram.len() { self.vram[i as int] } else { self.buffer };
            (self.buffer, PpuView { buffer: fetched, ..next })
        } else if 0x3F00 <= addr {
            (self.palette[(addr - 0x3F00) % 32], next)
        } else {
            (self.buffer, next)
        }
    }

    pub open spec fn write_data(self, data: u8) -> PpuView {
        let addr = fold_vram_mirror(self.addr.spec_get());
        let base = PpuView { buffer: data, ..self };
        let written = if addr <= 0x1FFF {
            if self.chr_ram.len() > 0 {
                let (target, mapper) = self.mapper.write(addr, data);
                let chr_ram = match target {
                    MappedWrite::Chr(i, d) => if i < self.chr_ram.len() {
                        self.chr_ram.update(i as int, d)
                    } else {
                        self.chr_ram
                    },
                    _ => self.chr_ram,
                };
                PpuView { mapper, chr_ram, ..base }
            } else {
                base
            }
        } else if addr <= 0x2FFF {
            let i = mirror_vram(self.mapper.mirroring(), addr);
            if (i as int) < self.vram.len() {
                PpuView { vram: self.vram.update(i as int, data), ..base }
            } else {
                base
            }
        } else if 0x3F00 <= addr {
            PpuView { palette: self.palette.update(palette_write_index(addr), data), ..base }
        } else {
            base
        };
        written.advance_addr()
    }
}

impl PPU {
    /// A video unit at power-on: all memories cleared, at dot 0 of scanline 0.
    pub fn new() -> (r: PPU)
        ensures
            r@.wf(),
            r@.mapper == MapperView::Empty,
            r@.chr_rom.len() == 0,
            r@.chr_ram.len() == 0,
            r@.ex_ram.len() == 0,
            r@.palette == Seq::new(32, |i: int| 0u8),
            r@.oam == Seq::new(256, |i: int| 0u8),
            r@.vram == Seq::new(2048, |i: int| 0u8),
            r@.oam_addr == 0,
            r@.addr.value == (0u8, 0u8),
            r@.addr.hi_ptr,
            r@.control.bits == 0,
            r@.status.bits == 0,
            r@.mask.bits == 0,
            r@.buffer == 0,
            r@.scanline == 0,
            r@.cycles == 0,
            !r@.should_reset,
            r@.nmi is None,
    {
        let r = PPU {
            chr_rom: Vec::new(),
            chr_ram: Vec::new(),
            ex_ram: Vec::new(),
            mapper: Mapper::none(),
            palette_table: vec![0u8; 32],
            oam_addr: 0,
            oam_data: vec![0u8; 256],
            vram: vec![0u8; 2048],
            addr: AddressRegister::new(),
            control: ControlRegister::new(),
            status: StatusRegister::new(),
            mask: MaskRegister::new(),
            internal_data_buffer: 0,
            scanline: 0,
            cycles: 0,
            should_reset: false,
            nmi: None,
        };
        assert(r@.palette =~= Seq::new(32, |i: int| 0u8));
        assert(r@.oam =~= Seq::new(256, |i: int| 0u8));
        assert(r@.vram =~= Seq::new(2048, |i: int| 0u8));
        r
    }

    pub fn load_chr_rom(&mut self, chr_rom: Vec<u8>)
        ensures
            final(self)@ == (PpuView { chr_rom: chr_rom@, ..old(self)@ }),
    {
        self.chr_rom = chr_rom;
    }

    pub fn load_chr_ram(&mut self, chr_ram: Vec<u8>)
        ensures
            final(self)@ == (PpuView { chr_ram: chr_ram@, ..old(self)@ }),
    {
        self.chr_ram = chr_ram;
    }

    pub fn load_ex_ram(&mut self, ex_ram: Vec<u8>)
        ensures
            final(self)@ == (PpuView { ex_ram: ex_ram@, ..old(self)@ }),
    {
        self.ex_ram = ex_ram;
    }

    pub fn load_mapper(&mut self, mapper: Mapper)
        ensures
            final(self)@ == (PpuView { mapper: mapper@, ..old(self)@ }),
    {
        self.mapper = mapper;
    }

    pub fn should_reset(&self) -> (r: bool)
        ensures
            r == self.should_reset,
    {
        self.should_reset
    }

    pub fn set_should_reset(&mut self, val: bool)
        ensures
            final(self)@ == (PpuView { should_reset: val, ..old(self)@ }),
    {
        self.should_reset = val;
    }

    /// Advances the timing state by `dots` dots; true when a frame completed.
    pub fn tick(&mut self, dots: u8) -> (frame: bool)
        requires
            old(self)@.wf(),
        ensures
            (final(self)@, frame) == old(self)@.tick(dots),
            final(self)@.wf(),
    {
        self.cycles = self.cycles + dots as usize;
        if self.cycles >= DOTS_PER_LINE {
            self.cycles = self.cycles - DOTS_PER_LINE;
            self.scanline = self.scanline + 1;
            if self.scanline == VBLANK_LINE {
                self.status.set_vblank_status(true);
                if self.control.should_generate_vblank_nmi() {
                    self.nmi = Some(1);
                }
            }
            if self.scanline >= LINES_PER_FRAME {
                self.scanline = 0;
                self.status.reset_vblank_status();
                self.internal_data_buffer = 0;
                self.nmi = None;
                return true;
            }
        }
        false
    }

    pub fn write_to_ppu_address(&mut self, data: u8)
        requires
            old(self)@.wf(),
        ensures
            final(self)@ == old(self)@.write_ppu_addr(data),
            final(self)@.wf(),
    {
        self.internal_data_buffer = data;
        self.addr.update(data);
        proof { lemma_mirrored_in_range(old(self).addr, data); }
    }

    /// Reads the status register: clears vblank and the address latch.
    pub fn read_status(&mut self) -> (r: u8)
        requires
            old(self)@.wf(),
        ensures
            (r, final(self)@) == old(self)@.read_status(),
            final(self)@.wf(),
    {
        let data = self.status.bits;
        self.internal_data_buffer = self.internal_data_buffer | (data & 0xE0);
        self.status.reset_vblank_status();
        self.addr.reset_latch();
        data
    }

    /// Writes the control register; enabling NMI during vblank raises it at once.
    pub fn update_ctrl_register(&mut self, data: u8)
        requires
            old(self)@.wf(),
        ensures
            final(self)@ == old(self)@.write_ctrl(data),
            final(self)@.wf(),
    {
        self.internal_data_buffer = data;
        let before_nmi = self.control.should_generate_vblank_nmi();
        self.control.update(data);
        if !before_nmi && self.control.should_generate_vblank_nmi() && self.status.is_in_vblank() {
            self.nmi = Some(1);
        }
    }

    fn increment_vram_addr(&mut self)
        requires
            old(self)@.wf(),
        ensures
            final(self)@ == old(self)@.advance_addr(),
            final(self)@.wf(),
    {
        let step = self.control.get_vram_addr_increment();
        self.addr.increment(step);
        proof { lemma_increment_in_range(old(self).addr, step); }
    }

    /// Takes the pending interrupt, if any: it is delivered once.
    pub fn poll_nmi(&mut self) -> (r: Option<u8>)
        requires
            old(self)@.wf(),
        ensures
            (r, final(self)@) == old(self)@.poll_nmi(),
            final(self)@.wf(),
    {
        let r = self.nmi;
        self.nmi = None;
        r
    }

    /// Reads through the data register; nametable and pattern reads come one read late.
    pub fn read_data(&mut self) -> (r: u8)
        requires
            old(self)@.wf(),
        ensures
            (r, final(self)@) == old(self)@.read_data(),
            final(self)@.wf(),
    {
        let mut addr = self.addr.get();
        self.increment_vram_addr();
        if 0x3000 <= addr && addr <= 0x3EFF {
            addr = addr - 0x1000;
        }
        if addr <= 0x1FFF {
            let result = self.internal_data_buffer;
            let i = addr as usize;
            if self.chr_ram.len() > 0 {
                if i < self.chr_ram.len() {
                    self.internal_data_buffer = self.chr_ram[i];
                }
            } else {
                if i < self.chr_rom.len() {
                    self.internal_data_buffer = self.chr_rom[i];
                }
            }
            result
        } else if addr <= 0x2FFF {
            let result = self.internal_data_buffer;
            let i = self.mirror_vram_addr(addr) as usize;
            if i < self.vram.len() {
                self.internal_data_buffer = self.vram[i];
            }
            result
        } else if 0x3F00 <= addr {
            self.palette_table[((addr - 0x3F00) % 32) as usize]
        } else {
            self.internal_data_buffer
        }
    }

    pub fn read_oam_data(&mut self) -> (r: u8)
        requires
            old(self)@.wf(),
        ensures
            (r, final(self)@) == old(self)@.read_oam(),
            final(self)@.wf(),
    {
        self.internal_data_buffer = self.oam_data[self.oam_addr as usize];
        self.internal_data_buffer
    }

    pub fn write_oam_data(&mut self, data: u8)
        requires
            old(self)@.wf(),
        ensures
            final(self)@ == old(self)@.write_oam(data),
            final(self)@.wf(),
    {
        self.internal_data_buffer = data;
        self.oam_data.set(self.oam_addr as usize, data);
        self.oam_addr = self.oam_addr.wrapping_add(1);
    }

    pub fn write_oam_addr(&mut self, addr: u8)
        requires
            old(self)@.wf(),
        ensures
            final(self)@ == old(self)@.write_oam_addr(addr),
            final(self)@.wf(),
    {
        self.internal_data_buffer = addr;
        self.oam_addr = addr;
    }

    /// Copies a page into object memory, starting at the current object address.
    pub fn write_oam_dma(&mut self, data: &Vec<u8>)
        requires
            old(self)@.wf(),
        ensures
            final(self)@ == old(self)@.write_oam_seq(data@, 0),
            final(self)@.wf(),
    {
        let mut i: usize = 0;
        while i < data.len()
            invariant
                i <= data@.len(),
                self@.wf(),
                old(self)@.write_oam_seq(data@, 0) == self@.write_oam_seq(data@, i as int),
            decreases data@.len() - i,
        {
            self.write_oam_data(data[i]);
            i = i + 1;
        }
    }

    pub fn write_to_data_register(&mut self, data: u8)
        requires
            old(self)@.wf(),
        ensures
            final(self)@ == old(self)@.write_data(data),
            final(self)@.wf(),
    {
        let mut target = self.addr.get();
        self.internal_data_buffer = data;
        if 0x3000 <= target && target <= 0x3EFF {
            target = target - 0x1000;
        }
        if target <= 0x1FFF {
            if self.chr_ram.len() > 0 {
                let written = self.mapper.map_write(target, data);
                match written {
                    MappedWrite::Chr(i, d) => {
                        if i < self.chr_ram.len() {
                            self.chr_ram.set(i, d);
                        }
                    },
                    _ => {},
                }
            }
        } else if target <= 0x2FFF {
            let i = self.mirror_vram_addr(target) as usize;
            if i < self.vram.len() {
                self.vram.set(i, data);
            }
        } else if 0x3F00 <= target {
            let mut i = ((target - 0x3F00) % 32) as usize;
            if i == 0x10 || i == 0x14 || i == 0x18 || i == 0x1C {
                i = i - 0x10;
            }
            self.palette_table.set(i, data);
        }
        self.increment_vram_addr();
    }

    /// Dispatches a processor write to register `reg` (0x2000..=0x2007);
    /// the status register keeps only the written value on the data bus and
    /// the scroll register is not modelled.
    pub fn write_register(&mut self, reg: u16, data: u8)
        requires
            old(self)@.wf(),
        ensures
            final(self)@ == old(self)@.write_register(reg, data),
            final(self)@.wf(),
    {
        if reg == 0x2000 {
            self.update_ctrl_register(data);
        } else if reg == 0x2001 {
            self.write_to_mask_register(data);
        } else if reg == 0x2002 {
            self.internal_data_buffer = data;
        } else if reg == 0x2003 {
            self.write_oam_addr(data);
        } else if reg == 0x2004 {
            self.write_oam_data(data);
        } else if reg == 0x2006 {
            self.write_to_ppu_address(data);
        } else if reg == 0x2007 {
            self.write_to_data_register(data);
        }
    }

    pub fn write_to_mask_register(&mut self, data: u8)
        requires
            old(self)@.wf(),
        ensures
            final(self)@ == old(self)@.write_mask(data),
            final(self)@.wf(),
    {
        self.internal_data_buffer = data;
        self.mask.update(data);
    }

    /// Where nametable address `addr` lands in nametable memory under the mapper's mirroring.
    pub fn mirror_vram_addr(&self, addr: u16) -> (r: u16)
        requires
            0x2000 <= addr <= 0x3FFF,
        ensures
            r == mirror_vram(self@.mapper.mirroring(), addr),
    {
        let mirrored = addr & 0x2FFF;
        assert(0x2000 <= addr <= 0x3FFF ==> 0x2000 <= addr & 0x2FFF <= 0x2FFF) by (bit_vector);
        let index = mirrored - 0x2000;
        let table = index / 0x400;
        let m = self.mapper.mirroring();
        if (m == ScreenMirroring::Vertical && (table == 2 || table == 3)) || (m == ScreenMirroring::Horizontal
            && table == 3) {
            index - 0x800
        } else if m == ScreenMirroring::Horizontal && (table == 1 || table == 2) {
            index - 0x400
        } else {
            index
        }
    }
}

proof fn lemma_mirrored_in_range(a: AddressRegister, data: u8)
    ensures
        a.spec_update(data).spec_get() <= 0x3FFF,
{
}

proof fn lemma_increment_in_range(a: AddressRegister, step: u8)
    ensures
        a.spec_increment(step).spec_get() <= 0x3FFF,
{
}

} // verus!
