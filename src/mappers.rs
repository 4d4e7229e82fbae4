//! Cartridge mappers: how cartridge-space addresses reach the cartridge's
//! PRG-ROM, PRG-RAM and CHR stores, and the bank-switching registers.

use vstd::prelude::*;
use crate::mem::{Membank, MembankView};
use crate::rom::{ROM, ScreenMirroring};

verus! {

/// Where a read of cartridge space lands.
#[derive(Clone, Copy, Debug, PartialEq, Eq, Structural)]
pub enum MappedRead {
    Unmapped,
    Chr(usize),
    Data(u8),
    PrgROM(usize),
    PrgRAM(usize),
}

/// Where a write to cartridge space lands.
#[derive(Clone, Copy, Debug, PartialEq, Eq, Structural)]
pub enum MappedWrite {
    Unmapped,
    Chr(usize, u8),
    PrgRAM(usize, u8),
}

/// The fixed mapping of the simplest cartridges.
#[derive(Clone, Copy, Debug, PartialEq, Eq, Structural)]
pub struct NROM {
    pub mirroring: ScreenMirroring,
    /// A single 16KB PRG-ROM page answers at both halves of PRG space.
    pub mirror_prg_rom: bool,
}

/// The bank-switching registers of the windowed mapper.
pub struct TxRegs {
    pub bank_select: u8,
    pub bank_values: Vec<u8>,
    pub irq_latch: u8,
    pub irq_enabled: bool,
    pub irq_reload: bool,
}

/// The windowed bank-switching mapper with a scanline interrupt latch.
pub struct TXROM {
    pub mirroring: ScreenMirroring,
    pub regs: TxRegs,
    pub prg_rom_banks: Membank,
    pub prg_ram_banks: Membank,
    pub chr_banks: Membank,
    pub irq_pending: bool,
}

pub struct TxromView {
    pub mirroring: ScreenMirroring,
    pub bank_select: u8,
    pub bank_values: Seq<u8>,
    pub irq_latch: u8,
    pub irq_enabled: bool,
    pub irq_reload: bool,
    pub irq_pending: bool,
    pub prg_rom_banks: MembankView,
    pub prg_ram_banks: MembankView,
    pub chr_banks: MembankView,
}

impl View for TXROM {
    type V = TxromView;

    open spec fn view(&self) -> TxromView {
        TxromView {
            mirroring: self.mirroring,
            bank_select: self.regs.bank_select,
            bank_values: self.regs.bank_values@,
            irq_latch: self.regs.irq_latch,
            irq_enabled: self.regs.irq_enabled,
            irq_reload: self.regs.irq_reload,
            irq_pending: self.irq_pending,
            prg_rom_banks: self.prg_rom_banks@,
            prg_ram_banks: self.prg_ram_banks@,
            chr_banks: self.chr_banks@,
        }
    }
}

/// The cartridge's mapper: one of a closed set of designs.
pub enum Mapper {
    Empty,
    NROM(NROM),
    TXROM(TXROM),
}

pub enum MapperView {
    Empty,
    NROM(NROM),
    TXROM(TxromView),
}

impl View for Mapper {
    type V = MapperView;

    open spec fn view(&self) -> MapperView {
        match self {
            Mapper::Empty => MapperView::Empty,
            Mapper::NROM(m) => MapperView::NROM(*m),
            Mapper::TXROM(m) => MapperView::TXROM(m@),
        }
    }
}

impl TxromView {
    pub open spec fn wf(self) -> bool {
        &&& self.bank_values.len() == 8
        &&& self.prg_rom_banks.wf()
        &&& self.prg_ram_banks.wf()
        &&& self.chr_banks.wf()
        &&& self.prg_rom_banks.banks.len() == 4
        &&& self.chr_banks.banks.len() == 8
        &&& self.prg_rom_banks.window == 0x2000
        &&& self.prg_rom_banks.size == 0x7FFF
        &&& self.prg_rom_banks.shift == 13
        &&& self.fixed_banks()
    }

    /// The geometry alone, without the placement of the fixed pages.
    pub open spec fn shape(self) -> bool {
        &&& self.bank_values.len() == 8
        &&& self.prg_rom_banks.wf()
        &&& self.prg_ram_banks.wf()
        &&& self.chr_banks.wf()
        &&& self.prg_rom_banks.banks.len() == 4
        &&& self.chr_banks.banks.len() == 8
        &&& self.prg_rom_banks.window == 0x2000
        &&& self.prg_rom_banks.size == 0x7FFF
        &&& self.prg_rom_banks.shift == 13
    }

    /// The window (0 or 2) that shows the second-last PRG page: bit 6 of the
    /// bank-select byte moves it from 0xC000 down to 0x8000.
    pub open spec fn second_last_slot(self) -> int {
        if self.bank_select & 0x40 == 0x40 { 0 } else { 2 }
    }

    /// The last PRG page sits in the top window, and the one before it in the
    /// window that bank select names; so the vectors at the top of cartridge
    /// space stay reachable whatever is switched.
    pub open spec fn fixed_banks(self) -> bool {
        let b = self.prg_rom_banks;
        &&& b.banks[3] == (b.last() & b.mask) << b.shift
        &&& b.banks[self.second_last_slot()] == (self.second_last() & b.mask) << b.shift
    }

    /// The state right after setting up over stores of the given sizes:
    /// 8KB PRG windows, 8KB PRG-RAM windows and 1KB CHR windows, each over
    /// `max(1, len / window)` pages; PRG windows showing pages 0, 1, n-2, n-1.
    pub open spec fn power_on(self, prg_rom_len: nat, prg_ram_len: nat, chr_len: nat) -> bool {
        let p = self.prg_rom_banks;
        let n: int = if prg_rom_len / 0x2000 >= 1 { (prg_rom_len / 0x2000) as int } else { 1 };
        let nr: int = if prg_ram_len / 0x2000 >= 1 { (prg_ram_len / 0x2000) as int } else { 1 };
        let nc: int = if chr_len / 0x400 >= 1 { (chr_len / 0x400) as int } else { 1 };
        &&& self.wf()
        &&& self.bank_select == 0
        &&& self.bank_values == Seq::new(8, |i: int| 0u8)
        &&& self.irq_latch == 0 && !self.irq_enabled && !self.irq_reload && !self.irq_pending
        &&& p.page_count == n && p.mask == n - 1
        &&& p.banks[0] == 0 && p.banks[1] == 0x2000
        &&& p.banks[2] == (self.second_last() & p.mask) << 13usize
        &&& p.banks[3] == (p.last() & p.mask) << 13usize
        &&& self.prg_ram_banks.window == 0x2000 && self.prg_ram_banks.size == 0x1FFF
        &&& self.prg_ram_banks.shift == 13 && self.prg_ram_banks.page_count == nr
        &&& self.chr_banks.window == 0x400 && self.chr_banks.size == 0x1FFF
        &&& self.chr_banks.shift == 10 && self.chr_banks.page_count == nc
    }

    /// The last PRG page and the one before it (or the last again where there is one page).
    pub open spec fn second_last(self) -> usize {
        let last = self.prg_rom_banks.last();
        if last > 0 { (last - 1) as usize } else { 0 }
    }

    /// The windows recomputed from the bank-select byte and the eight bank values.
    pub open spec fn update_banks(self) -> TxromView {
        let r = self.bank_values;
        let last = self.prg_rom_banks.last();
        let prg = if self.bank_select & 0x40 == 0x40 {
            self.prg_rom_banks.set(0, self.second_last()).set(1, r[7] as usize).set(2, r[6] as usize)
        } else {
            self.prg_rom_banks.set(0, r[6] as usize).set(1, r[7] as usize).set(2, self.second_last())
        };
        let c0 = (r[0] & 0xFE) as usize;
        let c1 = (r[1] & 0xFE) as usize;
        let chr = if self.bank_select & 0x80 == 0x80 {
            self.chr_banks.set(0, r[2] as usize).set(1, r[3] as usize).set(2, r[4] as usize).set(3, r[5] as usize)
                .set(4, c0).set(5, (c0 + 1) as usize).set(6, c1).set(7, (c1 + 1) as usize)
        } else {
            self.chr_banks.set(0, c0).set(1, (c0 + 1) as usize).set(2, c1).set(3, (c1 + 1) as usize)
                .set(4, r[2] as usize).set(5, r[3] as usize).set(6, r[4] as usize).set(7, r[5] as usize)
        };
        TxromView { prg_rom_banks: prg.set(3, last), chr_banks: chr, ..self }
    }

    pub open spec fn read(self, addr: u16) -> MappedRead {
        if addr <= 0x1FFF {
            MappedRead::Chr(self.chr_banks.translate(addr))
        } else if 0x6000 <= addr <= 0x7FFF {
            MappedRead::PrgRAM(self.prg_ram_banks.translate(addr))
        } else if 0x8000 <= addr {
            MappedRead::PrgROM(self.prg_rom_banks.translate(addr))
        } else {
            MappedRead::Unmapped
        }
    }

    /// What a write does: where it lands, and the registers after it.
    pub open spec fn write(self, addr: u16, data: u8) -> (MappedWrite, TxromView) {
        if addr <= 0x1FFF {
            (MappedWrite::Chr(self.chr_banks.translate(addr), data), self)
        } else if 0x6000 <= addr <= 0x7FFF {
            (MappedWrite::PrgRAM(self.prg_ram_banks.translate(addr), data), self)
        } else if 0x8000 <= addr {
            let reg = addr & 0xE001;
            let next = if reg == 0x8000 {
                TxromView { bank_select: data, ..self }.update_banks()
            } else if reg == 0x8001 {
                TxromView {
                    bank_values: self.bank_values.update((self.bank_select & 0x07) as int, data),
                    ..self
                }.update_banks()
            } else if reg == 0xA000 {
                if self.mirroring != ScreenMirroring::FourScreen {
                    TxromView {
                        mirroring: if data & 0x01 == 0 {
                            ScreenMirroring::Vertical
                        } else {
                            ScreenMirroring::Horizontal
                        },
                        ..self
                    }.update_banks()
                } else {
                    self
                }
            } else if reg == 0xC000 {
                TxromView { irq_latch: data, ..self }
            } else if reg == 0xC001 {
                TxromView { irq_reload: true, ..self }
            } else if reg == 0xE000 {
                TxromView { irq_pending: false, irq_enabled: true, ..self }
            } else if reg == 0xE001 {
                TxromView { irq_enabled: false, ..self }
            } else {
                self
            };
            (MappedWrite::Unmapped, next)
        } else {
            (MappedWrite::Unmapped, self)
        }
    }
}

impl NROM {
    pub open spec fn read(self, addr: u16) -> MappedRead {
        if addr <= 0x1FFF {
            MappedRead::Chr(addr as usize)
        } else if 0x6000 <= addr <= 0x7FFF {
            MappedRead::PrgRAM((addr & 0x1FFF) as usize)
        } else if 0x8000 <= addr <= 0xBFFF {
            MappedRead::PrgROM((addr & 0x3FFF) as usize)
        } else if 0xC000 <= addr {
            MappedRead::PrgROM((addr & (if self.mirror_prg_rom { 0x3FFFu16 } else { 0x7FFFu16 })) as usize)
        } else {
            MappedRead::Unmapped
        }
    }

    pub open spec fn write(self, addr: u16, data: u8) -> MappedWrite {
        if addr <= 0x1FFF {
            MappedWrite::Chr(addr as usize, data)
        } else if 0x6000 <= addr <= 0x7FFF {
            MappedWrite::PrgRAM((addr & 0x1FFF) as usize, data)
        } else {
            MappedWrite::Unmapped
        }
    }
}

impl MapperView {
    pub open spec fn wf(self) -> bool {
        match self {
            MapperView::TXROM(t) => t.wf(),
            _ => true,
        }
    }

    pub open spec fn mirroring(self) -> ScreenMirroring {
        match self {
            MapperView::Empty => ScreenMirroring::Default,
            MapperView::NROM(m) => m.mirroring,
            MapperView::TXROM(t) => t.mirroring,
        }
    }

    pub open spec fn read(self, addr: u16) -> MappedRead {
        match self {
            MapperView::Empty => MappedRead::Unmapped,
            MapperView::NROM(m) => m.read(addr),
            MapperView::TXROM(t) => t.read(addr),
        }
    }

    pub open spec fn write(self, addr: u16, data: u8) -> (MappedWrite, MapperView) {
        match self {
            MapperView::Empty => (MappedWrite::Unmapped, self),
            MapperView::NROM(m) => (m.write(addr, data), self),
            MapperView::TXROM(t) => (t.write(addr, data).0, MapperView::TXROM(t.write(addr, data).1)),
        }
    }
}

impl NROM {
    /// The fixed mapping for a cartridge with `prg_rom_len` bytes of PRG-ROM.
    pub fn new(mirroring: ScreenMirroring, prg_rom_len: usize) -> (r: NROM)
        ensures
            r.mirroring == mirroring,
            r.mirror_prg_rom == (prg_rom_len <= 0x4000),
    {
        NROM { mirroring, mirror_prg_rom: prg_rom_len <= 0x4000 }
    }

    pub fn map_read(&self, addr: u16) -> (r: MappedRead)
        ensures
            r == self.read(addr),
    {
        if addr <= 0x1FFF {
            MappedRead::Chr(addr as usize)
        } else if 0x6000 <= addr && addr <= 0x7FFF {
            MappedRead::PrgRAM((addr & 0x1FFF) as usize)
        } else if 0x8000 <= addr && addr <= 0xBFFF {
            MappedRead::PrgROM((addr & 0x3FFF) as usize)
        } else if 0xC000 <= addr {
            let mirror_mask: u16 = if self.mirror_prg_rom { 0x3FFF } else { 0x7FFF };
            MappedRead::PrgROM((addr & mirror_mask) as usize)
        } else {
            MappedRead::Unmapped
        }
    }

    pub fn map_write(&self, addr: u16, data: u8) -> (r: MappedWrite)
        ensures
            r == self.write(addr, data),
    {
        if addr <= 0x1FFF {
            MappedWrite::Chr(addr as usize, data)
        } else if 0x6000 <= addr && addr <= 0x7FFF {
            MappedWrite::PrgRAM((addr & 0x1FFF) as usize, data)
        } else {
            MappedWrite::Unmapped
        }
    }
}

impl NROM {
    /// Sets up the fixed mapping for `rom`; a cartridge without CHR-ROM gets 8KB of CHR-RAM.
    pub fn load(rom: &mut ROM) -> (r: Mapper)
        ensures
            r@ == MapperView::NROM(NROM::new_spec(old(rom).header.mirroring, old(rom).prg_rom@.len() as int)),
            final(rom).chr_ram@ == (if old(rom).chr_rom@.len() == 0 {
                Seq::new(0x2000, |i: int| 0u8)
            } else {
                old(rom).chr_ram@
            }),
            final(rom).name == old(rom).name,
            final(rom).header == old(rom).header,
            final(rom).prg_rom@ == old(rom).prg_rom@,
            final(rom).prg_ram@ == old(rom).prg_ram@,
            final(rom).chr_rom@ == old(rom).chr_rom@,
            final(rom).ex_ram@ == old(rom).ex_ram@,
    {
        if !rom.has_chr_rom() {
            rom.chr_ram = vec![0u8; 0x2000];
            assert(rom.chr_ram@ =~= Seq::new(0x2000, |i: int| 0u8));
        }
        Mapper::NROM(NROM::new(rom.header.mirroring, rom.prg_rom.len()))
    }

    pub open spec fn new_spec(mirroring: ScreenMirroring, prg_rom_len: int) -> NROM {
        NROM { mirroring, mirror_prg_rom: prg_rom_len <= 0x4000 }
    }
}

impl TXROM {
    /// Sets up the windowed mapper for `rom`: 8KB of PRG-RAM, 8KB of CHR-RAM
    /// where there is no CHR-ROM, and 4KB of extra nametable memory for four-screen boards.
    pub fn load(rom: &mut ROM) -> (r: Mapper)
        ensures
            r@.wf(),
            r@ is TXROM,
            r@.mirroring() == old(rom).header.mirroring,
            r@->TXROM_0.power_on(
                old(rom).prg_rom@.len(),
                0x2000,
                if old(rom).chr_rom@.len() != 0 { old(rom).chr_rom@.len() } else { 0x2000 },
            ),
            final(rom).prg_ram@ == Seq::new(0x2000, |i: int| 0u8),
            final(rom).chr_ram@ == (if old(rom).chr_rom@.len() == 0 {
                Seq::new(0x2000, |i: int| 0u8)
            } else {
                old(rom).chr_ram@
            }),
            final(rom).ex_ram@ == (if old(rom).header.mirroring == ScreenMirroring::FourScreen {
                Seq::new(0x1000, |i: int| 0u8)
            } else {
                old(rom).ex_ram@
            }),
            final(rom).name == old(rom).name,
            final(rom).header == old(rom).header,
            final(rom).prg_rom@ == old(rom).prg_rom@,
            final(rom).chr_rom@ == old(rom).chr_rom@,
    {
        rom.prg_ram = vec![0u8; 0x2000];
        assert(rom.prg_ram@ =~= Seq::new(0x2000, |i: int| 0u8));
        if !rom.has_chr_rom() {
            rom.chr_ram = vec![0u8; 0x2000];
            assert(rom.chr_ram@ =~= Seq::new(0x2000, |i: int| 0u8));
        }
        if rom.header.mirroring == ScreenMirroring::FourScreen {
            rom.ex_ram = vec![0u8; 0x1000];
            assert(rom.ex_ram@ =~= Seq::new(0x1000, |i: int| 0u8));
        }
        let chr_len = if rom.has_chr_rom() { rom.chr_rom.len() } else { rom.chr_ram.len() };
        Mapper::TXROM(TXROM::new(rom.header.mirroring, rom.prg_rom.len(), rom.prg_ram.len(), chr_len))
    }

    /// The windowed mapper over stores of the given sizes, in its power-on
    /// state: the last two PRG pages sit at the top of PRG space.
    pub fn new(mirroring: ScreenMirroring, prg_rom_len: usize, prg_ram_len: usize, chr_len: usize) -> (r: TXROM)
        ensures
            r@.mirroring == mirroring,
            r@.power_on(prg_rom_len as nat, prg_ram_len as nat, chr_len as nat),
    {
        proof {
            crate::mem::lemma_window_shifts();
        }
        let mut prg_rom_banks = Membank::new(0x8000, 0xFFFF, prg_rom_len, 0x2000);
        assert(prg_rom_banks.banks@[0] == 0 * 0x2000usize);
        assert(prg_rom_banks.banks@[1] == 1 * 0x2000usize);
        let prg_ram_banks = Membank::new(0x6000, 0x7FFF, prg_ram_len, 0x2000);
        let chr_banks = Membank::new(0x0000, 0x1FFF, chr_len, 0x400);
        let last = prg_rom_banks.last();
        let second_last = if last > 0 { last - 1 } else { 0 };
        prg_rom_banks.set(2, second_last);
        prg_rom_banks.set(3, last);
        let regs = TxRegs {
            bank_select: 0,
            bank_values: vec![0u8, 0, 0, 0, 0, 0, 0, 0],
            irq_latch: 0,
            irq_enabled: false,
            irq_reload: false,
        };
        let r = TXROM { mirroring, regs, prg_rom_banks, prg_ram_banks, chr_banks, irq_pending: false };
        assert(r@.bank_values =~= Seq::new(8, |i: int| 0u8));
        assert(r@.shape());
        assert(0u8 & 0x40u8 == 0) by (bit_vector);
        assert(r@.fixed_banks());
        assert(r@.prg_rom_banks.banks[0] == 0);
        assert(r@.prg_rom_banks.banks[1] == 0x2000);
        assert(r@.wf());
        r
    }

    fn update_banks(&mut self)
        requires
            old(self)@.shape(),
        ensures
            final(self)@ == old(self)@.update_banks(),
            final(self)@.wf(),
    {
        let prg_last = self.prg_rom_banks.last();
        let second_last = if prg_last > 0 { prg_last - 1 } else { 0 };
        let prg_lo = self.regs.bank_values[6] as usize;
        let prg_hi = self.regs.bank_values[7] as usize;
        if self.regs.bank_select & 0x40 == 0x40 {
            self.prg_rom_banks.set(0, second_last);
            self.prg_rom_banks.set(1, prg_hi);
            self.prg_rom_banks.set(2, prg_lo);
        } else {
            self.prg_rom_banks.set(0, prg_lo);
            self.prg_rom_banks.set(1, prg_hi);
            self.prg_rom_banks.set(2, second_last);
        }
        self.prg_rom_banks.set(3, prg_last);
        let c0 = (self.regs.bank_values[0] & 0xFE) as usize;
        let c1 = (self.regs.bank_values[1] & 0xFE) as usize;
        let c2 = self.regs.bank_values[2] as usize;
        let c3 = self.regs.bank_values[3] as usize;
        let c4 = self.regs.bank_values[4] as usize;
        let c5 = self.regs.bank_values[5] as usize;
        if self.regs.bank_select & 0x80 == 0x80 {
            self.chr_banks.set(0, c2);
            self.chr_banks.set(1, c3);
            self.chr_banks.set(2, c4);
            self.chr_banks.set(3, c5);
            self.chr_banks.set(4, c0);
            self.chr_banks.set(5, c0 + 1);
            self.chr_banks.set(6, c1);
            self.chr_banks.set(7, c1 + 1);
        } else {
            self.chr_banks.set(0, c0);
            self.chr_banks.set(1, c0 + 1);
            self.chr_banks.set(2, c1);
            self.chr_banks.set(3, c1 + 1);
            self.chr_banks.set(4, c2);
            self.chr_banks.set(5, c3);
            self.chr_banks.set(6, c4);
            self.chr_banks.set(7, c5);
        }
    }

    pub fn map_read(&self, addr: u16) -> (r: MappedRead)
        requires
            self@.wf(),
        ensures
            r == self@.read(addr),
    {
        if addr <= 0x1FFF {
            MappedRead::Chr(self.chr_banks.translate(addr))
        } else if 0x6000 <= addr && addr <= 0x7FFF {
            MappedRead::PrgRAM(self.prg_ram_banks.translate(addr))
        } else if 0x8000 <= addr {
            MappedRead::PrgROM(self.prg_rom_banks.translate(addr))
        } else {
            MappedRead::Unmapped
        }
    }

    pub fn map_write(&mut self, addr: u16, data: u8) -> (r: MappedWrite)
        requires
            old(self)@.wf(),
        ensures
            (r, final(self)@) == old(self)@.write(addr, data),
            final(self)@.wf(),
    {
        if addr <= 0x1FFF {
            MappedWrite::Chr(self.chr_banks.translate(addr), data)
        } else if 0x6000 <= addr && addr <= 0x7FFF {
            MappedWrite::PrgRAM(self.prg_ram_banks.translate(addr), data)
        } else if 0x8000 <= addr {
            let reg = addr & 0xE001;
            if reg == 0x8000 {
                self.regs.bank_select = data;
                self.update_banks();
            } else if reg == 0x8001 {
                let select = self.regs.bank_select;
                let slot = (select & 0x07) as usize;
                assert(select & 0x07 < 8) by (bit_vector);
                self.regs.bank_values.set(slot, data);
                self.update_banks();
            } else if reg == 0xA000 {
                if self.mirroring != ScreenMirroring::FourScreen {
                    self.mirroring = if data & 0x01 == 0 {
                        ScreenMirroring::Vertical
                    } else {
                        ScreenMirroring::Horizontal
                    };
                    self.update_banks();
                }
            } else if reg == 0xC000 {
                self.regs.irq_latch = data;
            } else if reg == 0xC001 {
                self.regs.irq_reload = true;
            } else if reg == 0xE000 {
                self.irq_pending = false;
                self.regs.irq_enabled = true;
            } else if reg == 0xE001 {
                self.regs.irq_enabled = false;
            }
            MappedWrite::Unmapped
        } else {
            MappedWrite::Unmapped
        }
    }
}

impl Mapper {
    /// The mapper of a board with no cartridge logic: nothing is mapped.
    pub fn none() -> (r: Mapper)
        ensures
            r@ == MapperView::Empty,
    {
        Mapper::Empty
    }

    pub fn mirroring(&self) -> (r: ScreenMirroring)
        ensures
            r == self@.mirroring(),
    {
        match self {
            Mapper::Empty => ScreenMirroring::Default,
            Mapper::NROM(m) => m.mirroring,
            Mapper::TXROM(t) => t.mirroring,
        }
    }

    pub fn map_read(&self, addr: u16) -> (r: MappedRead)
        requires
            self@.wf(),
        ensures
            r == self@.read(addr),
    {
        match self {
            Mapper::Empty => MappedRead::Unmapped,
            Mapper::NROM(m) => m.map_read(addr),
            Mapper::TXROM(t) => t.map_read(addr),
        }
    }

    pub fn map_write(&mut self, addr: u16, data: u8) -> (r: MappedWrite)
        requires
            old(self)@.wf(),
        ensures
            (r, final(self)@) == old(self)@.write(addr, data),
            final(self)@.wf(),
    {
        match self {
            Mapper::Empty => MappedWrite::Unmapped,
            Mapper::NROM(m) => m.map_write(addr, data),
            Mapper::TXROM(t) => t.map_write(addr, data),
        }
    }
}

} // verus!
