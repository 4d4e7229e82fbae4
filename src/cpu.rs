//! The 8-bit processor: registers, status flags, addressing modes, the
//! instruction set, stack discipline and interrupt servicing.

use vstd::prelude::*;
use crate::bus::{Bus, BusView};
use crate::flags::{with_bit, CPUFlags, Flag};
use crate::instructions::{lookup, opcode_info, AddressingMode};

verus! {

/// Where the stack page starts.
pub const STACK_PAGE: u16 = 0x0100;
/// The reset vector.
pub const RESET_VECTOR: u16 = 0xFFFC;
/// The non-maskable interrupt vector.
pub const NMI_VECTOR: u16 = 0xFFFA;
/// The stack pointer after a reset.
pub const RESET_SP: u8 = 0xFF;
/// Where test programs are loaded and started.
pub const PROGRAM_START: u16 = 0x0600;

/// A register named by an instruction that works on several of them.
#[derive(Clone, Copy, Debug, PartialEq, Eq, Structural)]
pub enum RegisterID {
    ACC,
    X,
    Y,
    SP,
}

/// The interrupts the processor services.
#[derive(Clone, Copy, Debug, PartialEq, Eq, Structural)]
pub enum InterruptType {
    NMI,
}

impl InterruptType {
    /// Where the handler's address is stored.
    pub fn vector_address(self) -> (r: u16)
        ensures
            r == NMI_VECTOR,
    {
        NMI_VECTOR
    }

    /// The break bits of the flags pushed on entry: bit 5 set, bit 4 clear.
    pub fn interrupt_flag_mask(self) -> (r: u8)
        ensures
            r == 0x20,
    {
        0b0010_0000
    }

    /// The cycles that entering the handler costs.
    pub fn cycles(self) -> (r: u8)
        ensures
            r == 2,
    {
        2
    }
}

/// What one step of the processor came to.
#[derive(Clone, Copy, Debug, PartialEq, Eq, Structural)]
pub enum StepResult {
    /// An instruction ran; the next one may follow.
    Continue,
    /// The halt instruction (opcode 0x00) was reached.
    Halted,
    /// The byte at the program counter is no instruction: execution cannot go on.
    InvalidOpcode(u8),
}

pub struct CPU {
    pub pc: u16,
    pub sp: u8,
    pub acc: u8,
    pub x: u8,
    pub y: u8,
    pub status: CPUFlags,
    pub bus: Bus,
}

/// The processor's state: its registers, and the bus it owns.
pub struct CpuView {
    pub pc: u16,
    pub sp: u8,
    pub acc: u8,
    pub x: u8,
    pub y: u8,
    pub status: u8,
    pub bus: BusView,
}

impl View for CPU {
    type V = CpuView;

    open spec fn view(&self) -> CpuView {
        CpuView {
            pc: self.pc,
            sp: self.sp,
            acc: self.acc,
            x: self.x,
            y: self.y,
            status: self.status.bits,
            bus: self.bus@,
        }
    }
}

/// Whether `a` and `b` lie on different 256-byte pages.
pub open spec fn spec_page_crossed(a: u16, b: u16) -> bool {
    a / 256 != b / 256
}

/// The target of a relative branch whose offset byte `offset` is at `addr`:
/// the offset, read as a signed byte, counts from the address after it.
pub open spec fn relative_target(addr: u16, offset: u8) -> u16 {
    if offset < 128 {
        addr.wrapping_add(1).wrapping_add(offset as u16)
    } else {
        addr.wrapping_add(1).wrapping_sub((256 - offset) as u16)
    }
}

/// Zero and Negative set from `v`.
pub open spec fn nz_bits(status: u8, v: u8) -> u8 {
    with_bit(with_bit(status, Flag::Zero.spec_mask(), v == 0), Flag::Negative.spec_mask(), v & 0x80 != 0)
}

/// Whether `mode` names an operand in memory (or the immediate byte).
pub open spec fn has_operand(mode: AddressingMode) -> bool {
    !(mode is Implied || mode is Accumulator)
}

impl CpuView {
    pub open spec fn wf(self) -> bool {
        self.bus.wf()
    }

    pub open spec fn flag(self, f: Flag) -> bool {
        self.status & f.spec_mask() != 0
    }

    pub open spec fn with_flag(self, f: Flag, on: bool) -> CpuView {
        CpuView { status: with_bit(self.status, f.spec_mask(), on), ..self }
    }

    pub open spec fn with_nz(self, v: u8) -> CpuView {
        CpuView { status: nz_bits(self.status, v), ..self }
    }

    pub open spec fn read(self, addr: u16) -> (u8, CpuView) {
        (self.bus.read(addr).0, CpuView { bus: self.bus.read(addr).1, ..self })
    }

    pub open spec fn read16(self, addr: u16) -> (u16, CpuView) {
        (self.bus.read16(addr).0, CpuView { bus: self.bus.read16(addr).1, ..self })
    }

    pub open spec fn write(self, addr: u16, v: u8) -> CpuView {
        CpuView { bus: self.bus.write(addr, v), ..self }
    }

    /// The address that `mode` names when its operand bytes start at `addr`,
    /// whether finding it crossed a page, and the state after the reads.
    #[verifier::opaque]
    pub open spec fn operand_at(self, mode: AddressingMode, addr: u16) -> (u16, bool, CpuView) {
        match mode {
            AddressingMode::Immediate => (addr, false, self),
            AddressingMode::Absolute => {
                let (a, s) = self.read16(addr);
                (a, false, s)
            },
            AddressingMode::AbsoluteX => {
                let (base, s) = self.read16(addr);
                let t = base.wrapping_add(self.x as u16);
                (t, spec_page_crossed(base, t), s)
            },
            AddressingMode::AbsoluteY => {
                let (base, s) = self.read16(addr);
                let t = base.wrapping_add(self.y as u16);
                (t, spec_page_crossed(base, t), s)
            },
            AddressingMode::ZeroPage => {
                let (b, s) = self.read(addr);
                (b as u16, false, s)
            },
            AddressingMode::ZeroPageX => {
                let (b, s) = self.read(addr);
                (b.wrapping_add(self.x) as u16, false, s)
            },
            AddressingMode::ZeroPageY => {
                let (b, s) = self.read(addr);
                (b.wrapping_add(self.y) as u16, false, s)
            },
            AddressingMode::Indirect => {
                let (ptr, s) = self.read16(addr);
                if ptr % 256 == 0xFF {
                    let (lo, s1) = s.read(ptr);
                    let (hi, s2) = s1.read((ptr / 256 * 256) as u16);
                    ((hi as u16 * 256 + lo as u16) as u16, false, s2)
                } else {
                    let (t, s1) = s.read16(ptr);
                    (t, false, s1)
                }
            },
            AddressingMode::IndirectX => {
                let (b, s) = self.read(addr);
                let p = b.wrapping_add(self.x);
                let (lo, s1) = s.read(p as u16);
                let (hi, s2) = s1.read(p.wrapping_add(1) as u16);
                ((hi as u16 * 256 + lo as u16) as u16, false, s2)
            },
            AddressingMode::IndirectY => {
                let (b, s) = self.read(addr);
                let (lo, s1) = s.read(b as u16);
                let (hi, s2) = s1.read(b.wrapping_add(1) as u16);
                let base = (hi as u16 * 256 + lo as u16) as u16;
                let t = base.wrapping_add(self.y as u16);
                (t, spec_page_crossed(base, t), s2)
            },
            AddressingMode::Relative => {
                let (off, s) = self.read(addr);
                let t = relative_target(addr, off);
                (t, spec_page_crossed(self.pc.wrapping_add(1), t), s)
            },
            _ => (addr, false, self),
        }
    }

    pub open spec fn operand(self, mode: AddressingMode) -> (u16, bool, CpuView) {
        self.operand_at(mode, self.pc)
    }

    #[verifier::opaque]
    pub open spec fn push(self, v: u8) -> CpuView {
        CpuView { sp: self.sp.wrapping_sub(1), ..self.write((STACK_PAGE + self.sp) as u16, v) }
    }

    #[verifier::opaque]
    pub open spec fn pop(self) -> (u8, CpuView) {
        let sp = self.sp.wrapping_add(1);
        let (v, s) = (CpuView { sp, ..self }).read((STACK_PAGE + sp) as u16);
        (v, s)
    }

    #[verifier::opaque]
    pub open spec fn push16(self, v: u16) -> CpuView {
        self.push((v / 256) as u8).push((v % 256) as u8)
    }

    #[verifier::opaque]
    pub open spec fn pop16(self) -> (u16, CpuView) {
        let (lo, s1) = self.pop();
        let (hi, s2) = s1.pop();
        ((hi as u16 * 256 + lo as u16) as u16, s2)
    }

    /// What operation `op` (see `operation_of`) does with addressing mode
    /// `mode`: the state after it, the extra cycles it costs and whether it
    /// set the program counter itself. A page crossed while resolving the
    /// operand costs one extra cycle for the loads, the combined load, and the
    /// reading no-ops; a taken branch costs one, or two onto another page. `None` when the operation needs an
    /// operand and `mode` names none.
    #[verifier::opaque]
    pub open spec fn execute(self, op: u8, mode: AddressingMode) -> Option<(CpuView, u8, bool)> {
        match op {
            1 => Some((self, 0u8, false)),  // nop
            2 => if has_operand(mode) { Some((self.nop_read(mode), (if self.operand(mode).1 { 1u8 } else { 0u8 }), false)) } else { None },  // nop_read
            3 => if has_operand(mode) { Some((self.adc(mode), 0u8, false)) } else { None },  // adc
            4 => if has_operand(mode) { Some((self.sbc(mode), 0u8, false)) } else { None },  // sbc
            5 => if has_operand(mode) { Some((self.and(mode), 0u8, false)) } else { None },  // and
            6 => if has_operand(mode) { Some((self.ora(mode), 0u8, false)) } else { None },  // ora
            7 => if has_operand(mode) { Some((self.eor(mode), 0u8, false)) } else { None },  // eor
            8 => if has_operand(mode) { Some((self.lax(mode), (if self.operand(mode).1 { 1u8 } else { 0u8 }), false)) } else { None },  // lax
            9 => if has_operand(mode) { Some((self.bit(mode), 0u8, false)) } else { None },  // bit
            10 => if has_operand(mode) { Some((self.compare(mode, RegisterID::ACC), 0u8, false)) } else { None },  // cmp
            11 => if has_operand(mode) { Some((self.compare(mode, RegisterID::X), 0u8, false)) } else { None },  // cpx
            12 => if has_operand(mode) { Some((self.compare(mode, RegisterID::Y), 0u8, false)) } else { None },  // cpy
            13 => if has_operand(mode) { Some((self.load(mode, RegisterID::ACC), (if self.operand(mode).1 { 1u8 } else { 0u8 }), false)) } else { None },  // lda
            14 => if has_operand(mode) { Some((self.load(mode, RegisterID::X), (if self.operand(mode).1 { 1u8 } else { 0u8 }), false)) } else { None },  // ldx
            15 => if has_operand(mode) { Some((self.load(mode, RegisterID::Y), (if self.operand(mode).1 { 1u8 } else { 0u8 }), false)) } else { None },  // ldy
            16 => if has_operand(mode) { Some((self.store(mode, self.acc), 0u8, false)) } else { None },  // sta
            17 => if has_operand(mode) { Some((self.store(mode, self.x), 0u8, false)) } else { None },  // stx
            18 => if has_operand(mode) { Some((self.store(mode, self.y), 0u8, false)) } else { None },  // sty
            19 => if has_operand(mode) { Some((self.store(mode, self.acc & self.x), 0u8, false)) } else { None },  // sax
            20 => Some((self.transfer(RegisterID::ACC, RegisterID::X), 0u8, false)),  // tax
            21 => Some((self.transfer(RegisterID::ACC, RegisterID::Y), 0u8, false)),  // tay
            22 => Some((self.transfer(RegisterID::SP, RegisterID::X), 0u8, false)),  // tsx
            23 => Some((self.transfer(RegisterID::X, RegisterID::ACC), 0u8, false)),  // txa
            24 => Some((self.transfer(RegisterID::X, RegisterID::SP), 0u8, false)),  // txs
            25 => Some((self.transfer(RegisterID::Y, RegisterID::ACC), 0u8, false)),  // tya
            26 => Some((self.with_flag(Flag::Carry, false), 0u8, false)),  // clc
            27 => Some((self.with_flag(Flag::DecimalMode, false), 0u8, false)),  // cld
            28 => Some((self.with_flag(Flag::InterruptDisable, false), 0u8, false)),  // cli
            29 => Some((self.with_flag(Flag::Overflow, false), 0u8, false)),  // clv
            30 => Some((self.with_flag(Flag::Carry, true), 0u8, false)),  // sec
            31 => Some((self.with_flag(Flag::DecimalMode, true), 0u8, false)),  // sed
            32 => Some((self.with_flag(Flag::InterruptDisable, true), 0u8, false)),  // sei
            33 => Some((self.dec_reg(RegisterID::X), 0u8, false)),  // dex
            34 => Some((self.dec_reg(RegisterID::Y), 0u8, false)),  // dey
            35 => Some((self.inc_reg(RegisterID::X), 0u8, false)),  // inx
            36 => Some((self.inc_reg(RegisterID::Y), 0u8, false)),  // iny
            37 => if has_operand(mode) { Some((self.inc_mem(mode), 0u8, false)) } else { None },  // inc
            38 => if has_operand(mode) { Some((self.dec_mem(mode), 0u8, false)) } else { None },  // dec
            39 => if has_operand(mode) { Some((self.dcp(mode), 0u8, false)) } else { None },  // dcp
            40 => if has_operand(mode) { Some((self.isb(mode), 0u8, false)) } else { None },  // isb
            41 => Some((self.asl_acc(), 0u8, false)),  // asl_a
            42 => Some((self.lsr_acc(), 0u8, false)),  // lsr_a
            43 => Some((self.rol_acc(), 0u8, false)),  // rol_a
            44 => Some((self.ror_acc(), 0u8, false)),  // ror_a
            45 => if has_operand(mode) { Some(({ let (r, t) = self.shift_mem(mode, 0); CpuView { acc: t.acc | r, ..t }.with_nz(t.acc | r) }, 0u8, false)) } else { None },  // slo
            46 => if has_operand(mode) { Some(({ let (r, t) = self.shift_mem(mode, 1); CpuView { acc: t.acc ^ r, ..t }.with_nz(t.acc ^ r) }, 0u8, false)) } else { None },  // sre
            47 => if has_operand(mode) { Some(({ let (r, t) = self.shift_mem(mode, 2); CpuView { acc: t.acc & r, ..t }.with_nz(t.acc & r) }, 0u8, false)) } else { None },  // rla
            48 => if has_operand(mode) { Some(({ let (r, t) = self.shift_mem(mode, 3); t.add(r) }, 0u8, false)) } else { None },  // rra
            49 => if has_operand(mode) { Some((self.shift_mem(mode, 0).1, 0u8, false)) } else { None },  // asl
            50 => if has_operand(mode) { Some((self.shift_mem(mode, 1).1, 0u8, false)) } else { None },  // lsr
            51 => if has_operand(mode) { Some((self.shift_mem(mode, 2).1, 0u8, false)) } else { None },  // rol
            52 => if has_operand(mode) { Some((self.shift_mem(mode, 3).1, 0u8, false)) } else { None },  // ror
            53 => Some((self.branch(self.flag(Flag::Carry)), self.branch_cycles(self.flag(Flag::Carry)), self.flag(Flag::Carry))),  // bcs
            54 => Some((self.branch(self.flag(Flag::Zero)), self.branch_cycles(self.flag(Flag::Zero)), self.flag(Flag::Zero))),  // beq
            55 => Some((self.branch(self.flag(Flag::Negative)), self.branch_cycles(self.flag(Flag::Negative)), self.flag(Flag::Negative))),  // bmi
            56 => Some((self.branch(self.flag(Flag::Overflow)), self.branch_cycles(self.flag(Flag::Overflow)), self.flag(Flag::Overflow))),  // bvs
            57 => Some((self.branch(!self.flag(Flag::Carry)), self.branch_cycles(!self.flag(Flag::Carry)), !self.flag(Flag::Carry))),  // bcc
            58 => Some((self.branch(!self.flag(Flag::Zero)), self.branch_cycles(!self.flag(Flag::Zero)), !self.flag(Flag::Zero))),  // bne
            59 => Some((self.branch(!self.flag(Flag::Negative)), self.branch_cycles(!self.flag(Flag::Negative)), !self.flag(Flag::Negative))),  // bpl
            60 => Some((self.branch(!self.flag(Flag::Overflow)), self.branch_cycles(!self.flag(Flag::Overflow)), !self.flag(Flag::Overflow))),  // bvc
            61 => if has_operand(mode) { Some((self.jump(mode), 0u8, true)) } else { None },  // jmp
            62 => if has_operand(mode) { Some((self.jsr(mode), 0u8, true)) } else { None },  // jsr
            63 => Some((self.rts(), 0u8, true)),  // rts
            64 => Some((self.rti(), 0u8, true)),  // rti
            65 => Some((self.push(self.acc), 0u8, false)),  // pha
            66 => Some((self.php(), 0u8, false)),  // php
            67 => Some((self.pla(), 0u8, false)),  // pla
            68 => Some((self.plp(), 0u8, false)),  // plp
            _ => Some((self, 0u8, false)),
        }
    }

    /// One step: fetch the opcode at the program counter, look it up, run it,
    /// move the program counter past its operand unless it set it itself,
    /// charge the table's cycles plus the extra ones, then service a pending
    /// interrupt.
    pub open spec fn step(self) -> (CpuView, StepResult) {
        let (opcode, s1) = self.read(self.pc);
        match opcode_info(opcode) {
            None => (s1, StepResult::InvalidOpcode(opcode)),
            Some(info) => {
                let s2 = CpuView { pc: s1.pc.wrapping_add(1), ..s1 };
                if opcode == 0 {
                    (s2, StepResult::Halted)
                } else {
                    match s2.execute(operation_of(opcode), info.mode) {
                        None => (s2, StepResult::InvalidOpcode(opcode)),
                        Some(t) => {
                            let s3 = t.0;
                            let s4 = if t.2 {
                                s3
                            } else {
                                CpuView { pc: s3.pc.wrapping_add(info.bytes.wrapping_sub(1) as u16), ..s3 }
                            };
                            let s5 = CpuView { bus: s4.bus.tick((info.cycles + t.1) as u8).0, ..s4 };
                            let s6 = CpuView { bus: BusView { ppu: s5.bus.ppu.poll_nmi().1, ..s5.bus }, ..s5 };
                            if s5.bus.ppu.nmi is Some {
                                (s6.nmi(), StepResult::Continue)
                            } else {
                                (s6, StepResult::Continue)
                            }
                        },
                    }
                }
            },
        }
    }

    /// `bytes[from..]` written to consecutive addresses starting at `start + from`.
    pub open spec fn write_seq(self, bytes: Seq<u8>, start: u16, from: int) -> CpuView
        decreases bytes.len() - from,
    {
        if from < 0 || from >= bytes.len() {
            self
        } else {
            self.write(start.wrapping_add(from as u16), bytes[from]).write_seq(bytes, start, from + 1)
        }
    }

    /// Steps until one does not continue, for at most `fuel` steps.
    pub open spec fn run_for(self, fuel: nat) -> (CpuView, StepResult)
        decreases fuel,
    {
        if fuel == 0 {
            (self, StepResult::Continue)
        } else {
            let (next, r) = self.step();
            if r is Continue {
                next.run_for((fuel - 1) as nat)
            } else {
                (next, r)
            }
        }
    }

    pub open spec fn get_reg(self, r: RegisterID) -> u8 {
        match r {
            RegisterID::ACC => self.acc,
            RegisterID::X => self.x,
            RegisterID::Y => self.y,
            RegisterID::SP => self.sp,
        }
    }

    pub open spec fn set_reg(self, r: RegisterID, v: u8) -> CpuView {
        match r {
            RegisterID::ACC => CpuView { acc: v, ..self },
            RegisterID::X => CpuView { x: v, ..self },
            RegisterID::Y => CpuView { y: v, ..self },
            RegisterID::SP => CpuView { sp: v, ..self },
        }
    }

    /// The operand's address resolved and the byte there read: the address,
    /// the byte, and the state after.
    #[verifier::opaque]
    pub open spec fn fetch(self, mode: AddressingMode) -> (u16, u8, CpuView) {
        let (a, _c, s1) = self.operand(mode);
        let (v, s2) = s1.read(a);
        (a, v, s2)
    }

    /// Add-with-carry of `v` into the accumulator: Carry when the 9-bit sum
    /// exceeds 0xFF, Overflow when both operands' signs differ from the result's.
    #[verifier::opaque]
    pub open spec fn add(self, v: u8) -> CpuView {
        let c: u16 = if self.flag(Flag::Carry) { 1 } else { 0 };
        let sum = (self.acc as u16 + v as u16 + c) as u16;
        let r = (sum % 256) as u8;
        let overflow = (v ^ r) & (r ^ self.acc) & 0x80 != 0;
        CpuView { acc: r, ..self.with_flag(Flag::Carry, sum > 0xFF).with_flag(Flag::Overflow, overflow) }.with_nz(r)
    }

    #[verifier::opaque]
    pub open spec fn inc_reg(self, r: RegisterID) -> CpuView {
        let v = self.get_reg(r).wrapping_add(1);
        self.set_reg(r, v).with_nz(v)
    }

    #[verifier::opaque]
    pub open spec fn dec_reg(self, r: RegisterID) -> CpuView {
        let v = self.get_reg(r).wrapping_sub(1);
        self.set_reg(r, v).with_nz(v)
    }

    #[verifier::opaque]
    pub open spec fn inc_mem(self, mode: AddressingMode) -> CpuView {
        let (a, v, s) = self.fetch(mode);
        let d = v.wrapping_add(1);
        s.write(a, d).with_nz(d)
    }

    #[verifier::opaque]
    pub open spec fn dec_mem(self, mode: AddressingMode) -> CpuView {
        let (a, v, s) = self.fetch(mode);
        let d = v.wrapping_sub(1);
        s.write(a, d).with_nz(d)
    }

    /// Decrement memory, then compare the accumulator with the result.
    #[verifier::opaque]
    pub open spec fn dcp(self, mode: AddressingMode) -> CpuView {
        let (a, v, s) = self.fetch(mode);
        let d = v.wrapping_sub(1);
        let s2 = s.write(a, d);
        s2.with_flag(Flag::Carry, d <= s2.acc).with_nz(s2.acc.wrapping_sub(d))
    }

    /// Increment memory, then subtract the result from the accumulator.
    #[verifier::opaque]
    pub open spec fn isb(self, mode: AddressingMode) -> CpuView {
        let (a, v, s) = self.fetch(mode);
        let d = v.wrapping_add(1);
        s.write(a, d).with_nz(d).add(!d)
    }

    #[verifier::opaque]
    pub open spec fn ora(self, mode: AddressingMode) -> CpuView {
        let (_a, v, s) = self.fetch(mode);
        CpuView { acc: s.acc | v, ..s }.with_nz(s.acc | v)
    }

    #[verifier::opaque]
    pub open spec fn eor(self, mode: AddressingMode) -> CpuView {
        let (_a, v, s) = self.fetch(mode);
        CpuView { acc: s.acc ^ v, ..s }.with_nz(s.acc ^ v)
    }

    #[verifier::opaque]
    pub open spec fn and(self, mode: AddressingMode) -> CpuView {
        let (_a, v, s) = self.fetch(mode);
        CpuView { acc: s.acc & v, ..s }.with_nz(s.acc & v)
    }

    #[verifier::opaque]
    pub open spec fn adc(self, mode: AddressingMode) -> CpuView {
        let (_a, v, s) = self.fetch(mode);
        s.add(v)
    }

    /// Subtract-with-carry: add-with-carry of the operand's complement.
    #[verifier::opaque]
    pub open spec fn sbc(self, mode: AddressingMode) -> CpuView {
        let (_a, v, s) = self.fetch(mode);
        s.add(!v)
    }

    #[verifier::opaque]
    pub open spec fn asl_acc(self) -> CpuView {
        let r = ((self.acc as u16 * 2) % 256) as u8;
        CpuView { acc: r, ..self.with_flag(Flag::Carry, self.acc >= 128) }.with_nz(r)
    }

    #[verifier::opaque]
    pub open spec fn lsr_acc(self) -> CpuView {
        let r = self.acc / 2;
        CpuView { acc: r, ..self.with_flag(Flag::Carry, self.acc % 2 == 1) }.with_nz(r)
    }

    #[verifier::opaque]
    pub open spec fn rol_acc(self) -> CpuView {
        let r = ((self.acc as u16 * 2) % 256 + if self.flag(Flag::Carry) { 1u16 } else { 0u16 }) as u8;
        CpuView { acc: r, ..self.with_flag(Flag::Carry, self.acc >= 128) }.with_nz(r)
    }

    #[verifier::opaque]
    pub open spec fn ror_acc(self) -> CpuView {
        let r = (self.acc / 2 + if self.flag(Flag::Carry) { 128u8 } else { 0u8 }) as u8;
        CpuView { acc: r, ..self.with_flag(Flag::Carry, self.acc % 2 == 1) }.with_nz(r)
    }

    /// Shift (or rotate) memory: `kind` 0 shifts left, 1 shifts right,
    /// 2 rotates left, 3 rotates right. The byte written back is returned too.
    #[verifier::opaque]
    pub open spec fn shift_mem(self, mode: AddressingMode, kind: u8) -> (u8, CpuView) {
        let (a, v, s) = self.fetch(mode);
        let carry_in = s.flag(Flag::Carry);
        let left = kind == 0 || kind == 2;
        let rotated = kind >= 2;
        let r: u8 = if left {
            ((v as u16 * 2) % 256 + if rotated && carry_in { 1u16 } else { 0u16 }) as u8
        } else {
            (v / 2 + if rotated && carry_in { 128u8 } else { 0u8 }) as u8
        };
        let carry_out = if left { v >= 128 } else { v % 2 == 1 };
        (r, s.with_flag(Flag::Carry, carry_out).with_nz(r).write(a, r))
    }

    #[verifier::opaque]
    pub open spec fn compare(self, mode: AddressingMode, r: RegisterID) -> CpuView {
        let (_a, v, s) = self.fetch(mode);
        let reg = s.get_reg(r);
        s.with_nz(reg.wrapping_sub(v)).with_flag(Flag::Carry, reg >= v)
    }

    /// Bit test: Overflow and Negative copied from the operand, Zero from its
    /// conjunction with the accumulator.
    #[verifier::opaque]
    pub open spec fn bit(self, mode: AddressingMode) -> CpuView {
        let (_a, v, s) = self.fetch(mode);
        s.with_flag(Flag::Overflow, v & 0x40 != 0).with_flag(Flag::Negative, v & 0x80 != 0).with_flag(
            Flag::Zero,
            s.acc & v == 0,
        )
    }

    #[verifier::opaque]
    pub open spec fn load(self, mode: AddressingMode, r: RegisterID) -> CpuView {
        let (_a, v, s) = self.fetch(mode);
        s.set_reg(r, v).with_nz(v)
    }

    #[verifier::opaque]
    pub open spec fn lax(self, mode: AddressingMode) -> CpuView {
        let (_a, v, s) = self.fetch(mode);
        CpuView { acc: v, x: v, ..s }.with_nz(v)
    }

    #[verifier::opaque]
    pub open spec fn store(self, mode: AddressingMode, v: u8) -> CpuView {
        let (a, _c, s) = self.operand(mode);
        s.write(a, v)
    }

    /// A transfer between registers; one into the stack pointer sets no flags.
    #[verifier::opaque]
    pub open spec fn transfer(self, from: RegisterID, to: RegisterID) -> CpuView {
        let v = self.get_reg(from);
        if to == RegisterID::SP {
            self.set_reg(to, v)
        } else {
            self.set_reg(to, v).with_nz(v)
        }
    }

    #[verifier::opaque]
    pub open spec fn nop_read(self, mode: AddressingMode) -> CpuView {
        self.fetch(mode).2
    }

    /// A taken branch moves the program counter to the relative target.
    #[verifier::opaque]
    pub open spec fn branch(self, taken: bool) -> CpuView {
        if taken {
            let (t, _c, s) = self.operand(AddressingMode::Relative);
            CpuView { pc: t, ..s }
        } else {
            self
        }
    }

    /// The extra cycles a branch costs: one when taken, two when taken to another page.
    #[verifier::opaque]
    pub open spec fn branch_cycles(self, taken: bool) -> u8 {
        if taken {
            if self.operand(AddressingMode::Relative).1 { 2 } else { 1 }
        } else {
            0
        }
    }

    #[verifier::opaque]
    pub open spec fn jump(self, mode: AddressingMode) -> CpuView {
        let (t, _c, s) = self.operand(mode);
        CpuView { pc: t, ..s }
    }

    /// Pushes the address of the call's last byte, then jumps.
    #[verifier::opaque]
    pub open spec fn jsr(self, mode: AddressingMode) -> CpuView {
        let s = self.push16(self.pc.wrapping_add(1));
        let (t, _c, s2) = s.operand(mode);
        CpuView { pc: t, ..s2 }
    }

    #[verifier::opaque]
    pub open spec fn rts(self) -> CpuView {
        let (a, s) = self.pop16();
        CpuView { pc: a.wrapping_add(1), ..s }
    }

    #[verifier::opaque]
    pub open spec fn rti(self) -> CpuView {
        let (f, s) = self.pop();
        let (a, s2) = s.pop16();
        CpuView { status: f, pc: a, ..s2 }.with_flag(Flag::Break5, true)
    }

    /// Pushes the flags with both break bits set.
    #[verifier::opaque]
    pub open spec fn php(self) -> CpuView {
        self.push(self.status | 0x30)
    }

    #[verifier::opaque]
    pub open spec fn pla(self) -> CpuView {
        let (v, s) = self.pop();
        CpuView { acc: v, ..s }.with_nz(v)
    }

    /// Pops the flags; break bit 4 is cleared and break bit 5 set.
    #[verifier::opaque]
    pub open spec fn plp(self) -> CpuView {
        let (v, s) = self.pop();
        CpuView { status: v, ..s }.with_flag(Flag::Break4, false).with_flag(Flag::Break5, true)
    }

    /// Services the non-maskable interrupt: pushes the program counter and the
    /// flags (break bit 5 set, bit 4 clear), sets Interrupt-Disable, charges two
    /// cycles and jumps through the interrupt vector.
    #[verifier::opaque]
    pub open spec fn nmi(self) -> CpuView {
        let s = self.push16(self.pc);
        let s1 = s.push((s.status | 0x20) & 0xEF).with_flag(Flag::InterruptDisable, true);
        let s2 = CpuView { bus: s1.bus.tick(2).0, ..s1 };
        let (t, s3) = s2.read16(NMI_VECTOR);
        CpuView { pc: t, ..s3 }
    }
}

impl CPU {
    /// A processor in its power-on state around `bus`.
    pub fn new(bus: Bus) -> (r: CPU)
        ensures
            r@ == (CpuView { pc: 0, sp: 0xFD, acc: 0, x: 0, y: 0, status: 0x24, bus: bus@ }),
    {
        CPU { pc: 0x0000, sp: 0xFD, acc: 0, x: 0, y: 0, status: CPUFlags::from_bits_truncate(0x24), bus }
    }

    pub fn mem_read_u8(&mut self, addr: u16) -> (r: u8)
        requires
            old(self)@.wf(),
        ensures
            (r, final(self)@) == old(self)@.read(addr),
            final(self)@.wf(),
    {
        self.bus.mem_read_u8(addr)
    }

    pub fn mem_read_u16(&mut self, addr: u16) -> (r: u16)
        requires
            old(self)@.wf(),
        ensures
            (r, final(self)@) == old(self)@.read16(addr),
            final(self)@.wf(),
    {
        self.bus.mem_read_u16(addr)
    }

    pub fn mem_write_u8(&mut self, addr: u16, data: u8)
        requires
            old(self)@.wf(),
        ensures
            final(self)@ == old(self)@.write(addr, data),
            final(self)@.wf(),
    {
        self.bus.mem_write_u8(addr, data)
    }

    pub fn mem_write_u16(&mut self, addr: u16, data: u16)
        requires
            old(self)@.wf(),
        ensures
            final(self)@ == (CpuView { bus: old(self)@.bus.write16(addr, data), ..old(self)@ }),
            final(self)@.wf(),
    {
        self.bus.mem_write_u16(addr, data)
    }

    /// Sets the registers to their reset state; the program counter comes from the reset vector.
    pub fn reset(&mut self)
        requires
            old(self)@.wf(),
        ensures
            final(self)@ == (CpuView {
                pc: old(self)@.read16(RESET_VECTOR).0,
                sp: RESET_SP,
                acc: 0,
                x: 0,
                y: 0,
                status: 0,
                bus: old(self)@.read16(RESET_VECTOR).1.bus,
            }),
            final(self)@.wf(),
    {
        self.pc = self.mem_read_u16(RESET_VECTOR);
        self.sp = RESET_SP;
        self.acc = 0;
        self.x = 0;
        self.y = 0;
        self.status = CPUFlags::from_bits_truncate(0);
    }

    pub fn get_absolute_address(&mut self, mode: &AddressingMode, addr: u16) -> (r: (u16, bool))
        requires
            old(self)@.wf(),
            has_operand(*mode),
        ensures
            (r.0, r.1, final(self)@) == old(self)@.operand_at(*mode, addr),
            final(self)@.wf(),
    {
        proof {
            reveal(CpuView::operand_at);
        }
        match mode {
            AddressingMode::Immediate => (addr, false),
            AddressingMode::Absolute => (self.mem_read_u16(addr), false),
            AddressingMode::AbsoluteX => {
                let base = self.mem_read_u16(addr);
                let t = base.wrapping_add(self.x as u16);
                (t, page_crossed(base, t))
            },
            AddressingMode::AbsoluteY => {
                let base = self.mem_read_u16(addr);
                let t = base.wrapping_add(self.y as u16);
                (t, page_crossed(base, t))
            },
            AddressingMode::ZeroPage => (self.mem_read_u8(addr) as u16, false),
            AddressingMode::ZeroPageX => (self.mem_read_u8(addr).wrapping_add(self.x) as u16, false),
            AddressingMode::ZeroPageY => (self.mem_read_u8(addr).wrapping_add(self.y) as u16, false),
            AddressingMode::Indirect => {
                let ptr = self.mem_read_u16(addr);
                if ptr % 256 == 0xFF {
                    let lo = self.mem_read_u8(ptr);
                    let hi = self.mem_read_u8(ptr / 256 * 256);
                    (hi as u16 * 256 + lo as u16, false)
                } else {
                    (self.mem_read_u16(ptr), false)
                }
            },
            AddressingMode::IndirectX => {
                let b = self.mem_read_u8(addr);
                let p = b.wrapping_add(self.x);
                let lo = self.mem_read_u8(p as u16);
                let hi = self.mem_read_u8(p.wrapping_add(1) as u16);
                (hi as u16 * 256 + lo as u16, false)
            },
            AddressingMode::IndirectY => {
                let b = self.mem_read_u8(addr);
                let lo = self.mem_read_u8(b as u16);
                let hi = self.mem_read_u8(b.wrapping_add(1) as u16);
                let base = hi as u16 * 256 + lo as u16;
                let t = base.wrapping_add(self.y as u16);
                (t, page_crossed(base, t))
            },
            AddressingMode::Relative => {
                let off = self.mem_read_u8(addr);
                let t = if off < 128 {
                    addr.wrapping_add(1).wrapping_add(off as u16)
                } else {
                    addr.wrapping_add(1).wrapping_sub(256 - off as u16)
                };
                (t, page_crossed(self.pc.wrapping_add(1), t))
            },
            _ => (addr, false),
        }
    }

    /// The operand address of the instruction whose operand bytes start at `pc`.
    pub fn get_operand_address(&mut self, mode: &AddressingMode) -> (r: (u16, bool))
        requires
            old(self)@.wf(),
            has_operand(*mode),
        ensures
            (r.0, r.1, final(self)@) == old(self)@.operand(*mode),
            final(self)@.wf(),
    {
        let pc = self.pc;
        self.get_absolute_address(mode, pc)
    }

    pub fn set_flag(&mut self, flag: Flag)
        ensures
            final(self)@.bus == old(self)@.bus,
            final(self)@ == old(self)@.with_flag(flag, true),
    {
        self.status.insert(flag);
    }

    pub fn clear_flag(&mut self, flag: Flag)
        ensures
            final(self)@.bus == old(self)@.bus,
            final(self)@ == old(self)@.with_flag(flag, false),
    {
        self.status.remove(flag);
    }

    /// Sets `flag` when `condition` holds and clears it otherwise.
    pub fn conditional_flag_set(&mut self, condition: bool, flag: Flag)
        ensures
            final(self)@.bus == old(self)@.bus,
            final(self)@ == old(self)@.with_flag(flag, condition),
    {
        self.status.set(flag, condition);
    }

    pub fn is_flag_set(&self, flag: Flag) -> (r: bool)
        ensures
            r == self@.flag(flag),
    {
        self.status.contains(flag)
    }

    /// Zero set iff `value` is 0; Negative a copy of its bit 7.
    pub fn set_negative_and_zero_flags(&mut self, value: u8)
        ensures
            final(self)@.bus == old(self)@.bus,
            final(self)@ == old(self)@.with_nz(value),
    {
        self.conditional_flag_set(value == 0, Flag::Zero);
        self.conditional_flag_set(value & 0x80 != 0, Flag::Negative);
    }

    fn fetch(&mut self, mode: &AddressingMode) -> (r: (u16, u8, bool))
        requires
            old(self)@.wf(),
            has_operand(*mode),
        ensures
            (r.0, r.1, final(self)@) == old(self)@.fetch(*mode),
            r.2 == old(self)@.operand(*mode).1,
            final(self)@.wf(),
    {
        proof {
            reveal(CpuView::fetch);
        }
        let (a, crossed) = self.get_operand_address(mode);
        let v = self.mem_read_u8(a);
        (a, v, crossed)
    }

    fn get_register(&self, r: &RegisterID) -> (v: u8)
        ensures
            v == self@.get_reg(*r),
    {
        match r {
            RegisterID::ACC => self.acc,
            RegisterID::X => self.x,
            RegisterID::Y => self.y,
            RegisterID::SP => self.sp,
        }
    }

    fn set_register(&mut self, r: &RegisterID, v: u8)
        ensures
            final(self)@.bus == old(self)@.bus,
            final(self)@ == old(self)@.set_reg(*r, v),
    {
        match r {
            RegisterID::ACC => self.acc = v,
            RegisterID::X => self.x = v,
            RegisterID::Y => self.y = v,
            RegisterID::SP => self.sp = v,
        }
    }

    pub fn increment_register(&mut self, target: &RegisterID)
        requires
            *target == RegisterID::X || *target == RegisterID::Y,
        ensures
            final(self)@.bus == old(self)@.bus,
            final(self)@ == old(self)@.inc_reg(*target),
    {
        proof {
            reveal(CpuView::inc_reg);
        }
        let v = self.get_register(target).wrapping_add(1);
        self.set_register(target, v);
        self.set_negative_and_zero_flags(v);
    }

    pub fn decrement_register(&mut self, target: &RegisterID)
        requires
            *target == RegisterID::X || *target == RegisterID::Y,
        ensures
            final(self)@.bus == old(self)@.bus,
            final(self)@ == old(self)@.dec_reg(*target),
    {
        proof {
            reveal(CpuView::dec_reg);
        }
        let v = self.get_register(target).wrapping_sub(1);
        self.set_register(target, v);
        self.set_negative_and_zero_flags(v);
    }

    pub fn increment_memory(&mut self, mode: &AddressingMode)
        requires
            old(self)@.wf(),
            has_operand(*mode),
        ensures
            final(self)@ == old(self)@.inc_mem(*mode),
            final(self)@.wf(),
    {
        proof {
            reveal(CpuView::inc_mem);
        }
        let (a, v, _) = self.fetch(mode);
        let d = v.wrapping_add(1);
        self.mem_write_u8(a, d);
        self.set_negative_and_zero_flags(d);
    }

    pub fn decrement_memory(&mut self, mode: &AddressingMode)
        requires
            old(self)@.wf(),
            has_operand(*mode),
        ensures
            final(self)@ == old(self)@.dec_mem(*mode),
            final(self)@.wf(),
    {
        proof {
            reveal(CpuView::dec_mem);
        }
        let (a, v, _) = self.fetch(mode);
        let d = v.wrapping_sub(1);
        self.mem_write_u8(a, d);
        self.set_negative_and_zero_flags(d);
    }

    /// Decrements memory and compares the accumulator with the result.
    pub fn decrement_memory_unofficial(&mut self, mode: &AddressingMode)
        requires
            old(self)@.wf(),
            has_operand(*mode),
        ensures
            final(self)@ == old(self)@.dcp(*mode),
            final(self)@.wf(),
    {
        proof {
            reveal(CpuView::dcp);
        }
        let (a, v, _) = self.fetch(mode);
        let d = v.wrapping_sub(1);
        self.mem_write_u8(a, d);
        self.conditional_flag_set(d <= self.acc, Flag::Carry);
        self.set_negative_and_zero_flags(self.acc.wrapping_sub(d));
    }

    /// Increments memory and subtracts the result from the accumulator.
    pub fn increment_mem_and_subtract_from_acc(&mut self, mode: &AddressingMode)
        requires
            old(self)@.wf(),
            has_operand(*mode),
        ensures
            final(self)@ == old(self)@.isb(*mode),
            final(self)@.wf(),
    {
        proof {
            reveal(CpuView::isb);
        }
        let (a, v, _) = self.fetch(mode);
        let d = v.wrapping_add(1);
        self.mem_write_u8(a, d);
        self.set_negative_and_zero_flags(d);
        self.add_to_acc(!d);
    }

    pub fn inclusive_or(&mut self, mode: &AddressingMode) -> (crossed: bool)
        requires
            old(self)@.wf(),
            has_operand(*mode),
        ensures
            final(self)@ == old(self)@.ora(*mode),
            crossed == old(self)@.operand(*mode).1,
            final(self)@.wf(),
    {
        proof {
            reveal(CpuView::ora);
        }
        let (_, v, crossed) = self.fetch(mode);
        self.acc = self.acc | v;
        self.set_negative_and_zero_flags(self.acc);
        crossed
    }

    pub fn exclusive_or(&mut self, mode: &AddressingMode) -> (crossed: bool)
        requires
            old(self)@.wf(),
            has_operand(*mode),
        ensures
            final(self)@ == old(self)@.eor(*mode),
            crossed == old(self)@.operand(*mode).1,
            final(self)@.wf(),
    {
        proof {
            reveal(CpuView::eor);
        }
        let (_, v, crossed) = self.fetch(mode);
        self.acc = self.acc ^ v;
        self.set_negative_and_zero_flags(self.acc);
        crossed
    }

    pub fn and(&mut self, mode: &AddressingMode) -> (crossed: bool)
        requires
            old(self)@.wf(),
            has_operand(*mode),
        ensures
            final(self)@ == old(self)@.and(*mode),
            crossed == old(self)@.operand(*mode).1,
            final(self)@.wf(),
    {
        proof {
            reveal(CpuView::and);
        }
        let (_, v, crossed) = self.fetch(mode);
        self.acc = self.acc & v;
        self.set_negative_and_zero_flags(self.acc);
        crossed
    }

    /// Add-with-carry of `data` into the accumulator.
    pub fn add_to_acc(&mut self, data: u8)
        ensures
            final(self)@.bus == old(self)@.bus,
            final(self)@ == old(self)@.add(data),
    {
        proof {
            reveal(CpuView::add);
        }
        let c: u16 = if self.is_flag_set(Flag::Carry) { 1 } else { 0 };
        let sum: u16 = self.acc as u16 + data as u16 + c;
        let r = (sum % 256) as u8;
        let overflow = (data ^ r) & (r ^ self.acc) & 0x80 != 0;
        self.conditional_flag_set(sum > 0xFF, Flag::Carry);
        self.conditional_flag_set(overflow, Flag::Overflow);
        self.acc = r;
        self.set_negative_and_zero_flags(r);
    }

    pub fn add_with_carry(&mut self, mode: &AddressingMode) -> (crossed: bool)
        requires
            old(self)@.wf(),
            has_operand(*mode),
        ensures
            final(self)@ == old(self)@.adc(*mode),
            crossed == old(self)@.operand(*mode).1,
            final(self)@.wf(),
    {
        proof {
            reveal(CpuView::adc);
        }
        let (_, v, crossed) = self.fetch(mode);
        self.add_to_acc(v);
        crossed
    }

    pub fn subtract_with_carry(&mut self, mode: &AddressingMode) -> (crossed: bool)
        requires
            old(self)@.wf(),
            has_operand(*mode),
        ensures
            final(self)@ == old(self)@.sbc(*mode),
            crossed == old(self)@.operand(*mode).1,
            final(self)@.wf(),
    {
        proof {
            reveal(CpuView::sbc);
        }
        let (_, v, crossed) = self.fetch(mode);
        self.add_to_acc(!v);
        crossed
    }

    pub fn acc_shift_left(&mut self)
        ensures
            final(self)@.bus == old(self)@.bus,
            final(self)@ == old(self)@.asl_acc(),
    {
        proof {
            reveal(CpuView::asl_acc);
        }
        let r = ((self.acc as u16 * 2) % 256) as u8;
        self.conditional_flag_set(self.acc >= 128, Flag::Carry);
        self.acc = r;
        self.set_negative_and_zero_flags(r);
    }

    pub fn acc_shift_right(&mut self)
        ensures
            final(self)@.bus == old(self)@.bus,
            final(self)@ == old(self)@.lsr_acc(),
    {
        proof {
            reveal(CpuView::lsr_acc);
        }
        let r = self.acc / 2;
        self.conditional_flag_set(self.acc % 2 == 1, Flag::Carry);
        self.acc = r;
        self.set_negative_and_zero_flags(r);
    }

    pub fn rotate_acc_left(&mut self)
        ensures
            final(self)@.bus == old(self)@.bus,
            final(self)@ == old(self)@.rol_acc(),
    {
        proof {
            reveal(CpuView::rol_acc);
        }
        let carry_in: u16 = if self.is_flag_set(Flag::Carry) { 1 } else { 0 };
        let r = ((self.acc as u16 * 2) % 256 + carry_in) as u8;
        self.conditional_flag_set(self.acc >= 128, Flag::Carry);
        self.acc = r;
        self.set_negative_and_zero_flags(r);
    }

    pub fn rotate_acc_right(&mut self)
        ensures
            final(self)@.bus == old(self)@.bus,
            final(self)@ == old(self)@.ror_acc(),
    {
        proof {
            reveal(CpuView::ror_acc);
        }
        let carry_in: u8 = if self.is_flag_set(Flag::Carry) { 128 } else { 0 };
        let r = self.acc / 2 + carry_in;
        self.conditional_flag_set(self.acc % 2 == 1, Flag::Carry);
        self.acc = r;
        self.set_negative_and_zero_flags(r);
    }

    /// Shifts or rotates a byte of memory (see `CpuView::shift_mem` for `kind`)
    /// and returns the byte written back.
    fn shift_memory(&mut self, mode: &AddressingMode, kind: u8) -> (r: u8)
        requires
            old(self)@.wf(),
            has_operand(*mode),
        ensures
            (r, final(self)@) == old(self)@.shift_mem(*mode, kind),
            final(self)@.wf(),
    {
        proof {
            reveal(CpuView::shift_mem);
        }
        let (a, v, _) = self.fetch(mode);
        let carry_in = self.is_flag_set(Flag::Carry);
        let left = kind == 0 || kind == 2;
        let rotated = kind >= 2;
        let r: u8 = if left {
            ((v as u16 * 2) % 256 + if rotated && carry_in { 1u16 } else { 0u16 }) as u8
        } else {
            v / 2 + if rotated && carry_in { 128u8 } else { 0u8 }
        };
        let carry_out = if left { v >= 128 } else { v % 2 == 1 };
        self.conditional_flag_set(carry_out, Flag::Carry);
        self.set_negative_and_zero_flags(r);
        self.mem_write_u8(a, r);
        r
    }

    pub fn mem_shift_left(&mut self, mode: &AddressingMode)
        requires
            old(self)@.wf(),
            has_operand(*mode),
        ensures
            final(self)@ == old(self)@.shift_mem(*mode, 0).1,
            final(self)@.wf(),
    {
        self.shift_memory(mode, 0);
    }

    pub fn mem_shift_right(&mut self, mode: &AddressingMode)
        requires
            old(self)@.wf(),
            has_operand(*mode),
        ensures
            final(self)@ == old(self)@.shift_mem(*mode, 1).1,
            final(self)@.wf(),
    {
        self.shift_memory(mode, 1);
    }

    pub fn rotate_mem_left(&mut self, mode: &AddressingMode)
        requires
            old(self)@.wf(),
            has_operand(*mode),
        ensures
            final(self)@ == old(self)@.shift_mem(*mode, 2).1,
            final(self)@.wf(),
    {
        self.shift_memory(mode, 2);
    }

    pub fn rotate_mem_right(&mut self, mode: &AddressingMode)
        requires
            old(self)@.wf(),
            has_operand(*mode),
        ensures
            final(self)@ == old(self)@.shift_mem(*mode, 3).1,
            final(self)@.wf(),
    {
        self.shift_memory(mode, 3);
    }

    /// Shifts memory left, then ORs the result into the accumulator.
    pub fn arithmetic_shift_left_and_or_with_acc(&mut self, mode: &AddressingMode)
        requires
            old(self)@.wf(),
            has_operand(*mode),
        ensures
            ({
                let (r, s) = old(self)@.shift_mem(*mode, 0);
                final(self)@ == (CpuView { acc: s.acc | r, ..s }).with_nz(s.acc | r)
            }),
            final(self)@.wf(),
    {
        let r = self.shift_memory(mode, 0);
        self.acc = self.acc | r;
        self.set_negative_and_zero_flags(self.acc);
    }

    /// Shifts memory right, then XORs the result into the accumulator.
    pub fn logical_shift_right_and_xor_with_acc(&mut self, mode: &AddressingMode)
        requires
            old(self)@.wf(),
            has_operand(*mode),
        ensures
            ({
                let (r, s) = old(self)@.shift_mem(*mode, 1);
                final(self)@ == (CpuView { acc: s.acc ^ r, ..s }).with_nz(s.acc ^ r)
            }),
            final(self)@.wf(),
    {
        let r = self.shift_memory(mode, 1);
        self.acc = self.acc ^ r;
        self.set_negative_and_zero_flags(self.acc);
    }

    /// Rotates memory left, then ANDs the result into the accumulator.
    pub fn rotate_left_and_and_with_acc(&mut self, mode: &AddressingMode)
        requires
            old(self)@.wf(),
            has_operand(*mode),
        ensures
            ({
                let (r, s) = old(self)@.shift_mem(*mode, 2);
                final(self)@ == (CpuView { acc: s.acc & r, ..s }).with_nz(s.acc & r)
            }),
            final(self)@.wf(),
    {
        let r = self.shift_memory(mode, 2);
        self.acc = self.acc & r;
        self.set_negative_and_zero_flags(self.acc);
    }

    /// Rotates memory right, then adds the result (with the new carry) to the accumulator.
    pub fn rotate_right_and_add_to_acc(&mut self, mode: &AddressingMode)
        requires
            old(self)@.wf(),
            has_operand(*mode),
        ensures
            ({
                let (r, s) = old(self)@.shift_mem(*mode, 3);
                final(self)@ == s.add(r)
            }),
            final(self)@.wf(),
    {
        let r = self.shift_memory(mode, 3);
        self.add_to_acc(r);
    }

    pub fn compare_register(&mut self, mode: &AddressingMode, target: &RegisterID) -> (crossed: bool)
        requires
            old(self)@.wf(),
            has_operand(*mode),
            *target != RegisterID::SP,
        ensures
            final(self)@ == old(self)@.compare(*mode, *target),
            crossed == old(self)@.operand(*mode).1,
            final(self)@.wf(),
    {
        proof {
            reveal(CpuView::compare);
        }
        let (_, v, crossed) = self.fetch(mode);
        let reg = self.get_register(target);
        self.set_negative_and_zero_flags(reg.wrapping_sub(v));
        self.conditional_flag_set(reg >= v, Flag::Carry);
        crossed
    }

    pub fn bit(&mut self, mode: &AddressingMode)
        requires
            old(self)@.wf(),
            has_operand(*mode),
        ensures
            final(self)@ == old(self)@.bit(*mode),
            final(self)@.wf(),
    {
        proof {
            reveal(CpuView::bit);
        }
        let (_, v, _) = self.fetch(mode);
        self.conditional_flag_set(v & 0x40 != 0, Flag::Overflow);
        self.conditional_flag_set(v & 0x80 != 0, Flag::Negative);
        self.conditional_flag_set(self.acc & v == 0, Flag::Zero);
    }

    pub fn load_register(&mut self, mode: &AddressingMode, target: &RegisterID) -> (crossed: bool)
        requires
            old(self)@.wf(),
            has_operand(*mode),
            *target != RegisterID::SP,
        ensures
            final(self)@ == old(self)@.load(*mode, *target),
            crossed == old(self)@.operand(*mode).1,
            final(self)@.wf(),
    {
        proof {
            reveal(CpuView::load);
        }
        let (_, v, crossed) = self.fetch(mode);
        self.set_register(target, v);
        self.set_negative_and_zero_flags(v);
        crossed
    }

    /// Loads the operand into both the accumulator and X.
    pub fn load_acc_and_x(&mut self, mode: &AddressingMode) -> (crossed: bool)
        requires
            old(self)@.wf(),
            has_operand(*mode),
        ensures
            final(self)@ == old(self)@.lax(*mode),
            crossed == old(self)@.operand(*mode).1,
            final(self)@.wf(),
    {
        proof {
            reveal(CpuView::lax);
        }
        let (_, v, crossed) = self.fetch(mode);
        self.acc = v;
        self.x = v;
        self.set_negative_and_zero_flags(v);
        crossed
    }

    pub fn store_register(&mut self, mode: &AddressingMode, source: &RegisterID)
        requires
            old(self)@.wf(),
            has_operand(*mode),
            *source != RegisterID::SP,
        ensures
            final(self)@ == old(self)@.store(*mode, old(self)@.get_reg(*source)),
            final(self)@.wf(),
    {
        proof {
            reveal(CpuView::store);
        }
        let v = self.get_register(source);
        let (a, _) = self.get_operand_address(mode);
        self.mem_write_u8(a, v);
    }

    /// Stores the conjunction of two registers.
    pub fn store_registers(&mut self, mode: &AddressingMode, reg_a: &RegisterID, reg_b: &RegisterID)
        requires
            old(self)@.wf(),
            has_operand(*mode),
            *reg_a != RegisterID::SP,
            *reg_b != RegisterID::SP,
        ensures
            final(self)@ == old(self)@.store(*mode, old(self)@.get_reg(*reg_a) & old(self)@.get_reg(*reg_b)),
            final(self)@.wf(),
    {
        proof {
            reveal(CpuView::store);
        }
        let v = self.get_register(reg_a) & self.get_register(reg_b);
        let (a, _) = self.get_operand_address(mode);
        self.mem_write_u8(a, v);
    }

    pub fn transfer_register(&mut self, source: &RegisterID, target: &RegisterID)
        ensures
            final(self)@.bus == old(self)@.bus,
            final(self)@ == old(self)@.transfer(*source, *target),
    {
        proof {
            reveal(CpuView::transfer);
        }
        let v = self.get_register(source);
        self.set_register(target, v);
        if *target != RegisterID::SP {
            self.set_negative_and_zero_flags(v);
        }
    }

    /// Reads the operand and discards it.
    pub fn nop_read(&mut self, mode: &AddressingMode) -> (crossed: bool)
        requires
            old(self)@.wf(),
            has_operand(*mode),
        ensures
            final(self)@ == old(self)@.nop_read(*mode),
            crossed == old(self)@.operand(*mode).1,
            final(self)@.wf(),
    {
        proof {
            reveal(CpuView::nop_read);
        }
        let (_, _, crossed) = self.fetch(mode);
        crossed
    }

    fn get_stack_pointer_addr(&self) -> (r: u16)
        ensures
            r == STACK_PAGE + self.sp,
    {
        STACK_PAGE + self.sp as u16
    }

    /// Writes `value` at the top of the stack, then moves the stack pointer down.
    pub fn stack_push_u8(&mut self, value: u8)
        requires
            old(self)@.wf(),
        ensures
            final(self)@ == old(self)@.push(value),
            final(self)@.wf(),
    {
        proof {
            reveal(CpuView::push);
        }
        let a = self.get_stack_pointer_addr();
        self.mem_write_u8(a, value);
        self.sp = self.sp.wrapping_sub(1);
    }

    /// Moves the stack pointer up, then reads the byte there.
    pub fn stack_pop_u8(&mut self) -> (r: u8)
        requires
            old(self)@.wf(),
        ensures
            (r, final(self)@) == old(self)@.pop(),
            final(self)@.wf(),
    {
        proof {
            reveal(CpuView::pop);
        }
        self.sp = self.sp.wrapping_add(1);
        let a = self.get_stack_pointer_addr();
        self.mem_read_u8(a)
    }

    /// Pushes the high byte, then the low byte.
    pub fn stack_push_u16(&mut self, value: u16)
        requires
            old(self)@.wf(),
        ensures
            final(self)@ == old(self)@.push16(value),
            final(self)@.wf(),
    {
        proof {
            reveal(CpuView::push16);
        }
        self.stack_push_u8((value / 256) as u8);
        self.stack_push_u8((value % 256) as u8);
    }

    pub fn stack_pop_u16(&mut self) -> (r: u16)
        requires
            old(self)@.wf(),
        ensures
            (r, final(self)@) == old(self)@.pop16(),
            final(self)@.wf(),
    {
        proof {
            reveal(CpuView::pop16);
        }
        let lo = self.stack_pop_u8() as u16;
        let hi = self.stack_pop_u8() as u16;
        hi * 256 + lo
    }

    pub fn stack_pop_acc(&mut self)
        requires
            old(self)@.wf(),
        ensures
            final(self)@ == old(self)@.pla(),
            final(self)@.wf(),
    {
        proof {
            reveal(CpuView::pla);
        }
        self.acc = self.stack_pop_u8();
        self.set_negative_and_zero_flags(self.acc);
    }

    /// Pushes the flags with both break bits set.
    pub fn stack_push_status(&mut self)
        requires
            old(self)@.wf(),
        ensures
            final(self)@ == old(self)@.php(),
            final(self)@.wf(),
    {
        proof {
            reveal(CpuView::php);
        }
        let bits = self.status.bits() | 0x30;
        self.stack_push_u8(bits);
    }

    /// Pops the flags; break bit 4 is cleared and break bit 5 set.
    pub fn stack_pop_status(&mut self)
        requires
            old(self)@.wf(),
        ensures
            final(self)@ == old(self)@.plp(),
            final(self)@.wf(),
    {
        proof {
            reveal(CpuView::plp);
        }
        let v = self.stack_pop_u8();
        self.status = CPUFlags::from_bits_truncate(v);
        self.clear_flag(Flag::Break4);
        self.set_flag(Flag::Break5);
    }

    pub fn return_from_interrupt(&mut self)
        requires
            old(self)@.wf(),
        ensures
            final(self)@ == old(self)@.rti(),
            final(self)@.wf(),
    {
        proof {
            reveal(CpuView::rti);
        }
        let v = self.stack_pop_u8();
        let a = self.stack_pop_u16();
        self.status = CPUFlags::from_bits_truncate(v);
        self.pc = a;
        self.set_flag(Flag::Break5);
    }

    pub fn jump(&mut self, mode: &AddressingMode)
        requires
            old(self)@.wf(),
            has_operand(*mode),
        ensures
            final(self)@ == old(self)@.jump(*mode),
            final(self)@.wf(),
    {
        proof {
            reveal(CpuView::jump);
        }
        let (t, _) = self.get_operand_address(mode);
        self.pc = t;
    }

    /// Pushes the address of the call's last byte (the return address less
    /// one), then jumps to the subroutine.
    pub fn jump_to_subroutine(&mut self, mode: &AddressingMode)
        requires
            old(self)@.wf(),
            has_operand(*mode),
        ensures
            final(self)@ == old(self)@.jsr(*mode),
            final(self)@.wf(),
    {
        proof {
            reveal(CpuView::jsr);
        }
        let ret = self.pc.wrapping_add(1);
        self.stack_push_u16(ret);
        let (t, _) = self.get_operand_address(mode);
        self.pc = t;
    }

    /// Pops the return address less one, and adds the one back.
    pub fn return_from_subroutine(&mut self)
        requires
            old(self)@.wf(),
        ensures
            final(self)@ == old(self)@.rts(),
            final(self)@.wf(),
    {
        proof {
            reveal(CpuView::rts);
        }
        let a = self.stack_pop_u16();
        self.pc = a.wrapping_add(1);
    }

    /// A relative branch: taken when `condition` holds. Returns the extra
    /// cycles it costs.
    pub fn branch_if(&mut self, condition: bool) -> (extra: u8)
        requires
            old(self)@.wf(),
        ensures
            final(self)@ == old(self)@.branch(condition),
            extra == old(self)@.branch_cycles(condition),
            extra <= 2,
            final(self)@.wf(),
    {
        proof {
            reveal(CpuView::branch);
            reveal(CpuView::branch_cycles);
        }
        if condition {
            let (t, crossed) = self.get_operand_address(&AddressingMode::Relative);
            self.pc = t;
            if crossed { 2 } else { 1 }
        } else {
            0
        }
    }

    /// Services an interrupt: pushes the program counter and the flags,
    /// sets Interrupt-Disable, charges the entry cycles and jumps through the
    /// interrupt's vector.
    pub fn interrupt(&mut self, kind: InterruptType)
        requires
            old(self)@.wf(),
        ensures
            final(self)@ == old(self)@.nmi(),
            final(self)@.wf(),
    {
        proof {
            reveal(CpuView::nmi);
        }
        let pc = self.pc;
        self.stack_push_u16(pc);
        let flags = (self.status.bits() | kind.interrupt_flag_mask()) & 0xEF;
        self.stack_push_u8(flags);
        self.set_flag(Flag::InterruptDisable);
        self.bus.tick_cycles(kind.cycles());
        self.pc = self.mem_read_u16(kind.vector_address());
    }
    /// Runs operation `op` (see `operation_of`) with addressing mode `mode`.
    /// Returns the extra cycles and whether the program counter was set, or
    /// `None` when the operation needs an operand and `mode` names none.
    fn execute(&mut self, op: u8, mode: AddressingMode) -> (r: Option<(u8, bool)>)
        requires
            old(self)@.wf(),
        ensures
            match old(self)@.execute(op, mode) {
                None => r is None && final(self)@ == old(self)@,
                Some(t) => r == Some((t.1, t.2)) && final(self)@ == t.0,
            },
            r matches Some(t) ==> t.0 <= 2,
            final(self)@.wf(),
    {
        if 1 <= op && op <= 12 {
            self.execute_0(op, mode)
        } else if 13 <= op && op <= 24 {
            self.execute_1(op, mode)
        } else if 25 <= op && op <= 36 {
            self.execute_2(op, mode)
        } else if 37 <= op && op <= 48 {
            self.execute_3(op, mode)
        } else if 49 <= op && op <= 60 {
            self.execute_4(op, mode)
        } else if 61 <= op && op <= 68 {
            self.execute_5(op, mode)
        } else {
            proof { reveal(CpuView::execute); }
            Some((0, false))
        }
    }

    fn execute_0(&mut self, op: u8, mode: AddressingMode) -> (r: Option<(u8, bool)>)
        requires
            old(self)@.wf(),
            1 <= op <= 12,
        ensures
            match old(self)@.execute(op, mode) {
                None => r is None && final(self)@ == old(self)@,
                Some(t) => r == Some((t.1, t.2)) && final(self)@ == t.0,
            },
            r matches Some(t) ==> t.0 <= 2,
            final(self)@.wf(),
    {
        proof { reveal(CpuView::execute); }
        let needs_operand = mode_has_operand(mode);
        match op {
            1 => {  Some((0, false)) },
            2 => { if needs_operand { let c = self.nop_read(&mode); Some((if c { 1 } else { 0 }, false)) } else { None } },
            3 => { if needs_operand { self.add_with_carry(&mode); Some((0, false)) } else { None } },
            4 => { if needs_operand { self.subtract_with_carry(&mode); Some((0, false)) } else { None } },
            5 => { if needs_operand { self.and(&mode); Some((0, false)) } else { None } },
            6 => { if needs_operand { self.inclusive_or(&mode); Some((0, false)) } else { None } },
            7 => { if needs_operand { self.exclusive_or(&mode); Some((0, false)) } else { None } },
            8 => { if needs_operand { let c = self.load_acc_and_x(&mode); Some((if c { 1 } else { 0 }, false)) } else { None } },
            9 => { if needs_operand { self.bit(&mode); Some((0, false)) } else { None } },
            10 => { if needs_operand { self.compare_register(&mode, &RegisterID::ACC); Some((0, false)) } else { None } },
            11 => { if needs_operand { self.compare_register(&mode, &RegisterID::X); Some((0, false)) } else { None } },
            12 => { if needs_operand { self.compare_register(&mode, &RegisterID::Y); Some((0, false)) } else { None } },
            _ => Some((0, false)),
        }
    }

    fn execute_1(&mut self, op: u8, mode: AddressingMode) -> (r: Option<(u8, bool)>)
        requires
            old(self)@.wf(),
            13 <= op <= 24,
        ensures
            match old(self)@.execute(op, mode) {
                None => r is None && final(self)@ == old(self)@,
                Some(t) => r == Some((t.1, t.2)) && final(self)@ == t.0,
            },
            r matches Some(t) ==> t.0 <= 2,
            final(self)@.wf(),
    {
        proof { reveal(CpuView::execute); }
        let needs_operand = mode_has_operand(mode);
        match op {
            13 => { if needs_operand { let c = self.load_register(&mode, &RegisterID::ACC); Some((if c { 1 } else { 0 }, false)) } else { None } },
            14 => { if needs_operand { let c = self.load_register(&mode, &RegisterID::X); Some((if c { 1 } else { 0 }, false)) } else { None } },
            15 => { if needs_operand { let c = self.load_register(&mode, &RegisterID::Y); Some((if c { 1 } else { 0 }, false)) } else { None } },
            16 => { if needs_operand { self.store_register(&mode, &RegisterID::ACC); Some((0, false)) } else { None } },
            17 => { if needs_operand { self.store_register(&mode, &RegisterID::X); Some((0, false)) } else { None } },
            18 => { if needs_operand { self.store_register(&mode, &RegisterID::Y); Some((0, false)) } else { None } },
            19 => { if needs_operand { self.store_registers(&mode, &RegisterID::ACC, &RegisterID::X); Some((0, false)) } else { None } },
            20 => { self.transfer_register(&RegisterID::ACC, &RegisterID::X); Some((0, false)) },
            21 => { self.transfer_register(&RegisterID::ACC, &RegisterID::Y); Some((0, false)) },
            22 => { self.transfer_register(&RegisterID::SP, &RegisterID::X); Some((0, false)) },
            23 => { self.transfer_register(&RegisterID::X, &RegisterID::ACC); Some((0, false)) },
            24 => { self.transfer_register(&RegisterID::X, &RegisterID::SP); Some((0, false)) },
            _ => Some((0, false)),
        }
    }

    fn execute_2(&mut self, op: u8, mode: AddressingMode) -> (r: Option<(u8, bool)>)
        requires
            old(self)@.wf(),
            25 <= op <= 36,
        ensures
            match old(self)@.execute(op, mode) {
                None => r is None && final(self)@ == old(self)@,
                Some(t) => r == Some((t.1, t.2)) && final(self)@ == t.0,
            },
            r matches Some(t) ==> t.0 <= 2,
            final(self)@.wf(),
    {
        proof { reveal(CpuView::execute); }
        let needs_operand = mode_has_operand(mode);
        match op {
            25 => { self.transfer_register(&RegisterID::Y, &RegisterID::ACC); Some((0, false)) },
            26 => { self.clear_flag(Flag::Carry); Some((0, false)) },
            27 => { self.clear_flag(Flag::DecimalMode); Some((0, false)) },
            28 => { self.clear_flag(Flag::InterruptDisable); Some((0, false)) },
            29 => { self.clear_flag(Flag::Overflow); Some((0, false)) },
            30 => { self.set_flag(Flag::Carry); Some((0, false)) },
            31 => { self.set_flag(Flag::DecimalMode); Some((0, false)) },
            32 => { self.set_flag(Flag::InterruptDisable); Some((0, false)) },
            33 => { self.decrement_register(&RegisterID::X); Some((0, false)) },
            34 => { self.decrement_register(&RegisterID::Y); Some((0, false)) },
            35 => { self.increment_register(&RegisterID::X); Some((0, false)) },
            36 => { self.increment_register(&RegisterID::Y); Some((0, false)) },
            _ => Some((0, false)),
        }
    }

    fn execute_3(&mut self, op: u8, mode: AddressingMode) -> (r: Option<(u8, bool)>)
        requires
            old(self)@.wf(),
            37 <= op <= 48,
        ensures
            match old(self)@.execute(op, mode) {
                None => r is None && final(self)@ == old(self)@,
                Some(t) => r == Some((t.1, t.2)) && final(self)@ == t.0,
            },
            r matches Some(t) ==> t.0 <= 2,
            final(self)@.wf(),
    {
        proof { reveal(CpuView::execute); }
        let needs_operand = mode_has_operand(mode);
        match op {
            37 => { if needs_operand { self.increment_memory(&mode); Some((0, false)) } else { None } },
            38 => { if needs_operand { self.decrement_memory(&mode); Some((0, false)) } else { None } },
            39 => { if needs_operand { self.decrement_memory_unofficial(&mode); Some((0, false)) } else { None } },
            40 => { if needs_operand { self.increment_mem_and_subtract_from_acc(&mode); Some((0, false)) } else { None } },
            41 => { self.acc_shift_left(); Some((0, false)) },
            42 => { self.acc_shift_right(); Some((0, false)) },
            43 => { self.rotate_acc_left(); Some((0, false)) },
            44 => { self.rotate_acc_right(); Some((0, false)) },
            45 => { if needs_operand { self.arithmetic_shift_left_and_or_with_acc(&mode); Some((0, false)) } else { None } },
            46 => { if needs_operand { self.logical_shift_right_and_xor_with_acc(&mode); Some((0, false)) } else { None } },
            47 => { if needs_operand { self.rotate_left_and_and_with_acc(&mode); Some((0, false)) } else { None } },
            48 => { if needs_operand { self.rotate_right_and_add_to_acc(&mode); Some((0, false)) } else { None } },
            _ => Some((0, false)),
        }
    }

    fn execute_4(&mut self, op: u8, mode: AddressingMode) -> (r: Option<(u8, bool)>)
        requires
            old(self)@.wf(),
            49 <= op <= 60,
        ensures
            match old(self)@.execute(op, mode) {
                None => r is None && final(self)@ == old(self)@,
                Some(t) => r == Some((t.1, t.2)) && final(self)@ == t.0,
            },
            r matches Some(t) ==> t.0 <= 2,
            final(self)@.wf(),
    {
        proof { reveal(CpuView::execute); }
        let needs_operand = mode_has_operand(mode);
        match op {
            49 => { if needs_operand { self.mem_shift_left(&mode); Some((0, false)) } else { None } },
            50 => { if needs_operand { self.mem_shift_right(&mode); Some((0, false)) } else { None } },
            51 => { if needs_operand { self.rotate_mem_left(&mode); Some((0, false)) } else { None } },
            52 => { if needs_operand { self.rotate_mem_right(&mode); Some((0, false)) } else { None } },
            53 => { let taken = self.is_flag_set(Flag::Carry); let c = self.branch_if(taken); Some((c, taken)) },
            54 => { let taken = self.is_flag_set(Flag::Zero); let c = self.branch_if(taken); Some((c, taken)) },
            55 => { let taken = self.is_flag_set(Flag::Negative); let c = self.branch_if(taken); Some((c, taken)) },
            56 => { let taken = self.is_flag_set(Flag::Overflow); let c = self.branch_if(taken); Some((c, taken)) },
            57 => { let taken = !self.is_flag_set(Flag::Carry); let c = self.branch_if(taken); Some((c, taken)) },
            58 => { let taken = !self.is_flag_set(Flag::Zero); let c = self.branch_if(taken); Some((c, taken)) },
            59 => { let taken = !self.is_flag_set(Flag::Negative); let c = self.branch_if(taken); Some((c, taken)) },
            60 => { let taken = !self.is_flag_set(Flag::Overflow); let c = self.branch_if(taken); Some((c, taken)) },
            _ => Some((0, false)),
        }
    }

    fn execute_5(&mut self, op: u8, mode: AddressingMode) -> (r: Option<(u8, bool)>)
        requires
            old(self)@.wf(),
            61 <= op <= 68,
        ensures
            match old(self)@.execute(op, mode) {
                None => r is None && final(self)@ == old(self)@,
                Some(t) => r == Some((t.1, t.2)) && final(self)@ == t.0,
            },
            r matches Some(t) ==> t.0 <= 2,
            final(self)@.wf(),
    {
        proof { reveal(CpuView::execute); }
        let needs_operand = mode_has_operand(mode);
        match op {
            61 => { if needs_operand { self.jump(&mode); Some((0, true)) } else { None } },
            62 => { if needs_operand { self.jump_to_subroutine(&mode); Some((0, true)) } else { None } },
            63 => { self.return_from_subroutine(); Some((0, true)) },
            64 => { self.return_from_interrupt(); Some((0, true)) },
            65 => { let a = self.acc; self.stack_push_u8(a); Some((0, false)) },
            66 => { self.stack_push_status(); Some((0, false)) },
            67 => { self.stack_pop_acc(); Some((0, false)) },
            68 => { self.stack_pop_status(); Some((0, false)) },
            _ => Some((0, false)),
        }
    }
    /// Executes one instruction (see `CpuView::step`).
    pub fn step(&mut self) -> (r: StepResult)
        requires
            old(self)@.wf(),
        ensures
            (final(self)@, r) == old(self)@.step(),
            final(self)@.wf(),
    {
        let pc = self.pc;
        let opcode = self.mem_read_u8(pc);
        let ins = match lookup(opcode) {
            Some(ins) => ins,
            None => return StepResult::InvalidOpcode(opcode),
        };
        proof { lemma_table_bounds(opcode); }
        self.pc = self.pc.wrapping_add(1);
        if opcode == 0x00 {
            return StepResult::Halted;
        }
        let (extra, jumped) = match self.execute(operation(opcode), ins.addressing_mode) {
            Some(t) => t,
            None => return StepResult::InvalidOpcode(opcode),
        };
        if !jumped {
            self.pc = self.pc.wrapping_add(ins.bytes.wrapping_sub(1) as u16);
        }
        self.bus.tick_cycles(ins.cycles + extra);
        if self.bus.poll_nmi().is_some() {
            self.interrupt(InterruptType::NMI);
        }
        StepResult::Continue
    }

    /// Writes `program` to memory from `start_vector` on; the program counter
    /// is set to 0x0600, where programs start, whatever `start_vector` is.
    pub fn load_custom_program(&mut self, program: Vec<u8>, start_vector: u16)
        requires
            old(self)@.wf(),
            program@.len() <= 0x10000,
        ensures
            final(self)@ == (CpuView { pc: PROGRAM_START, ..old(self)@.write_seq(program@, start_vector, 0) }),
            final(self)@.wf(),
    {
        let mut i: usize = 0;
        while i < program.len()
            invariant
                i <= program@.len(),
                program@.len() <= 0x10000,
                self@.wf(),
                old(self)@.write_seq(program@, start_vector, 0) == self@.write_seq(program@, start_vector, i as int),
            decreases program@.len() - i,
        {
            self.mem_write_u8(start_vector.wrapping_add(i as u16), program[i]);
            i = i + 1;
        }
        self.pc = PROGRAM_START;
    }

    /// Loads `program` at 0x0600 and points the program counter there.
    pub fn load(&mut self, program: Vec<u8>)
        requires
            old(self)@.wf(),
            program@.len() <= 0x10000,
        ensures
            final(self)@ == (CpuView { pc: PROGRAM_START, ..old(self)@.write_seq(program@, PROGRAM_START, 0) }),
            final(self)@.wf(),
    {
        self.load_custom_program(program, PROGRAM_START);
    }

    /// Runs until the halt instruction or an invalid opcode (or, in principle,
    /// until 2^64 - 1 instructions have run).
    pub fn run(&mut self) -> (r: StepResult)
        requires
            old(self)@.wf(),
        ensures
            (final(self)@, r) == old(self)@.run_for(u64::MAX as nat),
            final(self)@.wf(),
    {
        let mut fuel: u64 = u64::MAX;
        while fuel > 0
            invariant
                self@.wf(),
                old(self)@.run_for(u64::MAX as nat) == self@.run_for(fuel as nat),
            decreases fuel,
        {
            let r = self.step();
            match r {
                StepResult::Continue => {},
                _ => return r,
            }
            fuel = fuel - 1;
        }
        StepResult::Continue
    }

    /// Loads `program` at 0x0600 and runs it.
    pub fn load_and_run(&mut self, program: Vec<u8>) -> (r: StepResult)
        requires
            old(self)@.wf(),
            program@.len() <= 0x10000,
        ensures
            (final(self)@, r) == (CpuView { pc: PROGRAM_START, ..old(self)@.write_seq(program@, PROGRAM_START, 0) }).run_for(
                u64::MAX as nat,
            ),
            final(self)@.wf(),
    {
        self.load(program);
        self.run()
    }
}

/// Whether `a` and `b` lie on different 256-byte pages.
pub fn page_crossed(a: u16, b: u16) -> (r: bool)
    ensures
        r == spec_page_crossed(a, b),
{
    a / 256 != b / 256
}

/// Which operation an opcode performs (0: none, or the halt instruction).
#[verifier::opaque]
pub open spec fn operation_of(opcode: u8) -> u8 {
    match opcode {
        0xEA | 0x1A | 0x3A | 0x5A | 0x7A | 0xDA | 0xFA | 0x80 => 1,
        0x1C | 0x3C | 0x5C | 0x7C | 0xDC | 0xFC | 0x04 | 0x44 | 0x64 | 0x0C | 0x14 | 0x34 | 0x54 | 0x74 | 0xD4 | 0xF4 => 2,
        0x69 | 0x65 | 0x75 | 0x6D | 0x7D | 0x79 | 0x61 | 0x71 => 3,
        0xE9 | 0xE5 | 0xF5 | 0xED | 0xFD | 0xF9 | 0xE1 | 0xF1 | 0xEB => 4,
        0x29 | 0x25 | 0x35 | 0x2D | 0x3D | 0x39 | 0x21 | 0x31 => 5,
        0x09 | 0x05 | 0x15 | 0x0D | 0x1D | 0x19 | 0x01 | 0x11 => 6,
        0x49 | 0x45 | 0x55 | 0x4D | 0x5D | 0x59 | 0x41 | 0x51 => 7,
        0xA3 | 0xA7 | 0xAF | 0xB3 | 0xB7 | 0xBF => 8,
        0x24 | 0x2C => 9,
        0xC9 | 0xC5 | 0xD5 | 0xCD | 0xDD | 0xD9 | 0xC1 | 0xD1 => 10,
        0xE0 | 0xE4 | 0xEC => 11,
        0xC0 | 0xC4 | 0xCC => 12,
        0xA9 | 0xA5 | 0xB5 | 0xAD | 0xBD | 0xB9 | 0xA1 | 0xB1 => 13,
        0xA2 | 0xA6 | 0xB6 | 0xAE | 0xBE => 14,
        0xA0 | 0xA4 | 0xB4 | 0xAC | 0xBC => 15,
        0x85 | 0x95 | 0x8D | 0x9D | 0x99 | 0x81 | 0x91 => 16,
        0x86 | 0x96 | 0x8E => 17,
        0x84 | 0x94 | 0x8C => 18,
        0x83 | 0x87 | 0x8F | 0x97 => 19,
        0xAA => 20,
        0xA8 => 21,
        0xBA => 22,
        0x8A => 23,
        0x9A => 24,
        0x98 => 25,
        0x18 => 26,
        0xD8 => 27,
        0x58 => 28,
        0xB8 => 29,
        0x38 => 30,
        0xF8 => 31,
        0x78 => 32,
        0xCA => 33,
        0x88 => 34,
        0xE8 => 35,
        0xC8 => 36,
        0xE6 | 0xF6 | 0xEE | 0xFE => 37,
        0xC6 | 0xD6 | 0xCE | 0xDE => 38,
        0xC3 | 0xC7 | 0xCF | 0xD3 | 0xD7 | 0xDB | 0xDF => 39,
        0xE3 | 0xE7 | 0xEF | 0xF3 | 0xF7 | 0xFB | 0xFF => 40,
        0x0A => 41,
        0x4A => 42,
        0x2A => 43,
        0x6A => 44,
        0x03 | 0x07 | 0x0F | 0x13 | 0x17 | 0x1B | 0x1F => 45,
        0x43 | 0x47 | 0x4F | 0x53 | 0x57 | 0x5B | 0x5F => 46,
        0x23 | 0x27 | 0x2F | 0x33 | 0x37 | 0x3B | 0x3F => 47,
        0x63 | 0x67 | 0x6F | 0x73 | 0x77 | 0x7B | 0x7F => 48,
        0x06 | 0x16 | 0x0E | 0x1E => 49,
        0x46 | 0x56 | 0x4E | 0x5E => 50,
        0x26 | 0x36 | 0x2E | 0x3E => 51,
        0x66 | 0x76 | 0x6E | 0x7E => 52,
        0xB0 => 53,
        0xF0 => 54,
        0x30 => 55,
        0x70 => 56,
        0x90 => 57,
        0xD0 => 58,
        0x10 => 59,
        0x50 => 60,
        0x4C | 0x6C => 61,
        0x20 => 62,
        0x60 => 63,
        0x40 => 64,
        0x48 => 65,
        0x08 => 66,
        0x68 => 67,
        0x28 => 68,
        _ => 0,
    }
}

fn operation(opcode: u8) -> (r: u8)
    ensures
        r == operation_of(opcode),
{
    proof {
        reveal(operation_of);
    }
    match opcode {
        0xEA | 0x1A | 0x3A | 0x5A | 0x7A | 0xDA | 0xFA | 0x80 => 1,
        0x1C | 0x3C | 0x5C | 0x7C | 0xDC | 0xFC | 0x04 | 0x44 | 0x64 | 0x0C | 0x14 | 0x34 | 0x54 | 0x74 | 0xD4 | 0xF4 => 2,
        0x69 | 0x65 | 0x75 | 0x6D | 0x7D | 0x79 | 0x61 | 0x71 => 3,
        0xE9 | 0xE5 | 0xF5 | 0xED | 0xFD | 0xF9 | 0xE1 | 0xF1 | 0xEB => 4,
        0x29 | 0x25 | 0x35 | 0x2D | 0x3D | 0x39 | 0x21 | 0x31 => 5,
        0x09 | 0x05 | 0x15 | 0x0D | 0x1D | 0x19 | 0x01 | 0x11 => 6,
        0x49 | 0x45 | 0x55 | 0x4D | 0x5D | 0x59 | 0x41 | 0x51 => 7,
        0xA3 | 0xA7 | 0xAF | 0xB3 | 0xB7 | 0xBF => 8,
        0x24 | 0x2C => 9,
        0xC9 | 0xC5 | 0xD5 | 0xCD | 0xDD | 0xD9 | 0xC1 | 0xD1 => 10,
        0xE0 | 0xE4 | 0xEC => 11,
        0xC0 | 0xC4 | 0xCC => 12,
        0xA9 | 0xA5 | 0xB5 | 0xAD | 0xBD | 0xB9 | 0xA1 | 0xB1 => 13,
        0xA2 | 0xA6 | 0xB6 | 0xAE | 0xBE => 14,
        0xA0 | 0xA4 | 0xB4 | 0xAC | 0xBC => 15,
        0x85 | 0x95 | 0x8D | 0x9D | 0x99 | 0x81 | 0x91 => 16,
        0x86 | 0x96 | 0x8E => 17,
        0x84 | 0x94 | 0x8C => 18,
        0x83 | 0x87 | 0x8F | 0x97 => 19,
        0xAA => 20,
        0xA8 => 21,
        0xBA => 22,
        0x8A => 23,
        0x9A => 24,
        0x98 => 25,
        0x18 => 26,
        0xD8 => 27,
        0x58 => 28,
        0xB8 => 29,
        0x38 => 30,
        0xF8 => 31,
        0x78 => 32,
        0xCA => 33,
        0x88 => 34,
        0xE8 => 35,
        0xC8 => 36,
        0xE6 | 0xF6 | 0xEE | 0xFE => 37,
        0xC6 | 0xD6 | 0xCE | 0xDE => 38,
        0xC3 | 0xC7 | 0xCF | 0xD3 | 0xD7 | 0xDB | 0xDF => 39,
        0xE3 | 0xE7 | 0xEF | 0xF3 | 0xF7 | 0xFB | 0xFF => 40,
        0x0A => 41,
        0x4A => 42,
        0x2A => 43,
        0x6A => 44,
        0x03 | 0x07 | 0x0F | 0x13 | 0x17 | 0x1B | 0x1F => 45,
        0x43 | 0x47 | 0x4F | 0x53 | 0x57 | 0x5B | 0x5F => 46,
        0x23 | 0x27 | 0x2F | 0x33 | 0x37 | 0x3B | 0x3F => 47,
        0x63 | 0x67 | 0x6F | 0x73 | 0x77 | 0x7B | 0x7F => 48,
        0x06 | 0x16 | 0x0E | 0x1E => 49,
        0x46 | 0x56 | 0x4E | 0x5E => 50,
        0x26 | 0x36 | 0x2E | 0x3E => 51,
        0x66 | 0x76 | 0x6E | 0x7E => 52,
        0xB0 => 53,
        0xF0 => 54,
        0x30 => 55,
        0x70 => 56,
        0x90 => 57,
        0xD0 => 58,
        0x10 => 59,
        0x50 => 60,
        0x4C | 0x6C => 61,
        0x20 => 62,
        0x60 => 63,
        0x40 => 64,
        0x48 => 65,
        0x08 => 66,
        0x68 => 67,
        0x28 => 68,
        _ => 0,
    }
}

pub fn mode_has_operand(mode: AddressingMode) -> (r: bool)
    ensures
        r == has_operand(mode),
{
    match mode {
        AddressingMode::Implied | AddressingMode::Accumulator => false,
        _ => true,
    }
}

/// Every instruction of the table is one to three bytes long and costs at most eight cycles.
proof fn lemma_table_bounds(opcode: u8)
    ensures
        opcode_info(opcode) matches Some(info) ==> 1 <= info.bytes <= 3 && info.cycles <= 8,
{
    reveal(opcode_info);
}

} // verus!
