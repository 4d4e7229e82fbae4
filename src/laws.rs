//! Properties that relate several operations of the machine, proved over
//! the same models that the operations' contracts use.

use vstd::prelude::*;
use crate::bus::{video_ticks, BusView};
use crate::cpu::{nz_bits, operation_of, relative_target, spec_page_crossed, CpuView, StepResult, STACK_PAGE};
use crate::flags::Flag;
use crate::instructions::{opcode_info, AddressingMode};
use crate::mem::MembankView;
use crate::mappers::{MappedRead, TxromView};
use crate::ppu::PpuView;
use crate::registers::StatusRegister;

verus! {

/// Setting Zero and Negative from a byte: Zero is set exactly when the byte
/// is 0, Negative exactly when its bit 7 is set, and no other flag changes.
pub proof fn law_zero_negative_flags(s: CpuView, v: u8)
    ensures
        s.with_nz(v).flag(Flag::Zero) <==> v == 0,
        s.with_nz(v).flag(Flag::Negative) <==> v >= 0x80,
        s.with_nz(v).status & 0x7D == s.status & 0x7D,
        s.with_nz(v).acc == s.acc && s.with_nz(v).bus == s.bus,
{
    let st = s.status;
    let z: u8 = if v == 0 { st | 0x02 } else { st & !0x02u8 };
    let r: u8 = if v & 0x80 != 0 { z | 0x80 } else { z & !0x80u8 };
    assert(r == nz_bits(st, v));
    assert((r & 0x02 != 0) <==> v == 0) by (bit_vector)
        requires
            z == (if v == 0 { st | 0x02 } else { st & !0x02u8 }),
            r == (if v & 0x80 != 0 { z | 0x80 } else { z & !0x80u8 }),
    ;
    assert((r & 0x80 != 0) <==> v >= 0x80) by (bit_vector)
        requires
            z == (if v == 0 { st | 0x02 } else { st & !0x02u8 }),
            r == (if v & 0x80 != 0 { z | 0x80 } else { z & !0x80u8 }),
    ;
    assert(r & 0x7D == st & 0x7D) by (bit_vector)
        requires
            z == (if v == 0 { st | 0x02 } else { st & !0x02u8 }),
            r == (if v & 0x80 != 0 { z | 0x80 } else { z & !0x80u8 }),
    ;
}

/// A stack address is an address of console RAM, where it lands unmirrored.
proof fn lemma_stack_in_ram(sp: u8)
    ensures
        (STACK_PAGE + sp) as u16 <= 0x1FFF,
        ((STACK_PAGE + sp) as u16) & 0x7FF == (STACK_PAGE + sp) as u16,
{
    let a: u16 = (0x100u16 + sp as u16) as u16;
    assert(a <= 0x1FF ==> a & 0x7FF == a) by (bit_vector);
}

/// A read leaves console RAM as it was, and a read of RAM returns what it holds.
proof fn lemma_read_ram(b: BusView, addr: u16)
    ensures
        b.read(addr).1.ram == b.ram,
        addr <= 0x1FFF ==> b.read(addr).0 == b.ram[(addr & 0x7FF) as int],
        addr <= 0x1FFF ==> b.read(addr).1 == b,
{
    reveal(BusView::read);
}

/// A write to RAM changes that one byte of RAM.
proof fn lemma_write_ram(b: BusView, addr: u16, v: u8)
    requires
        addr <= 0x1FFF,
    ensures
        b.write(addr, v).ram == b.ram.update((addr & 0x7FF) as int, v),
{
    reveal(BusView::write);
}

/// Pushing a 16-bit value and popping one gives the value back and leaves
/// the stack pointer where it was.
pub proof fn law_stack_round_trip(s: CpuView, v: u16)
    requires
        s.wf(),
    ensures
        s.push16(v).pop16().0 == v,
        s.push16(v).pop16().1.sp == s.sp,
{
    reveal(CpuView::push16);
    reveal(CpuView::pop16);
    reveal(CpuView::push);
    reveal(CpuView::pop);
    let hi = (v / 256) as u8;
    let lo = (v % 256) as u8;
    let a1 = (STACK_PAGE + s.sp) as u16;
    let s1 = s.push(hi);
    let a2 = (STACK_PAGE + s1.sp) as u16;
    let s2 = s1.push(lo);
    lemma_stack_in_ram(s.sp);
    lemma_stack_in_ram(s1.sp);
    lemma_write_ram(s.bus, a1, hi);
    lemma_write_ram(s1.bus, a2, lo);
    assert(a1 != a2);
    let pop_a = CpuView { sp: s2.sp.wrapping_add(1), ..s2 };
    lemma_stack_in_ram(pop_a.sp);
    lemma_read_ram(pop_a.bus, (STACK_PAGE + pop_a.sp) as u16);
    let t1 = s2.pop().1;
    let pop_b = CpuView { sp: t1.sp.wrapping_add(1), ..t1 };
    lemma_stack_in_ram(pop_b.sp);
    lemma_read_ram(pop_b.bus, (STACK_PAGE + pop_b.sp) as u16);
    assert(s2.pop().0 == lo);
    assert(t1.pop().0 == hi);
    assert((hi as u16 * 256 + lo as u16) as u16 == v);
}

/// A call followed by a return lands two bytes past the program counter that
/// the call saw (the address after the call's operand), with the stack
/// pointer back where it was.
pub proof fn law_call_return(s: CpuView)
    requires
        s.wf(),
    ensures
        s.jsr(AddressingMode::Absolute).rts().pc == s.pc.wrapping_add(2),
        s.jsr(AddressingMode::Absolute).rts().sp == s.sp,
{
    reveal(CpuView::jsr);
    reveal(CpuView::rts);
    reveal(CpuView::operand_at);
    let s1 = s.push16(s.pc.wrapping_add(1));
    law_stack_round_trip(s, s.pc.wrapping_add(1));
    let (t, _c, s2) = s1.operand(AddressingMode::Absolute);
    lemma_read_ram(s1.bus, s1.pc);
    lemma_read_ram(s1.read(s1.pc).1.bus, s1.pc.wrapping_add(1));
    let j = CpuView { pc: t, ..s2 };
    assert(j.sp == s1.sp);
    assert(j.bus.ram == s1.bus.ram);
    lemma_pop16_depends_on_ram(s1, j);
}

/// What a 16-bit pop returns and where it leaves the stack pointer depend on
/// the stack pointer and RAM alone.
proof fn lemma_pop16_depends_on_ram(a: CpuView, b: CpuView)
    requires
        a.sp == b.sp,
        a.bus.ram == b.bus.ram,
    ensures
        a.pop16().0 == b.pop16().0,
        a.pop16().1.sp == b.pop16().1.sp,
        a.pop16().1.bus == a.bus,
        b.pop16().1.bus == b.bus,
{
    reveal(CpuView::pop16);
    reveal(CpuView::pop);
    let sp1 = a.sp.wrapping_add(1);
    let sp2 = sp1.wrapping_add(1);
    lemma_stack_in_ram(sp1);
    lemma_stack_in_ram(sp2);
    let pa = CpuView { sp: sp1, ..a };
    let pb = CpuView { sp: sp1, ..b };
    lemma_read_ram(pa.bus, (STACK_PAGE + sp1) as u16);
    lemma_read_ram(pb.bus, (STACK_PAGE + sp1) as u16);
    let qa = CpuView { sp: sp2, ..a.pop().1 };
    let qb = CpuView { sp: sp2, ..b.pop().1 };
    lemma_read_ram(qa.bus, (STACK_PAGE + sp2) as u16);
    lemma_read_ram(qb.bus, (STACK_PAGE + sp2) as u16);
}

/// Indirect addressing through a pointer that ends a page (`xxFF`) takes the
/// target's high byte from the start of that same page, not from the next one.
pub proof fn law_indirect_page_wrap(s: CpuView, addr: u16)
    requires
        s.read16(addr).0 % 256 == 0xFF,
    ensures
        ({
            let (ptr, s1) = s.read16(addr);
            let (lo, s2) = s1.read(ptr);
            let (hi, _s3) = s2.read((ptr - 0xFF) as u16);
            s.operand_at(AddressingMode::Indirect, addr).0 == hi as u16 * 256 + lo as u16
        }),
{
    reveal(CpuView::operand_at);
    let ptr = s.read16(addr).0;
    assert(ptr / 256 * 256 == ptr - 0xFF);
}

/// A taken branch moves the program counter to the relative target and
/// costs one extra cycle, two when the target lies on another page; a branch
/// not taken changes nothing and costs nothing extra, so the program counter
/// only moves past the operand.
pub proof fn law_branch(s: CpuView)
    ensures
        ({
            let off = s.read(s.pc).0;
            let t = relative_target(s.pc, off);
            &&& s.branch(true).pc == t
            &&& s.branch_cycles(true) == (if spec_page_crossed(s.pc.wrapping_add(1), t) { 2u8 } else { 1u8 })
        }),
        s.branch(false) == s,
        s.branch_cycles(false) == 0,
{
    reveal(CpuView::branch);
    reveal(CpuView::branch_cycles);
    reveal(CpuView::operand_at);
}

/// After a window is set to show a page, a read that falls in that window
/// lands at the page's start plus the offset inside the window:
/// `(bank & mask) << shift | (addr & (window - 1))`.
pub proof fn law_bank_translate(m: MembankView, slot: int, bank: usize, addr: u16)
    requires
        0 <= slot < m.banks.len(),
        m.get_bank(addr) == slot,
    ensures
        m.set(slot, bank).translate(addr) == ((bank & m.mask) << m.shift) | ((addr as usize) & ((m.window
            - 1) as usize)),
{
}

/// The interrupt line is raised by a tick only on the step into scanline
/// 241 with NMI generation enabled; a control write raises it only when it
/// turns NMI generation on while vblank is already active.
pub proof fn law_nmi_edges(p: PpuView, dots: u8, data: u8)
    requires
        p.nmi is None,
        p.wf(),
    ensures
        p.tick(dots).0.nmi is Some ==> p.scanline == 240 && p.cycles + dots >= 341
            && p.control.nmi_enabled(),
        (p.write_ctrl(data).nmi is Some) <==> (!p.control.nmi_enabled() && data & 0x80 != 0
            && p.status.in_vblank()),
{
}

/// The video unit after `n` ticks of one dot each, and how many of those
/// ticks completed a frame.
pub open spec fn run_dots(p: PpuView, n: nat) -> (PpuView, nat)
    decreases n,
{
    if n == 0 {
        (p, 0)
    } else {
        let (q, frames) = run_dots(p, (n - 1) as nat);
        let (r, done) = q.tick(1);
        (r, frames + if done { 1nat } else { 0nat })
    }
}

proof fn lemma_with_vblank(s: StatusRegister, on: bool)
    ensures
        s.with_vblank(on).in_vblank() == on,
{
    let b = s.bits;
    assert((b | 0x80) & 0x80 != 0) by (bit_vector);
    assert((b & 0x7F) & 0x80 == 0) by (bit_vector);
}

/// Dot `dot` of scanline `line` is reached after `line * 341 + dot` ticks
/// from the frame's first dot, with no frame completed and vblank active
/// from scanline 241 on.
proof fn lemma_dot_position(p: PpuView, line: nat, dot: nat)
    requires
        p.wf(),
        p.scanline == 0,
        p.cycles == 0,
        !p.status.in_vblank(),
        line < 262,
        dot < 341,
    ensures
        ({
            let (q, frames) = run_dots(p, line * 341 + dot);
            &&& q.wf()
            &&& q.scanline == line
            &&& q.cycles == dot
            &&& frames == 0
            &&& q.status.in_vblank() == (line >= 241)
        }),
    decreases line * 341 + dot,
{
    if line == 0 && dot == 0 {
    } else if dot > 0 {
        lemma_dot_position(p, line, (dot - 1) as nat);
        assert(line * 341 + dot - 1 == line * 341 + (dot - 1));
    } else {
        lemma_dot_position(p, (line - 1) as nat, 340);
        assert(line * 341 + dot - 1 == (line - 1) * 341 + 340);
        let q = run_dots(p, ((line - 1) * 341 + 340) as nat).0;
        lemma_with_vblank(q.status, true);
    }
}

/// From the first dot of a frame with vblank clear, 341 × 262 one-dot ticks
/// complete exactly one frame, and leave the unit at the first dot of the
/// next frame with vblank clear.
pub proof fn law_frame_length(p: PpuView)
    requires
        p.wf(),
        p.scanline == 0,
        p.cycles == 0,
        !p.status.in_vblank(),
    ensures
        run_dots(p, 341 * 262).1 == 1,
        run_dots(p, 341 * 262).0.scanline == 0,
        run_dots(p, 341 * 262).0.cycles == 0,
        !run_dots(p, 341 * 262).0.status.in_vblank(),
{
    lemma_dot_position(p, 261, 340);
    assert(261 * 341 + 340 == 341 * 262 - 1);
    let q = run_dots(p, 261 * 341 + 340).0;
    lemma_with_vblank(q.status, true);
    lemma_with_vblank(q.status.with_vblank(true), false);
    lemma_with_vblank(q.status, false);
}

/// Whether branch opcode `op` is taken under the flags `status`.
pub open spec fn branch_taken(op: u8, status: u8) -> bool {
    let c = status & 0x01 != 0;
    let z = status & 0x02 != 0;
    let v = status & 0x40 != 0;
    let n = status & 0x80 != 0;
    if op == 0x90 { !c } else if op == 0xB0 { c } else if op == 0xD0 { !z } else if op == 0xF0 { z }
    else if op == 0x10 { !n } else if op == 0x30 { n } else if op == 0x50 { !v } else { v }
}

pub open spec fn is_branch(op: u8) -> bool {
    op == 0x90 || op == 0xB0 || op == 0xD0 || op == 0xF0 || op == 0x10 || op == 0x30 || op == 0x50 || op == 0x70
}

/// With NMI generation off and none pending, running the video unit raises none.
proof fn lemma_video_ticks_quiet(p: PpuView, n: nat)
    requires
        p.wf(),
        p.nmi is None,
        !p.control.nmi_enabled(),
    ensures
        video_ticks(p, n).0.wf(),
        video_ticks(p, n).0.nmi is None,
        video_ticks(p, n).0.control == p.control,
    decreases n,
{
    if n > 0 {
        lemma_video_ticks_quiet(p, (n - 1) as nat);
    }
}

/// Where the eight branch opcodes stand in the table and the dispatcher.
proof fn lemma_branch_decode(op: u8)
    requires
        is_branch(op),
    ensures
        opcode_info(op) == Some(crate::instructions::OpcodeInfo { bytes: 2, cycles: 2, mode: AddressingMode::Relative }),
        operation_of(op) == (if op == 0xB0 { 53u8 } else if op == 0xF0 { 54u8 } else if op == 0x30 { 55u8 }
        else if op == 0x70 { 56u8 } else if op == 0x90 { 57u8 } else if op == 0xD0 { 58u8 } else if op == 0x10 { 59u8 }
        else { 60u8 }),
{
    reveal(opcode_info);
    reveal(operation_of);
    assert((op == 0x90 ==> op >> 4u8 == 9) && (op == 0xB0 ==> op >> 4u8 == 11) && (op == 0xD0 ==> op >> 4u8 == 13)
        && (op == 0xF0 ==> op >> 4u8 == 15) && (op == 0x10 ==> op >> 4u8 == 1) && (op == 0x30 ==> op >> 4u8 == 3)
        && (op == 0x50 ==> op >> 4u8 == 5) && (op == 0x70 ==> op >> 4u8 == 7)) by (bit_vector);
}

/// What the dispatcher does with a branch opcode.
proof fn lemma_branch_execute(s: CpuView, op: u8)
    requires
        is_branch(op),
    ensures
        s.execute(operation_of(op), AddressingMode::Relative) == Some(
            (s.branch(branch_taken(op, s.status)), s.branch_cycles(branch_taken(op, s.status)), branch_taken(op, s.status)),
        ),
{
    lemma_branch_decode(op);
    reveal(CpuView::execute);
}

/// A branch instruction in RAM, run as one step: taken, the program counter
/// moves to the relative target; not taken, it only moves past the operand.
/// (No interrupt may intervene: NMI generation is off and none is pending.)
pub proof fn law_branch_step(s: CpuView, op: u8)
    requires
        s.wf(),
        is_branch(op),
        s.pc < 0x1FFF,
        s.bus.ram[(s.pc & 0x7FF) as int] == op,
        s.bus.ppu.nmi is None,
        !s.bus.ppu.control.nmi_enabled(),
    ensures
        ({
            let (t, r) = s.step();
            let off = s.bus.ram[((s.pc + 1) as u16 & 0x7FF) as int];
            let target = relative_target((s.pc + 1) as u16, off);
            &&& r == StepResult::Continue
            &&& t.pc == if branch_taken(op, s.status) { target } else { (s.pc + 2) as u16 }
            &&& t.bus.cycles == s.bus.cycles.wrapping_add(
                if !branch_taken(op, s.status) {
                    2usize
                } else if spec_page_crossed((s.pc + 2) as u16, target) {
                    4usize
                } else {
                    3usize
                },
            )
            &&& t.acc == s.acc && t.x == s.x && t.y == s.y && t.sp == s.sp && t.status == s.status
        }),
{
    lemma_read_ram(s.bus, s.pc);
    lemma_branch_decode(op);
    let s2 = CpuView { pc: (s.pc + 1) as u16, ..s };
    lemma_branch_execute(s2, op);
    let taken = branch_taken(op, s.status);
    lemma_read_ram(s2.bus, s2.pc);
    assert(s2.branch(taken).bus == s.bus) by {
        reveal(CpuView::branch);
        reveal(CpuView::operand_at);
    }
    assert(taken ==> s2.branch(taken).pc == relative_target(s2.pc, s.bus.ram[((s.pc + 1) as u16 & 0x7FF) as int])) by {
        reveal(CpuView::branch);
        reveal(CpuView::operand_at);
    }
    assert(!taken ==> s2.branch(taken) == s2) by {
        reveal(CpuView::branch);
    }
    assert(s2.branch_cycles(taken) == (if !taken {
        0u8
    } else if spec_page_crossed((s.pc + 2) as u16, relative_target(s2.pc, s.bus.ram[((s.pc + 1) as u16 & 0x7FF) as int])) {
        2u8
    } else {
        1u8
    })) by {
        reveal(CpuView::branch_cycles);
        reveal(CpuView::operand_at);
    }
    assert(taken ==> {
        let b = s2.branch(taken);
        b.acc == s.acc && b.x == s.x && b.y == s.y && b.sp == s.sp && b.status == s.status
    }) by {
        reveal(CpuView::branch);
        reveal(CpuView::operand_at);
    }
    let s3 = s2.branch(taken);
    let s4 = if taken { s3 } else { CpuView { pc: s3.pc.wrapping_add(1u16), ..s3 } };
    lemma_video_ticks_quiet(s4.bus.ppu, (2 + s2.branch_cycles(taken)) as u8 as nat);
}

/// Where the call and return opcodes stand in the table and the dispatcher.
proof fn lemma_call_return_decode()
    ensures
        opcode_info(0x20) == Some(crate::instructions::OpcodeInfo { bytes: 3, cycles: 6, mode: AddressingMode::Absolute }),
        opcode_info(0x60) == Some(crate::instructions::OpcodeInfo { bytes: 1, cycles: 6, mode: AddressingMode::Implied }),
        operation_of(0x20) == 62,
        operation_of(0x60) == 63,
{
    reveal(opcode_info);
    reveal(operation_of);
    assert(0x20u8 >> 4u8 == 2 && 0x60u8 >> 4u8 == 6) by (bit_vector);
}

/// A call and its return, run as two steps, land on the instruction right
/// after the call (three bytes on) with the stack pointer back where it was.
/// The call, its operand and the subroutine's first byte lie in RAM outside
/// the stack page, and no interrupt intervenes (NMI generation is off and
/// none is pending).
pub proof fn law_call_return_steps(s: CpuView)
    requires
        s.wf(),
        0x200 <= s.pc,
        s.pc + 2 < 0x800,
        s.bus.ram[s.pc as int] == 0x20,
        0x200 <= s.bus.ram[s.pc + 2] as int * 256 + s.bus.ram[s.pc + 1] < 0x800,
        s.bus.ram[s.bus.ram[s.pc + 2] as int * 256 + s.bus.ram[s.pc + 1]] == 0x60,
        s.bus.ppu.nmi is None,
        !s.bus.ppu.control.nmi_enabled(),
    ensures
        s.step().0.step().0.pc == s.pc + 3,
        s.step().0.step().0.sp == s.sp,
        s.step().1 == StepResult::Continue,
        s.step().0.step().1 == StepResult::Continue,
{
    let pc = s.pc;
    let target = (s.bus.ram[pc + 2] as int * 256 + s.bus.ram[pc + 1]) as u16;
    assert(pc & 0x7FF == pc && (pc + 1) as u16 & 0x7FF == pc + 1 && (pc + 2) as u16 & 0x7FF == pc + 2
        && target & 0x7FF == target) by (bit_vector)
        requires
            pc + 2 < 0x800,
            target < 0x800,
    ;
    lemma_call_return_decode();
    lemma_read_ram(s.bus, pc);
    // the call
    let s2 = CpuView { pc: (pc + 1) as u16, ..s };
    assert(s2.execute(62, AddressingMode::Absolute) == Some((s2.jsr(AddressingMode::Absolute), 0u8, true))) by {
        reveal(CpuView::execute);
    }
    let pushed = s2.push16(s2.pc.wrapping_add(1));
    lemma_push16_ram(s2, s2.pc.wrapping_add(1));
    lemma_read_ram(pushed.bus, s2.pc);
    lemma_read_ram(pushed.bus, s2.pc.wrapping_add(1));
    let j = s2.jsr(AddressingMode::Absolute);
    assert(j.pc == target && j.sp == pushed.sp && j.bus == pushed.bus) by {
        reveal(CpuView::jsr);
        reveal(CpuView::operand_at);
    }
    lemma_video_ticks_quiet(j.bus.ppu, 6);
    let t1 = s.step().0;
    assert(t1.pc == target && t1.sp == j.sp && t1.bus.ram == j.bus.ram && t1.bus.ppu.nmi is None
        && !t1.bus.ppu.control.nmi_enabled() && t1.wf());
    // the return
    lemma_read_ram(t1.bus, target);
    let u2 = CpuView { pc: (target + 1) as u16, ..t1 };
    assert(u2.execute(63, AddressingMode::Implied) == Some((u2.rts(), 0u8, true))) by {
        reveal(CpuView::execute);
    }
    law_stack_round_trip(s2, s2.pc.wrapping_add(1));
    lemma_pop16_depends_on_ram(pushed, u2);
    assert(u2.rts().pc == (pc + 3) as u16 && u2.rts().sp == s.sp && u2.rts().bus == u2.bus) by {
        reveal(CpuView::rts);
    }
    lemma_video_ticks_quiet(u2.rts().bus.ppu, 6);
}

/// A 16-bit push writes only the two stack bytes below the stack pointer.
proof fn lemma_push16_ram(s: CpuView, v: u16)
    requires
        s.wf(),
    ensures
        s.push16(v).wf(),
        forall|i: int| 0x200 <= i < 0x800 ==> s.push16(v).bus.ram[i] == s.bus.ram[i],
        s.push16(v).pc == s.pc,
        s.push16(v).bus.ppu == s.bus.ppu,
{
    reveal(CpuView::push16);
    reveal(CpuView::push);
    reveal(BusView::write);
    lemma_stack_in_ram(s.sp);
    lemma_stack_in_ram(s.sp.wrapping_sub(1));
}

/// Add-with-carry: the accumulator becomes the 9-bit sum of accumulator,
/// operand and incoming carry, modulo 256; Carry is set exactly when that
/// sum exceeds 0xFF; Overflow exactly when both operands have the same sign
/// and the result's sign differs from it.
pub proof fn law_add_with_carry(s: CpuView, v: u8)
    ensures
        ({
            let c: int = if s.flag(Flag::Carry) { 1 } else { 0 };
            let sum = s.acc as int + v as int + c;
            let r = s.add(v);
            &&& r.acc as int == sum % 256
            &&& r.flag(Flag::Carry) <==> sum > 0xFF
            &&& r.flag(Flag::Overflow) <==> ((s.acc >= 0x80) == (v >= 0x80) && (r.acc >= 0x80) != (s.acc >= 0x80))
        }),
{
    reveal(CpuView::add);
    let a = s.acc;
    let c: u16 = if s.flag(Flag::Carry) { 1 } else { 0 };
    let sum = (a as u16 + v as u16 + c) as u16;
    let r = (sum % 256) as u8;
    assert(((v ^ r) & (r ^ a) & 0x80 != 0) <==> ((a >= 0x80) == (v >= 0x80) && (r >= 0x80) != (a >= 0x80)))
        by (bit_vector);
    let st0 = s.status;
    let st1 = crate::flags::with_bit(st0, 0x01, sum > 0xFF);
    let ov = (v ^ r) & (r ^ a) & 0x80 != 0;
    let st2 = crate::flags::with_bit(st1, 0x40, ov);
    let cf = sum > 0xFF;
    assert(((if cf { st0 | 0x01 } else { st0 & !0x01u8 }) & 0x01 != 0) <==> cf) by (bit_vector);
    assert(((if ov { st1 | 0x40 } else { st1 & !0x40u8 }) & 0x40 != 0) <==> ov) by (bit_vector);
    assert(((if ov { st1 | 0x40 } else { st1 & !0x40u8 }) & 0x01) == st1 & 0x01) by (bit_vector);
    let pre = CpuView { acc: r, status: st2, ..s };
    law_zero_negative_flags(pre, r);
    let fin = pre.with_nz(r).status;
    assert(fin == s.add(v).status);
    assert((fin & 0x01 != 0) == (st2 & 0x01 != 0) && (fin & 0x40 != 0) == (st2 & 0x40 != 0)) by (bit_vector)
        requires
            fin & 0x7D == st2 & 0x7D,
    ;
}

/// Where an address of the 8KB PRG window `slot` lands: the page that
/// window shows, plus the offset inside it.
proof fn lemma_prg_window(t: TxromView, slot: u16, off: u16)
    requires
        t.wf(),
        slot < 4,
        off < 0x2000,
    ensures
        t.read((0x8000 + slot * 0x2000 + off) as u16) == MappedRead::PrgROM(
            t.prg_rom_banks.banks[slot as int] | (off as usize),
        ),
{
    let a: u16 = (0x8000 + slot * 0x2000 + off) as u16;
    assert(((a & 0x7FFF) >> 13u16) == slot && (a & 0x1FFF) == off && a >= 0x8000) by (bit_vector)
        requires
            a == 0x8000 + slot * 0x2000 + off,
            slot < 4,
            off < 0x2000,
    ;
    assert((a as usize) & 0x7FFFusize == (a & 0x7FFF) as usize) by (bit_vector);
    assert((a as usize) & 0x1FFFusize == (a & 0x1FFF) as usize) by (bit_vector);
    assert(((a & 0x7FFF) as usize) >> 13usize == ((a & 0x7FFF) >> 13u16) as usize) by (bit_vector);
}

/// Whatever the windowed mapper has been told, the last PRG page answers at
/// 0xE000..=0xFFFF, and the page before it at 0xC000 (or at 0x8000 when bit 6
/// of the bank-select byte is set): the vectors stay reachable.
pub proof fn law_fixed_prg_banks(t: TxromView, off: u16)
    requires
        t.wf(),
        off < 0x2000,
    ensures
        t.read((0xE000 + off) as u16) == MappedRead::PrgROM(
            ((t.prg_rom_banks.last() & t.prg_rom_banks.mask) << 13usize) | (off as usize),
        ),
        t.read((if t.bank_select & 0x40 == 0x40 { 0x8000 + off } else { 0xC000 + off }) as u16)
            == MappedRead::PrgROM(((t.second_last() & t.prg_rom_banks.mask) << 13usize) | (off as usize)),
{
    lemma_prg_window(t, 3, off);
    lemma_prg_window(t, t.second_last_slot() as u16, off);
}

/// Every write to the windowed mapper keeps its invariant, so the last two
/// PRG pages stay where `law_fixed_prg_banks` says after any sequence of writes.
pub proof fn law_writes_keep_fixed_banks(t: TxromView, addr: u16, data: u8)
    requires
        t.wf(),
    ensures
        t.write(addr, data).1.wf(),
{
    lemma_update_banks_wf(TxromView { bank_select: data, ..t });
    let sel = t.bank_select;
    assert(sel & 0x07 < 8) by (bit_vector);
    if t.bank_values.len() == 8 {
        lemma_update_banks_wf(TxromView {
            bank_values: t.bank_values.update((t.bank_select & 0x07) as int, data),
            ..t
        });
    }
    lemma_update_banks_wf(TxromView { mirroring: crate::rom::ScreenMirroring::Vertical, ..t });
    lemma_update_banks_wf(TxromView { mirroring: crate::rom::ScreenMirroring::Horizontal, ..t });
}

/// Recomputing the windows puts the fixed pages back in place.
proof fn lemma_update_banks_wf(t: TxromView)
    requires
        t.shape(),
    ensures
        t.update_banks().wf(),
{
}

/// After bank select names register 6 with PRG mode 0 and a bank value is
/// written, a read in 0x8000..=0x9FFF lands at
/// `(bank & mask) << 13 | (addr & 0x1FFF)`.
#[verifier::rlimit(40)]
pub proof fn law_txrom_bank_translate(t: TxromView, select: u8, bank: u8, off: u16)
    requires
        t.wf(),
        select & 0x47 == 0x06,
        off < 0x2000,
    ensures
        ({
            let t2 = t.write(0x8000, select).1.write(0x8001, bank).1;
            t2.read((0x8000 + off) as u16) == MappedRead::PrgROM(
                ((bank as usize & t.prg_rom_banks.mask) << 13usize) | (off as usize),
            )
        }),
{
    assert(0x8000u16 & 0xE001 == 0x8000 && 0x8001u16 & 0xE001 == 0x8001) by (bit_vector);
    assert(select & 0x07 == 6 && select & 0x40 != 0x40) by (bit_vector)
        requires
            select & 0x47 == 0x06,
    ;
    let t0 = TxromView { bank_select: select, ..t };
    let t1 = t0.update_banks();
    assert(t.write(0x8000, select).1 == t1);
    lemma_update_banks_wf(t0);
    let u = TxromView { bank_values: t1.bank_values.update(6, bank), ..t1 };
    let t2 = u.update_banks();
    assert(t1.write(0x8001, bank).1 == t2);
    lemma_update_banks_wf(u);
    assert(t2.prg_rom_banks.mask == t.prg_rom_banks.mask);
    assert(t2.prg_rom_banks.banks[0] == ((bank as usize) & t.prg_rom_banks.mask) << 13usize);
    lemma_prg_window(t2, 0, off);
}

/// Where windows are a power of two in size, a translated address stays
/// inside the backing store: below `page_count` windows.
pub proof fn law_bank_translate_in_bounds(m: MembankView, slot: int, bank: usize, addr: u16)
    requires
        m.wf(),
        0 <= slot < m.banks.len(),
        m.get_bank(addr) == slot,
        m.window == 1usize << m.shift,
        m.page_count <= 0x8000,
    ensures
        m.set(slot, bank).translate(addr) < m.page_count << m.shift,
{
    let k = bank & m.mask;
    let sh = m.shift;
    let pc = m.page_count;
    let mask = m.mask;
    let o = (addr as usize) & ((m.window - 1) as usize);
    let w = m.window;
    assert(k <= mask) by (bit_vector)
        requires
            k == bank & mask,
    ;
    assert(o < w) by (bit_vector)
        requires
            o == (addr as usize) & ((w - 1) as usize),
            w == 1usize << sh,
            sh <= 16,
    ;
    assert((k << sh) | o < pc << sh) by (bit_vector)
        requires
            k <= mask,
            mask == pc - 1,
            1 <= pc <= 0x8000,
            o < w,
            w == 1usize << sh,
            sh <= 16,
    ;
}

} // verus!