//! The trace line: one fixed-width, upper-case line per instruction, in the
//! layout that emulator golden logs use:
//! `PPPP  B1 B2 B3  MNE operand...           A:xx X:xx Y:xx P:xx SP:xx`.

use vstd::prelude::*;
use vstd::string::{StrSliceExecFns, StringExecFns};
use crate::cpu::{relative_target, CpuView, CPU};
use crate::text::push_char;
use crate::instructions::{lookup, mnemonic_of, opcode_info, AddressingMode, Instruction, OpcodeInfo};

verus! {

pub open spec fn hex_digit(n: u8) -> char {
    if n == 0 { '0' } else if n == 1 { '1' } else if n == 2 { '2' } else if n == 3 { '3' }
    else if n == 4 { '4' } else if n == 5 { '5' } else if n == 6 { '6' } else if n == 7 { '7' }
    else if n == 8 { '8' } else if n == 9 { '9' } else if n == 10 { 'A' } else if n == 11 { 'B' }
    else if n == 12 { 'C' } else if n == 13 { 'D' } else if n == 14 { 'E' } else { 'F' }
}

/// A byte as two upper-case hex digits.
pub open spec fn hex2(v: u8) -> Seq<char> {
    seq![hex_digit(v / 16), hex_digit(v % 16)]
}

/// A 16-bit value as four upper-case hex digits.
pub open spec fn hex4(v: u16) -> Seq<char> {
    hex2((v / 256) as u8) + hex2((v % 256) as u8)
}

pub open spec fn spaces(n: nat) -> Seq<char> {
    Seq::new(n, |i: int| ' ')
}

/// `s` padded with spaces on the right to `width`.
pub open spec fn pad_right(s: Seq<char>, width: nat) -> Seq<char> {
    if s.len() >= width { s } else { s + spaces((width - s.len()) as nat) }
}

/// `s` padded with spaces on the left to `width`.
pub open spec fn pad_left(s: Seq<char>, width: nat) -> Seq<char> {
    if s.len() >= width { s } else { spaces((width - s.len()) as nat) + s }
}

/// The operand text of the instruction at `begin`, its operand bytes, and
/// the state after the reads it takes. `mem` is the resolved operand address and `stored` the
/// byte there (both 0 for modes without a memory operand).
#[verifier::opaque]
pub open spec fn operand_text(s: CpuView, op: u8, info: OpcodeInfo, begin: u16, mem: u16, stored: u8) -> (Seq<char>, Seq<u8>, CpuView) {
    if info.bytes == 1 {
        (if op == 0x0A || op == 0x4A || op == 0x2A || op == 0x6A { "A"@ } else { Seq::empty() }, Seq::empty(), s)
    } else if info.bytes == 2 {
        let (a, s1) = s.read(begin.wrapping_add(1));
        (match info.mode {
            AddressingMode::Immediate => "#$"@ + hex2(a),
            AddressingMode::ZeroPage => "$"@ + hex2(mem as u8) + " = "@ + hex2(stored),
            AddressingMode::ZeroPageX => "$"@ + hex2(a) + ",X @ "@ + hex2(mem as u8) + " = "@ + hex2(stored),
            AddressingMode::ZeroPageY => "$"@ + hex2(a) + ",Y @ "@ + hex2(mem as u8) + " = "@ + hex2(stored),
            AddressingMode::IndirectX => "($"@ + hex2(a) + ",X) @ "@ + hex2(a.wrapping_add(s.x)) + " = "@ + hex4(mem)
                + " = "@ + hex2(stored),
            AddressingMode::IndirectY => "($"@ + hex2(a) + "),Y = "@ + hex4(mem.wrapping_sub(s.y as u16)) + " @ "@
                + hex4(mem) + " = "@ + hex2(stored),
            AddressingMode::Relative | AddressingMode::Implied | AddressingMode::Accumulator => "$"@ + hex4(
                relative_target(begin.wrapping_add(1), a),
            ),
            _ => Seq::empty(),
        }, seq![a], s1)
    } else {
        let (lo, s1) = s.read(begin.wrapping_add(1));
        let (hi, s2) = s1.read(begin.wrapping_add(2));
        let (a, s3) = s2.read16(begin.wrapping_add(1));
        match info.mode {
            AddressingMode::Indirect => {
                let (target, s4) = if a % 256 == 0xFF {
                    let (tlo, t1) = s3.read(a);
                    let (thi, t2) = t1.read((a / 256 * 256) as u16);
                    ((thi as u16 * 256 + tlo as u16) as u16, t2)
                } else {
                    s3.read16(a)
                };
                ("($"@ + hex4(a) + ") = "@ + hex4(target), seq![lo, hi], s4)
            },
            AddressingMode::Absolute => (if op == 0x4C || op == 0x20 {
                "$"@ + hex4(mem)
            } else {
                "$"@ + hex4(mem) + " = "@ + hex2(stored)
            }, seq![lo, hi], s3),
            AddressingMode::AbsoluteX => ("$"@ + hex4(a) + ",X @ "@ + hex4(mem) + " = "@ + hex2(stored), seq![lo, hi], s3),
            AddressingMode::AbsoluteY => ("$"@ + hex4(a) + ",Y @ "@ + hex4(mem) + " = "@ + hex2(stored), seq![lo, hi], s3),
            _ => ("$"@ + hex4(a), seq![lo, hi], s3),
        }
    }
}

/// Each byte as a space and two hex digits.
pub open spec fn hex_bytes(b: Seq<u8>) -> Seq<char>
    decreases b.len(),
{
    if b.len() == 0 {
        Seq::empty()
    } else {
        " "@ + hex2(b[0]) + hex_bytes(b.drop_first())
    }
}

/// Whether the trace shows the resolved operand address for `mode`.
pub open spec fn shows_memory(mode: AddressingMode) -> bool {
    !(mode is Immediate || mode is Implied || mode is Accumulator || mode is Relative)
}

/// The trace line for the instruction at the program counter (`None` for an
/// opcode outside the table), and the state after the reads that made it.
pub open spec fn trace_line(s: CpuView) -> (Option<Seq<char>>, CpuView) {
    let begin = s.pc;
    let (op, s1) = s.read(begin);
    match opcode_info(op) {
        None => (None, s1),
        Some(info) => {
            let (mem, stored, s2) = if shows_memory(info.mode) {
                let (m, _c, t) = s1.operand_at(info.mode, begin.wrapping_add(1));
                let (v, t2) = t.read(m);
                (m, v, t2)
            } else {
                (0u16, 0u8, s1)
            };
            let (text, bytes, s3) = operand_text(s2, op, info, begin, mem, stored);
            (Some(line_text(listing_text(begin, op, bytes, text), s.acc, s.x, s.y, s.status, s.sp)), s3)
        },
    }
}

/// The left part of the line: address, instruction bytes, mnemonic and operand.
#[verifier::opaque]
pub open spec fn listing_text(begin: u16, op: u8, bytes: Seq<u8>, text: Seq<char>) -> Seq<char> {
    hex4(begin) + "  "@ + pad_right(hex2(op) + hex_bytes(bytes), 8) + " "@ + pad_left(mnemonic_of(op), 4) + if text.len()
        == 0 {
        Seq::empty()
    } else {
        " "@ + text
    }
}

/// The whole line: the listing padded to 47 columns, then the registers.
#[verifier::opaque]
pub open spec fn line_text(listing: Seq<char>, a: u8, x: u8, y: u8, p: u8, sp: u8) -> Seq<char> {
    pad_right(listing, 47) + " A:"@ + hex2(a) + " X:"@ + hex2(x) + " Y:"@ + hex2(y) + " P:"@ + hex2(p) + " SP:"@
        + hex2(sp)
}


fn push_text(out: &mut String, t: &str)
    ensures
        final(out)@ == old(out)@ + t@,
{
    out.append(t);
}

fn text_len(s: &String) -> (n: usize)
    ensures
        n == s@.len(),
{
    s.as_str().unicode_len()
}

fn hex_digit_char(n: u8) -> (c: char)
    ensures
        c == hex_digit(n),
{
    if n == 0 { '0' } else if n == 1 { '1' } else if n == 2 { '2' } else if n == 3 { '3' }
    else if n == 4 { '4' } else if n == 5 { '5' } else if n == 6 { '6' } else if n == 7 { '7' }
    else if n == 8 { '8' } else if n == 9 { '9' } else if n == 10 { 'A' } else if n == 11 { 'B' }
    else if n == 12 { 'C' } else if n == 13 { 'D' } else if n == 14 { 'E' } else { 'F' }
}

fn push_hex2(out: &mut String, v: u8)
    ensures
        final(out)@ == old(out)@ + hex2(v),
{
    push_char(out, hex_digit_char(v / 16));
    push_char(out, hex_digit_char(v % 16));
    assert(out@ =~= old(out)@ + hex2(v));
}

fn push_hex4(out: &mut String, v: u16)
    ensures
        final(out)@ == old(out)@ + hex4(v),
{
    push_hex2(out, (v / 256) as u8);
    push_hex2(out, (v % 256) as u8);
    assert(out@ =~= old(out)@ + hex4(v));
}

fn push_spaces(out: &mut String, n: usize)
    ensures
        final(out)@ == old(out)@ + spaces(n as nat),
{
    let mut i: usize = 0;
    while i < n
        invariant
            i <= n,
            out@ == old(out)@ + spaces(i as nat),
        decreases n - i,
    {
        push_char(out, ' ');
        i = i + 1;
        assert(out@ =~= old(out)@ + spaces(i as nat));
    }
}

/// Appends `s` padded with spaces on the right to `width`.
fn push_padded_right(out: &mut String, s: &String, width: usize)
    ensures
        final(out)@ == old(out)@ + pad_right(s@, width as nat),
{
    let n = text_len(s);
    push_text(out, s.as_str());
    if n < width {
        push_spaces(out, width - n);
        assert(out@ =~= old(out)@ + pad_right(s@, width as nat));
    }
}

/// Appends `s` padded with spaces on the left to `width`.
fn push_padded_left(out: &mut String, s: &str, width: usize)
    ensures
        final(out)@ == old(out)@ + pad_left(s@, width as nat),
{
    let n = s.unicode_len();
    if n < width {
        push_spaces(out, width - n);
    }
    push_text(out, s);
    assert(out@ =~= old(out)@ + pad_left(s@, width as nat));
}

/// The operand text, see `operand_text`.
fn operand_text_of(cpu: &mut CPU, op: u8, ins: &Instruction, begin: u16, mem: u16, stored: u8) -> (r: (String, Vec<u8>))
    requires
        old(cpu)@.wf(),
    ensures
        (r.0@, r.1@, final(cpu)@) == operand_text(old(cpu)@, op, ins.info(), begin, mem, stored),
        final(cpu)@.wf(),
{
    proof {
        reveal(operand_text);
    }
    let mut t = String::new();
    let mut bytes: Vec<u8> = Vec::new();
    if ins.bytes == 1 {
        if op == 0x0A || op == 0x4A || op == 0x2A || op == 0x6A {
            push_text(&mut t, "A");
        }
        assert(t@ =~= (if op == 0x0A || op == 0x4A || op == 0x2A || op == 0x6A { "A"@ } else { Seq::empty() }));
    } else if ins.bytes == 2 {
        let a = cpu.mem_read_u8(begin.wrapping_add(1));
        bytes.push(a);
        match ins.addressing_mode {
            AddressingMode::Immediate => {
                push_text(&mut t, "#$");
                push_hex2(&mut t, a);
            },
            AddressingMode::ZeroPage => {
                push_text(&mut t, "$");
                push_hex2(&mut t, mem as u8);
                push_text(&mut t, " = ");
                push_hex2(&mut t, stored);
            },
            AddressingMode::ZeroPageX => {
                push_text(&mut t, "$");
                push_hex2(&mut t, a);
                push_text(&mut t, ",X @ ");
                push_hex2(&mut t, mem as u8);
                push_text(&mut t, " = ");
                push_hex2(&mut t, stored);
            },
            AddressingMode::ZeroPageY => {
                push_text(&mut t, "$");
                push_hex2(&mut t, a);
                push_text(&mut t, ",Y @ ");
                push_hex2(&mut t, mem as u8);
                push_text(&mut t, " = ");
                push_hex2(&mut t, stored);
            },
            AddressingMode::IndirectX => {
                push_text(&mut t, "($");
                push_hex2(&mut t, a);
                push_text(&mut t, ",X) @ ");
                push_hex2(&mut t, a.wrapping_add(cpu.x));
                push_text(&mut t, " = ");
                push_hex4(&mut t, mem);
                push_text(&mut t, " = ");
                push_hex2(&mut t, stored);
            },
            AddressingMode::IndirectY => {
                push_text(&mut t, "($");
                push_hex2(&mut t, a);
                push_text(&mut t, "),Y = ");
                push_hex4(&mut t, mem.wrapping_sub(cpu.y as u16));
                push_text(&mut t, " @ ");
                push_hex4(&mut t, mem);
                push_text(&mut t, " = ");
                push_hex2(&mut t, stored);
            },
            AddressingMode::Relative | AddressingMode::Implied | AddressingMode::Accumulator => {
                let after = begin.wrapping_add(1);
                let target = if a < 128 {
                    after.wrapping_add(1).wrapping_add(a as u16)
                } else {
                    after.wrapping_add(1).wrapping_sub(256 - a as u16)
                };
                push_text(&mut t, "$");
                push_hex4(&mut t, target);
            },
            _ => {},
        }
        assert(bytes@ =~= seq![a]);
    } else {
        let lo = cpu.mem_read_u8(begin.wrapping_add(1));
        let hi = cpu.mem_read_u8(begin.wrapping_add(2));
        bytes.push(lo);
        bytes.push(hi);
        let a = cpu.mem_read_u16(begin.wrapping_add(1));
        match ins.addressing_mode {
            AddressingMode::Indirect => {
                let target = if a % 256 == 0xFF {
                    let tlo = cpu.mem_read_u8(a);
                    let thi = cpu.mem_read_u8(a / 256 * 256);
                    thi as u16 * 256 + tlo as u16
                } else {
                    cpu.mem_read_u16(a)
                };
                push_text(&mut t, "($");
                push_hex4(&mut t, a);
                push_text(&mut t, ") = ");
                push_hex4(&mut t, target);
            },
            AddressingMode::Absolute => {
                push_text(&mut t, "$");
                push_hex4(&mut t, mem);
                if !(op == 0x4C || op == 0x20) {
                    push_text(&mut t, " = ");
                    push_hex2(&mut t, stored);
                }
            },
            AddressingMode::AbsoluteX => {
                push_text(&mut t, "$");
                push_hex4(&mut t, a);
                push_text(&mut t, ",X @ ");
                push_hex4(&mut t, mem);
                push_text(&mut t, " = ");
                push_hex2(&mut t, stored);
            },
            AddressingMode::AbsoluteY => {
                push_text(&mut t, "$");
                push_hex4(&mut t, a);
                push_text(&mut t, ",Y @ ");
                push_hex4(&mut t, mem);
                push_text(&mut t, " = ");
                push_hex2(&mut t, stored);
            },
            _ => {
                push_text(&mut t, "$");
                push_hex4(&mut t, a);
            },
        }
        assert(bytes@ =~= seq![lo, hi]);
    }
    proof {
        assert(t@ =~= operand_text(old(cpu)@, op, ins.info(), begin, mem, stored).0);
    }
    (t, bytes)
}

fn push_hex_bytes(out: &mut String, b: &Vec<u8>)
    ensures
        final(out)@ == old(out)@ + hex_bytes(b@),
{
    let mut i: usize = 0;
    assert(b@.subrange(0, b@.len() as int) =~= b@);
    while i < b.len()
        invariant
            i <= b@.len(),
            out@ + hex_bytes(b@.subrange(i as int, b@.len() as int)) == old(out)@ + hex_bytes(b@),
        decreases b@.len() - i,
    {
        let ghost before = out@;
        push_text(out, " ");
        push_hex2(out, b[i]);
        proof {
            let rest = b@.subrange(i as int, b@.len() as int);
            assert(rest.drop_first() =~= b@.subrange(i + 1, b@.len() as int));
            assert(out@ + hex_bytes(rest.drop_first()) =~= before + hex_bytes(rest));
        }
        i = i + 1;
    }
    assert(b@.subrange(b@.len() as int, b@.len() as int) =~= Seq::<u8>::empty());
    assert(out@ =~= out@ + hex_bytes(Seq::<u8>::empty()));
}

/// The trace line for the instruction at the program counter, or `None`
/// when the opcode there is not in the instruction table. Its reads go
/// through the bus like the processor's own.
pub fn trace(cpu: &mut CPU) -> (r: Option<String>)
    requires
        old(cpu)@.wf(),
    ensures
        match trace_line(old(cpu)@).0 {
            None => r is None,
            Some(t) => r is Some && r->0@ == t,
        },
        final(cpu)@ == trace_line(old(cpu)@).1,
        final(cpu)@.wf(),
{
    let (acc, x, y, status, sp) = (cpu.acc, cpu.x, cpu.y, cpu.status.bits(), cpu.sp);
    let begin = cpu.pc;
    let op = cpu.mem_read_u8(begin);
    let ins = match lookup(op) {
        Some(ins) => ins,
        None => return None,
    };
    let (mem, stored) = if !(ins.addressing_mode == AddressingMode::Immediate || ins.addressing_mode
        == AddressingMode::Implied || ins.addressing_mode == AddressingMode::Accumulator
        || ins.addressing_mode == AddressingMode::Relative) {
        let (m, _) = cpu.get_absolute_address(&ins.addressing_mode, begin.wrapping_add(1));
        let v = cpu.mem_read_u8(m);
        (m, v)
    } else {
        (0u16, 0u8)
    };
    let (text, bytes) = operand_text_of(cpu, op, &ins, begin, mem, stored);
    let listing = build_listing(begin, op, &bytes, ins.ins, &text);
    Some(build_line(&listing, acc, x, y, status, sp))
}

fn build_listing(begin: u16, op: u8, bytes: &Vec<u8>, mnemonic: &str, text: &String) -> (r: String)
    requires
        mnemonic@ == mnemonic_of(op),
    ensures
        r@ == listing_text(begin, op, bytes@, text@),
{
    proof {
        reveal(listing_text);
    }
    let mut dump = String::new();
    push_hex2(&mut dump, op);
    push_hex_bytes(&mut dump, bytes);
    let mut line = String::new();
    push_hex4(&mut line, begin);
    push_text(&mut line, "  ");
    push_padded_right(&mut line, &dump, 8);
    push_text(&mut line, " ");
    push_padded_left(&mut line, mnemonic, 4);
    if text_len(text) > 0 {
        push_text(&mut line, " ");
        push_text(&mut line, text.as_str());
    }
    assert(line@ =~= listing_text(begin, op, bytes@, text@));
    line
}

fn build_line(listing: &String, a: u8, x: u8, y: u8, p: u8, sp: u8) -> (r: String)
    ensures
        r@ == line_text(listing@, a, x, y, p, sp),
{
    proof {
        reveal(line_text);
    }
    let mut out = String::new();
    push_padded_right(&mut out, listing, 47);
    push_text(&mut out, " A:");
    push_hex2(&mut out, a);
    push_text(&mut out, " X:");
    push_hex2(&mut out, x);
    push_text(&mut out, " Y:");
    push_hex2(&mut out, y);
    push_text(&mut out, " P:");
    push_hex2(&mut out, p);
    push_text(&mut out, " SP:");
    push_hex2(&mut out, sp);
    assert(out@ =~= line_text(listing@, a, x, y, p, sp));
    out
}


} // verus!
