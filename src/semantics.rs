//! The meaning of each instruction, as functions from register and memory state to the
//! state after it.
use vstd::prelude::*;
use crate::bus::read16_spec;
use crate::isa::{decode_spec, AddressMode, Mnemonic, OpValue};

verus! {

/// The architectural registers of the processor.
#[derive(Copy, Clone, Debug, PartialEq, Eq, Structural)]
pub struct Registers {
    pub pc: u16,
    pub s: u8,
    pub a: u8,
    pub x: u8,
    pub y: u8,
    pub p: u8,
}

pub const CARRY: u8 = 0b0000_0001;
pub const ZERO: u8 = 0b0000_0010;
pub const INTERRUPT: u8 = 0b0000_0100;
pub const DECIMAL: u8 = 0b0000_1000;
pub const BREAK: u8 = 0b0001_0000;
pub const UNUSED: u8 = 0b0010_0000;
pub const OVERFLOW: u8 = 0b0100_0000;
pub const NEGATIVE: u8 = 0b1000_0000;

/// Address of the non-maskable interrupt vector (unused by this core).
pub const VEC_NMI: u16 = 0xFFFA;
/// Address of the reset vector.
pub const VEC_RES: u16 = 0xFFFC;
/// Address of the interrupt and BRK vector.
pub const VEC_IRQ: u16 = 0xFFFE;

/// The status byte after reset: bits 2, 4 and 5 set.
pub const P_RESET: u8 = 0b0011_0100;

/// Whether the status flag `mask` is set in `p`.
pub open spec fn flag(p: u8, mask: u8) -> bool {
    p & mask != 0
}

/// `p` with the flag `mask` set to `v`, and every other bit kept.
pub open spec fn with_flag(p: u8, mask: u8, v: bool) -> u8 {
    if v {
        p | mask
    } else {
        p & !mask
    }
}

/// `p` with Zero and Negative set from the value `v`.
pub open spec fn with_nz(p: u8, v: u8) -> u8 {
    with_flag(with_flag(p, ZERO, v == 0), NEGATIVE, v >= 128)
}

pub open spec fn is_negative(v: u8) -> bool {
    v >= 128
}

/// Add with carry: the result byte, the carry out, and signed overflow.
pub open spec fn adc_spec(a: u8, b: u8, c: bool) -> (u8, bool, bool) {
    let sum = a + b + (if c { 1int } else { 0int });
    let result = (sum % 256) as u8;
    (result, sum > 255, is_negative(a) == is_negative(b) && is_negative(result) != is_negative(a))
}

/// Subtract with borrow, where the carry in is the complement of the borrow: the result
/// byte, the carry out (no borrow occurred), and signed overflow.
pub open spec fn sbc_spec(a: u8, b: u8, c: bool) -> (u8, bool, bool) {
    let diff = a - b - (if c { 0int } else { 1int });
    let result = (diff % 256) as u8;
    (result, diff >= 0, is_negative(a) != is_negative(b) && is_negative(result) != is_negative(a))
}

/// The status after comparing `reg` with `v`: Zero and Negative from `reg - v`, Carry when
/// `reg >= v`.
pub open spec fn compare_spec(p: u8, reg: u8, v: u8) -> u8 {
    with_flag(with_nz(p, ((reg - v) % 256) as u8), CARRY, reg >= v)
}

/// Shifts and rotates: the result and the bit shifted out.
pub open spec fn shift_spec(m: Mnemonic, v: u8, c: bool) -> (u8, bool) {
    let cin: int = if c { 1 } else { 0 };
    match m {
        Mnemonic::Asl => (((v * 2) % 256) as u8, v >= 128),
        Mnemonic::Lsr => ((v / 2) as u8, v % 2 == 1),
        Mnemonic::Rol => (((v * 2 + cin) % 256) as u8, v >= 128),
        _ => ((v / 2 + 128 * cin) as u8, v % 2 == 1),
    }
}

pub open spec fn is_shift(m: Mnemonic) -> bool {
    m == Mnemonic::Asl || m == Mnemonic::Lsr || m == Mnemonic::Rol || m == Mnemonic::Ror
}

/// The signed value of a relative branch offset.
pub open spec fn signed(b: u8) -> int {
    if b < 128 { b as int } else { b - 256 }
}

pub open spec fn add16(a: u16, b: int) -> u16 {
    ((a + b) % 65536) as u16
}

/// The 16-bit little-endian pointer at zero-page address `zp`, whose high byte wraps to 0x00.
pub open spec fn zp16_spec(mem: Seq<u8>, zp: u8) -> u16 {
    (mem[zp as int] as int + 256 * mem[((zp as int + 1) % 256)] as int) as u16
}

/// The operand of an instruction whose operand bytes start at `r.pc`, and the address after
/// them.
#[verifier::opaque]
pub open spec fn resolve_spec(r: Registers, mem: Seq<u8>, mode: AddressMode) -> (OpValue, u16) {
    let pc = r.pc;
    let b = mem[pc as int];
    let next1 = add16(pc, 1);
    let next2 = add16(pc, 2);
    match mode {
        AddressMode::Accumulator | AddressMode::Implied => (OpValue::Absent, pc),
        AddressMode::Immediate => (OpValue::U8(b), next1),
        AddressMode::Zeropage => (OpValue::U16(b as u16), next1),
        AddressMode::ZeropageX => (OpValue::U16(((b + r.x) % 256) as u16), next1),
        AddressMode::ZeropageY => (OpValue::U16(((b + r.y) % 256) as u16), next1),
        AddressMode::Absolute => (OpValue::U16(read16_spec(mem, pc)), next2),
        AddressMode::AbsoluteX => (OpValue::U16(add16(read16_spec(mem, pc), r.x as int)), next2),
        AddressMode::AbsoluteY => (OpValue::U16(add16(read16_spec(mem, pc), r.y as int)), next2),
        AddressMode::Indirect => (OpValue::U16(read16_spec(mem, read16_spec(mem, pc))), next2),
        AddressMode::XIndirect => (OpValue::U16(zp16_spec(mem, ((b + r.x) % 256) as u8)), next1),
        AddressMode::IndirectY => (OpValue::U16(add16(zp16_spec(mem, b), r.y as int)), next1),
        AddressMode::Relative => (OpValue::U16(add16(next1, signed(b))), next1),
    }
}

/// `resolve_spec` mode by mode.
pub proof fn lemma_resolve_cases(r: Registers, mem: Seq<u8>, mode: AddressMode)
    ensures
        ({
            let pc = r.pc;
            let b = mem[pc as int];
            let next1 = add16(pc, 1);
            let next2 = add16(pc, 2);
            let res = resolve_spec(r, mem, mode);
            &&& (mode == AddressMode::Accumulator || mode == AddressMode::Implied) ==> res == (OpValue::Absent, pc)
            &&& mode == AddressMode::Immediate ==> res == (OpValue::U8(b), next1)
            &&& mode == AddressMode::Zeropage ==> res == (OpValue::U16(b as u16), next1)
            &&& mode == AddressMode::ZeropageX ==> res == (OpValue::U16(((b + r.x) % 256) as u16), next1)
            &&& mode == AddressMode::ZeropageY ==> res == (OpValue::U16(((b + r.y) % 256) as u16), next1)
            &&& mode == AddressMode::Absolute ==> res == (OpValue::U16(read16_spec(mem, pc)), next2)
            &&& mode == AddressMode::AbsoluteX ==> res == (OpValue::U16(add16(read16_spec(mem, pc), r.x as int)), next2)
            &&& mode == AddressMode::AbsoluteY ==> res == (OpValue::U16(add16(read16_spec(mem, pc), r.y as int)), next2)
            &&& mode == AddressMode::Indirect ==> res == (OpValue::U16(read16_spec(mem, read16_spec(mem, pc))), next2)
            &&& mode == AddressMode::XIndirect ==> res == (OpValue::U16(zp16_spec(mem, ((b + r.x) % 256) as u8)), next1)
            &&& mode == AddressMode::IndirectY ==> res == (OpValue::U16(add16(zp16_spec(mem, b), r.y as int)), next1)
            &&& mode == AddressMode::Relative ==> res == (OpValue::U16(add16(next1, signed(b))), next1)
        }),
{
    reveal(resolve_spec);
}

/// The byte that an operand stands for: an immediate value, or the byte at its address.
pub open spec fn operand_value(mem: Seq<u8>, ov: OpValue) -> u8 {
    match ov {
        OpValue::U8(v) => v,
        OpValue::U16(addr) => mem[addr as int],
        OpValue::Absent => 0,
    }
}

pub open spec fn operand_addr(ov: OpValue) -> u16 {
    match ov {
        OpValue::U16(addr) => addr,
        _ => 0,
    }
}

/// Address of the stack slot that `s` points at.
pub open spec fn stack_addr(s: u8) -> int {
    0x100 + s
}

/// Pushes `v`: stores it at the slot `s` points at, then decrements `s` within the page.
pub open spec fn push_spec(r: Registers, mem: Seq<u8>, v: u8) -> (Registers, Seq<u8>) {
    (Registers { s: ((r.s - 1) % 256) as u8, ..r }, mem.update(stack_addr(r.s), v))
}

/// Pushes a 16-bit value, high byte first.
pub open spec fn push16_spec(r: Registers, mem: Seq<u8>, v: u16) -> (Registers, Seq<u8>) {
    let (r1, m1) = push_spec(r, mem, (v / 256) as u8);
    push_spec(r1, m1, (v % 256) as u8)
}

/// Pops: increments `s` within the page, then reads the slot it points at.
pub open spec fn pop_spec(r: Registers, mem: Seq<u8>) -> (Registers, u8) {
    let s = ((r.s + 1) % 256) as u8;
    (Registers { s, ..r }, mem[stack_addr(s)])
}

/// Pops a 16-bit value, low byte first.
pub open spec fn pop16_spec(r: Registers, mem: Seq<u8>) -> (Registers, u16) {
    let (r1, lo) = pop_spec(r, mem);
    let (r2, hi) = pop_spec(r1, mem);
    (r2, (hi * 256 + lo) as u16)
}

/// The branch condition of a branch mnemonic.
pub open spec fn branch_taken(m: Mnemonic, p: u8) -> bool {
    match m {
        Mnemonic::Bcc => !flag(p, CARRY),
        Mnemonic::Bcs => flag(p, CARRY),
        Mnemonic::Beq => flag(p, ZERO),
        Mnemonic::Bne => !flag(p, ZERO),
        Mnemonic::Bmi => flag(p, NEGATIVE),
        Mnemonic::Bpl => !flag(p, NEGATIVE),
        Mnemonic::Bvc => !flag(p, OVERFLOW),
        _ => flag(p, OVERFLOW),
    }
}

pub open spec fn is_branch(m: Mnemonic) -> bool {
    match m {
        Mnemonic::Bcc | Mnemonic::Bcs | Mnemonic::Beq | Mnemonic::Bne | Mnemonic::Bmi
        | Mnemonic::Bpl | Mnemonic::Bvc | Mnemonic::Bvs => true,
        _ => false,
    }
}

/// Instructions that read one operand byte and set registers and flags from it.
#[verifier::opaque]
pub open spec fn read_op_spec(r: Registers, m: Mnemonic, v: u8) -> Registers {
    match m {
        Mnemonic::Adc => {
            let (res, c, o) = adc_spec(r.a, v, flag(r.p, CARRY));
            Registers { a: res, p: with_flag(with_flag(with_nz(r.p, res), CARRY, c), OVERFLOW, o), ..r }
        },
        Mnemonic::Sbc => {
            let (res, c, o) = sbc_spec(r.a, v, flag(r.p, CARRY));
            Registers { a: res, p: with_flag(with_flag(with_nz(r.p, res), CARRY, c), OVERFLOW, o), ..r }
        },
        Mnemonic::And => Registers { a: r.a & v, p: with_nz(r.p, r.a & v), ..r },
        Mnemonic::Ora => Registers { a: r.a | v, p: with_nz(r.p, r.a | v), ..r },
        Mnemonic::Eor => Registers { a: r.a ^ v, p: with_nz(r.p, r.a ^ v), ..r },
        Mnemonic::Lda => Registers { a: v, p: with_nz(r.p, v), ..r },
        Mnemonic::Ldx => Registers { x: v, p: with_nz(r.p, v), ..r },
        Mnemonic::Ldy => Registers { y: v, p: with_nz(r.p, v), ..r },
        Mnemonic::Cmp => Registers { p: compare_spec(r.p, r.a, v), ..r },
        Mnemonic::Cpx => Registers { p: compare_spec(r.p, r.x, v), ..r },
        Mnemonic::Cpy => Registers { p: compare_spec(r.p, r.y, v), ..r },
        _ => {
            // BIT: Negative and Overflow from bits 7 and 6 of A AND the operand.
            let t = r.a & v;
            Registers {
                p: with_flag(with_flag(with_flag(r.p, NEGATIVE, t & NEGATIVE != 0), OVERFLOW, t & OVERFLOW != 0), ZERO, t == 0),
                ..r
            }
        },
    }
}

pub open spec fn is_read_op(m: Mnemonic) -> bool {
    match m {
        Mnemonic::Adc | Mnemonic::Sbc | Mnemonic::And | Mnemonic::Ora | Mnemonic::Eor
        | Mnemonic::Lda | Mnemonic::Ldx | Mnemonic::Ldy | Mnemonic::Cmp | Mnemonic::Cpx
        | Mnemonic::Cpy | Mnemonic::Bit => true,
        _ => false,
    }
}

/// Instructions without an operand that only change registers.
#[verifier::opaque]
pub open spec fn implied_spec(r: Registers, m: Mnemonic) -> Registers {
    match m {
        Mnemonic::Clc => Registers { p: with_flag(r.p, CARRY, false), ..r },
        Mnemonic::Cld => Registers { p: with_flag(r.p, DECIMAL, false), ..r },
        Mnemonic::Cli => Registers { p: with_flag(r.p, INTERRUPT, false), ..r },
        Mnemonic::Clv => Registers { p: with_flag(r.p, OVERFLOW, false), ..r },
        Mnemonic::Sec => Registers { p: with_flag(r.p, CARRY, true), ..r },
        Mnemonic::Sed => Registers { p: with_flag(r.p, DECIMAL, true), ..r },
        Mnemonic::Sei => Registers { p: with_flag(r.p, INTERRUPT, true), ..r },
        Mnemonic::Tax => Registers { x: r.a, p: with_nz(r.p, r.a), ..r },
        Mnemonic::Tay => Registers { y: r.a, p: with_nz(r.p, r.a), ..r },
        Mnemonic::Tsx => Registers { x: r.s, p: with_nz(r.p, r.s), ..r },
        Mnemonic::Txa => Registers { a: r.x, p: with_nz(r.p, r.x), ..r },
        Mnemonic::Txs => Registers { s: r.x, ..r },
        Mnemonic::Tya => Registers { a: r.y, p: with_nz(r.p, r.y), ..r },
        Mnemonic::Inx => Registers { x: ((r.x + 1) % 256) as u8, p: with_nz(r.p, ((r.x + 1) % 256) as u8), ..r },
        Mnemonic::Iny => Registers { y: ((r.y + 1) % 256) as u8, p: with_nz(r.p, ((r.y + 1) % 256) as u8), ..r },
        Mnemonic::Dex => Registers { x: ((r.x - 1) % 256) as u8, p: with_nz(r.p, ((r.x - 1) % 256) as u8), ..r },
        Mnemonic::Dey => Registers { y: ((r.y - 1) % 256) as u8, p: with_nz(r.p, ((r.y - 1) % 256) as u8), ..r },
        _ => r,
    }
}

pub open spec fn is_implied_op(m: Mnemonic) -> bool {
    match m {
        Mnemonic::Clc | Mnemonic::Cld | Mnemonic::Cli | Mnemonic::Clv | Mnemonic::Sec
        | Mnemonic::Sed | Mnemonic::Sei | Mnemonic::Tax | Mnemonic::Tay | Mnemonic::Tsx
        | Mnemonic::Txa | Mnemonic::Txs | Mnemonic::Tya | Mnemonic::Inx | Mnemonic::Iny
        | Mnemonic::Dex | Mnemonic::Dey | Mnemonic::Nop => true,
        _ => false,
    }
}

/// Read-modify-write instructions on a memory byte or the accumulator.
#[verifier::opaque]
pub open spec fn modify_spec(r: Registers, mem: Seq<u8>, m: Mnemonic, mode: AddressMode, addr: u16) -> (Registers, Seq<u8>) {
    let acc = mode == AddressMode::Accumulator;
    let v = if acc { r.a } else { mem[addr as int] };
    let (res, carry) = if is_shift(m) {
        shift_spec(m, v, flag(r.p, CARRY))
    } else if m == Mnemonic::Inc {
        (((v + 1) % 256) as u8, flag(r.p, CARRY))
    } else {
        (((v - 1) % 256) as u8, flag(r.p, CARRY))
    };
    let p = with_nz(r.p, res);
    let p2 = if is_shift(m) { with_flag(p, CARRY, carry) } else { p };
    if acc {
        (Registers { a: res, p: p2, ..r }, mem)
    } else {
        (Registers { p: p2, ..r }, mem.update(addr as int, res))
    }
}

pub open spec fn is_modify_op(m: Mnemonic) -> bool {
    is_shift(m) || m == Mnemonic::Inc || m == Mnemonic::Dec
}

/// The stack and control-flow instructions.
#[verifier::opaque]
pub open spec fn control_spec(r: Registers, mem: Seq<u8>, m: Mnemonic, addr: u16) -> (Registers, Seq<u8>) {
    match m {
        Mnemonic::Pha => push_spec(r, mem, r.a),
        Mnemonic::Php => push_spec(r, mem, r.p | BREAK | UNUSED),
        Mnemonic::Pla => {
            let (r1, v) = pop_spec(r, mem);
            (Registers { a: v, p: with_nz(r.p, v), ..r1 }, mem)
        },
        Mnemonic::Plp => {
            let (r1, v) = pop_spec(r, mem);
            (Registers { p: (v & !BREAK) | UNUSED, ..r1 }, mem)
        },
        Mnemonic::Jmp => (Registers { pc: addr, ..r }, mem),
        Mnemonic::Jsr => {
            // The pushed address is that of the last byte of the JSR instruction.
            let (r1, m1) = push16_spec(r, mem, add16(r.pc, -1));
            (Registers { pc: addr, ..r1 }, m1)
        },
        Mnemonic::Rts => {
            let (r1, ret) = pop16_spec(r, mem);
            (Registers { pc: add16(ret, 1), ..r1 }, mem)
        },
        Mnemonic::Rti => {
            let (r1, v) = pop_spec(r, mem);
            let (r2, ret) = pop16_spec(r1, mem);
            (Registers { pc: ret, p: (v & !BREAK) | UNUSED, ..r2 }, mem)
        },
        _ => {
            // BRK: the return address skips the byte after the opcode.
            let (r1, m1) = push16_spec(r, mem, add16(r.pc, 1));
            let (r2, m2) = push_spec(r1, m1, r.p | BREAK | UNUSED);
            (Registers { pc: read16_spec(m2, VEC_IRQ), p: r.p | INTERRUPT, ..r2 }, m2)
        },
    }
}

/// The effect of instruction `m` in addressing mode `mode`, with `r.pc` at the byte after the
/// opcode.
#[verifier::opaque]
pub open spec fn execute_spec(r: Registers, mem: Seq<u8>, m: Mnemonic, mode: AddressMode) -> (Registers, Seq<u8>) {
    let (ov, pc) = resolve_spec(r, mem, mode);
    let r1 = Registers { pc, ..r };
    let addr = operand_addr(ov);
    if is_read_op(m) {
        (read_op_spec(r1, m, operand_value(mem, ov)), mem)
    } else if is_implied_op(m) {
        (implied_spec(r1, m), mem)
    } else if is_modify_op(m) {
        modify_spec(r1, mem, m, mode, addr)
    } else if is_branch(m) {
        (Registers { pc: if branch_taken(m, r.p) { addr } else { pc }, ..r1 }, mem)
    } else if m == Mnemonic::Sta {
        (r1, mem.update(addr as int, r.a))
    } else if m == Mnemonic::Stx {
        (r1, mem.update(addr as int, r.x))
    } else if m == Mnemonic::Sty {
        (r1, mem.update(addr as int, r.y))
    } else {
        control_spec(r1, mem, m, addr)
    }
}

/// One instruction: fetch the opcode at `pc`, then execute it; `None` for an illegal opcode.
pub open spec fn step_spec(r: Registers, mem: Seq<u8>) -> Option<(Registers, Seq<u8>)> {
    match decode_spec(mem[r.pc as int]) {
        Some((m, mode)) => Some(execute_spec(Registers { pc: add16(r.pc, 1), ..r }, mem, m, mode)),
        None => None,
    }
}

/// A hardware interrupt: push PC and the status with Break clear, set Interrupt-disable, and
/// continue at the interrupt vector.
pub open spec fn interrupt_spec(r: Registers, mem: Seq<u8>) -> (Registers, Seq<u8>) {
    let (r1, m1) = push16_spec(r, mem, r.pc);
    let (r2, m2) = push_spec(r1, m1, (r.p & !BREAK) | UNUSED);
    (Registers { pc: read16_spec(m2, VEC_IRQ), p: r.p | INTERRUPT, ..r2 }, m2)
}

/// The registers after reset.
pub open spec fn reset_spec(mem: Seq<u8>) -> Registers {
    Registers { pc: read16_spec(mem, VEC_RES), s: 0, a: 0, x: 0, y: 0, p: P_RESET }
}

} // verus!
