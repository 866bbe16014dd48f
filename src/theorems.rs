//! Laws of the instruction semantics, proved over the specification functions that the
//! CPU's contracts use.
use vstd::prelude::*;
use crate::bus::read16_spec;
use crate::isa::{decode_spec, AddressMode, Mnemonic, OpValue};
use crate::semantics::{
    add16, adc_spec, control_spec, execute_spec, flag, is_negative, pop_spec, push_spec,
    resolve_spec, sbc_spec, implied_spec, stack_addr, step_spec, with_flag, with_nz, zp16_spec, Registers,
    BREAK, NEGATIVE, UNUSED, ZERO,
};

verus! {

/// Executing one instruction is a function of the registers and memory alone: equal states
/// step to equal states (or fault alike). `Cpu::step` follows `step_spec` whenever every byte
/// the instruction touches reaches RAM, devices attached or not; only a read of a device (such
/// as the random-number register) can make two such steps differ.
pub proof fn lemma_step_deterministic(r1: Registers, m1: Seq<u8>, r2: Registers, m2: Seq<u8>)
    requires
        r1 == r2,
        m1 == m2,
    ensures
        step_spec(r1, m1) == step_spec(r2, m2),
{
}

/// ADC gives `(c + a + b) mod 256`, carries when `c + a + b > 255`, and overflows when `a` and
/// `b` share a sign that the result does not; SBC is ADC of the complemented operand.
pub proof fn lemma_flag_algebra(a: u8, b: u8, c: bool)
    ensures
        adc_spec(a, b, c).0 == (a + b + (if c { 1int } else { 0int })) % 256,
        adc_spec(a, b, c).1 == (a + b + (if c { 1int } else { 0int }) > 255),
        adc_spec(a, b, c).2 == (is_negative(a) == is_negative(b) && is_negative(adc_spec(a, b, c).0)
            != is_negative(a)),
        sbc_spec(a, b, c) == adc_spec(a, !b, c),
{
    assert(!b == 255 - b) by (bit_vector);
}

/// The Zero and Negative flags that `with_nz` sets follow the value.
pub proof fn lemma_with_nz(p: u8, v: u8)
    ensures
        flag(with_nz(p, v), ZERO) == (v == 0),
        flag(with_nz(p, v), NEGATIVE) == (v >= 128),
{
    assert(flag(with_flag(with_flag(p, ZERO, v == 0), NEGATIVE, v >= 128), ZERO) == (v == 0)) by (bit_vector);
    assert(flag(with_flag(with_flag(p, ZERO, v == 0), NEGATIVE, v >= 128), NEGATIVE) == (v >= 128)) by (bit_vector);
}

/// The registers after executing INX `n` times.
pub open spec fn inx_repeat(r: Registers, mem: Seq<u8>, n: nat) -> Registers
    decreases n,
{
    if n == 0 {
        r
    } else {
        execute_spec(inx_repeat(r, mem, (n - 1) as nat), mem, Mnemonic::Inx, AddressMode::Implied).0
    }
}

proof fn lemma_inx_step(r: Registers, mem: Seq<u8>)
    ensures
        execute_spec(r, mem, Mnemonic::Inx, AddressMode::Implied).0
            == (Registers { x: ((r.x + 1) % 256) as u8, p: with_nz(r.p, ((r.x + 1) % 256) as u8), ..r }),
{
    reveal(execute_spec);
    reveal(implied_spec);
    reveal(resolve_spec);
    assert(resolve_spec(r, mem, AddressMode::Implied) == (OpValue::Absent, r.pc));
}

proof fn lemma_inx_repeat_x(r: Registers, mem: Seq<u8>, n: nat)
    ensures
        inx_repeat(r, mem, n).x == (r.x + n) % 256,
        n > 0 ==> inx_repeat(r, mem, n).p == with_nz(inx_repeat(r, mem, (n - 1) as nat).p, inx_repeat(r, mem, n).x),
    decreases n,
{
    if n > 0 {
        let prev = inx_repeat(r, mem, (n - 1) as nat);
        lemma_inx_repeat_x(r, mem, (n - 1) as nat);
        lemma_inx_step(prev, mem);
        vstd::arithmetic::div_mod::lemma_add_mod_noop_right(1, r.x + n - 1, 256);
    }
}

/// INX applied 256 times returns X to its value; along the way Zero is set exactly after the
/// step on which X becomes 0, and Negative exactly when X is one of the upper 128 values.
pub proof fn lemma_inx_wraparound(r: Registers, mem: Seq<u8>)
    ensures
        inx_repeat(r, mem, 256).x == r.x,
        forall|n: nat| 1 <= n <= 256 ==> (flag(#[trigger] inx_repeat(r, mem, n).p, ZERO) <==> n == 256 - r.x),
        forall|n: nat| 1 <= n <= 256 ==> (flag(#[trigger] inx_repeat(r, mem, n).p, NEGATIVE) <==> inx_repeat(r, mem, n).x >= 128),
{
    lemma_inx_repeat_x(r, mem, 256);
    assert forall|n: nat| 1 <= n <= 256 implies (flag(#[trigger] inx_repeat(r, mem, n).p, ZERO) <==> n == 256 - r.x)
        && (flag(inx_repeat(r, mem, n).p, NEGATIVE) <==> inx_repeat(r, mem, n).x >= 128) by {
        lemma_inx_repeat_x(r, mem, n);
        let xn = inx_repeat(r, mem, n).x;
        lemma_with_nz(inx_repeat(r, mem, (n - 1) as nat).p, xn);
        assert(xn == 0 <==> r.x + n == 256);
    }
}

/// Pushes each byte of `vs` in turn.
pub open spec fn push_all(r: Registers, mem: Seq<u8>, vs: Seq<u8>) -> (Registers, Seq<u8>)
    decreases vs.len(),
{
    if vs.len() == 0 {
        (r, mem)
    } else {
        let (r1, m1) = push_all(r, mem, vs.drop_last());
        push_spec(r1, m1, vs.last())
    }
}

/// Pops `n` bytes, returning them in the order they were popped.
pub open spec fn pop_n(r: Registers, mem: Seq<u8>, n: nat) -> (Registers, Seq<u8>)
    decreases n,
{
    if n == 0 {
        (r, Seq::empty())
    } else {
        let (r1, v) = pop_spec(r, mem);
        let (r2, vs) = pop_n(r1, mem, (n - 1) as nat);
        (r2, seq![v] + vs)
    }
}

proof fn lemma_push_all_regs(r: Registers, mem: Seq<u8>, vs: Seq<u8>)
    requires
        mem.len() == 65536,
    ensures
        push_all(r, mem, vs).0 == (Registers { s: ((r.s - vs.len()) % 256) as u8, ..r }),
        push_all(r, mem, vs).1.len() == mem.len(),
    decreases vs.len(),
{
    if vs.len() > 0 {
        let init = vs.drop_last();
        assert(init.len() == vs.len() - 1);
        lemma_push_all_regs(r, mem, init);
        let (r1, m1) = push_all(r, mem, init);
        assert(r1.s == ((r.s - (vs.len() - 1)) % 256) as u8);
        vstd::arithmetic::div_mod::lemma_sub_mod_noop(r.s - (vs.len() - 1), 1, 256);
        assert(((r1.s - 1) % 256) == (r.s - vs.len()) % 256);
        assert(push_all(r, mem, vs) == push_spec(r1, m1, vs.last()));
        assert(push_spec(r1, m1, vs.last()).0 == (Registers { s: ((r1.s - 1) % 256) as u8, ..r1 }));
    }
}

/// The stack slot `j` places above `s`, wrapping within the page.
pub open spec fn slot_above(s: u8, j: int) -> int {
    (s + j) % 256
}

/// Popping reads only the `k` slots above the stack pointer.
proof fn lemma_pop_n_frame(r: Registers, mem: Seq<u8>, k: nat, t: u8, v: u8)
    requires
        mem.len() == 65536,
        forall|j: int| 1 <= j <= k ==> #[trigger] slot_above(r.s, j) != t,
    ensures
        pop_n(r, mem.update(stack_addr(t), v), k) == pop_n(r, mem, k),
    decreases k,
{
    if k > 0 {
        let s1 = ((r.s + 1) % 256) as u8;
        let r1 = Registers { s: s1, ..r };
        assert(slot_above(r.s, 1) != t);
        assert forall|j: int| 1 <= j <= k - 1 implies #[trigger] slot_above(r1.s, j) != t by {
            assert(slot_above(r.s, j + 1) != t);
            assert((j + ((r.s + 1) % 256)) % 256 == (j + (r.s + 1)) % 256) by {
                vstd::arithmetic::div_mod::lemma_add_mod_noop_right(j, r.s + 1, 256);
            }
        }
        lemma_pop_n_frame(r1, mem, (k - 1) as nat, t, v);
    }
}

/// Pushing up to 256 bytes and popping as many gives them back in reverse order, and returns
/// the stack pointer (and every other register) to where it started.
pub proof fn lemma_stack_round_trip(r: Registers, mem: Seq<u8>, vs: Seq<u8>)
    requires
        mem.len() == 65536,
        vs.len() <= 256,
    ensures
        pop_n(push_all(r, mem, vs).0, push_all(r, mem, vs).1, vs.len()).0 == r,
        pop_n(push_all(r, mem, vs).0, push_all(r, mem, vs).1, vs.len()).1.len() == vs.len(),
        forall|i: int| 0 <= i < vs.len() ==> #[trigger] pop_n(push_all(r, mem, vs).0, push_all(r, mem, vs).1, vs.len()).1[i]
            == vs[vs.len() - 1 - i],
    decreases vs.len(),
{
    if vs.len() > 0 {
        let n = vs.len();
        let init = vs.drop_last();
        let v = vs.last();
        lemma_stack_round_trip(r, mem, init);
        lemma_push_all_regs(r, mem, init);
        let (r1, m1) = push_all(r, mem, init);
        let (r2, m2) = push_spec(r1, m1, v);
        assert(m2 == m1.update(stack_addr(r1.s), v));
        // The first pop reads back `v` and restores the stack pointer after `init`.
        let (r3, w) = pop_spec(r2, m2);
        assert(r3.s == r1.s) by {
            assert(r2.s == ((r1.s - 1) % 256) as u8);
        }
        assert(r3 == r1);
        assert(w == v);
        assert forall|j: int| 1 <= j <= n - 1 implies #[trigger] slot_above(r1.s, j) != r1.s by {}
        lemma_pop_n_frame(r1, m1, (n - 1) as nat, r1.s, v);
        let rest = pop_n(r1, m1, (n - 1) as nat);
        assert(pop_n(r2, m2, n) == (rest.0, seq![v] + rest.1));
        assert forall|i: int| 0 <= i < n implies #[trigger] pop_n(r2, m2, n).1[i] == vs[n - 1 - i] by {
            if i > 0 {
                assert(pop_n(r2, m2, n).1[i] == rest.1[i - 1]);
                assert(init[init.len() - 1 - (i - 1)] == vs[n - 1 - i]);
            }
        }
    }
}

/// PHA and PHP push A, and the status with bits 4 and 5 set; PLA and PLP pop into A, and into
/// the status with bit 4 clear and bit 5 set.
pub proof fn lemma_stack_instructions(r: Registers, mem: Seq<u8>)
    ensures
        control_spec(r, mem, Mnemonic::Pha, 0) == push_spec(r, mem, r.a),
        control_spec(r, mem, Mnemonic::Php, 0) == push_spec(r, mem, r.p | BREAK | UNUSED),
        ({
            let (r1, v) = pop_spec(r, mem);
            &&& control_spec(r, mem, Mnemonic::Pla, 0) == (Registers { a: v, p: with_nz(r.p, v), ..r1 }, mem)
            &&& control_spec(r, mem, Mnemonic::Plp, 0) == (Registers { p: (v & !BREAK) | UNUSED, ..r1 }, mem)
        }),
{
    reveal(control_spec);
}

/// PHP followed by PLP gives back the status with Break clear and bit 5 set, and S as it was.
pub proof fn lemma_php_plp(r: Registers, mem: Seq<u8>)
    requires
        mem.len() == 65536,
    ensures
        ({
            let (r1, m1) = control_spec(r, mem, Mnemonic::Php, 0);
            let (r2, m2) = control_spec(r1, m1, Mnemonic::Plp, 0);
            r2 == Registers { p: (r.p & !BREAK) | UNUSED, ..r } && m2 == m1
        }),
{
    lemma_stack_instructions(r, mem);
    let (r1, m1) = push_spec(r, mem, r.p | BREAK | UNUSED);
    lemma_stack_instructions(r1, m1);
    assert((((r.s - 1) % 256) as u8 + 1) % 256 == r.s);
    let p = r.p;
    assert(((p | BREAK | UNUSED) & !BREAK) | UNUSED == (p & !BREAK) | UNUSED) by (bit_vector);
}

proof fn lemma_step_jsr(r: Registers, mem: Seq<u8>)
    requires
        mem[r.pc as int] == 0x20,
    ensures
        step_spec(r, mem) == Some(control_spec(Registers { pc: add16(r.pc, 3), ..r }, mem, Mnemonic::Jsr,
            read16_spec(mem, add16(r.pc, 1)))),
{
    reveal(execute_spec);
    reveal(resolve_spec);
    let ra = Registers { pc: add16(r.pc, 1), ..r };
    assert(decode_spec(0x20) == Some((Mnemonic::Jsr, AddressMode::Absolute)));
    assert(add16(add16(r.pc, 1), 2) == add16(r.pc, 3));
    assert(resolve_spec(ra, mem, AddressMode::Absolute) == (OpValue::U16(read16_spec(mem, ra.pc)), add16(r.pc, 3)));
}

proof fn lemma_step_rts(r: Registers, mem: Seq<u8>)
    requires
        mem[r.pc as int] == 0x60,
    ensures
        step_spec(r, mem) == Some(control_spec(Registers { pc: add16(r.pc, 1), ..r }, mem, Mnemonic::Rts, 0)),
{
    reveal(execute_spec);
    reveal(resolve_spec);
    let ra = Registers { pc: add16(r.pc, 1), ..r };
    assert(decode_spec(0x60) == Some((Mnemonic::Rts, AddressMode::Implied)));
    assert(resolve_spec(ra, mem, AddressMode::Implied) == (OpValue::Absent, ra.pc));
}

proof fn lemma_jsr_effect(r: Registers, mem: Seq<u8>, target: u16)
    requires
        mem.len() == 65536,
    ensures
        ({
            let (rp, mp) = control_spec(r, mem, Mnemonic::Jsr, target);
            let ret = add16(r.pc, -1);
            let s1 = ((r.s - 1) % 256) as u8;
            &&& rp == Registers { pc: target, s: ((s1 - 1) % 256) as u8, ..r }
            &&& mp == mem.update(stack_addr(r.s), (ret / 256) as u8).update(stack_addr(s1), (ret % 256) as u8)
        }),
{
    reveal(control_spec);
}

proof fn lemma_rts_effect(r: Registers, mem: Seq<u8>)
    ensures
        ({
            let s1 = ((r.s + 1) % 256) as u8;
            let s2 = ((s1 + 1) % 256) as u8;
            let ret = (mem[stack_addr(s2)] * 256 + mem[stack_addr(s1)]) as u16;
            control_spec(r, mem, Mnemonic::Rts, 0) == (Registers { pc: add16(ret, 1), s: s2, ..r }, mem)
        }),
{
    reveal(control_spec);
}

/// JSR to any target that holds RTS (and is not one of the two stack slots that JSR writes)
/// returns to the byte just past the three-byte JSR instruction, with S as it was.
pub proof fn lemma_jsr_rts_round_trip(r: Registers, mem: Seq<u8>)
    requires
        mem.len() == 65536,
        mem[r.pc as int] == 0x20,
        mem[read16_spec(mem, add16(r.pc, 1)) as int] == 0x60,
        read16_spec(mem, add16(r.pc, 1)) != stack_addr(r.s),
        read16_spec(mem, add16(r.pc, 1)) != stack_addr(((r.s - 1) % 256) as u8),
    ensures
        match step_spec(r, mem) {
            Some((r1, m1)) => r1.pc == read16_spec(mem, add16(r.pc, 1)) && match step_spec(r1, m1) {
                Some((r2, m2)) => r2.pc == add16(r.pc, 3) && r2.s == r.s,
                None => false,
            },
            None => false,
        },
{
    let target = read16_spec(mem, add16(r.pc, 1));
    lemma_step_jsr(r, mem);
    let r1a = Registers { pc: add16(r.pc, 3), ..r };
    lemma_jsr_effect(r1a, mem, target);
    let ret = add16(r1a.pc, -1);
    let (rp, mp) = control_spec(r1a, mem, Mnemonic::Jsr, target);
    let s1 = ((r.s - 1) % 256) as u8;
    let s2 = ((s1 - 1) % 256) as u8;
    assert(mp[target as int] == 0x60);
    lemma_step_rts(rp, mp);
    let rq = Registers { pc: add16(target, 1), ..rp };
    lemma_rts_effect(rq, mp);
    assert((s2 + 1) % 256 == s1);
    assert((s1 + 1) % 256 == r.s);
    assert(mp[stack_addr(s1)] == (ret % 256) as u8);
    assert(mp[stack_addr(r.s)] == (ret / 256) as u8);
    assert(add16(add16(r1a.pc, -1), 1) == add16(r.pc, 3));
}

/// Indexed absolute and indirect-indexed addressing add the index to the full 16-bit base,
/// so an index past the end of the base's page reaches into the next page.
pub proof fn lemma_indexed_page_crossing(r: Registers, mem: Seq<u8>)
    ensures
        resolve_spec(r, mem, AddressMode::AbsoluteX).0 == OpValue::U16(add16(read16_spec(mem, r.pc), r.x as int)),
        resolve_spec(r, mem, AddressMode::AbsoluteY).0 == OpValue::U16(add16(read16_spec(mem, r.pc), r.y as int)),
        resolve_spec(r, mem, AddressMode::IndirectY).0 == OpValue::U16(add16(zp16_spec(mem, mem[r.pc as int]), r.y as int)),
        read16_spec(mem, r.pc) + r.x < 65536 ==> resolve_spec(r, mem, AddressMode::AbsoluteX).0
            == OpValue::U16((read16_spec(mem, r.pc) + r.x) as u16),
        read16_spec(mem, r.pc) + r.y < 65536 ==> resolve_spec(r, mem, AddressMode::AbsoluteY).0
            == OpValue::U16((read16_spec(mem, r.pc) + r.y) as u16),
{
    reveal(resolve_spec);
}

/// The byte `k` places after `base`.
pub open spec fn byte_after(mem: Seq<u8>, base: u16, k: int) -> u8 {
    mem[base + k]
}

/// The state after `n` instructions, or `None` if one of them is an illegal opcode.
pub open spec fn run(r: Registers, mem: Seq<u8>, n: nat) -> Option<(Registers, Seq<u8>)>
    decreases n,
{
    if n == 0 {
        Some((r, mem))
    } else {
        match run(r, mem, (n - 1) as nat) {
            Some((r1, m1)) => step_spec(r1, m1),
            None => None,
        }
    }
}

proof fn lemma_step_inx(r: Registers, mem: Seq<u8>)
    requires
        mem[r.pc as int] == 0xE8,
    ensures
        step_spec(r, mem) == Some((Registers { pc: add16(r.pc, 1), ..execute_spec(r, mem, Mnemonic::Inx, AddressMode::Implied).0 }, mem)),
{
    reveal(execute_spec);
    reveal(implied_spec);
    reveal(resolve_spec);
    assert(decode_spec(0xE8) == Some((Mnemonic::Inx, AddressMode::Implied)));
}

proof fn lemma_run_inx(r: Registers, mem: Seq<u8>, n: nat)
    requires
        n <= 256,
        mem.len() == 65536,
        r.pc <= 0xFF00,
        forall|k: int| 0 <= k < 256 ==> #[trigger] byte_after(mem, r.pc, k) == 0xE8,
    ensures
        run(r, mem, n) == Some((Registers { pc: add16(r.pc, n as int), ..inx_repeat(r, mem, n) }, mem)),
    decreases n,
{
    if n > 0 {
        lemma_run_inx(r, mem, (n - 1) as nat);
        let prev = inx_repeat(r, mem, (n - 1) as nat);
        let cur = Registers { pc: add16(r.pc, n - 1), ..prev };
        assert(byte_after(mem, r.pc, n - 1) == 0xE8);
        assert(mem[cur.pc as int] == 0xE8);
        lemma_step_inx(cur, mem);
        lemma_inx_step(cur, mem);
        lemma_inx_step(prev, mem);
        assert(add16(cur.pc, 1) == add16(r.pc, n as int));
    }
}

/// Running 256 INX instructions in a row from any X returns X to its value with PC past them
/// (wrapping past 0xFFFF),
/// memory unchanged; Zero is set after exactly the step on which X becomes 0, and Negative
/// exactly when X is one of the upper 128 values.
pub proof fn lemma_inx_program(r: Registers, mem: Seq<u8>)
    requires
        mem.len() == 65536,
        r.pc <= 0xFF00,
        forall|k: int| 0 <= k < 256 ==> #[trigger] byte_after(mem, r.pc, k) == 0xE8,
    ensures
        run(r, mem, 256) matches Some((r2, m2)) && r2.x == r.x && r2.pc == add16(r.pc, 256) && m2 == mem,
        forall|n: nat| 1 <= n <= 256 ==> (#[trigger] run(r, mem, n) matches Some((rn, _))
            && (flag(rn.p, ZERO) <==> n == 256 - r.x) && (flag(rn.p, NEGATIVE) <==> rn.x >= 128)),
{
    lemma_inx_wraparound(r, mem);
    lemma_run_inx(r, mem, 256);
    assert forall|n: nat| 1 <= n <= 256 implies (#[trigger] run(r, mem, n) matches Some((rn, _))
        && (flag(rn.p, ZERO) <==> n == 256 - r.x) && (flag(rn.p, NEGATIVE) <==> rn.x >= 128)) by {
        lemma_run_inx(r, mem, n);
        assert(inx_repeat(r, mem, n).p == inx_repeat(r, mem, n).p);
    }
}

} // verus!
