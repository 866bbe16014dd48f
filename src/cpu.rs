//! The CPU core: registers, fetch/decode/execute, addressing modes, stack and interrupts.
use vstd::prelude::*;
use vstd::string::StringExecFns;
use crate::bus::{lemma_fixed_pages_are_ram, read16_spec, Bus};
use crate::dec::Decoder;
use crate::isa::{decode_spec, opcode_spec, AddressMode, Mnemonic, OpValue, Opcode};
use crate::semantics::{
    add16, adc_spec, branch_taken, compare_spec, control_spec, execute_spec, flag, implied_spec,
    interrupt_spec, is_modify_op, is_read_op, lemma_resolve_cases, modify_spec, operand_addr, operand_value, pop16_spec, pop_spec,
    push16_spec, push_spec, read_op_spec, reset_spec, resolve_spec, sbc_spec, shift_spec, signed,
    step_spec, with_flag, with_nz, zp16_spec, Registers, BREAK, CARRY, DECIMAL, INTERRUPT,
    NEGATIVE, OVERFLOW, P_RESET, UNUSED, VEC_IRQ, VEC_RES, ZERO,
};

verus! {

/// A 65C02-like CPU.
pub struct Cpu {
    /// Program counter.
    pub pc: u16,
    /// Stack pointer.
    pub s: u8,
    /// Accumulator.
    pub a: u8,
    /// X register.
    pub x: u8,
    /// Y register.
    pub y: u8,
    /// Processor status.
    pub p: u8,
    /// The opcode table the CPU decodes with.
    pub decoder: Decoder,
}

impl View for Cpu {
    type V = Registers;

    open spec fn view(&self) -> Registers {
        Registers { pc: self.pc, s: self.s, a: self.a, x: self.x, y: self.y, p: self.p }
    }
}

/// Why execution cannot go on.
#[derive(Debug, Clone, Copy, PartialEq, Eq, Structural)]
pub enum Fault {
    /// The byte at the given address is no opcode.
    IllegalOpcode(u16, u8),
}

/// Bit positions of the status flags.
#[derive(Debug, Clone, Copy, PartialEq, Eq, Structural)]
pub enum StatusBit {
    Carry,
    Zero,
    Interrupt,
    Decimal,
    Break,
    Overflow,
    Negative,
}

impl StatusBit {
    pub open spec fn index_spec(self) -> u8 {
        match self {
            StatusBit::Carry => 0,
            StatusBit::Zero => 1,
            StatusBit::Interrupt => 2,
            StatusBit::Decimal => 3,
            StatusBit::Break => 4,
            StatusBit::Overflow => 6,
            StatusBit::Negative => 7,
        }
    }

    pub fn index(self) -> (r: u8)
        ensures
            r == self.index_spec(),
    {
        match self {
            StatusBit::Carry => 0,
            StatusBit::Zero => 1,
            StatusBit::Interrupt => 2,
            StatusBit::Decimal => 3,
            StatusBit::Break => 4,
            StatusBit::Overflow => 6,
            StatusBit::Negative => 7,
        }
    }
}

/// Single-bit masks of the status flags.
#[derive(Debug, Clone, Copy, PartialEq, Eq, Structural)]
pub enum StatusMask {
    Carry,
    Zero,
    Interrupt,
    Decimal,
    Break,
    Overflow,
    Negative,
}

impl StatusMask {
    pub open spec fn mask_spec(self) -> u8 {
        match self {
            StatusMask::Carry => CARRY,
            StatusMask::Zero => ZERO,
            StatusMask::Interrupt => INTERRUPT,
            StatusMask::Decimal => DECIMAL,
            StatusMask::Break => BREAK,
            StatusMask::Overflow => OVERFLOW,
            StatusMask::Negative => NEGATIVE,
        }
    }

    pub fn mask(self) -> (r: u8)
        ensures
            r == self.mask_spec(),
    {
        match self {
            StatusMask::Carry => CARRY,
            StatusMask::Zero => ZERO,
            StatusMask::Interrupt => INTERRUPT,
            StatusMask::Decimal => DECIMAL,
            StatusMask::Break => BREAK,
            StatusMask::Overflow => OVERFLOW,
            StatusMask::Negative => NEGATIVE,
        }
    }
}

/// `p` with the flag `mask` set to `v`.
pub fn set_flag(p: u8, mask: u8, v: bool) -> (r: u8)
    ensures
        r == with_flag(p, mask, v),
{
    if v {
        p | mask
    } else {
        p & !mask
    }
}

/// `p` with Zero and Negative set from `v`.
pub fn set_nz(p: u8, v: u8) -> (r: u8)
    ensures
        r == with_nz(p, v),
{
    set_flag(set_flag(p, ZERO, v == 0), NEGATIVE, v >= 128)
}

/// Add with carry: the result, the carry out and signed overflow.
pub fn adc(a: u8, b: u8, c: bool) -> (r: (u8, bool, bool))
    ensures
        r == adc_spec(a, b, c),
{
    let sum16: u16 = a as u16 + b as u16 + if c { 1u16 } else { 0u16 };
    let sum = (sum16 % 256) as u8;
    // Overflow when `a` and `b` have the same sign and the sum the other.
    (sum, sum16 > 0xFF, (a >= 128) == (b >= 128) && (sum >= 128) != (a >= 128))
}

/// Subtract with borrow: the result, the carry out (no borrow) and signed overflow.
pub fn sbc(a: u8, b: u8, c: bool) -> (r: (u8, bool, bool))
    ensures
        r == sbc_spec(a, b, c),
{
    // 256 + a - b - borrow never goes below zero; at 256 or above no borrow occurred.
    let diff16: u16 = 256 + a as u16 - b as u16 - if c { 0u16 } else { 1u16 };
    let diff = (diff16 % 256) as u8;
    // Overflow when `a` and `-b` have the same sign and the difference the other.
    (diff, diff16 >= 256, (a >= 128) != (b >= 128) && (diff >= 128) != (a >= 128))
}

/// Shifts and rotates of `v` with carry in `c`: the result and the bit shifted out.
pub fn shift(m: Mnemonic, v: u8, c: bool) -> (r: (u8, bool))
    ensures
        r == shift_spec(m, v, c),
{
    let cin: u8 = if c { 1 } else { 0 };
    match m {
        Mnemonic::Asl => (((v as u16 * 2) % 256) as u8, v >= 128),
        Mnemonic::Lsr => (v / 2, v % 2 == 1),
        Mnemonic::Rol => (((v as u16 * 2 + cin as u16) % 256) as u8, v >= 128),
        _ => (v / 2 + 128 * cin, v % 2 == 1),
    }
}

/// The status after comparing `reg` with `v`.
pub fn compare(p: u8, reg: u8, v: u8) -> (r: u8)
    ensures
        r == compare_spec(p, reg, v),
{
    set_flag(set_nz(p, reg.wrapping_sub(v)), CARRY, reg >= v)
}

/// Whether the operand bytes of an instruction in mode `mode`, whose operand starts at `r.pc`,
/// and the pointer that JMP's indirect mode reads, all reach RAM. Zero-page pointers always do.
pub open spec fn operand_reads_ram(bus: Bus, r: Registers, mem: Seq<u8>, mode: AddressMode) -> bool {
    let pc = r.pc;
    match mode {
        AddressMode::Accumulator | AddressMode::Implied => true,
        AddressMode::Absolute | AddressMode::AbsoluteX | AddressMode::AbsoluteY => bus.reaches_ram(pc)
            && bus.reaches_ram(add16(pc, 1)),
        AddressMode::Indirect => bus.reaches_ram(pc) && bus.reaches_ram(add16(pc, 1))
            && bus.reaches_ram(read16_spec(mem, pc)) && bus.reaches_ram(add16(read16_spec(mem, pc), 1)),
        _ => bus.reaches_ram(pc),
    }
}

/// Instructions that read or write the byte at their operand's address.
pub open spec fn accesses_operand(m: Mnemonic) -> bool {
    is_read_op(m) || is_modify_op(m) || m == Mnemonic::Sta || m == Mnemonic::Stx || m == Mnemonic::Sty
}

/// Whether every byte that instruction `m` in mode `mode` reads or writes, besides its opcode,
/// reaches RAM. The stack page and the vectors always do.
pub open spec fn execute_reads_ram(bus: Bus, r: Registers, mem: Seq<u8>, m: Mnemonic, mode: AddressMode) -> bool {
    &&& operand_reads_ram(bus, r, mem, mode)
    &&& accesses_operand(m) ==> bus.reaches_ram(operand_addr(resolve_spec(r, mem, mode).0))
}

/// Whether every byte that the instruction at `r.pc` reads or writes, its opcode included,
/// reaches RAM rather than a device.
pub open spec fn step_reads_ram(bus: Bus, r: Registers, mem: Seq<u8>) -> bool {
    &&& bus.reaches_ram(r.pc)
    &&& match decode_spec(mem[r.pc as int]) {
        Some((m, mode)) => execute_reads_ram(bus, Registers { pc: add16(r.pc, 1), ..r }, mem, m, mode),
        None => true,
    }
}

impl Cpu {
    pub open spec fn wf(&self) -> bool {
        self.decoder.wf()
    }

    pub fn new() -> (r: Cpu)
        ensures
            r.wf(),
            r@ == (Registers { pc: 0, s: 0, a: 0, x: 0, y: 0, p: 0 }),
    {
        Cpu { pc: 0, s: 0, a: 0, x: 0, y: 0, p: 0, decoder: Decoder::new() }
    }

    /// A CPU whose registers are `r`.
    pub fn from_registers(r: Registers) -> (c: Cpu)
        ensures
            c.wf(),
            c@ == r,
    {
        Cpu { pc: r.pc, s: r.s, a: r.a, x: r.x, y: r.y, p: r.p, decoder: Decoder::new() }
    }

    /// The registers.
    pub fn registers(&self) -> (r: Registers)
        ensures
            r == self@,
    {
        Registers { pc: self.pc, s: self.s, a: self.a, x: self.x, y: self.y, p: self.p }
    }

    /// Takes the interrupt if a device asserts the interrupt line; says whether it did.
    pub fn poll_interrupt(&mut self, bus: &mut Bus) -> (r: bool)
        requires
            old(self).wf(),
            old(bus).wf(),
        ensures
            final(self).wf(),
            final(bus).wf(),
            final(bus).has_devices() == old(bus).has_devices(),
            r == (old(bus).has_devices() && old(bus).serial().is_interrupt_spec()),
            r ==> (final(self)@, final(bus)@) == interrupt_spec(old(self)@, old(bus)@),
            !r ==> final(self)@ == old(self)@ && *final(bus) == *old(bus),
    {
        if bus.is_interrupt() {
            self.interrupt(bus);
            true
        } else {
            false
        }
    }

    /// Resets the registers, as if the reset line had been asserted: PC from the reset vector.
    pub fn reset(&mut self, bus: &mut Bus)
        requires
            old(self).wf(),
            old(bus).wf(),
        ensures
            final(self).wf(),
            final(bus).wf(),
            final(bus)@ == old(bus)@,
            final(bus).has_devices() == old(bus).has_devices(),
            final(self)@ == reset_spec(old(bus)@),
    {
        self.pc = bus.read_u16(VEC_RES);
        self.s = 0x00;
        self.a = 0x00;
        self.x = 0x00;
        self.y = 0x00;
        // W65C02S manual, section 3.1 Reset: xx1101xx
        self.p = P_RESET;
    }

    /// Decodes the instruction at PC without executing it.
    pub fn fetch(&self, bus: &mut Bus) -> (r: Option<Opcode>)
        requires
            self.wf(),
            old(bus).wf(),
        ensures
            final(bus).wf(),
            final(bus)@ == old(bus)@,
            final(bus).has_devices() == old(bus).has_devices(),
            old(bus).reaches_ram(self@.pc) ==> r == opcode_spec(old(bus)@[self@.pc as int]),
    {
        let code = bus.read(self.pc);
        self.decoder.opcode(code)
    }

    /// Loads and executes a single instruction; an illegal opcode leaves the registers as
    /// they were.
    pub fn step(&mut self, bus: &mut Bus) -> (r: Result<(), Fault>)
        requires
            old(self).wf(),
            old(bus).wf(),
        ensures
            final(self).wf(),
            final(bus).wf(),
            final(bus).has_devices() == old(bus).has_devices(),
            step_reads_ram(*old(bus), old(self)@, old(bus)@) ==> match step_spec(old(self)@, old(bus)@) {
                Some((regs, mem)) => r is Ok && final(self)@ == regs && final(bus)@ == mem,
                None => r == Err::<(), Fault>(Fault::IllegalOpcode(old(self)@.pc, old(bus)@[old(self)@.pc as int]))
                    && final(self)@ == old(self)@ && final(bus)@ == old(bus)@,
            },
    {
        let code = bus.read(self.pc);
        match self.decoder.opcode(code) {
            None => Err(Fault::IllegalOpcode(self.pc, code)),
            Some(opcode) => {
                self.execute(opcode, bus);
                Ok(())
            },
        }
    }

    /// A hardware interrupt: pushes PC and the status (Break clear), sets Interrupt-disable
    /// and continues at the interrupt vector.
    pub fn interrupt(&mut self, bus: &mut Bus)
        requires
            old(self).wf(),
            old(bus).wf(),
        ensures
            final(self).wf(),
            final(bus).wf(),
            final(bus).has_devices() == old(bus).has_devices(),
            (final(self)@, final(bus)@) == interrupt_spec(old(self)@, old(bus)@),
    {
        let p = self.p;
        self.push_addr(bus, self.pc);
        self.push(bus, (p & !BREAK) | UNUSED);
        self.p = p | INTERRUPT;
        self.pc = bus.read_u16(VEC_IRQ);
    }

    /// Executes an instruction, reading the operands for its addressing mode from the bus.
    #[verifier::rlimit(100)]
    fn execute(&mut self, opcode: Opcode, bus: &mut Bus)
        requires
            old(self).wf(),
            old(bus).wf(),
        ensures
            final(self).wf(),
            final(bus).wf(),
            final(bus).has_devices() == old(bus).has_devices(),
            execute_reads_ram(*old(bus), Registers { pc: add16(old(self).pc, 1), ..old(self)@ }, old(bus)@,
                opcode.mnemonic, opcode.mode) ==> (final(self)@, final(bus)@) == execute_spec(
                Registers { pc: add16(old(self).pc, 1), ..old(self)@ },
                old(bus)@,
                opcode.mnemonic,
                opcode.mode,
            ),
    {
        reveal(execute_spec);
        // progress PC past the fetched opcode
        self.pc = self.pc.wrapping_add(1);
        let m = opcode.mnemonic;
        let ov = self.read_operand(bus, opcode.mode);
        let addr: u16 = match ov {
            OpValue::U16(a) => a,
            _ => 0,
        };
        match m {
            Mnemonic::Adc | Mnemonic::Sbc | Mnemonic::And | Mnemonic::Ora | Mnemonic::Eor
            | Mnemonic::Lda | Mnemonic::Ldx | Mnemonic::Ldy | Mnemonic::Cmp | Mnemonic::Cpx
            | Mnemonic::Cpy | Mnemonic::Bit => {
                let v = Self::read_operand_value(bus, ov);
                self.read_op(m, v);
            },
            Mnemonic::Clc | Mnemonic::Cld | Mnemonic::Cli | Mnemonic::Clv | Mnemonic::Sec
            | Mnemonic::Sed | Mnemonic::Sei | Mnemonic::Tax | Mnemonic::Tay | Mnemonic::Tsx
            | Mnemonic::Txa | Mnemonic::Txs | Mnemonic::Tya | Mnemonic::Inx | Mnemonic::Iny
            | Mnemonic::Dex | Mnemonic::Dey | Mnemonic::Nop => {
                self.implied(m);
            },
            Mnemonic::Asl | Mnemonic::Lsr | Mnemonic::Rol | Mnemonic::Ror | Mnemonic::Inc
            | Mnemonic::Dec => {
                self.modify(bus, m, opcode.mode, addr);
            },
            Mnemonic::Bcc | Mnemonic::Bcs | Mnemonic::Beq | Mnemonic::Bne | Mnemonic::Bmi
            | Mnemonic::Bpl | Mnemonic::Bvc | Mnemonic::Bvs => {
                if self.branch_taken(m) {
                    self.pc = addr;
                }
            },
            Mnemonic::Sta => bus.write(addr, self.a),
            Mnemonic::Stx => bus.write(addr, self.x),
            Mnemonic::Sty => bus.write(addr, self.y),
            _ => {
                self.control(bus, m, addr);
            },
        }
    }

    fn branch_taken(&self, m: Mnemonic) -> (r: bool)
        ensures
            r == branch_taken(m, self.p),
    {
        match m {
            Mnemonic::Bcc => self.p & CARRY == 0,
            Mnemonic::Bcs => self.p & CARRY != 0,
            Mnemonic::Beq => self.p & ZERO != 0,
            Mnemonic::Bne => self.p & ZERO == 0,
            Mnemonic::Bmi => self.p & NEGATIVE != 0,
            Mnemonic::Bpl => self.p & NEGATIVE == 0,
            Mnemonic::Bvc => self.p & OVERFLOW == 0,
            _ => self.p & OVERFLOW != 0,
        }
    }

    /// Instructions that set registers and flags from one operand byte.
    fn read_op(&mut self, m: Mnemonic, v: u8)
        ensures
            final(self)@ == read_op_spec(old(self)@, m, v),
            final(self).decoder == old(self).decoder,
    {
        reveal(read_op_spec);
        match m {
            Mnemonic::Adc | Mnemonic::Sbc => {
                let (res, c, o) = if m == Mnemonic::Adc {
                    adc(self.a, v, self.p & CARRY != 0)
                } else {
                    sbc(self.a, v, self.p & CARRY != 0)
                };
                self.a = res;
                self.p = set_flag(set_flag(set_nz(self.p, res), CARRY, c), OVERFLOW, o);
            },
            Mnemonic::And => {
                self.a = self.a & v;
                self.p = set_nz(self.p, self.a);
            },
            Mnemonic::Ora => {
                self.a = self.a | v;
                self.p = set_nz(self.p, self.a);
            },
            Mnemonic::Eor => {
                self.a = self.a ^ v;
                self.p = set_nz(self.p, self.a);
            },
            Mnemonic::Lda => {
                self.a = v;
                self.p = set_nz(self.p, v);
            },
            Mnemonic::Ldx => {
                self.x = v;
                self.p = set_nz(self.p, v);
            },
            Mnemonic::Ldy => {
                self.y = v;
                self.p = set_nz(self.p, v);
            },
            Mnemonic::Cmp => self.p = compare(self.p, self.a, v),
            Mnemonic::Cpx => self.p = compare(self.p, self.x, v),
            Mnemonic::Cpy => self.p = compare(self.p, self.y, v),
            _ => {
                let t = self.a & v;
                let p = set_flag(self.p, NEGATIVE, t & NEGATIVE != 0);
                let p = set_flag(p, OVERFLOW, t & OVERFLOW != 0);
                self.p = set_flag(p, ZERO, t == 0);
            },
        }
    }

    /// Instructions without an operand that only change registers.
    fn implied(&mut self, m: Mnemonic)
        ensures
            final(self)@ == implied_spec(old(self)@, m),
            final(self).decoder == old(self).decoder,
    {
        reveal(implied_spec);
        match m {
            Mnemonic::Clc => self.p = set_flag(self.p, CARRY, false),
            Mnemonic::Cld => self.p = set_flag(self.p, DECIMAL, false),
            Mnemonic::Cli => self.p = set_flag(self.p, INTERRUPT, false),
            Mnemonic::Clv => self.p = set_flag(self.p, OVERFLOW, false),
            Mnemonic::Sec => self.p = set_flag(self.p, CARRY, true),
            Mnemonic::Sed => self.p = set_flag(self.p, DECIMAL, true),
            Mnemonic::Sei => self.p = set_flag(self.p, INTERRUPT, true),
            Mnemonic::Tax => {
                self.x = self.a;
                self.p = set_nz(self.p, self.x);
            },
            Mnemonic::Tay => {
                self.y = self.a;
                self.p = set_nz(self.p, self.y);
            },
            Mnemonic::Tsx => {
                self.x = self.s;
                self.p = set_nz(self.p, self.x);
            },
            Mnemonic::Txa => {
                self.a = self.x;
                self.p = set_nz(self.p, self.a);
            },
            // TXS is the one transfer that leaves the flags alone.
            Mnemonic::Txs => self.s = self.x,
            Mnemonic::Tya => {
                self.a = self.y;
                self.p = set_nz(self.p, self.a);
            },
            Mnemonic::Inx => {
                self.x = self.x.wrapping_add(1);
                self.p = set_nz(self.p, self.x);
            },
            Mnemonic::Iny => {
                self.y = self.y.wrapping_add(1);
                self.p = set_nz(self.p, self.y);
            },
            Mnemonic::Dex => {
                self.x = self.x.wrapping_sub(1);
                self.p = set_nz(self.p, self.x);
            },
            Mnemonic::Dey => {
                self.y = self.y.wrapping_sub(1);
                self.p = set_nz(self.p, self.y);
            },
            _ => {},
        }
    }

    /// Read-modify-write instructions on the accumulator or the byte at `addr`.
    fn modify(&mut self, bus: &mut Bus, m: Mnemonic, mode: AddressMode, addr: u16)
        requires
            old(bus).wf(),
        ensures
            final(bus).wf(),
            final(bus).has_devices() == old(bus).has_devices(),
            final(self).decoder == old(self).decoder,
            old(bus).reaches_ram(addr) ==> (final(self)@, final(bus)@) == modify_spec(old(self)@, old(bus)@, m, mode, addr),
    {
        reveal(modify_spec);
        let acc = mode == AddressMode::Accumulator;
        let v = if acc { self.a } else { bus.read(addr) };
        let carry_in = self.p & CARRY != 0;
        let is_shift = m == Mnemonic::Asl || m == Mnemonic::Lsr || m == Mnemonic::Rol || m == Mnemonic::Ror;
        let (res, carry) = if is_shift {
            shift(m, v, carry_in)
        } else if m == Mnemonic::Inc {
            (v.wrapping_add(1), carry_in)
        } else {
            (v.wrapping_sub(1), carry_in)
        };
        let p = set_nz(self.p, res);
        self.p = if is_shift { set_flag(p, CARRY, carry) } else { p };
        if acc {
            self.a = res;
        } else {
            bus.write(addr, res);
        }
    }

    /// Stack and control-flow instructions, with PC past the operand.
    #[verifier::rlimit(100)]
    fn control(&mut self, bus: &mut Bus, m: Mnemonic, addr: u16)
        requires
            old(bus).wf(),
        ensures
            final(bus).wf(),
            final(bus).has_devices() == old(bus).has_devices(),
            final(self).decoder == old(self).decoder,
            (final(self)@, final(bus)@) == control_spec(old(self)@, old(bus)@, m, addr),
    {
        reveal(control_spec);
        match m {
            Mnemonic::Pha => self.push(bus, self.a),
            Mnemonic::Php => self.push(bus, self.p | BREAK | UNUSED),
            Mnemonic::Pla => {
                self.a = self.pop(bus);
                self.p = set_nz(self.p, self.a);
            },
            Mnemonic::Plp => {
                let v = self.pop(bus);
                self.p = (v & !BREAK) | UNUSED;
            },
            Mnemonic::Jmp => self.pc = addr,
            Mnemonic::Jsr => {
                self.push_addr(bus, self.pc.wrapping_sub(1));
                self.pc = addr;
            },
            Mnemonic::Rts => {
                let ret = self.pop_addr(bus);
                self.pc = ret.wrapping_add(1);
            },
            Mnemonic::Rti => {
                let v = self.pop(bus);
                self.p = (v & !BREAK) | UNUSED;
                self.pc = self.pop_addr(bus);
            },
            _ => {
                let p = self.p;
                self.push_addr(bus, self.pc.wrapping_add(1));
                self.push(bus, p | BREAK | UNUSED);
                self.p = p | INTERRUPT;
                self.pc = bus.read_u16(VEC_IRQ);
            },
        }
    }

    /// Reads a u16 in little-endian order from the bus, wrapping within page zero.
    fn read_u16_zp(bus: &mut Bus, addr: u8) -> (r: u16)
        requires
            old(bus).wf(),
        ensures
            final(bus).wf(),
            final(bus)@ == old(bus)@,
            final(bus).has_devices() == old(bus).has_devices(),
            r == zp16_spec(old(bus)@, addr),
    {
        let lo = bus.read(addr as u16) as u16;
        let hi = bus.read(addr.wrapping_add(1) as u16) as u16;
        hi * 256 + lo
    }

    /// Reads the byte at PC, incrementing PC.
    fn read_pc_u8(&mut self, bus: &mut Bus) -> (r: u8)
        requires
            old(bus).wf(),
        ensures
            final(bus).wf(),
            final(bus)@ == old(bus)@,
            final(bus).has_devices() == old(bus).has_devices(),
            final(self)@ == (Registers { pc: add16(old(self).pc, 1), ..old(self)@ }),
            final(self).decoder == old(self).decoder,
            old(bus).reaches_ram(old(self).pc) ==> r == old(bus)@[old(self).pc as int],
    {
        let val = bus.read(self.pc);
        self.pc = self.pc.wrapping_add(1);
        val
    }

    /// Reads the u16 at PC, incrementing PC by two.
    fn read_pc_u16(&mut self, bus: &mut Bus) -> (r: u16)
        requires
            old(bus).wf(),
        ensures
            final(bus).wf(),
            final(bus)@ == old(bus)@,
            final(bus).has_devices() == old(bus).has_devices(),
            final(self)@ == (Registers { pc: add16(old(self).pc, 2), ..old(self)@ }),
            final(self).decoder == old(self).decoder,
            old(bus).reaches_ram(old(self).pc) && old(bus).reaches_ram(add16(old(self).pc, 1))
                ==> r == read16_spec(old(bus)@, old(self).pc),
    {
        let val = bus.read_u16(self.pc);
        self.pc = self.pc.wrapping_add(2);
        val
    }

    /// The target of a relative branch: PC past the offset byte plus the signed offset.
    fn read_relative(&mut self, bus: &mut Bus) -> (r: u16)
        requires
            old(bus).wf(),
        ensures
            final(bus).wf(),
            final(bus)@ == old(bus)@,
            final(bus).has_devices() == old(bus).has_devices(),
            final(self).decoder == old(self).decoder,
            final(self)@ == (Registers { pc: final(self).pc, ..old(self)@ }),
            final(self).pc == add16(old(self).pc, 1),
            old(bus).reaches_ram(old(self).pc) ==> r == add16(add16(old(self).pc, 1), signed(old(bus)@[old(self).pc as int])),
    {
        let offset = self.read_pc_u8(bus);
        let pc = self.pc;
        let target = if offset < 128 {
            pc.wrapping_add(offset as u16)
        } else {
            pc.wrapping_sub(256 - offset as u16)
        };
        assert(target == add16(pc, signed(offset))) by {
            if offset >= 128 {
                assert(signed(offset) == offset - 256);
                if pc >= 256 - offset {
                    assert(target == pc - (256 - offset));
                } else {
                    assert(target == pc - (256 - offset) + 65536);
                    vstd::arithmetic::div_mod::lemma_mod_add_multiples_vanish(pc + signed(offset), 65536);
                }
            }
        }
        target
    }

    /// JMP's indirect operand: the address stored at the absolute pointer.
    fn read_indirect(&mut self, bus: &mut Bus) -> (r: u16)
        requires
            old(bus).wf(),
        ensures
            final(bus).wf(),
            final(bus)@ == old(bus)@,
            final(bus).has_devices() == old(bus).has_devices(),
            final(self).decoder == old(self).decoder,
            final(self)@ == (Registers { pc: add16(old(self).pc, 2), ..old(self)@ }),
            operand_reads_ram(*old(bus), old(self)@, old(bus)@, AddressMode::Indirect)
                ==> r == read16_spec(old(bus)@, read16_spec(old(bus)@, old(self).pc)),
    {
        let ptr = self.read_pc_u16(bus);
        bus.read_u16(ptr)
    }

    /// "(zp),Y": the address stored at the zero-page pointer, plus Y.
    fn read_indirect_y(&mut self, bus: &mut Bus) -> (r: u16)
        requires
            old(bus).wf(),
        ensures
            final(bus).wf(),
            final(bus)@ == old(bus)@,
            final(bus).has_devices() == old(bus).has_devices(),
            final(self).decoder == old(self).decoder,
            final(self)@ == (Registers { pc: add16(old(self).pc, 1), ..old(self)@ }),
            old(bus).reaches_ram(old(self).pc) ==> r == add16(zp16_spec(old(bus)@, old(bus)@[old(self).pc as int]), old(self).y as int),
    {
        let ptr = self.read_pc_u8(bus);
        Self::read_u16_zp(bus, ptr).wrapping_add(self.y as u16)
    }

    /// "(zp,X)": the address stored at the zero-page pointer plus X, wrapping within page zero.
    fn read_x_indirect(&mut self, bus: &mut Bus) -> (r: u16)
        requires
            old(bus).wf(),
        ensures
            final(bus).wf(),
            final(bus)@ == old(bus)@,
            final(bus).has_devices() == old(bus).has_devices(),
            final(self).decoder == old(self).decoder,
            final(self)@ == (Registers { pc: add16(old(self).pc, 1), ..old(self)@ }),
            old(bus).reaches_ram(old(self).pc) ==> r == zp16_spec(old(bus)@, ((old(bus)@[old(self).pc as int] + old(self).x) % 256) as u8),
    {
        let ptr = self.read_pc_u8(bus).wrapping_add(self.x);
        Self::read_u16_zp(bus, ptr)
    }

    /// Reads the operand from the bus, following indirection and indexing where necessary,
    /// returning an address or immediate value, and advancing PC past it.
    #[verifier::rlimit(100)]
    fn read_operand(&mut self, bus: &mut Bus, mode: AddressMode) -> (r: OpValue)
        requires
            old(bus).wf(),
        ensures
            final(bus).wf(),
            final(bus)@ == old(bus)@,
            final(bus).has_devices() == old(bus).has_devices(),
            final(self).decoder == old(self).decoder,
            final(self)@ == (Registers { pc: final(self).pc, ..old(self)@ }),
            operand_reads_ram(*old(bus), old(self)@, old(bus)@, mode) ==> (r, final(self).pc) == resolve_spec(old(self)@, old(bus)@, mode),
    {
        proof {
            lemma_resolve_cases(self@, bus@, mode);
        }
        match mode {
            AddressMode::Absolute => OpValue::U16(self.read_pc_u16(bus)),
            AddressMode::AbsoluteX => OpValue::U16(self.read_pc_u16(bus).wrapping_add(self.x as u16)),
            AddressMode::AbsoluteY => OpValue::U16(self.read_pc_u16(bus).wrapping_add(self.y as u16)),
            AddressMode::Accumulator => OpValue::Absent,
            AddressMode::Immediate => OpValue::U8(self.read_pc_u8(bus)),
            AddressMode::Implied => OpValue::Absent,
            AddressMode::Indirect => OpValue::U16(self.read_indirect(bus)),
            AddressMode::IndirectY => OpValue::U16(self.read_indirect_y(bus)),
            AddressMode::XIndirect => OpValue::U16(self.read_x_indirect(bus)),
            AddressMode::Relative => OpValue::U16(self.read_relative(bus)),
            AddressMode::Zeropage => OpValue::U16(self.read_pc_u8(bus) as u16),
            AddressMode::ZeropageX => OpValue::U16(self.read_pc_u8(bus).wrapping_add(self.x) as u16),
            AddressMode::ZeropageY => OpValue::U16(self.read_pc_u8(bus).wrapping_add(self.y) as u16),
        }
    }

    /// The byte an operand stands for: the immediate value, or the byte at its address.
    fn read_operand_value(bus: &mut Bus, ov: OpValue) -> (r: u8)
        requires
            old(bus).wf(),
        ensures
            final(bus).wf(),
            final(bus)@ == old(bus)@,
            final(bus).has_devices() == old(bus).has_devices(),
            old(bus).reaches_ram(operand_addr(ov)) ==> r == operand_value(old(bus)@, ov),
    {
        match ov {
            OpValue::U8(val) => val,
            OpValue::U16(addr) => bus.read(addr),
            OpValue::Absent => 0,
        }
    }

    /// Sets or clears the status flag `mask`.
    pub fn set_p_bit(&mut self, mask: StatusMask, val: bool)
        ensures
            final(self)@ == (Registers { p: with_flag(old(self)@.p, mask.mask_spec(), val), ..old(self)@ }),
            final(self).wf() == old(self).wf(),
    {
        self.p = set_flag(self.p, mask.mask(), val);
    }

    /// Whether the status flag `mask` is set.
    pub fn get_p_bit(&self, mask: StatusMask) -> (r: bool)
        ensures
            r == flag(self@.p, mask.mask_spec()),
    {
        self.p & mask.mask() != 0
    }

    /// The carry flag as 0 or 1.
    pub fn carry(&self) -> (r: u8)
        ensures
            r == (if flag(self@.p, CARRY) { 1u8 } else { 0u8 }),
    {
        if self.p & CARRY != 0 { 1 } else { 0 }
    }

    /// Pushes a 16-bit value, high byte first.
    fn push_addr(&mut self, bus: &mut Bus, addr: u16)
        requires
            old(bus).wf(),
        ensures
            final(bus).wf(),
            final(bus).has_devices() == old(bus).has_devices(),
            final(self).decoder == old(self).decoder,
            (final(self)@, final(bus)@) == push16_spec(old(self)@, old(bus)@, addr),
    {
        self.push(bus, (addr / 256) as u8);
        self.push(bus, (addr % 256) as u8);
    }

    /// Stores `val` at the stack slot S points at, then decrements S within the page.
    fn push(&mut self, bus: &mut Bus, val: u8)
        requires
            old(bus).wf(),
        ensures
            final(bus).wf(),
            final(bus).has_devices() == old(bus).has_devices(),
            final(self).decoder == old(self).decoder,
            (final(self)@, final(bus)@) == push_spec(old(self)@, old(bus)@, val),
    {
        bus.write(0x0100 + self.s as u16, val);
        self.s = self.s.wrapping_sub(1);
    }

    /// Pops a 16-bit value, low byte first.
    fn pop_addr(&mut self, bus: &mut Bus) -> (r: u16)
        requires
            old(bus).wf(),
        ensures
            final(bus).wf(),
            final(bus)@ == old(bus)@,
            final(bus).has_devices() == old(bus).has_devices(),
            final(self).decoder == old(self).decoder,
            (final(self)@, r) == pop16_spec(old(self)@, old(bus)@),
    {
        let lo = self.pop(bus) as u16;
        let hi = self.pop(bus) as u16;
        hi * 256 + lo
    }

    /// Increments S within the page, then reads the stack slot it points at.
    fn pop(&mut self, bus: &mut Bus) -> (r: u8)
        requires
            old(bus).wf(),
        ensures
            final(bus).wf(),
            final(bus)@ == old(bus)@,
            final(bus).has_devices() == old(bus).has_devices(),
            final(self).decoder == old(self).decoder,
            (final(self)@, r) == pop_spec(old(self)@, old(bus)@),
    {
        self.s = self.s.wrapping_add(1);
        bus.read(0x0100 + self.s as u16)
    }
}

/// The status byte as eight characters for the flags N, V, -, B, D, I, Z, C: upper case
/// when set, lower case when clear.
pub open spec fn stat_spec(p: u8) -> Seq<char> {
    seq![
        if flag(p, NEGATIVE) { 'N' } else { 'n' },
        if flag(p, OVERFLOW) { 'V' } else { 'v' },
        '-',
        if flag(p, BREAK) { 'B' } else { 'b' },
        if flag(p, DECIMAL) { 'D' } else { 'd' },
        if flag(p, INTERRUPT) { 'I' } else { 'i' },
        if flag(p, ZERO) { 'Z' } else { 'z' },
        if flag(p, CARRY) { 'C' } else { 'c' }
    ]
}

/// A string representation of the 8-bit processor status register; set bits are upper case,
/// clear bits lower case.
pub fn stat(p: &u8) -> (r: String)
    ensures
        r@ == stat_spec(*p),
{
    proof {
        reveal_strlit("N"); reveal_strlit("n"); reveal_strlit("V"); reveal_strlit("v"); reveal_strlit("B"); reveal_strlit("b"); reveal_strlit("D"); reveal_strlit("d"); reveal_strlit("I"); reveal_strlit("i"); reveal_strlit("Z"); reveal_strlit("z"); reveal_strlit("C"); reveal_strlit("c"); reveal_strlit("-");
    }
    let mut s = String::new();
    if *p & NEGATIVE != 0 {
        s.append("N");
    } else {
        s.append("n");
    }
    if *p & OVERFLOW != 0 {
        s.append("V");
    } else {
        s.append("v");
    }
    s.append("-");
    if *p & BREAK != 0 {
        s.append("B");
    } else {
        s.append("b");
    }
    if *p & DECIMAL != 0 {
        s.append("D");
    } else {
        s.append("d");
    }
    if *p & INTERRUPT != 0 {
        s.append("I");
    } else {
        s.append("i");
    }
    if *p & ZERO != 0 {
        s.append("Z");
    } else {
        s.append("z");
    }
    if *p & CARRY != 0 {
        s.append("C");
    } else {
        s.append("c");
    }
    assert(s@ =~= stat_spec(*p));
    s
}

} // verus!
