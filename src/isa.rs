//! The instruction set: mnemonics, addressing modes and the opcode table.
use vstd::prelude::*;

verus! {

/// An 8-bit machine instruction alongside its mnemonic and addressing mode.
#[derive(Copy, Clone, Debug)]
pub struct Opcode {
    pub code: u8,
    pub mnemonic: Mnemonic,
    pub mode: AddressMode,
}

impl Opcode {
    pub fn new(mnemonic: Mnemonic, mode: AddressMode, code: u8) -> (r: Opcode)
        ensures
            r.code == code,
            r.mnemonic == mnemonic,
            r.mode == mode,
    {
        Opcode { code, mnemonic, mode }
    }
}

#[derive(Copy, Clone, Debug, PartialEq, Eq, Hash, Structural)]
pub enum Mnemonic {
    Adc,
    And,
    Asl,
    Bcc,
    Bcs,
    Beq,
    Bit,
    Bmi,
    Bne,
    Bpl,
    Brk,
    Bvc,
    Bvs,
    Clc,
    Cld,
    Cli,
    Clv,
    Cmp,
    Cpx,
    Cpy,
    Dec,
    Dex,
    Dey,
    Eor,
    Inc,
    Inx,
    Iny,
    Jmp,
    Jsr,
    Lda,
    Ldx,
    Ldy,
    Lsr,
    Nop,
    Ora,
    Pha,
    Php,
    Pla,
    Plp,
    Rol,
    Ror,
    Rti,
    Rts,
    Sbc,
    Sec,
    Sed,
    Sei,
    Sta,
    Stx,
    Sty,
    Tax,
    Tay,
    Tsx,
    Txa,
    Txs,
    Tya,
}

/// The upper-case assembler spelling of a mnemonic.
pub open spec fn mnemonic_name(m: Mnemonic) -> Seq<char> {
    match m {
        Mnemonic::Adc => seq!['A', 'D', 'C'],
        Mnemonic::And => seq!['A', 'N', 'D'],
        Mnemonic::Asl => seq!['A', 'S', 'L'],
        Mnemonic::Bcc => seq!['B', 'C', 'C'],
        Mnemonic::Bcs => seq!['B', 'C', 'S'],
        Mnemonic::Beq => seq!['B', 'E', 'Q'],
        Mnemonic::Bit => seq!['B', 'I', 'T'],
        Mnemonic::Bmi => seq!['B', 'M', 'I'],
        Mnemonic::Bne => seq!['B', 'N', 'E'],
        Mnemonic::Bpl => seq!['B', 'P', 'L'],
        Mnemonic::Brk => seq!['B', 'R', 'K'],
        Mnemonic::Bvc => seq!['B', 'V', 'C'],
        Mnemonic::Bvs => seq!['B', 'V', 'S'],
        Mnemonic::Clc => seq!['C', 'L', 'C'],
        Mnemonic::Cld => seq!['C', 'L', 'D'],
        Mnemonic::Cli => seq!['C', 'L', 'I'],
        Mnemonic::Clv => seq!['C', 'L', 'V'],
        Mnemonic::Cmp => seq!['C', 'M', 'P'],
        Mnemonic::Cpx => seq!['C', 'P', 'X'],
        Mnemonic::Cpy => seq!['C', 'P', 'Y'],
        Mnemonic::Dec => seq!['D', 'E', 'C'],
        Mnemonic::Dex => seq!['D', 'E', 'X'],
        Mnemonic::Dey => seq!['D', 'E', 'Y'],
        Mnemonic::Eor => seq!['E', 'O', 'R'],
        Mnemonic::Inc => seq!['I', 'N', 'C'],
        Mnemonic::Inx => seq!['I', 'N', 'X'],
        Mnemonic::Iny => seq!['I', 'N', 'Y'],
        Mnemonic::Jmp => seq!['J', 'M', 'P'],
        Mnemonic::Jsr => seq!['J', 'S', 'R'],
        Mnemonic::Lda => seq!['L', 'D', 'A'],
        Mnemonic::Ldx => seq!['L', 'D', 'X'],
        Mnemonic::Ldy => seq!['L', 'D', 'Y'],
        Mnemonic::Lsr => seq!['L', 'S', 'R'],
        Mnemonic::Nop => seq!['N', 'O', 'P'],
        Mnemonic::Ora => seq!['O', 'R', 'A'],
        Mnemonic::Pha => seq!['P', 'H', 'A'],
        Mnemonic::Php => seq!['P', 'H', 'P'],
        Mnemonic::Pla => seq!['P', 'L', 'A'],
        Mnemonic::Plp => seq!['P', 'L', 'P'],
        Mnemonic::Rol => seq!['R', 'O', 'L'],
        Mnemonic::Ror => seq!['R', 'O', 'R'],
        Mnemonic::Rti => seq!['R', 'T', 'I'],
        Mnemonic::Rts => seq!['R', 'T', 'S'],
        Mnemonic::Sbc => seq!['S', 'B', 'C'],
        Mnemonic::Sec => seq!['S', 'E', 'C'],
        Mnemonic::Sed => seq!['S', 'E', 'D'],
        Mnemonic::Sei => seq!['S', 'E', 'I'],
        Mnemonic::Sta => seq!['S', 'T', 'A'],
        Mnemonic::Stx => seq!['S', 'T', 'X'],
        Mnemonic::Sty => seq!['S', 'T', 'Y'],
        Mnemonic::Tax => seq!['T', 'A', 'X'],
        Mnemonic::Tay => seq!['T', 'A', 'Y'],
        Mnemonic::Tsx => seq!['T', 'S', 'X'],
        Mnemonic::Txa => seq!['T', 'X', 'A'],
        Mnemonic::Txs => seq!['T', 'X', 'S'],
        Mnemonic::Tya => seq!['T', 'Y', 'A'],
    }
}

/// The name of an addressing mode.
pub open spec fn mode_name(m: AddressMode) -> Seq<char> {
    match m {
        AddressMode::Accumulator => seq!['A', 'c', 'c', 'u', 'm', 'u', 'l', 'a', 't', 'o', 'r'],
        AddressMode::Absolute => seq!['A', 'b', 's', 'o', 'l', 'u', 't', 'e'],
        AddressMode::AbsoluteX => seq!['A', 'b', 's', 'o', 'l', 'u', 't', 'e', 'X'],
        AddressMode::AbsoluteY => seq!['A', 'b', 's', 'o', 'l', 'u', 't', 'e', 'Y'],
        AddressMode::Immediate => seq!['I', 'm', 'm', 'e', 'd', 'i', 'a', 't', 'e'],
        AddressMode::Implied => seq!['I', 'm', 'p', 'l', 'i', 'e', 'd'],
        AddressMode::Indirect => seq!['I', 'n', 'd', 'i', 'r', 'e', 'c', 't'],
        AddressMode::XIndirect => seq!['X', 'I', 'n', 'd', 'i', 'r', 'e', 'c', 't'],
        AddressMode::IndirectY => seq!['I', 'n', 'd', 'i', 'r', 'e', 'c', 't', 'Y'],
        AddressMode::Relative => seq!['R', 'e', 'l', 'a', 't', 'i', 'v', 'e'],
        AddressMode::Zeropage => seq!['Z', 'e', 'r', 'o', 'p', 'a', 'g', 'e'],
        AddressMode::ZeropageX => seq!['Z', 'e', 'r', 'o', 'p', 'a', 'g', 'e', 'X'],
        AddressMode::ZeropageY => seq!['Z', 'e', 'r', 'o', 'p', 'a', 'g', 'e', 'Y'],
    }
}

impl Mnemonic {
    /// The upper-case assembler spelling of the mnemonic.
    pub fn name(&self) -> (r: &'static str)
        ensures
            r@ == mnemonic_name(*self),
    {
        proof {
            reveal_strlit("ADC"); reveal_strlit("AND"); reveal_strlit("ASL"); reveal_strlit("BCC"); reveal_strlit("BCS"); reveal_strlit("BEQ"); reveal_strlit("BIT"); reveal_strlit("BMI"); reveal_strlit("BNE"); reveal_strlit("BPL"); reveal_strlit("BRK"); reveal_strlit("BVC"); reveal_strlit("BVS"); reveal_strlit("CLC"); reveal_strlit("CLD"); reveal_strlit("CLI"); reveal_strlit("CLV"); reveal_strlit("CMP"); reveal_strlit("CPX"); reveal_strlit("CPY"); reveal_strlit("DEC"); reveal_strlit("DEX"); reveal_strlit("DEY"); reveal_strlit("EOR"); reveal_strlit("INC"); reveal_strlit("INX"); reveal_strlit("INY"); reveal_strlit("JMP"); reveal_strlit("JSR"); reveal_strlit("LDA"); reveal_strlit("LDX"); reveal_strlit("LDY"); reveal_strlit("LSR"); reveal_strlit("NOP"); reveal_strlit("ORA"); reveal_strlit("PHA"); reveal_strlit("PHP"); reveal_strlit("PLA"); reveal_strlit("PLP"); reveal_strlit("ROL"); reveal_strlit("ROR"); reveal_strlit("RTI"); reveal_strlit("RTS"); reveal_strlit("SBC"); reveal_strlit("SEC"); reveal_strlit("SED"); reveal_strlit("SEI"); reveal_strlit("STA"); reveal_strlit("STX"); reveal_strlit("STY"); reveal_strlit("TAX"); reveal_strlit("TAY"); reveal_strlit("TSX"); reveal_strlit("TXA"); reveal_strlit("TXS"); reveal_strlit("TYA");
        }
        match self {
            Mnemonic::Adc => "ADC",
            Mnemonic::And => "AND",
            Mnemonic::Asl => "ASL",
            Mnemonic::Bcc => "BCC",
            Mnemonic::Bcs => "BCS",
            Mnemonic::Beq => "BEQ",
            Mnemonic::Bit => "BIT",
            Mnemonic::Bmi => "BMI",
            Mnemonic::Bne => "BNE",
            Mnemonic::Bpl => "BPL",
            Mnemonic::Brk => "BRK",
            Mnemonic::Bvc => "BVC",
            Mnemonic::Bvs => "BVS",
            Mnemonic::Clc => "CLC",
            Mnemonic::Cld => "CLD",
            Mnemonic::Cli => "CLI",
            Mnemonic::Clv => "CLV",
            Mnemonic::Cmp => "CMP",
            Mnemonic::Cpx => "CPX",
            Mnemonic::Cpy => "CPY",
            Mnemonic::Dec => "DEC",
            Mnemonic::Dex => "DEX",
            Mnemonic::Dey => "DEY",
            Mnemonic::Eor => "EOR",
            Mnemonic::Inc => "INC",
            Mnemonic::Inx => "INX",
            Mnemonic::Iny => "INY",
            Mnemonic::Jmp => "JMP",
            Mnemonic::Jsr => "JSR",
            Mnemonic::Lda => "LDA",
            Mnemonic::Ldx => "LDX",
            Mnemonic::Ldy => "LDY",
            Mnemonic::Lsr => "LSR",
            Mnemonic::Nop => "NOP",
            Mnemonic::Ora => "ORA",
            Mnemonic::Pha => "PHA",
            Mnemonic::Php => "PHP",
            Mnemonic::Pla => "PLA",
            Mnemonic::Plp => "PLP",
            Mnemonic::Rol => "ROL",
            Mnemonic::Ror => "ROR",
            Mnemonic::Rti => "RTI",
            Mnemonic::Rts => "RTS",
            Mnemonic::Sbc => "SBC",
            Mnemonic::Sec => "SEC",
            Mnemonic::Sed => "SED",
            Mnemonic::Sei => "SEI",
            Mnemonic::Sta => "STA",
            Mnemonic::Stx => "STX",
            Mnemonic::Sty => "STY",
            Mnemonic::Tax => "TAX",
            Mnemonic::Tay => "TAY",
            Mnemonic::Tsx => "TSX",
            Mnemonic::Txa => "TXA",
            Mnemonic::Txs => "TXS",
            Mnemonic::Tya => "TYA",
        }
    }
}

#[derive(Copy, Clone, Debug, PartialEq, Eq, Hash, Structural)]
pub enum AddressMode {
    Accumulator,
    Absolute,  // $LLHH
    AbsoluteX,  // $LLHH,X
    AbsoluteY,  // $LLHH,Y
    Immediate,  // #$BB
    Implied,
    Indirect,  // ($LLHH)
    XIndirect,  // ($LL,X)
    IndirectY,  // ($LL),Y
    Relative,  // $BB (signed)
    Zeropage,  // $LL
    ZeropageX,  // $LL,X
    ZeropageY,  // $LL,Y
}

impl AddressMode {
    /// The name of the addressing mode.
    pub fn name(&self) -> (r: &'static str)
        ensures
            r@ == mode_name(*self),
    {
        proof {
            reveal_strlit("Accumulator"); reveal_strlit("Absolute"); reveal_strlit("AbsoluteX"); reveal_strlit("AbsoluteY"); reveal_strlit("Immediate"); reveal_strlit("Implied"); reveal_strlit("Indirect"); reveal_strlit("XIndirect"); reveal_strlit("IndirectY"); reveal_strlit("Relative"); reveal_strlit("Zeropage"); reveal_strlit("ZeropageX"); reveal_strlit("ZeropageY");
        }
        match self {
            AddressMode::Accumulator => "Accumulator",
            AddressMode::Absolute => "Absolute",
            AddressMode::AbsoluteX => "AbsoluteX",
            AddressMode::AbsoluteY => "AbsoluteY",
            AddressMode::Immediate => "Immediate",
            AddressMode::Implied => "Implied",
            AddressMode::Indirect => "Indirect",
            AddressMode::XIndirect => "XIndirect",
            AddressMode::IndirectY => "IndirectY",
            AddressMode::Relative => "Relative",
            AddressMode::Zeropage => "Zeropage",
            AddressMode::ZeropageX => "ZeropageX",
            AddressMode::ZeropageY => "ZeropageY",
        }
    }
}

/// Number of operand bytes that follow an opcode in the given addressing mode.
pub open spec fn operand_len(mode: AddressMode) -> nat {
    match mode {
        AddressMode::Accumulator | AddressMode::Implied => 0,
        AddressMode::Absolute | AddressMode::AbsoluteX | AddressMode::AbsoluteY
        | AddressMode::Indirect => 2,
        _ => 1,
    }
}

/// Length in bytes of the operand associated with the given addressing mode.
pub fn operand_length(mode: AddressMode) -> (r: u16)
    ensures
        r == operand_len(mode),
{
    match mode {
        AddressMode::Accumulator | AddressMode::Implied => 0,
        AddressMode::Immediate | AddressMode::XIndirect | AddressMode::IndirectY
        | AddressMode::Relative | AddressMode::Zeropage | AddressMode::ZeropageX
        | AddressMode::ZeropageY => 1,
        AddressMode::Absolute | AddressMode::AbsoluteX | AddressMode::AbsoluteY
        | AddressMode::Indirect => 2,
    }
}

/// The resolved value of an instruction operand, after indirection, indexing etc.
#[derive(Copy, Clone, Debug, PartialEq, Eq, Structural)]
pub enum OpValue {
    Absent,
    U8(u8),
    U16(u16),
}

/// The instruction set: the mnemonic and addressing mode that each legal opcode encodes.
pub open spec fn decode_spec(code: u8) -> Option<(Mnemonic, AddressMode)> {
    match code {
        0x00 => Some((Mnemonic::Brk, AddressMode::Implied)),
        0x01 => Some((Mnemonic::Ora, AddressMode::XIndirect)),
        0x05 => Some((Mnemonic::Ora, AddressMode::Zeropage)),
        0x06 => Some((Mnemonic::Asl, AddressMode::Zeropage)),
        0x08 => Some((Mnemonic::Php, AddressMode::Implied)),
        0x09 => Some((Mnemonic::Ora, AddressMode::Immediate)),
        0x0A => Some((Mnemonic::Asl, AddressMode::Accumulator)),
        0x0D => Some((Mnemonic::Ora, AddressMode::Absolute)),
        0x0E => Some((Mnemonic::Asl, AddressMode::Absolute)),
        0x10 => Some((Mnemonic::Bpl, AddressMode::Relative)),
        0x11 => Some((Mnemonic::Ora, AddressMode::IndirectY)),
        0x15 => Some((Mnemonic::Ora, AddressMode::ZeropageX)),
        0x16 => Some((Mnemonic::Asl, AddressMode::ZeropageX)),
        0x18 => Some((Mnemonic::Clc, AddressMode::Implied)),
        0x19 => Some((Mnemonic::Ora, AddressMode::AbsoluteY)),
        0x1D => Some((Mnemonic::Ora, AddressMode::AbsoluteX)),
        0x1E => Some((Mnemonic::Asl, AddressMode::AbsoluteX)),
        0x20 => Some((Mnemonic::Jsr, AddressMode::Absolute)),
        0x21 => Some((Mnemonic::And, AddressMode::XIndirect)),
        0x24 => Some((Mnemonic::Bit, AddressMode::Zeropage)),
        0x25 => Some((Mnemonic::And, AddressMode::Zeropage)),
        0x26 => Some((Mnemonic::Rol, AddressMode::Zeropage)),
        0x28 => Some((Mnemonic::Plp, AddressMode::Implied)),
        0x29 => Some((Mnemonic::And, AddressMode::Immediate)),
        0x2A => Some((Mnemonic::Rol, AddressMode::Accumulator)),
        0x2C => Some((Mnemonic::Bit, AddressMode::Absolute)),
        0x2D => Some((Mnemonic::And, AddressMode::Absolute)),
        0x2E => Some((Mnemonic::Rol, AddressMode::Absolute)),
        0x30 => Some((Mnemonic::Bmi, AddressMode::Relative)),
        0x31 => Some((Mnemonic::And, AddressMode::IndirectY)),
        0x35 => Some((Mnemonic::And, AddressMode::ZeropageX)),
        0x36 => Some((Mnemonic::Rol, AddressMode::ZeropageX)),
        0x38 => Some((Mnemonic::Sec, AddressMode::Implied)),
        0x39 => Some((Mnemonic::And, AddressMode::AbsoluteY)),
        0x3D => Some((Mnemonic::And, AddressMode::AbsoluteX)),
        0x3E => Some((Mnemonic::Rol, AddressMode::AbsoluteX)),
        0x40 => Some((Mnemonic::Rti, AddressMode::Implied)),
        0x41 => Some((Mnemonic::Eor, AddressMode::XIndirect)),
        0x45 => Some((Mnemonic::Eor, AddressMode::Zeropage)),
        0x46 => Some((Mnemonic::Lsr, AddressMode::Zeropage)),
        0x48 => Some((Mnemonic::Pha, AddressMode::Implied)),
        0x49 => Some((Mnemonic::Eor, AddressMode::Immediate)),
        0x4A => Some((Mnemonic::Lsr, AddressMode::Accumulator)),
        0x4C => Some((Mnemonic::Jmp, AddressMode::Absolute)),
        0x4D => Some((Mnemonic::Eor, AddressMode::Absolute)),
        0x4E => Some((Mnemonic::Lsr, AddressMode::Absolute)),
        0x50 => Some((Mnemonic::Bvc, AddressMode::Relative)),
        0x51 => Some((Mnemonic::Eor, AddressMode::IndirectY)),
        0x55 => Some((Mnemonic::Eor, AddressMode::ZeropageX)),
        0x56 => Some((Mnemonic::Lsr, AddressMode::ZeropageX)),
        0x58 => Some((Mnemonic::Cli, AddressMode::Implied)),
        0x59 => Some((Mnemonic::Eor, AddressMode::AbsoluteY)),
        0x5D => Some((Mnemonic::Eor, AddressMode::AbsoluteX)),
        0x5E => Some((Mnemonic::Lsr, AddressMode::AbsoluteX)),
        0x60 => Some((Mnemonic::Rts, AddressMode::Implied)),
        0x61 => Some((Mnemonic::Adc, AddressMode::XIndirect)),
        0x65 => Some((Mnemonic::Adc, AddressMode::Zeropage)),
        0x66 => Some((Mnemonic::Ror, AddressMode::Zeropage)),
        0x68 => Some((Mnemonic::Pla, AddressMode::Implied)),
        0x69 => Some((Mnemonic::Adc, AddressMode::Immediate)),
        0x6A => Some((Mnemonic::Ror, AddressMode::Accumulator)),
        0x6C => Some((Mnemonic::Jmp, AddressMode::Indirect)),
        0x6D => Some((Mnemonic::Adc, AddressMode::Absolute)),
        0x6E => Some((Mnemonic::Ror, AddressMode::Absolute)),
        0x70 => Some((Mnemonic::Bvs, AddressMode::Relative)),
        0x71 => Some((Mnemonic::Adc, AddressMode::IndirectY)),
        0x75 => Some((Mnemonic::Adc, AddressMode::ZeropageX)),
        0x76 => Some((Mnemonic::Ror, AddressMode::ZeropageX)),
        0x78 => Some((Mnemonic::Sei, AddressMode::Implied)),
        0x79 => Some((Mnemonic::Adc, AddressMode::AbsoluteY)),
        0x7D => Some((Mnemonic::Adc, AddressMode::AbsoluteX)),
        0x7E => Some((Mnemonic::Ror, AddressMode::AbsoluteX)),
        0x81 => Some((Mnemonic::Sta, AddressMode::XIndirect)),
        0x84 => Some((Mnemonic::Sty, AddressMode::Zeropage)),
        0x85 => Some((Mnemonic::Sta, AddressMode::Zeropage)),
        0x86 => Some((Mnemonic::Stx, AddressMode::Zeropage)),
        0x88 => Some((Mnemonic::Dey, AddressMode::Implied)),
        0x8A => Some((Mnemonic::Txa, AddressMode::Implied)),
        0x8C => Some((Mnemonic::Sty, AddressMode::Absolute)),
        0x8D => Some((Mnemonic::Sta, AddressMode::Absolute)),
        0x8E => Some((Mnemonic::Stx, AddressMode::Absolute)),
        0x90 => Some((Mnemonic::Bcc, AddressMode::Relative)),
        0x91 => Some((Mnemonic::Sta, AddressMode::IndirectY)),
        0x94 => Some((Mnemonic::Sty, AddressMode::ZeropageX)),
        0x95 => Some((Mnemonic::Sta, AddressMode::ZeropageX)),
        0x96 => Some((Mnemonic::Stx, AddressMode::ZeropageY)),
        0x98 => Some((Mnemonic::Tya, AddressMode::Implied)),
        0x99 => Some((Mnemonic::Sta, AddressMode::AbsoluteY)),
        0x9A => Some((Mnemonic::Txs, AddressMode::Implied)),
        0x9D => Some((Mnemonic::Sta, AddressMode::AbsoluteX)),
        0xA0 => Some((Mnemonic::Ldy, AddressMode::Immediate)),
        0xA1 => Some((Mnemonic::Lda, AddressMode::XIndirect)),
        0xA2 => Some((Mnemonic::Ldx, AddressMode::Immediate)),
        0xA4 => Some((Mnemonic::Ldy, AddressMode::Zeropage)),
        0xA5 => Some((Mnemonic::Lda, AddressMode::Zeropage)),
        0xA6 => Some((Mnemonic::Ldx, AddressMode::Zeropage)),
        0xA8 => Some((Mnemonic::Tay, AddressMode::Implied)),
        0xA9 => Some((Mnemonic::Lda, AddressMode::Immediate)),
        0xAA => Some((Mnemonic::Tax, AddressMode::Implied)),
        0xAC => Some((Mnemonic::Ldy, AddressMode::Absolute)),
        0xAD => Some((Mnemonic::Lda, AddressMode::Absolute)),
        0xAE => Some((Mnemonic::Ldx, AddressMode::Absolute)),
        0xB0 => Some((Mnemonic::Bcs, AddressMode::Relative)),
        0xB1 => Some((Mnemonic::Lda, AddressMode::IndirectY)),
        0xB4 => Some((Mnemonic::Ldy, AddressMode::ZeropageX)),
        0xB5 => Some((Mnemonic::Lda, AddressMode::ZeropageX)),
        0xB6 => Some((Mnemonic::Ldx, AddressMode::ZeropageY)),
        0xB8 => Some((Mnemonic::Clv, AddressMode::Implied)),
        0xB9 => Some((Mnemonic::Lda, AddressMode::AbsoluteY)),
        0xBA => Some((Mnemonic::Tsx, AddressMode::Implied)),
        0xBC => Some((Mnemonic::Ldy, AddressMode::AbsoluteX)),
        0xBD => Some((Mnemonic::Lda, AddressMode::AbsoluteX)),
        0xBE => Some((Mnemonic::Ldx, AddressMode::AbsoluteY)),
        0xC0 => Some((Mnemonic::Cpy, AddressMode::Immediate)),
        0xC1 => Some((Mnemonic::Cmp, AddressMode::XIndirect)),
        0xC4 => Some((Mnemonic::Cpy, AddressMode::Zeropage)),
        0xC5 => Some((Mnemonic::Cmp, AddressMode::Zeropage)),
        0xC6 => Some((Mnemonic::Dec, AddressMode::Zeropage)),
        0xC8 => Some((Mnemonic::Iny, AddressMode::Implied)),
        0xC9 => Some((Mnemonic::Cmp, AddressMode::Immediate)),
        0xCA => Some((Mnemonic::Dex, AddressMode::Implied)),
        0xCC => Some((Mnemonic::Cpy, AddressMode::Absolute)),
        0xCD => Some((Mnemonic::Cmp, AddressMode::Absolute)),
        0xCE => Some((Mnemonic::Dec, AddressMode::Absolute)),
        0xD0 => Some((Mnemonic::Bne, AddressMode::Relative)),
        0xD1 => Some((Mnemonic::Cmp, AddressMode::IndirectY)),
        0xD5 => Some((Mnemonic::Cmp, AddressMode::ZeropageX)),
        0xD6 => Some((Mnemonic::Dec, AddressMode::ZeropageX)),
        0xD8 => Some((Mnemonic::Cld, AddressMode::Implied)),
        0xD9 => Some((Mnemonic::Cmp, AddressMode::AbsoluteY)),
        0xDD => Some((Mnemonic::Cmp, AddressMode::AbsoluteX)),
        0xDE => Some((Mnemonic::Dec, AddressMode::AbsoluteX)),
        0xE0 => Some((Mnemonic::Cpx, AddressMode::Immediate)),
        0xE1 => Some((Mnemonic::Sbc, AddressMode::XIndirect)),
        0xE4 => Some((Mnemonic::Cpx, AddressMode::Zeropage)),
        0xE5 => Some((Mnemonic::Sbc, AddressMode::Zeropage)),
        0xE6 => Some((Mnemonic::Inc, AddressMode::Zeropage)),
        0xE8 => Some((Mnemonic::Inx, AddressMode::Implied)),
        0xE9 => Some((Mnemonic::Sbc, AddressMode::Immediate)),
        0xEA => Some((Mnemonic::Nop, AddressMode::Implied)),
        0xEC => Some((Mnemonic::Cpx, AddressMode::Absolute)),
        0xED => Some((Mnemonic::Sbc, AddressMode::Absolute)),
        0xEE => Some((Mnemonic::Inc, AddressMode::Absolute)),
        0xF0 => Some((Mnemonic::Beq, AddressMode::Relative)),
        0xF1 => Some((Mnemonic::Sbc, AddressMode::IndirectY)),
        0xF5 => Some((Mnemonic::Sbc, AddressMode::ZeropageX)),
        0xF6 => Some((Mnemonic::Inc, AddressMode::ZeropageX)),
        0xF8 => Some((Mnemonic::Sed, AddressMode::Implied)),
        0xF9 => Some((Mnemonic::Sbc, AddressMode::AbsoluteY)),
        0xFD => Some((Mnemonic::Sbc, AddressMode::AbsoluteX)),
        0xFE => Some((Mnemonic::Inc, AddressMode::AbsoluteX)),
        _ => None,
    }
}

/// The table entry for `code`, if it is a legal opcode.
pub open spec fn opcode_spec(code: u8) -> Option<Opcode> {
    match decode_spec(code) {
        Some((m, mode)) => Some(Opcode { code, mnemonic: m, mode }),
        None => None,
    }
}

/// Whether some opcode encodes `m` in addressing mode `mode`.
pub open spec fn is_legal(m: Mnemonic, mode: AddressMode) -> bool {
    exists|c: u8| decode_spec(c) == Some((m, mode))
}

/// The mnemonic and addressing mode that `code` encodes, or `None` for an illegal opcode.
pub fn decode_code(code: u8) -> (r: Option<(Mnemonic, AddressMode)>)
    ensures
        r == decode_spec(code),
{
    match code {
        0x00 => Some((Mnemonic::Brk, AddressMode::Implied)),
        0x01 => Some((Mnemonic::Ora, AddressMode::XIndirect)),
        0x05 => Some((Mnemonic::Ora, AddressMode::Zeropage)),
        0x06 => Some((Mnemonic::Asl, AddressMode::Zeropage)),
        0x08 => Some((Mnemonic::Php, AddressMode::Implied)),
        0x09 => Some((Mnemonic::Ora, AddressMode::Immediate)),
        0x0A => Some((Mnemonic::Asl, AddressMode::Accumulator)),
        0x0D => Some((Mnemonic::Ora, AddressMode::Absolute)),
        0x0E => Some((Mnemonic::Asl, AddressMode::Absolute)),
        0x10 => Some((Mnemonic::Bpl, AddressMode::Relative)),
        0x11 => Some((Mnemonic::Ora, AddressMode::IndirectY)),
        0x15 => Some((Mnemonic::Ora, AddressMode::ZeropageX)),
        0x16 => Some((Mnemonic::Asl, AddressMode::ZeropageX)),
        0x18 => Some((Mnemonic::Clc, AddressMode::Implied)),
        0x19 => Some((Mnemonic::Ora, AddressMode::AbsoluteY)),
        0x1D => Some((Mnemonic::Ora, AddressMode::AbsoluteX)),
        0x1E => Some((Mnemonic::Asl, AddressMode::AbsoluteX)),
        0x20 => Some((Mnemonic::Jsr, AddressMode::Absolute)),
        0x21 => Some((Mnemonic::And, AddressMode::XIndirect)),
        0x24 => Some((Mnemonic::Bit, AddressMode::Zeropage)),
        0x25 => Some((Mnemonic::And, AddressMode::Zeropage)),
        0x26 => Some((Mnemonic::Rol, AddressMode::Zeropage)),
        0x28 => Some((Mnemonic::Plp, AddressMode::Implied)),
        0x29 => Some((Mnemonic::And, AddressMode::Immediate)),
        0x2A => Some((Mnemonic::Rol, AddressMode::Accumulator)),
        0x2C => Some((Mnemonic::Bit, AddressMode::Absolute)),
        0x2D => Some((Mnemonic::And, AddressMode::Absolute)),
        0x2E => Some((Mnemonic::Rol, AddressMode::Absolute)),
        0x30 => Some((Mnemonic::Bmi, AddressMode::Relative)),
        0x31 => Some((Mnemonic::And, AddressMode::IndirectY)),
        0x35 => Some((Mnemonic::And, AddressMode::ZeropageX)),
        0x36 => Some((Mnemonic::Rol, AddressMode::ZeropageX)),
        0x38 => Some((Mnemonic::Sec, AddressMode::Implied)),
        0x39 => Some((Mnemonic::And, AddressMode::AbsoluteY)),
        0x3D => Some((Mnemonic::And, AddressMode::AbsoluteX)),
        0x3E => Some((Mnemonic::Rol, AddressMode::AbsoluteX)),
        0x40 => Some((Mnemonic::Rti, AddressMode::Implied)),
        0x41 => Some((Mnemonic::Eor, AddressMode::XIndirect)),
        0x45 => Some((Mnemonic::Eor, AddressMode::Zeropage)),
        0x46 => Some((Mnemonic::Lsr, AddressMode::Zeropage)),
        0x48 => Some((Mnemonic::Pha, AddressMode::Implied)),
        0x49 => Some((Mnemonic::Eor, AddressMode::Immediate)),
        0x4A => Some((Mnemonic::Lsr, AddressMode::Accumulator)),
        0x4C => Some((Mnemonic::Jmp, AddressMode::Absolute)),
        0x4D => Some((Mnemonic::Eor, AddressMode::Absolute)),
        0x4E => Some((Mnemonic::Lsr, AddressMode::Absolute)),
        0x50 => Some((Mnemonic::Bvc, AddressMode::Relative)),
        0x51 => Some((Mnemonic::Eor, AddressMode::IndirectY)),
        0x55 => Some((Mnemonic::Eor, AddressMode::ZeropageX)),
        0x56 => Some((Mnemonic::Lsr, AddressMode::ZeropageX)),
        0x58 => Some((Mnemonic::Cli, AddressMode::Implied)),
        0x59 => Some((Mnemonic::Eor, AddressMode::AbsoluteY)),
        0x5D => Some((Mnemonic::Eor, AddressMode::AbsoluteX)),
        0x5E => Some((Mnemonic::Lsr, AddressMode::AbsoluteX)),
        0x60 => Some((Mnemonic::Rts, AddressMode::Implied)),
        0x61 => Some((Mnemonic::Adc, AddressMode::XIndirect)),
        0x65 => Some((Mnemonic::Adc, AddressMode::Zeropage)),
        0x66 => Some((Mnemonic::Ror, AddressMode::Zeropage)),
        0x68 => Some((Mnemonic::Pla, AddressMode::Implied)),
        0x69 => Some((Mnemonic::Adc, AddressMode::Immediate)),
        0x6A => Some((Mnemonic::Ror, AddressMode::Accumulator)),
        0x6C => Some((Mnemonic::Jmp, AddressMode::Indirect)),
        0x6D => Some((Mnemonic::Adc, AddressMode::Absolute)),
        0x6E => Some((Mnemonic::Ror, AddressMode::Absolute)),
        0x70 => Some((Mnemonic::Bvs, AddressMode::Relative)),
        0x71 => Some((Mnemonic::Adc, AddressMode::IndirectY)),
        0x75 => Some((Mnemonic::Adc, AddressMode::ZeropageX)),
        0x76 => Some((Mnemonic::Ror, AddressMode::ZeropageX)),
        0x78 => Some((Mnemonic::Sei, AddressMode::Implied)),
        0x79 => Some((Mnemonic::Adc, AddressMode::AbsoluteY)),
        0x7D => Some((Mnemonic::Adc, AddressMode::AbsoluteX)),
        0x7E => Some((Mnemonic::Ror, AddressMode::AbsoluteX)),
        0x81 => Some((Mnemonic::Sta, AddressMode::XIndirect)),
        0x84 => Some((Mnemonic::Sty, AddressMode::Zeropage)),
        0x85 => Some((Mnemonic::Sta, AddressMode::Zeropage)),
        0x86 => Some((Mnemonic::Stx, AddressMode::Zeropage)),
        0x88 => Some((Mnemonic::Dey, AddressMode::Implied)),
        0x8A => Some((Mnemonic::Txa, AddressMode::Implied)),
        0x8C => Some((Mnemonic::Sty, AddressMode::Absolute)),
        0x8D => Some((Mnemonic::Sta, AddressMode::Absolute)),
        0x8E => Some((Mnemonic::Stx, AddressMode::Absolute)),
        0x90 => Some((Mnemonic::Bcc, AddressMode::Relative)),
        0x91 => Some((Mnemonic::Sta, AddressMode::IndirectY)),
        0x94 => Some((Mnemonic::Sty, AddressMode::ZeropageX)),
        0x95 => Some((Mnemonic::Sta, AddressMode::ZeropageX)),
        0x96 => Some((Mnemonic::Stx, AddressMode::ZeropageY)),
        0x98 => Some((Mnemonic::Tya, AddressMode::Implied)),
        0x99 => Some((Mnemonic::Sta, AddressMode::AbsoluteY)),
        0x9A => Some((Mnemonic::Txs, AddressMode::Implied)),
        0x9D => Some((Mnemonic::Sta, AddressMode::AbsoluteX)),
        0xA0 => Some((Mnemonic::Ldy, AddressMode::Immediate)),
        0xA1 => Some((Mnemonic::Lda, AddressMode::XIndirect)),
        0xA2 => Some((Mnemonic::Ldx, AddressMode::Immediate)),
        0xA4 => Some((Mnemonic::Ldy, AddressMode::Zeropage)),
        0xA5 => Some((Mnemonic::Lda, AddressMode::Zeropage)),
        0xA6 => Some((Mnemonic::Ldx, AddressMode::Zeropage)),
        0xA8 => Some((Mnemonic::Tay, AddressMode::Implied)),
        0xA9 => Some((Mnemonic::Lda, AddressMode::Immediate)),
        0xAA => Some((Mnemonic::Tax, AddressMode::Implied)),
        0xAC => Some((Mnemonic::Ldy, AddressMode::Absolute)),
        0xAD => Some((Mnemonic::Lda, AddressMode::Absolute)),
        0xAE => Some((Mnemonic::Ldx, AddressMode::Absolute)),
        0xB0 => Some((Mnemonic::Bcs, AddressMode::Relative)),
        0xB1 => Some((Mnemonic::Lda, AddressMode::IndirectY)),
        0xB4 => Some((Mnemonic::Ldy, AddressMode::ZeropageX)),
        0xB5 => Some((Mnemonic::Lda, AddressMode::ZeropageX)),
        0xB6 => Some((Mnemonic::Ldx, AddressMode::ZeropageY)),
        0xB8 => Some((Mnemonic::Clv, AddressMode::Implied)),
        0xB9 => Some((Mnemonic::Lda, AddressMode::AbsoluteY)),
        0xBA => Some((Mnemonic::Tsx, AddressMode::Implied)),
        0xBC => Some((Mnemonic::Ldy, AddressMode::AbsoluteX)),
        0xBD => Some((Mnemonic::Lda, AddressMode::AbsoluteX)),
        0xBE => Some((Mnemonic::Ldx, AddressMode::AbsoluteY)),
        0xC0 => Some((Mnemonic::Cpy, AddressMode::Immediate)),
        0xC1 => Some((Mnemonic::Cmp, AddressMode::XIndirect)),
        0xC4 => Some((Mnemonic::Cpy, AddressMode::Zeropage)),
        0xC5 => Some((Mnemonic::Cmp, AddressMode::Zeropage)),
        0xC6 => Some((Mnemonic::Dec, AddressMode::Zeropage)),
        0xC8 => Some((Mnemonic::Iny, AddressMode::Implied)),
        0xC9 => Some((Mnemonic::Cmp, AddressMode::Immediate)),
        0xCA => Some((Mnemonic::Dex, AddressMode::Implied)),
        0xCC => Some((Mnemonic::Cpy, AddressMode::Absolute)),
        0xCD => Some((Mnemonic::Cmp, AddressMode::Absolute)),
        0xCE => Some((Mnemonic::Dec, AddressMode::Absolute)),
        0xD0 => Some((Mnemonic::Bne, AddressMode::Relative)),
        0xD1 => Some((Mnemonic::Cmp, AddressMode::IndirectY)),
        0xD5 => Some((Mnemonic::Cmp, AddressMode::ZeropageX)),
        0xD6 => Some((Mnemonic::Dec, AddressMode::ZeropageX)),
        0xD8 => Some((Mnemonic::Cld, AddressMode::Implied)),
        0xD9 => Some((Mnemonic::Cmp, AddressMode::AbsoluteY)),
        0xDD => Some((Mnemonic::Cmp, AddressMode::AbsoluteX)),
        0xDE => Some((Mnemonic::Dec, AddressMode::AbsoluteX)),
        0xE0 => Some((Mnemonic::Cpx, AddressMode::Immediate)),
        0xE1 => Some((Mnemonic::Sbc, AddressMode::XIndirect)),
        0xE4 => Some((Mnemonic::Cpx, AddressMode::Zeropage)),
        0xE5 => Some((Mnemonic::Sbc, AddressMode::Zeropage)),
        0xE6 => Some((Mnemonic::Inc, AddressMode::Zeropage)),
        0xE8 => Some((Mnemonic::Inx, AddressMode::Implied)),
        0xE9 => Some((Mnemonic::Sbc, AddressMode::Immediate)),
        0xEA => Some((Mnemonic::Nop, AddressMode::Implied)),
        0xEC => Some((Mnemonic::Cpx, AddressMode::Absolute)),
        0xED => Some((Mnemonic::Sbc, AddressMode::Absolute)),
        0xEE => Some((Mnemonic::Inc, AddressMode::Absolute)),
        0xF0 => Some((Mnemonic::Beq, AddressMode::Relative)),
        0xF1 => Some((Mnemonic::Sbc, AddressMode::IndirectY)),
        0xF5 => Some((Mnemonic::Sbc, AddressMode::ZeropageX)),
        0xF6 => Some((Mnemonic::Inc, AddressMode::ZeropageX)),
        0xF8 => Some((Mnemonic::Sed, AddressMode::Implied)),
        0xF9 => Some((Mnemonic::Sbc, AddressMode::AbsoluteY)),
        0xFD => Some((Mnemonic::Sbc, AddressMode::AbsoluteX)),
        0xFE => Some((Mnemonic::Inc, AddressMode::AbsoluteX)),
        _ => None,
    }
}

/// All supported opcodes, in ascending order of their code.
pub fn opcode_list() -> (r: Vec<Opcode>)
    ensures
        forall|i: int| 0 <= i < r@.len() ==> opcode_spec(#[trigger] r@[i].code) == Some(r@[i]),
        forall|i: int, j: int| 0 <= i < j < r@.len() ==> r@[i].code < r@[j].code,
        forall|c: u8| #[trigger] decode_spec(c) is Some ==> exists|i: int| 0 <= i < r@.len() && r@[i].code == c,
{
    let mut r: Vec<Opcode> = Vec::new();
    let mut c: u16 = 0;
    while c < 256
        invariant
            c <= 256,
            forall|i: int| 0 <= i < r@.len() ==> opcode_spec(#[trigger] r@[i].code) == Some(r@[i]),
            forall|i: int| 0 <= i < r@.len() ==> r@[i].code < c,
            forall|i: int, j: int| 0 <= i < j < r@.len() ==> r@[i].code < r@[j].code,
            forall|d: u8| d < c && #[trigger] decode_spec(d) is Some ==> exists|i: int| 0 <= i < r@.len() && r@[i].code == d,
        decreases 256 - c,
    {
        let code = c as u8;
        let ghost prev = r@;
        match decode_code(code) {
            Some((m, mode)) => {
                r.push(Opcode::new(m, mode, code));
                assert(r@[r@.len() - 1].code == code);
            },
            None => {},
        }
        assert forall|d: u8| d < c + 1 && #[trigger] decode_spec(d) is Some implies exists|i: int| 0 <= i < r@.len() && r@[i].code == d by {
            if d < c {
                let i = choose|i: int| 0 <= i < prev.len() && prev[i].code == d;
                assert(r@[i] == prev[i]);
            } else {
                assert(d == code);
                assert(r@[r@.len() - 1].code == d);
            }
        }
        c = c + 1;
    }
    r
}

#[derive(Debug, Clone, Copy)]
pub enum Error {
    IllegalAddressMode(Mnemonic, AddressMode),
}

/// Looks up opcodes by mnemonic and addressing mode.
pub struct OpcodeByMnemonicAndAddressMode {
    list: Vec<Opcode>,
}

impl OpcodeByMnemonicAndAddressMode {
    /// Every entry is an opcode of the table, and every opcode of the table is an entry.
    pub closed spec fn wf(&self) -> bool {
        &&& forall|i: int| 0 <= i < self.list@.len() ==> opcode_spec(#[trigger] self.list@[i].code) == Some(self.list@[i])
        &&& forall|c: u8| #[trigger] decode_spec(c) is Some ==> exists|i: int| 0 <= i < self.list@.len() && self.list@[i].code == c
    }

    pub fn build() -> (r: Self)
        ensures
            r.wf(),
    {
        OpcodeByMnemonicAndAddressMode { list: opcode_list() }
    }

    /// The opcode that encodes `m` in addressing mode `am`, or an error if there is none.
    pub fn get(&self, m: Mnemonic, am: AddressMode) -> (r: Result<Opcode, Error>)
        requires
            self.wf(),
        ensures
            r is Ok <==> is_legal(m, am),
            r matches Ok(op) ==> op.mnemonic == m && op.mode == am && decode_spec(op.code) == Some((m, am)),
            r is Err ==> r == Err::<Opcode, Error>(Error::IllegalAddressMode(m, am)),
    {
        let mut i: usize = 0;
        while i < self.list.len()
            invariant
                self.wf(),
                i <= self.list@.len(),
                forall|j: int| 0 <= j < i ==> !(self.list@[j].mnemonic == m && self.list@[j].mode == am),
            decreases self.list@.len() - i,
        {
            let op = self.list[i];
            if op.mnemonic == m && op.mode == am {
                assert(opcode_spec(op.code) == Some(op));
                assert(decode_spec(op.code) == Some((m, am)));
                return Ok(op);
            }
            i += 1;
        }
        assert forall|c: u8| decode_spec(c) != Some((m, am)) by {
            if decode_spec(c) == Some((m, am)) {
                let j = choose|j: int| 0 <= j < self.list@.len() && self.list@[j].code == c;
                assert(opcode_spec(self.list@[j].code) == Some(self.list@[j]));
            }
        }
        Err(Error::IllegalAddressMode(m, am))
    }
}

} // verus!
