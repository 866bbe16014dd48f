//! An assembler that turns instructions, labels and data into the byte stream of a program.
use vstd::prelude::*;
use crate::isa::{self, mnemonic_name, mode_name, decode_spec, is_legal, operand_length, operand_len, AddressMode, Mnemonic, OpValue, Opcode, OpcodeByMnemonicAndAddressMode};
use vstd::string::StringExecFns;
use crate::semantics::signed;
use crate::text::{dec_spec, hex_spec, lemma_hex_len, printable_char, spaces, printable, push_hex, push_padded, push_signed, push_spaces};

verus! {

/// An absolute operand: a literal address, or a label resolved when assembling.
#[derive(Debug)]
pub enum Addr {
    Literal(u16),
    Label(String),
}

/// A relative branch operand: a literal signed offset, or a nearby label.
#[derive(Debug)]
pub enum BranchTarget {
    Offset(i8),
    Label(String),
}

/// Instruction operands, one variant per addressing mode.
#[derive(Debug)]
pub enum Operand {
    A,
    Abs(Addr),
    AbsX(Addr),
    AbsY(Addr),
    Imm(u8),
    Impl,
    Ind(Addr),
    XInd(u8),
    IndY(u8),
    Rel(BranchTarget),
    Z(u8),
    ZX(u8),
    ZY(u8),
}

#[derive(Debug, Clone, Copy, PartialEq, Eq, Structural)]
pub enum Error {
    IllegalAddressMode(Mnemonic, AddressMode),
    RelativeAddressOutOfRange(i16),
    LabelNotFound,
}

impl From<isa::Error> for Error {
    fn from(err: isa::Error) -> (r: Self) {
        match err {
            isa::Error::IllegalAddressMode(m, am) => Error::IllegalAddressMode(m, am),
        }
    }
}

impl vstd::std_specs::convert::FromSpecImpl<isa::Error> for Error {
    open spec fn obeys_from_spec() -> bool {
        true
    }

    open spec fn from_spec(err: isa::Error) -> Error {
        match err {
            isa::Error::IllegalAddressMode(m, am) => Error::IllegalAddressMode(m, am),
        }
    }
}

/// A line of a program: an instruction, or raw data.
#[derive(Debug)]
pub enum Line {
    Instruction(InstructionLine),
    Data(DataLine),
}

#[derive(Debug)]
pub struct InstructionLine {
    pub label: Option<String>,
    pub instruction: Result<Opcode, Error>,
    pub operand: Operand,
}

#[derive(Debug)]
pub struct DataLine {
    pub label: Option<String>,
    pub data: Vec<u8>,
}

impl Operand {
    pub open spec fn mode_spec(&self) -> AddressMode {
        match self {
            Operand::A => AddressMode::Accumulator,
            Operand::Abs(_) => AddressMode::Absolute,
            Operand::AbsX(_) => AddressMode::AbsoluteX,
            Operand::AbsY(_) => AddressMode::AbsoluteY,
            Operand::Imm(_) => AddressMode::Immediate,
            Operand::Impl => AddressMode::Implied,
            Operand::Ind(_) => AddressMode::Indirect,
            Operand::XInd(_) => AddressMode::XIndirect,
            Operand::IndY(_) => AddressMode::IndirectY,
            Operand::Rel(_) => AddressMode::Relative,
            Operand::Z(_) => AddressMode::Zeropage,
            Operand::ZX(_) => AddressMode::ZeropageX,
            Operand::ZY(_) => AddressMode::ZeropageY,
        }
    }

    /// The addressing mode that the operand is written in.
    pub fn mode(&self) -> (r: AddressMode)
        ensures
            r == self.mode_spec(),
    {
        match self {
            Operand::A => AddressMode::Accumulator,
            Operand::Abs(_) => AddressMode::Absolute,
            Operand::AbsX(_) => AddressMode::AbsoluteX,
            Operand::AbsY(_) => AddressMode::AbsoluteY,
            Operand::Imm(_) => AddressMode::Immediate,
            Operand::Impl => AddressMode::Implied,
            Operand::Ind(_) => AddressMode::Indirect,
            Operand::XInd(_) => AddressMode::XIndirect,
            Operand::IndY(_) => AddressMode::IndirectY,
            Operand::Rel(_) => AddressMode::Relative,
            Operand::Z(_) => AddressMode::Zeropage,
            Operand::ZX(_) => AddressMode::ZeropageX,
            Operand::ZY(_) => AddressMode::ZeropageY,
        }
    }

    /// The operand in assembler syntax (without the `#` of immediate mode).
    pub fn text(&self) -> String {
        let mut f = String::new();
        push_operand(&mut f, self);
        f
    }

    /// The operand of mode `mode` whose bytes, as they follow an opcode, are `lo` and `hi`.
    pub fn from_bytes(mode: AddressMode, lo: u8, hi: u8) -> (r: Operand)
        ensures
            r.mode_spec() == mode,
            match r {
                Operand::Abs(Addr::Literal(w)) | Operand::AbsX(Addr::Literal(w))
                | Operand::AbsY(Addr::Literal(w)) | Operand::Ind(Addr::Literal(w)) => w == hi * 256 + lo,
                Operand::Imm(b) | Operand::XInd(b) | Operand::IndY(b) | Operand::Z(b) | Operand::ZX(b)
                | Operand::ZY(b) => b == lo,
                Operand::Rel(BranchTarget::Offset(o)) => o == signed(lo),
                Operand::A | Operand::Impl => true,
                _ => false,
            },
    {
        let word = hi as u16 * 256 + lo as u16;
        match mode {
            AddressMode::Accumulator => Operand::A,
            AddressMode::Absolute => Operand::Abs(Addr::Literal(word)),
            AddressMode::AbsoluteX => Operand::AbsX(Addr::Literal(word)),
            AddressMode::AbsoluteY => Operand::AbsY(Addr::Literal(word)),
            AddressMode::Immediate => Operand::Imm(lo),
            AddressMode::Implied => Operand::Impl,
            AddressMode::Indirect => Operand::Ind(Addr::Literal(word)),
            AddressMode::XIndirect => Operand::XInd(lo),
            AddressMode::IndirectY => Operand::IndY(lo),
            AddressMode::Relative => Operand::Rel(BranchTarget::Offset(if lo < 128 { lo as i8 } else { (lo as i16 - 256) as i8 })),
            AddressMode::Zeropage => Operand::Z(lo),
            AddressMode::ZeropageX => Operand::ZX(lo),
            AddressMode::ZeropageY => Operand::ZY(lo),
        }
    }

    /// Number of operand bytes.
    pub fn length(&self) -> (r: u16)
        ensures
            r == operand_len(self.mode_spec()),
    {
        operand_length(self.mode())
    }
}

/// The label a line defines, if any.
pub open spec fn line_label(line: Line) -> Option<String> {
    match line {
        Line::Instruction(il) => il.label,
        Line::Data(dl) => dl.label,
    }
}

/// Bytes that a line occupies, modulo the 64 KiB address space.
pub open spec fn line_size(line: Line) -> u16 {
    match line {
        Line::Instruction(il) => (operand_len(il.operand.mode_spec()) + 1) as u16,
        Line::Data(dl) => (dl.data@.len() % 65536) as u16,
    }
}

/// Address of line `i`: the origin plus the sizes of the lines before it, wrapping past 0xFFFF.
pub open spec fn line_addr(lines: Seq<Line>, org: u16, i: nat) -> u16
    decreases i,
{
    if i == 0 {
        org
    } else {
        ((line_addr(lines, org, (i - 1) as nat) + line_size(lines[i - 1])) % 65536) as u16
    }
}

/// The address of the last of the first `n` lines that defines label `name`.
pub open spec fn label_lookup(lines: Seq<Line>, org: u16, name: Seq<char>, n: nat) -> Option<u16>
    decreases n,
{
    if n == 0 {
        None
    } else if line_label(lines[n - 1]) matches Some(l) && l@ == name {
        Some(line_addr(lines, org, (n - 1) as nat))
    } else {
        label_lookup(lines, org, name, (n - 1) as nat)
    }
}

/// The last entry of a label table for `name`.
pub open spec fn table_lookup(table: Seq<(String, u16)>, name: Seq<char>) -> Option<u16>
    decreases table.len(),
{
    if table.len() == 0 {
        None
    } else if table.last().0@ == name {
        Some(table.last().1)
    } else {
        table_lookup(table.drop_last(), name)
    }
}

/// The signed distance from `from` to `to` in the 16-bit address space.
pub open spec fn rel16(to: u16, from: u16) -> int {
    let d = (to - from) % 65536;
    if d >= 32768 { d - 65536 } else { d }
}

pub open spec fn addr_value(x: Addr, lines: Seq<Line>, org: u16) -> Result<OpValue, Error> {
    match x {
        Addr::Literal(v) => Ok(OpValue::U16(v)),
        Addr::Label(l) => match label_lookup(lines, org, l@, lines.len()) {
            Some(a) => Ok(OpValue::U16(a)),
            None => Err(Error::LabelNotFound),
        },
    }
}

/// The operand value of an instruction whose next instruction is at `next`: literal values
/// as written, labels by their address, branch labels by their signed distance from `next`.
pub open spec fn op_value_spec(next: u16, op: Operand, lines: Seq<Line>, org: u16) -> Result<OpValue, Error> {
    match op {
        Operand::A | Operand::Impl => Ok(OpValue::Absent),
        Operand::Abs(x) | Operand::AbsX(x) | Operand::AbsY(x) | Operand::Ind(x) => addr_value(x, lines, org),
        Operand::Rel(BranchTarget::Offset(x)) => Ok(OpValue::U8(((x + 256) % 256) as u8)),
        Operand::Rel(BranchTarget::Label(l)) => match label_lookup(lines, org, l@, lines.len()) {
            Some(target) => {
                let d = rel16(target, next);
                if -128 <= d < 128 {
                    Ok(OpValue::U8(((d + 256) % 256) as u8))
                } else {
                    Err(Error::RelativeAddressOutOfRange(d as i16))
                }
            },
            None => Err(Error::LabelNotFound),
        },
        Operand::Imm(x) | Operand::XInd(x) | Operand::IndY(x) | Operand::Z(x) | Operand::ZX(x)
        | Operand::ZY(x) => Ok(OpValue::U8(x)),
    }
}

/// The bytes of an operand value, little-endian.
pub open spec fn value_bytes(v: OpValue) -> Seq<u8> {
    match v {
        OpValue::Absent => seq![],
        OpValue::U8(x) => seq![x],
        OpValue::U16(x) => seq![(x % 256) as u8, (x / 256) as u8],
    }
}

/// The bytes that line `i` assembles to.
pub open spec fn encode_line(lines: Seq<Line>, org: u16, i: nat) -> Result<Seq<u8>, Error> {
    match lines[i as int] {
        Line::Instruction(il) => match il.instruction {
            Err(e) => Err(e),
            Ok(op) => match op_value_spec(line_addr(lines, org, i + 1), il.operand, lines, org) {
                Err(e) => Err(e),
                Ok(v) => Ok(seq![op.code] + value_bytes(v)),
            },
        },
        Line::Data(dl) => Ok(dl.data@),
    }
}

/// The first `n` lines assembled in order, or the first error among them.
pub open spec fn assemble_prefix(lines: Seq<Line>, org: u16, n: nat) -> Result<Seq<u8>, Error>
    decreases n,
{
    if n == 0 {
        Ok(seq![])
    } else {
        match assemble_prefix(lines, org, (n - 1) as nat) {
            Err(e) => Err(e),
            Ok(b) => match encode_line(lines, org, (n - 1) as nat) {
                Err(e) => Err(e),
                Ok(x) => Ok(b + x),
            },
        }
    }
}

/// What the opcode lookup gives for `m` in `mode`: an opcode that decodes to them, or the
/// illegal-mode error when there is none.
pub open spec fn looked_up(r: Result<Opcode, Error>, m: Mnemonic, mode: AddressMode) -> bool {
    &&& r is Ok <==> is_legal(m, mode)
    &&& r matches Ok(op) ==> op.mnemonic == m && op.mode == mode && decode_spec(op.code) == Some((m, mode))
    &&& r is Err ==> r == Err::<Opcode, Error>(Error::IllegalAddressMode(m, mode))
}

/// Once a prefix of the program fails to assemble, every longer prefix fails with the same
/// error.
proof fn lemma_prefix_error_sticks(lines: Seq<Line>, org: u16, k: nat, n: nat)
    requires
        k <= n,
        assemble_prefix(lines, org, k) is Err,
    ensures
        assemble_prefix(lines, org, n) == assemble_prefix(lines, org, k),
    decreases n - k,
{
    if k < n {
        lemma_prefix_error_sticks(lines, org, k, (n - 1) as nat);
    }
}

/// The first line of a listing: `* = $` and the origin in four hexadecimal digits.
pub open spec fn listing_header(org: u16) -> Seq<char> {
    seq!['*', ' ', '=', ' ', '$'] + hex_spec(org as int, 4) + seq!['\n']
}

/// Whether every instruction line of the program found an opcode for its mnemonic and mode.
pub open spec fn all_opcodes_found(lines: Seq<Line>) -> bool {
    forall|i: int| 0 <= i < lines.len() ==> !(#[trigger] lines[i] matches Line::Instruction(il) && il.instruction is Err)
}

/// `t` followed by spaces up to `w` characters.
pub open spec fn padded(t: Seq<char>, w: nat) -> Seq<char> {
    t + spaces(if t.len() < w { (w - t.len()) as nat } else { 0 })
}

/// The decimal text of `v`, with a minus sign when negative.
pub open spec fn signed_text(v: int) -> Seq<char> {
    if v < 0 { seq!['-'] + dec_spec((0 - v) as nat) } else { dec_spec(v as nat) }
}

/// An absolute operand as written: `$HHLL`, or the label.
pub open spec fn addr_text(x: Addr) -> Seq<char> {
    match x {
        Addr::Literal(a) => seq!['$'] + hex_spec(a as int, 4),
        Addr::Label(l) => l@,
    }
}

/// `$HH` followed by `suffix`.
pub open spec fn byte_text(x: u8, suffix: Seq<char>) -> Seq<char> {
    seq!['$'] + hex_spec(x as int, 2) + suffix
}

/// An operand in assembler syntax (without the `#` of immediate mode).
pub open spec fn operand_text(op: Operand) -> Seq<char> {
    match op {
        Operand::A => seq!['A'],
        Operand::Abs(x) => addr_text(x),
        Operand::AbsX(x) => addr_text(x) + seq![',', 'X'],
        Operand::AbsY(x) => addr_text(x) + seq![',', 'Y'],
        Operand::Imm(x) => byte_text(x, seq![]),
        Operand::Impl => seq![],
        Operand::Ind(x) => seq!['('] + addr_text(x) + seq![')'],
        Operand::XInd(x) => seq!['('] + byte_text(x, seq![',', 'X', ')']),
        Operand::IndY(x) => seq!['('] + byte_text(x, seq![')', ',', 'Y']),
        Operand::Rel(BranchTarget::Offset(x)) => signed_text(x as int),
        Operand::Rel(BranchTarget::Label(l)) => l@,
        Operand::Z(x) => byte_text(x, seq![]),
        Operand::ZX(x) => byte_text(x, seq![',', 'X']),
        Operand::ZY(x) => byte_text(x, seq![',', 'Y']),
    }
}

/// An assembly error as its variant name and payload.
pub open spec fn error_text(e: Error) -> Seq<char> {
    match e {
        Error::IllegalAddressMode(m, am) => seq!['I', 'l', 'l', 'e', 'g', 'a', 'l', 'A', 'd', 'd', 'r', 'e', 's', 's', 'M', 'o', 'd', 'e', '('] + mnemonic_name(m) + seq![',', ' ']
            + mode_name(am) + seq![')'],
        Error::RelativeAddressOutOfRange(d) => seq!['R', 'e', 'l', 'a', 't', 'i', 'v', 'e', 'A', 'd', 'd', 'r', 'e', 's', 's', 'O', 'u', 't', 'O', 'f', 'R', 'a', 'n', 'g', 'e', '('] + signed_text(d as int) + seq![')'],
        Error::LabelNotFound => seq!['L', 'a', 'b', 'e', 'l', 'N', 'o', 't', 'F', 'o', 'u', 'n', 'd'],
    }
}

/// The operand bytes of a listing line in hexadecimal (low byte first), or `?? ??` when the
/// operand cannot be resolved.
pub open spec fn value_hex(v: Result<OpValue, Error>) -> Seq<char> {
    match v {
        Ok(OpValue::Absent) => seq![],
        Ok(OpValue::U8(x)) => hex_spec(x as int, 2),
        Ok(OpValue::U16(x)) => hex_spec((x % 256) as int, 2) + seq![' '] + hex_spec((x / 256) as int, 2),
        Err(_) => seq!['?', '?', ' ', '?', '?'],
    }
}

/// ` ; ` and the error, when the operand cannot be resolved.
pub open spec fn comment_text(v: Result<OpValue, Error>) -> Seq<char> {
    match v {
        Err(e) => seq![' ', ';', ' '] + error_text(e),
        Ok(_) => seq![],
    }
}

/// A line's label followed by `:`, or nothing.
pub open spec fn label_text(l: Option<String>) -> Seq<char> {
    match l {
        Some(s) => s@ + seq![':'],
        None => seq![],
    }
}

/// The listing line of an instruction at `base` whose opcode is `op` and whose operand value is
/// `v`: address, opcode and operand bytes, label, mnemonic, operand, and the error if any.
pub open spec fn instruction_text(base: u16, op: Opcode, il: InstructionLine, v: Result<OpValue, Error>) -> Seq<char> {
    hex_spec(base as int, 4) + seq![' ', '|', ' '] + hex_spec(op.code as int, 2) + seq![' '] + padded(value_hex(v), 5)
        + seq![' ', '|', ' '] + padded(label_text(il.label), 16) + seq![' '] + mnemonic_name(op.mnemonic) + seq![' ']
        + (if op.mode == AddressMode::Immediate { seq!['#'] } else { seq![] }) + operand_text(il.operand)
        + comment_text(v) + seq!['\n']
}

/// The separator before byte `i` of a dump row: none first, two spaces mid-row, else one.
pub open spec fn dump_sep(i: int) -> Seq<char> {
    if i == 0 { seq![] } else if i == 8 { seq![' ', ' '] } else { seq![' '] }
}

/// The bytes `data[k..j]` of a dump row in hexadecimal.
pub open spec fn hex_row(data: Seq<u8>, k: int, j: int) -> Seq<char>
    decreases j - k,
{
    if j <= k {
        seq![]
    } else {
        hex_row(data, k, j - 1) + dump_sep(j - 1 - k) + hex_spec(data[j - 1] as int, 2)
    }
}

/// The bytes `data[k..j]` of a dump row as characters.
pub open spec fn ascii_row(data: Seq<u8>, k: int, j: int) -> Seq<char>
    decreases j - k,
{
    if j <= k {
        seq![]
    } else {
        ascii_row(data, k, j - 1) + seq![printable_char(data[j - 1])]
    }
}

/// The end of the dump row that starts at `k`: sixteen bytes on, or the end of the data.
pub open spec fn row_end(len: int, k: int) -> int {
    if len - k > 16 { k + 16 } else { len }
}

/// Width of the hexadecimal part of a dump row of `n` bytes.
pub open spec fn row_width(n: int) -> int {
    3 * n - 1 + if n > 8 { 1int } else { 0int }
}

/// One dump row: address, bytes in hexadecimal padded to a fixed width, bytes as characters.
pub open spec fn row_text(a: u16, data: Seq<u8>, k: int, end: int) -> Seq<char> {
    hex_spec(a as int, 4) + seq![' ', ' '] + hex_row(data, k, end) + spaces((49 - row_width(end - k)) as nat)
        + seq![' ', '|'] + ascii_row(data, k, end) + seq!['|', '\n']
}

/// The hex dump of `data` from `k` on, sixteen bytes a row, the row at `k` having address `a`.
pub open spec fn dump_text(a: u16, data: Seq<u8>, k: int) -> Seq<char>
    decreases data.len() - k,
{
    if k >= data.len() || k < 0 {
        seq![]
    } else {
        let end = row_end(data.len() as int, k);
        row_text(a, data, k, end) + dump_text(((a + (end - k)) % 65536) as u16, data, end)
    }
}

/// The listing lines of a data line at `base`: its label, then the hex dump.
pub open spec fn data_text(base: u16, dl: DataLine) -> Seq<char> {
    spaces(18) + padded(label_text(dl.label), 16) + seq!['\n'] + dump_text(base, dl.data@, 0)
}

/// The listing text of line `i`.
pub open spec fn line_text(lines: Seq<Line>, org: u16, i: nat) -> Seq<char> {
    match lines[i as int] {
        Line::Instruction(il) => match il.instruction {
            Ok(op) => instruction_text(line_addr(lines, org, i), op, il,
                op_value_spec(line_addr(lines, org, i + 1), il.operand, lines, org)),
            Err(_) => seq![],
        },
        Line::Data(dl) => data_text(line_addr(lines, org, i), dl),
    }
}

/// The listing text of the first `n` lines.
pub open spec fn lines_text(lines: Seq<Line>, org: u16, n: nat) -> Seq<char>
    decreases n,
{
    if n == 0 {
        seq![]
    } else {
        lines_text(lines, org, (n - 1) as nat) + line_text(lines, org, (n - 1) as nat)
    }
}

/// Appends an absolute operand as written: `$HHLL` or the label.
fn push_addr(f: &mut String, x: &Addr)
    ensures
        final(f)@ == old(f)@ + addr_text(*x),
{
    proof {
        reveal_strlit("$");
    }
    match x {
        Addr::Literal(a) => {
            f.append("$");
            push_hex(f, *a, 4);
        },
        Addr::Label(l) => f.append(l.as_str()),
    }
}

/// Appends `$HH` followed by `suffix`.
fn push_byte_operand(f: &mut String, x: u8, suffix: &str)
    ensures
        final(f)@ == old(f)@ + byte_text(x, suffix@),
{
    proof {
        reveal_strlit("$");
    }
    f.append("$");
    push_hex(f, x as u16, 2);
    f.append(suffix);
}

/// Appends an operand in assembler syntax.
fn push_operand(f: &mut String, op: &Operand)
    ensures
        final(f)@ == old(f)@ + operand_text(*op),
{
    proof {
        reveal_strlit(",X"); reveal_strlit(",Y"); reveal_strlit("A"); reveal_strlit("("); reveal_strlit(")"); reveal_strlit(",X)"); reveal_strlit("),Y"); reveal_strlit("");
    }
    match op {
        Operand::A => f.append("A"),
        Operand::Abs(x) => push_addr(f, x),
        Operand::AbsX(x) => {
            push_addr(f, x);
            f.append(",X");
        },
        Operand::AbsY(x) => {
            push_addr(f, x);
            f.append(",Y");
        },
        Operand::Imm(x) => push_byte_operand(f, *x, ""),
        Operand::Impl => {},
        Operand::Ind(x) => {
            f.append("(");
            push_addr(f, x);
            f.append(")");
        },
        Operand::XInd(x) => {
            f.append("(");
            push_byte_operand(f, *x, ",X)");
        },
        Operand::IndY(x) => {
            f.append("(");
            push_byte_operand(f, *x, "),Y");
        },
        Operand::Rel(BranchTarget::Offset(x)) => push_signed(f, *x as i32),
        Operand::Rel(BranchTarget::Label(l)) => f.append(l.as_str()),
        Operand::Z(x) => push_byte_operand(f, *x, ""),
        Operand::ZX(x) => push_byte_operand(f, *x, ",X"),
        Operand::ZY(x) => push_byte_operand(f, *x, ",Y"),
    }
    assert(f@ =~= old(f)@ + operand_text(*op));
}

/// Appends an assembly error as its variant name and payload.
fn push_error(f: &mut String, e: Error)
    ensures
        final(f)@ == old(f)@ + error_text(e),
{
    proof {
        reveal_strlit("IllegalAddressMode("); reveal_strlit(", "); reveal_strlit(")"); reveal_strlit("RelativeAddressOutOfRange("); reveal_strlit("LabelNotFound");
    }
    match e {
        Error::IllegalAddressMode(m, am) => {
            f.append("IllegalAddressMode(");
            f.append(m.name());
            f.append(", ");
            f.append(am.name());
            f.append(")");
        },
        Error::RelativeAddressOutOfRange(d) => {
            f.append("RelativeAddressOutOfRange(");
            push_signed(f, d as i32);
            f.append(")");
        },
        Error::LabelNotFound => f.append("LabelNotFound"),
    }
    assert(f@ =~= old(f)@ + error_text(e));
}

/// Appends one dump row: the bytes `data[k..end]` at address `a`.
fn push_row(f: &mut String, a: u16, data: &Vec<u8>, k: usize, end: usize)
    requires
        k < end <= data@.len(),
        end - k <= 16,
    ensures
        final(f)@ == old(f)@ + row_text(a, data@, k as int, end as int),
{
    proof {
        reveal_strlit("  "); reveal_strlit(" "); reveal_strlit(" |"); reveal_strlit("|\n");
    }
    push_hex(f, a, 4);
    f.append("  ");
    let ghost row_start = f@;
    let mut j = k;
    while j < end
        invariant
            k <= j <= end,
            end <= data@.len(),
            f@ == row_start + hex_row(data@, k as int, j as int),
        decreases end - j,
    {
        proof {
            reveal_strlit(" "); reveal_strlit("  ");
        }
        if j > k {
            if j - k == 8 {
                f.append("  ");
            } else {
                f.append(" ");
            }
        }
        push_hex(f, data[j] as u16, 2);
        assert(f@ =~= row_start + hex_row(data@, k as int, j + 1));
        j += 1;
    }
    let n = end - k;
    let width = 3 * n - 1 + if n > 8 { 1 } else { 0 };
    push_spaces(f, 49 - width);
    f.append(" |");
    let ghost ascii_start = f@;
    let mut j = k;
    while j < end
        invariant
            k <= j <= end,
            end <= data@.len(),
            f@ == ascii_start + ascii_row(data@, k as int, j as int),
        decreases end - j,
    {
        f.append(printable(data[j]));
        assert(f@ =~= ascii_start + ascii_row(data@, k as int, j + 1));
        j += 1;
    }
    f.append("|\n");
    assert(f@ =~= old(f)@ + row_text(a, data@, k as int, end as int));
}

/// Appends a hex dump of `data`, sixteen bytes a row, each row with its address and the bytes
/// as printable characters.
fn push_dump(f: &mut String, base: u16, data: &Vec<u8>)
    ensures
        final(f)@ == old(f)@ + dump_text(base, data@, 0),
{
    let mut k: usize = 0;
    let mut a = base;
    while k < data.len()
        invariant
            k <= data@.len(),
            old(f)@ + dump_text(base, data@, 0) == f@ + dump_text(a, data@, k as int),
        decreases data@.len() - k,
    {
        let ghost start = f@;
        let end = if data.len() - k > 16 { k + 16 } else { data.len() };
        push_row(f, a, data, k, end);
        let ghost row = row_text(a, data@, k as int, end as int);
        let ghost rest = dump_text(((a + (end - k)) % 65536) as u16, data@, end as int);
        assert(dump_text(a, data@, k as int) == row + rest);
        assert(start + (row + rest) =~= f@ + rest);
        a = a.wrapping_add((end - k) as u16);
        k = end;
    }
}

/// The operand bytes of a listing line, or `?? ??`.
fn value_hex_string(v: &Result<OpValue, Error>) -> (r: String)
    ensures
        r@ == value_hex(*v),
{
    proof {
        reveal_strlit(" ");
        reveal_strlit("?? ??");
    }
    let mut ophex = String::new();
    match v {
        Ok(OpValue::Absent) => {},
        Ok(OpValue::U8(x)) => push_hex(&mut ophex, *x as u16, 2),
        Ok(OpValue::U16(x)) => {
            push_hex(&mut ophex, *x % 256, 2);
            ophex.append(" ");
            push_hex(&mut ophex, *x / 256, 2);
        },
        Err(_) => ophex.append("?? ??"),
    }
    assert(ophex@ =~= value_hex(*v));
    ophex
}

/// A label followed by `:`, or nothing.
fn label_string(l: &Option<String>) -> (r: String)
    ensures
        r@ == label_text(*l),
{
    proof {
        reveal_strlit(":");
    }
    let mut label = String::new();
    match l {
        Some(l) => {
            label.append(l.as_str());
            label.append(":");
        },
        None => {},
    }
    assert(label@ =~= label_text(*l));
    label
}

/// Appends ` ; ` and the error when the operand could not be resolved.
fn push_comment(f: &mut String, v: &Result<OpValue, Error>)
    ensures
        final(f)@ == old(f)@ + comment_text(*v),
{
    proof {
        reveal_strlit(" ; ");
    }
    match v {
        Err(e) => {
            f.append(" ; ");
            push_error(f, *e);
        },
        Ok(_) => {},
    }
    assert(f@ =~= old(f)@ + comment_text(*v));
}

impl Line {
    /// The label this line defines.
    pub fn label(&self) -> (r: &Option<String>)
        ensures
            *r == line_label(*self),
    {
        match self {
            Line::Instruction(line) => &line.label,
            Line::Data(line) => &line.label,
        }
    }

    /// Bytes this line occupies.
    pub fn size(&self) -> (r: u16)
        ensures
            r == line_size(*self),
    {
        match self {
            Line::Instruction(line) => line.operand.length() + 1,
            Line::Data(line) => (line.data.len() % 65536) as u16,
        }
    }
}

pub struct Assembler {
    pub org: u16,
    lines: Vec<Line>,
    next_label: Option<String>,
    opcode_map: OpcodeByMnemonicAndAddressMode,
}

impl Assembler {
    /// The program's lines, in order.
    pub closed spec fn lines(&self) -> Seq<Line> {
        self.lines@
    }

    /// The address the program is assembled for.
    pub closed spec fn origin(&self) -> u16 {
        self.org
    }

    /// The label that the next line will define.
    pub closed spec fn pending_label(&self) -> Option<String> {
        self.next_label
    }

    pub closed spec fn wf(&self) -> bool {
        self.opcode_map.wf()
    }

    /// `next` is this assembler with an instruction line for `m` and `op` appended, which
    /// takes the pending label.
    pub open spec fn pushes_instruction(&self, next: Self, m: Mnemonic, op: Operand) -> bool {
        &&& next.origin() == self.origin()
        &&& next.pending_label() is None
        &&& next.lines().len() == self.lines().len() + 1
        &&& next.lines().drop_last() == self.lines()
        &&& next.lines().last() matches Line::Instruction(il) && il.label == self.pending_label()
            && il.operand == op && looked_up(il.instruction, m, op.mode_spec())
    }

    pub fn new() -> (r: Assembler)
        ensures
            r.wf(),
            r.origin() == 0,
            r.lines().len() == 0,
            r.pending_label() is None,
    {
        Self {
            org: 0x0000,
            lines: Vec::new(),
            next_label: None,
            opcode_map: OpcodeByMnemonicAndAddressMode::build(),
        }
    }

    /// Sets the address that the program is assembled for.
    pub fn org(&mut self, addr: u16) -> (r: &mut Self)
        requires
            old(self).wf(),
        ensures
            *final(self) == *final(r),
            r.wf(),
            r.origin() == addr,
            r.lines() == old(self).lines(),
            r.pending_label() == old(self).pending_label(),
    {
        self.org = addr;
        self
    }

    /// Names the address of the next line.
    pub fn label(&mut self, l: &str) -> (r: &mut Self)
        requires
            old(self).wf(),
        ensures
            *final(self) == *final(r),
            r.wf(),
            r.origin() == old(self).origin(),
            r.lines() == old(self).lines(),
            r.pending_label() matches Some(s) && s@ == l@,
    {
        self.next_label = Some(String::from_str(l));
        self
    }

    /// Appends raw data bytes.
    pub fn data(&mut self, d: Vec<u8>) -> (r: &mut Self)
        requires
            old(self).wf(),
        ensures
            *final(self) == *final(r),
            r.wf(),
            r.origin() == old(self).origin(),
            r.pending_label() is None,
            r.lines() == old(self).lines().push(Line::Data(DataLine { label: old(self).pending_label(), data: d })),
    {
        let label = self.next_label.take();
        self.lines.push(Line::Data(DataLine { label, data: d }));
        self
    }

    pub fn adc(&mut self, op: Operand) -> (r: &mut Self)
        requires
            old(self).wf(),
        ensures
            *final(self) == *final(r),
            r.wf(),
            old(self).pushes_instruction(*r, Mnemonic::Adc, op),
    {
        self.push_instruction(Mnemonic::Adc, op)
    }

    pub fn and(&mut self, op: Operand) -> (r: &mut Self)
        requires
            old(self).wf(),
        ensures
            *final(self) == *final(r),
            r.wf(),
            old(self).pushes_instruction(*r, Mnemonic::And, op),
    {
        self.push_instruction(Mnemonic::And, op)
    }

    pub fn asl(&mut self, op: Operand) -> (r: &mut Self)
        requires
            old(self).wf(),
        ensures
            *final(self) == *final(r),
            r.wf(),
            old(self).pushes_instruction(*r, Mnemonic::Asl, op),
    {
        self.push_instruction(Mnemonic::Asl, op)
    }

    pub fn bcc(&mut self, op: Operand) -> (r: &mut Self)
        requires
            old(self).wf(),
        ensures
            *final(self) == *final(r),
            r.wf(),
            old(self).pushes_instruction(*r, Mnemonic::Bcc, op),
    {
        self.push_instruction(Mnemonic::Bcc, op)
    }

    pub fn bcs(&mut self, op: Operand) -> (r: &mut Self)
        requires
            old(self).wf(),
        ensures
            *final(self) == *final(r),
            r.wf(),
            old(self).pushes_instruction(*r, Mnemonic::Bcs, op),
    {
        self.push_instruction(Mnemonic::Bcs, op)
    }

    pub fn beq(&mut self, op: Operand) -> (r: &mut Self)
        requires
            old(self).wf(),
        ensures
            *final(self) == *final(r),
            r.wf(),
            old(self).pushes_instruction(*r, Mnemonic::Beq, op),
    {
        self.push_instruction(Mnemonic::Beq, op)
    }

    pub fn bit(&mut self, op: Operand) -> (r: &mut Self)
        requires
            old(self).wf(),
        ensures
            *final(self) == *final(r),
            r.wf(),
            old(self).pushes_instruction(*r, Mnemonic::Bit, op),
    {
        self.push_instruction(Mnemonic::Bit, op)
    }

    pub fn bmi(&mut self, op: Operand) -> (r: &mut Self)
        requires
            old(self).wf(),
        ensures
            *final(self) == *final(r),
            r.wf(),
            old(self).pushes_instruction(*r, Mnemonic::Bmi, op),
    {
        self.push_instruction(Mnemonic::Bmi, op)
    }

    pub fn bne(&mut self, op: Operand) -> (r: &mut Self)
        requires
            old(self).wf(),
        ensures
            *final(self) == *final(r),
            r.wf(),
            old(self).pushes_instruction(*r, Mnemonic::Bne, op),
    {
        self.push_instruction(Mnemonic::Bne, op)
    }

    pub fn bpl(&mut self, op: Operand) -> (r: &mut Self)
        requires
            old(self).wf(),
        ensures
            *final(self) == *final(r),
            r.wf(),
            old(self).pushes_instruction(*r, Mnemonic::Bpl, op),
    {
        self.push_instruction(Mnemonic::Bpl, op)
    }

    pub fn brk(&mut self) -> (r: &mut Self)
        requires
            old(self).wf(),
        ensures
            *final(self) == *final(r),
            r.wf(),
            old(self).pushes_instruction(*r, Mnemonic::Brk, Operand::Impl),
    {
        self.push_instruction(Mnemonic::Brk, Operand::Impl)
    }

    pub fn bvc(&mut self, op: Operand) -> (r: &mut Self)
        requires
            old(self).wf(),
        ensures
            *final(self) == *final(r),
            r.wf(),
            old(self).pushes_instruction(*r, Mnemonic::Bvc, op),
    {
        self.push_instruction(Mnemonic::Bvc, op)
    }

    pub fn bvs(&mut self, op: Operand) -> (r: &mut Self)
        requires
            old(self).wf(),
        ensures
            *final(self) == *final(r),
            r.wf(),
            old(self).pushes_instruction(*r, Mnemonic::Bvs, op),
    {
        self.push_instruction(Mnemonic::Bvs, op)
    }

    pub fn clc(&mut self) -> (r: &mut Self)
        requires
            old(self).wf(),
        ensures
            *final(self) == *final(r),
            r.wf(),
            old(self).pushes_instruction(*r, Mnemonic::Clc, Operand::Impl),
    {
        self.push_instruction(Mnemonic::Clc, Operand::Impl)
    }

    pub fn cld(&mut self) -> (r: &mut Self)
        requires
            old(self).wf(),
        ensures
            *final(self) == *final(r),
            r.wf(),
            old(self).pushes_instruction(*r, Mnemonic::Cld, Operand::Impl),
    {
        self.push_instruction(Mnemonic::Cld, Operand::Impl)
    }

    pub fn cli(&mut self) -> (r: &mut Self)
        requires
            old(self).wf(),
        ensures
            *final(self) == *final(r),
            r.wf(),
            old(self).pushes_instruction(*r, Mnemonic::Cli, Operand::Impl),
    {
        self.push_instruction(Mnemonic::Cli, Operand::Impl)
    }

    pub fn clv(&mut self) -> (r: &mut Self)
        requires
            old(self).wf(),
        ensures
            *final(self) == *final(r),
            r.wf(),
            old(self).pushes_instruction(*r, Mnemonic::Clv, Operand::Impl),
    {
        self.push_instruction(Mnemonic::Clv, Operand::Impl)
    }

    pub fn cmp(&mut self, op: Operand) -> (r: &mut Self)
        requires
            old(self).wf(),
        ensures
            *final(self) == *final(r),
            r.wf(),
            old(self).pushes_instruction(*r, Mnemonic::Cmp, op),
    {
        self.push_instruction(Mnemonic::Cmp, op)
    }

    pub fn cpx(&mut self, op: Operand) -> (r: &mut Self)
        requires
            old(self).wf(),
        ensures
            *final(self) == *final(r),
            r.wf(),
            old(self).pushes_instruction(*r, Mnemonic::Cpx, op),
    {
        self.push_instruction(Mnemonic::Cpx, op)
    }

    pub fn cpy(&mut self, op: Operand) -> (r: &mut Self)
        requires
            old(self).wf(),
        ensures
            *final(self) == *final(r),
            r.wf(),
            old(self).pushes_instruction(*r, Mnemonic::Cpy, op),
    {
        self.push_instruction(Mnemonic::Cpy, op)
    }

    pub fn dec(&mut self, op: Operand) -> (r: &mut Self)
        requires
            old(self).wf(),
        ensures
            *final(self) == *final(r),
            r.wf(),
            old(self).pushes_instruction(*r, Mnemonic::Dec, op),
    {
        self.push_instruction(Mnemonic::Dec, op)
    }

    pub fn dex(&mut self) -> (r: &mut Self)
        requires
            old(self).wf(),
        ensures
            *final(self) == *final(r),
            r.wf(),
            old(self).pushes_instruction(*r, Mnemonic::Dex, Operand::Impl),
    {
        self.push_instruction(Mnemonic::Dex, Operand::Impl)
    }

    pub fn dey(&mut self) -> (r: &mut Self)
        requires
            old(self).wf(),
        ensures
            *final(self) == *final(r),
            r.wf(),
            old(self).pushes_instruction(*r, Mnemonic::Dey, Operand::Impl),
    {
        self.push_instruction(Mnemonic::Dey, Operand::Impl)
    }

    pub fn eor(&mut self, op: Operand) -> (r: &mut Self)
        requires
            old(self).wf(),
        ensures
            *final(self) == *final(r),
            r.wf(),
            old(self).pushes_instruction(*r, Mnemonic::Eor, op),
    {
        self.push_instruction(Mnemonic::Eor, op)
    }

    pub fn inc(&mut self, op: Operand) -> (r: &mut Self)
        requires
            old(self).wf(),
        ensures
            *final(self) == *final(r),
            r.wf(),
            old(self).pushes_instruction(*r, Mnemonic::Inc, op),
    {
        self.push_instruction(Mnemonic::Inc, op)
    }

    pub fn inx(&mut self) -> (r: &mut Self)
        requires
            old(self).wf(),
        ensures
            *final(self) == *final(r),
            r.wf(),
            old(self).pushes_instruction(*r, Mnemonic::Inx, Operand::Impl),
    {
        self.push_instruction(Mnemonic::Inx, Operand::Impl)
    }

    pub fn iny(&mut self) -> (r: &mut Self)
        requires
            old(self).wf(),
        ensures
            *final(self) == *final(r),
            r.wf(),
            old(self).pushes_instruction(*r, Mnemonic::Iny, Operand::Impl),
    {
        self.push_instruction(Mnemonic::Iny, Operand::Impl)
    }

    pub fn jmp(&mut self, op: Operand) -> (r: &mut Self)
        requires
            old(self).wf(),
        ensures
            *final(self) == *final(r),
            r.wf(),
            old(self).pushes_instruction(*r, Mnemonic::Jmp, op),
    {
        self.push_instruction(Mnemonic::Jmp, op)
    }

    pub fn jsr(&mut self, op: Operand) -> (r: &mut Self)
        requires
            old(self).wf(),
        ensures
            *final(self) == *final(r),
            r.wf(),
            old(self).pushes_instruction(*r, Mnemonic::Jsr, op),
    {
        self.push_instruction(Mnemonic::Jsr, op)
    }

    pub fn lda(&mut self, op: Operand) -> (r: &mut Self)
        requires
            old(self).wf(),
        ensures
            *final(self) == *final(r),
            r.wf(),
            old(self).pushes_instruction(*r, Mnemonic::Lda, op),
    {
        self.push_instruction(Mnemonic::Lda, op)
    }

    pub fn ldx(&mut self, op: Operand) -> (r: &mut Self)
        requires
            old(self).wf(),
        ensures
            *final(self) == *final(r),
            r.wf(),
            old(self).pushes_instruction(*r, Mnemonic::Ldx, op),
    {
        self.push_instruction(Mnemonic::Ldx, op)
    }

    pub fn ldy(&mut self, op: Operand) -> (r: &mut Self)
        requires
            old(self).wf(),
        ensures
            *final(self) == *final(r),
            r.wf(),
            old(self).pushes_instruction(*r, Mnemonic::Ldy, op),
    {
        self.push_instruction(Mnemonic::Ldy, op)
    }

    pub fn lsr(&mut self, op: Operand) -> (r: &mut Self)
        requires
            old(self).wf(),
        ensures
            *final(self) == *final(r),
            r.wf(),
            old(self).pushes_instruction(*r, Mnemonic::Lsr, op),
    {
        self.push_instruction(Mnemonic::Lsr, op)
    }

    pub fn nop(&mut self) -> (r: &mut Self)
        requires
            old(self).wf(),
        ensures
            *final(self) == *final(r),
            r.wf(),
            old(self).pushes_instruction(*r, Mnemonic::Nop, Operand::Impl),
    {
        self.push_instruction(Mnemonic::Nop, Operand::Impl)
    }

    pub fn ora(&mut self, op: Operand) -> (r: &mut Self)
        requires
            old(self).wf(),
        ensures
            *final(self) == *final(r),
            r.wf(),
            old(self).pushes_instruction(*r, Mnemonic::Ora, op),
    {
        self.push_instruction(Mnemonic::Ora, op)
    }

    pub fn pha(&mut self) -> (r: &mut Self)
        requires
            old(self).wf(),
        ensures
            *final(self) == *final(r),
            r.wf(),
            old(self).pushes_instruction(*r, Mnemonic::Pha, Operand::Impl),
    {
        self.push_instruction(Mnemonic::Pha, Operand::Impl)
    }

    pub fn php(&mut self) -> (r: &mut Self)
        requires
            old(self).wf(),
        ensures
            *final(self) == *final(r),
            r.wf(),
            old(self).pushes_instruction(*r, Mnemonic::Php, Operand::Impl),
    {
        self.push_instruction(Mnemonic::Php, Operand::Impl)
    }

    pub fn pla(&mut self) -> (r: &mut Self)
        requires
            old(self).wf(),
        ensures
            *final(self) == *final(r),
            r.wf(),
            old(self).pushes_instruction(*r, Mnemonic::Pla, Operand::Impl),
    {
        self.push_instruction(Mnemonic::Pla, Operand::Impl)
    }

    pub fn plp(&mut self) -> (r: &mut Self)
        requires
            old(self).wf(),
        ensures
            *final(self) == *final(r),
            r.wf(),
            old(self).pushes_instruction(*r, Mnemonic::Plp, Operand::Impl),
    {
        self.push_instruction(Mnemonic::Plp, Operand::Impl)
    }

    pub fn rol(&mut self, op: Operand) -> (r: &mut Self)
        requires
            old(self).wf(),
        ensures
            *final(self) == *final(r),
            r.wf(),
            old(self).pushes_instruction(*r, Mnemonic::Rol, op),
    {
        self.push_instruction(Mnemonic::Rol, op)
    }

    pub fn ror(&mut self, op: Operand) -> (r: &mut Self)
        requires
            old(self).wf(),
        ensures
            *final(self) == *final(r),
            r.wf(),
            old(self).pushes_instruction(*r, Mnemonic::Ror, op),
    {
        self.push_instruction(Mnemonic::Ror, op)
    }

    pub fn rti(&mut self) -> (r: &mut Self)
        requires
            old(self).wf(),
        ensures
            *final(self) == *final(r),
            r.wf(),
            old(self).pushes_instruction(*r, Mnemonic::Rti, Operand::Impl),
    {
        self.push_instruction(Mnemonic::Rti, Operand::Impl)
    }

    pub fn rts(&mut self) -> (r: &mut Self)
        requires
            old(self).wf(),
        ensures
            *final(self) == *final(r),
            r.wf(),
            old(self).pushes_instruction(*r, Mnemonic::Rts, Operand::Impl),
    {
        self.push_instruction(Mnemonic::Rts, Operand::Impl)
    }

    pub fn sbc(&mut self, op: Operand) -> (r: &mut Self)
        requires
            old(self).wf(),
        ensures
            *final(self) == *final(r),
            r.wf(),
            old(self).pushes_instruction(*r, Mnemonic::Sbc, op),
    {
        self.push_instruction(Mnemonic::Sbc, op)
    }

    pub fn sec(&mut self) -> (r: &mut Self)
        requires
            old(self).wf(),
        ensures
            *final(self) == *final(r),
            r.wf(),
            old(self).pushes_instruction(*r, Mnemonic::Sec, Operand::Impl),
    {
        self.push_instruction(Mnemonic::Sec, Operand::Impl)
    }

    pub fn sed(&mut self) -> (r: &mut Self)
        requires
            old(self).wf(),
        ensures
            *final(self) == *final(r),
            r.wf(),
            old(self).pushes_instruction(*r, Mnemonic::Sed, Operand::Impl),
    {
        self.push_instruction(Mnemonic::Sed, Operand::Impl)
    }

    pub fn sei(&mut self) -> (r: &mut Self)
        requires
            old(self).wf(),
        ensures
            *final(self) == *final(r),
            r.wf(),
            old(self).pushes_instruction(*r, Mnemonic::Sei, Operand::Impl),
    {
        self.push_instruction(Mnemonic::Sei, Operand::Impl)
    }

    pub fn sta(&mut self, op: Operand) -> (r: &mut Self)
        requires
            old(self).wf(),
        ensures
            *final(self) == *final(r),
            r.wf(),
            old(self).pushes_instruction(*r, Mnemonic::Sta, op),
    {
        self.push_instruction(Mnemonic::Sta, op)
    }

    pub fn stx(&mut self, op: Operand) -> (r: &mut Self)
        requires
            old(self).wf(),
        ensures
            *final(self) == *final(r),
            r.wf(),
            old(self).pushes_instruction(*r, Mnemonic::Stx, op),
    {
        self.push_instruction(Mnemonic::Stx, op)
    }

    pub fn sty(&mut self, op: Operand) -> (r: &mut Self)
        requires
            old(self).wf(),
        ensures
            *final(self) == *final(r),
            r.wf(),
            old(self).pushes_instruction(*r, Mnemonic::Sty, op),
    {
        self.push_instruction(Mnemonic::Sty, op)
    }

    pub fn tax(&mut self) -> (r: &mut Self)
        requires
            old(self).wf(),
        ensures
            *final(self) == *final(r),
            r.wf(),
            old(self).pushes_instruction(*r, Mnemonic::Tax, Operand::Impl),
    {
        self.push_instruction(Mnemonic::Tax, Operand::Impl)
    }

    pub fn tay(&mut self) -> (r: &mut Self)
        requires
            old(self).wf(),
        ensures
            *final(self) == *final(r),
            r.wf(),
            old(self).pushes_instruction(*r, Mnemonic::Tay, Operand::Impl),
    {
        self.push_instruction(Mnemonic::Tay, Operand::Impl)
    }

    pub fn tsx(&mut self) -> (r: &mut Self)
        requires
            old(self).wf(),
        ensures
            *final(self) == *final(r),
            r.wf(),
            old(self).pushes_instruction(*r, Mnemonic::Tsx, Operand::Impl),
    {
        self.push_instruction(Mnemonic::Tsx, Operand::Impl)
    }

    pub fn txa(&mut self) -> (r: &mut Self)
        requires
            old(self).wf(),
        ensures
            *final(self) == *final(r),
            r.wf(),
            old(self).pushes_instruction(*r, Mnemonic::Txa, Operand::Impl),
    {
        self.push_instruction(Mnemonic::Txa, Operand::Impl)
    }

    pub fn txs(&mut self) -> (r: &mut Self)
        requires
            old(self).wf(),
        ensures
            *final(self) == *final(r),
            r.wf(),
            old(self).pushes_instruction(*r, Mnemonic::Txs, Operand::Impl),
    {
        self.push_instruction(Mnemonic::Txs, Operand::Impl)
    }

    pub fn tya(&mut self) -> (r: &mut Self)
        requires
            old(self).wf(),
        ensures
            *final(self) == *final(r),
            r.wf(),
            old(self).pushes_instruction(*r, Mnemonic::Tya, Operand::Impl),
    {
        self.push_instruction(Mnemonic::Tya, Operand::Impl)
    }

    fn push_instruction(&mut self, mnemonic: Mnemonic, op: Operand) -> (r: &mut Self)
        requires
            old(self).wf(),
        ensures
            *final(self) == *final(r),
            r.wf(),
            old(self).pushes_instruction(*r, mnemonic, op),
    {
        let mode = op.mode();
        let instruction = match self.opcode_map.get(mnemonic, mode) {
            Ok(opcode) => Ok(opcode),
            Err(e) => Err(Error::from(e)),
        };
        let label = self.next_label.take();
        self.lines.push(Line::Instruction(InstructionLine { label, instruction, operand: op }));
        proof {
            assert(self.lines@.drop_last() == old(self).lines@);
        }
        self
    }

    /// A table of each label and the address of its line, in the order of the lines.
    fn build_label_table(&self) -> (r: Vec<(String, u16)>)
        ensures
            forall|name: Seq<char>| #[trigger] table_lookup(r@, name) == label_lookup(self.lines(), self.org, name, self.lines().len()),
    {
        let mut labtab: Vec<(String, u16)> = Vec::new();
        let mut addr = self.org;
        let mut i: usize = 0;
        while i < self.lines.len()
            invariant
                i <= self.lines@.len(),
                addr == line_addr(self.lines@, self.org, i as nat),
                forall|name: Seq<char>| #[trigger] table_lookup(labtab@, name) == label_lookup(self.lines@, self.org, name, i as nat),
            decreases self.lines@.len() - i,
        {
            let line = &self.lines[i];
            let ghost prev = labtab@;
            match line.label() {
                Some(l) => {
                    labtab.push((l.clone(), addr));
                    assert(labtab@.drop_last() == prev);
                },
                None => {},
            }
            assert forall|name: Seq<char>| #[trigger] table_lookup(labtab@, name) == label_lookup(self.lines@, self.org, name, (i + 1) as nat) by {
                assert(table_lookup(prev, name) == label_lookup(self.lines@, self.org, name, i as nat));
                match line_label(self.lines@[i as int]) {
                    Some(l) => {
                        assert(labtab@.drop_last() == prev);
                        assert(labtab@.last() == (l, addr));
                        assert(table_lookup(labtab@.drop_last(), name) == table_lookup(prev, name));
                    },
                    None => {
                        assert(labtab@ == prev);
                    },
                }
            }
            addr = addr.wrapping_add(line.size());
            i += 1;
        }
        labtab
    }

    /// The address that the table gives `name`, the last entry for it winning.
    fn lookup(labtab: &Vec<(String, u16)>, name: &String) -> (r: Option<u16>)
        ensures
            r == table_lookup(labtab@, name@),
    {
        let mut i: usize = labtab.len();
        assert(labtab@.subrange(0, labtab@.len() as int) =~= labtab@);
        while i > 0
            invariant
                i <= labtab@.len(),
                table_lookup(labtab@, name@) == table_lookup(labtab@.subrange(0, i as int), name@),
            decreases i,
        {
            let ghost t = labtab@.subrange(0, i as int);
            assert(t.last() == labtab@[i - 1]);
            if labtab[i - 1].0 == *name {
                return Some(labtab[i - 1].1);
            }
            assert(t.drop_last() =~= labtab@.subrange(0, i - 1));
            i -= 1;
        }
        assert(labtab@.subrange(0, 0) =~= Seq::<(String, u16)>::empty());
        None
    }

    fn addr_value(x: &Addr, labtab: &Vec<(String, u16)>) -> (r: Result<OpValue, Error>)
        ensures
            r == (match *x {
                Addr::Literal(v) => Ok(OpValue::U16(v)),
                Addr::Label(l) => match table_lookup(labtab@, l@) {
                    Some(a) => Ok(OpValue::U16(a)),
                    None => Err(Error::LabelNotFound),
                },
            }),
    {
        match x {
            Addr::Literal(v) => Ok(OpValue::U16(*v)),
            Addr::Label(l) => match Self::lookup(labtab, l) {
                Some(a) => Ok(OpValue::U16(a)),
                None => Err(Error::LabelNotFound),
            },
        }
    }

    /// The value of operand `op` of an instruction followed by the address `addr`.
    fn op_value(&self, addr: u16, op: &Operand, labtab: &Vec<(String, u16)>) -> (r: Result<OpValue, Error>)
        requires
            forall|name: Seq<char>| #[trigger] table_lookup(labtab@, name) == label_lookup(self.lines(), self.org, name, self.lines().len()),
        ensures
            r == op_value_spec(addr, *op, self.lines(), self.org),
    {
        match op {
            Operand::A | Operand::Impl => Ok(OpValue::Absent),
            Operand::Abs(x) | Operand::AbsX(x) | Operand::AbsY(x) | Operand::Ind(x) => Self::addr_value(x, labtab),
            Operand::Rel(BranchTarget::Offset(x)) => {
                if *x >= 0 {
                    Ok(OpValue::U8(*x as u8))
                } else {
                    Ok(OpValue::U8((*x as i16 + 256) as u8))
                }
            },
            Operand::Rel(BranchTarget::Label(l)) => match Self::lookup(labtab, l) {
                Some(target) => {
                    let d = target.wrapping_sub(addr);
                    assert(d == (target - addr) % 65536);
                    if d < 128 {
                        Ok(OpValue::U8(d as u8))
                    } else if d >= 0xFF80 {
                        Ok(OpValue::U8((d - 0xFF00) as u8))
                    } else if d < 0x8000 {
                        Err(Error::RelativeAddressOutOfRange(d as i16))
                    } else {
                        Err(Error::RelativeAddressOutOfRange((d as i32 - 65536) as i16))
                    }
                },
                None => Err(Error::LabelNotFound),
            },
            Operand::Imm(x) | Operand::XInd(x) | Operand::IndY(x) | Operand::Z(x) | Operand::ZX(x)
            | Operand::ZY(x) => Ok(OpValue::U8(*x)),
        }
    }

    /// The listing line of instruction line `il` at `base`, whose opcode is `op` and whose next
    /// line is at `next`.
    #[verifier::rlimit(100)]
    fn instruction_line(&self, base: u16, next: u16, il: &InstructionLine, op: Opcode, labtab: &Vec<(String, u16)>) -> (line: String)
        requires
            forall|name: Seq<char>| #[trigger] table_lookup(labtab@, name) == label_lookup(self.lines(), self.org, name, self.lines().len()),
        ensures
            line@ == instruction_text(base, op, *il, op_value_spec(next, il.operand, self.lines(), self.org)),
    {
        proof {
            reveal_strlit(" | ");
            reveal_strlit(" ");
            reveal_strlit("#");
            reveal_strlit("\n");
        }
        let v = self.op_value(next, &il.operand, labtab);
        let ophex = value_hex_string(&v);
        let label = label_string(&il.label);
        let mut line = String::new();
        push_hex(&mut line, base, 4);
        line.append(" | ");
        push_hex(&mut line, op.code as u16, 2);
        line.append(" ");
        push_padded(&mut line, ophex.as_str(), 5);
        line.append(" | ");
        push_padded(&mut line, label.as_str(), 16);
        line.append(" ");
        line.append(op.mnemonic.name());
        line.append(" ");
        if op.mode == AddressMode::Immediate {
            line.append("#");
        }
        push_operand(&mut line, &il.operand);
        push_comment(&mut line, &v);
        line.append("\n");
        assert(line@ =~= instruction_text(base, op, *il, v));
        line
    }

    /// The listing lines of data line `dl` at `base`.
    fn data_line(base: u16, dl: &DataLine) -> (line: String)
        ensures
            line@ == data_text(base, *dl),
    {
        proof {
            reveal_strlit(":");
            reveal_strlit("\n");
        }
        let label = label_string(&dl.label);
        let mut line = String::new();
        push_spaces(&mut line, 18);
        push_padded(&mut line, label.as_str(), 16);
        line.append("\n");
        push_dump(&mut line, base, &dl.data);
        assert(line@ =~= data_text(base, *dl));
        line
    }

    /// A listing of the program: the origin, then a line for each instruction with its address,
    /// bytes, label, mnemonic and operand (with `?? ??` and the error when its operand cannot be
    /// resolved), and a hex dump of each data line. It fails on the first instruction that found
    /// no opcode.
    pub fn listing(&self) -> (r: Result<String, Error>)
        requires
            self.wf(),
        ensures
            r is Ok <==> all_opcodes_found(self.lines()),
            r matches Ok(t) ==> t@ == listing_header(self.origin()) + lines_text(self.lines(), self.origin(), self.lines().len()),
            r matches Err(e) ==> exists|i: int| 0 <= i < self.lines().len()
                && (#[trigger] self.lines()[i] matches Line::Instruction(il) && il.instruction == Err::<Opcode, Error>(e)),
    {
        let mut f = String::new();
        let labtab = self.build_label_table();
        f.append("* = $");
        push_hex(&mut f, self.org, 4);
        f.append("\n");
        proof {
            reveal_strlit("* = $");
            reveal_strlit("\n");
        }
        assert(f@ =~= listing_header(self.org) + lines_text(self.lines@, self.org, 0));
        let mut addr = self.org;
        let mut i: usize = 0;
        while i < self.lines.len()
            invariant
                i <= self.lines@.len(),
                addr == line_addr(self.lines@, self.org, i as nat),
                f@ == listing_header(self.org) + lines_text(self.lines@, self.org, i as nat),
                forall|name: Seq<char>| #[trigger] table_lookup(labtab@, name) == label_lookup(self.lines(), self.org, name, self.lines().len()),
                forall|j: int| 0 <= j < i ==> !(#[trigger] self.lines@[j] matches Line::Instruction(il) && il.instruction is Err),
            decreases self.lines@.len() - i,
        {
            let entry = &self.lines[i];
            let base_addr = addr;
            addr = addr.wrapping_add(entry.size());
            let line = match entry {
                Line::Instruction(il) => {
                    let instruction = match il.instruction {
                        Ok(op) => op,
                        Err(e) => {
                            assert(self.lines@[i as int] matches Line::Instruction(il) && il.instruction == Err::<Opcode, Error>(e));
                            return Err(e);
                        },
                    };
                    self.instruction_line(base_addr, addr, il, instruction, &labtab)
                },
                Line::Data(dl) => Self::data_line(base_addr, dl),
            };
            assert(line@ == line_text(self.lines@, self.org, i as nat));
            let ghost before = f@;
            f.append(line.as_str());
            assert(f@ =~= listing_header(self.org) + lines_text(self.lines@, self.org, (i + 1) as nat));
            i += 1;
        }
        Ok(f)
    }

    /// The program as bytes: each instruction's opcode followed by its operand, and each data
    /// line's bytes, or the first error among the lines.
    #[verifier::rlimit(100)]
    pub fn assemble(&self) -> (r: Result<Vec<u8>, Error>)
        requires
            self.wf(),
        ensures
            r matches Ok(b) ==> assemble_prefix(self.lines(), self.origin(), self.lines().len()) == Ok::<Seq<u8>, Error>(b@),
            r matches Err(e) ==> assemble_prefix(self.lines(), self.origin(), self.lines().len()) == Err::<Seq<u8>, Error>(e),
    {
        let mut bin: Vec<u8> = Vec::new();
        let labtab = self.build_label_table();
        let mut addr = self.org;
        let mut i: usize = 0;
        while i < self.lines.len()
            invariant
                i <= self.lines@.len(),
                addr == line_addr(self.lines@, self.org, i as nat),
                forall|name: Seq<char>| #[trigger] table_lookup(labtab@, name) == label_lookup(self.lines(), self.org, name, self.lines().len()),
                assemble_prefix(self.lines@, self.org, i as nat) == Ok::<Seq<u8>, Error>(bin@),
            decreases self.lines@.len() - i,
        {
            let line = &self.lines[i];
            addr = addr.wrapping_add(line.size());
            let ghost before = bin@;
            match line {
                Line::Instruction(il) => {
                    match il.instruction {
                        Err(e) => {
                            proof {
                                lemma_prefix_error_sticks(self.lines@, self.org, (i + 1) as nat, self.lines@.len());
                            }
                            return Err(e);
                        },
                        Ok(opcode) => {
                            match self.op_value(addr, &il.operand, &labtab) {
                                Err(e) => {
                                    proof {
                                        lemma_prefix_error_sticks(self.lines@, self.org, (i + 1) as nat, self.lines@.len());
                                    }
                                    return Err(e);
                                },
                                Ok(v) => {
                                    bin.push(opcode.code);
                                    match v {
                                        OpValue::Absent => {},
                                        OpValue::U8(x) => bin.push(x),
                                        OpValue::U16(x) => {
                                            bin.push((x % 256) as u8);
                                            bin.push((x / 256) as u8);
                                        },
                                    }
                                    assert(bin@ == before + (seq![opcode.code] + value_bytes(v)));
                                },
                            }
                        },
                    }
                },
                Line::Data(dl) => {
                    let mut j: usize = 0;
                    while j < dl.data.len()
                        invariant
                            j <= dl.data@.len(),
                            bin@ == before + dl.data@.subrange(0, j as int),
                        decreases dl.data@.len() - j,
                    {
                        bin.push(dl.data[j]);
                        assert(dl.data@.subrange(0, j + 1) == dl.data@.subrange(0, j as int).push(dl.data@[j as int]));
                        j += 1;
                    }
                    assert(dl.data@.subrange(0, dl.data@.len() as int) == dl.data@);
                },
            }
            i += 1;
        }
        Ok(bin)
    }
}

/// Shorthand for a literal (numeric) address, as opposed to a labelled one.
pub fn val(v: u16) -> (r: Addr)
    ensures
        r == Addr::Literal(v),
{
    Addr::Literal(v)
}

/// Shorthand for a labelled address, as opposed to a literal (numeric) one.
pub fn label(s: &str) -> (r: Addr)
    ensures
        r matches Addr::Label(l) && l@ == s@,
{
    Addr::Label(String::from_str(s))
}

/// Shorthand for a nearby labelled branch target.
pub fn branch(s: &str) -> (r: BranchTarget)
    ensures
        r matches BranchTarget::Label(l) && l@ == s@,
{
    BranchTarget::Label(String::from_str(s))
}

} // verus!
