//! The decoder: a 256-entry table from opcode byte to instruction.
use vstd::prelude::*;
use crate::isa::{decode_code, opcode_spec, Opcode};

verus! {

pub struct Decoder {
    table: Vec<Option<Opcode>>,
}

impl Decoder {
    /// The table holds, for each byte, the instruction that it encodes.
    pub closed spec fn wf(&self) -> bool {
        &&& self.table@.len() == 256
        &&& forall|i: int| 0 <= i < 256 ==> #[trigger] self.table@[i] == opcode_spec(i as u8)
    }

    pub fn new() -> (r: Decoder)
        ensures
            r.wf(),
    {
        Decoder { table: build_opcode_table() }
    }

    /// The instruction that `code` encodes, or `None` for an illegal opcode.
    pub fn opcode(&self, code: u8) -> (r: Option<Opcode>)
        requires
            self.wf(),
        ensures
            r == opcode_spec(code),
    {
        self.table[code as usize]
    }
}

/// Builds the table of opcodes indexed by their byte.
fn build_opcode_table() -> (r: Vec<Option<Opcode>>)
    ensures
        r@.len() == 256,
        forall|i: int| 0 <= i < 256 ==> #[trigger] r@[i] == opcode_spec(i as u8),
{
    let mut optab: Vec<Option<Opcode>> = Vec::new();
    let mut c: u16 = 0;
    while c < 256
        invariant
            c <= 256,
            optab@.len() == c,
            forall|i: int| 0 <= i < c ==> #[trigger] optab@[i] == opcode_spec(i as u8),
        decreases 256 - c,
    {
        let code = c as u8;
        let entry = match decode_code(code) {
            Some((m, mode)) => Some(Opcode::new(m, mode, code)),
            None => None,
        };
        optab.push(entry);
        c = c + 1;
    }
    optab
}

} // verus!
