use vstd::prelude::*;

use crate::codegen::Statement;
use crate::value::Rvalue;

verus! {

/// Condition under which a jump is taken.
#[derive(Debug, PartialEq, Eq)]
pub enum Guard {
    True,
    False,
    Predicate { flag: Rvalue, expected: bool },
}

impl Guard {
    /// The guard of an unconditional jump.
    pub fn always() -> (g: Guard)
        ensures
            g == Guard::True,
    {
        Guard::True
    }
}

/// One decoded instruction: the bytes it covers, its name, how its
/// operands are printed, the operands and its IL statements.
#[derive(Debug)]
pub struct Mnemonic {
    pub area_start: u64,
    pub area_end: u64,
    pub opcode: String,
    pub format_string: String,
    pub operands: Vec<Rvalue>,
    pub instructions: Vec<Statement>,
}

/// A control-flow edge leaving the instruction at `origin`.
#[derive(Debug, PartialEq, Eq)]
pub struct Jump {
    pub origin: u64,
    pub target: Rvalue,
    pub guard: Guard,
}

/// Decoder state for the instruction at `address` whose bytes are
/// `tokens`; it collects the decoded mnemonics and jumps.
#[derive(Debug)]
pub struct State {
    pub address: u64,
    pub tokens: Vec<u8>,
    pub mnemonics: Vec<Mnemonic>,
    pub jumps: Vec<Jump>,
}

/// `m` covers `start .. end` and holds the given name, format string,
/// operands and statements.
pub open spec fn mnemonic_is(
    m: Mnemonic,
    start: u64,
    end: u64,
    opcode: Seq<char>,
    format: Seq<char>,
    operands: Seq<Rvalue>,
    instructions: Seq<Statement>,
) -> bool {
    &&& m.area_start == start
    &&& m.area_end == end
    &&& m.opcode@ == opcode
    &&& m.format_string@ == format
    &&& m.operands@ == operands
    &&& m.instructions@ == instructions
}

impl State {
    /// A state for the instruction at `address` made of `tokens`, with
    /// nothing decoded yet.
    pub fn new(address: u64, tokens: Vec<u8>) -> (st: State)
        ensures
            st.address == address,
            st.tokens@ == tokens@,
            st.mnemonics@ == Seq::<Mnemonic>::empty(),
            st.jumps@ == Seq::<Jump>::empty(),
    {
        State { address, tokens, mnemonics: Vec::new(), jumps: Vec::new() }
    }

    /// Records a mnemonic of `len` bytes at the current address.
    pub fn mnemonic(
        &mut self,
        len: usize,
        opcode: &str,
        format: &str,
        operands: Vec<Rvalue>,
        instructions: Vec<Statement>,
    )
        requires
            old(self).address + len <= u64::MAX,
        ensures
            final(self).address == old(self).address,
            final(self).tokens@ == old(self).tokens@,
            final(self).jumps@ == old(self).jumps@,
            final(self).mnemonics@.len() == old(self).mnemonics@.len() + 1,
            final(self).mnemonics@.drop_last() == old(self).mnemonics@,
            mnemonic_is(
                final(self).mnemonics@.last(),
                old(self).address,
                (old(self).address + len) as u64,
                opcode@,
                format@,
                operands@,
                instructions@,
            ),
    {
        let start = self.address;
        let m = Mnemonic {
            area_start: start,
            area_end: start + len as u64,
            opcode: opcode.to_owned(),
            format_string: format.to_owned(),
            operands,
            instructions,
        };
        self.mnemonics.push(m);
        assert(self.mnemonics@.drop_last() =~= old(self).mnemonics@);
    }

    /// Records a jump from the current address to `target` under `guard`.
    pub fn jump(&mut self, target: Rvalue, guard: Guard)
        ensures
            final(self).address == old(self).address,
            final(self).tokens@ == old(self).tokens@,
            final(self).mnemonics@ == old(self).mnemonics@,
            final(self).jumps@ == old(self).jumps@.push(Jump { origin: old(self).address, target, guard }),
    {
        let origin = self.address;
        self.jumps.push(Jump { origin, target, guard });
    }
}

} // verus!
