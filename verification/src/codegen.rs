use vstd::prelude::*;

use crate::amd64::OperandSize;
use crate::value::{Lvalue, Name, Rvalue};

verus! {

/// An IL operation; its result is written to the statement's assignee.
#[derive(Debug, PartialEq, Eq)]
pub enum Operation {
    IntAdd(Rvalue, Rvalue),
    IntSubtract(Rvalue, Rvalue),
    IntMultiply(Rvalue, Rvalue),
    IntDivide(Rvalue, Rvalue),
    IntModulo(Rvalue, Rvalue),
    IntInclusiveOr(Rvalue, Rvalue),
    IntExclusiveOr(Rvalue, Rvalue),
    IntEqual(Rvalue, Rvalue),
    IntLess(Rvalue, Rvalue),
    IntCall(Rvalue),
    LogicAnd(Rvalue, Rvalue),
    LogicInclusiveOr(Rvalue, Rvalue),
    LogicExclusiveOr(Rvalue, Rvalue),
    LogicNegation(Rvalue),
    LogicLift(Rvalue),
    Move(Rvalue),
}

/// One IL statement: `assignee := op`.
#[derive(Debug, PartialEq, Eq)]
pub struct Statement {
    pub op: Operation,
    pub assignee: Lvalue,
}

/// Decoder settings that the semantics depend on.
#[derive(Clone, Copy, Debug, PartialEq, Eq, Structural)]
pub struct Config {
    pub operand_size: OperandSize,
}

/// Collects the IL statements of one instruction and hands out
/// fresh temporaries.
#[derive(Debug)]
pub struct CodeGen {
    pub statements: Vec<Statement>,
    pub configuration: Config,
    /// Number of the next temporary; every temporary handed out so far
    /// has a smaller number.
    pub next_temp: u64,
}

/// The statement `a := op`.
pub open spec fn stmt(op: Operation, a: Lvalue) -> Statement {
    Statement { op, assignee: a }
}

/// The temporary numbered `n`, `w` bits wide.
pub open spec fn temp(n: u64, w: u16) -> Lvalue {
    Lvalue::Variable { width: w, name: Name::Temp(n) }
}

/// `new` is `old` with `code` appended, the same configuration and
/// `k` temporaries more handed out.
pub open spec fn emitted(old: CodeGen, new: CodeGen, code: Seq<Statement>, k: nat) -> bool {
    &&& new.statements@ == old.statements@ + code
    &&& new.configuration == old.configuration
    &&& new.next_temp == old.next_temp + k
}

impl CodeGen {
    /// An empty code generator whose temporaries start at `first_temp`.
    pub fn new(configuration: Config, first_temp: u64) -> (cg: CodeGen)
        ensures
            cg.statements@ == Seq::<Statement>::empty(),
            cg.configuration == configuration,
            cg.next_temp == first_temp,
    {
        CodeGen { statements: Vec::new(), configuration, next_temp: first_temp }
    }

    /// A fresh temporary of `bits` bits (truncated to 16 bits of width).
    pub fn new_temp(&mut self, bits: usize) -> (t: Lvalue)
        requires
            old(self).next_temp < u64::MAX,
        ensures
            t == temp(old(self).next_temp, bits as u16),
            emitted(*old(self), *final(self), Seq::empty(), 1),
    {
        let n = self.next_temp;
        self.next_temp = n + 1;
        proof {
            assert(self.statements@ == old(self).statements@ + Seq::<Statement>::empty());
        }
        Lvalue::Variable { width: bits as u16, name: Name::Temp(n) }
    }

    fn emit(&mut self, op: Operation, a: Lvalue)
        ensures
            emitted(*old(self), *final(self), seq![stmt(op, a)], 0),
    {
        self.statements.push(Statement { op, assignee: a });
        proof {
            assert(self.statements@ == old(self).statements@ + seq![stmt(op, a)]);
        }
    }

    /// `a := op1 + op2`
    pub fn add_i(&mut self, a: Lvalue, op1: Rvalue, op2: Rvalue)
        ensures
            emitted(*old(self), *final(self), seq![stmt(Operation::IntAdd(op1, op2), a)], 0),
    {
        self.emit(Operation::IntAdd(op1, op2), a)
    }

    /// `a := op1 - op2`
    pub fn sub_i(&mut self, a: Lvalue, op1: Rvalue, op2: Rvalue)
        ensures
            emitted(*old(self), *final(self), seq![stmt(Operation::IntSubtract(op1, op2), a)], 0),
    {
        self.emit(Operation::IntSubtract(op1, op2), a)
    }

    /// `a := op1 * op2`
    pub fn mul_i(&mut self, a: Lvalue, op1: Rvalue, op2: Rvalue)
        ensures
            emitted(*old(self), *final(self), seq![stmt(Operation::IntMultiply(op1, op2), a)], 0),
    {
        self.emit(Operation::IntMultiply(op1, op2), a)
    }

    /// `a := op1 / op2`
    pub fn div_i(&mut self, a: Lvalue, op1: Rvalue, op2: Rvalue)
        ensures
            emitted(*old(self), *final(self), seq![stmt(Operation::IntDivide(op1, op2), a)], 0),
    {
        self.emit(Operation::IntDivide(op1, op2), a)
    }

    /// `a := op1 % op2`
    pub fn mod_i(&mut self, a: Lvalue, op1: Rvalue, op2: Rvalue)
        ensures
            emitted(*old(self), *final(self), seq![stmt(Operation::IntModulo(op1, op2), a)], 0),
    {
        self.emit(Operation::IntModulo(op1, op2), a)
    }

    /// `a := op1 | op2`
    pub fn or_i(&mut self, a: Lvalue, op1: Rvalue, op2: Rvalue)
        ensures
            emitted(*old(self), *final(self), seq![stmt(Operation::IntInclusiveOr(op1, op2), a)], 0),
    {
        self.emit(Operation::IntInclusiveOr(op1, op2), a)
    }

    /// `a := op1 ^ op2`
    pub fn xor_i(&mut self, a: Lvalue, op1: Rvalue, op2: Rvalue)
        ensures
            emitted(*old(self), *final(self), seq![stmt(Operation::IntExclusiveOr(op1, op2), a)], 0),
    {
        self.emit(Operation::IntExclusiveOr(op1, op2), a)
    }

    /// `a := (op1 == op2)`
    pub fn equal_i(&mut self, a: Lvalue, op1: Rvalue, op2: Rvalue)
        ensures
            emitted(*old(self), *final(self), seq![stmt(Operation::IntEqual(op1, op2), a)], 0),
    {
        self.emit(Operation::IntEqual(op1, op2), a)
    }

    /// `a := (op1 < op2)`
    pub fn less_i(&mut self, a: Lvalue, op1: Rvalue, op2: Rvalue)
        ensures
            emitted(*old(self), *final(self), seq![stmt(Operation::IntLess(op1, op2), a)], 0),
    {
        self.emit(Operation::IntLess(op1, op2), a)
    }

    /// `a := call(op)`
    pub fn call_i(&mut self, a: Lvalue, op: Rvalue)
        ensures
            emitted(*old(self), *final(self), seq![stmt(Operation::IntCall(op), a)], 0),
    {
        self.emit(Operation::IntCall(op), a)
    }

    /// `a := op1 && op2`
    pub fn and_b(&mut self, a: Lvalue, op1: Rvalue, op2: Rvalue)
        ensures
            emitted(*old(self), *final(self), seq![stmt(Operation::LogicAnd(op1, op2), a)], 0),
    {
        self.emit(Operation::LogicAnd(op1, op2), a)
    }

    /// `a := op1 || op2`
    pub fn or_b(&mut self, a: Lvalue, op1: Rvalue, op2: Rvalue)
        ensures
            emitted(*old(self), *final(self), seq![stmt(Operation::LogicInclusiveOr(op1, op2), a)], 0),
    {
        self.emit(Operation::LogicInclusiveOr(op1, op2), a)
    }

    /// `a := op1 xor op2` on truth values
    pub fn xor_b(&mut self, a: Lvalue, op1: Rvalue, op2: Rvalue)
        ensures
            emitted(*old(self), *final(self), seq![stmt(Operation::LogicExclusiveOr(op1, op2), a)], 0),
    {
        self.emit(Operation::LogicExclusiveOr(op1, op2), a)
    }

    /// `a := !op`
    pub fn not_b(&mut self, a: Lvalue, op: Rvalue)
        ensures
            emitted(*old(self), *final(self), seq![stmt(Operation::LogicNegation(op), a)], 0),
    {
        self.emit(Operation::LogicNegation(op), a)
    }

    /// `a := op` as the number 0 or 1
    pub fn lift_b(&mut self, a: Lvalue, op: Rvalue)
        ensures
            emitted(*old(self), *final(self), seq![stmt(Operation::LogicLift(op), a)], 0),
    {
        self.emit(Operation::LogicLift(op), a)
    }

    /// `a := op`
    pub fn assign(&mut self, a: Lvalue, op: Rvalue)
        ensures
            emitted(*old(self), *final(self), seq![stmt(Operation::Move(op), a)], 0),
    {
        self.emit(Operation::Move(op), a)
    }
}

} // verus!
