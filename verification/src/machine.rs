use vstd::prelude::*;

use crate::codegen::{Operation, Statement};
use crate::value::{Lvalue, Name, Rvalue};

verus! {

/// A state of the IL machine: the value of every variable, and the
/// value stored at every memory address.
#[verifier::ext_equal]
pub ghost struct Machine {
    pub vars: spec_fn(Name) -> int,
    pub ram: spec_fn(int) -> int,
}

/// `f` with the value at `k` replaced by `v`.
pub open spec fn update<K>(f: spec_fn(K) -> int, k: K, v: int) -> spec_fn(K) -> int {
    |j: K| if j == k { v } else { f(j) }
}

/// The value of `r` in `m`. Reading `Undefined` gives 0; a memory read
/// gives the cell at the address that its offset evaluates to.
pub open spec fn read(m: Machine, r: Rvalue) -> int
    decreases r,
{
    match r {
        Rvalue::Constant(c) => c as int,
        Rvalue::Undefined => 0,
        Rvalue::Variable { name, .. } => (m.vars)(name),
        Rvalue::Memory { offset, .. } => (m.ram)(read(m, *offset)),
    }
}

/// `m` after writing `v` to the place `l`; writes to `Undefined` are
/// dropped.
pub open spec fn write(m: Machine, l: Lvalue, v: int) -> Machine {
    match l {
        Lvalue::Undefined => m,
        Lvalue::Variable { name, .. } => Machine { vars: update(m.vars, name, v), ram: m.ram },
        Lvalue::Memory { offset, .. } => Machine { vars: m.vars, ram: update(m.ram, read(m, *offset), v) },
    }
}

/// 1 for true, 0 for false.
pub open spec fn bit(b: bool) -> int {
    if b {
        1
    } else {
        0
    }
}

/// A value taken as a truth value: anything but 0 is true.
pub open spec fn holds(v: int) -> bool {
    v != 0
}

/// The value that `op` computes in `m`. Integer arithmetic is exact;
/// division and remainder by 0 give 0; the bitwise operations work on
/// the 64-bit truncations of their operands; a call yields 0.
pub open spec fn eval_op(m: Machine, op: Operation) -> int {
    match op {
        Operation::IntAdd(a, b) => read(m, a) + read(m, b),
        Operation::IntSubtract(a, b) => read(m, a) - read(m, b),
        Operation::IntMultiply(a, b) => read(m, a) * read(m, b),
        Operation::IntDivide(a, b) => if read(m, b) == 0 {
            0
        } else {
            read(m, a) / read(m, b)
        },
        Operation::IntModulo(a, b) => if read(m, b) == 0 {
            0
        } else {
            read(m, a) % read(m, b)
        },
        Operation::IntInclusiveOr(a, b) => ((read(m, a) as u64) | (read(m, b) as u64)) as int,
        Operation::IntExclusiveOr(a, b) => ((read(m, a) as u64) ^ (read(m, b) as u64)) as int,
        Operation::IntEqual(a, b) => bit(read(m, a) == read(m, b)),
        Operation::IntLess(a, b) => bit(read(m, a) < read(m, b)),
        Operation::IntCall(_) => 0,
        Operation::LogicAnd(a, b) => bit(holds(read(m, a)) && holds(read(m, b))),
        Operation::LogicInclusiveOr(a, b) => bit(holds(read(m, a)) || holds(read(m, b))),
        Operation::LogicExclusiveOr(a, b) => bit(holds(read(m, a)) != holds(read(m, b))),
        Operation::LogicNegation(a) => bit(!holds(read(m, a))),
        Operation::LogicLift(a) => bit(holds(read(m, a))),
        Operation::Move(a) => read(m, a),
    }
}

/// `m` after executing one statement.
pub open spec fn step(m: Machine, s: Statement) -> Machine {
    write(m, s.assignee, eval_op(m, s.op))
}

/// `m` after executing `code` from first to last statement.
pub open spec fn run(m: Machine, code: Seq<Statement>) -> Machine
    decreases code.len(),
{
    if code.len() == 0 {
        m
    } else {
        run(step(m, code[0]), code.drop_first())
    }
}

/// Running two pieces of code one after the other is running their
/// concatenation.
pub proof fn lemma_run_append(m: Machine, a: Seq<Statement>, b: Seq<Statement>)
    ensures
        run(m, a + b) == run(run(m, a), b),
    decreases a.len(),
{
    if a.len() == 0 {
        assert(a + b =~= b);
    } else {
        assert((a + b).drop_first() =~= a.drop_first() + b);
        lemma_run_append(step(m, a[0]), a.drop_first(), b);
    }
}

/// `r` reads a temporary numbered `t` or higher.
pub open spec fn reads_temp_from(r: Rvalue, t: u64) -> bool
    decreases r,
{
    match r {
        Rvalue::Variable { name: Name::Temp(k), .. } => k >= t,
        Rvalue::Memory { offset, .. } => reads_temp_from(*offset, t),
        _ => false,
    }
}

/// `r` reads the variable `n`.
pub open spec fn reads_var(r: Rvalue, n: Name) -> bool
    decreases r,
{
    match r {
        Rvalue::Variable { name, .. } => name == n,
        Rvalue::Memory { offset, .. } => reads_var(*offset, n),
        _ => false,
    }
}

/// Reading `r` gives the same in two machines whose memory agrees and
/// whose variables agree on all but temporaries from `t` on, when `r`
/// reads none of those.
pub proof fn lemma_read_fresh(m1: Machine, m2: Machine, r: Rvalue, t: u64)
    requires
        !reads_temp_from(r, t),
        m1.ram == m2.ram,
        forall|n: Name| #![trigger (m1.vars)(n)] !(n matches Name::Temp(k) && k >= t) ==> (m1.vars)(n) == (m2.vars)(n),
    ensures
        read(m1, r) == read(m2, r),
    decreases r,
{
    match r {
        Rvalue::Memory { offset, .. } => {
            lemma_read_fresh(m1, m2, *offset, t);
        },
        _ => {},
    }
}

} // verus!
