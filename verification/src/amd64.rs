use vstd::prelude::*;

use crate::value::{Lvalue, Name};

verus! {

/// The architectural registers and status flags that the instruction
/// semantics read or write.
#[derive(Clone, Copy, Debug, PartialEq, Eq, Hash, Structural)]
pub enum Register {
    Rip,
    Eip,
    Ip,
    Rsp,
    Esp,
    Sp,
    Eax,
    Ax,
    Al,
    Ah,
    Cs,
    Ds,
    Es,
    Ss,
    Fs,
    Gs,
    /// Carry flag.
    CF,
    /// Parity flag.
    PF,
    /// Adjust flag.
    AF,
    /// Zero flag.
    ZF,
    /// Sign flag.
    SF,
    /// Direction flag.
    DF,
    /// Overflow flag.
    OF,
}

/// Width in bits of a register.
pub open spec fn reg_width(r: Register) -> u16 {
    match r {
        Register::Rip | Register::Rsp => 64,
        Register::Eip | Register::Esp | Register::Eax => 32,
        Register::Ip | Register::Sp | Register::Ax => 16,
        Register::Cs | Register::Ds | Register::Es | Register::Ss | Register::Fs | Register::Gs => 16,
        Register::Al | Register::Ah => 8,
        _ => 1,
    }
}

/// The register as an assignable IL variable.
pub open spec fn reg_lv(r: Register) -> Lvalue {
    Lvalue::Variable { width: reg_width(r), name: Name::Reg(r) }
}

/// Returns the IL variable that stands for register `r`.
pub fn reg(r: Register) -> (l: Lvalue)
    ensures
        l == reg_lv(r),
{
    let w: u16 = match r {
        Register::Rip | Register::Rsp => 64,
        Register::Eip | Register::Esp | Register::Eax => 32,
        Register::Ip | Register::Sp | Register::Ax => 16,
        Register::Cs | Register::Ds | Register::Es | Register::Ss | Register::Fs | Register::Gs => 16,
        Register::Al | Register::Ah => 8,
        _ => 1,
    };
    Lvalue::Variable { width: w, name: Name::Reg(r) }
}

/// Processor mode, which selects the stack pointer and its wrap-around.
#[derive(Clone, Copy, Debug, PartialEq, Eq, Structural)]
pub enum Mode {
    Real,
    Protected,
    Long,
}

/// Operand size of the instruction being lifted.
#[derive(Clone, Copy, Debug, PartialEq, Eq, Structural)]
pub enum OperandSize {
    Eight,
    Sixteen,
    ThirtyTwo,
    SixtyFour,
    HundredTwentyEight,
}

/// Condition codes of the conditional instructions.
#[derive(Clone, Copy, Debug, PartialEq, Eq, Structural)]
pub enum Condition {
    Overflow,
    NotOverflow,
    Carry,
    AboveEqual,
    Equal,
    NotEqual,
    BelowEqual,
    Above,
    Sign,
    NotSign,
    Parity,
    NotParity,
    Less,
    GreaterEqual,
    LessEqual,
    Greater,
}

} // verus!
