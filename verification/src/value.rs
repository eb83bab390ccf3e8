use vstd::prelude::*;

use crate::amd64::Register;

verus! {

/// Byte order of a memory access.
#[derive(Clone, Copy, Debug, PartialEq, Eq, Structural)]
pub enum Endianess {
    Little,
    Big,
}

/// Name of an IL variable: an architectural register, or a temporary
/// numbered by the code generator that created it.
#[derive(Clone, Copy, Debug, PartialEq, Eq, Hash, Structural)]
pub enum Name {
    Reg(Register),
    Temp(u64),
}

/// Address space of a memory access.
#[derive(Clone, Copy, Debug, PartialEq, Eq, Hash, Structural)]
pub enum Space {
    /// Main memory.
    Ram,
}

/// A value that can be read.
#[allow(inconsistent_fields)]
#[derive(Debug, PartialEq, Eq)]
pub enum Rvalue {
    Constant(u64),
    Undefined,
    Variable { width: u16, name: Name },
    Memory { offset: Box<Rvalue>, bytes: u16, endianess: Endianess, name: Space },
}

/// A place that can be written.
#[allow(inconsistent_fields)]
#[derive(Debug, PartialEq, Eq)]
pub enum Lvalue {
    Undefined,
    Variable { width: u16, name: Name },
    Memory { offset: Box<Rvalue>, bytes: u16, endianess: Endianess, name: Space },
}

/// The value read from a place.
pub open spec fn lv_to_rv(l: Lvalue) -> Rvalue {
    match l {
        Lvalue::Undefined => Rvalue::Undefined,
        Lvalue::Variable { width, name } => Rvalue::Variable { width, name },
        Lvalue::Memory { offset, bytes, endianess, name } => Rvalue::Memory { offset, bytes, endianess, name },
    }
}

/// The place a value was read from; constants have none.
pub open spec fn rv_to_lv(r: Rvalue) -> Option<Lvalue> {
    match r {
        Rvalue::Constant(_) => None,
        Rvalue::Undefined => Some(Lvalue::Undefined),
        Rvalue::Variable { width, name } => Some(Lvalue::Variable { width, name }),
        Rvalue::Memory { offset, bytes, endianess, name } => Some(Lvalue::Memory { offset, bytes, endianess, name }),
    }
}

impl Rvalue {
    /// A copy of the value, equal to it.
    pub fn duplicate(&self) -> (r: Rvalue)
        ensures
            r == *self,
        decreases self,
    {
        match self {
            Rvalue::Constant(c) => Rvalue::Constant(*c),
            Rvalue::Undefined => Rvalue::Undefined,
            Rvalue::Variable { width, name } => Rvalue::Variable { width: *width, name: *name },
            Rvalue::Memory { offset, bytes, endianess, name } => {
                let o = (**offset).duplicate();
                Rvalue::Memory { offset: Box::new(o), bytes: *bytes, endianess: *endianess, name: *name }
            },
        }
    }
}

impl Lvalue {
    /// The place that `rv` reads from, or `None` for a constant.
    pub fn from_rvalue(rv: &Rvalue) -> (l: Option<Lvalue>)
        ensures
            l == rv_to_lv(*rv),
    {
        match rv {
            Rvalue::Constant(_) => None,
            Rvalue::Undefined => Some(Lvalue::Undefined),
            Rvalue::Variable { width, name } => Some(Lvalue::Variable { width: *width, name: *name }),
            Rvalue::Memory { offset, bytes, endianess, name } => {
                let o = (**offset).duplicate();
                Some(Lvalue::Memory { offset: Box::new(o), bytes: *bytes, endianess: *endianess, name: *name })
            },
        }
    }

    /// Reads the place.
    pub fn to_rv(&self) -> (r: Rvalue)
        ensures
            r == lv_to_rv(*self),
    {
        match self {
            Lvalue::Undefined => Rvalue::Undefined,
            Lvalue::Variable { width, name } => Rvalue::Variable { width: *width, name: *name },
            Lvalue::Memory { offset, bytes, endianess, name } => {
                let o = (**offset).duplicate();
                Rvalue::Memory { offset: Box::new(o), bytes: *bytes, endianess: *endianess, name: *name }
            },
        }
    }

    /// A copy of the place, equal to it.
    pub fn duplicate(&self) -> (r: Lvalue)
        ensures
            r == *self,
    {
        match self {
            Lvalue::Undefined => Lvalue::Undefined,
            Lvalue::Variable { width, name } => Lvalue::Variable { width: *width, name: *name },
            Lvalue::Memory { offset, bytes, endianess, name } => {
                let o = (**offset).duplicate();
                Lvalue::Memory { offset: Box::new(o), bytes: *bytes, endianess: *endianess, name: *name }
            },
        }
    }
}

} // verus!
