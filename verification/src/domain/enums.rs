//! Register and condition names of the instruction set.

use vstd::prelude::*;

verus! {

/// An 8-bit register.
#[derive(Copy, Clone, Debug, PartialEq, Eq, Structural)]
pub enum ShortReg {
    A,
    B,
    C,
    D,
    E,
    H,
    L,
    I,
    R,
}

/// A 16-bit register pair or index register.
#[derive(Copy, Clone, Debug, PartialEq, Eq, Structural)]
pub enum WideReg {
    AF,
    AFp,
    BC,
    DE,
    HL,
    SP,
    IX,
    IY,
}

/// A flag-state predicate used by control-flow instructions.
#[derive(Copy, Clone, Debug, PartialEq, Eq, Structural)]
pub enum Condition {
    NZ,
    Z,
    NC,
    C,
    PO,
    PE,
    P,
    M,
}

} // verus!
