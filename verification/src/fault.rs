//! The ways in which a single step of the machine can fail.

use vstd::prelude::*;

verus! {

/// Why a step was refused. A refused step leaves the machine as it was.
#[derive(Copy, Clone, PartialEq, Eq, Structural, Debug)]
pub enum Fault {
    /// A register number, a memory address, a stack slot, a display row or
    /// the program counter would leave its range.
    Address,
    /// `RET` with an empty stack, or `CALL` with a full one.
    Stack,
    /// A key number outside `0..16`.
    UnknownKey,
}

} // verus!
