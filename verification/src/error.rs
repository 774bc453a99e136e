//! What can go wrong while a program is loaded or run.

use vstd::prelude::*;

verus! {

/// The kinds of failure that the machine reports.
#[derive(Clone, Copy, Debug, PartialEq, Eq, Structural)]
pub enum ErrorKind {
    /// An instruction needed more operands than the stack holds.
    StackUnderflow,
    /// Division or remainder by zero.
    ArithmeticError,
    /// A jump, branch or call names a label that the program does not define.
    UnknownLabel,
    /// Two label markers of one program share a name.
    DuplicateLabel,
    /// A return found no pending call.
    CallStackUnderflow,
    /// Text supplied as numeric input is not an integer.
    InputParseError,
}

/// A failure together with the program index of the instruction that caused it.
#[derive(Clone, Copy, Debug, PartialEq, Eq, Structural)]
pub struct VmError {
    pub kind: ErrorKind,
    pub index: usize,
}

} // verus!
