//! A small stack-based bytecode virtual machine with verified semantics.
//!
//! A program is a sequence of [`Instruction`]s. A [`StackMachine`] loads one,
//! which resolves its labels, and then runs it to the end with `execute` or
//! one instruction at a time with `step`. Input is never read and output never
//! written by the machine itself: an instruction that needs input leaves a
//! request, which the driver answers, and output is collected for the driver
//! to take.
//!
//! What every operation does is stated over a mathematical model of the
//! machine, [`model::State`]; `laws` holds theorems about that model.

pub mod arith;
pub mod console;
pub mod error;
pub mod input;
pub mod instruction;
pub mod laws;
pub mod machine;
pub mod model;
pub mod program;

pub use crate::error::{ErrorKind, VmError};
pub use crate::instruction::Instruction;
pub use crate::machine::StackMachine;
pub use crate::model::{InputKind, Output, Status};
