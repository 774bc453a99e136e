//! The machine as a mathematical state, and what each instruction does to it.

use crate::arith::{BinaryOp, UnaryOp};
use crate::error::{ErrorKind, VmError};
use crate::input::{parsed, trimmed};
use crate::instruction::Op;
use crate::program::resolve;
use std::collections::HashMap;
use vstd::prelude::*;

verus! {

/// What an instruction can ask the driver for.
#[derive(Clone, Copy, Debug, PartialEq, Eq, Structural)]
pub enum InputKind {
    /// An integer, which goes onto the stack.
    Number,
    /// A line of text, which is shown and dropped.
    Line,
}

/// Where the machine stands between two instructions.
#[derive(Clone, Copy, Debug, PartialEq, Eq, Structural)]
pub enum Status {
    /// The next instruction can be fetched.
    Ready,
    /// An instruction has asked for input that was not delivered yet.
    AwaitingInput,
    /// The program counter is past the last instruction.
    Halted,
}

/// Something that the program has written to its output.
#[derive(Clone, Debug, PartialEq, Eq)]
pub enum Output {
    /// The top of the stack, as `Print` found it.
    Number(i32),
    /// `Print` found the stack empty.
    EmptyStack,
    /// The text of a `Write`.
    Message(String),
    /// The line that was delivered to a `Scan`, without surrounding white space.
    Scanned(String),
    /// Stack and memory as `Dump` found them.
    Snapshot { stack: Vec<i32>, memory: HashMap<i32, i32> },
}

/// An output item as the semantics sees it.
#[verifier::ext_equal]
pub enum OutputView {
    Number(i32),
    EmptyStack,
    Message(Seq<char>),
    Scanned(Seq<char>),
    Snapshot { stack: Seq<i32>, memory: Map<i32, i32> },
}

impl View for Output {
    type V = OutputView;

    open spec fn view(&self) -> OutputView {
        match *self {
            Output::Number(value) => OutputView::Number(value),
            Output::EmptyStack => OutputView::EmptyStack,
            Output::Message(text) => OutputView::Message(text@),
            Output::Scanned(text) => OutputView::Scanned(text@),
            Output::Snapshot { stack, memory } => OutputView::Snapshot {
                stack: stack@,
                memory: memory@,
            },
        }
    }
}

/// The whole state of a machine.
#[verifier::ext_equal]
pub struct State {
    /// The loaded program.
    pub program: Seq<Op>,
    /// The operand stack; its top is the last element.
    pub stack: Seq<i32>,
    /// The memory; an address outside the domain reads as zero.
    pub memory: Map<i32, i32>,
    /// The index of the next instruction.
    pub counter: nat,
    /// The return addresses of the calls in progress, innermost last.
    pub calls: Seq<nat>,
    /// The input that an instruction waits for, if any.
    pub pending: Option<InputKind>,
    /// Everything written so far and not yet taken by the driver.
    pub output: Seq<OutputView>,
    /// The tracing flag.
    pub tracing: bool,
}

/// The zero-filled block that `Alloc(size)` lays over the memory: addresses
/// from 0 up to, not including, `size`.
pub open spec fn zero_block(size: i32) -> Map<i32, i32> {
    Map::new(|a: i32| 0 <= a < size, |a: i32| 0i32)
}

impl State {
    /// The state of a machine that was just created.
    pub open spec fn initial() -> State {
        State {
            program: Seq::empty(),
            stack: Seq::empty(),
            memory: Map::empty(),
            counter: 0,
            calls: Seq::empty(),
            pending: None,
            output: Seq::empty(),
            tracing: false,
        }
    }

    /// Where the machine stands: a pending request comes first, then the
    /// end of the program.
    pub open spec fn status(self) -> Status {
        if self.pending is Some {
            Status::AwaitingInput
        } else if self.counter >= self.program.len() {
            Status::Halted
        } else {
            Status::Ready
        }
    }

    /// The word at `address`.
    pub open spec fn read(self, address: i32) -> i32 {
        if self.memory.contains_key(address) {
            self.memory[address]
        } else {
            0
        }
    }

    // The state with one component replaced.

    pub open spec fn with_program(self, program: Seq<Op>) -> State {
        State { program, ..self }
    }

    pub open spec fn with_stack(self, stack: Seq<i32>) -> State {
        State { stack, ..self }
    }

    pub open spec fn with_memory(self, memory: Map<i32, i32>) -> State {
        State { memory, ..self }
    }

    pub open spec fn with_counter(self, counter: nat) -> State {
        State { counter, ..self }
    }

    pub open spec fn with_calls(self, calls: Seq<nat>) -> State {
        State { calls, ..self }
    }

    pub open spec fn with_pending(self, pending: Option<InputKind>) -> State {
        State { pending, ..self }
    }

    pub open spec fn with_output(self, output: Seq<OutputView>) -> State {
        State { output, ..self }
    }

    pub open spec fn with_tracing(self, tracing: bool) -> State {
        State { tracing, ..self }
    }

    /// The counter moved to the following instruction.
    pub open spec fn advance(self) -> State {
        self.with_counter(self.counter + 1)
    }

    /// One more item at the end of the output.
    pub open spec fn emit(self, item: OutputView) -> State {
        self.with_output(self.output.push(item))
    }

    /// The stack with its top `n` elements taken off.
    pub open spec fn below(self, n: int) -> Seq<i32> {
        self.stack.take(self.stack.len() - n)
    }

    /// The element `depth` places under the top of the stack.
    pub open spec fn peek(self, depth: int) -> i32 {
        self.stack[self.stack.len() - 1 - depth]
    }

    /// A two-operand operation on the stack: the top is the right operand,
    /// the element under it the left one; both give way to the result.
    pub open spec fn binary(self, op: BinaryOp) -> Result<State, ErrorKind> {
        if self.stack.len() < 2 {
            Err(ErrorKind::StackUnderflow)
        } else {
            match op.result(self.peek(1), self.peek(0)) {
                Some(value) => Ok(self.with_stack(self.below(2).push(value))),
                None => Err(ErrorKind::ArithmeticError),
            }
        }
    }

    /// A one-operand operation on the stack: the top gives way to the result.
    pub open spec fn unary(self, op: UnaryOp) -> Result<State, ErrorKind> {
        if self.stack.len() < 1 {
            Err(ErrorKind::StackUnderflow)
        } else {
            Ok(self.with_stack(self.below(1).push(op.result(self.peek(0)))))
        }
    }

    /// A transfer of control to label `name`.
    pub open spec fn go(self, name: Seq<char>) -> Result<State, ErrorKind> {
        match resolve(self.program, name) {
            Some(target) => Ok(self.with_counter(target)),
            None => Err(ErrorKind::UnknownLabel),
        }
    }

    /// A conditional branch to label `name`, taken where the top of the stack
    /// is nonzero (`on_nonzero`) or zero (otherwise). The top is consumed
    /// either way.
    pub open spec fn branch(self, name: Seq<char>, on_nonzero: bool) -> Result<State, ErrorKind> {
        if self.stack.len() < 1 {
            Err(ErrorKind::StackUnderflow)
        } else if (self.peek(0) != 0) == on_nonzero {
            self.with_stack(self.below(1)).go(name)
        } else {
            Ok(self.with_stack(self.below(1)).advance())
        }
    }

    /// A return to the caller.
    pub open spec fn leave(self) -> Result<State, ErrorKind> {
        if self.calls.len() < 1 {
            Err(ErrorKind::CallStackUnderflow)
        } else {
            Ok(self.with_calls(self.calls.drop_last()).with_counter(self.calls.last()))
        }
    }

    /// What instruction `op`, standing at the counter, does to the state; or
    /// the reason for which it cannot run, in which case the state stays as
    /// it is.
    pub open spec fn perform(self, op: Op) -> Result<State, ErrorKind> {
        if let Some(b) = op.binary() {
            self.advance().binary(b)
        } else if let Some(u) = op.unary() {
            self.advance().unary(u)
        } else {
            match op {
                Op::Push(value) => Ok(self.with_stack(self.stack.push(value)).advance()),
                Op::Pop => if self.stack.len() < 1 {
                    Err(ErrorKind::StackUnderflow)
                } else {
                    Ok(self.with_stack(self.below(1)).advance())
                },
                Op::Dup => if self.stack.len() < 1 {
                    Ok(self.advance())
                } else {
                    Ok(self.with_stack(self.stack.push(self.peek(0))).advance())
                },
                Op::Swap => if self.stack.len() < 2 {
                    Ok(self.advance())
                } else {
                    Ok(
                        self.with_stack(
                            self.below(2).push(self.peek(0)).push(self.peek(1)),
                        ).advance(),
                    )
                },
                Op::Rot => if self.stack.len() < 3 {
                    Ok(self.advance())
                } else {
                    Ok(
                        self.with_stack(
                            self.below(3).push(self.peek(0)).push(self.peek(2)).push(self.peek(1)),
                        ).advance(),
                    )
                },
                Op::Clear => Ok(self.with_stack(Seq::empty()).advance()),
                Op::Jump(name) => self.go(name),
                Op::Brt(name) => self.branch(name, true),
                Op::Brz(name) => self.branch(name, false),
                Op::Call(name) => self.with_calls(self.calls.push(self.counter + 1)).go(name),
                Op::Ret => self.leave(),
                Op::Retv(value) => self.with_stack(self.stack.push(value)).leave(),
                Op::Label(_) => Ok(self.advance()),
                Op::Halt => Ok(self.with_counter(self.program.len())),
                Op::Load(address) => Ok(
                    self.with_stack(self.stack.push(self.read(address))).advance(),
                ),
                Op::Store(address) => if self.stack.len() < 1 {
                    Err(ErrorKind::StackUnderflow)
                } else {
                    Ok(
                        self.with_memory(self.memory.insert(address, self.peek(0))).with_stack(
                            self.below(1),
                        ).advance(),
                    )
                },
                Op::Alloc(size) => Ok(
                    self.with_memory(self.memory.union_prefer_right(zero_block(size))).advance(),
                ),
                Op::Free(address) => Ok(self.with_memory(self.memory.remove(address)).advance()),
                Op::Print => if self.stack.len() < 1 {
                    Ok(self.emit(OutputView::EmptyStack).advance())
                } else {
                    Ok(self.emit(OutputView::Number(self.peek(0))).advance())
                },
                Op::Read => Ok(self.with_pending(Some(InputKind::Number)).advance()),
                Op::Write(text) => Ok(self.emit(OutputView::Message(text)).advance()),
                Op::Scan => Ok(self.with_pending(Some(InputKind::Line)).advance()),
                Op::Dump => Ok(
                    self.emit(
                        OutputView::Snapshot { stack: self.stack, memory: self.memory },
                    ).advance(),
                ),
                Op::Trace(on) => Ok(self.with_tracing(on).advance()),
                _ => Ok(self.advance()),
            }
        }
    }

    /// One step of the machine. A machine that is not ready stays as it is.
    /// A fault names the instruction that caused it and leaves the state as
    /// it was before that instruction.
    pub open spec fn step(self) -> Result<State, VmError> {
        if self.status() != Status::Ready {
            Ok(self)
        } else {
            match self.perform(self.program[self.counter as int]) {
                Ok(next) => Ok(next),
                Err(kind) => Err(VmError { kind, index: self.counter as usize }),
            }
        }
    }

    /// At most `fuel` steps: the machine runs until it halts, waits for
    /// input, faults, or has used up the fuel. The result is the state it
    /// stops in, with the status reached or the fault.
    pub open spec fn run(self, fuel: nat) -> (State, Result<Status, VmError>)
        decreases fuel,
    {
        if fuel == 0 || self.status() != Status::Ready {
            (self, Ok(self.status()))
        } else {
            match self.step() {
                Ok(next) => next.run((fuel - 1) as nat),
                Err(e) => (self, Err(e)),
            }
        }
    }

    /// Delivery of the integer that a `Read` waits for: it goes onto the
    /// stack. Without such a request nothing changes.
    pub open spec fn supply_number(self, value: i32) -> State {
        if self.pending == Some(InputKind::Number) {
            self.with_stack(self.stack.push(value)).with_pending(None)
        } else {
            self
        }
    }

    /// Delivery of the line that a `Scan` waits for: it is written to the
    /// output, without the white space around it, and leaves no other trace.
    /// Without such a request nothing changes.
    pub open spec fn supply_line(self, text: Seq<char>) -> State {
        if self.pending == Some(InputKind::Line) {
            self.emit(OutputView::Scanned(trimmed(text))).with_pending(None)
        } else {
            self
        }
    }

    /// Delivery of a line of console input to whatever request is pending. A
    /// `Read` takes the integer that the line denotes; a line that denotes
    /// none is an input error, and the request stays pending. A `Scan` takes
    /// the line as it is. Without a request nothing changes.
    pub open spec fn supply_text(self, text: Seq<char>) -> Result<State, ErrorKind> {
        match self.pending {
            Some(InputKind::Number) => match parsed(text) {
                Some(value) => Ok(self.supply_number(value)),
                None => Err(ErrorKind::InputParseError),
            },
            Some(InputKind::Line) => Ok(self.supply_line(text)),
            None => Ok(self),
        }
    }
}

} // verus!
