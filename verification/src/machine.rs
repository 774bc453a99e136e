//! The executable machine.

use crate::arith::{BinaryOp, UnaryOp};
use crate::error::{ErrorKind, VmError};
use crate::input::{parse_input, trim};
use crate::instruction::{ops, Instruction};
use crate::model::{zero_block, InputKind, Output, OutputView, State, Status};
use crate::program::{first_repeat, labels_distinct, Program};
use std::collections::HashMap;
use vstd::prelude::*;

verus! {

broadcast use vstd::std_specs::hash::group_hash_axioms;

/// Return addresses as the semantics sees them.
pub open spec fn addresses(calls: Seq<usize>) -> Seq<nat> {
    calls.map_values(|a: usize| a as nat)
}

/// Output items as the semantics sees them.
pub open spec fn items(output: Seq<Output>) -> Seq<OutputView> {
    output.map_values(|o: Output| o@)
}

/// A stack machine: a program with the state of its run.
pub struct StackMachine {
    stack: Vec<i32>,
    memory: HashMap<i32, i32>,
    program: Program,
    program_counter: usize,
    call_stack: Vec<usize>,
    input_request: Option<InputKind>,
    output: Vec<Output>,
    tracing: bool,
}

impl View for StackMachine {
    type V = State;

    closed spec fn view(&self) -> State {
        State {
            program: self.program@,
            stack: self.stack@,
            memory: self.memory@,
            counter: self.program_counter as nat,
            calls: addresses(self.call_stack@),
            pending: self.input_request,
            output: items(self.output@),
            tracing: self.tracing,
        }
    }
}

/// Lays the zero-filled block of `size` addresses over `memory`.
fn zero_fill(memory: &mut HashMap<i32, i32>, size: i32)
    ensures
        final(memory)@ == old(memory)@.union_prefer_right(zero_block(size)),
{
    let mut address: i32 = 0;
    while address < size
        invariant
            0 <= address,
            address <= size || address == 0,
            memory@ == old(memory)@.union_prefer_right(zero_block(address)),
        decreases size - address,
    {
        memory.insert(address, 0);
        address += 1;
    }
}

impl StackMachine {
    /// A machine with no program, an empty stack and an empty memory.
    pub fn new() -> (r: StackMachine)
        ensures
            r@ == State::initial(),
    {
        let r = StackMachine {
            stack: Vec::new(),
            memory: HashMap::new(),
            program: Program::empty(),
            program_counter: 0,
            call_stack: Vec::new(),
            input_request: None,
            output: Vec::new(),
            tracing: false,
        };
        r
    }

    /// Replaces the program and rebuilds the label table. The state of the
    /// run is left alone. A program in which two label markers share a name
    /// is refused, with the index of the first marker that repeats a name,
    /// and the machine stays as it was.
    pub fn load_program(&mut self, program: Vec<Instruction>) -> (r: Result<(), VmError>)
        ensures
            match r {
                Ok(()) => labels_distinct(ops(program@)) && final(self)@ == old(self)@.with_program(
                    ops(program@),
                ),
                Err(e) => e.kind == ErrorKind::DuplicateLabel && first_repeat(
                    ops(program@),
                    e.index as int,
                ) && final(self)@ == old(self)@,
            },
    {
        match Program::link(program) {
            Ok(linked) => {
                self.program = linked;
                Ok(())
            },
            Err(e) => Err(e),
        }
    }

    /// Where the machine stands.
    pub fn status(&self) -> (r: Status)
        ensures
            r == self@.status(),
    {
        if self.input_request.is_some() {
            Status::AwaitingInput
        } else if self.program_counter >= self.program.len() {
            Status::Halted
        } else {
            Status::Ready
        }
    }

    /// Executes the instruction at the program counter. A machine that has
    /// halted or waits for input is left as it is, and its status returned.
    /// An instruction that cannot run leaves the machine as it is, too, and
    /// the fault is returned with the instruction's index.
    pub fn step(&mut self) -> (r: Result<Status, VmError>)
        ensures
            match old(self)@.step() {
                Ok(next) => final(self)@ == next && r == Ok::<Status, VmError>(next.status()),
                Err(e) => final(self)@ == old(self)@ && r == Err::<Status, VmError>(e),
            },
    {
        match self.status() {
            Status::Ready => {},
            other => {
                return Ok(other);
            },
        }
        let index: usize = self.program_counter;
        match self.perform_operation(index) {
            Ok(()) => Ok(self.status()),
            Err(kind) => Err(VmError { kind, index }),
        }
    }

    /// Runs the machine until it halts, waits for input or faults. A run
    /// that has not come to a stop after `u64::MAX` steps is handed back as
    /// it stands, ready for more.
    pub fn execute(&mut self) -> (r: Result<Status, VmError>)
        ensures
            (final(self)@, r) == old(self)@.run(u64::MAX as nat),
    {
        self.execute_steps(u64::MAX)
    }

    /// Runs the machine for at most `limit` steps: until it halts, waits for
    /// input, faults, or has made `limit` steps.
    pub fn execute_steps(&mut self, limit: u64) -> (r: Result<Status, VmError>)
        ensures
            (final(self)@, r) == old(self)@.run(limit as nat),
    {
        let mut left: u64 = limit;
        loop
            invariant
                self@.run(left as nat) == old(self)@.run(limit as nat),
            decreases left,
        {
            let status = self.status();
            if left == 0 || status != Status::Ready {
                return Ok(status);
            }
            match self.step() {
                Ok(_) => {
                    left -= 1;
                },
                Err(e) => {
                    return Err(e);
                },
            }
        }
    }

    /// Performs the instruction at `index`, which is where the program
    /// counter stands.
    fn perform_operation(&mut self, index: usize) -> (r: Result<(), ErrorKind>)
        requires
            old(self)@.status() == Status::Ready,
            index == old(self)@.counter,
        ensures
            match old(self)@.perform(old(self)@.program[index as int]) {
                Ok(next) => final(self)@ == next && r is Ok,
                Err(kind) => final(self)@ == old(self)@ && r == Err::<(), ErrorKind>(kind),
            },
    {
        let bound: usize = self.program.len();
        let next: usize = index + 1;
        let depth: usize = self.stack.len();
        let instruction = self.program.fetch(index);
        if let Some(op) = instruction.binary() {
            return match self.binary_op(op) {
                Ok(()) => {
                    self.program_counter = next;
                    Ok(())
                },
                Err(kind) => Err(kind),
            };
        }
        if let Some(op) = instruction.unary() {
            return match self.unary_op(op) {
                Ok(()) => {
                    self.program_counter = next;
                    Ok(())
                },
                Err(kind) => Err(kind),
            };
        }
        match instruction {
            Instruction::Push(value) => {
                self.stack.push(*value);
                self.program_counter = next;
                Ok(())
            },
            Instruction::Pop => {
                if depth < 1 {
                    return Err(ErrorKind::StackUnderflow);
                }
                self.stack.pop();
                self.program_counter = next;
                Ok(())
            },
            Instruction::Dup => {
                if depth >= 1 {
                    let top: i32 = self.stack[depth - 1];
                    self.stack.push(top);
                }
                self.program_counter = next;
                Ok(())
            },
            Instruction::Swap => {
                if depth >= 2 {
                    let top: i32 = self.stack[depth - 1];
                    let second: i32 = self.stack[depth - 2];
                    self.stack.pop();
                    self.stack.pop();
                    self.stack.push(top);
                    self.stack.push(second);
                }
                self.program_counter = next;
                Ok(())
            },
            Instruction::Rot => {
                if depth >= 3 {
                    let top: i32 = self.stack[depth - 1];
                    let second: i32 = self.stack[depth - 2];
                    let third: i32 = self.stack[depth - 3];
                    self.stack.pop();
                    self.stack.pop();
                    self.stack.pop();
                    self.stack.push(top);
                    self.stack.push(third);
                    self.stack.push(second);
                }
                self.program_counter = next;
                Ok(())
            },
            Instruction::Clear => {
                self.stack.clear();
                self.program_counter = next;
                Ok(())
            },
            Instruction::Jump(name) => {
                match self.program.target(name) {
                    Some(target) => {
                        self.program_counter = target;
                        Ok(())
                    },
                    None => Err(ErrorKind::UnknownLabel),
                }
            },
            Instruction::Brt(name) => {
                if depth < 1 {
                    return Err(ErrorKind::StackUnderflow);
                }
                if self.stack[depth - 1] != 0 {
                    match self.program.target(name) {
                        Some(target) => {
                            self.program_counter = target;
                        },
                        None => {
                            return Err(ErrorKind::UnknownLabel);
                        },
                    }
                } else {
                    self.program_counter = next;
                }
                self.stack.pop();
                Ok(())
            },
            Instruction::Brz(name) => {
                if depth < 1 {
                    return Err(ErrorKind::StackUnderflow);
                }
                if self.stack[depth - 1] == 0 {
                    match self.program.target(name) {
                        Some(target) => {
                            self.program_counter = target;
                        },
                        None => {
                            return Err(ErrorKind::UnknownLabel);
                        },
                    }
                } else {
                    self.program_counter = next;
                }
                self.stack.pop();
                Ok(())
            },
            Instruction::Call(name) => {
                match self.program.target(name) {
                    Some(target) => {
                        self.call_stack.push(next);
                        self.program_counter = target;
                        Ok(())
                    },
                    None => Err(ErrorKind::UnknownLabel),
                }
            },
            Instruction::Ret => self.leave(),
            Instruction::Retv(value) => {
                if self.call_stack.len() < 1 {
                    return Err(ErrorKind::CallStackUnderflow);
                }
                self.stack.push(*value);
                self.leave()
            },
            Instruction::Halt => {
                self.program_counter = bound;
                Ok(())
            },
            Instruction::Load(address) => {
                let value: i32 = match self.memory.get(address) {
                    Some(v) => *v,
                    None => 0,
                };
                self.stack.push(value);
                self.program_counter = next;
                Ok(())
            },
            Instruction::Store(address) => {
                if depth < 1 {
                    return Err(ErrorKind::StackUnderflow);
                }
                let top: i32 = self.stack[depth - 1];
                self.stack.pop();
                self.memory.insert(*address, top);
                self.program_counter = next;
                Ok(())
            },
            Instruction::Alloc(size) => {
                zero_fill(&mut self.memory, *size);
                self.program_counter = next;
                Ok(())
            },
            Instruction::Free(address) => {
                self.memory.remove(address);
                self.program_counter = next;
                Ok(())
            },
            Instruction::Print => {
                let item = if depth < 1 {
                    Output::EmptyStack
                } else {
                    Output::Number(self.stack[depth - 1])
                };
                self.emit(item);
                self.program_counter = next;
                Ok(())
            },
            Instruction::Read => {
                self.input_request = Some(InputKind::Number);
                self.program_counter = next;
                Ok(())
            },
            Instruction::Write(text) => {
                let item = Output::Message(text.clone());
                self.emit(item);
                self.program_counter = next;
                Ok(())
            },
            Instruction::Scan => {
                self.input_request = Some(InputKind::Line);
                self.program_counter = next;
                Ok(())
            },
            Instruction::Dump => {
                let stack = self.stack.clone();
                let memory = self.memory.clone();
                self.emit(Output::Snapshot { stack, memory });
                self.program_counter = next;
                Ok(())
            },
            Instruction::Trace(on) => {
                self.tracing = *on;
                self.program_counter = next;
                Ok(())
            },
            _ => {
                self.program_counter = next;
                Ok(())
            },
        }
    }

    /// Performs a two-operand instruction: pops the right operand, then the
    /// left one, and pushes the result.
    fn binary_op(&mut self, op: BinaryOp) -> (r: Result<(), ErrorKind>)
        ensures
            match old(self)@.binary(op) {
                Ok(next) => final(self)@ == next && r is Ok,
                Err(kind) => final(self)@ == old(self)@ && r == Err::<(), ErrorKind>(kind),
            },
    {
        let depth: usize = self.stack.len();
        if depth < 2 {
            return Err(ErrorKind::StackUnderflow);
        }
        let right: i32 = self.stack[depth - 1];
        let left: i32 = self.stack[depth - 2];
        match op.apply(left, right) {
            Some(value) => {
                self.stack.pop();
                self.stack.pop();
                self.stack.push(value);
                Ok(())
            },
            None => Err(ErrorKind::ArithmeticError),
        }
    }

    /// Performs a one-operand instruction: pops the operand and pushes the
    /// result.
    fn unary_op(&mut self, op: UnaryOp) -> (r: Result<(), ErrorKind>)
        ensures
            match old(self)@.unary(op) {
                Ok(next) => final(self)@ == next && r is Ok,
                Err(kind) => final(self)@ == old(self)@ && r == Err::<(), ErrorKind>(kind),
            },
    {
        let depth: usize = self.stack.len();
        if depth < 1 {
            return Err(ErrorKind::StackUnderflow);
        }
        let operand: i32 = self.stack[depth - 1];
        let value: i32 = op.apply(operand);
        self.stack.pop();
        self.stack.push(value);
        Ok(())
    }

    /// Returns to the caller: pops the innermost return address into the
    /// program counter.
    fn leave(&mut self) -> (r: Result<(), ErrorKind>)
        ensures
            match old(self)@.leave() {
                Ok(next) => final(self)@ == next && r is Ok,
                Err(kind) => final(self)@ == old(self)@ && r == Err::<(), ErrorKind>(kind),
            },
    {
        let depth: usize = self.call_stack.len();
        if depth < 1 {
            return Err(ErrorKind::CallStackUnderflow);
        }
        let target: usize = self.call_stack[depth - 1];
        self.call_stack.pop();
        self.program_counter = target;
        Ok(())
    }

    /// Appends `item` to the output.
    fn emit(&mut self, item: Output)
        ensures
            final(self)@ == old(self)@.emit(item@),
    {
        self.output.push(item);
    }

    /// Delivers the integer that a `Read` waits for: it goes onto the stack
    /// and the request is cleared. Returns whether such a request was
    /// pending; if none was, nothing changes.
    pub fn push_value(&mut self, value: i32) -> (accepted: bool)
        ensures
            accepted == (old(self)@.pending == Some(InputKind::Number)),
            final(self)@ == old(self)@.supply_number(value),
    {
        match self.input_request {
            Some(InputKind::Number) => {
                self.stack.push(value);
                self.input_request = None;
                true
            },
            _ => false,
        }
    }

    /// Delivers the line that a `Scan` waits for: it is written to the
    /// output, without the white space around it, and the request is cleared.
    /// Returns whether such a request was pending; if none was, nothing
    /// changes.
    pub fn push_line(&mut self, text: &str) -> (accepted: bool)
        ensures
            accepted == (old(self)@.pending == Some(InputKind::Line)),
            final(self)@ == old(self)@.supply_line(text@),
    {
        match self.input_request {
            Some(InputKind::Line) => {
                let item = Output::Scanned(trim(text));
                self.emit(item);
                self.input_request = None;
                true
            },
            _ => false,
        }
    }

    /// Delivers a line of console input to whatever request is pending, and
    /// returns whether one was. Where a number is asked for and the line
    /// denotes none, the machine keeps waiting and the line is refused with
    /// `InputParseError`.
    pub fn push_input(&mut self, text: &str) -> (r: Result<bool, ErrorKind>)
        ensures
            match old(self)@.supply_text(text@) {
                Ok(next) => final(self)@ == next && r == Ok::<bool, ErrorKind>(
                    old(self)@.pending is Some,
                ),
                Err(kind) => final(self)@ == old(self)@ && r == Err::<bool, ErrorKind>(kind),
            },
    {
        match self.input_request {
            Some(InputKind::Number) => {
                match parse_input(text) {
                    Ok(value) => Ok(self.push_value(value)),
                    Err(kind) => Err(kind),
                }
            },
            Some(InputKind::Line) => Ok(self.push_line(text)),
            None => Ok(false),
        }
    }

    /// The operand stack, bottom first.
    pub fn get_stack(&self) -> (r: &Vec<i32>)
        ensures
            r@ == self@.stack,
    {
        &self.stack
    }

    /// The loaded program.
    pub fn get_program(&self) -> (r: &Vec<Instruction>)
        ensures
            ops(r@) == self@.program,
            labels_distinct(self@.program),
    {
        self.program.instructions()
    }

    /// The index of the next instruction.
    pub fn get_program_counter(&self) -> (r: usize)
        ensures
            r == self@.counter,
    {
        self.program_counter
    }

    /// The memory.
    pub fn get_memory(&self) -> (r: &HashMap<i32, i32>)
        ensures
            r@ == self@.memory,
    {
        &self.memory
    }

    /// The return addresses of the calls in progress, innermost last.
    pub fn get_call_stack(&self) -> (r: &Vec<usize>)
        ensures
            addresses(r@) == self@.calls,
    {
        &self.call_stack
    }

    /// The input that the machine waits for, if any.
    pub fn input_request(&self) -> (r: Option<InputKind>)
        ensures
            r == self@.pending,
    {
        self.input_request
    }

    /// The tracing flag, as the last `Trace` set it.
    pub fn is_tracing(&self) -> (r: bool)
        ensures
            r == self@.tracing,
    {
        self.tracing
    }

    /// What the program has written since the output was last taken.
    pub fn get_output(&self) -> (r: &Vec<Output>)
        ensures
            items(r@) == self@.output,
    {
        &self.output
    }

    /// Hands over what the program has written, and leaves the output empty.
    pub fn take_output(&mut self) -> (r: Vec<Output>)
        ensures
            items(r@) == old(self)@.output,
            final(self)@ == old(self)@.with_output(Seq::empty()),
    {
        let mut taken: Vec<Output> = Vec::new();
        std::mem::swap(&mut self.output, &mut taken);
        taken
    }
}

} // verus!
