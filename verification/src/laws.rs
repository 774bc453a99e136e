//! Theorems about the machine's semantics.

use crate::arith::{truth, BinaryOp};
use crate::error::{ErrorKind, VmError};
use crate::instruction::Op;
use crate::model::{InputKind, OutputView, State, Status};
use crate::program::resolve;
use vstd::prelude::*;

verus! {

/// Whether `code` holds nothing but `Push` and `Pop`.
pub open spec fn only_push_pop(code: Seq<Op>) -> bool {
    forall|i: int| 0 <= i < code.len() ==> (#[trigger] code[i]) is Push || code[i] is Pop
}

/// The number of `Push` instructions of `code` from index `from` up to, not
/// including, index `to`.
pub open spec fn pushes(code: Seq<Op>, from: int, to: int) -> int
    decreases to - from,
{
    if to <= from {
        0
    } else {
        pushes(code, from + 1, to) + if code[from] is Push {
            1int
        } else {
            0int
        }
    }
}

/// The number of `Pop` instructions of `code` from index `from` up to, not
/// including, index `to`.
pub open spec fn pops(code: Seq<Op>, from: int, to: int) -> int
    decreases to - from,
{
    if to <= from {
        0
    } else {
        pops(code, from + 1, to) + if code[from] is Pop {
            1int
        } else {
            0int
        }
    }
}

/// In a program of pushes and pops, every instruction that ran has moved the
/// depth of the stack by one: the depth after a run is the depth before it,
/// plus the pushes and minus the pops that were executed. The only fault is a
/// stack underflow, at a `Pop` that finds the stack empty; that `Pop` is not
/// among the executed ones. With fuel for every instruction, a run that does
/// not fault ends behind the last one.
pub proof fn lemma_push_pop_depth(s: State, fuel: nat)
    requires
        only_push_pop(s.program),
        s.pending is None,
        s.counter <= s.program.len(),
    ensures
        ({
            let (t, r) = s.run(fuel);
            &&& t.program == s.program
            &&& s.counter <= t.counter <= s.program.len()
            &&& t.stack.len() == s.stack.len() + pushes(s.program, s.counter as int, t.counter as int)
                - pops(s.program, s.counter as int, t.counter as int)
            &&& r is Err ==> t.counter < t.program.len() && t.program[t.counter as int] is Pop
                && t.stack.len() == 0 && r == Err::<Status, VmError>(
                VmError { kind: ErrorKind::StackUnderflow, index: t.counter as usize },
            )
            &&& r is Ok && fuel >= s.program.len() - s.counter ==> t.counter == s.program.len() && r
                == Ok::<Status, VmError>(Status::Halted)
        }),
    decreases fuel,
{
    if fuel > 0 && s.status() == Status::Ready {
        if let Ok(next) = s.step() {
            lemma_push_pop_depth(next, (fuel - 1) as nat);
            let end = next.run((fuel - 1) as nat).0.counter;
            lemma_count_from(s.program, s.counter as int, end as int);
        }
    }
}

/// A program of pushes and pops that is run from the start on a new machine,
/// with fuel for each of its instructions, either runs to its end, and then
/// the depth of the stack is the number of its pushes less the number of its
/// pops; or it stops with a stack underflow at a `Pop` that finds the stack
/// empty, and then the depth is that of the instructions before it.
pub proof fn lemma_push_pop_program(code: Seq<Op>)
    requires
        only_push_pop(code),
    ensures
        ({
            let (t, r) = State::initial().with_program(code).run(code.len());
            &&& t.stack.len() == pushes(code, 0, t.counter as int) - pops(code, 0, t.counter as int)
            &&& r is Ok ==> t.counter == code.len() && r == Ok::<Status, VmError>(Status::Halted)
            &&& r is Err ==> t.counter < code.len() && code[t.counter as int] is Pop
                && t.stack.len() == 0 && r == Err::<Status, VmError>(
                VmError { kind: ErrorKind::StackUnderflow, index: t.counter as usize },
            )
        }),
{
    lemma_push_pop_depth(State::initial().with_program(code), code.len());
}

/// Counting from `from` is counting the instruction at `from` and then
/// counting from the one behind it.
proof fn lemma_count_from(code: Seq<Op>, from: int, to: int)
    requires
        from < to,
    ensures
        pushes(code, from, to) == pushes(code, from + 1, to) + if code[from] is Push {
            1int
        } else {
            0int
        },
        pops(code, from, to) == pops(code, from + 1, to) + if code[from] is Pop {
            1int
        } else {
            0int
        },
{
}

/// Whether the relation that comparison `op` tests holds between `a` and `b`.
pub open spec fn holds(op: BinaryOp, a: i32, b: i32) -> bool
    recommends
        op.is_comparison(),
{
    match op {
        BinaryOp::Eq => a == b,
        BinaryOp::Ne => a != b,
        BinaryOp::Le => a <= b,
        BinaryOp::Ge => a >= b,
        BinaryOp::Lt => a < b,
        _ => a > b,
    }
}

/// A conditional branch always consumes the value it tests. `Brt` goes to
/// its label exactly if that value is nonzero, `Brz` exactly if it is zero;
/// otherwise the next instruction follows.
pub proof fn lemma_branch(s: State, name: Seq<char>, on_nonzero: bool)
    requires
        s.status() == Status::Ready,
        s.program[s.counter as int] == (if on_nonzero {
            Op::Brt(name)
        } else {
            Op::Brz(name)
        }),
        s.stack.len() >= 1,
        resolve(s.program, name) is Some,
    ensures
        s.step() is Ok,
        s.step()->Ok_0 == s.with_stack(s.stack.drop_last()).with_counter(
            if (s.stack.last() != 0) == on_nonzero {
                resolve(s.program, name)->Some_0
            } else {
                s.counter + 1
            },
        ),
{
}

/// A comparison followed by a conditional branch: both operands are
/// consumed, and `Brt` goes to its label exactly if the relation holds
/// between them, `Brz` exactly if it does not.
pub proof fn lemma_compare_and_branch(s: State, op: BinaryOp, name: Seq<char>, on_nonzero: bool)
    requires
        s.status() == Status::Ready,
        s.counter + 1 < s.program.len(),
        op.is_comparison(),
        s.program[s.counter as int].binary() == Some(op),
        s.program[s.counter as int + 1] == (if on_nonzero {
            Op::Brt(name)
        } else {
            Op::Brz(name)
        }),
        s.stack.len() >= 2,
        resolve(s.program, name) is Some,
    ensures
        s.step() is Ok,
        s.step()->Ok_0.stack == s.below(2).push(truth(holds(op, s.peek(1), s.peek(0)))),
        s.step()->Ok_0.step() is Ok,
        s.step()->Ok_0.step()->Ok_0 == s.with_stack(s.below(2)).with_counter(
            if holds(op, s.peek(1), s.peek(0)) == on_nonzero {
                resolve(s.program, name)->Some_0
            } else {
                s.counter + 2
            },
        ),
{
    let t = s.step()->Ok_0;
    lemma_branch(t, name, on_nonzero);
}

/// A call remembers the instruction behind it, and the return that finds
/// this address innermost goes there and forgets it: the call stack is as
/// it was before the call.
pub proof fn lemma_call_and_return(s: State, name: Seq<char>, inside: State)
    requires
        s.status() == Status::Ready,
        s.program[s.counter as int] == Op::Call(name),
        resolve(s.program, name) is Some,
        inside.calls == s.step()->Ok_0.calls,
    ensures
        s.step() is Ok,
        s.step()->Ok_0 == s.with_calls(s.calls.push(s.counter + 1)).with_counter(
            resolve(s.program, name)->Some_0,
        ),
        inside.perform(Op::Ret) == Ok::<State, ErrorKind>(
            inside.with_calls(s.calls).with_counter(s.counter + 1),
        ),
{
    assert(s.calls.push(s.counter + 1).drop_last() =~= s.calls);
}

/// A return without a call in progress is a fault, with or without a value.
pub proof fn lemma_return_needs_call(s: State, value: i32)
    requires
        s.calls.len() == 0,
    ensures
        s.perform(Op::Ret) == Err::<State, ErrorKind>(ErrorKind::CallStackUnderflow),
        s.perform(Op::Retv(value)) == Err::<State, ErrorKind>(ErrorKind::CallStackUnderflow),
{
}

/// Swapping twice, and rotating three times, puts the stack back as it was.
pub proof fn lemma_swap_and_rot_cycle(s: State)
    ensures
        s.perform(Op::Swap) is Ok,
        s.perform(Op::Swap)->Ok_0.perform(Op::Swap) is Ok,
        s.perform(Op::Swap)->Ok_0.perform(Op::Swap)->Ok_0.stack == s.stack,
        s.perform(Op::Rot) is Ok,
        s.perform(Op::Rot)->Ok_0.perform(Op::Rot) is Ok,
        s.perform(Op::Rot)->Ok_0.perform(Op::Rot)->Ok_0.perform(Op::Rot) is Ok,
        s.perform(Op::Rot)->Ok_0.perform(Op::Rot)->Ok_0.perform(Op::Rot)->Ok_0.stack == s.stack,
{
    let swapped = s.perform(Op::Swap)->Ok_0;
    assert(swapped.perform(Op::Swap)->Ok_0.stack =~= s.stack);
    let once = s.perform(Op::Rot)->Ok_0;
    let twice = once.perform(Op::Rot)->Ok_0;
    assert(twice.perform(Op::Rot)->Ok_0.stack =~= s.stack);
}

/// `Dup` leaves a copy of the top on the stack, and `Pop` takes it off again.
pub proof fn lemma_dup_then_pop(s: State)
    requires
        s.stack.len() >= 1,
    ensures
        s.perform(Op::Dup) is Ok,
        s.perform(Op::Dup)->Ok_0.stack == s.stack.push(s.stack.last()),
        s.perform(Op::Dup)->Ok_0.perform(Op::Pop) is Ok,
        s.perform(Op::Dup)->Ok_0.perform(Op::Pop)->Ok_0.stack == s.stack,
{
    assert(s.stack.push(s.stack.last()).drop_last() =~= s.stack);
    assert(s.perform(Op::Dup)->Ok_0.perform(Op::Pop)->Ok_0.stack =~= s.stack);
}

/// A value that was stored is what a load from the same address gives back.
pub proof fn lemma_store_then_load(s: State, address: i32)
    requires
        s.stack.len() >= 1,
    ensures
        s.perform(Op::Store(address)) is Ok,
        s.perform(Op::Store(address))->Ok_0.perform(Op::Load(address)) is Ok,
        ({
            let t = s.perform(Op::Store(address))->Ok_0.perform(Op::Load(address))->Ok_0;
            &&& t.stack == s.stack
            &&& t.memory == s.memory.insert(address, s.stack.last())
            &&& t.read(address) == s.stack.last()
        }),
{
}

/// An address that holds nothing reads as zero.
pub proof fn lemma_load_unwritten(s: State, address: i32)
    requires
        !s.memory.contains_key(address),
    ensures
        s.perform(Op::Load(address)) == Ok::<State, ErrorKind>(
            s.with_stack(s.stack.push(0)).advance(),
        ),
{
}

/// The memory of a new machine holds nothing.
pub proof fn lemma_initial_memory_reads_zero(address: i32)
    ensures
        State::initial().read(address) == 0,
{
}

/// An address that was freed reads as zero again.
pub proof fn lemma_free_then_load(s: State, address: i32)
    ensures
        s.perform(Op::Free(address)) is Ok,
        s.perform(Op::Free(address))->Ok_0.perform(Op::Load(address)) is Ok,
        ({
            let t = s.perform(Op::Free(address))->Ok_0.perform(Op::Load(address))->Ok_0;
            &&& t.stack == s.stack.push(0)
            &&& t.memory == s.memory.remove(address)
        }),
{
}

/// Only `Store`, `Alloc` and `Free` change the memory.
pub proof fn lemma_memory_changes(s: State, op: Op)
    requires
        s.perform(op) is Ok,
        !(op is Store || op is Alloc || op is Free),
    ensures
        s.perform(op)->Ok_0.memory == s.memory,
{
}

/// `Halt` ends the run at once: the machine that has executed it is halted.
pub proof fn lemma_halt_is_immediate(s: State)
    requires
        s.status() == Status::Ready,
        s.program[s.counter as int] == Op::Halt,
    ensures
        s.step() is Ok,
        s.step()->Ok_0 == s.with_counter(s.program.len()),
        s.step()->Ok_0.status() == Status::Halted,
{
}

/// `Print` and `Dump` change neither the stack nor the memory: they append
/// one item to the output and pass on to the next instruction.
pub proof fn lemma_output_preserves_state(s: State)
    ensures
        s.perform(Op::Dump) == Ok::<State, ErrorKind>(
            s.emit(OutputView::Snapshot { stack: s.stack, memory: s.memory }).advance(),
        ),
        s.perform(Op::Dump)->Ok_0.stack == s.stack,
        s.perform(Op::Dump)->Ok_0.memory == s.memory,
        s.perform(Op::Print) is Ok,
        s.perform(Op::Print)->Ok_0.stack == s.stack,
        s.perform(Op::Print)->Ok_0.memory == s.memory,
        s.stack.len() >= 1 ==> s.perform(Op::Print)->Ok_0.output == s.output.push(
            OutputView::Number(s.stack.last()),
        ),
        s.stack.len() == 0 ==> s.perform(Op::Print)->Ok_0.output == s.output.push(
            OutputView::EmptyStack,
        ),
{
}

/// After `Read` the machine waits for input: stepping or running it changes
/// nothing until a number is delivered. The delivered number lies on top of
/// the stack, and the run goes on at the instruction behind the `Read`.
pub proof fn lemma_read_awaits_input(s: State, value: i32, fuel: nat)
    requires
        s.status() == Status::Ready,
        s.program[s.counter as int] == Op::Read,
    ensures
        s.step() is Ok,
        ({
            let t = s.step()->Ok_0;
            let u = t.supply_number(value);
            &&& t.status() == Status::AwaitingInput
            &&& t.pending == Some(InputKind::Number)
            &&& t.step() == Ok::<State, VmError>(t)
            &&& t.run(fuel) == (t, Ok::<Status, VmError>(Status::AwaitingInput))
            &&& u == s.with_stack(s.stack.push(value)).advance()
            &&& u.status() != Status::AwaitingInput
        }),
{
}

/// A machine that has halted stays halted: no step and no run changes it.
pub proof fn lemma_halted_is_terminal(s: State, fuel: nat)
    requires
        s.status() == Status::Halted,
    ensures
        s.step() == Ok::<State, VmError>(s),
        s.run(fuel) == (s, Ok::<Status, VmError>(Status::Halted)),
{
}

/// A fault ends the run: the machine stays where the fault left it, and
/// every further step and run meets the same fault.
pub proof fn lemma_fault_is_final(s: State, fuel: nat)
    requires
        s.step() is Err,
        fuel > 0,
    ensures
        s.status() == Status::Ready,
        s.step()->Err_0.index == s.counter as usize,
        s.run(fuel) == (s, Err::<Status, VmError>(s.step()->Err_0)),
{
}

/// Whether a run has come to a stop of its own: by a fault, or in a state
/// that is not ready.
pub open spec fn stopped(outcome: (State, Result<Status, VmError>)) -> bool {
    outcome.1 is Err || outcome.0.status() != Status::Ready
}

/// A run that has come to a stop of its own does not depend on how much
/// fuel was left: more fuel gives the same state and the same result.
pub proof fn lemma_run_stable(s: State, fuel: nat, more: nat)
    requires
        stopped(s.run(fuel)),
        fuel <= more,
    ensures
        s.run(more) == s.run(fuel),
    decreases fuel,
{
    if fuel > 0 && s.status() == Status::Ready {
        if let Ok(next) = s.step() {
            lemma_run_stable(next, (fuel - 1) as nat, (more - 1) as nat);
        }
    }
}

/// Running in two parts is running at once: a run of `first + second` steps
/// is a run of `first` steps, continued for `second` more.
pub proof fn lemma_run_split(s: State, first: nat, second: nat)
    requires
        second > 0,
    ensures
        s.run(first + second) == s.run(first).0.run(second),
    decreases first,
{
    if first > 0 && s.status() == Status::Ready {
        if let Ok(next) = s.step() {
            lemma_run_split(next, (first - 1) as nat, second);
        }
    }
}

/// No instruction changes the program, and a run never does.
pub proof fn lemma_program_is_fixed(s: State, fuel: nat)
    ensures
        s.step() is Ok ==> s.step()->Ok_0.program == s.program,
        s.run(fuel).0.program == s.program,
    decreases fuel,
{
    if s.status() == Status::Ready {
        lemma_perform_keeps_program(s, s.program[s.counter as int]);
        if fuel > 0 {
            if let Ok(next) = s.step() {
                lemma_program_is_fixed(next, (fuel - 1) as nat);
            }
        }
    }
}

proof fn lemma_perform_keeps_program(s: State, op: Op)
    ensures
        s.perform(op) is Ok ==> s.perform(op)->Ok_0.program == s.program,
{
}

} // verus!
