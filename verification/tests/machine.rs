use stack_machine::{ErrorKind, InputKind, Instruction, Output, StackMachine, Status, VmError};
use std::collections::HashMap;

fn loaded(program: Vec<Instruction>) -> StackMachine {
    let mut machine = StackMachine::new();
    assert_eq!(machine.load_program(program), Ok(()));
    machine
}

fn run(program: Vec<Instruction>) -> StackMachine {
    let mut machine = loaded(program);
    assert_eq!(machine.execute(), Ok(Status::Halted));
    machine
}

fn label(name: &str) -> Instruction {
    Instruction::Label(name.to_string())
}

fn fault(kind: ErrorKind, index: usize) -> Result<Status, VmError> {
    Err(VmError { kind, index })
}

#[test]
fn new_machine_is_empty_and_halted() {
    let machine = StackMachine::new();
    assert!(machine.get_stack().is_empty());
    assert!(machine.get_memory().is_empty());
    assert!(machine.get_program().is_empty());
    assert!(machine.get_call_stack().is_empty());
    assert!(machine.get_output().is_empty());
    assert_eq!(machine.get_program_counter(), 0);
    assert_eq!(machine.input_request(), None);
    assert!(!machine.is_tracing());
    assert_eq!(machine.status(), Status::Halted);
}

#[test]
fn add_then_print_leaves_the_sum_on_the_stack() {
    let mut machine = loaded(vec![
        Instruction::Push(10),
        Instruction::Push(20),
        Instruction::Add,
        Instruction::Print,
    ]);
    assert_eq!(machine.step(), Ok(Status::Ready));
    assert_eq!(machine.step(), Ok(Status::Ready));
    assert_eq!(machine.step(), Ok(Status::Ready));
    assert_eq!(machine.get_stack(), &vec![30]);
    assert_eq!(machine.step(), Ok(Status::Halted));
    assert_eq!(machine.get_stack(), &vec![30]);
    assert_eq!(machine.get_output(), &vec![Output::Number(30)]);
}

#[test]
fn two_prints_show_sum_then_difference() {
    let machine = run(vec![
        Instruction::Push(10),
        Instruction::Push(20),
        Instruction::Add,
        Instruction::Print,
        Instruction::Push(20),
        Instruction::Sub,
        Instruction::Print,
    ]);
    assert_eq!(machine.get_output(), &vec![Output::Number(30), Output::Number(10)]);
    assert_eq!(machine.get_stack(), &vec![10]);
}

#[test]
fn print_after_sum_and_difference_shows_ten() {
    let machine = run(vec![
        Instruction::Push(10),
        Instruction::Push(20),
        Instruction::Add,
        Instruction::Push(20),
        Instruction::Sub,
        Instruction::Print,
    ]);
    assert_eq!(machine.get_output(), &vec![Output::Number(10)]);
    assert_eq!(machine.get_stack(), &vec![10]);
}

#[test]
fn division_by_zero_is_an_arithmetic_error() {
    let mut machine =
        loaded(vec![Instruction::Push(7), Instruction::Push(0), Instruction::Div]);
    assert_eq!(machine.execute(), fault(ErrorKind::ArithmeticError, 2));
    assert_eq!(machine.get_stack(), &vec![7, 0]);
    assert_eq!(machine.get_program_counter(), 2);
    assert_eq!(machine.step(), fault(ErrorKind::ArithmeticError, 2));
}

#[test]
fn remainder_by_zero_is_an_arithmetic_error() {
    let mut machine =
        loaded(vec![Instruction::Push(7), Instruction::Push(0), Instruction::Rem]);
    assert_eq!(machine.execute(), fault(ErrorKind::ArithmeticError, 2));
    assert_eq!(machine.get_stack(), &vec![7, 0]);
}

fn gcd_program(a: i32, b: i32) -> Vec<Instruction> {
    vec![
        Instruction::Push(a),
        Instruction::Push(b),
        Instruction::Call("gcd".to_string()),
        Instruction::Halt,
        // gcd: [a, b] -> [gcd(a, b)]
        label("gcd"),
        Instruction::Dup,
        Instruction::Brz("base".to_string()),
        // [a, b] -> [b, a - (a / b) * b]
        Instruction::Dup,
        Instruction::Rot,
        Instruction::Dup,
        Instruction::Rot,
        Instruction::Swap,
        Instruction::Dup,
        Instruction::Rot,
        Instruction::Swap,
        Instruction::Div,
        Instruction::Rot,
        Instruction::Rot,
        Instruction::Mul,
        Instruction::Sub,
        Instruction::Call("gcd".to_string()),
        Instruction::Ret,
        // base: [a, 0] -> [a]
        label("base"),
        Instruction::Pop,
        Instruction::Ret,
    ]
}

#[test]
fn recursive_gcd_leaves_six() {
    let machine = run(gcd_program(48, 18));
    assert_eq!(machine.get_stack(), &vec![6]);
    assert!(machine.get_call_stack().is_empty());
}

#[test]
fn recursive_gcd_of_other_pairs() {
    assert_eq!(run(gcd_program(17, 5)).get_stack(), &vec![1]);
    assert_eq!(run(gcd_program(100, 75)).get_stack(), &vec![25]);
    assert_eq!(run(gcd_program(9, 0)).get_stack(), &vec![9]);
}

#[test]
fn call_pushes_the_address_behind_it() {
    let mut machine = loaded(vec![
        Instruction::Call("f".to_string()),
        Instruction::Halt,
        label("f"),
        Instruction::Ret,
    ]);
    assert_eq!(machine.step(), Ok(Status::Ready));
    assert_eq!(machine.get_call_stack(), &vec![1]);
    assert_eq!(machine.get_program_counter(), 2);
    assert_eq!(machine.step(), Ok(Status::Ready));
    assert_eq!(machine.get_program_counter(), 3);
    assert_eq!(machine.step(), Ok(Status::Ready));
    assert!(machine.get_call_stack().is_empty());
    assert_eq!(machine.get_program_counter(), 1);
    assert_eq!(machine.step(), Ok(Status::Halted));
    assert_eq!(machine.get_program_counter(), 4);
}

#[test]
fn retv_pushes_its_value_and_returns() {
    let machine = run(vec![
        Instruction::Call("f".to_string()),
        Instruction::Halt,
        label("f"),
        Instruction::Retv(42),
    ]);
    assert_eq!(machine.get_stack(), &vec![42]);
    assert!(machine.get_call_stack().is_empty());
}

#[test]
fn return_without_call_is_an_error() {
    let mut machine = loaded(vec![Instruction::Push(1), Instruction::Ret]);
    assert_eq!(machine.execute(), fault(ErrorKind::CallStackUnderflow, 1));
    assert_eq!(machine.get_stack(), &vec![1]);

    let mut machine = loaded(vec![Instruction::Retv(5)]);
    assert_eq!(machine.execute(), fault(ErrorKind::CallStackUnderflow, 0));
    assert!(machine.get_stack().is_empty());
    assert_eq!(machine.get_program_counter(), 0);
}

#[test]
fn pushes_and_pops_move_the_depth() {
    let machine = run(vec![
        Instruction::Push(1),
        Instruction::Push(2),
        Instruction::Pop,
        Instruction::Push(3),
        Instruction::Push(4),
        Instruction::Pop,
    ]);
    assert_eq!(machine.get_stack().len(), 4 - 2);
    assert_eq!(machine.get_stack(), &vec![1, 3]);
}

#[test]
fn pop_on_empty_stack_is_an_underflow() {
    let mut machine = loaded(vec![
        Instruction::Push(1),
        Instruction::Pop,
        Instruction::Pop,
        Instruction::Push(2),
    ]);
    assert_eq!(machine.execute(), fault(ErrorKind::StackUnderflow, 2));
    assert!(machine.get_stack().is_empty());
    assert_eq!(machine.get_program_counter(), 2);
}

#[test]
fn operators_need_their_operands() {
    let mut machine = loaded(vec![Instruction::Push(1), Instruction::Add]);
    assert_eq!(machine.execute(), fault(ErrorKind::StackUnderflow, 1));
    assert_eq!(machine.get_stack(), &vec![1]);

    let mut machine = loaded(vec![Instruction::Neg]);
    assert_eq!(machine.execute(), fault(ErrorKind::StackUnderflow, 0));

    let mut machine = loaded(vec![Instruction::Store(3)]);
    assert_eq!(machine.execute(), fault(ErrorKind::StackUnderflow, 0));
    assert!(machine.get_memory().is_empty());

    let mut machine = loaded(vec![Instruction::Brt("x".to_string()), label("x")]);
    assert_eq!(machine.execute(), fault(ErrorKind::StackUnderflow, 0));

    let mut machine = loaded(vec![Instruction::Brz("x".to_string()), label("x")]);
    assert_eq!(machine.execute(), fault(ErrorKind::StackUnderflow, 0));
}

#[test]
fn underflow_comes_before_division_by_zero() {
    let mut machine = loaded(vec![Instruction::Push(0), Instruction::Div]);
    assert_eq!(machine.execute(), fault(ErrorKind::StackUnderflow, 1));
}

#[test]
fn operands_are_left_then_right() {
    assert_eq!(
        run(vec![Instruction::Push(10), Instruction::Push(3), Instruction::Sub]).get_stack(),
        &vec![7]
    );
    assert_eq!(
        run(vec![Instruction::Push(10), Instruction::Push(3), Instruction::Div]).get_stack(),
        &vec![3]
    );
    assert_eq!(
        run(vec![Instruction::Push(10), Instruction::Push(3), Instruction::Rem]).get_stack(),
        &vec![1]
    );
    assert_eq!(
        run(vec![Instruction::Push(10), Instruction::Push(3), Instruction::Lt]).get_stack(),
        &vec![0]
    );
    assert_eq!(
        run(vec![Instruction::Push(10), Instruction::Push(3), Instruction::Gt]).get_stack(),
        &vec![1]
    );
    assert_eq!(
        run(vec![Instruction::Push(1), Instruction::Push(4), Instruction::Shl]).get_stack(),
        &vec![16]
    );
    assert_eq!(
        run(vec![Instruction::Push(-16), Instruction::Push(2), Instruction::Shr]).get_stack(),
        &vec![-4]
    );
}

#[test]
fn unary_instructions_replace_the_top() {
    assert_eq!(run(vec![Instruction::Push(5), Instruction::Neg]).get_stack(), &vec![-5]);
    assert_eq!(run(vec![Instruction::Push(5), Instruction::Inc]).get_stack(), &vec![6]);
    assert_eq!(run(vec![Instruction::Push(5), Instruction::Dec]).get_stack(), &vec![4]);
    assert_eq!(run(vec![Instruction::Push(5), Instruction::Not]).get_stack(), &vec![-6]);
    assert_eq!(run(vec![Instruction::Push(5), Instruction::Bool]).get_stack(), &vec![1]);
    assert_eq!(run(vec![Instruction::Push(0), Instruction::Bool]).get_stack(), &vec![0]);
    assert_eq!(
        run(vec![Instruction::Push(9), Instruction::Push(5), Instruction::Inc]).get_stack(),
        &vec![9, 6]
    );
}

#[test]
fn bitwise_instructions() {
    assert_eq!(
        run(vec![Instruction::Push(12), Instruction::Push(10), Instruction::And]).get_stack(),
        &vec![8]
    );
    assert_eq!(
        run(vec![Instruction::Push(12), Instruction::Push(10), Instruction::Or]).get_stack(),
        &vec![14]
    );
    assert_eq!(
        run(vec![Instruction::Push(12), Instruction::Push(10), Instruction::Xor]).get_stack(),
        &vec![6]
    );
}

#[test]
fn dup_swap_rot_and_clear() {
    assert_eq!(run(vec![Instruction::Push(1), Instruction::Dup]).get_stack(), &vec![1, 1]);
    assert_eq!(
        run(vec![Instruction::Push(1), Instruction::Push(2), Instruction::Swap]).get_stack(),
        &vec![2, 1]
    );
    assert_eq!(
        run(vec![
            Instruction::Push(0),
            Instruction::Push(1),
            Instruction::Push(2),
            Instruction::Push(3),
            Instruction::Rot
        ])
        .get_stack(),
        &vec![0, 3, 1, 2]
    );
    assert!(run(vec![Instruction::Push(1), Instruction::Push(2), Instruction::Clear])
        .get_stack()
        .is_empty());
}

#[test]
fn dup_swap_rot_do_nothing_on_a_shallow_stack() {
    let machine = run(vec![Instruction::Dup, Instruction::Swap, Instruction::Rot]);
    assert!(machine.get_stack().is_empty());
    assert_eq!(machine.get_program_counter(), 3);
    assert_eq!(run(vec![Instruction::Push(1), Instruction::Swap]).get_stack(), &vec![1]);
    assert_eq!(
        run(vec![Instruction::Push(1), Instruction::Push(2), Instruction::Rot]).get_stack(),
        &vec![1, 2]
    );
}

#[test]
fn comparison_then_branch_if_true() {
    for (a, b) in [(1, 2), (2, 1), (3, 3)] {
        let machine = run(vec![
            Instruction::Push(a),
            Instruction::Push(b),
            Instruction::Lt,
            Instruction::Brt("yes".to_string()),
            Instruction::Push(100),
            Instruction::Halt,
            label("yes"),
            Instruction::Push(200),
        ]);
        let expected = if a < b { 200 } else { 100 };
        assert_eq!(machine.get_stack(), &vec![expected]);
    }
}

#[test]
fn comparison_then_branch_if_zero() {
    for (a, b) in [(1, 2), (2, 1), (3, 3)] {
        let machine = run(vec![
            Instruction::Push(a),
            Instruction::Push(b),
            Instruction::Eq,
            Instruction::Brz("no".to_string()),
            Instruction::Push(100),
            Instruction::Halt,
            label("no"),
            Instruction::Push(200),
        ]);
        let expected = if a == b { 100 } else { 200 };
        assert_eq!(machine.get_stack(), &vec![expected]);
    }
}

#[test]
fn branch_consumes_the_tested_value_either_way() {
    for value in [0, 1, -7] {
        for taken_on_nonzero in [true, false] {
            let name = "l".to_string();
            let branch =
                if taken_on_nonzero { Instruction::Brt(name) } else { Instruction::Brz(name) };
            let mut machine = loaded(vec![
                Instruction::Push(9),
                Instruction::Push(value),
                branch,
                Instruction::Halt,
                label("l"),
            ]);
            machine.step().unwrap();
            machine.step().unwrap();
            assert_eq!(machine.step(), Ok(Status::Ready));
            assert_eq!(machine.get_stack(), &vec![9]);
            let taken = (value != 0) == taken_on_nonzero;
            assert_eq!(machine.get_program_counter(), if taken { 4 } else { 3 });
        }
    }
}

#[test]
fn jump_goes_to_the_marker() {
    let mut machine = loaded(vec![
        Instruction::Jump("end".to_string()),
        Instruction::Push(1),
        label("end"),
        Instruction::Push(2),
    ]);
    assert_eq!(machine.step(), Ok(Status::Ready));
    assert_eq!(machine.get_program_counter(), 2);
    assert_eq!(machine.execute(), Ok(Status::Halted));
    assert_eq!(machine.get_stack(), &vec![2]);
}

#[test]
fn unknown_label_is_an_error_where_it_is_used() {
    let mut machine = loaded(vec![Instruction::Push(1), Instruction::Jump("nowhere".to_string())]);
    assert_eq!(machine.execute(), fault(ErrorKind::UnknownLabel, 1));
    assert_eq!(machine.get_program_counter(), 1);

    let mut machine = loaded(vec![Instruction::Call("nowhere".to_string())]);
    assert_eq!(machine.execute(), fault(ErrorKind::UnknownLabel, 0));
    assert!(machine.get_call_stack().is_empty());

    let mut machine = loaded(vec![Instruction::Push(1), Instruction::Brt("nowhere".to_string())]);
    assert_eq!(machine.execute(), fault(ErrorKind::UnknownLabel, 1));
    assert_eq!(machine.get_stack(), &vec![1]);

    let mut machine = loaded(vec![Instruction::Push(0), Instruction::Brz("nowhere".to_string())]);
    assert_eq!(machine.execute(), fault(ErrorKind::UnknownLabel, 1));
    assert_eq!(machine.get_stack(), &vec![0]);
}

#[test]
fn branch_not_taken_does_not_look_up_its_label() {
    let machine = run(vec![Instruction::Push(0), Instruction::Brt("nowhere".to_string())]);
    assert!(machine.get_stack().is_empty());
    let machine = run(vec![Instruction::Push(1), Instruction::Brz("nowhere".to_string())]);
    assert!(machine.get_stack().is_empty());
}

#[test]
fn duplicate_label_is_refused_at_load() {
    let mut machine = StackMachine::new();
    let result = machine.load_program(vec![
        label("a"),
        Instruction::Push(1),
        label("b"),
        label("a"),
        label("b"),
    ]);
    assert_eq!(result, Err(VmError { kind: ErrorKind::DuplicateLabel, index: 3 }));
    assert!(machine.get_program().is_empty());
    assert_eq!(machine.status(), Status::Halted);
}

#[test]
fn failed_load_keeps_the_previous_program() {
    let mut machine = loaded(vec![Instruction::Push(1)]);
    let result = machine.load_program(vec![label("a"), label("a")]);
    assert_eq!(result, Err(VmError { kind: ErrorKind::DuplicateLabel, index: 1 }));
    assert_eq!(machine.get_program(), &vec![Instruction::Push(1)]);
    assert_eq!(machine.execute(), Ok(Status::Halted));
    assert_eq!(machine.get_stack(), &vec![1]);
}

#[test]
fn load_replaces_the_program_and_its_labels_only() {
    let mut machine = loaded(vec![
        Instruction::Push(5),
        Instruction::Store(1),
        Instruction::Push(7),
        label("old"),
    ]);
    assert_eq!(machine.execute_steps(3), Ok(Status::Ready));
    assert_eq!(
        machine.load_program(vec![
            label("new"),
            Instruction::Halt,
            Instruction::Halt,
            Instruction::Jump("old".to_string()),
        ]),
        Ok(())
    );
    assert_eq!(machine.get_stack(), &vec![7]);
    assert_eq!(machine.get_memory().get(&1), Some(&5));
    assert_eq!(machine.get_program_counter(), 3);
    assert_eq!(machine.step(), fault(ErrorKind::UnknownLabel, 3));
}

#[test]
fn halt_stops_at_once() {
    let mut machine =
        loaded(vec![Instruction::Push(1), Instruction::Halt, Instruction::Push(2)]);
    assert_eq!(machine.step(), Ok(Status::Ready));
    assert_eq!(machine.step(), Ok(Status::Halted));
    assert_eq!(machine.get_program_counter(), 3);
    assert_eq!(machine.get_stack(), &vec![1]);
}

#[test]
fn halted_machine_does_not_move() {
    let mut machine = run(vec![Instruction::Push(1)]);
    assert_eq!(machine.step(), Ok(Status::Halted));
    assert_eq!(machine.execute(), Ok(Status::Halted));
    assert_eq!(machine.execute_steps(0), Ok(Status::Halted));
    assert_eq!(machine.get_stack(), &vec![1]);
    assert_eq!(machine.get_program_counter(), 1);
}

#[test]
fn label_marker_does_nothing() {
    let machine = run(vec![Instruction::Push(1), label("x"), Instruction::Push(2)]);
    assert_eq!(machine.get_stack(), &vec![1, 2]);
    assert_eq!(machine.get_program_counter(), 3);
}

#[test]
fn store_then_load_gives_the_value_back() {
    let machine = run(vec![Instruction::Push(77), Instruction::Store(5), Instruction::Load(5)]);
    assert_eq!(machine.get_stack(), &vec![77]);
    assert_eq!(machine.get_memory().get(&5), Some(&77));
}

#[test]
fn store_pops_the_value() {
    let machine = run(vec![Instruction::Push(1), Instruction::Push(2), Instruction::Store(-3)]);
    assert_eq!(machine.get_stack(), &vec![1]);
    assert_eq!(machine.get_memory().get(&-3), Some(&2));
}

#[test]
fn load_of_unwritten_address_gives_zero() {
    let machine = run(vec![Instruction::Load(5)]);
    assert_eq!(machine.get_stack(), &vec![0]);
    assert!(machine.get_memory().is_empty());
}

#[test]
fn free_then_load_gives_zero() {
    let machine = run(vec![
        Instruction::Push(77),
        Instruction::Store(5),
        Instruction::Free(5),
        Instruction::Load(5),
    ]);
    assert_eq!(machine.get_stack(), &vec![0]);
    assert!(machine.get_memory().is_empty());
}

#[test]
fn free_of_unwritten_address_changes_nothing() {
    let machine = run(vec![Instruction::Push(1), Instruction::Store(2), Instruction::Free(3)]);
    assert_eq!(machine.get_memory().len(), 1);
}

#[test]
fn alloc_zeroes_addresses_from_zero() {
    let machine = run(vec![
        Instruction::Push(9),
        Instruction::Store(1),
        Instruction::Push(8),
        Instruction::Store(10),
        Instruction::Alloc(3),
    ]);
    let expected: HashMap<i32, i32> = [(0, 0), (1, 0), (2, 0), (10, 8)].into_iter().collect();
    assert_eq!(machine.get_memory(), &expected);
}

#[test]
fn alloc_of_nothing_changes_nothing() {
    assert!(run(vec![Instruction::Alloc(0)]).get_memory().is_empty());
    assert!(run(vec![Instruction::Alloc(-4)]).get_memory().is_empty());
}

#[test]
fn print_on_empty_stack_says_so() {
    let machine = run(vec![Instruction::Print]);
    assert_eq!(machine.get_output(), &vec![Output::EmptyStack]);
    assert!(machine.get_stack().is_empty());
}

#[test]
fn write_emits_its_message() {
    let machine = run(vec![Instruction::Push(1), Instruction::Write("hello".to_string())]);
    assert_eq!(machine.get_output(), &vec![Output::Message("hello".to_string())]);
    assert_eq!(machine.get_stack(), &vec![1]);
}

#[test]
fn dump_changes_neither_stack_nor_memory() {
    let mut machine = loaded(vec![
        Instruction::Push(1),
        Instruction::Push(2),
        Instruction::Store(7),
        Instruction::Dump,
        Instruction::Dump,
    ]);
    assert_eq!(machine.execute_steps(3), Ok(Status::Ready));
    let stack = machine.get_stack().clone();
    let memory = machine.get_memory().clone();
    assert_eq!(machine.execute(), Ok(Status::Halted));
    assert_eq!(machine.get_stack(), &stack);
    assert_eq!(machine.get_memory(), &memory);
    let snapshot =
        Output::Snapshot { stack: vec![1], memory: [(7, 2)].into_iter().collect() };
    assert_eq!(machine.get_output(), &vec![snapshot.clone(), snapshot]);
}

#[test]
fn trace_sets_the_flag() {
    let mut machine = loaded(vec![Instruction::Trace(true), Instruction::Trace(false)]);
    assert_eq!(machine.step(), Ok(Status::Ready));
    assert!(machine.is_tracing());
    assert!(machine.get_output().is_empty());
    assert_eq!(machine.step(), Ok(Status::Halted));
    assert!(!machine.is_tracing());
}

#[test]
fn read_waits_until_a_value_is_pushed() {
    let mut machine = loaded(vec![
        Instruction::Push(1),
        Instruction::Read,
        Instruction::Push(2),
        Instruction::Mul,
    ]);
    assert_eq!(machine.execute(), Ok(Status::AwaitingInput));
    assert_eq!(machine.status(), Status::AwaitingInput);
    assert_eq!(machine.input_request(), Some(InputKind::Number));
    assert_eq!(machine.get_program_counter(), 2);
    // Stepping and running are no-ops while the request is pending.
    assert_eq!(machine.step(), Ok(Status::AwaitingInput));
    assert_eq!(machine.execute(), Ok(Status::AwaitingInput));
    assert_eq!(machine.get_program_counter(), 2);
    assert_eq!(machine.get_stack(), &vec![1]);
    // A line is not what it waits for.
    assert!(!machine.push_line("21"));
    assert_eq!(machine.status(), Status::AwaitingInput);

    assert!(machine.push_value(21));
    assert_eq!(machine.status(), Status::Ready);
    assert_eq!(machine.input_request(), None);
    assert_eq!(machine.get_stack(), &vec![1, 21]);
    assert_eq!(machine.get_program_counter(), 2);
    assert_eq!(machine.execute(), Ok(Status::Halted));
    assert_eq!(machine.get_stack(), &vec![1, 42]);
}

#[test]
fn read_as_last_instruction_waits_before_halting() {
    let mut machine = loaded(vec![Instruction::Read]);
    assert_eq!(machine.execute(), Ok(Status::AwaitingInput));
    assert!(machine.push_value(3));
    assert_eq!(machine.status(), Status::Halted);
    assert_eq!(machine.get_stack(), &vec![3]);
}

#[test]
fn value_without_request_is_refused() {
    let mut machine = loaded(vec![Instruction::Push(1)]);
    assert!(!machine.push_value(5));
    assert!(!machine.push_line("x"));
    assert_eq!(machine.push_input("5"), Ok(false));
    assert!(machine.get_stack().is_empty());
    assert!(machine.get_output().is_empty());
    assert_eq!(machine.status(), Status::Ready);
}

#[test]
fn text_that_is_no_number_keeps_the_machine_waiting() {
    let mut machine = loaded(vec![Instruction::Read, Instruction::Print]);
    assert_eq!(machine.execute(), Ok(Status::AwaitingInput));
    assert_eq!(machine.push_input("twelve"), Err(ErrorKind::InputParseError));
    assert_eq!(machine.status(), Status::AwaitingInput);
    assert!(machine.get_stack().is_empty());
    assert_eq!(machine.push_input(""), Err(ErrorKind::InputParseError));
    assert_eq!(machine.push_input("99999999999"), Err(ErrorKind::InputParseError));
    assert_eq!(machine.status(), Status::AwaitingInput);
    assert_eq!(machine.push_input("  -12\n"), Ok(true));
    assert_eq!(machine.status(), Status::Ready);
    assert_eq!(machine.execute(), Ok(Status::Halted));
    assert_eq!(machine.get_output(), &vec![Output::Number(-12)]);
}

#[test]
fn scan_shows_the_line_and_leaves_the_stack() {
    let mut machine = loaded(vec![Instruction::Push(1), Instruction::Scan, Instruction::Push(2)]);
    assert_eq!(machine.execute(), Ok(Status::AwaitingInput));
    assert_eq!(machine.input_request(), Some(InputKind::Line));
    assert!(!machine.push_value(5));
    assert_eq!(machine.step(), Ok(Status::AwaitingInput));
    assert!(machine.push_line("  some text \r\n"));
    assert_eq!(machine.get_output(), &vec![Output::Scanned("some text".to_string())]);
    assert_eq!(machine.get_stack(), &vec![1]);
    assert_eq!(machine.execute(), Ok(Status::Halted));
    assert_eq!(machine.get_stack(), &vec![1, 2]);
}

#[test]
fn scan_takes_any_text_through_push_input() {
    let mut machine = loaded(vec![Instruction::Scan]);
    assert_eq!(machine.execute(), Ok(Status::AwaitingInput));
    assert_eq!(machine.push_input("not a number\n"), Ok(true));
    assert_eq!(machine.get_output(), &vec![Output::Scanned("not a number".to_string())]);
    assert_eq!(machine.status(), Status::Halted);
}

#[test]
fn execute_steps_stops_when_the_steps_are_used_up() {
    let mut machine = loaded(vec![
        label("loop"),
        Instruction::Push(1),
        Instruction::Jump("loop".to_string()),
    ]);
    assert_eq!(machine.execute_steps(9), Ok(Status::Ready));
    assert_eq!(machine.get_stack(), &vec![1, 1, 1]);
    assert_eq!(machine.get_program_counter(), 0);
    assert_eq!(machine.execute_steps(2), Ok(Status::Ready));
    assert_eq!(machine.get_stack(), &vec![1, 1, 1, 1]);
    assert_eq!(machine.get_program_counter(), 2);
    assert_eq!(machine.execute_steps(0), Ok(Status::Ready));
    assert_eq!(machine.get_program_counter(), 2);
}

#[test]
fn running_in_parts_is_running_at_once() {
    let program = gcd_program(48, 18);
    let whole = run(program.clone());
    let mut parts = loaded(program);
    let mut rounds = 0;
    while parts.execute_steps(7) == Ok(Status::Ready) {
        rounds += 1;
        assert!(rounds < 1000);
    }
    assert_eq!(parts.get_stack(), whole.get_stack());
    assert_eq!(parts.get_program_counter(), whole.get_program_counter());
}

#[test]
fn take_output_empties_the_output() {
    let mut machine = run(vec![Instruction::Push(4), Instruction::Print]);
    assert_eq!(machine.take_output(), vec![Output::Number(4)]);
    assert!(machine.get_output().is_empty());
    assert!(machine.take_output().is_empty());
    assert_eq!(machine.get_stack(), &vec![4]);
}

#[test]
fn sample_session_with_input() {
    let mut machine = loaded(vec![
        Instruction::Push(10),
        Instruction::Push(20),
        Instruction::Add,
        Instruction::Print,
        Instruction::Push(5),
        Instruction::Mul,
        Instruction::Print,
        Instruction::Write("Enter a number:".to_string()),
        Instruction::Read,
        Instruction::Push(2),
        Instruction::Mul,
        Instruction::Print,
        Instruction::Halt,
    ]);
    assert_eq!(machine.execute(), Ok(Status::AwaitingInput));
    assert_eq!(
        machine.take_output(),
        vec![
            Output::Number(30),
            Output::Number(150),
            Output::Message("Enter a number:".to_string())
        ]
    );
    assert_eq!(machine.push_input("4"), Ok(true));
    assert_eq!(machine.execute(), Ok(Status::Halted));
    assert_eq!(machine.take_output(), vec![Output::Number(8)]);
    assert_eq!(machine.get_stack(), &vec![150, 8]);
}
