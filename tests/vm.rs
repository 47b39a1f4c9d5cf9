use stack_vm::machine::{run, Machine, Status};
use stack_vm::program::{lookup_label, Frame, FrameInfo, Instruction, Label, Program};
use stack_vm::value::{apply_binary, apply_int, ArithOp, BinaryOp, CmpOp, Error, Value};

fn label(name: &str, position: usize) -> Label {
    Label { name: String::from(name), info: FrameInfo { num_bindings: 0, position } }
}

fn program(instructions: Vec<Instruction>, labels: Vec<Label>) -> Program {
    Program::new(instructions, labels).unwrap()
}

fn main_program(instructions: Vec<Instruction>) -> Program {
    program(instructions, vec![label("main", 0)])
}

const STEPS: u64 = 10_000;

#[test]
fn jump_keeps_stranded_value() {
    let p = program(
        vec![
            Instruction::Literal(Value::Int(3)),
            Instruction::Literal(Value::Int(2)),
            Instruction::Sub,
            Instruction::Jump(String::from("foo")),
            Instruction::Literal(Value::Int(5)),
            Instruction::Output,
            Instruction::Exit,
        ],
        vec![label("main", 0), label("foo", 4)],
    );
    let r = run(&p, STEPS);
    assert_eq!(r.status, Status::Halted);
    assert_eq!(r.machine.output, vec![Value::Int(5)]);
    assert_eq!(r.machine.stack, vec![Value::Int(1)]);
    assert_eq!(r.machine.ip, 6);
}

#[test]
fn sample_program_with_trap_after_exit() {
    let p = program(
        vec![
            Instruction::Literal(Value::Int(3)),
            Instruction::Literal(Value::Int(2)),
            Instruction::Sub,
            Instruction::Jump(String::from("foo")),
            Instruction::Literal(Value::Int(5)),
            Instruction::Output,
            Instruction::Exit,
            Instruction::Unreachable,
        ],
        vec![label("main", 0), label("foo", 5)],
    );
    let r = run(&p, STEPS);
    // `foo` points at `Output`, which prints the 1 left by `3 - 2`.
    assert_eq!(r.status, Status::Halted);
    assert_eq!(r.machine.output, vec![Value::Int(1)]);
    assert!(r.machine.stack.is_empty());
}

#[test]
fn arithmetic_chain_prints_one() {
    let p = main_program(vec![
        Instruction::Literal(Value::Int(1)),
        Instruction::Literal(Value::Int(1)),
        Instruction::Add,
        Instruction::Literal(Value::Int(2)),
        Instruction::Mul,
        Instruction::Literal(Value::Int(1)),
        Instruction::Sub,
        Instruction::Literal(Value::Int(2)),
        Instruction::IntDiv,
        Instruction::Output,
    ]);
    let r = run(&p, STEPS);
    assert_eq!(r.status, Status::Halted);
    assert_eq!(r.machine.output, vec![Value::Int(1)]);
    assert!(r.machine.stack.is_empty());
}

#[test]
fn literals_push_in_order() {
    let p = main_program(vec![
        Instruction::Literal(Value::Int(7)),
        Instruction::Literal(Value::Bool(true)),
        Instruction::Literal(Value::Int(-2)),
    ]);
    let r = run(&p, STEPS);
    assert_eq!(r.status, Status::Halted);
    assert_eq!(r.machine.stack, vec![Value::Int(7), Value::Bool(true), Value::Int(-2)]);
    assert!(r.machine.output.is_empty());
}

#[test]
fn literals_from_main_onward() {
    let p = program(
        vec![Instruction::Literal(Value::Int(1)), Instruction::Literal(Value::Int(2))],
        vec![label("main", 1)],
    );
    let r = run(&p, STEPS);
    assert_eq!(r.status, Status::Halted);
    assert_eq!(r.machine.stack, vec![Value::Int(2)]);
}

fn binary_output(a: i32, b: i32, op: Instruction) -> Observed {
    let r = run(&main_program(vec![
        Instruction::Literal(Value::Int(a)),
        Instruction::Literal(Value::Int(b)),
        op,
        Instruction::Output,
    ]), STEPS);
    (r.status, r.machine.output)
}

type Observed = (Status, Vec<Value>);

#[test]
fn sub_uses_left_operand_first() {
    assert_eq!(binary_output(5, 2, Instruction::Sub), (Status::Halted, vec![Value::Int(3)]));
}

#[test]
fn operators_take_operands_in_push_order() {
    assert_eq!(binary_output(5, 2, Instruction::Add), (Status::Halted, vec![Value::Int(7)]));
    assert_eq!(binary_output(-4, 6, Instruction::Mul), (Status::Halted, vec![Value::Int(-24)]));
    assert_eq!(binary_output(7, 2, Instruction::IntDiv), (Status::Halted, vec![Value::Int(3)]));
    assert_eq!(binary_output(2, 7, Instruction::IntDiv), (Status::Halted, vec![Value::Int(0)]));
    assert_eq!(binary_output(2, 7, Instruction::Less), (Status::Halted, vec![Value::Bool(true)]));
    assert_eq!(binary_output(2, 7, Instruction::Greater), (Status::Halted, vec![Value::Bool(false)]));
}

#[test]
fn division_truncates_toward_zero() {
    assert_eq!(binary_output(-7, 2, Instruction::IntDiv), (Status::Halted, vec![Value::Int(-3)]));
    assert_eq!(binary_output(7, -2, Instruction::IntDiv), (Status::Halted, vec![Value::Int(-3)]));
    assert_eq!(binary_output(-7, -2, Instruction::IntDiv), (Status::Halted, vec![Value::Int(3)]));
    assert_eq!(apply_int(ArithOp::IntDiv, -9, 4), Ok(-2));
}

#[test]
fn division_by_zero_is_reported() {
    let (status, output) = binary_output(5, 0, Instruction::IntDiv);
    assert_eq!(status, Status::Failed(Error::DivisionByZero));
    assert!(output.is_empty());
    let r = run(&main_program(vec![
        Instruction::Literal(Value::Int(9)),
        Instruction::Literal(Value::Int(0)),
        Instruction::IntDiv,
    ]), STEPS);
    assert_eq!(r.status, Status::Failed(Error::DivisionByZero));
    assert_eq!(r.machine.stack, vec![Value::Int(9), Value::Int(0)]);
    assert_eq!(r.machine.ip, 2);
}

#[test]
fn overflow_is_reported() {
    assert_eq!(binary_output(i32::MAX, 1, Instruction::Add).0, Status::Failed(Error::Overflow));
    assert_eq!(binary_output(i32::MIN, 1, Instruction::Sub).0, Status::Failed(Error::Overflow));
    assert_eq!(binary_output(65536, 65536, Instruction::Mul).0, Status::Failed(Error::Overflow));
    assert_eq!(binary_output(i32::MIN, -1, Instruction::IntDiv).0, Status::Failed(Error::Overflow));
    assert_eq!(binary_output(i32::MAX, 0, Instruction::Add), (Status::Halted, vec![Value::Int(i32::MAX)]));
}

#[test]
fn missing_main_fails_before_any_instruction() {
    let p = program(
        vec![Instruction::Literal(Value::Int(1)), Instruction::Output],
        vec![label("start", 0)],
    );
    let r = run(&p, STEPS);
    assert_eq!(r.status, Status::Failed(Error::NoMain));
    assert!(r.machine.stack.is_empty());
    assert!(r.machine.output.is_empty());
    assert_eq!(r.machine.ip, 0);
}

#[test]
fn jump_to_missing_label_keeps_stack() {
    let p = main_program(vec![
        Instruction::Literal(Value::Int(4)),
        Instruction::Literal(Value::Bool(false)),
        Instruction::Jump(String::from("nowhere")),
        Instruction::Output,
    ]);
    let r = run(&p, STEPS);
    assert_eq!(r.status, Status::Failed(Error::MissingLabel));
    assert_eq!(r.machine.stack, vec![Value::Int(4), Value::Bool(false)]);
    assert_eq!(r.machine.ip, 2);
}

#[test]
fn falling_off_the_end_is_success() {
    let p = main_program(vec![
        Instruction::Literal(Value::Int(1)),
        Instruction::Output,
    ]);
    let r = run(&p, STEPS);
    assert_eq!(r.status, Status::Halted);
    assert_eq!(r.machine.ip, 2);
    assert_eq!(r.machine.output, vec![Value::Int(1)]);
}

#[test]
fn empty_program_halts() {
    let r = run(&main_program(vec![]), STEPS);
    assert_eq!(r.status, Status::Halted);
    assert!(r.machine.stack.is_empty());
}

#[test]
fn label_past_the_end_is_instruction_overflow() {
    let p = program(vec![Instruction::Exit], vec![label("main", 3)]);
    assert_eq!(run(&p, STEPS).status, Status::Failed(Error::InstructionOverflow));
}

#[test]
fn unreachable_always_fails() {
    for prefix in [vec![], vec![Instruction::Literal(Value::Int(1)), Instruction::Literal(Value::Bool(true))]] {
        let n = prefix.len();
        let mut instructions = prefix;
        instructions.push(Instruction::Unreachable);
        let r = run(&main_program(instructions), STEPS);
        assert_eq!(r.status, Status::Failed(Error::Unreachable));
        assert_eq!(r.machine.stack.len(), n);
        assert_eq!(r.machine.ip, n);
    }
}

#[test]
fn stack_underflow_is_reported() {
    let r = run(&main_program(vec![Instruction::Literal(Value::Int(1)), Instruction::Add]), STEPS);
    assert_eq!(r.status, Status::Failed(Error::StackUnderflow));
    assert_eq!(r.machine.stack, vec![Value::Int(1)]);
    let r = run(&main_program(vec![Instruction::Output]), STEPS);
    assert_eq!(r.status, Status::Failed(Error::StackUnderflow));
}

#[test]
fn mismatched_types_are_invalid() {
    let r = run(&main_program(vec![
        Instruction::Literal(Value::Int(1)),
        Instruction::Literal(Value::Bool(true)),
        Instruction::Equal,
    ]), STEPS);
    assert_eq!(r.status, Status::Failed(Error::InvalidTypes));
    let r = run(&main_program(vec![
        Instruction::Literal(Value::Bool(true)),
        Instruction::Literal(Value::Bool(true)),
        Instruction::Add,
    ]), STEPS);
    assert_eq!(r.status, Status::Failed(Error::InvalidTypes));
}

#[test]
fn comparisons_on_each_variant() {
    let less = BinaryOp::Compare(CmpOp::Less);
    assert_eq!(apply_binary(less, Value::Bool(false), Value::Bool(true)), Ok(Value::Bool(true)));
    assert_eq!(apply_binary(less, Value::Bool(true), Value::Bool(false)), Ok(Value::Bool(false)));
    assert_eq!(apply_binary(BinaryOp::Compare(CmpOp::Equal), Value::Bool(true), Value::Bool(true)), Ok(Value::Bool(true)));
    assert_eq!(apply_binary(BinaryOp::Compare(CmpOp::LessEq), Value::Int(3), Value::Int(3)), Ok(Value::Bool(true)));
    assert_eq!(apply_binary(BinaryOp::Compare(CmpOp::GreaterEq), Value::Int(2), Value::Int(3)), Ok(Value::Bool(false)));
    assert_eq!(apply_binary(BinaryOp::Compare(CmpOp::Equal), Value::Int(2), Value::Int(3)), Ok(Value::Bool(false)));
    assert_eq!(apply_binary(less, Value::Int(2), Value::Bool(true)), Err(Error::InvalidTypes));
}

#[test]
fn backward_jump_loops_until_step_bound() {
    let p = program(
        vec![Instruction::Literal(Value::Int(0)), Instruction::Jump(String::from("main"))],
        vec![label("main", 0)],
    );
    let r = run(&p, 10);
    assert_eq!(r.status, Status::OutOfSteps);
    assert_eq!(r.machine.stack.len(), 5);
}

#[test]
fn duplicate_labels_are_refused() {
    let r = Program::new(vec![Instruction::Exit], vec![label("main", 0), label("a", 0), label("main", 0)]);
    assert!(matches!(r, Err(Error::DuplicateLabel)));
    assert!(Program::new(vec![], vec![label("main", 0), label("a", 0)]).is_ok());
}

#[test]
fn lookup_finds_each_label() {
    let labels = vec![label("main", 0), label("foo", 4)];
    assert_eq!(lookup_label(&labels, &String::from("foo")), Some(FrameInfo { num_bindings: 0, position: 4 }));
    assert_eq!(lookup_label(&labels, &String::from("bar")), None);
}

#[test]
fn machine_steps_one_instruction() {
    let p = main_program(vec![Instruction::Literal(Value::Int(8)), Instruction::Exit]);
    let mut m = Machine::new(0);
    m.step(&p);
    assert_eq!(m.stack, vec![Value::Int(8)]);
    assert_eq!(m.ip, 1);
}

#[test]
fn new_frame_has_empty_slots() {
    let f = Frame::new(3);
    assert_eq!(f.num_bindings, 3);
    assert_eq!(f.bindings, vec![None, None, None]);
}
