//! Properties of whole runs, proved from the step model.
use crate::machine::{execute_model, run_model, start_at, step_model, Flow, MachineModel, Status};
use crate::program::{find_label, main_name, Instruction, Program};
use crate::value::{exact_arith, fits_i32, int_outcome, ArithOp, Error, Value};
use vstd::prelude::*;

verus! {

/// Every instruction is a `Literal`.
pub open spec fn all_literals(instrs: Seq<Instruction>) -> bool {
    forall|i: int| 0 <= i < instrs.len() ==> #[trigger] instrs[i] is Literal
}

/// The values that a sequence of literals pushes, in order.
pub open spec fn literal_values(instrs: Seq<Instruction>) -> Seq<Value> {
    instrs.map_values(|i: Instruction| i->Literal_0)
}

/// The instruction of an integer operator.
pub open spec fn arith_instruction(op: ArithOp) -> Instruction {
    match op {
        ArithOp::Add => Instruction::Add,
        ArithOp::Sub => Instruction::Sub,
        ArithOp::Mul => Instruction::Mul,
        ArithOp::IntDiv => Instruction::IntDiv,
    }
}

proof fn lemma_run_literals(p: &Program, s: MachineModel, fuel: nat)
    requires
        all_literals(p.instructions@),
        0 <= s.ip <= p.instructions@.len(),
        fuel >= p.instructions@.len() - s.ip,
    ensures
        run_model(p, s, fuel) == (
            MachineModel {
                ip: p.instructions@.len() as int,
                stack: s.stack + literal_values(p.instructions@.subrange(s.ip, p.instructions@.len() as int)),
                output: s.output,
            },
            Status::Halted,
        ),
    decreases p.instructions@.len() - s.ip,
{
    let instrs = p.instructions@;
    let len = instrs.len() as int;
    if s.ip == len {
        assert(s.stack + literal_values(instrs.subrange(s.ip, len)) =~= s.stack);
    } else {
        assert(instrs[s.ip] is Literal);
        let v = instrs[s.ip]->Literal_0;
        let t = MachineModel { ip: s.ip + 1, stack: s.stack.push(v), ..s };
        assert(step_model(p, s) == (t, Flow::Continue));
        lemma_run_literals(p, t, (fuel - 1) as nat);
        assert(t.stack + literal_values(instrs.subrange(t.ip, len)) =~= s.stack + literal_values(
            instrs.subrange(s.ip, len),
        ));
    }
}

/// A program made only of literals, run from `main`, halts with the values
/// of the literals from `main` onward on the data stack, in the order they
/// were pushed, and emits nothing.
pub proof fn lemma_literals_push_in_order(p: &Program, fuel: nat)
    requires
        all_literals(p.instructions@),
        find_label(p.labels@, main_name()) is Some,
        find_label(p.labels@, main_name())->0.position <= p.instructions@.len(),
        fuel >= p.instructions@.len() - find_label(p.labels@, main_name())->0.position,
    ensures
        execute_model(p, fuel) == (
            MachineModel {
                ip: p.instructions@.len() as int,
                stack: literal_values(
                    p.instructions@.subrange(
                        find_label(p.labels@, main_name())->0.position as int,
                        p.instructions@.len() as int,
                    ),
                ),
                output: Seq::empty(),
            },
            Status::Halted,
        ),
{
    let pos = find_label(p.labels@, main_name())->0.position as int;
    lemma_run_literals(p, start_at(pos), fuel);
    assert(Seq::<Value>::empty() + literal_values(
        p.instructions@.subrange(pos, p.instructions@.len() as int),
    ) =~= literal_values(p.instructions@.subrange(pos, p.instructions@.len() as int)));
}

/// Running `[Literal(Int a), Literal(Int b), op, Output]` from address zero
/// emits `a op b`, with `a` as the left operand, whenever that result is
/// defined and fits in an `i32`; otherwise the run fails at `op` with the
/// error that the operator reports.
pub proof fn lemma_binary_operand_order(p: &Program, op: ArithOp, a: i32, b: i32, fuel: nat)
    requires
        p.instructions@ == seq![
            Instruction::Literal(Value::Int(a)),
            Instruction::Literal(Value::Int(b)),
            arith_instruction(op),
            Instruction::Output,
        ],
        find_label(p.labels@, main_name()) is Some,
        find_label(p.labels@, main_name())->0.position == 0,
        fuel >= 4,
    ensures
        !(op == ArithOp::IntDiv && b == 0) && fits_i32(exact_arith(op, a as int, b as int))
            ==> execute_model(p, fuel) == (
            MachineModel {
                ip: 4,
                stack: Seq::empty(),
                output: seq![Value::Int(exact_arith(op, a as int, b as int) as i32)],
            },
            Status::Halted,
        ),
        int_outcome(op, a, b) matches Err(e) ==> execute_model(p, fuel).1 == Status::Failed(e),
{
    let s0 = start_at(0);
    let s1 = MachineModel { ip: 1, stack: seq![Value::Int(a)], output: Seq::empty() };
    let s2 = MachineModel { ip: 2, stack: seq![Value::Int(a), Value::Int(b)], output: Seq::empty() };
    assert(step_model(p, s0) == (s1, Flow::Continue)) by {
        assert(s0.stack.push(Value::Int(a)) =~= s1.stack);
    }
    assert(step_model(p, s1) == (s2, Flow::Continue)) by {
        assert(s1.stack.push(Value::Int(b)) =~= s2.stack);
    }
    assert(run_model(p, s0, fuel) == run_model(p, s1, (fuel - 1) as nat));
    assert(run_model(p, s1, (fuel - 1) as nat) == run_model(p, s2, (fuel - 2) as nat));
    match int_outcome(op, a, b) {
        Ok(r) => {
            let s3 = MachineModel { ip: 3, stack: seq![Value::Int(r)], output: Seq::empty() };
            let s4 = MachineModel { ip: 4, stack: Seq::empty(), output: seq![Value::Int(r)] };
            assert(step_model(p, s2) == (s3, Flow::Continue)) by {
                assert(s2.stack.subrange(0, 0).push(Value::Int(r)) =~= s3.stack);
            }
            assert(step_model(p, s3) == (s4, Flow::Continue)) by {
                assert(s3.stack.drop_last() =~= s4.stack);
                assert(s3.output.push(Value::Int(r)) =~= s4.output);
            }
            assert(run_model(p, s2, (fuel - 2) as nat) == run_model(p, s3, (fuel - 3) as nat));
            assert(run_model(p, s3, (fuel - 3) as nat) == run_model(p, s4, (fuel - 4) as nat));
        },
        Err(e) => {
            assert(step_model(p, s2) == (s2, Flow::Fail(e)));
        },
    }
}

/// `IntDiv` with an `Int` zero on top of an `Int` fails with
/// `DivisionByZero` and leaves the state as it was.
pub proof fn lemma_division_by_zero(p: &Program, s: MachineModel, fuel: nat)
    requires
        0 <= s.ip < p.instructions@.len(),
        p.instructions@[s.ip] is IntDiv,
        s.stack.len() >= 2,
        s.stack[s.stack.len() - 2] is Int,
        s.stack.last() == Value::Int(0),
        fuel > 0,
    ensures
        step_model(p, s) == (s, Flow::Fail(Error::DivisionByZero)),
        run_model(p, s, fuel) == (s, Status::Failed(Error::DivisionByZero)),
{
}

/// A program without a `main` label fails with `NoMain` before any
/// instruction executes: nothing is pushed and nothing is emitted.
pub proof fn lemma_no_main(p: &Program, fuel: nat)
    requires
        find_label(p.labels@, main_name()) is None,
    ensures
        execute_model(p, fuel) == (start_at(0), Status::Failed(Error::NoMain)),
{
}

/// A `Jump` to a label absent from the table fails with `MissingLabel` and
/// leaves the data stack, the output and the pointer as they were.
pub proof fn lemma_missing_label(p: &Program, s: MachineModel, fuel: nat)
    requires
        0 <= s.ip < p.instructions@.len(),
        p.instructions@[s.ip] is Jump,
        find_label(p.labels@, p.instructions@[s.ip]->Jump_0@) is None,
        fuel > 0,
    ensures
        step_model(p, s) == (s, Flow::Fail(Error::MissingLabel)),
        run_model(p, s, fuel) == (s, Status::Failed(Error::MissingLabel)),
{
}

/// A run whose pointer reaches the end of the instruction sequence halts
/// successfully; in particular a step of the last instruction that advances
/// the pointer ends the run with success, not with `InstructionOverflow`.
pub proof fn lemma_fall_off_end(p: &Program, s: MachineModel, fuel: nat)
    requires
        0 <= s.ip <= p.instructions@.len(),
    ensures
        s.ip == p.instructions@.len() ==> run_model(p, s, fuel) == (s, Status::Halted),
        s.ip == p.instructions@.len() - 1 && fuel > 0 && step_model(p, s).1 == Flow::Continue
            && step_model(p, s).0.ip == s.ip + 1 ==> run_model(p, s, fuel) == (
            step_model(p, s).0,
            Status::Halted,
        ),
{
    let (t, flow) = step_model(p, s);
    if s.ip == p.instructions@.len() - 1 && fuel > 0 && flow == Flow::Continue && t.ip == s.ip + 1 {
        assert(run_model(p, s, fuel) == run_model(p, t, (fuel - 1) as nat));
        assert(run_model(p, t, (fuel - 1) as nat) == (t, Status::Halted));
    }
}

/// Executing `Unreachable` fails with the `Unreachable` error whatever the
/// data stack holds, and leaves the state as it was.
pub proof fn lemma_unreachable(p: &Program, s: MachineModel, fuel: nat)
    requires
        0 <= s.ip < p.instructions@.len(),
        p.instructions@[s.ip] is Unreachable,
        fuel > 0,
    ensures
        step_model(p, s) == (s, Flow::Fail(Error::Unreachable)),
        run_model(p, s, fuel) == (s, Status::Failed(Error::Unreachable)),
{
}

} // verus!
