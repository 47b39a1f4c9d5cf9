//! The execution engine: a model of one step, the step itself, and a run
//! from the entry point.
use crate::program::{find_label, lookup_label, lookup_main, main_name, Instruction, Program};
use crate::value::{apply_binary, binary_outcome, ArithOp, BinaryOp, CmpOp, Error, Value};
use vstd::prelude::*;

verus! {

/// The mutable state of a run: the instruction pointer, the data stack
/// (top last) and the values emitted by `Output`, in order.
pub struct Machine {
    pub ip: usize,
    pub stack: Vec<Value>,
    pub output: Vec<Value>,
}

/// The mathematical state of a run.
pub struct MachineModel {
    pub ip: int,
    pub stack: Seq<Value>,
    pub output: Seq<Value>,
}

impl View for Machine {
    type V = MachineModel;

    open spec fn view(&self) -> MachineModel {
        MachineModel { ip: self.ip as int, stack: self.stack@, output: self.output@ }
    }
}

/// What a single step asks of the run.
#[derive(Debug, Clone, Copy, PartialEq, Eq, Structural)]
pub enum Flow {
    /// Go on with the next step.
    Continue,
    /// `Exit` was executed.
    Halt,
    /// The step failed; the state is left as it was before the step.
    Fail(Error),
}

/// How a run ended.
#[derive(Debug, Clone, Copy, PartialEq, Eq, Structural)]
pub enum Status {
    /// `Exit` was executed, or the instruction pointer reached the end.
    Halted,
    /// The run stopped on an error.
    Failed(Error),
    /// The step bound given to the run was used up first.
    OutOfSteps,
}

/// The final state of a run and how it ended.
pub struct Execution {
    pub machine: Machine,
    pub status: Status,
}

/// A state with empty stacks at `ip`.
pub open spec fn start_at(ip: int) -> MachineModel {
    MachineModel { ip, stack: Seq::empty(), output: Seq::empty() }
}

/// A binary operator pops its right operand (the top), then its left one,
/// and pushes the result.
pub open spec fn binary_model(s: MachineModel, op: BinaryOp) -> (MachineModel, Flow) {
    let n = s.stack.len();
    if n < 2 {
        (s, Flow::Fail(Error::StackUnderflow))
    } else {
        match binary_outcome(op, s.stack[n - 2], s.stack[n - 1]) {
            Ok(v) => (
                MachineModel { ip: s.ip + 1, stack: s.stack.subrange(0, n - 2).push(v), ..s },
                Flow::Continue,
            ),
            Err(e) => (s, Flow::Fail(e)),
        }
    }
}

/// One step of `p` from `s`, whose pointer addresses an instruction.
pub open spec fn step_model(p: &Program, s: MachineModel) -> (MachineModel, Flow)
    recommends
        0 <= s.ip < p.instructions@.len(),
{
    match p.instructions@[s.ip] {
        Instruction::Literal(v) => (
            MachineModel { ip: s.ip + 1, stack: s.stack.push(v), ..s },
            Flow::Continue,
        ),
        Instruction::Add => binary_model(s, BinaryOp::Arith(ArithOp::Add)),
        Instruction::Sub => binary_model(s, BinaryOp::Arith(ArithOp::Sub)),
        Instruction::Mul => binary_model(s, BinaryOp::Arith(ArithOp::Mul)),
        Instruction::IntDiv => binary_model(s, BinaryOp::Arith(ArithOp::IntDiv)),
        Instruction::Output => if s.stack.len() == 0 {
            (s, Flow::Fail(Error::StackUnderflow))
        } else {
            (
                MachineModel {
                    ip: s.ip + 1,
                    stack: s.stack.drop_last(),
                    output: s.output.push(s.stack.last()),
                },
                Flow::Continue,
            )
        },
        Instruction::Equal => binary_model(s, BinaryOp::Compare(CmpOp::Equal)),
        Instruction::Less => binary_model(s, BinaryOp::Compare(CmpOp::Less)),
        Instruction::Greater => binary_model(s, BinaryOp::Compare(CmpOp::Greater)),
        Instruction::LessEq => binary_model(s, BinaryOp::Compare(CmpOp::LessEq)),
        Instruction::GreaterEq => binary_model(s, BinaryOp::Compare(CmpOp::GreaterEq)),
        Instruction::Exit => (s, Flow::Halt),
        Instruction::Unreachable => (s, Flow::Fail(Error::Unreachable)),
        Instruction::Jump(name) => match find_label(p.labels@, name@) {
            Some(info) => (MachineModel { ip: info.position as int, ..s }, Flow::Continue),
            None => (s, Flow::Fail(Error::MissingLabel)),
        },
    }
}

/// Runs `p` from `s` for at most `fuel` steps. Reaching the end of the
/// instruction sequence is a clean halt; a pointer past the end is an error.
pub open spec fn run_model(p: &Program, s: MachineModel, fuel: nat) -> (MachineModel, Status)
    decreases fuel,
{
    let len = p.instructions@.len() as int;
    if s.ip == len {
        (s, Status::Halted)
    } else if s.ip < 0 || s.ip > len {
        (s, Status::Failed(Error::InstructionOverflow))
    } else if fuel == 0 {
        (s, Status::OutOfSteps)
    } else {
        let (t, flow) = step_model(p, s);
        match flow {
            Flow::Continue => run_model(p, t, (fuel - 1) as nat),
            Flow::Halt => (t, Status::Halted),
            Flow::Fail(e) => (t, Status::Failed(e)),
        }
    }
}

/// A run of `p` from its `main` label with empty stacks, of at most `fuel`
/// steps.
pub open spec fn execute_model(p: &Program, fuel: nat) -> (MachineModel, Status) {
    match find_label(p.labels@, main_name()) {
        None => (start_at(0), Status::Failed(Error::NoMain)),
        Some(info) => run_model(p, start_at(info.position as int), fuel),
    }
}

impl Machine {
    /// A machine at `ip` with empty stacks.
    pub fn new(ip: usize) -> (m: Machine)
        ensures
            m@ == start_at(ip as int),
    {
        Machine { ip, stack: Vec::new(), output: Vec::new() }
    }

    /// Applies a binary operator to the two topmost values. On failure the
    /// machine is left unchanged.
    pub fn binary(&mut self, op: BinaryOp) -> (f: Flow)
        requires
            old(self).ip < usize::MAX,
        ensures
            (final(self)@, f) == binary_model(old(self)@, op),
    {
        let n = self.stack.len();
        if n < 2 {
            return Flow::Fail(Error::StackUnderflow);
        }
        let left = self.stack[n - 2];
        let right = self.stack[n - 1];
        match apply_binary(op, left, right) {
            Ok(v) => {
                self.stack.pop();
                self.stack.pop();
                self.stack.push(v);
                self.ip = self.ip + 1;
                assert(self.stack@ =~= old(self).stack@.subrange(0, n - 2).push(v));
                Flow::Continue
            },
            Err(e) => Flow::Fail(e),
        }
    }

    /// Executes the instruction at the pointer. On failure the machine is
    /// left unchanged.
    pub fn step(&mut self, program: &Program) -> (f: Flow)
        requires
            old(self).ip < program.instructions@.len(),
        ensures
            (final(self)@, f) == step_model(program, old(self)@),
    {
        let len = program.instructions.len();
        assert(self.ip < len);
        let instr = &program.instructions[self.ip];
        match instr {
            Instruction::Literal(v) => {
                self.stack.push(*v);
                self.ip = self.ip + 1;
                Flow::Continue
            },
            Instruction::Add => self.binary(BinaryOp::Arith(ArithOp::Add)),
            Instruction::Sub => self.binary(BinaryOp::Arith(ArithOp::Sub)),
            Instruction::Mul => self.binary(BinaryOp::Arith(ArithOp::Mul)),
            Instruction::IntDiv => self.binary(BinaryOp::Arith(ArithOp::IntDiv)),
            Instruction::Output => match self.stack.pop() {
                Some(v) => {
                    self.output.push(v);
                    self.ip = self.ip + 1;
                    Flow::Continue
                },
                None => Flow::Fail(Error::StackUnderflow),
            },
            Instruction::Equal => self.binary(BinaryOp::Compare(CmpOp::Equal)),
            Instruction::Less => self.binary(BinaryOp::Compare(CmpOp::Less)),
            Instruction::Greater => self.binary(BinaryOp::Compare(CmpOp::Greater)),
            Instruction::LessEq => self.binary(BinaryOp::Compare(CmpOp::LessEq)),
            Instruction::GreaterEq => self.binary(BinaryOp::Compare(CmpOp::GreaterEq)),
            Instruction::Exit => Flow::Halt,
            Instruction::Unreachable => Flow::Fail(Error::Unreachable),
            Instruction::Jump(name) => match lookup_label(&program.labels, name) {
                Some(info) => {
                    self.ip = info.position;
                    Flow::Continue
                },
                None => Flow::Fail(Error::MissingLabel),
            },
        }
    }

    /// Runs `program` from this state for at most `max_steps` steps.
    pub fn run_from(self, program: &Program, max_steps: u64) -> (r: Execution)
        ensures
            (r.machine@, r.status) == run_model(program, self@, max_steps as nat),
    {
        let mut m = self;
        let mut fuel = max_steps;
        let len = program.instructions.len();
        loop
            invariant
                len == program.instructions@.len(),
                run_model(program, m@, fuel as nat) == run_model(
                    program,
                    self@,
                    max_steps as nat,
                ),
            decreases fuel,
        {
            if m.ip == len {
                return Execution { machine: m, status: Status::Halted };
            }
            if m.ip > len {
                return Execution { machine: m, status: Status::Failed(Error::InstructionOverflow) };
            }
            if fuel == 0 {
                return Execution { machine: m, status: Status::OutOfSteps };
            }
            let flow = m.step(program);
            match flow {
                Flow::Continue => {
                    fuel = fuel - 1;
                },
                Flow::Halt => {
                    return Execution { machine: m, status: Status::Halted };
                },
                Flow::Fail(e) => {
                    return Execution { machine: m, status: Status::Failed(e) };
                },
            }
        }
    }
}

/// Runs `program` from its `main` label with empty stacks, for at most
/// `max_steps` steps. A program without `main` fails with `NoMain` before
/// any instruction executes.
pub fn run(program: &Program, max_steps: u64) -> (r: Execution)
    ensures
        (r.machine@, r.status) == execute_model(program, max_steps as nat),
{
    match lookup_main(&program.labels) {
        None => Execution { machine: Machine::new(0), status: Status::Failed(Error::NoMain) },
        Some(info) => Machine::new(info.position).run_from(program, max_steps),
    }
}

} // verus!
