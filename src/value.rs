//! Scalar values, the error kinds of a run, and the semantics of the
//! arithmetic and comparison operators.
use vstd::prelude::*;

verus! {

/// A scalar held on the data stack. Values are copied, never shared.
#[derive(Debug, Clone, Copy, PartialEq, Eq, Structural)]
pub enum Value {
    Int(i32),
    Bool(bool),
}

/// The reason a run, or the construction of a program, failed.
#[derive(Debug, Clone, Copy, PartialEq, Eq, Structural)]
pub enum Error {
    /// An instruction needed more operands than the data stack held.
    StackUnderflow,
    /// The instruction pointer lies beyond the end of the program.
    InstructionOverflow,
    /// The operands are not of the variants the operator accepts.
    InvalidTypes,
    /// `IntDiv` with a right operand of zero.
    DivisionByZero,
    /// An integer result does not fit in 32 signed bits.
    Overflow,
    /// The label table has no `main` entry.
    NoMain,
    /// A `Jump` names a label that the table does not hold.
    MissingLabel,
    /// An `Unreachable` instruction was executed.
    Unreachable,
    /// Two labels of one program share a name.
    DuplicateLabel,
}

/// The integer operators. Each takes two `Int` operands.
#[derive(Debug, Clone, Copy, PartialEq, Eq, Structural)]
pub enum ArithOp {
    Add,
    Sub,
    Mul,
    IntDiv,
}

/// The comparison operators. Each takes two operands of the same variant
/// and yields a `Bool`.
#[derive(Debug, Clone, Copy, PartialEq, Eq, Structural)]
pub enum CmpOp {
    Equal,
    Less,
    Greater,
    LessEq,
    GreaterEq,
}

/// A binary operator of either family.
#[derive(Debug, Clone, Copy, PartialEq, Eq, Structural)]
pub enum BinaryOp {
    Arith(ArithOp),
    Compare(CmpOp),
}

pub open spec fn abs(x: int) -> int {
    if x < 0 {
        -x
    } else {
        x
    }
}

/// Integer division rounded toward zero.
pub open spec fn trunc_div(a: int, b: int) -> int
    recommends
        b != 0,
{
    let q = abs(a) / abs(b);
    if (a < 0) == (b < 0) {
        q
    } else {
        -q
    }
}

/// The exact mathematical result of `a op b`, with `a` the left operand.
pub open spec fn exact_arith(op: ArithOp, a: int, b: int) -> int {
    match op {
        ArithOp::Add => a + b,
        ArithOp::Sub => a - b,
        ArithOp::Mul => a * b,
        ArithOp::IntDiv => trunc_div(a, b),
    }
}

pub open spec fn fits_i32(x: int) -> bool {
    i32::MIN <= x <= i32::MAX
}

/// What an integer operator yields on `a` (left) and `b` (right).
pub open spec fn int_outcome(op: ArithOp, a: i32, b: i32) -> Result<i32, Error> {
    if op == ArithOp::IntDiv && b == 0 {
        Err(Error::DivisionByZero)
    } else if fits_i32(exact_arith(op, a as int, b as int)) {
        Ok(exact_arith(op, a as int, b as int) as i32)
    } else {
        Err(Error::Overflow)
    }
}

/// Whether the ordering relation of `op` holds between `a` and `b`.
pub open spec fn relation_holds(op: CmpOp, a: int, b: int) -> bool {
    match op {
        CmpOp::Equal => a == b,
        CmpOp::Less => a < b,
        CmpOp::Greater => a > b,
        CmpOp::LessEq => a <= b,
        CmpOp::GreaterEq => a >= b,
    }
}

/// Booleans are ordered with `false` below `true`.
pub open spec fn bool_rank(b: bool) -> int {
    if b {
        1
    } else {
        0
    }
}

/// What a binary operator yields on `left` (pushed first) and `right`
/// (pushed last).
pub open spec fn binary_outcome(op: BinaryOp, left: Value, right: Value) -> Result<Value, Error> {
    match op {
        BinaryOp::Arith(a) => match (left, right) {
            (Value::Int(x), Value::Int(y)) => match int_outcome(a, x, y) {
                Ok(v) => Ok(Value::Int(v)),
                Err(e) => Err(e),
            },
            _ => Err(Error::InvalidTypes),
        },
        BinaryOp::Compare(c) => match (left, right) {
            (Value::Int(x), Value::Int(y)) => Ok(Value::Bool(relation_holds(c, x as int, y as int))),
            (Value::Bool(x), Value::Bool(y)) => Ok(
                Value::Bool(relation_holds(c, bool_rank(x), bool_rank(y))),
            ),
            _ => Err(Error::InvalidTypes),
        },
    }
}

/// Applies an integer operator, reporting division by zero and results
/// that do not fit in an `i32`.
pub fn apply_int(op: ArithOp, a: i32, b: i32) -> (r: Result<i32, Error>)
    ensures
        r == int_outcome(op, a, b),
{
    let checked = match op {
        ArithOp::Add => a.checked_add(b),
        ArithOp::Sub => a.checked_sub(b),
        ArithOp::Mul => a.checked_mul(b),
        ArithOp::IntDiv => {
            if b == 0 {
                return Err(Error::DivisionByZero);
            }
            a.checked_div(b)
        },
    };
    match checked {
        Some(v) => Ok(v),
        None => Err(Error::Overflow),
    }
}

fn rank(b: bool) -> (r: i32)
    ensures
        r as int == bool_rank(b),
{
    if b {
        1
    } else {
        0
    }
}

fn relation(op: CmpOp, a: i32, b: i32) -> (r: bool)
    ensures
        r == relation_holds(op, a as int, b as int),
{
    match op {
        CmpOp::Equal => a == b,
        CmpOp::Less => a < b,
        CmpOp::Greater => a > b,
        CmpOp::LessEq => a <= b,
        CmpOp::GreaterEq => a >= b,
    }
}

/// Applies a binary operator to `left` (pushed first) and `right` (pushed
/// last): `Sub` on `5` and `2` gives `3`.
pub fn apply_binary(op: BinaryOp, left: Value, right: Value) -> (r: Result<Value, Error>)
    ensures
        r == binary_outcome(op, left, right),
{
    match op {
        BinaryOp::Arith(a) => match (left, right) {
            (Value::Int(x), Value::Int(y)) => match apply_int(a, x, y) {
                Ok(v) => Ok(Value::Int(v)),
                Err(e) => Err(e),
            },
            _ => Err(Error::InvalidTypes),
        },
        BinaryOp::Compare(c) => match (left, right) {
            (Value::Int(x), Value::Int(y)) => Ok(Value::Bool(relation(c, x, y))),
            (Value::Bool(x), Value::Bool(y)) => Ok(Value::Bool(relation(c, rank(x), rank(y)))),
            _ => Err(Error::InvalidTypes),
        },
    }
}

} // verus!
