//! Instructions, the label table and program construction.
use crate::value::{Error, Value};
use vstd::prelude::*;

verus! {

/// One operation of the machine.
#[derive(Debug)]
pub enum Instruction {
    Literal(Value),
    Add,
    Sub,
    Mul,
    IntDiv,
    Output,
    Equal,
    Less,
    Greater,
    LessEq,
    GreaterEq,
    Exit,
    Unreachable,
    Jump(String),
}

/// Where a label points, and how many local slots its frame declares.
#[derive(Debug, Clone, Copy, PartialEq, Eq, Structural)]
pub struct FrameInfo {
    pub num_bindings: usize,
    pub position: usize,
}

/// A named entry of the label table.
#[derive(Debug)]
pub struct Label {
    pub name: String,
    pub info: FrameInfo,
}

/// An instruction sequence, indexed by address, and its label table.
pub struct Program {
    pub instructions: Vec<Instruction>,
    pub labels: Vec<Label>,
}

/// The activation record of one invocation: `num_bindings` local slots.
/// No instruction of the current set creates one.
#[derive(Debug)]
pub struct Frame {
    pub num_bindings: usize,
    pub bindings: Vec<Option<Value>>,
}

/// No two labels share a name.
pub open spec fn names_unique(labels: Seq<Label>) -> bool {
    forall|i: int, j: int|
        0 <= i < j < labels.len() ==> #[trigger] labels[i].name@ != #[trigger] labels[j].name@
}

/// The entry of the first label named `name`, if any.
pub open spec fn find_label(labels: Seq<Label>, name: Seq<char>) -> Option<FrameInfo>
    decreases labels.len(),
{
    if labels.len() == 0 {
        None
    } else if labels[0].name@ == name {
        Some(labels[0].info)
    } else {
        find_label(labels.drop_first(), name)
    }
}

/// The name of the mandatory entry point.
pub open spec fn main_name() -> Seq<char> {
    "main"@
}

impl Program {
    /// Well formed: label names are unique.
    pub open spec fn wf(&self) -> bool {
        names_unique(self.labels@)
    }

    /// Builds a program, refusing a label table in which a name repeats.
    pub fn new(instructions: Vec<Instruction>, labels: Vec<Label>) -> (r: Result<Program, Error>)
        ensures
            names_unique(labels@) ==> (r matches Ok(p) && p.instructions@ == instructions@
                && p.labels@ == labels@),
            !names_unique(labels@) ==> r == Err::<Program, Error>(Error::DuplicateLabel),
            r matches Ok(p) ==> p.wf(),
    {
        let n = labels.len();
        let mut i: usize = 0;
        while i < n
            invariant
                n == labels@.len(),
                i <= n,
                forall|a: int, b: int|
                    0 <= a < b < n && a < i ==> #[trigger] labels@[a].name@
                        != #[trigger] labels@[b].name@,
            decreases n - i,
        {
            let mut j: usize = i + 1;
            while j < n
                invariant
                    n == labels@.len(),
                    i < n,
                    i < j <= n,
                    forall|a: int, b: int|
                        0 <= a < b < n && a < i ==> #[trigger] labels@[a].name@
                            != #[trigger] labels@[b].name@,
                    forall|b: int| i < b < j ==> labels@[i as int].name@ != #[trigger] labels@[b].name@,
                decreases n - j,
            {
                if labels[i].name == labels[j].name {
                    return Err(Error::DuplicateLabel);
                }
                j = j + 1;
            }
            i = i + 1;
        }
        Ok(Program { instructions, labels })
    }
}

/// Looks a label up by name, returning the entry of the first match.
pub fn lookup_label(labels: &Vec<Label>, name: &String) -> (r: Option<FrameInfo>)
    ensures
        r == find_label(labels@, name@),
{
    let n = labels.len();
    let mut i: usize = 0;
    assert(labels@.subrange(0, n as int) =~= labels@);
    while i < n
        invariant
            n == labels@.len(),
            i <= n,
            find_label(labels@, name@) == find_label(labels@.subrange(i as int, n as int), name@),
        decreases n - i,
    {
        assert(labels@.subrange(i as int, n as int).drop_first() =~= labels@.subrange(
            i + 1,
            n as int,
        ));
        if labels[i].name == *name {
            return Some(labels[i].info);
        }
        i = i + 1;
    }
    None
}

/// Looks up the entry point.
pub fn lookup_main(labels: &Vec<Label>) -> (r: Option<FrameInfo>)
    ensures
        r == find_label(labels@, main_name()),
{
    let main = String::from_str("main");
    lookup_label(labels, &main)
}

impl Frame {
    /// A frame with `num_bindings` slots, all empty.
    pub fn new(num_bindings: usize) -> (f: Frame)
        ensures
            f.num_bindings == num_bindings,
            f.bindings@ == Seq::new(num_bindings as nat, |_i: int| None::<Value>),
    {
        let mut bindings: Vec<Option<Value>> = Vec::new();
        let mut k: usize = 0;
        while k < num_bindings
            invariant
                k <= num_bindings,
                bindings@ == Seq::new(k as nat, |_i: int| None::<Value>),
            decreases num_bindings - k,
        {
            bindings.push(None);
            k = k + 1;
            assert(bindings@ =~= Seq::new(k as nat, |_i: int| None::<Value>));
        }
        Frame { num_bindings, bindings }
    }
}

} // verus!
