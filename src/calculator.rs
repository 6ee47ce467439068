use vstd::prelude::*;
use crate::text::is_exactly;

verus! {

/// An operator of the calculator component.
#[derive(Debug, Clone, Copy, PartialEq, Eq, Structural)]
pub enum Op {
    Add,
    Mult,
}

/// An operator name that is neither `add` nor `mult`.
#[derive(Debug)]
pub struct UnknownOperation {
    pub name: String,
}

/// The operator that `s` names: `add` or `mult`, exactly.
pub open spec fn op_named(s: Seq<char>) -> Option<Op> {
    if s == seq!['a', 'd', 'd'] {
        Some(Op::Add)
    } else if s == seq!['m', 'u', 'l', 't'] {
        Some(Op::Mult)
    } else {
        None
    }
}

impl Op {
    /// The sign the operator is written with: `+` or `*`.
    pub fn symbol(&self) -> (r: char)
        ensures
            r == match *self {
                Op::Add => '+',
                Op::Mult => '*',
            },
    {
        match self {
            Op::Add => '+',
            Op::Mult => '*',
        }
    }
}

/// Reads an operator name.
pub fn parse_operator(op: &str) -> (r: Result<Op, UnknownOperation>)
    ensures
        r matches Ok(o) ==> op_named(op@) == Some(o),
        r matches Err(e) ==> op_named(op@) is None && e.name@ == op@,
{
    let add = ['a', 'd', 'd'];
    let mult = ['m', 'u', 'l', 't'];
    assert(add@ =~= seq!['a', 'd', 'd']);
    assert(mult@ =~= seq!['m', 'u', 'l', 't']);
    if is_exactly(op, &add) {
        Ok(Op::Add)
    } else if is_exactly(op, &mult) {
        Ok(Op::Mult)
    } else {
        Err(UnknownOperation { name: op.to_owned() })
    }
}

} // verus!
