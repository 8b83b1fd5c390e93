//! The errors that stop an evaluation.

use crate::text::{decimal, numeral};
use vstd::prelude::*;

verus! {

/// An error raised while a tree is evaluated. It ends the evaluation and is
/// handed up to whoever started it.
#[derive(Debug, PartialEq)]
pub enum RuntimeError {
    /// A function was called with a number of arguments that is not the
    /// number of its parameters.
    Arity { name: String, expected: usize, actual: usize },
    /// Nothing is defined under the name that was called.
    Unresolved(String),
    /// What is defined under the name that was called is no function.
    NotCallable(String),
    /// What is defined under the name is no class, or nothing is.
    NotAClass(String),
    /// The object has no member of that name.
    NoSuchMember(String),
    /// A member was asked of a value that is no object.
    NotAnObject,
    /// What stands behind the dot is neither a name nor a call.
    BadMember,
    /// The body of a class holds something that is no function definition.
    BadClassBody,
    /// An operand of an arithmetic operator, or an index, is no number.
    NotANumber,
    /// A value that is no array was indexed.
    NotIndexable,
    /// The index is not below the length of the array.
    OutOfBounds(usize),
    /// What stands left of the assignment cannot be assigned to.
    BadTarget,
    /// The evaluation went deeper, or a loop ran longer, than the budget
    /// allows.
    Exhausted,
}

/// What a [`RuntimeError`] stands for.
pub enum Fault {
    Arity { name: Seq<char>, expected: nat, actual: nat },
    Unresolved(Seq<char>),
    NotCallable(Seq<char>),
    NotAClass(Seq<char>),
    NoSuchMember(Seq<char>),
    NotAnObject,
    BadMember,
    BadClassBody,
    NotANumber,
    NotIndexable,
    OutOfBounds(usize),
    BadTarget,
    Exhausted,
}

impl View for RuntimeError {
    type V = Fault;

    open spec fn view(&self) -> Fault {
        match self {
            RuntimeError::Arity { name, expected, actual } => Fault::Arity {
                name: name@,
                expected: *expected as nat,
                actual: *actual as nat,
            },
            RuntimeError::Unresolved(n) => Fault::Unresolved(n@),
            RuntimeError::NotCallable(n) => Fault::NotCallable(n@),
            RuntimeError::NotAClass(n) => Fault::NotAClass(n@),
            RuntimeError::NoSuchMember(n) => Fault::NoSuchMember(n@),
            RuntimeError::NotAnObject => Fault::NotAnObject,
            RuntimeError::BadMember => Fault::BadMember,
            RuntimeError::BadClassBody => Fault::BadClassBody,
            RuntimeError::NotANumber => Fault::NotANumber,
            RuntimeError::NotIndexable => Fault::NotIndexable,
            RuntimeError::OutOfBounds(i) => Fault::OutOfBounds(*i),
            RuntimeError::BadTarget => Fault::BadTarget,
            RuntimeError::Exhausted => Fault::Exhausted,
        }
    }
}

/// The message of an error.
pub open spec fn said(f: Fault) -> Seq<char> {
    match f {
        Fault::Arity { name, expected, actual } => "Expected "@ + numeral(expected)
            + " arguments for "@ + name + ", got "@ + numeral(actual),
        Fault::Unresolved(n) => "Couldn't find identifier "@ + n,
        Fault::NotCallable(n) => "Expected function, found "@ + n,
        Fault::NotAClass(n) => "Expected class, found "@ + n,
        Fault::NoSuchMember(n) => "Object has no property "@ + n,
        Fault::NotAnObject => "Expected an object"@,
        Fault::BadMember => "Expected a member or method call"@,
        Fault::BadClassBody => "Unexpected value in class definition"@,
        Fault::NotANumber => "Expected a number"@,
        Fault::NotIndexable => "Type isn't indexable"@,
        Fault::OutOfBounds(i) => "Index "@ + numeral(i as nat) + " out of bounds"@,
        Fault::BadTarget => "Error assigning to variable"@,
        Fault::Exhausted => "Evaluation budget exhausted"@,
    }
}

impl RuntimeError {
    /// The message of the error, for whoever reads the diagnostics.
    pub fn message(&self) -> (text: String)
        ensures
            text@ == said(self@),
    {
        match self {
            RuntimeError::Arity { name, expected, actual } => {
                let mut out = String::from_str("Expected ");
                let e = decimal(*expected);
                let a = decimal(*actual);
                out.append(e.as_str());
                out.append(" arguments for ");
                out.append(name.as_str());
                out.append(", got ");
                out.append(a.as_str());
                out
            },
            RuntimeError::Unresolved(n) => String::from_str("Couldn't find identifier ").concat(
                n.as_str(),
            ),
            RuntimeError::NotCallable(n) => String::from_str("Expected function, found ").concat(
                n.as_str(),
            ),
            RuntimeError::NotAClass(n) => String::from_str("Expected class, found ").concat(
                n.as_str(),
            ),
            RuntimeError::NoSuchMember(n) => String::from_str("Object has no property ").concat(
                n.as_str(),
            ),
            RuntimeError::NotAnObject => String::from_str("Expected an object"),
            RuntimeError::BadMember => String::from_str("Expected a member or method call"),
            RuntimeError::BadClassBody => String::from_str("Unexpected value in class definition"),
            RuntimeError::NotANumber => String::from_str("Expected a number"),
            RuntimeError::NotIndexable => String::from_str("Type isn't indexable"),
            RuntimeError::OutOfBounds(i) => {
                let mut out = String::from_str("Index ");
                let n = decimal(*i);
                out.append(n.as_str());
                out.append(" out of bounds");
                out
            },
            RuntimeError::BadTarget => String::from_str("Error assigning to variable"),
            RuntimeError::Exhausted => String::from_str("Evaluation budget exhausted"),
        }
    }
}

} // verus!
