//! The errors of the parser, and reading single tokens.

use crate::lexer::{described, lexemes, Expression, Lexeme};
use crate::parser::grammar::{missing, token_at, Flaw, Parsed, ParsedList};
use crate::parser::node::{lexeme_of, trees, ExprNode, Tree};
use vstd::prelude::*;

verus! {

/// An error of the parser: what was wrong, and with which token.
#[derive(Debug, PartialEq)]
pub enum ParseError {
    /// A token was wanted, and another, or the end, was found.
    Expected { expected: Expression, found: Option<Expression> },
    /// A token, or the end, stands where an operand or a statement must begin.
    Unexpected(Option<Expression>),
    /// A keyword that begins no statement.
    UnknownKeyword(String),
    /// An operator token that names no operator.
    UnknownOperator(Expression),
    /// A block among the arguments of a call.
    BlockInParameters,
}

impl View for ParseError {
    type V = Flaw;

    open spec fn view(&self) -> Flaw {
        match self {
            ParseError::Expected { expected, found } => Flaw::Expected {
                expected: expected@,
                found: lexeme_of(*found),
            },
            ParseError::Unexpected(t) => Flaw::Unexpected(lexeme_of(*t)),
            ParseError::UnknownKeyword(w) => Flaw::UnknownKeyword(w@),
            ParseError::UnknownOperator(t) => Flaw::UnknownOperator(t@),
            ParseError::BlockInParameters => Flaw::BlockInParameters,
        }
    }
}

/// Whether what the parser gave is what the grammar says.
pub open spec fn agrees(r: Result<(ExprNode, usize), ParseError>, p: Parsed) -> bool {
    match r {
        Ok((node, next)) => p.node == Ok::<Tree, Flaw>(node@) && p.next == next,
        Err(e) => p.node == Err::<Tree, Flaw>(e@),
    }
}

/// Whether the list that the parser gave is what the grammar says.
pub open spec fn agree(r: Result<(Vec<ExprNode>, usize), ParseError>, p: ParsedList) -> bool {
    match r {
        Ok((nodes, next)) => p.nodes == Ok::<Seq<Tree>, Flaw>(trees(nodes@)) && p.next == next,
        Err(e) => p.nodes == Err::<Seq<Tree>, Flaw>(e@),
    }
}

/// The token at a position, if there is one.
pub fn peek(tokens: &Vec<Expression>, at: usize) -> (t: Option<&Expression>)
    ensures
        match t {
            Some(e) => at < tokens.len() && *e == tokens@[at as int] && token_at(
                lexemes(tokens@),
                at as int,
            ) == Some(e@),
            None => at >= tokens.len() && token_at(lexemes(tokens@), at as int) is None,
        },
{
    if at < tokens.len() {
        Some(&tokens[at])
    } else {
        None
    }
}

/// A copy of the token at a position, if there is one.
pub fn found_at(tokens: &Vec<Expression>, at: usize) -> (t: Option<Expression>)
    ensures
        lexeme_of(t) == token_at(lexemes(tokens@), at as int),
{
    match peek(tokens, at) {
        Some(e) => Some(e.duplicate()),
        None => None,
    }
}

/// Tells whether the token at a position is `wanted`.
pub fn is_at(tokens: &Vec<Expression>, at: usize, wanted: &Expression) -> (b: bool)
    ensures
        b == (token_at(lexemes(tokens@), at as int) == Some(wanted@)),
        b ==> at < tokens.len(),
{
    match peek(tokens, at) {
        Some(e) => e.same(wanted),
        None => false,
    }
}

/// The error of a wanted token that is not at a position.
pub fn missing_at(expected: Expression, tokens: &Vec<Expression>, at: usize) -> (e: ParseError)
    ensures
        e@ == missing(expected@, lexemes(tokens@), at as int),
{
    ParseError::Expected { expected, found: found_at(tokens, at) }
}

/// The error of a token that cannot stand at a position.
pub fn unexpected_at(tokens: &Vec<Expression>, at: usize) -> (e: ParseError)
    ensures
        e@ == Flaw::Unexpected(token_at(lexemes(tokens@), at as int)),
{
    ParseError::Unexpected(found_at(tokens, at))
}

/// What an optional token is called in a message.
pub open spec fn found_text(t: Option<Lexeme>) -> Seq<char> {
    match t {
        Some(l) => described(l),
        None => "nothing"@,
    }
}

/// The message of a parse error.
pub open spec fn told(f: Flaw) -> Seq<char> {
    match f {
        Flaw::Expected { expected, found } => "Expected "@ + described(expected) + ", found "@
            + found_text(found),
        Flaw::Unexpected(t) => "Unexpected "@ + found_text(t),
        Flaw::UnknownKeyword(w) => "Unknown keyword "@ + w,
        Flaw::UnknownOperator(t) => "Unknown operator, "@ + described(t),
        Flaw::BlockInParameters => "Can't have block in function parameters"@,
    }
}

/// What an optional token is called in a message.
pub fn describe_found(t: &Option<Expression>) -> (text: String)
    ensures
        text@ == found_text(lexeme_of(*t)),
{
    match t {
        Some(e) => e.describe(),
        None => String::from_str("nothing"),
    }
}

impl ParseError {
    /// The message of the error: what was wrong, and with which token.
    pub fn message(&self) -> (text: String)
        ensures
            text@ == told(self@),
    {
        match self {
            ParseError::Expected { expected, found } => {
                let mut out = String::from_str("Expected ");
                let e = expected.describe();
                let f = describe_found(found);
                out.append(e.as_str());
                out.append(", found ");
                out.append(f.as_str());
                out
            },
            ParseError::Unexpected(t) => {
                let f = describe_found(t);
                String::from_str("Unexpected ").concat(f.as_str())
            },
            ParseError::UnknownKeyword(w) => String::from_str("Unknown keyword ").concat(
                w.as_str(),
            ),
            ParseError::UnknownOperator(t) => {
                let d = t.describe();
                String::from_str("Unknown operator, ").concat(d.as_str())
            },
            ParseError::BlockInParameters => String::from_str(
                "Can't have block in function parameters",
            ),
        }
    }
}

} // verus!
