//! A small dynamically typed scripting language: a tokenizer, a
//! recursive-descent parser and a tree-walking evaluator, each stated against a
//! mathematical model and proved to follow it.
//!
//! A source text becomes tokens ([`lexer`]), the tokens become a syntax tree
//! ([`parser`]), and the tree is evaluated ([`interpreter`]) in a runtime that
//! holds the function and class definitions, with a frame of local variables
//! for the top level and one for every call. What each stage gives is said
//! by functions over sequences of characters, of tokens and of trees
//! ([`lexer::tokens_of`], [`parser::grammar::tree_of`],
//! [`interpreter::semantics::walk`]); the code is proved to give just that,
//! and [`laws`] holds what follows from it for every program.
//!
//! Numbers are IEEE 754 single precision values, kept as their bits
//! ([`number`]). The console is a value of the runtime: a script writes into
//! it and reads from it, and whoever runs the script prints the one and
//! supplies the other. An evaluation has a budget, so it always ends.

use crate::interpreter::{Fault, Runtime, RuntimeError, StackFrame, Value};
use crate::lexer::{tokens_of, LexError};
use crate::parser::grammar::{tree_of, Flaw};
use crate::parser::node::{texts, trees, ExprNode, Tree};
use crate::parser::ParseError;
use vstd::prelude::*;

pub mod interpreter;
pub mod laws;
pub mod lexer;
pub mod number;
pub mod parser;
pub mod text;

verus! {

/// Why a source text could not be run.
#[derive(Debug, PartialEq)]
pub enum Failure {
    Lex(LexError),
    Parse(ParseError),
    Runtime(RuntimeError),
}

/// What a [`Failure`] stands for.
pub enum Trouble {
    Lex(Seq<char>),
    Parse(Flaw),
    Runtime(Fault),
}

impl View for Failure {
    type V = Trouble;

    open spec fn view(&self) -> Trouble {
        match self {
            Failure::Lex(e) => Trouble::Lex(e.text@),
            Failure::Parse(e) => Trouble::Parse(e@),
            Failure::Runtime(e) => Trouble::Runtime(e@),
        }
    }
}

/// The message of a failure.
pub open spec fn reported(t: Trouble) -> Seq<char> {
    match t {
        Trouble::Lex(text) => "Malformed number: "@ + text,
        Trouble::Parse(f) => parser::error::told(f),
        Trouble::Runtime(f) => interpreter::error::said(f),
    }
}

impl Failure {
    /// The message of the failure.
    pub fn message(&self) -> (text: String)
        ensures
            text@ == reported(self@),
    {
        match self {
            Failure::Lex(e) => e.message(),
            Failure::Parse(e) => e.message(),
            Failure::Runtime(e) => e.message(),
        }
    }
}

/// The version of this library.
pub fn version() -> (v: &'static str)
    ensures
        v@ == "0.1.0"@,
{
    "0.1.0"
}

/// The tree of a source text: of its tokens, where it has tokens.
pub open spec fn program_of(text: Seq<char>) -> Result<Tree, Trouble> {
    match tokens_of(text) {
        Err(t) => Err(Trouble::Lex(t)),
        Ok(ts) => match tree_of(ts) {
            Err(f) => Err(Trouble::Parse(f)),
            Ok(tree) => Ok(tree),
        },
    }
}

/// The arguments that `main` is called with: none where the program got no
/// arguments, and otherwise one, the array of them as strings.
pub open spec fn arguments(args: Seq<Seq<char>>) -> Seq<Tree> {
    if args.len() == 0 {
        Seq::empty()
    } else {
        seq![Tree::Array(Seq::new(args.len(), |i: int| Tree::StrLiteral(args[i])))]
    }
}

/// Runs the tokenizer and the parser on a source text.
pub fn parse(data: &str) -> (r: Result<ExprNode, Failure>)
    ensures
        match r {
            Ok(tree) => program_of(data@) == Ok::<Tree, Trouble>(tree@),
            Err(e) => program_of(data@) == Err::<Tree, Trouble>(e@),
        },
{
    match lexer::run(data) {
        Err(e) => Err(Failure::Lex(e)),
        Ok(tokens) => match parser::parse(tokens) {
            Err(e) => Err(Failure::Parse(e)),
            Ok(tree) => Ok(tree),
        },
    }
}

/// Runs the tokenizer, the parser and the evaluator on a source text, and
/// calls `main` with the arguments. Nothing is evaluated where the text has no
/// tree.
pub fn run(data: &str, args: &Vec<String>, runtime: &mut Runtime, frame: &mut StackFrame) -> (r:
    Result<Value, Failure>)
    ensures
        final(runtime).limit == old(runtime).limit,
        match program_of(data@) {
            Err(t) => {
                &&& r is Err
                &&& r->Err_0@ == t
                &&& final(runtime)@ == old(runtime)@
                &&& final(frame)@ == old(frame)@
            },
            Ok(tree) => {
                let e = interpreter::launch(
                    tree,
                    arguments(texts(args@)),
                    old(runtime)@,
                    old(frame)@,
                    old(runtime).limit as nat,
                );
                &&& final(runtime)@ == e.machine
                &&& final(frame)@ == e.frame
                &&& match r {
                    Ok(v) => e.value == Ok::<interpreter::Datum, Fault>(v@),
                    Err(f) => f@ is Runtime && e.value == Err::<interpreter::Datum, Fault>(
                        f@->Runtime_0,
                    ),
                }
            },
        },
{
    match parse(data) {
        Err(e) => Err(e),
        Ok(tree) => {
            let mut call: Vec<ExprNode> = Vec::new();
            if args.len() > 0 {
                let mut items: Vec<ExprNode> = Vec::new();
                let mut i: usize = 0;
                while i < args.len()
                    invariant
                        i <= args.len(),
                        items@.len() == i,
                        forall|k: int| 0 <= k < i ==> items@[k]@ == Tree::StrLiteral(args@[k]@),
                    decreases args.len() - i,
                {
                    items.push(ExprNode::StrLiteral(args[i].clone()));
                    i += 1;
                }
                assert(trees(items@) =~= Seq::new(
                    args@.len(),
                    |i: int| Tree::StrLiteral(texts(args@)[i]),
                ));
                call.push(ExprNode::Array(items));
            }
            assert(trees(call@) =~= arguments(texts(args@)));
            match interpreter::run(tree, &call, runtime, frame) {
                Ok(v) => Ok(v),
                Err(e) => Err(Failure::Runtime(e)),
            }
        },
    }
}

} // verus!
