//! The evaluator itself: the functions that walk a tree, each proved to give
//! what the semantics say.

use crate::interpreter::builtins::{duplicate_natives, get_functions, natives, Console, Native};
use crate::interpreter::error::RuntimeError;
use crate::interpreter::frame::{StackFrame, Table};
use crate::interpreter::semantics;
use crate::interpreter::semantics::{Evaluated, Machine};
use crate::interpreter::value::{
    data, duplicate_members, fields, find_member, lookup, Datum, Member, Value,
};
use crate::parser::node::{duplicate_names, texts, ExprNode};
use vstd::prelude::*;

pub mod block;
pub mod call;
pub mod flow;
pub mod native;
pub mod operation;
pub mod render;

verus! {

/// Handles all of the interpretation, and keeps track of the function and
/// class definitions, which every frame sees.
#[derive(Debug, PartialEq)]
pub struct Runtime {
    pub heap: Vec<Member>,
    pub functions: Vec<Native>,
    pub console: Console,
    pub returning: bool,
    /// The budget that `repl_run` and `run` hand to an evaluation. A new
    /// runtime has the largest there is; a smaller one bounds scripts that
    /// would not end.
    pub limit: u64,
}

/// What a definition of the runtime is, when it is looked up to be called.
pub enum Found {
    Missing,
    Other,
    Function(Vec<String>, ExprNode),
    Class(Vec<Member>),
}

/// What the result of an evaluation stands for, with the runtime and the
/// frame that it left.
pub open spec fn outcome(r: Result<Value, RuntimeError>, m: Machine, t: Table) -> Evaluated {
    Evaluated {
        value: match r {
            Ok(v) => Ok(v@),
            Err(e) => Err(e@),
        },
        machine: m,
        frame: t,
    }
}

/// What a list of values that an evaluation gave stands for: an array of
/// them.
pub open spec fn outcomes(r: Result<Vec<Value>, RuntimeError>, m: Machine, t: Table) -> Evaluated {
    Evaluated {
        value: match r {
            Ok(v) => Ok(Datum::EmArray(data(v@))),
            Err(e) => Err(e@),
        },
        machine: m,
        frame: t,
    }
}

impl Default for Runtime {
    fn default() -> (runtime: Runtime)
        ensures
            runtime@ == semantics::fresh(),
            runtime.limit == u64::MAX,
    {
        Runtime::new()
    }
}

impl Runtime {
    /// What the runtime stands for.
    pub open spec fn view(&self) -> Machine {
        Machine {
            heap: fields(self.heap@),
            functions: natives(self.functions@),
            console: self.console@,
            returning: self.returning,
        }
    }

    /// Creates a new runtime with nothing defined.
    pub fn new() -> (runtime: Runtime)
        ensures
            runtime@ == semantics::fresh(),
            runtime.limit == u64::MAX,
    {
        let runtime = Runtime {
            heap: Vec::new(),
            functions: get_functions(),
            console: Console::new(),
            returning: false,
            limit: u64::MAX,
        };
        assert(fields(runtime.heap@) =~= Seq::<(Seq<char>, Datum)>::empty());
        runtime
    }

    /// A copy of the runtime.
    pub fn duplicate(&self) -> (copy: Runtime)
        ensures
            copy@ == self@,
            copy.limit == self.limit,
    {
        Runtime {
            heap: duplicate_members(&self.heap),
            functions: duplicate_natives(&self.functions),
            console: self.console.duplicate(),
            returning: self.returning,
            limit: self.limit,
        }
    }

    /// Looks a definition up, and copies what a call needs of it.
    pub fn find(&self, name: &String) -> (found: Found)
        ensures
            match found {
                Found::Missing => lookup(self@.heap, name@) is None,
                Found::Function(p, b) => lookup(self@.heap, name@) is Some && lookup(
                    self@.heap,
                    name@,
                )->0 is Function && lookup(self@.heap, name@)->0->Function_1 == texts(p@)
                    && lookup(self@.heap, name@)->0->Function_2 == b@,
                Found::Class(members) => lookup(self@.heap, name@) == Some(
                    Datum::Object(fields(members@)),
                ),
                Found::Other => lookup(self@.heap, name@) is Some && !(lookup(
                    self@.heap,
                    name@,
                )->0 is Function) && !(lookup(self@.heap, name@)->0 is Object),
            },
    {
        match find_member(&self.heap, name) {
            None => Found::Missing,
            Some(i) => match &self.heap[i].value {
                Value::Function(_, p, b) => Found::Function(duplicate_names(p), b.duplicate()),
                Value::Object(o) => Found::Class(duplicate_members(&o.members)),
                _ => Found::Other,
            },
        }
    }

    /// Matches the provided node and dispatches functions to handle it.
    pub fn walk_tree(&mut self, node: &ExprNode, frame: &mut StackFrame, fuel: u64) -> (r: Result<
        Value,
        RuntimeError,
    >)
        ensures
            outcome(r, final(self)@, final(frame)@) == semantics::walk(
                node@,
                old(self)@,
                old(frame)@,
                fuel as nat,
            ),
            final(self).limit == old(self).limit,
        decreases fuel, 0int, 0int,
    {
        if fuel == 0 {
            return Err(RuntimeError::Exhausted);
        }
        let f = fuel - 1;
        let r = match node {
            ExprNode::Block(v) => {
                return self.do_block(v, frame, f);
            },
            ExprNode::Operation(o, l, r) => self.do_operation(*o, l, r, frame, f),
            ExprNode::Call(n, args) => self.do_call(n, args, frame, f),
            ExprNode::StrLiteral(s) => Ok(Value::EmString(s.clone())),
            ExprNode::NumLiteral(n) => Ok(Value::Float(*n)),
            ExprNode::BoolLiteral(b) => Ok(Value::EmBool(*b)),
            ExprNode::Name(n) => Ok(frame.get_var_copy(n.as_str())),
            ExprNode::Func(n, p, b) => self.def_func(n, p, b),
            ExprNode::Statement(e) => self.walk_tree(e, frame, f),
            ExprNode::Loop(k, c, b) => self.do_loop(k.as_str(), c, b, frame, f),
            ExprNode::IfStatement(c, b, e) => self.do_if(c, b, e, frame, f),
            ExprNode::Array(v) => self.create_array(v, frame, f),
            ExprNode::Index(b, i) => self.index_array(b, i, frame, f),
            ExprNode::New(n, args) => self.do_init(n, args, frame, f),
            ExprNode::Class(n, b) => self.define_class(n, b, frame, f),
            _ => Ok(Value::Null),
        };
        match r {
            Ok(v) => {
                self.returning = false;
                Ok(v)
            },
            Err(e) => Err(e),
        }
    }

}

} // verus!
