//! Loops and conditionals.

use crate::interpreter::error::RuntimeError;
use crate::interpreter::frame::StackFrame;
use crate::interpreter::runtime::{outcome, Runtime};
use crate::interpreter::semantics;
use crate::interpreter::value::{Datum, Value};
use crate::lexer::is_text;
use crate::parser::node::{lemma_kinds, ExprNode, Tree};
use vstd::prelude::*;

verus! {

/// What an optional tree stands for.
pub open spec fn tree_of(node: Option<&ExprNode>) -> Option<Tree> {
    match node {
        Some(n) => Some(n@),
        None => None,
    }
}

impl Runtime {
    /// Runs the turns of a loop.
    pub fn turns(
        &mut self,
        condition: &ExprNode,
        block: &ExprNode,
        increment: Option<&ExprNode>,
        frame: &mut StackFrame,
        fuel: u64,
    ) -> (r: Result<Value, RuntimeError>)
        ensures
            outcome(r, final(self)@, final(frame)@) == semantics::turns(
                condition@,
                block@,
                tree_of(increment),
                Datum::Null,
                old(self)@,
                old(frame)@,
                fuel as nat,
            ),
            final(self).limit == old(self).limit,
        decreases fuel, 1int, 0int,
    {
        let mut last = Value::Null;
        let mut left: u64 = fuel;
        loop
            invariant
                left <= fuel,
                self.limit == old(self).limit,
                semantics::turns(
                    condition@,
                    block@,
                    tree_of(increment),
                    last@,
                    self@,
                    frame@,
                    left as nat,
                ) == semantics::turns(
                    condition@,
                    block@,
                    tree_of(increment),
                    Datum::Null,
                    old(self)@,
                    old(frame)@,
                    fuel as nat,
                ),
            decreases left,
        {
            if left == 0 {
                return Err(RuntimeError::Exhausted);
            }
            let f = left - 1;
            match self.walk_tree(condition, frame, f) {
                Err(e) => {
                    return Err(e);
                },
                Ok(Value::EmBool(true)) => {
                    match self.walk_tree(block, frame, f) {
                        Err(e) => {
                            return Err(e);
                        },
                        Ok(v) => {
                            if self.returning {
                                return Ok(v);
                            }
                            match increment {
                                Some(i) => match self.walk_tree(i, frame, f) {
                                    Err(e) => {
                                        return Err(e);
                                    },
                                    Ok(_) => {},
                                },
                                None => {},
                            }
                            last = v;
                        },
                    }
                },
                Ok(_) => {
                    return Ok(last);
                },
            }
            left = f;
        }
    }

    /// Executes both varieties of loop and walks through the nodes in the
    /// loop blocks.
    pub fn do_loop(
        &mut self,
        ty: &str,
        condition: &ExprNode,
        block: &ExprNode,
        frame: &mut StackFrame,
        fuel: u64,
    ) -> (r: Result<Value, RuntimeError>)
        ensures
            outcome(r, final(self)@, final(frame)@) == semantics::do_loop(
                ty@,
                condition@,
                block@,
                old(self)@,
                old(frame)@,
                fuel as nat,
            ),
            final(self).limit == old(self).limit,
        decreases fuel, 2int, 0int,
    {
        let kind = String::from_str(ty);
        if is_text(&kind, "while") {
            return self.turns(condition, block, None, frame, fuel);
        }
        if !is_text(&kind, "for") {
            return Ok(Value::Null);
        }
        match condition {
            ExprNode::ForLoopDec(dec, con, inc) => {
                match &**dec {
                    ExprNode::Illegal(_) => {
                        proof {
                            lemma_kinds(**dec);
                        }
                        return self.turns(con, block, Some(&**inc), frame, fuel);
                    },
                    d => {
                        proof {
                            lemma_kinds(*d);
                        }
                        match self.walk_tree(d, frame, fuel) {
                            Err(e) => {
                                return Err(e);
                            },
                            Ok(_) => {
                                return self.turns(con, block, Some(&**inc), frame, fuel);
                            },
                        }
                    },
                }
            },
            _ => {
                return Ok(Value::Null);
            },
        }
    }

    /// Performs an if statement and any of its relevant branches.
    pub fn do_if(
        &mut self,
        condition: &ExprNode,
        body: &ExprNode,
        branches: &ExprNode,
        frame: &mut StackFrame,
        fuel: u64,
    ) -> (r: Result<Value, RuntimeError>)
        ensures
            outcome(r, final(self)@, final(frame)@) == semantics::do_if(
                condition@,
                body@,
                branches@,
                old(self)@,
                old(frame)@,
                fuel as nat,
            ),
            final(self).limit == old(self).limit,
        decreases fuel, 2int, 0int,
    {
        match self.walk_tree(condition, frame, fuel) {
            Err(e) => Err(e),
            Ok(c) => match c {
                Value::EmBool(true) => self.walk_tree(body, frame, fuel),
                _ => self.walk_tree(branches, frame, fuel),
            },
        }
    }
}

} // verus!
