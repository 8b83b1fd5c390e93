//! Blocks and lists of trees.

use crate::interpreter::error::RuntimeError;
use crate::interpreter::frame::StackFrame;
use crate::interpreter::runtime::{outcome, outcomes, Runtime};
use crate::interpreter::semantics;
use crate::interpreter::value::{data, Datum, Value};
use crate::parser::node::{trees, ExprNode};
use vstd::prelude::*;

verus! {

impl Runtime {
    /// Runs the statements of a block.
    pub fn do_block(&mut self, stmts: &Vec<ExprNode>, frame: &mut StackFrame, fuel: u64) -> (r:
        Result<Value, RuntimeError>)
        ensures
            outcome(r, final(self)@, final(frame)@) == semantics::block_from(
                trees(stmts@),
                0,
                old(self)@,
                old(frame)@,
                fuel as nat,
            ),
            final(self).limit == old(self).limit,
        decreases fuel, 1int, 0int,
    {
        let mut i: usize = 0;
        while i < stmts.len()
            invariant
                i <= stmts.len(),
                self.limit == old(self).limit,
                semantics::block_from(trees(stmts@), i as int, self@, frame@, fuel as nat)
                    == semantics::block_from(
                    trees(stmts@),
                    0,
                    old(self)@,
                    old(frame)@,
                    fuel as nat,
                ),
            decreases stmts.len() - i,
        {
            match &stmts[i] {
                ExprNode::ReturnVal(e) => {
                    match self.walk_tree(e, frame, fuel) {
                        Ok(v) => {
                            self.returning = true;
                            return Ok(v);
                        },
                        Err(e) => {
                            return Err(e);
                        },
                    }
                },
                other => {
                    match self.walk_tree(other, frame, fuel) {
                        Ok(_) => {
                            if self.returning {
                                return Ok(Value::Null);
                            }
                        },
                        Err(e) => {
                            return Err(e);
                        },
                    }
                },
            }
            i += 1;
        }
        Ok(Value::Null)
    }

    /// Evaluates the trees in turn and gives their values.
    pub fn gather(
        &mut self,
        nodes: &Vec<ExprNode>,
        resolve: bool,
        frame: &mut StackFrame,
        fuel: u64,
    ) -> (r: Result<Vec<Value>, RuntimeError>)
        ensures
            outcomes(r, final(self)@, final(frame)@) == semantics::gather(
                trees(nodes@),
                0,
                Seq::empty(),
                resolve,
                old(self)@,
                old(frame)@,
                fuel as nat,
            ),
            final(self).limit == old(self).limit,
        decreases fuel, 1int, 0int,
    {
        let mut values: Vec<Value> = Vec::new();
        let mut i: usize = 0;
        assert(data(values@) =~= Seq::<Datum>::empty());
        while i < nodes.len()
            invariant
                i <= nodes.len(),
                self.limit == old(self).limit,
                semantics::gather(
                    trees(nodes@),
                    i as int,
                    data(values@),
                    resolve,
                    self@,
                    frame@,
                    fuel as nat,
                ) == semantics::gather(
                    trees(nodes@),
                    0,
                    Seq::empty(),
                    resolve,
                    old(self)@,
                    old(frame)@,
                    fuel as nat,
                ),
            decreases nodes.len() - i,
        {
            let ghost before = data(values@);
            match self.walk_tree(&nodes[i], frame, fuel) {
                Ok(v) => {
                    let kept = if resolve {
                        match v {
                            Value::Name(n) => frame.get_var_copy(n.as_str()),
                            other => other,
                        }
                    } else {
                        v
                    };
                    values.push(kept);
                    assert(data(values@) =~= before.push(kept@));
                },
                Err(e) => {
                    return Err(e);
                },
            }
            i += 1;
        }
        Ok(values)
    }

    /// Defines an array.
    pub fn create_array(&mut self, raw: &Vec<ExprNode>, frame: &mut StackFrame, fuel: u64) -> (r:
        Result<Value, RuntimeError>)
        ensures
            outcome(r, final(self)@, final(frame)@) == semantics::gather(
                trees(raw@),
                0,
                Seq::empty(),
                false,
                old(self)@,
                old(frame)@,
                fuel as nat,
            ),
            final(self).limit == old(self).limit,
        decreases fuel, 2int, 0int,
    {
        match self.gather(raw, false, frame, fuel) {
            Ok(values) => Ok(Value::EmArray(values)),
            Err(e) => Err(e),
        }
    }
}

} // verus!
