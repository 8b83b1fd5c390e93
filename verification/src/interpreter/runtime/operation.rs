//! Assignments, member accesses, arithmetic and comparisons, and indexing.

use crate::interpreter::error::RuntimeError;
use crate::interpreter::frame::{StackFrame, Table};
use crate::interpreter::runtime::{outcome, Runtime};
use crate::interpreter::semantics;
use crate::interpreter::semantics::{Located, Machine};
use crate::interpreter::value::{fields, find_member, lemma_position, set_member, EmObject, Value};
use crate::number::{Number, Order};
use crate::parser::node::{lemma_kinds, ExprNode, Operator};
use vstd::prelude::*;
use crate::interpreter::runtime::render::render;

verus! {

/// What the place that an assignment target names stands for, with the
/// runtime and the frame that finding it left.
pub open spec fn located(
    r: Result<(String, Vec<usize>), RuntimeError>,
    m: Machine,
    t: Table,
) -> Located {
    Located {
        place: match r {
            Ok((root, path)) => Ok((root@, path@)),
            Err(e) => Err(e@),
        },
        machine: m,
        frame: t,
    }
}

/// The number that an operand of an arithmetic operator stands for.
pub fn number_in(v: &Value, frame: &StackFrame) -> (r: Option<Number>)
    ensures
        r == semantics::number_in(v@, frame@),
{
    match v {
        Value::Float(n) => Some(*n),
        Value::Name(n) => match frame.get_var(n.as_str()) {
            Some(Value::Float(x)) => Some(*x),
            _ => None,
        },
        _ => None,
    }
}

/// Tells whether a relational operator holds of two values that stand as `o`.
pub fn holds(op: Operator, o: Order) -> (b: bool)
    ensures
        b == semantics::holds(op, o),
{
    match op {
        Operator::EqualTo => o == Order::Equal,
        Operator::NotEqualTo => o != Order::Equal,
        Operator::Greater => o == Order::Greater,
        Operator::Less => o == Order::Less,
        Operator::GreaterOrEq => o == Order::Greater || o == Order::Equal,
        _ => o == Order::Less || o == Order::Equal,
    }
}

/// The result of an arithmetic operator on two numbers.
pub fn compute(op: Operator, x: &Number, y: &Number) -> (n: Number)
    ensures
        n == semantics::computed(op, *x, *y),
{
    match op {
        Operator::Add => x.plus(y),
        Operator::Sub => x.minus(y),
        Operator::Mul => x.times(y),
        _ => x.over(y),
    }
}

impl Runtime {
    /// Finds the variable and the indices that an assignment target names.
    pub fn locate(&mut self, target: &ExprNode, frame: &mut StackFrame, fuel: u64) -> (r: Result<
        (String, Vec<usize>),
        RuntimeError,
    >)
        ensures
            located(r, final(self)@, final(frame)@) == semantics::locate(
                target@,
                old(self)@,
                old(frame)@,
                fuel as nat,
            ),
            final(self).limit == old(self).limit,
        decreases fuel, 2int, 0int,
    {
        match target {
            ExprNode::Name(n) => Ok((n.clone(), Vec::new())),
            ExprNode::Index(base, index) => {
                if fuel == 0 {
                    return Err(RuntimeError::Exhausted);
                }
                match self.locate(base, frame, fuel - 1) {
                    Err(e) => Err(e),
                    Ok((root, mut path)) => match self.walk_tree(index, frame, fuel - 1) {
                        Err(e) => Err(e),
                        Ok(Value::Float(n)) => {
                            path.push(n.to_index());
                            Ok((root, path))
                        },
                        Ok(_) => Err(RuntimeError::NotANumber),
                    },
                }
            },
            _ => Err(RuntimeError::BadTarget),
        }
    }

    /// Returns the value at a given array index.
    pub fn index_array(
        &mut self,
        ident: &ExprNode,
        index: &ExprNode,
        frame: &mut StackFrame,
        fuel: u64,
    ) -> (r: Result<Value, RuntimeError>)
        ensures
            outcome(r, final(self)@, final(frame)@) == semantics::index_array(
                ident@,
                index@,
                old(self)@,
                old(frame)@,
                fuel as nat,
            ),
            final(self).limit == old(self).limit,
        decreases fuel, 2int, 0int,
    {
        match self.walk_tree(ident, frame, fuel) {
            Err(e) => Err(e),
            Ok(array) => match self.walk_tree(index, frame, fuel) {
                Err(e) => Err(e),
                Ok(Value::Float(n)) => match &array {
                    Value::EmArray(xs) => {
                        let at = n.to_index();
                        if at < xs.len() {
                            Ok(xs[at].duplicate())
                        } else {
                            Err(RuntimeError::OutOfBounds(at))
                        }
                    },
                    _ => Err(RuntimeError::NotIndexable),
                },
                Ok(_) => Err(RuntimeError::NotANumber),
            },
        }
    }
    /// Sets a member of the object that a variable holds.
    pub fn assign_member(
        &mut self,
        object: &ExprNode,
        member: &ExprNode,
        value: &ExprNode,
        frame: &mut StackFrame,
        fuel: u64,
    ) -> (r: Result<Value, RuntimeError>)
        ensures
            outcome(r, final(self)@, final(frame)@) == semantics::assign_member(
                object@,
                member@,
                value@,
                old(self)@,
                old(frame)@,
                fuel as nat,
            ),
            final(self).limit == old(self).limit,
        decreases fuel, 3int, 0int,
    {
        match object {
            ExprNode::Name(holder) => match self.walk_tree(value, frame, fuel) {
                Ok(val) => match frame.get_var_copy(holder.as_str()) {
                    Value::Object(o) => match member {
                        ExprNode::Name(prop) => {
                            let mut members = o.members;
                            set_member(&mut members, prop.clone(), val.duplicate());
                            frame.set_var(holder.clone(), Value::Object(EmObject { members }));
                            Ok(val)
                        },
                        _ => Err(RuntimeError::BadMember),
                    },
                    _ => Err(RuntimeError::NotAnObject),
                },
                Err(e) => Err(e),
            },
            _ => Err(RuntimeError::BadTarget),
        }
    }

    /// Takes a member of an object, or calls a method on it.
    pub fn take_member(
        &mut self,
        left: &ExprNode,
        right: &ExprNode,
        frame: &mut StackFrame,
        fuel: u64,
    ) -> (r: Result<Value, RuntimeError>)
        ensures
            outcome(r, final(self)@, final(frame)@) == semantics::take_member(
                left@,
                right@,
                old(self)@,
                old(frame)@,
                fuel as nat,
            ),
            final(self).limit == old(self).limit,
        decreases fuel, 4int, 0int,
    {
        match self.walk_tree(left, frame, fuel) {
            Ok(Value::Object(o)) => match right {
                ExprNode::Name(n) => match find_member(&o.members, n) {
                    Some(i) => {
                        proof {
                            lemma_position(fields(o.members@), n@, 0);
                        }
                        Ok(o.members[i].value.duplicate())
                    },
                    None => Err(RuntimeError::NoSuchMember(n.clone())),
                },
                ExprNode::Call(n, args) => self.do_method(&o, n, args, frame, fuel),
                _ => Err(RuntimeError::BadMember),
            },
            Ok(_) => Err(RuntimeError::NotAnObject),
            Err(e) => Err(e),
        }
    }

    /// Performs assignments, member accesses, and arithmetic and relational
    /// operations, and returns their results.
    pub fn do_operation(
        &mut self,
        opr: Operator,
        left: &ExprNode,
        right: &ExprNode,
        frame: &mut StackFrame,
        fuel: u64,
    ) -> (r: Result<Value, RuntimeError>)
        ensures
            outcome(r, final(self)@, final(frame)@) == semantics::do_operation(
                opr,
                left@,
                right@,
                old(self)@,
                old(frame)@,
                fuel as nat,
            ),
            final(self).limit == old(self).limit,
        decreases fuel, 5int, 0int,
    {
        proof {
            lemma_kinds(*left);
            lemma_kinds(*right);
            reveal_with_fuel(ExprNode::view, 2);
        }
        match opr {
            Operator::Equals => match left {
                ExprNode::Name(n) => match self.walk_tree(right, frame, fuel) {
                    Ok(v) => {
                        frame.set_var(n.clone(), v.duplicate());
                        Ok(v)
                    },
                    Err(e) => Err(e),
                },
                ExprNode::Index(_, _) => match self.locate(left, frame, fuel) {
                    Err(e) => Err(e),
                    Ok((root, path)) => match self.walk_tree(right, frame, fuel) {
                        Ok(val) => {
                            let copy = val.duplicate();
                            match frame.update_nested_array(root.as_str(), &path, val) {
                                Ok(()) => Ok(copy),
                                Err(e) => Err(e),
                            }
                        },
                        Err(e) => Err(e),
                    },
                },
                ExprNode::Operation(Operator::Dot, object, member) => self.assign_member(
                    object,
                    member,
                    right,
                    frame,
                    fuel,
                ),
                _ => Err(RuntimeError::BadTarget),
            },
            Operator::Dot => match right {
                ExprNode::Operation(Operator::Equals, member, value) => self.assign_member(
                    left,
                    member,
                    value,
                    frame,
                    fuel,
                ),
                _ => self.take_member(left, right, frame, fuel),
            },
            _ => match self.walk_tree(left, frame, fuel) {
                Err(e) => Err(e),
                Ok(x) => match self.walk_tree(right, frame, fuel) {
                    Err(e) => Err(e),
                    Ok(y) => {
                        let arithmetic = match opr {
                            Operator::Add | Operator::Sub | Operator::Mul | Operator::Div => true,
                            _ => false,
                        };
                        if arithmetic {
                            let joined: Option<String> = match (&x, opr) {
                                (Value::EmString(s), Operator::Add) => {
                                    let mut out = s.clone();
                                    let text = render(&y, fuel);
                                    out.append(text.as_str());
                                    Some(out)
                                },
                                _ => None,
                            };
                            match joined {
                                Some(out) => Ok(Value::EmString(out)),
                                None => match (number_in(&x, frame), number_in(&y, frame)) {
                                    (Some(a), Some(b)) => Ok(Value::Float(compute(opr, &a, &b))),
                                    _ => Err(RuntimeError::NotANumber),
                                },
                            }
                        } else {
                            Ok(Value::EmBool(holds(opr, x.compare(&y))))
                        }
                    },
                },
            },
        }
    }
}

} // verus!
