//! Function definitions and calls, classes, objects and methods.

use crate::interpreter::builtins::find_native;
use crate::interpreter::error::RuntimeError;
use crate::interpreter::frame::{StackFrame, Table};
use crate::interpreter::runtime::{outcome, Found, Runtime};
use crate::interpreter::semantics;
use crate::interpreter::value::{
    data, duplicate_members, fields, find_member, set_member, store, Datum, EmObject, Member,
    Value,
};
use crate::parser::node::{duplicate_names, texts, trees, ExprNode, Tree};
use vstd::prelude::*;

verus! {

/// Binds `params[skip..]` in turn to copies of `values` in `frame`.
pub fn bind_all(params: &Vec<String>, values: &Vec<Value>, skip: usize, frame: &mut StackFrame)
    ensures
        final(frame)@ == semantics::bind(
            texts(params@),
            data(values@),
            skip as int,
            skip as int,
            old(frame)@,
        ),
{
    let mut i: usize = skip;
    while i < params.len() && i - skip < values.len()
        invariant
            skip <= i,
            semantics::bind(texts(params@), data(values@), skip as int, i as int, frame@)
                == semantics::bind(
                texts(params@),
                data(values@),
                skip as int,
                skip as int,
                old(frame)@,
            ),
        decreases params.len() - i,
    {
        frame.set_var(params[i].clone(), values[i - skip].duplicate());
        i += 1;
    }
}

impl Runtime {
    /// Defines a function and saves it among the definitions.
    pub fn def_func(&mut self, name: &String, params: &Vec<String>, body: &ExprNode) -> (r: Result<
        Value,
        RuntimeError,
    >)
        ensures
            forall|t: Table|
                outcome(r, final(self)@, t) == semantics::def_func(
                    name@,
                    texts(params@),
                    body@,
                    old(self)@,
                    t,
                ),
            final(self).limit == old(self).limit,
    {
        let stored = Value::Function(name.clone(), duplicate_names(params), body.duplicate());
        let given = Value::Function(name.clone(), duplicate_names(params), body.duplicate());
        set_member(&mut self.heap, name.clone(), stored);
        Ok(given)
    }

    /// Executes a function call: a native function, or a defined one.
    pub fn do_call(
        &mut self,
        name: &String,
        args: &Vec<ExprNode>,
        frame: &mut StackFrame,
        fuel: u64,
    ) -> (r: Result<Value, RuntimeError>)
        ensures
            outcome(r, final(self)@, final(frame)@) == semantics::do_call(
                name@,
                trees(args@),
                old(self)@,
                old(frame)@,
                fuel as nat,
            ),
            final(self).limit == old(self).limit,
        decreases fuel, 2int, 0int,
    {
        match find_native(&self.functions, name) {
            Some(b) => match self.gather(args, false, frame, fuel) {
                Ok(values) => {
                    let v = self.native(b, &values, fuel);
                    Ok(v)
                },
                Err(e) => Err(e),
            },
            None => match self.find(name) {
                Found::Missing => Err(RuntimeError::Unresolved(name.clone())),
                Found::Function(params, body) => {
                    if params.len() != args.len() {
                        Err(
                            RuntimeError::Arity {
                                name: name.clone(),
                                expected: params.len(),
                                actual: args.len(),
                            },
                        )
                    } else {
                        match self.gather(args, true, frame, fuel) {
                            Ok(values) => {
                                let mut callee = StackFrame::new();
                                bind_all(&params, &values, 0, &mut callee);
                                self.walk_tree(&body, &mut callee, fuel)
                            },
                            Err(e) => Err(e),
                        }
                    }
                },
                _ => Err(RuntimeError::NotCallable(name.clone())),
            },
        }
    }

    /// Calls a method or a constructor on an object.
    pub fn invoke(
        &mut self,
        name: &String,
        members: &Vec<Member>,
        params: &Vec<String>,
        body: &ExprNode,
        args: &Vec<ExprNode>,
        constructing: bool,
        frame: &mut StackFrame,
        fuel: u64,
    ) -> (r: Result<Value, RuntimeError>)
        ensures
            outcome(r, final(self)@, final(frame)@) == semantics::invoke(
                name@,
                fields(members@),
                texts(params@),
                body@,
                trees(args@),
                constructing,
                old(self)@,
                old(frame)@,
                fuel as nat,
            ),
            final(self).limit == old(self).limit,
        decreases fuel, 2int, 0int,
    {
        if params.len() == 0 || args.len() != params.len() - 1 {
            return Err(
                RuntimeError::Arity {
                    name: name.clone(),
                    expected: if params.len() > 0 {
                        params.len() - 1
                    } else {
                        0
                    },
                    actual: args.len(),
                },
            );
        }
        match self.gather(args, true, frame, fuel) {
            Ok(values) => {
                let mut callee = StackFrame::new();
                callee.set_var(
                    String::from_str("self"),
                    Value::Object(EmObject { members: duplicate_members(members) }),
                );
                bind_all(params, &values, 1, &mut callee);
                match self.walk_tree(body, &mut callee, fuel) {
                    Ok(v) => Ok(
                        if constructing {
                            callee.get_var_copy("self")
                        } else {
                            v
                        },
                    ),
                    Err(e) => Err(e),
                }
            },
            Err(e) => Err(e),
        }
    }

    /// Calls a method on an object.
    pub fn do_method(
        &mut self,
        obj: &EmObject,
        name: &String,
        args: &Vec<ExprNode>,
        frame: &mut StackFrame,
        fuel: u64,
    ) -> (r: Result<Value, RuntimeError>)
        ensures
            outcome(r, final(self)@, final(frame)@) == semantics::do_method(
                fields(obj.members@),
                name@,
                trees(args@),
                old(self)@,
                old(frame)@,
                fuel as nat,
            ),
            final(self).limit == old(self).limit,
        decreases fuel, 3int, 0int,
    {
        match find_member(&obj.members, name) {
            Some(i) => match &obj.members[i].value {
                Value::Function(_, params, body) => self.invoke(
                    name,
                    &obj.members,
                    params,
                    body,
                    args,
                    false,
                    frame,
                    fuel,
                ),
                _ => Err(RuntimeError::NotCallable(name.clone())),
            },
            None => Err(RuntimeError::NotCallable(name.clone())),
        }
    }

    /// Makes an object of a class.
    pub fn do_init(
        &mut self,
        name: &String,
        init_args: &Vec<ExprNode>,
        frame: &mut StackFrame,
        fuel: u64,
    ) -> (r: Result<Value, RuntimeError>)
        ensures
            outcome(r, final(self)@, final(frame)@) == semantics::do_init(
                name@,
                trees(init_args@),
                old(self)@,
                old(frame)@,
                fuel as nat,
            ),
            final(self).limit == old(self).limit,
        decreases fuel, 3int, 0int,
    {
        match self.find(name) {
            Found::Class(members) => {
                let key = String::from_str("~init");
                let hook: Option<usize> = match find_member(&members, &key) {
                    Some(i) => match &members[i].value {
                        Value::Function(_, _, _) => Some(i),
                        _ => None,
                    },
                    None => None,
                };
                match hook {
                    Some(i) => match &members[i].value {
                        Value::Function(_, params, body) => self.invoke(
                            name,
                            &members,
                            params,
                            body,
                            init_args,
                            true,
                            frame,
                            fuel,
                        ),
                        _ => Err(RuntimeError::NotAClass(name.clone())),
                    },
                    None => Ok(Value::Object(EmObject { members })),
                }
            },
            _ => Err(RuntimeError::NotAClass(name.clone())),
        }
    }

    /// Defines a class and saves it among the definitions.
    pub fn define_class(
        &mut self,
        name: &String,
        body: &ExprNode,
        frame: &mut StackFrame,
        fuel: u64,
    ) -> (r: Result<Value, RuntimeError>)
        ensures
            outcome(r, final(self)@, final(frame)@) == semantics::define_class(
                name@,
                body@,
                old(self)@,
                old(frame)@,
                fuel as nat,
            ),
            final(self).limit == old(self).limit,
        decreases fuel, 2int, 0int,
    {
        let mut members: Vec<Member> = Vec::new();
        assert(fields(members@) =~= Seq::<(Seq<char>, Datum)>::empty());
        set_member(&mut members, String::from_str("~name"), Value::EmString(name.clone()));
        let ghost named = fields(members@);
        match body {
            ExprNode::Block(v) => {
                let mut i: usize = 0;
                while i < v.len()
                    invariant
                        i <= v.len(),
                        self.limit == old(self).limit,
                        body@ == Tree::Block(trees(v@)),
                        named == store(
                            Seq::<(Seq<char>, Datum)>::empty(),
                            "~name"@,
                            Datum::EmString(name@),
                        ),
                        semantics::methods(
                            trees(v@),
                            i as int,
                            fields(members@),
                            self@,
                            frame@,
                            fuel as nat,
                        ) == semantics::methods(
                            trees(v@),
                            0,
                            named,
                            old(self)@,
                            old(frame)@,
                            fuel as nat,
                        ),
                    decreases v.len() - i,
                {
                    match self.walk_tree(&v[i], frame, fuel) {
                        Ok(val) => {
                            let key: Option<String> = match &val {
                                Value::Function(n, _, _) => Some(n.clone()),
                                _ => None,
                            };
                            match key {
                                Some(n) => {
                                    set_member(&mut members, n, val);
                                },
                                None => {
                                    return Err(RuntimeError::BadClassBody);
                                },
                            }
                        },
                        Err(e) => {
                            return Err(e);
                        },
                    }
                    i += 1;
                }
            },
            _ => {},
        }
        let class = Value::Object(EmObject { members: duplicate_members(&members) });
        set_member(&mut self.heap, name.clone(), Value::Object(EmObject { members }));
        Ok(class)
    }
}

} // verus!
