//! The text of values.

use crate::interpreter::frame::StackFrame;
use crate::interpreter::runtime::Runtime;
use crate::interpreter::semantics;
use crate::interpreter::value::{data, fields, find_member, Member, Value};
use crate::parser::node::texts;
use crate::text::unescape;
use vstd::prelude::*;

verus! {

/// The names joined by a comma and a space.
pub fn join_names(names: &Vec<String>) -> (out: String)
    ensures
        out@ == semantics::joined(texts(names@), 0),
{
    let mut out = String::new();
    let mut i: usize = 0;
    while i < names.len()
        invariant
            i <= names.len(),
            out@ + semantics::joined(texts(names@), i as int) == semantics::joined(
                texts(names@),
                0,
            ),
        decreases names.len() - i,
    {
        out.append(names[i].as_str());
        if i + 1 < names.len() {
            out.append(", ");
        } else {
        }
        i += 1;
    }
    out
}

/// The text of a value.
pub fn render(value: &Value, fuel: u64) -> (text: String)
    ensures
        text@ == semantics::show(value@, fuel as nat),
    decreases fuel, 0int, 0int,
{
    if fuel == 0 {
        return String::new();
    }
    match value {
        Value::Null => String::from_str("null"),
        Value::Float(n) => n.to_text(),
        Value::EmString(s) => unescape(s.as_str()),
        Value::EmBool(b) => if *b {
            String::from_str("true")
        } else {
            String::from_str("false")
        },
        Value::Name(n) => n.clone(),
        Value::Function(n, p, _) => {
            let mut out = n.clone();
            out.append("(");
            let names = join_names(p);
            out.append(names.as_str());
            out.append(")");
            out
        },
        Value::EmArray(xs) => {
            let mut out = String::from_str("[");
            let items = render_items(xs, fuel - 1);
            out.append(items.as_str());
            out.append("]");
            out
        },
        Value::Object(o) => {
            let key = String::from_str("~display");
            let hook: Option<usize> = match find_member(&o.members, &key) {
                Some(i) => match &o.members[i].value {
                    Value::Function(_, _, _) => Some(i),
                    _ => None,
                },
                None => None,
            };
            match hook {
                Some(i) => {
                    match &o.members[i].value {
                        Value::Function(_, _, body) => {
                            let mut runtime = Runtime::new();
                            let mut frame = StackFrame::new();
                            frame.set_var(String::from_str("self"), value.duplicate());
                            match runtime.walk_tree(body, &mut frame, fuel - 1) {
                                Ok(v) => render(&v, fuel - 1),
                                Err(_) => String::new(),
                            }
                        },
                        _ => String::new(),
                    }
                },
                None => {
                    let mut out = String::from_str("{");
                    let items = render_members(&o.members, fuel - 1);
                    out.append(items.as_str());
                    out.append("}");
                    out
                },
            }
        },
    }
}

/// The text of an item of an array or of a member of an object.
pub fn render_item(value: &Value, fuel: u64) -> (text: String)
    ensures
        text@ == semantics::show_item(value@, fuel as nat),
    decreases fuel, 1int, 0int,
{
    match value {
        Value::EmString(s) => {
            let mut out = String::from_str("\"");
            let shown = unescape(s.as_str());
            out.append(shown.as_str());
            out.append("\"");
            out
        },
        _ => render(value, fuel),
    }
}

/// The texts of the items of an array, with commas between them.
pub fn render_items(xs: &Vec<Value>, fuel: u64) -> (out: String)
    ensures
        out@ == semantics::show_items(data(xs@), 0, fuel as nat),
    decreases fuel, 2int, 0int,
{
    let mut out = String::new();
    let mut i: usize = 0;
    while i < xs.len()
        invariant
            i <= xs.len(),
            out@ + semantics::show_items(data(xs@), i as int, fuel as nat) == semantics::show_items(
                data(xs@),
                0,
                fuel as nat,
            ),
        decreases xs.len() - i,
    {
        let item = render_item(&xs[i], fuel);
        out.append(item.as_str());
        if i + 1 < xs.len() {
            out.append(", ");
        } else {
        }
        i += 1;
    }
    out
}

/// The texts of the members of an object, with commas between them.
pub fn render_members(members: &Vec<Member>, fuel: u64) -> (out: String)
    ensures
        out@ == semantics::show_members(fields(members@), 0, fuel as nat),
    decreases fuel, 2int, 0int,
{
    let mut out = String::new();
    let mut i: usize = 0;
    while i < members.len()
        invariant
            i <= members.len(),
            out@ + semantics::show_members(fields(members@), i as int, fuel as nat)
                == semantics::show_members(fields(members@), 0, fuel as nat),
        decreases members.len() - i,
    {
        let item = render_item(&members[i].value, fuel);
        out.append(members[i].name.as_str());
        out.append(": ");
        out.append(item.as_str());
        if i + 1 < members.len() {
            out.append(", ");
        } else {
        }
        i += 1;
    }
    out
}

} // verus!
