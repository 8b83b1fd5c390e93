//! The native functions at work.

use crate::interpreter::builtins::{em_number, Console};
use crate::interpreter::runtime::render::render;
use crate::interpreter::runtime::Runtime;
use crate::interpreter::semantics;
use crate::interpreter::semantics::{Builtin, Machine};
use crate::interpreter::value::{data, Value};
use vstd::prelude::*;

verus! {

/// Writes the first argument, where there is one.
pub fn prompt(console: &mut Console, args: &Vec<Value>, fuel: u64)
    ensures
        final(console)@ == if args.len() > 0 {
            semantics::wrote(old(console)@, semantics::show(args@[0]@, fuel as nat))
        } else {
            old(console)@
        },
    decreases fuel, 1int, 0int,
{
    if args.len() > 0 {
        let text = render(&args[0], fuel);
        console.write(text);
    }
}

/// `print`: writes its first argument.
pub fn em_print(console: &mut Console, args: &Vec<Value>, fuel: u64) -> (v: Value)
    ensures
        (v@, final(console)@) == semantics::apply(
            Builtin::Print,
            data(args@),
            old(console)@,
            fuel as nat,
        ),
    decreases fuel, 1int, 1int,
{
    prompt(console, args, fuel);
    Value::Null
}

/// `println`: writes its first argument and ends the line.
pub fn em_println(console: &mut Console, args: &Vec<Value>, fuel: u64) -> (v: Value)
    ensures
        (v@, final(console)@) == semantics::apply(
            Builtin::Println,
            data(args@),
            old(console)@,
            fuel as nat,
        ),
    decreases fuel, 1int, 1int,
{
    let mut text = if args.len() > 0 {
        render(&args[0], fuel)
    } else {
        String::new()
    };
    text.append("\n");
    console.write(text);
    Value::Null
}

/// `readln`: writes its first argument, if any, and reads a line.
pub fn em_readln(console: &mut Console, args: &Vec<Value>, fuel: u64) -> (v: Value)
    ensures
        (v@, final(console)@) == semantics::apply(
            Builtin::Readln,
            data(args@),
            old(console)@,
            fuel as nat,
        ),
    decreases fuel, 1int, 1int,
{
    prompt(console, args, fuel);
    console.read_line()
}

/// `read`: writes its first argument, if any, and reads a character.
pub fn em_read(console: &mut Console, args: &Vec<Value>, fuel: u64) -> (v: Value)
    ensures
        (v@, final(console)@) == semantics::apply(
            Builtin::Read,
            data(args@),
            old(console)@,
            fuel as nat,
        ),
    decreases fuel, 1int, 1int,
{
    prompt(console, args, fuel);
    console.read_char()
}

impl Runtime {
    /// Applies a native function to its arguments.
    pub fn native(&mut self, function: Builtin, args: &Vec<Value>, fuel: u64) -> (v: Value)
        ensures
            (v@, final(self)@.console) == semantics::apply(
                function,
                data(args@),
                old(self)@.console,
                fuel as nat,
            ),
            final(self)@ == (Machine { console: final(self)@.console, ..old(self)@ }),
            final(self).limit == old(self).limit,
        decreases fuel, 1int, 2int,
    {
        match function {
            Builtin::Print => em_print(&mut self.console, args, fuel),
            Builtin::Println => em_println(&mut self.console, args, fuel),
            Builtin::Number => {
                if args.len() > 0 {
                    em_number(&args[0])
                } else {
                    Value::Null
                }
            },
            Builtin::Readln => em_readln(&mut self.console, args, fuel),
            Builtin::Read => em_read(&mut self.console, args, fuel),
        }
    }
}

} // verus!
