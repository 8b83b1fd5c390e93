//! What evaluation means: the value of every tree in every state, as
//! functions over the models of the syntax tree, of the values and of the
//! runtime.
//!
//! Evaluation has a budget, `fuel`: every step down into a tree and every
//! turn of a loop takes one unit, and the evaluation fails when none is left.
//! So every evaluation ends.

use crate::interpreter::error::Fault;
use crate::interpreter::frame::{assigned, bound, Table};
use crate::interpreter::value::{lookup, order, store, Datum};
use crate::lexer::find;
use crate::number::{
    single_difference, single_product, single_quotient, single_sum, Number, Order,
};
use crate::parser::node::{Operator, Tree};
use crate::text::unescaped;
use vstd::prelude::*;

verus! {

/// The native functions.
#[derive(Clone, Copy, Debug, PartialEq, Eq, Structural)]
pub enum Builtin {
    /// Writes its first argument.
    Print,
    /// Writes its first argument and ends the line.
    Println,
    /// Turns its first argument into a number.
    Number,
    /// Writes its first argument, if any, and reads a line.
    Readln,
    /// Writes its first argument, if any, and reads a character.
    Read,
}

/// The model of the console: the texts written so far, the characters that
/// wait to be read, and whether a read has found nothing waiting.
pub struct Terminal {
    pub output: Seq<Seq<char>>,
    pub input: Seq<char>,
    pub starved: bool,
}

/// The model of the runtime: the definitions, the native functions by name,
/// the console, and the flag that is raised by a `return` and stops blocks and
/// loops.
pub struct Machine {
    pub heap: Table,
    pub functions: Seq<(Seq<char>, Builtin)>,
    pub console: Terminal,
    pub returning: bool,
}

/// The result of an evaluation, with the runtime and the frame as it leaves
/// them.
pub struct Evaluated {
    pub value: Result<Datum, Fault>,
    pub machine: Machine,
    pub frame: Table,
}

/// The variable and the path of indices that the left side of an assignment
/// names, with the runtime and the frame after its index expressions were
/// evaluated.
pub struct Located {
    pub place: Result<(Seq<char>, Seq<usize>), Fault>,
    pub machine: Machine,
    pub frame: Table,
}

/// An evaluation that ends well.
pub open spec fn done(value: Datum, machine: Machine, frame: Table) -> Evaluated {
    Evaluated { value: Ok(value), machine, frame }
}

/// An evaluation that ends in an error.
pub open spec fn fail(fault: Fault, machine: Machine, frame: Table) -> Evaluated {
    Evaluated { value: Err(fault), machine, frame }
}

/// The runtime with its flag set to `flag`.
pub open spec fn flagged(m: Machine, flag: bool) -> Machine {
    Machine { returning: flag, ..m }
}

/// The runtime that a program starts in: nothing defined, nothing written,
/// nothing to read, and the five native functions.
pub open spec fn fresh() -> Machine {
    Machine {
        heap: Seq::empty(),
        functions: seq![
            ("print"@, Builtin::Print),
            ("println"@, Builtin::Println),
            ("number"@, Builtin::Number),
            ("readln"@, Builtin::Readln),
            ("read"@, Builtin::Read),
        ],
        console: Terminal { output: Seq::empty(), input: Seq::empty(), starved: false },
        returning: false,
    }
}

/// The first native function registered under `name` from `from` on.
pub open spec fn native(functions: Seq<(Seq<char>, Builtin)>, name: Seq<char>, from: int) -> Option<
    Builtin,
>
    decreases functions.len() - from,
{
    if from < 0 || from >= functions.len() {
        None
    } else if functions[from].0 == name {
        Some(functions[from].1)
    } else {
        native(functions, name, from + 1)
    }
}

/// The names joined by a comma and a space, from `from` on.
pub open spec fn joined(names: Seq<Seq<char>>, from: int) -> Seq<char>
    decreases names.len() - from,
{
    if from < 0 || from >= names.len() {
        Seq::empty()
    } else if from + 1 >= names.len() {
        names[from]
    } else {
        names[from] + ", "@ + joined(names, from + 1)
    }
}

/// The number that an operand of an arithmetic operator stands for: itself,
/// or what the variable holds that it names.
pub open spec fn number_in(d: Datum, frame: Table) -> Option<Number> {
    match d {
        Datum::Float(n) => Some(n),
        Datum::Name(n) => match bound(frame, n) {
            Datum::Float(x) => Some(x),
            _ => None,
        },
        _ => None,
    }
}

/// The value handed to a function for an argument: what the variable holds
/// where the argument is a name, the argument itself otherwise.
pub open spec fn resolved(d: Datum, frame: Table) -> Datum {
    match d {
        Datum::Name(n) => bound(frame, n),
        _ => d,
    }
}

/// True for the four arithmetic operators.
pub open spec fn is_arithmetic(op: Operator) -> bool {
    op == Operator::Add || op == Operator::Sub || op == Operator::Mul || op == Operator::Div
}

/// The result of an arithmetic operator on two numbers.
pub open spec fn computed(op: Operator, x: Number, y: Number) -> Number {
    match op {
        Operator::Add => Number { bits: single_sum(x.bits, y.bits) },
        Operator::Sub => Number { bits: single_difference(x.bits, y.bits) },
        Operator::Mul => Number { bits: single_product(x.bits, y.bits) },
        _ => Number { bits: single_quotient(x.bits, y.bits) },
    }
}

/// Whether a relational operator holds of two values that stand as `o`.
pub open spec fn holds(op: Operator, o: Order) -> bool {
    match op {
        Operator::EqualTo => o == Order::Equal,
        Operator::NotEqualTo => o != Order::Equal,
        Operator::Greater => o == Order::Greater,
        Operator::Less => o == Order::Less,
        Operator::GreaterOrEq => o == Order::Greater || o == Order::Equal,
        _ => o == Order::Less || o == Order::Equal,
    }
}

/// The number that the native function `number` makes of a value: the number
/// that a text spells as a plain decimal numeral, one and zero for true and
/// false, a number itself, and null for everything else.
pub open spec fn number_of(d: Datum) -> Datum {
    match d {
        Datum::EmString(s) => match Number::numeral(s) {
            Some(n) => Datum::Float(n),
            None => Datum::Null,
        },
        Datum::EmBool(b) => Datum::Float(
            if b {
                Number { bits: 0x3f80_0000 }
            } else {
                Number { bits: 0 }
            },
        ),
        Datum::Float(n) => Datum::Float(n),
        _ => Datum::Null,
    }
}

/// The console after `text` was written.
pub open spec fn wrote(console: Terminal, text: Seq<char>) -> Terminal {
    Terminal { output: console.output.push(text), ..console }
}

/// Reads a line: the characters up to the next line feed, which is taken
/// away with them. With nothing waiting the result is null and the console is
/// marked as starved.
pub open spec fn read_line(console: Terminal) -> (Datum, Terminal) {
    if console.input.len() == 0 {
        (Datum::Null, Terminal { starved: true, ..console })
    } else {
        let end = find(console.input, 0, '\n');
        let rest = if end < console.input.len() {
            console.input.subrange(end + 1, console.input.len() as int)
        } else {
            Seq::empty()
        };
        (Datum::EmString(console.input.subrange(0, end)), Terminal { input: rest, ..console })
    }
}

/// Reads one character, in the way of `read_line`.
pub open spec fn read_char(console: Terminal) -> (Datum, Terminal) {
    if console.input.len() == 0 {
        (Datum::Null, Terminal { starved: true, ..console })
    } else {
        (
            Datum::EmString(seq![console.input[0]]),
            Terminal { input: console.input.subrange(1, console.input.len() as int), ..console },
        )
    }
}

/// The frame of a call: `params[from..]` bound in turn to `values[from - skip..]`
/// on top of `table`.
pub open spec fn bind(
    params: Seq<Seq<char>>,
    values: Seq<Datum>,
    skip: int,
    from: int,
    table: Table,
) -> Table
    decreases params.len() - from,
{
    if from < skip || from >= params.len() || from - skip >= values.len() {
        table
    } else {
        bind(params, values, skip, from + 1, store(table, params[from], values[from - skip]))
    }
}

/// The text of a value. In a string, `esc_QUOTE` is shown as a double quote.
///
/// An object with a member `~display` that is a function is shown as what the
/// body of that function gives, run in a runtime of its own with the object
/// bound to `self`; where that fails, as nothing.
pub open spec fn show(d: Datum, fuel: nat) -> Seq<char>
    decreases fuel, 0int, 0int,
{
    if fuel == 0 {
        Seq::empty()
    } else {
        match d {
            Datum::Null => "null"@,
            Datum::Float(n) => n.text(),
            Datum::EmString(s) => unescaped(s),
            Datum::EmBool(b) => if b {
                "true"@
            } else {
                "false"@
            },
            Datum::Name(n) => n,
            Datum::Function(n, p, _) => n + "("@ + joined(p, 0) + ")"@,
            Datum::EmArray(xs) => "["@ + show_items(xs, 0, (fuel - 1) as nat) + "]"@,
            Datum::Object(members) => match lookup(members, "~display"@) {
                Some(Datum::Function(_, _, body)) => {
                    let r = walk(
                        body,
                        fresh(),
                        store(Seq::empty(), "self"@, d),
                        (fuel - 1) as nat,
                    );
                    match r.value {
                        Ok(v) => show(v, (fuel - 1) as nat),
                        Err(_) => Seq::empty(),
                    }
                },
                _ => "{"@ + show_members(members, 0, (fuel - 1) as nat) + "}"@,
            },
        }
    }
}

/// The text of an item of an array or of a member of an object: as `show`
/// gives it, but a string stands in double quotes.
pub open spec fn show_item(d: Datum, fuel: nat) -> Seq<char>
    decreases fuel, 1int, 0int,
{
    match d {
        Datum::EmString(s) => "\""@ + unescaped(s) + "\""@,
        _ => show(d, fuel),
    }
}

/// The texts of the items from `from` on, with a comma and a space between
/// them.
pub open spec fn show_items(xs: Seq<Datum>, from: int, fuel: nat) -> Seq<char>
    decreases fuel, 2int, xs.len() - from,
{
    if from < 0 || from >= xs.len() {
        Seq::empty()
    } else if from + 1 >= xs.len() {
        show_item(xs[from], fuel)
    } else {
        show_item(xs[from], fuel) + ", "@ + show_items(xs, from + 1, fuel)
    }
}

/// The texts of the members from `from` on, each as its name, a colon and its
/// value, with a comma and a space between them.
pub open spec fn show_members(members: Table, from: int, fuel: nat) -> Seq<char>
    decreases fuel, 2int, members.len() - from,
{
    if from < 0 || from >= members.len() {
        Seq::empty()
    } else if from + 1 >= members.len() {
        members[from].0 + ": "@ + show_item(members[from].1, fuel)
    } else {
        members[from].0 + ": "@ + show_item(members[from].1, fuel) + ", "@ + show_members(
            members,
            from + 1,
            fuel,
        )
    }
}

/// What a native function gives for its arguments, and the console after it.
pub open spec fn apply(b: Builtin, args: Seq<Datum>, console: Terminal, fuel: nat) -> (
    Datum,
    Terminal,
)
    decreases fuel, 1int, 0int,
{
    let prompted = if args.len() > 0 {
        wrote(console, show(args[0], fuel))
    } else {
        console
    };
    match b {
        Builtin::Print => (Datum::Null, prompted),
        Builtin::Println => (
            Datum::Null,
            if args.len() > 0 {
                wrote(console, show(args[0], fuel) + "\n"@)
            } else {
                wrote(console, "\n"@)
            },
        ),
        Builtin::Number => (
            if args.len() > 0 {
                number_of(args[0])
            } else {
                Datum::Null
            },
            console,
        ),
        Builtin::Readln => read_line(prompted),
        Builtin::Read => read_char(prompted),
    }
}

/// The value of a tree.
///
/// A block runs its statements in turn and keeps the flag as they leave it.
/// Every other tree is handed to the function of its kind, and the flag is
/// lowered when that ends well. A name that is not bound is null.
pub open spec fn walk(node: Tree, m: Machine, frame: Table, fuel: nat) -> Evaluated
    decreases fuel, 0int, 0int,
{
    if fuel == 0 {
        fail(Fault::Exhausted, m, frame)
    } else {
        let f = (fuel - 1) as nat;
        match node {
            Tree::Block(v) => block_from(v, 0, m, frame, f),
            _ => {
                let r = match node {
                    Tree::Operation(o, l, r) => do_operation(o, *l, *r, m, frame, f),
                    Tree::Call(n, args) => do_call(n, args, m, frame, f),
                    Tree::StrLiteral(s) => done(Datum::EmString(s), m, frame),
                    Tree::NumLiteral(n) => done(Datum::Float(n), m, frame),
                    Tree::BoolLiteral(b) => done(Datum::EmBool(b), m, frame),
                    Tree::Name(n) => done(bound(frame, n), m, frame),
                    Tree::Func(n, p, b) => def_func(n, p, *b, m, frame),
                    Tree::Statement(e) => walk(*e, m, frame, f),
                    Tree::Loop(k, c, b) => do_loop(k, *c, *b, m, frame, f),
                    Tree::IfStatement(c, b, e) => do_if(*c, *b, *e, m, frame, f),
                    Tree::Array(v) => gather(v, 0, Seq::empty(), false, m, frame, f),
                    Tree::Index(b, i) => index_array(*b, *i, m, frame, f),
                    Tree::New(n, args) => do_init(n, args, m, frame, f),
                    Tree::Class(n, b) => define_class(n, *b, m, frame, f),
                    _ => done(Datum::Null, m, frame),
                };
                match r.value {
                    Ok(_) => Evaluated { machine: flagged(r.machine, false), ..r },
                    Err(_) => r,
                }
            },
        }
    }
}

/// The statements of a block from `from` on.
///
/// A `return` statement gives its value to the block, raises the flag and
/// ends the block. After any other statement the block ends, with null, where
/// the flag is up. A block that runs to its end is null.
pub open spec fn block_from(
    stmts: Seq<Tree>,
    from: int,
    m: Machine,
    frame: Table,
    fuel: nat,
) -> Evaluated
    decreases fuel, 1int, stmts.len() - from,
{
    if from < 0 || from >= stmts.len() {
        done(Datum::Null, m, frame)
    } else {
        match stmts[from] {
            Tree::ReturnVal(e) => {
                let r = walk(*e, m, frame, fuel);
                match r.value {
                    Ok(_) => Evaluated { machine: flagged(r.machine, true), ..r },
                    Err(_) => r,
                }
            },
            other => {
                let r = walk(other, m, frame, fuel);
                match r.value {
                    Ok(_) => if r.machine.returning {
                        done(Datum::Null, r.machine, r.frame)
                    } else {
                        block_from(stmts, from + 1, r.machine, r.frame, fuel)
                    },
                    Err(_) => r,
                }
            },
        }
    }
}

/// The values of the trees from `from` on, in turn, behind `acc`, as an
/// array. With `resolve` set, a value that is a name gives way to what the
/// variable holds.
pub open spec fn gather(
    nodes: Seq<Tree>,
    from: int,
    acc: Seq<Datum>,
    resolve: bool,
    m: Machine,
    frame: Table,
    fuel: nat,
) -> Evaluated
    decreases fuel, 1int, nodes.len() - from,
{
    if from < 0 || from >= nodes.len() {
        done(Datum::EmArray(acc), m, frame)
    } else {
        let r = walk(nodes[from], m, frame, fuel);
        match r.value {
            Ok(v) => gather(
                nodes,
                from + 1,
                acc.push(
                    if resolve {
                        resolved(v, r.frame)
                    } else {
                        v
                    },
                ),
                resolve,
                r.machine,
                r.frame,
                fuel,
            ),
            Err(_) => r,
        }
    }
}

/// A function definition: the function is stored under its name among the
/// definitions, and is the value.
pub open spec fn def_func(
    name: Seq<char>,
    params: Seq<Seq<char>>,
    body: Tree,
    m: Machine,
    frame: Table,
) -> Evaluated {
    let f = Datum::Function(name, params, body);
    done(f, Machine { heap: store(m.heap, name, f), ..m }, frame)
}

/// A call.
///
/// The native functions are asked first, the definitions after them. A
/// defined function must get as many arguments as it has parameters; this is
/// seen to before any argument is evaluated. Its body runs in a frame of its
/// own that holds the parameters and nothing else, and the frame of the
/// caller comes back as the arguments left it.
pub open spec fn do_call(
    name: Seq<char>,
    args: Seq<Tree>,
    m: Machine,
    frame: Table,
    fuel: nat,
) -> Evaluated
    decreases fuel, 2int, 0int,
{
    match native(m.functions, name, 0) {
        Some(b) => {
            let a = gather(args, 0, Seq::empty(), false, m, frame, fuel);
            match a.value {
                Ok(Datum::EmArray(values)) => {
                    let (v, console) = apply(b, values, a.machine.console, fuel);
                    done(v, Machine { console, ..a.machine }, a.frame)
                },
                _ => a,
            }
        },
        None => match lookup(m.heap, name) {
            None => fail(Fault::Unresolved(name), m, frame),
            Some(Datum::Function(_, params, body)) => {
                if params.len() != args.len() {
                    fail(
                        Fault::Arity {
                            name,
                            expected: params.len(),
                            actual: args.len(),
                        },
                        m,
                        frame,
                    )
                } else {
                    let a = gather(args, 0, Seq::empty(), true, m, frame, fuel);
                    match a.value {
                        Ok(Datum::EmArray(values)) => {
                            let r = walk(
                                body,
                                a.machine,
                                bind(params, values, 0, 0, Seq::empty()),
                                fuel,
                            );
                            Evaluated { frame: a.frame, ..r }
                        },
                        _ => a,
                    }
                }
            },
            Some(_) => fail(Fault::NotCallable(name), m, frame),
        },
    }
}

/// The turns of a loop, with `fuel` units for them.
///
/// Before each turn the condition is evaluated, and the loop ends unless it
/// is true. Then the body runs; where it raises the flag the loop ends at
/// once. Then the increment runs, if there is one. The value of the loop is
/// that of the last body that ran, and null where none did.
pub open spec fn turns(
    cond: Tree,
    body: Tree,
    inc: Option<Tree>,
    last: Datum,
    m: Machine,
    frame: Table,
    fuel: nat,
) -> Evaluated
    decreases fuel, 1int, 0int,
{
    if fuel == 0 {
        fail(Fault::Exhausted, m, frame)
    } else {
        let f = (fuel - 1) as nat;
        let c = walk(cond, m, frame, f);
        match c.value {
            Err(_) => c,
            Ok(Datum::EmBool(true)) => {
                let b = walk(body, c.machine, c.frame, f);
                match b.value {
                    Err(_) => b,
                    Ok(v) => if b.machine.returning {
                        b
                    } else {
                        match inc {
                            Some(i) => {
                                let n = walk(i, b.machine, b.frame, f);
                                match n.value {
                                    Err(_) => n,
                                    Ok(_) => turns(cond, body, inc, v, n.machine, n.frame, f),
                                }
                            },
                            None => turns(cond, body, inc, v, b.machine, b.frame, f),
                        }
                    },
                }
            },
            Ok(_) => done(last, c.machine, c.frame),
        }
    }
}

/// A loop. `while` turns on its condition. `for` takes a declaration, a
/// condition and an increment: the declaration runs once, unless it is left
/// out, and the increment after every body. Any other loop is null.
pub open spec fn do_loop(
    kind: Seq<char>,
    cond: Tree,
    body: Tree,
    m: Machine,
    frame: Table,
    fuel: nat,
) -> Evaluated
    decreases fuel, 2int, 0int,
{
    if kind == "while"@ {
        turns(cond, body, None, Datum::Null, m, frame, fuel)
    } else if kind == "for"@ {
        match cond {
            Tree::ForLoopDec(dec, con, inc) => {
                let start = match *dec {
                    Tree::Illegal(_) => done(Datum::Null, m, frame),
                    d => walk(d, m, frame, fuel),
                };
                match start.value {
                    Err(_) => start,
                    Ok(_) => turns(
                        *con,
                        body,
                        Some(*inc),
                        Datum::Null,
                        start.machine,
                        start.frame,
                        fuel,
                    ),
                }
            },
            _ => done(Datum::Null, m, frame),
        }
    } else {
        done(Datum::Null, m, frame)
    }
}

/// An `if`: the body where the condition is true, the branch otherwise. The
/// branch is another `if` for `elif`, a block for `else`, and a tree without
/// value where there is neither.
pub open spec fn do_if(
    cond: Tree,
    body: Tree,
    branch: Tree,
    m: Machine,
    frame: Table,
    fuel: nat,
) -> Evaluated
    decreases fuel, 2int, 0int,
{
    let c = walk(cond, m, frame, fuel);
    match c.value {
        Err(_) => c,
        Ok(Datum::EmBool(true)) => walk(body, c.machine, c.frame, fuel),
        Ok(_) => walk(branch, c.machine, c.frame, fuel),
    }
}

/// An item of an array: the base must be an array, the index a number, and
/// the number, truncated, a place of the array.
pub open spec fn index_array(
    base: Tree,
    index: Tree,
    m: Machine,
    frame: Table,
    fuel: nat,
) -> Evaluated
    decreases fuel, 2int, 0int,
{
    let a = walk(base, m, frame, fuel);
    match a.value {
        Err(_) => a,
        Ok(array) => {
            let i = walk(index, a.machine, a.frame, fuel);
            match i.value {
                Err(_) => i,
                Ok(Datum::Float(n)) => match array {
                    Datum::EmArray(xs) => if n.index() < xs.len() {
                        done(xs[n.index() as int], i.machine, i.frame)
                    } else {
                        fail(Fault::OutOfBounds(n.index()), i.machine, i.frame)
                    },
                    _ => fail(Fault::NotIndexable, i.machine, i.frame),
                },
                Ok(_) => fail(Fault::NotANumber, i.machine, i.frame),
            }
        },
    }
}

/// The variable and the indices that an assignment target names: a name, or
/// an index into a target. The index expressions are evaluated from the
/// innermost out, and each must give a number.
pub open spec fn locate(target: Tree, m: Machine, frame: Table, fuel: nat) -> Located
    decreases fuel, 2int, 0int,
{
    match target {
        Tree::Name(n) => Located { place: Ok((n, Seq::empty())), machine: m, frame },
        Tree::Index(base, index) => {
            if fuel == 0 {
                Located { place: Err(Fault::Exhausted), machine: m, frame }
            } else {
                let b = locate(*base, m, frame, (fuel - 1) as nat);
                match b.place {
                    Err(_) => b,
                    Ok((root, path)) => {
                        let i = walk(*index, b.machine, b.frame, (fuel - 1) as nat);
                        match i.value {
                            Err(e) => Located { place: Err(e), machine: i.machine, frame: i.frame },
                            Ok(Datum::Float(n)) => Located {
                                place: Ok((root, path.push(n.index()))),
                                machine: i.machine,
                                frame: i.frame,
                            },
                            Ok(_) => Located {
                                place: Err(Fault::NotANumber),
                                machine: i.machine,
                                frame: i.frame,
                            },
                        }
                    },
                }
            }
        },
        _ => Located { place: Err(Fault::BadTarget), machine: m, frame },
    }
}

/// A call of a method, or of a constructor: the function gets the object as
/// `self` and the arguments for the parameters behind its first, of which
/// there must be as many. A method gives what its body gives. A constructor
/// gives what its body leaves in `self`. The frame of the caller comes back
/// as the arguments left it.
pub open spec fn invoke(
    name: Seq<char>,
    members: Table,
    params: Seq<Seq<char>>,
    body: Tree,
    args: Seq<Tree>,
    constructing: bool,
    m: Machine,
    frame: Table,
    fuel: nat,
) -> Evaluated
    decreases fuel, 2int, 0int,
{
    if args.len() + 1 != params.len() {
        fail(
            Fault::Arity {
                name,
                expected: if params.len() > 0 {
                    (params.len() - 1) as nat
                } else {
                    0
                },
                actual: args.len(),
            },
            m,
            frame,
        )
    } else {
        let a = gather(args, 0, Seq::empty(), true, m, frame, fuel);
        match a.value {
            Ok(Datum::EmArray(values)) => {
                let callee = bind(
                    params,
                    values,
                    1,
                    1,
                    store(Seq::empty(), "self"@, Datum::Object(members)),
                );
                let r = walk(body, a.machine, callee, fuel);
                match r.value {
                    Ok(v) => done(
                        if constructing {
                            bound(r.frame, "self"@)
                        } else {
                            v
                        },
                        r.machine,
                        a.frame,
                    ),
                    Err(e) => fail(e, r.machine, a.frame),
                }
            },
            _ => a,
        }
    }
}

/// A method call on an object: the member of that name must be a function.
/// What the method does to `self` is lost with its frame.
pub open spec fn do_method(
    members: Table,
    name: Seq<char>,
    args: Seq<Tree>,
    m: Machine,
    frame: Table,
    fuel: nat,
) -> Evaluated
    decreases fuel, 3int, 0int,
{
    match lookup(members, name) {
        Some(Datum::Function(_, params, body)) => invoke(
            name,
            members,
            params,
            body,
            args,
            false,
            m,
            frame,
            fuel,
        ),
        _ => fail(Fault::NotCallable(name), m, frame),
    }
}

/// The making of an object: a copy of the class. Where the class has a member
/// `~init` that is a function, it runs as a constructor and the object is
/// what it leaves in `self`.
pub open spec fn do_init(
    name: Seq<char>,
    args: Seq<Tree>,
    m: Machine,
    frame: Table,
    fuel: nat,
) -> Evaluated
    decreases fuel, 3int, 0int,
{
    match lookup(m.heap, name) {
        Some(Datum::Object(members)) => match lookup(members, "~init"@) {
            Some(Datum::Function(_, params, body)) => invoke(
                name,
                members,
                params,
                body,
                args,
                true,
                m,
                frame,
                fuel,
            ),
            _ => done(Datum::Object(members), m, frame),
        },
        _ => fail(Fault::NotAClass(name), m, frame),
    }
}

/// The members of a class from the statements of its body from `from` on:
/// each statement must give a function, which becomes the member of its name.
pub open spec fn methods(
    stmts: Seq<Tree>,
    from: int,
    members: Table,
    m: Machine,
    frame: Table,
    fuel: nat,
) -> Evaluated
    decreases fuel, 1int, stmts.len() - from,
{
    if from < 0 || from >= stmts.len() {
        done(Datum::Object(members), m, frame)
    } else {
        let r = walk(stmts[from], m, frame, fuel);
        match r.value {
            Ok(Datum::Function(n, p, b)) => methods(
                stmts,
                from + 1,
                store(members, n, Datum::Function(n, p, b)),
                r.machine,
                r.frame,
                fuel,
            ),
            Ok(_) => fail(Fault::BadClassBody, r.machine, r.frame),
            Err(_) => r,
        }
    }
}

/// A class definition: an object with the member `~name` and the functions
/// of the body, stored under the name of the class among the definitions.
pub open spec fn define_class(
    name: Seq<char>,
    body: Tree,
    m: Machine,
    frame: Table,
    fuel: nat,
) -> Evaluated
    decreases fuel, 2int, 0int,
{
    let named = store(Seq::empty(), "~name"@, Datum::EmString(name));
    let r = match body {
        Tree::Block(v) => methods(v, 0, named, m, frame, fuel),
        _ => done(Datum::Object(named), m, frame),
    };
    match r.value {
        Ok(class) => Evaluated {
            machine: Machine { heap: store(r.machine.heap, name, class), ..r.machine },
            ..r
        },
        Err(_) => r,
    }
}

/// An assignment to a member of an object, `holder.member = value`: the
/// holder must be a variable that holds an object, and the member a name. The
/// value is evaluated first.
pub open spec fn assign_member(
    object: Tree,
    member: Tree,
    value: Tree,
    m: Machine,
    frame: Table,
    fuel: nat,
) -> Evaluated
    decreases fuel, 3int, 0int,
{
    match object {
        Tree::Name(holder) => {
            let v = walk(value, m, frame, fuel);
            match v.value {
                Ok(val) => match bound(v.frame, holder) {
                    Datum::Object(members) => match member {
                        Tree::Name(prop) => done(
                            val,
                            v.machine,
                            store(v.frame, holder, Datum::Object(store(members, prop, val))),
                        ),
                        _ => fail(Fault::BadMember, v.machine, v.frame),
                    },
                    _ => fail(Fault::NotAnObject, v.machine, v.frame),
                },
                Err(_) => v,
            }
        },
        _ => fail(Fault::BadTarget, m, frame),
    }
}

/// A member of an object, or a call of a method on it: what stands before the
/// dot must give an object, and what stands behind it must be a name or a
/// call.
pub open spec fn take_member(
    left: Tree,
    right: Tree,
    m: Machine,
    frame: Table,
    fuel: nat,
) -> Evaluated
    decreases fuel, 4int, 0int,
{
    let o = walk(left, m, frame, fuel);
    match o.value {
        Ok(Datum::Object(members)) => match right {
            Tree::Name(n) => match lookup(members, n) {
                Some(v) => done(v, o.machine, o.frame),
                None => fail(Fault::NoSuchMember(n), o.machine, o.frame),
            },
            Tree::Call(n, args) => do_method(members, n, args, o.machine, o.frame, fuel),
            _ => fail(Fault::BadMember, o.machine, o.frame),
        },
        Ok(_) => fail(Fault::NotAnObject, o.machine, o.frame),
        Err(_) => o,
    }
}

/// A binary operation.
///
/// An assignment binds a name in the frame, writes into an array at an index
/// or a chain of indices, or sets a member of an object that a variable
/// holds; nothing else can be assigned to. A dot takes a member of an object
/// or calls a method on it; with an assignment behind it, as operators group
/// to the right, it sets the member that the assignment names. The arithmetic
/// operators want numbers, but `+` with a string on its left appends the text
/// of the right side. The others compare.
pub open spec fn do_operation(
    op: Operator,
    left: Tree,
    right: Tree,
    m: Machine,
    frame: Table,
    fuel: nat,
) -> Evaluated
    decreases fuel, 5int, 0int,
{
    match op {
        Operator::Equals => match left {
            Tree::Name(n) => {
                let v = walk(right, m, frame, fuel);
                match v.value {
                    Ok(val) => done(val, v.machine, store(v.frame, n, val)),
                    Err(_) => v,
                }
            },
            Tree::Index(_, _) => {
                let p = locate(left, m, frame, fuel);
                match p.place {
                    Err(e) => fail(e, p.machine, p.frame),
                    Ok((root, path)) => {
                        let v = walk(right, p.machine, p.frame, fuel);
                        match v.value {
                            Ok(val) => match assigned(v.frame, root, path, val) {
                                Ok(t) => done(val, v.machine, t),
                                Err(e) => fail(e, v.machine, v.frame),
                            },
                            Err(_) => v,
                        }
                    },
                }
            },
            Tree::Operation(Operator::Dot, object, member) => assign_member(
                *object,
                *member,
                right,
                m,
                frame,
                fuel,
            ),
            _ => fail(Fault::BadTarget, m, frame),
        },
        Operator::Dot => match right {
            Tree::Operation(Operator::Equals, member, value) => assign_member(
                left,
                *member,
                *value,
                m,
                frame,
                fuel,
            ),
            _ => take_member(left, right, m, frame, fuel),
        },
        _ => {
            let l = walk(left, m, frame, fuel);
            match l.value {
                Err(_) => l,
                Ok(x) => {
                    let r = walk(right, l.machine, l.frame, fuel);
                    match r.value {
                        Err(_) => r,
                        Ok(y) => if is_arithmetic(op) {
                            match x {
                                Datum::EmString(s) if op == Operator::Add => done(
                                    Datum::EmString(s + show(y, fuel)),
                                    r.machine,
                                    r.frame,
                                ),
                                _ => match (number_in(x, r.frame), number_in(y, r.frame)) {
                                    (Some(a), Some(b)) => done(
                                        Datum::Float(computed(op, a, b)),
                                        r.machine,
                                        r.frame,
                                    ),
                                    _ => fail(Fault::NotANumber, r.machine, r.frame),
                                },
                            }
                        } else {
                            done(Datum::EmBool(holds(op, order(x, y))), r.machine, r.frame)
                        },
                    }
                },
            }
        },
    }
}

} // verus!
