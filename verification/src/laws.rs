//! Laws of the language, proved of its semantics.

use crate::interpreter::error::Fault;
use crate::interpreter::frame::{bound, written, Table};
use crate::interpreter::semantics::{
    do_call, do_operation, done, fail, flagged, fresh, gather, is_arithmetic, native, walk,
    Evaluated, Machine,
};
use crate::interpreter::value::{
    kind, lemma_first, lemma_position, lookup, order, position, store, Datum,
};
use crate::number::{Number, Order};
use crate::parser::node::{Operator, Tree};
use vstd::prelude::*;

verus! {

/// The expressions of pure arithmetic: number literals, the four arithmetic
/// operators between such expressions, and parentheses around one.
pub open spec fn is_plain(e: Tree) -> bool
    decreases e,
{
    match e {
        Tree::NumLiteral(_) => true,
        Tree::Statement(inner) => is_plain(*inner),
        Tree::Operation(op, left, right) => is_arithmetic(op) && is_plain(*left) && is_plain(
            *right,
        ),
        _ => false,
    }
}

/// The state in which an expression of pure arithmetic is measured: nothing
/// defined, nothing bound, and the flag up, so that it shows whether the
/// evaluation lowers it.
pub open spec fn measure(e: Tree, fuel: nat) -> Evaluated {
    walk(e, flagged(fresh(), true), Seq::empty(), fuel)
}

/// A name that the frame does not bind evaluates to null, and that is no
/// error.
pub proof fn unbound_name_is_null(name: Seq<char>, m: Machine, frame: Table, fuel: nat)
    requires
        lookup(frame, name) is None,
        fuel > 0,
    ensures
        walk(Tree::Name(name), m, frame, fuel) == done(Datum::Null, flagged(m, false), frame),
{
}

/// A call of a name under which nothing is defined, and which names no native
/// function, is an error, whatever the arguments are; none of them is
/// evaluated.
pub proof fn unbound_call_is_an_error(
    name: Seq<char>,
    args: Seq<Tree>,
    m: Machine,
    frame: Table,
    fuel: nat,
)
    requires
        native(m.functions, name, 0) is None,
        lookup(m.heap, name) is None,
        fuel > 0,
    ensures
        walk(Tree::Call(name, args), m, frame, fuel) == fail(Fault::Unresolved(name), m, frame),
{
    assert(do_call(name, args, m, frame, (fuel - 1) as nat) == fail(
        Fault::Unresolved(name),
        m,
        frame,
    ));
}

/// A call of a defined function with a number of arguments that is not the
/// number of its parameters is an error that names the function and gives
/// both numbers; no argument is evaluated and nothing changes.
pub proof fn arity_is_checked(
    name: Seq<char>,
    args: Seq<Tree>,
    m: Machine,
    frame: Table,
    fuel: nat,
)
    requires
        native(m.functions, name, 0) is None,
        lookup(m.heap, name) is Some,
        lookup(m.heap, name)->0 is Function,
        lookup(m.heap, name)->0->Function_1.len() != args.len(),
        fuel > 0,
    ensures
        walk(Tree::Call(name, args), m, frame, fuel) == fail(
            Fault::Arity {
                name,
                expected: lookup(m.heap, name)->0->Function_1.len(),
                actual: args.len(),
            },
            m,
            frame,
        ),
{
    assert(do_call(name, args, m, frame, (fuel - 1) as nat).value is Err);
}

/// An expression of pure arithmetic has one value, whatever the state it is
/// evaluated in, and that value is a number. The evaluation leaves the frame,
/// the definitions and the console as they were; the flag it lowers or leaves
/// alone, the same in every state.
pub proof fn arithmetic_is_pure(e: Tree, m: Machine, frame: Table, fuel: nat)
    requires
        is_plain(e),
    ensures
        walk(e, m, frame, fuel).value == measure(e, fuel).value,
        walk(e, m, frame, fuel).value is Ok ==> walk(e, m, frame, fuel).value->Ok_0 is Float,
        walk(e, m, frame, fuel).frame == frame,
        walk(e, m, frame, fuel).machine == flagged(
            m,
            m.returning && measure(e, fuel).machine.returning,
        ),
    decreases e,
{
    let base = flagged(fresh(), true);
    let empty = Seq::<(Seq<char>, Datum)>::empty();
    if fuel > 0 {
        let f = (fuel - 1) as nat;
        match e {
            Tree::NumLiteral(_) => {},
            Tree::Statement(inner) => {
                arithmetic_is_pure(*inner, m, frame, f);
                arithmetic_is_pure(*inner, base, empty, f);
            },
            Tree::Operation(op, left, right) => {
                arithmetic_is_pure(*left, m, frame, f);
                arithmetic_is_pure(*left, base, empty, f);
                let l = walk(*left, m, frame, f);
                let lb = walk(*left, base, empty, f);
                arithmetic_is_pure(*right, l.machine, l.frame, f);
                arithmetic_is_pure(*right, lb.machine, lb.frame, f);
                assert(do_operation(op, *left, *right, m, frame, f).value == do_operation(
                    op,
                    *left,
                    *right,
                    base,
                    empty,
                    f,
                ).value);
            },
            _ => {},
        }
    }
}

/// Evaluating an expression of pure arithmetic a second time, in the state
/// that the first evaluation left, gives the same result and leaves the same
/// state.
pub proof fn arithmetic_repeats(e: Tree, m: Machine, frame: Table, fuel: nat)
    requires
        is_plain(e),
    ensures
        ({
            let first = walk(e, m, frame, fuel);
            let second = walk(e, first.machine, first.frame, fuel);
            second == first
        }),
{
    arithmetic_is_pure(e, m, frame, fuel);
    let first = walk(e, m, frame, fuel);
    arithmetic_is_pure(e, first.machine, first.frame, fuel);
}

/// A name is bound to what was last stored under it.
pub proof fn stored_is_found(table: Table, name: Seq<char>, value: Datum)
    ensures
        lookup(store(table, name, value), name) == Some(value),
{
    lemma_position(table, name, 0);
    let at = position(table, name, 0);
    let after = store(table, name, value);
    assert forall|k: int| 0 <= k < at implies (#[trigger] after[k]).0 != name by {
    }
    lemma_first(after, name, 0, at);
}

/// Storing under one name leaves what every other name is bound to.
pub proof fn storing_keeps_other_names(
    table: Table,
    name: Seq<char>,
    value: Datum,
    other: Seq<char>,
)
    requires
        other != name,
    ensures
        lookup(store(table, name, value), other) == lookup(table, other),
{
    lemma_position(table, name, 0);
    lemma_position(table, other, 0);
    let at = position(table, other, 0);
    let after = store(table, name, value);
    assert forall|k: int| 0 <= k < at implies (#[trigger] after[k]).0 != other by {
        if k == position(table, name, 0) {
        } else {
        }
    }
    if at < table.len() {
        lemma_first(after, other, 0, at);
    } else {
        lemma_position(after, other, 0);
        let q = position(after, other, 0);
        if q < after.len() {
            if q < table.len() {
            }
        }
    }
}

/// A call without arguments leaves the frame of the caller as it was: the
/// body of a function runs in a frame of its own, and a native function has
/// no frame at all.
pub proof fn calls_leave_the_frame(name: Seq<char>, m: Machine, frame: Table, fuel: nat)
    ensures
        do_call(name, Seq::empty(), m, frame, fuel).frame == frame,
        walk(Tree::Call(name, Seq::empty()), m, frame, fuel).frame == frame,
{
    let args = Seq::<Tree>::empty();
    if fuel > 0 {
        assert(do_call(name, args, m, frame, (fuel - 1) as nat).frame == frame) by {
        }
    }
}

/// After an assignment to a name has ended well, the name is bound to the
/// value of the assignment.
pub proof fn assignment_binds(name: Seq<char>, right: Tree, m: Machine, frame: Table, fuel: nat)
    ensures
        ({
            let r = walk(
                Tree::Operation(Operator::Equals, Box::new(Tree::Name(name)), Box::new(right)),
                m,
                frame,
                fuel,
            );
            r.value is Ok ==> bound(r.frame, name) == r.value->Ok_0
        }),
{
    if fuel > 0 {
        let f = (fuel - 1) as nat;
        let v = walk(right, m, frame, f);
        let assigned = match v.value {
            Ok(val) => done(val, v.machine, store(v.frame, name, val)),
            Err(_) => v,
        };
        assert(do_operation(Operator::Equals, Tree::Name(name), right, m, frame, f) == assigned);
        if v.value is Ok {
            stored_is_found(v.frame, name, v.value->Ok_0);
        }
    }
}

/// An assignment to a name changes the frame and nothing else: it leaves the
/// runtime as the evaluation of its right side left it, so it defines
/// nothing.
pub proof fn assignment_defines_nothing(
    name: Seq<char>,
    right: Tree,
    m: Machine,
    frame: Table,
    fuel: nat,
)
    ensures
        do_operation(Operator::Equals, Tree::Name(name), right, m, frame, fuel).machine == walk(
            right,
            m,
            frame,
            fuel,
        ).machine,
{
}

/// Only a name, an index and a member can be assigned to: an assignment to
/// anything else is an error, and nothing is evaluated for it.
pub proof fn other_targets_are_refused(
    left: Tree,
    right: Tree,
    m: Machine,
    frame: Table,
    fuel: nat,
)
    requires
        !(left is Name),
        !(left is Index),
        !(left is Operation),
    ensures
        do_operation(Operator::Equals, left, right, m, frame, fuel) == fail(
            Fault::BadTarget,
            m,
            frame,
        ),
{
}

/// A number below zero, and one that is no number, stands for the first
/// place of an array.
pub proof fn indices_are_not_negative(n: Number)
    requires
        n.negative() || n.nan(),
    ensures
        n.index() == 0,
{
}

/// Writing at a place of an array changes that place and no other, and is an
/// error past the end of the array.
pub proof fn writing_changes_one_place(xs: Seq<Datum>, i: usize, value: Datum)
    ensures
        written(Datum::EmArray(xs), seq![i], 0, value) == if i < xs.len() {
            Ok::<Datum, Fault>(Datum::EmArray(xs.update(i as int, value)))
        } else {
            Err::<Datum, Fault>(Fault::OutOfBounds(i))
        },
{
    reveal_with_fuel(written, 2);
}

/// Two values of different kinds stand to each other as their kinds do: null
/// before numbers, numbers before strings, strings before booleans, booleans
/// before arrays, arrays before names, names before functions, and functions
/// before objects.
pub proof fn kinds_are_ordered(a: Datum, b: Datum)
    requires
        kind(a) != kind(b),
    ensures
        order(a, b) == if kind(a) < kind(b) {
            Order::Less
        } else {
            Order::Greater
        },
{
}

} // verus!
