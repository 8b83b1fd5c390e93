//! The evaluator: a walk over the syntax tree that keeps a table of
//! definitions and a frame of local variables.

use crate::parser::node::{trees, ExprNode, Tree};
use vstd::prelude::*;

pub mod builtins;
pub mod error;
pub mod frame;
pub mod runtime;
pub mod semantics;
pub mod value;

pub use builtins::{get_functions, Console, Native};
pub use error::{Fault, RuntimeError};
pub use frame::{Indexable, StackFrame, Table};
pub use runtime::render::render;
pub use runtime::Runtime;
pub use semantics::{Builtin, Evaluated, Machine, Terminal};
pub use value::{Datum, EmObject, Member, Value};

verus! {

/// What running a program means: the tree is evaluated, which defines its
/// functions and classes and runs its statements, and where that ends well,
/// `main` is called with the arguments.
pub open spec fn launch(
    tree: Tree,
    args: Seq<Tree>,
    m: Machine,
    frame: Table,
    fuel: nat,
) -> Evaluated {
    let top = semantics::walk(tree, m, frame, fuel);
    match top.value {
        Ok(_) => semantics::do_call("main"@, args, top.machine, top.frame, fuel),
        Err(_) => top,
    }
}

/// Evaluates a tree in a runtime and a frame that stay, and gives the text of
/// its value: one turn of an interactive session. The budget is the limit of
/// the runtime.
pub fn repl_run(tree: ExprNode, runtime: &mut Runtime, glob_frame: &mut StackFrame) -> (r: Result<
    String,
    RuntimeError,
>)
    ensures
        ({
            let w = semantics::walk(
                tree@,
                old(runtime)@,
                old(glob_frame)@,
                old(runtime).limit as nat,
            );
            &&& final(runtime)@ == w.machine
            &&& final(glob_frame)@ == w.frame
            &&& final(runtime).limit == old(runtime).limit
            &&& match r {
                Ok(text) => w.value is Ok && text@ == semantics::show(
                    w.value->Ok_0,
                    old(runtime).limit as nat,
                ),
                Err(e) => w.value == Err::<Datum, Fault>(e@),
            }
        }),
{
    let fuel = runtime.limit;
    match runtime.walk_tree(&tree, glob_frame, fuel) {
        Ok(val) => Ok(render(&val, fuel)),
        Err(e) => Err(e),
    }
}

/// Runs a program: evaluates the tree, then calls `main` with the arguments.
/// An error in either ends the run. The budget is the limit of the runtime.
pub fn run(
    tree: ExprNode,
    args: &Vec<ExprNode>,
    runtime: &mut Runtime,
    glob_frame: &mut StackFrame,
) -> (r: Result<Value, RuntimeError>)
    ensures
        runtime::outcome(r, final(runtime)@, final(glob_frame)@) == launch(
            tree@,
            trees(args@),
            old(runtime)@,
            old(glob_frame)@,
            old(runtime).limit as nat,
        ),
        final(runtime).limit == old(runtime).limit,
{
    let fuel = runtime.limit;
    match runtime.walk_tree(&tree, glob_frame, fuel) {
        Ok(_) => runtime.do_call(&String::from_str("main"), args, glob_frame, fuel),
        Err(e) => Err(e),
    }
}

} // verus!
