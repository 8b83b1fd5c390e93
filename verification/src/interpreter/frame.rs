//! Frames of local variables, and writing into arrays in place.

use crate::interpreter::error::{Fault, RuntimeError};
use crate::interpreter::value::{
    data, duplicate_members, fields, find_member, lemma_position, lookup, position, set_member,
    store, Datum, Member, Value,
};
use vstd::prelude::*;

verus! {

/// A table of named values, as a sequence of pairs.
pub type Table = Seq<(Seq<char>, Datum)>;

/// A value that has numbered places.
pub trait Indexable<T> {
    /// The items at the places of the value, if it has places at all.
    spec fn items(&self) -> Option<Seq<T>>;

    /// The item at a place: an error for a value without places, and for a
    /// place that is not there.
    fn index(&self, index: usize) -> (r: Result<&T, RuntimeError>)
        ensures
            match r {
                Ok(item) => self.items() is Some && index < self.items()->0.len() && *item
                    == self.items()->0[index as int],
                Err(e) => e@ == (if self.items() is None {
                    Fault::NotIndexable
                } else {
                    Fault::OutOfBounds(index)
                }) && !(self.items() is Some && index < self.items()->0.len()),
            },
    ;

    /// The item at a place, to be changed where it stands.
    fn index_mut(&mut self, index: usize) -> (r: Result<&mut T, RuntimeError>)
        ensures
            match r {
                Ok(item) => old(self).items() is Some && index < old(self).items()->0.len()
                    && *item == old(self).items()->0[index as int] && final(self).items() == Some(
                    old(self).items()->0.update(index as int, *final(item)),
                ),
                Err(e) => e@ == (if old(self).items() is None {
                    Fault::NotIndexable
                } else {
                    Fault::OutOfBounds(index)
                }) && !(old(self).items() is Some && index < old(self).items()->0.len())
                    && final(self).items() == old(self).items(),
            },
    ;
}

impl Indexable<Value> for Value {
    open spec fn items(&self) -> Option<Seq<Value>> {
        match self {
            Value::EmArray(v) => Some(v@),
            _ => None,
        }
    }

    fn index(&self, index: usize) -> (r: Result<&Value, RuntimeError>) {
        match self {
            Value::EmArray(v) => {
                if index < v.len() {
                    Ok(&v[index])
                } else {
                    Err(RuntimeError::OutOfBounds(index))
                }
            },
            _ => Err(RuntimeError::NotIndexable),
        }
    }

    fn index_mut(&mut self, index: usize) -> (r: Result<&mut Value, RuntimeError>) {
        match self {
            Value::EmArray(v) => {
                if index < v.len() {
                    Ok(&mut v[index])
                } else {
                    Err(RuntimeError::OutOfBounds(index))
                }
            },
            _ => Err(RuntimeError::NotIndexable),
        }
    }
}

/// The value of a variable: what the table binds to the name, and null for a
/// name that it does not bind.
pub open spec fn bound(table: Table, name: Seq<char>) -> Datum {
    match lookup(table, name) {
        Some(d) => d,
        None => Datum::Null,
    }
}

/// The datum `d` with `value` written at the end of the path of indices that
/// begins at `path[from]`: each index but the last picks an item of an array
/// to go into, the last picks the item that is replaced. It is an error to go
/// into what is no array, or past the end of one. The empty path replaces the
/// datum itself.
pub open spec fn written(d: Datum, path: Seq<usize>, from: int, value: Datum) -> Result<
    Datum,
    Fault,
>
    decreases path.len() - from,
{
    if from < 0 || from >= path.len() {
        Ok(value)
    } else {
        match d {
            Datum::EmArray(xs) => {
                let i = path[from];
                if i < xs.len() {
                    match written(xs[i as int], path, from + 1, value) {
                        Ok(n) => Ok(Datum::EmArray(xs.update(i as int, n))),
                        Err(e) => Err(e),
                    }
                } else {
                    Err(Fault::OutOfBounds(i))
                }
            },
            _ => Err(Fault::NotIndexable),
        }
    }
}

/// The table after `value` was written at a path into the variable `name`.
/// A name that is not bound holds null, which is no array.
pub open spec fn assigned(table: Table, name: Seq<char>, path: Seq<usize>, value: Datum) -> Result<
    Table,
    Fault,
> {
    match written(bound(table, name), path, 0, value) {
        Ok(n) => Ok(store(table, name, n)),
        Err(e) => Err(e),
    }
}

/// The table without its first entry named `name`.
pub open spec fn without(table: Table, name: Seq<char>) -> Table {
    let at = position(table, name, 0);
    if 0 <= at < table.len() {
        table.remove(at)
    } else {
        table
    }
}

/// Writes `value` into `target` at the end of the path that begins at
/// `path[from]`. On an error nothing is changed.
pub fn write_at(target: &mut Value, path: &Vec<usize>, from: usize, value: Value) -> (r: Result<
    (),
    RuntimeError,
>)
    requires
        from <= path.len(),
    ensures
        match r {
            Ok(()) => written(old(target)@, path@, from as int, value@) == Ok::<Datum, Fault>(
                final(target)@,
            ),
            Err(e) => written(old(target)@, path@, from as int, value@) == Err::<Datum, Fault>(e@)
                && final(target)@ == old(target)@,
        },
    decreases path.len() - from,
{
    if from >= path.len() {
        *target = value;
        return Ok(());
    }
    let i = path[from];
    match target {
        Value::EmArray(items) => {
            if i < items.len() {
                let ghost before = items@;
                let r = write_at(&mut items[i], path, from + 1, value);
                proof {
                    assert(data(items@) =~= data(before).update(i as int, items@[i as int]@));
                    if r is Err {
                        assert(data(items@) =~= data(before));
                    }
                }
                r
            } else {
                Err(RuntimeError::OutOfBounds(i))
            }
        },
        _ => Err(RuntimeError::NotIndexable),
    }
}

/// Stores variables for a given function block: a frame is made when a
/// function is called, and once for the top level of a program. No frame sees
/// into another.
#[derive(Debug, PartialEq)]
pub struct StackFrame {
    pub stack: Vec<Member>,
}

impl Default for StackFrame {
    fn default() -> (frame: StackFrame)
        ensures
            frame@ == Seq::<(Seq<char>, Datum)>::empty(),
    {
        StackFrame::new()
    }
}

impl StackFrame {
    /// The table of the variables.
    pub open spec fn view(&self) -> Table {
        fields(self.stack@)
    }

    /// A frame without variables.
    pub fn new() -> (frame: StackFrame)
        ensures
            frame@ == Seq::<(Seq<char>, Datum)>::empty(),
    {
        let frame = StackFrame { stack: Vec::new() };
        frame
    }

    /// A copy of the frame.
    pub fn duplicate(&self) -> (copy: StackFrame)
        ensures
            copy@ == self@,
    {
        StackFrame { stack: duplicate_members(&self.stack) }
    }

    /// Binds a variable.
    pub fn set_var(&mut self, name: String, v: Value)
        ensures
            final(self)@ == store(old(self)@, name@, v@),
    {
        set_member(&mut self.stack, name, v);
    }

    /// The value of a variable, if the frame binds it.
    pub fn get_var(&self, name: &str) -> (r: Option<&Value>)
        ensures
            match r {
                Some(v) => lookup(self@, name@) == Some(v@),
                None => lookup(self@, name@) is None,
            },
    {
        let key = String::from_str(name);
        match find_member(&self.stack, &key) {
            Some(i) => Some(&self.stack[i].value),
            None => None,
        }
    }

    /// The value of a variable, to be changed where it stands, if the frame
    /// binds it.
    pub fn get_var_mut(&mut self, name: &str) -> (r: Option<&mut Value>)
        ensures
            match r {
                Some(v) => lookup(old(self)@, name@) == Some(v@) && final(self)@ == store(
                    old(self)@,
                    name@,
                    final(v)@,
                ),
                None => lookup(old(self)@, name@) is None && final(self)@ == old(self)@,
            },
    {
        let key = String::from_str(name);
        let ghost before = self.stack@;
        match find_member(&self.stack, &key) {
            Some(i) => {
                proof {
                    lemma_position(fields(before), name@, 0);
                }
                let member = &mut self.stack[i];
                Some(&mut member.value)
            },
            None => None,
        }
    }

    /// A copy of the value of a variable; null for a name that is not bound.
    pub fn get_var_copy(&self, name: &str) -> (r: Value)
        ensures
            r@ == bound(self@, name@),
    {
        match self.get_var(name) {
            Some(v) => v.duplicate(),
            None => Value::Null,
        }
    }

    /// Writes `val` into the array that the variable `name` holds, at the end
    /// of a path of indices. On an error the frame is left as it was.
    pub fn update_nested_array(&mut self, name: &str, path: &Vec<usize>, val: Value) -> (r: Result<
        (),
        RuntimeError,
    >)
        ensures
            match r {
                Ok(()) => assigned(old(self)@, name@, path@, val@) == Ok::<Table, Fault>(
                    final(self)@,
                ),
                Err(e) => assigned(old(self)@, name@, path@, val@) == Err::<Table, Fault>(e@)
                    && final(self)@ == old(self)@,
            },
    {
        let key = String::from_str(name);
        let ghost before = self.stack@;
        match find_member(&self.stack, &key) {
            Some(i) => {
                let r = write_at(&mut self.stack[i].value, path, 0, val);
                proof {
                    lemma_position(fields(before), name@, 0);
                    assert(fields(self.stack@) =~= fields(before).update(
                        i as int,
                        (name@, self.stack@[i as int].value@),
                    ));
                }
                r
            },
            None => {
                if path.len() == 0 {
                    self.stack.push(Member { name: key, value: val });
                    assert(fields(self.stack@) =~= fields(before).push((name@, val@)));
                    Ok(())
                } else {
                    Err(RuntimeError::NotIndexable)
                }
            },
        }
    }

    /// Writes `val` at the place `index` of the array that the variable
    /// `name` holds. The index must be a number; it is truncated.
    pub fn update_array_index(&mut self, name: &str, index: &Value, val: Value) -> (r: Result<
        (),
        RuntimeError,
    >)
        ensures
            match r {
                Ok(()) => index@ is Float && assigned(
                    old(self)@,
                    name@,
                    seq![index@->Float_0.index()],
                    val@,
                ) == Ok::<Table, Fault>(final(self)@),
                Err(e) => final(self)@ == old(self)@ && if index@ is Float {
                    assigned(old(self)@, name@, seq![index@->Float_0.index()], val@) == Err::<
                        Table,
                        Fault,
                    >(e@)
                } else {
                    e@ == Fault::NotANumber
                },
            },
    {
        match index {
            Value::Float(n) => {
                let mut path: Vec<usize> = Vec::new();
                path.push(n.to_index());
                self.update_nested_array(name, &path, val)
            },
            _ => Err(RuntimeError::NotANumber),
        }
    }

    /// Unbinds a variable.
    pub fn free_var(&mut self, name: &str)
        ensures
            final(self)@ == without(old(self)@, name@),
    {
        let key = String::from_str(name);
        match find_member(&self.stack, &key) {
            Some(i) => {
                self.stack.remove(i);
            },
            None => {},
        }
    }
}

} // verus!
