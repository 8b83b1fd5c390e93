//! The console and the native functions.

use crate::interpreter::semantics::{
    fresh, native, number_of, read_char, read_line, wrote, Builtin, Terminal,
};
use crate::interpreter::value::Value;
use crate::lexer::find;
use crate::number::Number;
use crate::parser::node::texts;
use crate::text::{chars_of, text_between};
use vstd::prelude::*;

verus! {

/// The console as the evaluator sees it: what was written, in the order of
/// the writing, and the characters that wait to be read. Whoever runs the
/// evaluator prints the one and fills the other.
#[derive(Debug, PartialEq)]
pub struct Console {
    pub output: Vec<String>,
    pub input: Vec<char>,
    /// Set when a read found nothing waiting.
    pub starved: bool,
}

/// A native function under its name.
#[derive(Debug, PartialEq)]
pub struct Native {
    pub name: String,
    pub function: Builtin,
}

/// What a list of native functions stands for.
pub open spec fn natives(list: Seq<Native>) -> Seq<(Seq<char>, Builtin)> {
    Seq::new(list.len(), |i: int| (list[i].name@, list[i].function))
}

impl Console {
    /// What the console stands for.
    pub open spec fn view(&self) -> Terminal {
        Terminal { output: texts(self.output@), input: self.input@, starved: self.starved }
    }

    /// A console with nothing written and nothing to read.
    pub fn new() -> (console: Console)
        ensures
            console@ == fresh().console,
    {
        let console = Console { output: Vec::new(), input: Vec::new(), starved: false };
        assert(texts(console.output@) =~= Seq::<Seq<char>>::empty());
        console
    }

    /// A copy of the console.
    pub fn duplicate(&self) -> (copy: Console)
        ensures
            copy@ == self@,
    {
        let mut output: Vec<String> = Vec::new();
        let mut i: usize = 0;
        while i < self.output.len()
            invariant
                i <= self.output.len(),
                output@.len() == i,
                forall|k: int| 0 <= k < i ==> output@[k]@ == self.output@[k]@,
            decreases self.output.len() - i,
        {
            output.push(self.output[i].clone());
            i += 1;
        }
        let mut input: Vec<char> = Vec::new();
        let mut j: usize = 0;
        while j < self.input.len()
            invariant
                j <= self.input.len(),
                input@ == self.input@.subrange(0, j as int),
            decreases self.input.len() - j,
        {
            input.push(self.input[j]);
            j += 1;
        }
        assert(texts(output@) =~= texts(self.output@));
        assert(input@ =~= self.input@);
        Console { output, input, starved: self.starved }
    }

    /// Takes what was written so far out of the console.
    pub fn take_output(&mut self) -> (written: Vec<String>)
        ensures
            texts(written@) == old(self)@.output,
            final(self)@ == (Terminal { output: Seq::empty(), ..old(self)@ }),
    {
        let mut written: Vec<String> = Vec::new();
        core::mem::swap(&mut written, &mut self.output);
        assert(texts(self.output@) =~= Seq::<Seq<char>>::empty());
        written
    }

    /// Writes a text.
    pub fn write(&mut self, text: String)
        ensures
            final(self)@ == wrote(old(self)@, text@),
    {
        let ghost before = self.output@;
        self.output.push(text);
        assert(texts(self.output@) =~= texts(before).push(text@));
    }

    /// Puts the characters of `text` behind those that wait to be read.
    pub fn feed(&mut self, text: &str)
        ensures
            final(self)@ == (Terminal { input: old(self)@.input + text@, ..old(self)@ }),
    {
        let more = chars_of(text);
        let ghost before = self.input@;
        let mut i: usize = 0;
        while i < more.len()
            invariant
                i <= more.len(),
                more@ == text@,
                self.input@ == before + more@.subrange(0, i as int),
                self.output == old(self).output,
                self.starved == old(self).starved,
            decreases more.len() - i,
        {
            self.input.push(more[i]);
            i += 1;
        }
        assert(more@.subrange(0, more.len() as int) =~= more@);
    }

    /// Takes away the first `count` characters that wait to be read.
    fn skip(&mut self, count: usize)
        ensures
            final(self).output == old(self).output,
            final(self).starved == old(self).starved,
            count <= old(self).input.len() ==> final(self).input@ == old(self).input@.subrange(
                count as int,
                old(self).input.len() as int,
            ),
            count > old(self).input.len() ==> final(self).input@ == Seq::<char>::empty(),
    {
        let start: usize = if count <= self.input.len() {
            count
        } else {
            self.input.len()
        };
        let mut rest: Vec<char> = Vec::new();
        let mut i: usize = start;
        while i < self.input.len()
            invariant
                start <= i <= self.input.len(),
                rest@ == self.input@.subrange(start as int, i as int),
                self.input == old(self).input,
                self.output == old(self).output,
                self.starved == old(self).starved,
            decreases self.input.len() - i,
        {
            rest.push(self.input[i]);
            i += 1;
        }
        proof {
            if count > self.input.len() {
            }
        }
        self.input = rest;
    }

    /// Reads a line.
    pub fn read_line(&mut self) -> (v: Value)
        ensures
            (v@, final(self)@) == read_line(old(self)@),
    {
        if self.input.len() == 0 {
            self.starved = true;
            return Value::Null;
        }
        let mut end: usize = 0;
        while end < self.input.len() && self.input[end] != '\n'
            invariant
                end <= self.input.len(),
                find(self.input@, 0, '\n') == find(self.input@, end as int, '\n'),
                *self == *old(self),
            decreases self.input.len() - end,
        {
            end += 1;
        }
        let line = text_between(&self.input, 0, end);
        if end < self.input.len() {
            self.skip(end + 1);
        } else {
            self.skip(end);
            assert(self.input@ =~= Seq::<char>::empty());
        }
        Value::EmString(line)
    }

    /// Reads a character.
    pub fn read_char(&mut self) -> (v: Value)
        ensures
            (v@, final(self)@) == read_char(old(self)@),
    {
        if self.input.len() == 0 {
            self.starved = true;
            return Value::Null;
        }
        let c = text_between(&self.input, 0, 1);
        assert(c@ =~= seq![self.input@[0]]);
        self.skip(1);
        Value::EmString(c)
    }
}

/// The native functions under their names: `print`, `println`, `number`,
/// `readln` and `read`.
pub fn get_functions() -> (list: Vec<Native>)
    ensures
        natives(list@) == fresh().functions,
{
    let mut list: Vec<Native> = Vec::new();
    list.push(Native { name: String::from_str("print"), function: Builtin::Print });
    list.push(Native { name: String::from_str("println"), function: Builtin::Println });
    list.push(Native { name: String::from_str("number"), function: Builtin::Number });
    list.push(Native { name: String::from_str("readln"), function: Builtin::Readln });
    list.push(Native { name: String::from_str("read"), function: Builtin::Read });
    list
}

/// A copy of a list of native functions.
pub fn duplicate_natives(list: &Vec<Native>) -> (copy: Vec<Native>)
    ensures
        natives(copy@) == natives(list@),
{
    let mut copy: Vec<Native> = Vec::new();
    let mut i: usize = 0;
    while i < list.len()
        invariant
            i <= list.len(),
            copy@.len() == i,
            forall|k: int|
                0 <= k < i ==> copy@[k].name@ == list@[k].name@ && copy@[k].function
                    == list@[k].function,
        decreases list.len() - i,
    {
        copy.push(Native { name: list[i].name.clone(), function: list[i].function });
        i += 1;
    }
    copy
}

/// The native function registered first under `name`, if there is one.
pub fn find_native(list: &Vec<Native>, name: &String) -> (r: Option<Builtin>)
    ensures
        r == native(natives(list@), name@, 0),
{
    let mut i: usize = 0;
    while i < list.len()
        invariant
            i <= list.len(),
            native(natives(list@), name@, 0) == native(natives(list@), name@, i as int),
        decreases list.len() - i,
    {
        if list[i].name == *name {
            return Some(list[i].function);
        }
        i += 1;
    }
    None
}

/// The number that the native function `number` makes of a value.
pub fn em_number(v: &Value) -> (r: Value)
    ensures
        r@ == number_of(v@),
{
    match v {
        Value::EmString(s) => {
            let chars = chars_of(s.as_str());
            match Number::from_chars(&chars) {
                Some(n) => Value::Float(n),
                None => Value::Null,
            }
        },
        Value::EmBool(b) => Value::Float(
            if *b {
                Number::one()
            } else {
                Number::zero()
            },
        ),
        Value::Float(n) => Value::Float(*n),
        _ => Value::Null,
    }
}

} // verus!
