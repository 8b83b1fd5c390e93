//! The values of the language.

use crate::number::{Number, Order};
use crate::parser::node::{duplicate_names, same_names, texts, ExprNode, Tree};
use crate::text::chars_of;
use vstd::prelude::*;

verus! {

/// Everything that exists in the language.
#[derive(Debug, PartialEq)]
pub enum Value {
    Null,
    Float(Number),
    EmString(String),
    EmBool(bool),
    EmArray(Vec<Value>),
    Name(String),
    /// Name, parameter names, body. A function holds no variables of the
    /// place where it was defined.
    Function(String, Vec<String>, ExprNode),
    Object(EmObject),
}

/// A named value: a variable of a frame, a definition, or a member of an
/// object.
#[derive(Debug, PartialEq)]
pub struct Member {
    pub name: String,
    pub value: Value,
}

/// An instance of a class, or a class itself: named members, where the first
/// member of a name is the one that counts.
#[derive(Debug, PartialEq)]
pub struct EmObject {
    pub members: Vec<Member>,
}

/// What a [`Value`] stands for.
pub enum Datum {
    Null,
    Float(Number),
    EmString(Seq<char>),
    EmBool(bool),
    EmArray(Seq<Datum>),
    Name(Seq<char>),
    Function(Seq<char>, Seq<Seq<char>>, Tree),
    Object(Seq<(Seq<char>, Datum)>),
}

impl Value {
    /// What the value stands for.
    pub open spec fn view(&self) -> Datum
        decreases self, 0int,
    {
        match self {
            Value::Null => Datum::Null,
            Value::Float(n) => Datum::Float(*n),
            Value::EmString(s) => Datum::EmString(s@),
            Value::EmBool(b) => Datum::EmBool(*b),
            Value::EmArray(v) => Datum::EmArray(data(v@)),
            Value::Name(s) => Datum::Name(s@),
            Value::Function(n, p, b) => Datum::Function(n@, texts(p@), b@),
            Value::Object(o) => Datum::Object(fields(o.members@)),
        }
    }
}

/// What a sequence of values stands for.
pub open spec fn data(values: Seq<Value>) -> Seq<Datum>
    decreases values, 1int,
{
    Seq::new(
        values.len(),
        |i: int|
            if 0 <= i < values.len() {
                values[i].view()
            } else {
                Datum::Null
            },
    )
}

/// What a sequence of named values stands for.
pub open spec fn fields(members: Seq<Member>) -> Seq<(Seq<char>, Datum)>
    decreases members, 1int,
{
    Seq::new(
        members.len(),
        |i: int|
            if 0 <= i < members.len() {
                (members[i].name@, members[i].value.view())
            } else {
                (Seq::empty(), Datum::Null)
            },
    )
}

/// The position of the first entry named `name` from `from` on, or the length
/// of the table.
pub open spec fn position(table: Seq<(Seq<char>, Datum)>, name: Seq<char>, from: int) -> int
    decreases table.len() - from,
{
    if from < 0 || from >= table.len() || table[from].0 == name {
        from
    } else {
        position(table, name, from + 1)
    }
}

/// The value of the first entry named `name`, if there is one.
pub open spec fn lookup(table: Seq<(Seq<char>, Datum)>, name: Seq<char>) -> Option<Datum> {
    let at = position(table, name, 0);
    if 0 <= at < table.len() {
        Some(table[at].1)
    } else {
        None
    }
}

/// The table with `name` bound to `value`: in the place of its first entry
/// where there is one, at the end otherwise.
pub open spec fn store(table: Seq<(Seq<char>, Datum)>, name: Seq<char>, value: Datum) -> Seq<
    (Seq<char>, Datum),
> {
    let at = position(table, name, 0);
    if 0 <= at < table.len() {
        table.update(at, (name, value))
    } else {
        table.push((name, value))
    }
}

/// `position` stays within the table and does not go back.
pub proof fn lemma_position(table: Seq<(Seq<char>, Datum)>, name: Seq<char>, from: int)
    requires
        0 <= from <= table.len(),
    ensures
        from <= position(table, name, from) <= table.len(),
        forall|k: int| from <= k < position(table, name, from) ==> (#[trigger] table[k]).0 != name,
        position(table, name, from) < table.len() ==> table[position(table, name, from)].0
            == name,
    decreases table.len() - from,
{
    if from < table.len() && table[from].0 != name {
        lemma_position(table, name, from + 1);
    }
}

/// An entry named `name` with no entry of that name before it is where
/// `position` stops, from wherever before it the search begins.
pub proof fn lemma_first(table: Seq<(Seq<char>, Datum)>, name: Seq<char>, from: int, at: int)
    requires
        0 <= from <= at < table.len(),
        table[at].0 == name,
        forall|k: int| from <= k < at ==> (#[trigger] table[k]).0 != name,
    ensures
        position(table, name, from) == at,
    decreases at - from,
{
    if from < at {
        lemma_first(table, name, from + 1, at);
    }
}

/// The position of the first entry named `name`, if there is one.
pub fn find_member(members: &Vec<Member>, name: &String) -> (at: Option<usize>)
    ensures
        match at {
            Some(i) => i < members.len() && i == position(fields(members@), name@, 0),
            None => position(fields(members@), name@, 0) == members.len(),
        },
{
    let mut i: usize = 0;
    proof {
        lemma_position(fields(members@), name@, 0);
    }
    while i < members.len()
        invariant
            i <= members.len(),
            position(fields(members@), name@, 0) == position(fields(members@), name@, i as int),
        decreases members.len() - i,
    {
        if members[i].name == *name {
            return Some(i);
        }
        i += 1;
    }
    None
}

/// Binds `name` to `value` in a list of named values: in the place of the
/// first entry of that name, or at the end.
pub fn set_member(members: &mut Vec<Member>, name: String, value: Value)
    ensures
        fields(final(members)@) == store(fields(old(members)@), name@, value@),
{
    match find_member(members, &name) {
        Some(i) => {
            members.set(i, Member { name, value });
        },
        None => {
            members.push(Member { name, value });
        },
    }
}

impl EmObject {
    /// The table of the members.
    pub open spec fn view(&self) -> Seq<(Seq<char>, Datum)> {
        fields(self.members@)
    }

    /// An object without members.
    pub fn new() -> (object: EmObject)
        ensures
            object@ == Seq::<(Seq<char>, Datum)>::empty(),
    {
        let object = EmObject { members: Vec::new() };
        object
    }

    /// The member of a name, if the object has one.
    pub fn get_prop(&self, prop: &str) -> (r: Option<&Value>)
        ensures
            match r {
                Some(v) => lookup(self@, prop@) == Some(v@),
                None => lookup(self@, prop@) is None,
            },
    {
        let key = String::from_str(prop);
        match find_member(&self.members, &key) {
            Some(i) => Some(&self.members[i].value),
            None => None,
        }
    }

    /// Sets the member of a name.
    pub fn set_prop(&mut self, prop: String, val: Value)
        ensures
            final(self)@ == store(old(self)@, prop@, val@),
    {
        set_member(&mut self.members, prop, val);
    }
}

/// Copies a list of values in depth.
pub fn duplicate_values(values: &Vec<Value>) -> (out: Vec<Value>)
    ensures
        data(out@) == data(values@),
    decreases values, 1int,
{
    let mut out: Vec<Value> = Vec::new();
    let mut i: usize = 0;
    while i < values.len()
        invariant
            i <= values.len(),
            out@.len() == i,
            forall|k: int| 0 <= k < i ==> out@[k]@ == values@[k]@,
        decreases values.len() - i,
    {
        let copy = values[i].duplicate();
        out.push(copy);
        i += 1;
    }
    out
}

/// Copies a list of named values in depth.
pub fn duplicate_members(members: &Vec<Member>) -> (out: Vec<Member>)
    ensures
        fields(out@) == fields(members@),
    decreases members, 1int,
{
    let mut out: Vec<Member> = Vec::new();
    let mut i: usize = 0;
    while i < members.len()
        invariant
            i <= members.len(),
            out@.len() == i,
            forall|k: int|
                0 <= k < i ==> out@[k].name@ == members@[k].name@ && out@[k].value@
                    == members@[k].value@,
        decreases members.len() - i,
    {
        let copy = members[i].value.duplicate();
        out.push(Member { name: members[i].name.clone(), value: copy });
        i += 1;
    }
    out
}

impl Value {
    /// A copy of the value and of everything in it.
    pub fn duplicate(&self) -> (r: Value)
        ensures
            r@ == self@,
        decreases self, 0int,
    {
        match self {
            Value::Null => Value::Null,
            Value::Float(n) => Value::Float(*n),
            Value::EmString(s) => Value::EmString(s.clone()),
            Value::EmBool(b) => Value::EmBool(*b),
            Value::EmArray(v) => Value::EmArray(duplicate_values(v)),
            Value::Name(s) => Value::Name(s.clone()),
            Value::Function(n, p, b) => Value::Function(
                n.clone(),
                duplicate_names(p),
                b.duplicate(),
            ),
            Value::Object(o) => Value::Object(EmObject { members: duplicate_members(&o.members) }),
        }
    }
}

/// Tells whether two lists of values stand for the same data.
pub fn same_values(a: &Vec<Value>, b: &Vec<Value>) -> (r: bool)
    ensures
        r == (data(a@) == data(b@)),
    decreases a, 1int,
{
    if a.len() != b.len() {
        assert(data(a@).len() != data(b@).len());
        return false;
    }
    let mut i: usize = 0;
    while i < a.len()
        invariant
            i <= a.len(),
            a.len() == b.len(),
            forall|k: int| 0 <= k < i ==> a@[k]@ == b@[k]@,
        decreases a.len() - i,
    {
        if !a[i].same(&b[i]) {
            assert(data(a@)[i as int] != data(b@)[i as int]);
            return false;
        }
        i += 1;
    }
    assert(data(a@) =~= data(b@));
    true
}

/// Tells whether two lists of named values stand for the same table.
pub fn same_members(a: &Vec<Member>, b: &Vec<Member>) -> (r: bool)
    ensures
        r == (fields(a@) == fields(b@)),
    decreases a, 1int,
{
    if a.len() != b.len() {
        return false;
    }
    let mut i: usize = 0;
    while i < a.len()
        invariant
            i <= a.len(),
            a.len() == b.len(),
            forall|k: int|
                0 <= k < i ==> a@[k].name@ == b@[k].name@ && a@[k].value@ == b@[k].value@,
        decreases a.len() - i,
    {
        if a[i].name != b[i].name || !a[i].value.same(&b[i].value) {
            assert(fields(a@)[i as int] != fields(b@)[i as int]);
            return false;
        }
        i += 1;
    }
    assert(fields(a@) =~= fields(b@));
    true
}

impl Value {
    /// Tells whether two values stand for the same datum: the same kind, and
    /// the same in every part. Numbers are the same where their bits are.
    pub fn same(&self, other: &Value) -> (r: bool)
        ensures
            r == (self@ == other@),
        decreases self, 0int,
    {
        match (self, other) {
            (Value::Null, Value::Null) => true,
            (Value::Float(a), Value::Float(b)) => a.bits == b.bits,
            (Value::EmString(a), Value::EmString(b)) => *a == *b,
            (Value::EmBool(a), Value::EmBool(b)) => *a == *b,
            (Value::EmArray(a), Value::EmArray(b)) => same_values(a, b),
            (Value::Name(a), Value::Name(b)) => *a == *b,
            (Value::Function(n, p, t), Value::Function(n2, q, t2)) => *n == *n2 && same_names(p, q)
                && t.same(t2),
            (Value::Object(a), Value::Object(b)) => same_members(&a.members, &b.members),
            _ => false,
        }
    }
}

/// The number of different names among the entries of a table from `from` on
/// that are the first of their name.
pub open spec fn names(table: Seq<(Seq<char>, Datum)>, from: int) -> nat
    decreases table.len() - from,
{
    if from < 0 || from >= table.len() {
        0
    } else if position(table, table[from].0, 0) == from {
        1 + names(table, from + 1)
    } else {
        names(table, from + 1)
    }
}

/// Whether two values are the same where the order in which the members of an
/// object were set is left out of account: objects are alike where they bind
/// the same names to values that are alike, arrays where they are as long as
/// each other and alike item by item, and all other values where they are the
/// same.
pub open spec fn alike(a: Datum, b: Datum) -> bool
    decreases a, 0int,
{
    match a {
        Datum::Object(m) => match b {
            Datum::Object(n) => covers(m, n, 0) && names(m, 0) == names(n, 0),
            _ => false,
        },
        Datum::EmArray(xs) => match b {
            Datum::EmArray(ys) => xs.len() == ys.len() && alike_from(xs, ys, 0),
            _ => false,
        },
        _ => a == b,
    }
}

/// Whether the items of two lists are alike, pair by pair, from `from` on.
pub open spec fn alike_from(xs: Seq<Datum>, ys: Seq<Datum>, from: int) -> bool
    decreases xs, xs.len() - from,
{
    if from < 0 || from >= xs.len() || from >= ys.len() {
        true
    } else {
        alike(xs[from], ys[from]) && alike_from(xs, ys, from + 1)
    }
}

/// Whether every name that `m` binds, from the entry `from` on, is bound by
/// `n` to a value that is alike.
pub open spec fn covers(
    m: Seq<(Seq<char>, Datum)>,
    n: Seq<(Seq<char>, Datum)>,
    from: int,
) -> bool
    decreases m, m.len() - from,
{
    if from < 0 || from >= m.len() {
        true
    } else {
        (position(m, m[from].0, 0) != from || match lookup(n, m[from].0) {
            Some(v) => alike(m[from].1, v),
            None => false,
        }) && covers(m, n, from + 1)
    }
}

/// Counts the different names of a list of named values.
pub fn count_names(members: &Vec<Member>) -> (count: usize)
    ensures
        count == names(fields(members@), 0),
{
    let mut count: usize = 0;
    let mut i: usize = 0;
    while i < members.len()
        invariant
            i <= members.len(),
            count <= i,
            count + names(fields(members@), i as int) == names(fields(members@), 0),
        decreases members.len() - i,
    {
        match find_member(members, &members[i].name) {
            Some(at) => {
                if at == i {
                    count += 1;
                }
            },
            None => {
                proof {
                    lemma_position(fields(members@), members@[i as int].name@, 0);
                }
            },
        }
        i += 1;
    }
    count
}

/// Tells whether every name that `a` binds is bound by `b` to a value that
/// is alike.
pub fn covered(a: &Vec<Member>, b: &Vec<Member>) -> (r: bool)
    ensures
        r == covers(fields(a@), fields(b@), 0),
    decreases a, 1int,
{
    let mut i: usize = 0;
    while i < a.len()
        invariant
            i <= a.len(),
            covers(fields(a@), fields(b@), 0) == covers(fields(a@), fields(b@), i as int),
        decreases a.len() - i,
    {
        let first = match find_member(a, &a[i].name) {
            Some(at) => at == i,
            None => false,
        };
        proof {
            lemma_position(fields(a@), a@[i as int].name@, 0);
        }
        if first {
            match find_member(b, &a[i].name) {
                Some(j) => {
                    if !a[i].value.alike(&b[j].value) {
                        return false;
                    }
                },
                None => {
                    return false;
                },
            }
        }
        i += 1;
    }
    true
}

/// Tells whether the items of two lists of the same length are alike, pair by
/// pair.
pub fn alike_values(a: &Vec<Value>, b: &Vec<Value>) -> (r: bool)
    requires
        a.len() == b.len(),
    ensures
        r == alike_from(data(a@), data(b@), 0),
    decreases a, 1int,
{
    let mut i: usize = 0;
    while i < a.len()
        invariant
            i <= a.len(),
            a.len() == b.len(),
            alike_from(data(a@), data(b@), 0) == alike_from(data(a@), data(b@), i as int),
        decreases a.len() - i,
    {
        if !a[i].alike(&b[i]) {
            return false;
        }
        i += 1;
    }
    true
}

impl Value {
    /// Tells whether two values are the same where the order of the members
    /// of objects is left out of account.
    pub fn alike(&self, other: &Value) -> (r: bool)
        ensures
            r == alike(self@, other@),
        decreases self, 0int,
    {
        match self {
            Value::Object(m) => match other {
                Value::Object(n) => covered(&m.members, &n.members) && count_names(&m.members)
                    == count_names(&n.members),
                _ => false,
            },
            Value::EmArray(xs) => match other {
                Value::EmArray(ys) => xs.len() == ys.len() && alike_values(xs, ys),
                _ => false,
            },
            _ => self.same(other),
        }
    }
}

/// The place of a kind of value in the order of the kinds: null, number,
/// string, boolean, array, name, function, object.
pub open spec fn kind(d: Datum) -> int {
    match d {
        Datum::Null => 0,
        Datum::Float(_) => 1,
        Datum::EmString(_) => 2,
        Datum::EmBool(_) => 3,
        Datum::EmArray(_) => 4,
        Datum::Name(_) => 5,
        Datum::Function(_, _, _) => 6,
        Datum::Object(_) => 7,
    }
}

/// How two texts stand to each other from `from` on, character by character;
/// a text that ends first is less.
pub open spec fn text_order(a: Seq<char>, b: Seq<char>, from: int) -> Order
    decreases a.len() - from,
{
    if from < 0 || (from >= a.len() && from >= b.len()) {
        Order::Equal
    } else if from >= a.len() {
        Order::Less
    } else if from >= b.len() {
        Order::Greater
    } else if a[from] < b[from] {
        Order::Less
    } else if a[from] > b[from] {
        Order::Greater
    } else {
        text_order(a, b, from + 1)
    }
}

/// How two values stand to each other.
///
/// Values of different kinds stand as their kinds do. Numbers are ordered as
/// numbers, texts and names character by character, `false` before `true`,
/// arrays item by item. Two functions are equal where they are the same in
/// every part; else they stand as their names do, and have no order under one
/// name. Two objects are equal where they bind the same names to values that
/// are alike, in whatever order; else they stand as their numbers of members
/// do, and have no order where these are equal.
pub open spec fn order(a: Datum, b: Datum) -> Order
    decreases a, 0int,
{
    if kind(a) != kind(b) {
        if kind(a) < kind(b) {
            Order::Less
        } else {
            Order::Greater
        }
    } else {
        match (a, b) {
            (Datum::Null, _) => Order::Equal,
            (Datum::Float(x), Datum::Float(y)) => x.order(y),
            (Datum::EmString(s), Datum::EmString(t)) => text_order(s, t, 0),
            (Datum::EmBool(x), Datum::EmBool(y)) => if x == y {
                Order::Equal
            } else if !x {
                Order::Less
            } else {
                Order::Greater
            },
            (Datum::EmArray(xs), Datum::EmArray(ys)) => list_order(xs, ys, 0),
            (Datum::Name(s), Datum::Name(t)) => text_order(s, t, 0),
            (Datum::Function(n, _, _), Datum::Function(n2, _, _)) => if a == b {
                Order::Equal
            } else if text_order(n, n2, 0) == Order::Equal {
                Order::Unordered
            } else {
                text_order(n, n2, 0)
            },
            (Datum::Object(m), Datum::Object(m2)) => if alike(a, b) {
                Order::Equal
            } else if m.len() < m2.len() {
                Order::Less
            } else if m.len() > m2.len() {
                Order::Greater
            } else {
                Order::Unordered
            },
            _ => Order::Unordered,
        }
    }
}

/// How two lists of values stand to each other from `from` on: as the first
/// pair of items that is not equal, and where there is none, the shorter list
/// is less.
pub open spec fn list_order(xs: Seq<Datum>, ys: Seq<Datum>, from: int) -> Order
    decreases xs, xs.len() - from,
{
    if from < 0 || (from >= xs.len() && from >= ys.len()) {
        Order::Equal
    } else if from >= xs.len() {
        Order::Less
    } else if from >= ys.len() {
        Order::Greater
    } else {
        match order(xs[from], ys[from]) {
            Order::Equal => list_order(xs, ys, from + 1),
            o => o,
        }
    }
}

/// Compares two texts character by character.
pub fn compare_text(a: &String, b: &String) -> (o: Order)
    ensures
        o == text_order(a@, b@, 0),
{
    let x = chars_of(a.as_str());
    let y = chars_of(b.as_str());
    let mut i: usize = 0;
    while i < x.len() && i < y.len()
        invariant
            i <= x.len(),
            i <= y.len(),
            x@ == a@,
            y@ == b@,
            text_order(a@, b@, 0) == text_order(a@, b@, i as int),
        decreases x.len() - i,
    {
        if x[i] < y[i] {
            return Order::Less;
        }
        if x[i] > y[i] {
            return Order::Greater;
        }
        i += 1;
    }
    if i >= x.len() && i >= y.len() {
        Order::Equal
    } else if i >= x.len() {
        Order::Less
    } else {
        Order::Greater
    }
}

/// Compares two lists of values item by item.
pub fn compare_values(a: &Vec<Value>, b: &Vec<Value>) -> (o: Order)
    ensures
        o == list_order(data(a@), data(b@), 0),
    decreases a, 1int,
{
    let mut i: usize = 0;
    while i < a.len() && i < b.len()
        invariant
            i <= a.len(),
            i <= b.len(),
            list_order(data(a@), data(b@), 0) == list_order(data(a@), data(b@), i as int),
        decreases a.len() - i,
    {
        let o = a[i].compare(&b[i]);
        match o {
            Order::Equal => {},
            _ => {
                return o;
            },
        }
        i += 1;
    }
    if i >= a.len() && i >= b.len() {
        Order::Equal
    } else if i >= a.len() {
        Order::Less
    } else {
        Order::Greater
    }
}

impl Value {
    /// The place of the kind of the value in the order of the kinds.
    pub fn rank(&self) -> (k: u8)
        ensures
            k == kind(self@),
    {
        match self {
            Value::Null => 0,
            Value::Float(_) => 1,
            Value::EmString(_) => 2,
            Value::EmBool(_) => 3,
            Value::EmArray(_) => 4,
            Value::Name(_) => 5,
            Value::Function(_, _, _) => 6,
            Value::Object(_) => 7,
        }
    }

    /// Compares two values.
    pub fn compare(&self, other: &Value) -> (o: Order)
        ensures
            o == order(self@, other@),
        decreases self, 0int,
    {
        let k = self.rank();
        let k2 = other.rank();
        if k != k2 {
            return if k < k2 {
                Order::Less
            } else {
                Order::Greater
            };
        }
        match (self, other) {
            (Value::Null, _) => Order::Equal,
            (Value::Float(x), Value::Float(y)) => x.compare(y),
            (Value::EmString(s), Value::EmString(t)) => compare_text(s, t),
            (Value::EmBool(x), Value::EmBool(y)) => if *x == *y {
                Order::Equal
            } else if !*x {
                Order::Less
            } else {
                Order::Greater
            },
            (Value::EmArray(xs), Value::EmArray(ys)) => compare_values(xs, ys),
            (Value::Name(s), Value::Name(t)) => compare_text(s, t),
            (Value::Function(n, _, _), Value::Function(n2, _, _)) => {
                if self.same(other) {
                    Order::Equal
                } else {
                    match compare_text(n, n2) {
                        Order::Equal => Order::Unordered,
                        o => o,
                    }
                }
            },
            (Value::Object(m), Value::Object(m2)) => {
                if self.alike(other) {
                    Order::Equal
                } else if m.members.len() < m2.members.len() {
                    Order::Less
                } else if m.members.len() > m2.members.len() {
                    Order::Greater
                } else {
                    Order::Unordered
                }
            },
            _ => Order::Unordered,
        }
    }
}

} // verus!
