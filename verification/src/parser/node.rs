//! The syntax tree.

use crate::lexer::{Expression, Lexeme};
use crate::number::Number;
use vstd::prelude::*;

verus! {

/// The operators of a binary operation.
#[derive(Clone, Copy, Debug, PartialEq, Eq, Structural)]
pub enum Operator {
    Add,
    Sub,
    Mul,
    Div,
    Equals,
    Dot,
    EqualTo,
    NotEqualTo,
    Greater,
    Less,
    GreaterOrEq,
    LessOrEq,
}

/// A node of the syntax tree: one variant for each kind of statement and
/// expression. A node owns the trees below it.
#[derive(Debug, PartialEq)]
pub enum ExprNode {
    /// Operator, left side, right side.
    Operation(Operator, Box<ExprNode>, Box<ExprNode>),
    StrLiteral(String),
    NumLiteral(Number),
    BoolLiteral(bool),
    Name(String),
    /// Name of what is called, arguments.
    Call(String, Vec<ExprNode>),
    Block(Vec<ExprNode>),
    /// Name, parameter names, body.
    Func(String, Vec<String>, Box<ExprNode>),
    /// Name, body.
    Class(String, Box<ExprNode>),
    /// Name of the class, arguments of the constructor.
    New(String, Vec<ExprNode>),
    /// Loop keyword, condition, block.
    Loop(String, Box<ExprNode>, Box<ExprNode>),
    /// Declaration, condition, incrementation.
    ForLoopDec(Box<ExprNode>, Box<ExprNode>, Box<ExprNode>),
    /// An expression in parentheses.
    Statement(Box<ExprNode>),
    ReturnVal(Box<ExprNode>),
    /// Condition, body, branch.
    IfStatement(Box<ExprNode>, Box<ExprNode>, Box<ExprNode>),
    Array(Vec<ExprNode>),
    /// What is indexed, index.
    Index(Box<ExprNode>, Box<ExprNode>),
    /// A place where nothing stands, or a token that has no meaning there.
    Illegal(Option<Expression>),
    EOF,
}

/// What an [`ExprNode`] stands for: the same tree over sequences.
pub enum Tree {
    Operation(Operator, Box<Tree>, Box<Tree>),
    StrLiteral(Seq<char>),
    NumLiteral(Number),
    BoolLiteral(bool),
    Name(Seq<char>),
    Call(Seq<char>, Seq<Tree>),
    Block(Seq<Tree>),
    Func(Seq<char>, Seq<Seq<char>>, Box<Tree>),
    Class(Seq<char>, Box<Tree>),
    New(Seq<char>, Seq<Tree>),
    Loop(Seq<char>, Box<Tree>, Box<Tree>),
    ForLoopDec(Box<Tree>, Box<Tree>, Box<Tree>),
    Statement(Box<Tree>),
    ReturnVal(Box<Tree>),
    IfStatement(Box<Tree>, Box<Tree>, Box<Tree>),
    Array(Seq<Tree>),
    Index(Box<Tree>, Box<Tree>),
    Illegal(Option<Lexeme>),
    EOF,
}

/// The texts that a sequence of strings stands for.
pub open spec fn texts(names: Seq<String>) -> Seq<Seq<char>> {
    Seq::new(names.len(), |i: int| names[i]@)
}

/// What an optional token stands for.
pub open spec fn lexeme_of(token: Option<Expression>) -> Option<Lexeme> {
    match token {
        Some(t) => Some(t@),
        None => None,
    }
}

impl ExprNode {
    /// The tree that the node stands for.
    pub open spec fn view(&self) -> Tree
        decreases self, 0int,
    {
        match self {
            ExprNode::Operation(o, l, r) => Tree::Operation(
                *o,
                Box::new(l.view()),
                Box::new(r.view()),
            ),
            ExprNode::StrLiteral(s) => Tree::StrLiteral(s@),
            ExprNode::NumLiteral(n) => Tree::NumLiteral(*n),
            ExprNode::BoolLiteral(b) => Tree::BoolLiteral(*b),
            ExprNode::Name(s) => Tree::Name(s@),
            ExprNode::Call(n, args) => Tree::Call(
                n@,
                trees(args@),
            ),
            ExprNode::Block(v) => Tree::Block(
                trees(v@),
            ),
            ExprNode::Func(n, p, b) => Tree::Func(n@, texts(p@), Box::new(b.view())),
            ExprNode::Class(n, b) => Tree::Class(n@, Box::new(b.view())),
            ExprNode::New(n, args) => Tree::New(
                n@,
                trees(args@),
            ),
            ExprNode::Loop(k, c, b) => Tree::Loop(k@, Box::new(c.view()), Box::new(b.view())),
            ExprNode::ForLoopDec(d, c, i) => Tree::ForLoopDec(
                Box::new(d.view()),
                Box::new(c.view()),
                Box::new(i.view()),
            ),
            ExprNode::Statement(e) => Tree::Statement(Box::new(e.view())),
            ExprNode::ReturnVal(e) => Tree::ReturnVal(Box::new(e.view())),
            ExprNode::IfStatement(c, b, e) => Tree::IfStatement(
                Box::new(c.view()),
                Box::new(b.view()),
                Box::new(e.view()),
            ),
            ExprNode::Array(v) => Tree::Array(
                trees(v@),
            ),
            ExprNode::Index(b, i) => Tree::Index(Box::new(b.view()), Box::new(i.view())),
            ExprNode::Illegal(t) => Tree::Illegal(lexeme_of(*t)),
            ExprNode::EOF => Tree::EOF,
        }
    }
}

/// The trees that a sequence of nodes stands for.
pub open spec fn trees(nodes: Seq<ExprNode>) -> Seq<Tree>
    decreases nodes, 1int,
{
    Seq::new(
        nodes.len(),
        |i: int|
            if 0 <= i < nodes.len() {
                nodes[i].view()
            } else {
                Tree::EOF
            },
    )
}

/// A copy of a list of names.
pub fn duplicate_names(names: &Vec<String>) -> (out: Vec<String>)
    ensures
        texts(out@) == texts(names@),
{
    let mut out: Vec<String> = Vec::new();
    let mut i: usize = 0;
    while i < names.len()
        invariant
            i <= names.len(),
            out@.len() == i,
            forall|k: int| 0 <= k < i ==> out@[k]@ == names@[k]@,
        decreases names.len() - i,
    {
        out.push(names[i].clone());
        i += 1;
    }
    out
}

/// A copy of an optional token.
pub fn duplicate_token(token: &Option<Expression>) -> (out: Option<Expression>)
    ensures
        lexeme_of(out) == lexeme_of(*token),
{
    match token {
        Some(t) => Some(t.duplicate()),
        None => None,
    }
}

/// A copy of a list of nodes, each copied in depth.
pub fn duplicate_nodes(nodes: &Vec<ExprNode>) -> (out: Vec<ExprNode>)
    ensures
        trees(out@) == trees(nodes@),
    decreases nodes, 1int,
{
    let mut out: Vec<ExprNode> = Vec::new();
    let mut i: usize = 0;
    while i < nodes.len()
        invariant
            i <= nodes.len(),
            out@.len() == i,
            forall|k: int| 0 <= k < i ==> out@[k]@ == nodes@[k]@,
        decreases nodes.len() - i,
    {
        let copy = nodes[i].duplicate();
        out.push(copy);
        i += 1;
    }
    out
}

impl ExprNode {
    /// True for the nodes that hold one plain value: the literals and the
    /// names.
    pub open spec fn is_leaf(&self) -> bool {
        self is StrLiteral || self is NumLiteral || self is BoolLiteral || self is Name
    }

    /// The text of the value that a leaf holds.
    pub open spec fn inner_text(&self) -> Seq<char> {
        match self {
            ExprNode::StrLiteral(s) => s@,
            ExprNode::NumLiteral(n) => n.text(),
            ExprNode::BoolLiteral(b) => if *b {
                "true"@
            } else {
                "false"@
            },
            ExprNode::Name(n) => n@,
            _ => Seq::empty(),
        }
    }

    /// Returns the inner value of a literal or of a name as a string.
    pub fn inner(&self) -> (text: String)
        requires
            self.is_leaf(),
        ensures
            text@ == self.inner_text(),
    {
        match self {
            ExprNode::StrLiteral(s) => s.clone(),
            ExprNode::NumLiteral(n) => n.to_text(),
            ExprNode::BoolLiteral(b) => if *b {
                String::from_str("true")
            } else {
                String::from_str("false")
            },
            ExprNode::Name(n) => n.clone(),
            _ => String::new(),
        }
    }

    /// A copy of the node and of everything below it.
    pub fn duplicate(&self) -> (r: ExprNode)
        ensures
            r@ == self@,
        decreases self, 0int,
    {
        match self {
            ExprNode::Operation(o, l, r) => ExprNode::Operation(
                *o,
                Box::new(l.duplicate()),
                Box::new(r.duplicate()),
            ),
            ExprNode::StrLiteral(s) => ExprNode::StrLiteral(s.clone()),
            ExprNode::NumLiteral(n) => ExprNode::NumLiteral(*n),
            ExprNode::BoolLiteral(b) => ExprNode::BoolLiteral(*b),
            ExprNode::Name(s) => ExprNode::Name(s.clone()),
            ExprNode::Call(n, args) => {
                let copy = duplicate_nodes(args);
                ExprNode::Call(n.clone(), copy)
            },
            ExprNode::Block(v) => {
                let copy = duplicate_nodes(v);
                ExprNode::Block(copy)
            },
            ExprNode::Func(n, p, b) => ExprNode::Func(
                n.clone(),
                duplicate_names(p),
                Box::new(b.duplicate()),
            ),
            ExprNode::Class(n, b) => ExprNode::Class(n.clone(), Box::new(b.duplicate())),
            ExprNode::New(n, args) => {
                let copy = duplicate_nodes(args);
                ExprNode::New(n.clone(), copy)
            },
            ExprNode::Loop(k, c, b) => ExprNode::Loop(
                k.clone(),
                Box::new(c.duplicate()),
                Box::new(b.duplicate()),
            ),
            ExprNode::ForLoopDec(d, c, i) => ExprNode::ForLoopDec(
                Box::new(d.duplicate()),
                Box::new(c.duplicate()),
                Box::new(i.duplicate()),
            ),
            ExprNode::Statement(e) => ExprNode::Statement(Box::new(e.duplicate())),
            ExprNode::ReturnVal(e) => ExprNode::ReturnVal(Box::new(e.duplicate())),
            ExprNode::IfStatement(c, b, e) => ExprNode::IfStatement(
                Box::new(c.duplicate()),
                Box::new(b.duplicate()),
                Box::new(e.duplicate()),
            ),
            ExprNode::Array(v) => {
                let copy = duplicate_nodes(v);
                ExprNode::Array(copy)
            },
            ExprNode::Index(b, i) => ExprNode::Index(
                Box::new(b.duplicate()),
                Box::new(i.duplicate()),
            ),
            ExprNode::Illegal(t) => ExprNode::Illegal(duplicate_token(t)),
            ExprNode::EOF => ExprNode::EOF,
        }
    }
}

/// Tells whether two lists of names hold the same texts.
pub fn same_names(a: &Vec<String>, b: &Vec<String>) -> (r: bool)
    ensures
        r == (texts(a@) == texts(b@)),
{
    if a.len() != b.len() {
        return false;
    }
    let mut i: usize = 0;
    while i < a.len()
        invariant
            i <= a.len(),
            a.len() == b.len(),
            forall|k: int| 0 <= k < i ==> a@[k]@ == b@[k]@,
        decreases a.len() - i,
    {
        if a[i] != b[i] {
            assert(texts(a@)[i as int] != texts(b@)[i as int]);
            return false;
        }
        i += 1;
    }
    assert(texts(a@) =~= texts(b@));
    true
}

/// Tells whether two optional tokens stand for the same thing.
pub fn same_token(a: &Option<Expression>, b: &Option<Expression>) -> (r: bool)
    ensures
        r == (lexeme_of(*a) == lexeme_of(*b)),
{
    match (a, b) {
        (Some(x), Some(y)) => x.same(y),
        (None, None) => true,
        _ => false,
    }
}

/// Tells whether two lists of nodes stand for the same trees.
pub fn same_nodes(a: &Vec<ExprNode>, b: &Vec<ExprNode>) -> (r: bool)
    ensures
        r == (trees(a@) == trees(b@)),
    decreases a, 1int,
{
    if a.len() != b.len() {
        return false;
    }
    let mut i: usize = 0;
    while i < a.len()
        invariant
            i <= a.len(),
            a.len() == b.len(),
            forall|k: int| 0 <= k < i ==> a@[k]@ == b@[k]@,
        decreases a.len() - i,
    {
        if !a[i].same(&b[i]) {
            assert(trees(a@)[i as int] != trees(b@)[i as int]);
            return false;
        }
        i += 1;
    }
    assert(trees(a@) =~= trees(b@));
    true
}

impl ExprNode {
    /// Tells whether two nodes stand for the same tree.
    pub fn same(&self, other: &ExprNode) -> (r: bool)
        ensures
            r == (self@ == other@),
        decreases self, 0int,
    {
        match (self, other) {
            (ExprNode::Operation(o, l, r), ExprNode::Operation(o2, l2, r2)) => *o == *o2 && l.same(
                l2,
            ) && r.same(r2),
            (ExprNode::StrLiteral(a), ExprNode::StrLiteral(b)) => *a == *b,
            (ExprNode::NumLiteral(a), ExprNode::NumLiteral(b)) => a.bits == b.bits,
            (ExprNode::BoolLiteral(a), ExprNode::BoolLiteral(b)) => *a == *b,
            (ExprNode::Name(a), ExprNode::Name(b)) => *a == *b,
            (ExprNode::Call(n, a), ExprNode::Call(n2, a2)) => *n == *n2 && same_nodes(a, a2),
            (ExprNode::Block(a), ExprNode::Block(a2)) => same_nodes(a, a2),
            (ExprNode::Func(n, p, b), ExprNode::Func(n2, q, b2)) => *n == *n2 && same_names(p, q)
                && b.same(b2),
            (ExprNode::Class(n, b), ExprNode::Class(n2, b2)) => *n == *n2 && b.same(b2),
            (ExprNode::New(n, a), ExprNode::New(n2, a2)) => *n == *n2 && same_nodes(a, a2),
            (ExprNode::Loop(k, c, b), ExprNode::Loop(k2, c2, b2)) => *k == *k2 && c.same(c2)
                && b.same(b2),
            (ExprNode::ForLoopDec(d, c, i), ExprNode::ForLoopDec(d2, c2, i2)) => d.same(d2)
                && c.same(c2) && i.same(i2),
            (ExprNode::Statement(e), ExprNode::Statement(e2)) => e.same(e2),
            (ExprNode::ReturnVal(e), ExprNode::ReturnVal(e2)) => e.same(e2),
            (ExprNode::IfStatement(c, b, e), ExprNode::IfStatement(c2, b2, e2)) => c.same(c2)
                && b.same(b2) && e.same(e2),
            (ExprNode::Array(a), ExprNode::Array(a2)) => same_nodes(a, a2),
            (ExprNode::Index(b, i), ExprNode::Index(b2, i2)) => b.same(b2) && i.same(i2),
            (ExprNode::Illegal(t), ExprNode::Illegal(t2)) => same_token(t, t2),
            (ExprNode::EOF, ExprNode::EOF) => true,
            _ => false,
        }
    }
}

/// A node and the tree that it stands for are of the same kind.
pub proof fn lemma_kinds(node: ExprNode)
    ensures
        node is Operation == node@ is Operation,
        node is StrLiteral == node@ is StrLiteral,
        node is NumLiteral == node@ is NumLiteral,
        node is BoolLiteral == node@ is BoolLiteral,
        node is Name == node@ is Name,
        node is Call == node@ is Call,
        node is Block == node@ is Block,
        node is Func == node@ is Func,
        node is Class == node@ is Class,
        node is New == node@ is New,
        node is Loop == node@ is Loop,
        node is ForLoopDec == node@ is ForLoopDec,
        node is Statement == node@ is Statement,
        node is ReturnVal == node@ is ReturnVal,
        node is IfStatement == node@ is IfStatement,
        node is Array == node@ is Array,
        node is Index == node@ is Index,
        node is Illegal == node@ is Illegal,
        node is EOF == node@ is EOF,
{
}

} // verus!
