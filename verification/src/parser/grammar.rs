//! What parsing means: the tree of every sequence of tokens, as functions
//! from the tokens and a position to a tree and the position behind it.
//!
//! Binary operators have no precedence and group to the right: an operand is
//! read, and where an operator follows, everything behind the operator is its
//! right side. So `1 - 2 - 3` is `1 - (2 - 3)`.
//!
//! Before a definition goes on from the position that a part of it has
//! reached, it asks that this position lies ahead. Reading never goes back,
//! so it always does; the question is there to show that every definition
//! comes to an end.

use crate::lexer::Lexeme;
use crate::number::Number;
use crate::parser::node::{Operator, Tree};
use vstd::prelude::*;

verus! {

/// What a parse error stands for.
pub enum Flaw {
    /// A token was wanted, and another, or the end, was found.
    Expected { expected: Lexeme, found: Option<Lexeme> },
    /// A token, or the end, stands where an operand or a statement must begin.
    Unexpected(Option<Lexeme>),
    /// A keyword that begins no statement.
    UnknownKeyword(Seq<char>),
    /// An operator token that names no operator.
    UnknownOperator(Lexeme),
    /// A block among the arguments of a call.
    BlockInParameters,
}

/// A tree, or the error that stopped the parser, and the position behind what
/// was read.
pub struct Parsed {
    pub node: Result<Tree, Flaw>,
    pub next: int,
}

/// A list of trees, or the error that stopped the parser, and the position
/// behind what was read.
pub struct ParsedList {
    pub nodes: Result<Seq<Tree>, Flaw>,
    pub next: int,
}

/// A tree that was read.
pub open spec fn read(node: Tree, next: int) -> Parsed {
    Parsed { node: Ok(node), next }
}

/// An error at a position.
pub open spec fn flawed(flaw: Flaw, at: int) -> Parsed {
    Parsed { node: Err(flaw), next: at }
}

/// The token at a position, if there is one.
pub open spec fn token_at(ts: Seq<Lexeme>, at: int) -> Option<Lexeme> {
    if 0 <= at < ts.len() {
        Some(ts[at])
    } else {
        None
    }
}

/// The error of a wanted token that is not there.
pub open spec fn missing(expected: Lexeme, ts: Seq<Lexeme>, at: int) -> Flaw {
    Flaw::Expected { expected, found: token_at(ts, at) }
}

/// The placeholder for a tree that was left out.
pub open spec fn nothing() -> Tree {
    Tree::Illegal(None)
}

/// The node of a token that is an operand by itself: a literal for a string
/// and for a number, a name for an identifier. Any other token has no meaning
/// as an operand and is kept as it is.
pub open spec fn leaf_of(t: Lexeme) -> Tree {
    match t {
        Lexeme::Word(s) => Tree::StrLiteral(s),
        Lexeme::Number(n) => Tree::NumLiteral(n),
        Lexeme::Ident(i) => Tree::Name(i),
        _ => Tree::Illegal(Some(t)),
    }
}

/// The operator that a one-character operator token names.
pub open spec fn operator_of(c: char) -> Option<Operator> {
    if c == '+' {
        Some(Operator::Add)
    } else if c == '-' {
        Some(Operator::Sub)
    } else if c == '*' {
        Some(Operator::Mul)
    } else if c == '/' {
        Some(Operator::Div)
    } else if c == '.' {
        Some(Operator::Dot)
    } else {
        None
    }
}

/// The operator that a relational token names.
pub open spec fn relation_of(s: Seq<char>) -> Option<Operator> {
    if s == "=="@ {
        Some(Operator::EqualTo)
    } else if s == "!="@ {
        Some(Operator::NotEqualTo)
    } else if s == ">"@ {
        Some(Operator::Greater)
    } else if s == "<"@ {
        Some(Operator::Less)
    } else if s == ">="@ {
        Some(Operator::GreaterOrEq)
    } else if s == "<="@ {
        Some(Operator::LessOrEq)
    } else {
        None
    }
}

/// The arithmetic operator of a compound assignment, and whether its right
/// side is the number one (`++`, `--`) or is read from the tokens.
pub open spec fn compound_of(s: Seq<char>) -> Option<(Operator, bool)> {
    if s == "+="@ {
        Some((Operator::Add, false))
    } else if s == "-="@ {
        Some((Operator::Sub, false))
    } else if s == "*="@ {
        Some((Operator::Mul, false))
    } else if s == "/="@ {
        Some((Operator::Div, false))
    } else if s == "++"@ {
        Some((Operator::Add, true))
    } else if s == "--"@ {
        Some((Operator::Sub, true))
    } else {
        None
    }
}

/// True for the tokens that an operand written without parentheses behind a
/// name at the beginning of a statement may begin with: `print "hello";`
/// calls `print` with one argument.
pub open spec fn begins_argument(t: Option<Lexeme>) -> bool {
    match t {
        Some(Lexeme::Word(_)) => true,
        Some(Lexeme::Number(_)) => true,
        Some(Lexeme::Ident(_)) => true,
        Some(Lexeme::Key(w)) => w == "true"@ || w == "false"@,
        _ => false,
    }
}

/// True for the tokens between operands: with one of them at its beginning, an
/// expression has nothing as its left side.
pub open spec fn is_operator(t: Option<Lexeme>) -> bool {
    match t {
        Some(Lexeme::Operator(_)) => true,
        Some(Lexeme::BoolOp(_)) => true,
        Some(Lexeme::CompoundOp(_)) => true,
        Some(Lexeme::Equal) => true,
        _ => false,
    }
}

/// True for a plus or a minus.
pub open spec fn is_sign(t: Option<Lexeme>) -> bool {
    t == Some(Lexeme::Operator('-')) || t == Some(Lexeme::Operator('+'))
}

/// The tree of a whole sequence of tokens: a block that ends at the end of the
/// tokens, at an end marker, or at a closing brace that nothing opened.
pub open spec fn tree_of(ts: Seq<Lexeme>) -> Result<Tree, Flaw> {
    make_block(ts, 0).node
}

/// A block: the statements up to the closing brace, the end marker or the
/// end of the tokens.
pub open spec fn make_block(ts: Seq<Lexeme>, at: int) -> Parsed
    decreases ts.len() - at, 8int,
{
    statements(ts, at, Seq::empty())
}

/// The statements of a block from `at` on, behind those in `acc`.
///
/// A keyword begins the statement of that keyword, `{` a block within the
/// block, and anything else an expression. Semicolons between statements are
/// passed over. A name followed by a literal or a name, without parentheses,
/// is a call with one argument.
pub open spec fn statements(ts: Seq<Lexeme>, at: int, acc: Seq<Tree>) -> Parsed
    decreases ts.len() - at, 7int,
{
    if at < 0 || at >= ts.len() {
        read(Tree::Block(acc), at)
    } else {
        match ts[at] {
            Lexeme::EOF => read(Tree::Block(acc), at + 1),
            Lexeme::Rbrace => read(Tree::Block(acc), at + 1),
            Lexeme::Semicolon => statements(ts, at + 1, acc),
            _ => {
                let s = statement(ts, at);
                match s.node {
                    Err(_) => s,
                    Ok(node) => if at < s.next <= ts.len() {
                        statements(ts, s.next, acc.push(node))
                    } else {
                        flawed(Flaw::Unexpected(token_at(ts, at)), at)
                    },
                }
            },
        }
    }
}

/// One statement.
pub open spec fn statement(ts: Seq<Lexeme>, at: int) -> Parsed
    decreases ts.len() - at, 6int,
{
    match token_at(ts, at) {
        Some(Lexeme::Key(w)) => if w == "true"@ || w == "false"@ || w == "new"@ {
            read_line(ts, at)
        } else {
            key_word(ts, at + 1, w)
        },
        Some(Lexeme::Lbrace) => make_block(ts, at + 1),
        Some(Lexeme::Ident(n)) => if begins_argument(token_at(ts, at + 1)) {
            let arg = read_line(ts, at + 1);
            match arg.node {
                Ok(a) => read(Tree::Call(n, seq![a]), arg.next),
                Err(_) => arg,
            }
        } else {
            read_line(ts, at)
        },
        _ => read_line(ts, at),
    }
}

/// The statement of a keyword, from the token behind the keyword on.
pub open spec fn key_word(ts: Seq<Lexeme>, at: int, word: Seq<char>) -> Parsed
    decreases ts.len() - at, 5int,
{
    if word == "fn"@ {
        def_func(ts, at)
    } else if word == "return"@ {
        match token_at(ts, at) {
            None => read(Tree::ReturnVal(Box::new(nothing())), at),
            Some(Lexeme::Semicolon) => read(Tree::ReturnVal(Box::new(nothing())), at),
            Some(Lexeme::Rbrace) => read(Tree::ReturnVal(Box::new(nothing())), at),
            Some(Lexeme::EOF) => read(Tree::ReturnVal(Box::new(nothing())), at),
            _ => {
                let e = read_line(ts, at);
                match e.node {
                    Ok(v) => read(Tree::ReturnVal(Box::new(v)), e.next),
                    Err(_) => e,
                }
            },
        }
    } else if word == "while"@ {
        make_while(ts, at)
    } else if word == "for"@ {
        make_for_loop(ts, at)
    } else if word == "if"@ {
        make_if(ts, at)
    } else if word == "class"@ {
        make_class(ts, at)
    } else if word == "print"@ || word == "println"@ {
        let arg = read_line(ts, at);
        match arg.node {
            Ok(a) => read(Tree::Call(word, seq![a]), arg.next),
            Err(_) => arg,
        }
    } else {
        flawed(Flaw::UnknownKeyword(word), at)
    }
}

/// A condition in parentheses and a block in braces, from the opening
/// parenthesis on: the condition, the block, and the position behind the
/// block.
pub open spec fn guarded(ts: Seq<Lexeme>, at: int) -> (Parsed, Tree)
    decreases ts.len() - at, 3int,
{
    if token_at(ts, at) != Some(Lexeme::Lparen) {
        (flawed(missing(Lexeme::Lparen, ts, at), at), nothing())
    } else {
        let c = read_line(ts, at + 1);
        match c.node {
            Err(_) => (c, nothing()),
            Ok(cond) => if token_at(ts, c.next) != Some(Lexeme::Rparen) {
                (flawed(missing(Lexeme::Rparen, ts, c.next), c.next), nothing())
            } else if token_at(ts, c.next + 1) != Some(Lexeme::Lbrace) {
                (flawed(missing(Lexeme::Lbrace, ts, c.next + 1), c.next + 1), nothing())
            } else if c.next < at {
                (flawed(Flaw::Unexpected(None), at), nothing())
            } else {
                (make_block(ts, c.next + 2), cond)
            },
        }
    }
}

/// `while ( condition ) { body }`, from the opening parenthesis on.
pub open spec fn make_while(ts: Seq<Lexeme>, at: int) -> Parsed
    decreases ts.len() - at, 4int,
{
    let (b, cond) = guarded(ts, at);
    match b.node {
        Ok(body) => read(Tree::Loop("while"@, Box::new(cond), Box::new(body)), b.next),
        Err(_) => b,
    }
}

/// `if ( condition ) { body }`, with `elif ( condition ) { body }` any number
/// of times and `else { body }` behind it, from the opening parenthesis on.
/// The branch of an `if` is the `if` of its `elif`, the block of its `else`,
/// or nothing.
pub open spec fn make_if(ts: Seq<Lexeme>, at: int) -> Parsed
    decreases ts.len() - at, 4int,
{
    let (b, cond) = guarded(ts, at);
    match b.node {
        Err(_) => b,
        Ok(body) => {
            let branch = match token_at(ts, b.next) {
                Some(Lexeme::Key(w)) => if w == "elif"@ && b.next > at {
                    make_if(ts, b.next + 1)
                } else if w == "else"@ && b.next > at {
                    if token_at(ts, b.next + 1) != Some(Lexeme::Lbrace) {
                        flawed(missing(Lexeme::Lbrace, ts, b.next + 1), b.next + 1)
                    } else {
                        make_block(ts, b.next + 2)
                    }
                } else {
                    read(nothing(), b.next)
                },
                _ => read(nothing(), b.next),
            };
            match branch.node {
                Ok(e) => read(
                    Tree::IfStatement(Box::new(cond), Box::new(body), Box::new(e)),
                    branch.next,
                ),
                Err(_) => branch,
            }
        },
    }
}

/// `for ( declaration ; condition ; incrementation ) { body }`, from the
/// opening parenthesis on. The declaration and the incrementation may be left
/// out.
pub open spec fn make_for_loop(ts: Seq<Lexeme>, at: int) -> Parsed
    decreases ts.len() - at, 4int,
{
    if token_at(ts, at) != Some(Lexeme::Lparen) {
        flawed(missing(Lexeme::Lparen, ts, at), at)
    } else {
        let d = if token_at(ts, at + 1) == Some(Lexeme::Semicolon) {
            read(nothing(), at + 1)
        } else {
            read_line(ts, at + 1)
        };
        match d.node {
            Err(_) => d,
            Ok(dec) => if token_at(ts, d.next) != Some(Lexeme::Semicolon) {
                flawed(missing(Lexeme::Semicolon, ts, d.next), d.next)
            } else if d.next < at {
                flawed(Flaw::Unexpected(None), at)
            } else {
                let c = read_line(ts, d.next + 1);
                match c.node {
                    Err(_) => c,
                    Ok(cond) => if token_at(ts, c.next) != Some(Lexeme::Semicolon) {
                        flawed(missing(Lexeme::Semicolon, ts, c.next), c.next)
                    } else if c.next < at {
                        flawed(Flaw::Unexpected(None), at)
                    } else {
                        let i = if token_at(ts, c.next + 1) == Some(Lexeme::Rparen) {
                            read(nothing(), c.next + 1)
                        } else {
                            read_line(ts, c.next + 1)
                        };
                        match i.node {
                            Err(_) => i,
                            Ok(inc) => if token_at(ts, i.next) != Some(Lexeme::Rparen) {
                                flawed(missing(Lexeme::Rparen, ts, i.next), i.next)
                            } else if token_at(ts, i.next + 1) != Some(Lexeme::Lbrace) {
                                flawed(missing(Lexeme::Lbrace, ts, i.next + 1), i.next + 1)
                            } else if i.next < at {
                                flawed(Flaw::Unexpected(None), at)
                            } else {
                                let b = make_block(ts, i.next + 2);
                                match b.node {
                                    Ok(body) => read(
                                        Tree::Loop(
                                            "for"@,
                                            Box::new(
                                                Tree::ForLoopDec(
                                                    Box::new(dec),
                                                    Box::new(cond),
                                                    Box::new(inc),
                                                ),
                                            ),
                                            Box::new(body),
                                        ),
                                        b.next,
                                    ),
                                    Err(_) => b,
                                }
                            },
                        }
                    },
                }
            },
        }
    }
}

/// The parameter names of a function definition from `at` on, up to the
/// closing parenthesis. Commas between the names are passed over.
pub open spec fn parameters(ts: Seq<Lexeme>, at: int, acc: Seq<Seq<char>>) -> (
    Result<Seq<Seq<char>>, Flaw>,
    int,
)
    decreases ts.len() - at,
{
    match token_at(ts, at) {
        Some(Lexeme::Rparen) => (Ok(acc), at + 1),
        Some(Lexeme::Comma) => parameters(ts, at + 1, acc),
        Some(Lexeme::Ident(n)) => parameters(ts, at + 1, acc.push(n)),
        _ => (Err(missing(Lexeme::Rparen, ts, at)), at),
    }
}

/// `fn name ( parameters ) { body }`, from the name on.
pub open spec fn def_func(ts: Seq<Lexeme>, at: int) -> Parsed
    decreases ts.len() - at, 3int,
{
    match token_at(ts, at) {
        Some(Lexeme::Ident(name)) => if token_at(ts, at + 1) != Some(Lexeme::Lparen) {
            flawed(missing(Lexeme::Lparen, ts, at + 1), at + 1)
        } else {
            let (params, next) = parameters(ts, at + 2, Seq::empty());
            match params {
                Err(e) => flawed(e, next),
                Ok(p) => if token_at(ts, next) != Some(Lexeme::Lbrace) {
                    flawed(missing(Lexeme::Lbrace, ts, next), next)
                } else if next < at {
                    flawed(Flaw::Unexpected(None), at)
                } else {
                    let b = make_block(ts, next + 1);
                    match b.node {
                        Ok(body) => read(Tree::Func(name, p, Box::new(body)), b.next),
                        Err(_) => b,
                    }
                },
            }
        },
        _ => flawed(missing(Lexeme::Ident(Seq::empty()), ts, at), at),
    }
}

/// `class name { body }`, from the name on.
pub open spec fn make_class(ts: Seq<Lexeme>, at: int) -> Parsed
    decreases ts.len() - at, 3int,
{
    match token_at(ts, at) {
        Some(Lexeme::Ident(name)) => if token_at(ts, at + 1) != Some(Lexeme::Lbrace) {
            flawed(missing(Lexeme::Lbrace, ts, at + 1), at + 1)
        } else {
            let b = make_block(ts, at + 2);
            match b.node {
                Ok(body) => read(Tree::Class(name, Box::new(body)), b.next),
                Err(_) => b,
            }
        },
        _ => flawed(missing(Lexeme::Ident(Seq::empty()), ts, at), at),
    }
}

/// An expression, read to its end: an operand, and where an operator follows
/// it, the operator and everything behind it as its right side. Where an
/// operator stands at the very beginning, the left side is zero for a sign
/// (so that `-5` is `0 - 5`) and nothing for any other operator. The
/// expression ends before the first token that is neither operand nor
/// operator.
pub open spec fn read_line(ts: Seq<Lexeme>, at: int) -> Parsed
    decreases ts.len() - at, 2int,
{
    let l = if is_sign(token_at(ts, at)) {
        read(Tree::NumLiteral(Number { bits: 0 }), at)
    } else if is_operator(token_at(ts, at)) {
        read(nothing(), at)
    } else {
        expr(ts, at)
    };
    match l.node {
        Err(_) => l,
        Ok(left) => if l.next < at {
            flawed(Flaw::Unexpected(None), at)
        } else {
            match token_at(ts, l.next) {
                Some(Lexeme::Operator(c)) => match operator_of(c) {
                    Some(op) => binary(op, left, read_line(ts, l.next + 1)),
                    None => flawed(Flaw::UnknownOperator(Lexeme::Operator(c)), l.next),
                },
                Some(Lexeme::BoolOp(s)) => match relation_of(s) {
                    Some(op) => binary(op, left, read_line(ts, l.next + 1)),
                    None => flawed(Flaw::UnknownOperator(Lexeme::BoolOp(s)), l.next),
                },
                Some(Lexeme::Equal) => binary(Operator::Equals, left, read_line(ts, l.next + 1)),
                Some(Lexeme::CompoundOp(s)) => match compound_of(s) {
                    Some((op, true)) => read(
                        make_compound_op(left, op, Tree::NumLiteral(Number { bits: 0x3f80_0000 })),
                        l.next + 1,
                    ),
                    Some((op, false)) => {
                        let r = read_line(ts, l.next + 1);
                        match r.node {
                            Ok(right) => read(make_compound_op(left, op, right), r.next),
                            Err(_) => r,
                        }
                    },
                    None => flawed(Flaw::UnknownOperator(Lexeme::CompoundOp(s)), l.next),
                },
                _ => l,
            }
        },
    }
}

/// The operation of an operator on a left side and on a right side that was
/// read.
pub open spec fn binary(op: Operator, left: Tree, right: Parsed) -> Parsed {
    match right.node {
        Ok(r) => read(Tree::Operation(op, Box::new(left), Box::new(r)), right.next),
        Err(_) => right,
    }
}

/// What a compound assignment stands for: `x += y` is `x = x + y`.
pub open spec fn make_compound_op(target: Tree, op: Operator, right: Tree) -> Tree {
    Tree::Operation(
        Operator::Equals,
        Box::new(target),
        Box::new(Tree::Operation(op, Box::new(target), Box::new(right))),
    )
}

/// An operand: a literal, a name, a call, an index into a name, an array, an
/// expression in parentheses, or `new` with the name of a class and the
/// arguments of its constructor.
pub open spec fn expr(ts: Seq<Lexeme>, at: int) -> Parsed
    decreases ts.len() - at, 1int,
{
    match token_at(ts, at) {
        Some(Lexeme::Number(n)) => read(Tree::NumLiteral(n), at + 1),
        Some(Lexeme::Word(s)) => read(Tree::StrLiteral(s), at + 1),
        Some(Lexeme::Key(w)) => if w == "true"@ {
            read(Tree::BoolLiteral(true), at + 1)
        } else if w == "false"@ {
            read(Tree::BoolLiteral(false), at + 1)
        } else if w == "new"@ {
            match token_at(ts, at + 1) {
                Some(Lexeme::Ident(class)) => if token_at(ts, at + 2) != Some(Lexeme::Lparen) {
                    flawed(missing(Lexeme::Lparen, ts, at + 2), at + 2)
                } else {
                    let args = find_params(ts, at + 3, Seq::empty());
                    match args.nodes {
                        Ok(a) => read(Tree::New(class, a), args.next),
                        Err(e) => flawed(e, args.next),
                    }
                },
                _ => flawed(missing(Lexeme::Ident(Seq::empty()), ts, at + 1), at + 1),
            }
        } else {
            flawed(Flaw::Unexpected(token_at(ts, at)), at)
        },
        Some(Lexeme::Ident(n)) => match token_at(ts, at + 1) {
            Some(Lexeme::Lparen) => {
                let args = find_params(ts, at + 2, Seq::empty());
                match args.nodes {
                    Ok(a) => read(Tree::Call(n, a), args.next),
                    Err(e) => flawed(e, args.next),
                }
            },
            Some(Lexeme::Lbracket) => index_array(ts, at + 1, Tree::Name(n)),
            _ => read(Tree::Name(n), at + 1),
        },
        Some(Lexeme::Lparen) => {
            let inner = read_line(ts, at + 1);
            match inner.node {
                Ok(e) => if token_at(ts, inner.next) == Some(Lexeme::Rparen) {
                    read(Tree::Statement(Box::new(e)), inner.next + 1)
                } else {
                    flawed(missing(Lexeme::Rparen, ts, inner.next), inner.next)
                },
                Err(_) => inner,
            }
        },
        Some(Lexeme::Lbracket) => {
            let items = make_array(ts, at + 1, Seq::empty());
            match items.nodes {
                Ok(a) => read(Tree::Array(a), items.next),
                Err(e) => flawed(e, items.next),
            }
        },
        _ => flawed(Flaw::Unexpected(token_at(ts, at)), at),
    }
}

/// The indices behind a name, from an opening bracket on: `a[0][1]` is the
/// item 1 of the item 0 of `a`.
pub open spec fn index_array(ts: Seq<Lexeme>, at: int, base: Tree) -> Parsed
    decreases ts.len() - at, 3int,
{
    let i = if token_at(ts, at) == Some(Lexeme::Lbracket) {
        read_line(ts, at + 1)
    } else {
        flawed(missing(Lexeme::Lbracket, ts, at), at)
    };
    match i.node {
        Err(_) => i,
        Ok(index) => if token_at(ts, i.next) != Some(Lexeme::Rbracket) {
            flawed(missing(Lexeme::Rbracket, ts, i.next), i.next)
        } else {
            let node = Tree::Index(Box::new(base), Box::new(index));
            if token_at(ts, i.next + 1) == Some(Lexeme::Lbracket) && i.next >= at {
                index_array(ts, i.next + 1, node)
            } else {
                read(node, i.next + 1)
            }
        },
    }
}

/// The expressions of a list from `at` on, behind those in `acc`, with commas
/// between them, up to the token `close`, which is read with them.
pub open spec fn listed(
    ts: Seq<Lexeme>,
    at: int,
    acc: Seq<Tree>,
    close: Lexeme,
    call: bool,
) -> ParsedList
    decreases ts.len() - at, 3int,
{
    if token_at(ts, at) == Some(close) {
        ParsedList { nodes: Ok(acc), next: at + 1 }
    } else if call && token_at(ts, at) == Some(Lexeme::Lbrace) {
        ParsedList { nodes: Err(Flaw::BlockInParameters), next: at }
    } else {
        let e = read_line(ts, at);
        match e.node {
            Err(f) => ParsedList { nodes: Err(f), next: e.next },
            Ok(item) => if token_at(ts, e.next) == Some(Lexeme::Comma) && e.next >= at {
                listed(ts, e.next + 1, acc.push(item), close, call)
            } else if token_at(ts, e.next) == Some(close) {
                ParsedList { nodes: Ok(acc.push(item)), next: e.next + 1 }
            } else {
                ParsedList { nodes: Err(missing(close, ts, e.next)), next: e.next }
            },
        }
    }
}

/// The arguments of a call, from the token behind the opening parenthesis on.
/// A block among them is an error.
pub open spec fn find_params(ts: Seq<Lexeme>, at: int, acc: Seq<Tree>) -> ParsedList
    decreases ts.len() - at, 4int,
{
    listed(ts, at, acc, Lexeme::Rparen, true)
}

/// The items of an array, from the token behind the opening bracket on.
pub open spec fn make_array(ts: Seq<Lexeme>, at: int, acc: Seq<Tree>) -> ParsedList
    decreases ts.len() - at, 4int,
{
    listed(ts, at, acc, Lexeme::Rbracket, false)
}

} // verus!
