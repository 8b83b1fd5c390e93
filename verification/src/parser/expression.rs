//! Expressions: operands, and operators between them.

use crate::lexer::{is_text, lexemes, Expression};
use crate::number::Number;
use crate::parser::error::{agree, agrees, is_at, missing_at, peek, unexpected_at, ParseError};
use crate::parser::grammar;
use crate::parser::grammar::Parsed;
use crate::parser::node::{trees, ExprNode, Operator, Tree};
use vstd::prelude::*;

verus! {

/// The operator that a one-character operator token names.
pub fn operator_of(c: char) -> (op: Option<Operator>)
    ensures
        op == grammar::operator_of(c),
{
    if c == '+' {
        Some(Operator::Add)
    } else if c == '-' {
        Some(Operator::Sub)
    } else if c == '*' {
        Some(Operator::Mul)
    } else if c == '/' {
        Some(Operator::Div)
    } else if c == '.' {
        Some(Operator::Dot)
    } else {
        None
    }
}

/// The operator that a relational token names.
pub fn relation_of(s: &String) -> (op: Option<Operator>)
    ensures
        op == grammar::relation_of(s@),
{
    if is_text(s, "==") {
        Some(Operator::EqualTo)
    } else if is_text(s, "!=") {
        Some(Operator::NotEqualTo)
    } else if is_text(s, ">") {
        Some(Operator::Greater)
    } else if is_text(s, "<") {
        Some(Operator::Less)
    } else if is_text(s, ">=") {
        Some(Operator::GreaterOrEq)
    } else if is_text(s, "<=") {
        Some(Operator::LessOrEq)
    } else {
        None
    }
}

/// The arithmetic operator of a compound assignment, and whether its right
/// side is the number one.
pub fn compound_of(s: &String) -> (op: Option<(Operator, bool)>)
    ensures
        op == grammar::compound_of(s@),
{
    if is_text(s, "+=") {
        Some((Operator::Add, false))
    } else if is_text(s, "-=") {
        Some((Operator::Sub, false))
    } else if is_text(s, "*=") {
        Some((Operator::Mul, false))
    } else if is_text(s, "/=") {
        Some((Operator::Div, false))
    } else if is_text(s, "++") {
        Some((Operator::Add, true))
    } else if is_text(s, "--") {
        Some((Operator::Sub, true))
    } else {
        None
    }
}

/// Makes the node of a token that is an operand by itself.
pub fn make_node(exp: &Expression) -> (node: ExprNode)
    ensures
        node@ == grammar::leaf_of(exp@),
{
    match exp {
        Expression::Word(s) => ExprNode::StrLiteral(s.clone()),
        Expression::Number(n) => ExprNode::NumLiteral(*n),
        Expression::Ident(i) => ExprNode::Name(i.clone()),
        _ => ExprNode::Illegal(Some(exp.duplicate())),
    }
}

/// Tells whether an expression that begins with this token has nothing as
/// its left side.
pub fn is_operator(t: Option<&Expression>) -> (b: bool)
    ensures
        b == grammar::is_operator(
            match t {
                Some(e) => Some(e@),
                None => None,
            },
        ),
{
    match t {
        Some(Expression::Operator(_)) => true,
        Some(Expression::BoolOp(_)) => true,
        Some(Expression::CompoundOp(_)) => true,
        Some(Expression::Equal) => true,
        _ => false,
    }
}

/// Turns a compound assignment into the assignment that it stands for:
/// `x += y` into `x = x + y`.
pub fn make_compound_op(target: ExprNode, op: Operator, right: ExprNode) -> (node: ExprNode)
    ensures
        node@ == grammar::make_compound_op(target@, op, right@),
{
    let again = target.duplicate();
    proof {
        reveal_with_fuel(ExprNode::view, 3);
    }
    ExprNode::Operation(
        Operator::Equals,
        Box::new(target),
        Box::new(ExprNode::Operation(op, Box::new(again), Box::new(right))),
    )
}

/// The operation of an operator on a left side and on what was read as its
/// right side.
pub fn binary(op: Operator, left: ExprNode, right: Result<(ExprNode, usize), ParseError>) -> (r:
    Result<(ExprNode, usize), ParseError>)
    ensures
        forall|p: Parsed| agrees(right, p) ==> agrees(r, #[trigger] grammar::binary(op, left@, p)),
{
    match right {
        Ok((node, next)) => Ok((ExprNode::Operation(op, Box::new(left), Box::new(node)), next)),
        Err(e) => Err(e),
    }
}

/// Reads an expression to its end.
pub fn read_line(tokens: &Vec<Expression>, at: usize) -> (r: Result<(ExprNode, usize), ParseError>)
    ensures
        agrees(r, grammar::read_line(lexemes(tokens@), at as int)),
        r is Ok ==> at < r->Ok_0.1 <= tokens.len(),
    decreases tokens.len() - at, 2int,
{
    let sign = match peek(tokens, at) {
        Some(Expression::Operator(c)) => *c == '-' || *c == '+',
        _ => false,
    };
    let (left, next) = if sign {
        (ExprNode::NumLiteral(Number::zero()), at)
    } else if is_operator(peek(tokens, at)) {
        (ExprNode::Illegal(None), at)
    } else {
        match expr(tokens, at) {
            Ok(l) => l,
            Err(e) => {
                return Err(e);
            },
        }
    };
    match peek(tokens, next) {
        Some(Expression::Operator(c)) => match operator_of(*c) {
            Some(op) => {
                let right = read_line(tokens, next + 1);
                binary(op, left, right)
            },
            None => Err(ParseError::UnknownOperator(Expression::Operator(*c))),
        },
        Some(Expression::BoolOp(s)) => match relation_of(s) {
            Some(op) => {
                let right = read_line(tokens, next + 1);
                binary(op, left, right)
            },
            None => Err(ParseError::UnknownOperator(Expression::BoolOp(s.clone()))),
        },
        Some(Expression::Equal) => {
            let right = read_line(tokens, next + 1);
            binary(Operator::Equals, left, right)
        },
        Some(Expression::CompoundOp(s)) => match compound_of(s) {
            Some((op, true)) => Ok(
                (make_compound_op(left, op, ExprNode::NumLiteral(Number::one())), next + 1),
            ),
            Some((op, false)) => match read_line(tokens, next + 1) {
                Ok((right, end)) => Ok((make_compound_op(left, op, right), end)),
                Err(e) => Err(e),
            },
            None => Err(ParseError::UnknownOperator(Expression::CompoundOp(s.clone()))),
        },
        _ => Ok((left, next)),
    }
}

/// Reads an operand: a literal, a name, a call, an index, an array, or an
/// expression in parentheses.
pub fn expr(tokens: &Vec<Expression>, at: usize) -> (r: Result<(ExprNode, usize), ParseError>)
    ensures
        agrees(r, grammar::expr(lexemes(tokens@), at as int)),
        r is Ok ==> at < r->Ok_0.1 <= tokens.len(),
    decreases tokens.len() - at, 1int,
{
    match peek(tokens, at) {
        Some(Expression::Number(_)) => Ok((make_node(&tokens[at]), at + 1)),
        Some(Expression::Word(_)) => Ok((make_node(&tokens[at]), at + 1)),
        Some(Expression::Key(w)) => {
            if is_text(w, "true") {
                Ok((ExprNode::BoolLiteral(true), at + 1))
            } else if is_text(w, "false") {
                Ok((ExprNode::BoolLiteral(false), at + 1))
            } else if is_text(w, "new") {
                match peek(tokens, at + 1) {
                    Some(Expression::Ident(class)) => {
                        if !is_at(tokens, at + 2, &Expression::Lparen) {
                            Err(missing_at(Expression::Lparen, tokens, at + 2))
                        } else {
                            match find_params(tokens, at + 3) {
                                Ok((args, next)) => Ok((ExprNode::New(class.clone(), args), next)),
                                Err(e) => Err(e),
                            }
                        }
                    },
                    _ => Err(missing_at(Expression::Ident(String::new()), tokens, at + 1)),
                }
            } else {
                Err(unexpected_at(tokens, at))
            }
        },
        Some(Expression::Ident(n)) => match peek(tokens, at + 1) {
            Some(Expression::Lparen) => match find_params(tokens, at + 2) {
                Ok((args, next)) => Ok((ExprNode::Call(n.clone(), args), next)),
                Err(e) => Err(e),
            },
            Some(Expression::Lbracket) => index_array(tokens, at + 1, ExprNode::Name(n.clone())),
            _ => Ok((make_node(&tokens[at]), at + 1)),
        },
        Some(Expression::Lparen) => match read_line(tokens, at + 1) {
            Ok((inner, next)) => {
                if is_at(tokens, next, &Expression::Rparen) {
                    Ok((ExprNode::Statement(Box::new(inner)), next + 1))
                } else {
                    Err(missing_at(Expression::Rparen, tokens, next))
                }
            },
            Err(e) => Err(e),
        },
        Some(Expression::Lbracket) => match make_array(tokens, at + 1) {
            Ok((items, next)) => Ok((ExprNode::Array(items), next)),
            Err(e) => Err(e),
        },
        _ => Err(unexpected_at(tokens, at)),
    }
}

/// Reads the indices behind a name, from an opening bracket on.
pub fn index_array(tokens: &Vec<Expression>, at: usize, base: ExprNode) -> (r: Result<
    (ExprNode, usize),
    ParseError,
>)
    ensures
        agrees(r, grammar::index_array(lexemes(tokens@), at as int, base@)),
        r is Ok ==> at < r->Ok_0.1 <= tokens.len(),
    decreases tokens.len() - at, 3int,
{
    if !is_at(tokens, at, &Expression::Lbracket) {
        return Err(missing_at(Expression::Lbracket, tokens, at));
    }
    match read_line(tokens, at + 1) {
        Err(e) => Err(e),
        Ok((index, next)) => {
            if !is_at(tokens, next, &Expression::Rbracket) {
                Err(missing_at(Expression::Rbracket, tokens, next))
            } else {
                let node = ExprNode::Index(Box::new(base), Box::new(index));
                if is_at(tokens, next + 1, &Expression::Lbracket) {
                    index_array(tokens, next + 1, node)
                } else {
                    Ok((node, next + 1))
                }
            }
        },
    }
}

/// Reads the expressions of a list up to the token `close`.
pub fn listed(tokens: &Vec<Expression>, at: usize, close: &Expression, call: bool) -> (r: Result<
    (Vec<ExprNode>, usize),
    ParseError,
>)
    ensures
        agree(r, grammar::listed(lexemes(tokens@), at as int, Seq::empty(), close@, call)),
        r is Ok ==> at < r->Ok_0.1 <= tokens.len(),
    decreases tokens.len() - at, 3int,
{
    let mut items: Vec<ExprNode> = Vec::new();
    let mut i: usize = at;
    assert(trees(items@) =~= Seq::<Tree>::empty());
    loop
        invariant
            at <= i <= tokens.len() || (i == at && at > tokens.len()),
            grammar::listed(lexemes(tokens@), i as int, trees(items@), close@, call)
                == grammar::listed(lexemes(tokens@), at as int, Seq::empty(), close@, call),
        decreases tokens.len() - i,
    {
        if is_at(tokens, i, close) {
            return Ok((items, i + 1));
        }
        if call && is_at(tokens, i, &Expression::Lbrace) {
            return Err(ParseError::BlockInParameters);
        }
        match read_line(tokens, i) {
            Err(e) => {
                return Err(e);
            },
            Ok((item, next)) => {
                let ghost before = trees(items@);
                items.push(item);
                assert(trees(items@) =~= before.push(item@));
                if is_at(tokens, next, &Expression::Comma) {
                    i = next + 1;
                } else if is_at(tokens, next, close) {
                    return Ok((items, next + 1));
                } else {
                    return Err(missing_at(close.duplicate(), tokens, next));
                }
            },
        }
    }
}

/// Reads the arguments of a call, from the token behind the opening
/// parenthesis on.
pub fn find_params(tokens: &Vec<Expression>, at: usize) -> (r: Result<
    (Vec<ExprNode>, usize),
    ParseError,
>)
    ensures
        agree(r, grammar::find_params(lexemes(tokens@), at as int, Seq::empty())),
        r is Ok ==> at < r->Ok_0.1 <= tokens.len(),
    decreases tokens.len() - at, 4int,
{
    listed(tokens, at, &Expression::Rparen, true)
}

/// Reads the items of an array, from the token behind the opening bracket
/// on.
pub fn make_array(tokens: &Vec<Expression>, at: usize) -> (r: Result<
    (Vec<ExprNode>, usize),
    ParseError,
>)
    ensures
        agree(r, grammar::make_array(lexemes(tokens@), at as int, Seq::empty())),
        r is Ok ==> at < r->Ok_0.1 <= tokens.len(),
    decreases tokens.len() - at, 4int,
{
    listed(tokens, at, &Expression::Rbracket, false)
}

} // verus!
