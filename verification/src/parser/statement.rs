//! Statements and blocks.

use crate::lexer::{is_text, lexemes, Expression};
use crate::parser::error::{agrees, is_at, missing_at, peek, ParseError};
use crate::parser::expression::read_line;
use crate::parser::grammar;
use crate::parser::grammar::Flaw;
use crate::parser::node::{texts, trees, ExprNode, Tree};
use vstd::prelude::*;

verus! {

/// Tells whether a token may begin an argument that is written without
/// parentheses behind a name.
pub fn begins_argument(t: Option<&Expression>) -> (b: bool)
    ensures
        b == grammar::begins_argument(
            match t {
                Some(e) => Some(e@),
                None => None,
            },
        ),
{
    match t {
        Some(Expression::Word(_)) => true,
        Some(Expression::Number(_)) => true,
        Some(Expression::Ident(_)) => true,
        Some(Expression::Key(w)) => is_text(w, "true") || is_text(w, "false"),
        _ => false,
    }
}

/// Reads the parameter names of a function definition, up to the closing
/// parenthesis.
pub fn parameters(tokens: &Vec<Expression>, at: usize) -> (r: Result<
    (Vec<String>, usize),
    ParseError,
>)
    ensures
        match r {
            Ok((names, next)) => grammar::parameters(lexemes(tokens@), at as int, Seq::empty())
                == (Ok::<Seq<Seq<char>>, Flaw>(texts(names@)), next as int) && at < next
                <= tokens.len(),
            Err(e) => grammar::parameters(lexemes(tokens@), at as int, Seq::empty()).0 == Err::<
                Seq<Seq<char>>,
                Flaw,
            >(e@),
        },
{
    let mut names: Vec<String> = Vec::new();
    let mut i: usize = at;
    assert(texts(names@) =~= Seq::<Seq<char>>::empty());
    loop
        invariant
            at <= i,
            grammar::parameters(lexemes(tokens@), i as int, texts(names@)) == grammar::parameters(
                lexemes(tokens@),
                at as int,
                Seq::empty(),
            ),
        decreases tokens.len() - i,
    {
        match peek(tokens, i) {
            Some(Expression::Rparen) => {
                return Ok((names, i + 1));
            },
            Some(Expression::Comma) => {},
            Some(Expression::Ident(n)) => {
                let ghost before = texts(names@);
                names.push(n.clone());
                assert(texts(names@) =~= before.push(n@));
            },
            _ => {
                return Err(missing_at(Expression::Rparen, tokens, i));
            },
        }
        i += 1;
    }
}

/// Generates the node of a function definition, from the name on.
pub fn def_func(tokens: &Vec<Expression>, at: usize) -> (r: Result<(ExprNode, usize), ParseError>)
    ensures
        agrees(r, grammar::def_func(lexemes(tokens@), at as int)),
        r is Ok ==> at < r->Ok_0.1 <= tokens.len(),
    decreases tokens.len() - at, 3int,
{
    match peek(tokens, at) {
        Some(Expression::Ident(name)) => {
            if !is_at(tokens, at + 1, &Expression::Lparen) {
                return Err(missing_at(Expression::Lparen, tokens, at + 1));
            }
            match parameters(tokens, at + 2) {
                Err(e) => Err(e),
                Ok((params, next)) => {
                    if !is_at(tokens, next, &Expression::Lbrace) {
                        Err(missing_at(Expression::Lbrace, tokens, next))
                    } else {
                        match make_block(tokens, next + 1) {
                            Ok((body, end)) => Ok(
                                (ExprNode::Func(name.clone(), params, Box::new(body)), end),
                            ),
                            Err(e) => Err(e),
                        }
                    }
                },
            }
        },
        _ => Err(missing_at(Expression::Ident(String::new()), tokens, at)),
    }
}

/// Generates the node of a class definition, from the name on.
pub fn make_class(tokens: &Vec<Expression>, at: usize) -> (r: Result<(ExprNode, usize), ParseError>)
    ensures
        agrees(r, grammar::make_class(lexemes(tokens@), at as int)),
        r is Ok ==> at < r->Ok_0.1 <= tokens.len(),
    decreases tokens.len() - at, 3int,
{
    match peek(tokens, at) {
        Some(Expression::Ident(name)) => {
            if !is_at(tokens, at + 1, &Expression::Lbrace) {
                return Err(missing_at(Expression::Lbrace, tokens, at + 1));
            }
            match make_block(tokens, at + 2) {
                Ok((body, end)) => Ok((ExprNode::Class(name.clone(), Box::new(body)), end)),
                Err(e) => Err(e),
            }
        },
        _ => Err(missing_at(Expression::Ident(String::new()), tokens, at)),
    }
}

/// Reads a condition in parentheses and a block in braces. Gives the
/// condition, the block and the position behind the block.
pub fn guarded(tokens: &Vec<Expression>, at: usize) -> (r: Result<
    (ExprNode, ExprNode, usize),
    ParseError,
>)
    ensures
        match r {
            Ok((cond, body, next)) => grammar::guarded(lexemes(tokens@), at as int) == (
                grammar::read(body@, next as int),
                cond@,
            ) && at < next <= tokens.len(),
            Err(e) => grammar::guarded(lexemes(tokens@), at as int).0.node == Err::<Tree, Flaw>(
                e@,
            ),
        },
    decreases tokens.len() - at, 3int,
{
    if !is_at(tokens, at, &Expression::Lparen) {
        return Err(missing_at(Expression::Lparen, tokens, at));
    }
    match read_line(tokens, at + 1) {
        Err(e) => Err(e),
        Ok((cond, next)) => {
            if !is_at(tokens, next, &Expression::Rparen) {
                Err(missing_at(Expression::Rparen, tokens, next))
            } else if !is_at(tokens, next + 1, &Expression::Lbrace) {
                Err(missing_at(Expression::Lbrace, tokens, next + 1))
            } else {
                match make_block(tokens, next + 2) {
                    Ok((body, end)) => Ok((cond, body, end)),
                    Err(e) => Err(e),
                }
            }
        },
    }
}

/// Generates the node of a `while` loop, from the opening parenthesis on.
pub fn make_while(tokens: &Vec<Expression>, at: usize) -> (r: Result<(ExprNode, usize), ParseError>)
    ensures
        agrees(r, grammar::make_while(lexemes(tokens@), at as int)),
        r is Ok ==> at < r->Ok_0.1 <= tokens.len(),
    decreases tokens.len() - at, 4int,
{
    match guarded(tokens, at) {
        Ok((cond, body, next)) => Ok(
            (ExprNode::Loop(String::from_str("while"), Box::new(cond), Box::new(body)), next),
        ),
        Err(e) => Err(e),
    }
}

/// Generates the node of an `if`, with the `elif` and `else` behind it, from
/// the opening parenthesis on.
pub fn make_if(tokens: &Vec<Expression>, at: usize) -> (r: Result<(ExprNode, usize), ParseError>)
    ensures
        agrees(r, grammar::make_if(lexemes(tokens@), at as int)),
        r is Ok ==> at < r->Ok_0.1 <= tokens.len(),
    decreases tokens.len() - at, 4int,
{
    match guarded(tokens, at) {
        Err(e) => Err(e),
        Ok((cond, body, next)) => {
            let follows: u8 = match peek(tokens, next) {
                Some(Expression::Key(w)) => if is_text(w, "elif") {
                    1
                } else if is_text(w, "else") {
                    2
                } else {
                    0
                },
                _ => 0,
            };
            let branch = if follows == 1 {
                make_if(tokens, next + 1)
            } else if follows == 2 {
                if !is_at(tokens, next + 1, &Expression::Lbrace) {
                    Err(missing_at(Expression::Lbrace, tokens, next + 1))
                } else {
                    make_block(tokens, next + 2)
                }
            } else {
                Ok((ExprNode::Illegal(None), next))
            };
            match branch {
                Ok((other, end)) => Ok(
                    (ExprNode::IfStatement(Box::new(cond), Box::new(body), Box::new(other)), end),
                ),
                Err(e) => Err(e),
            }
        },
    }
}

/// Generates the node of a `for` loop, from the opening parenthesis on.
pub fn make_for_loop(tokens: &Vec<Expression>, at: usize) -> (r: Result<
    (ExprNode, usize),
    ParseError,
>)
    ensures
        agrees(r, grammar::make_for_loop(lexemes(tokens@), at as int)),
        r is Ok ==> at < r->Ok_0.1 <= tokens.len(),
    decreases tokens.len() - at, 4int,
{
    if !is_at(tokens, at, &Expression::Lparen) {
        return Err(missing_at(Expression::Lparen, tokens, at));
    }
    let first = if is_at(tokens, at + 1, &Expression::Semicolon) {
        Ok((ExprNode::Illegal(None), at + 1))
    } else {
        read_line(tokens, at + 1)
    };
    let (dec, after_dec) = match first {
        Ok(d) => d,
        Err(e) => {
            return Err(e);
        },
    };
    if !is_at(tokens, after_dec, &Expression::Semicolon) {
        return Err(missing_at(Expression::Semicolon, tokens, after_dec));
    }
    let (cond, after_cond) = match read_line(tokens, after_dec + 1) {
        Ok(c) => c,
        Err(e) => {
            return Err(e);
        },
    };
    if !is_at(tokens, after_cond, &Expression::Semicolon) {
        return Err(missing_at(Expression::Semicolon, tokens, after_cond));
    }
    let third = if is_at(tokens, after_cond + 1, &Expression::Rparen) {
        Ok((ExprNode::Illegal(None), after_cond + 1))
    } else {
        read_line(tokens, after_cond + 1)
    };
    let (inc, after_inc) = match third {
        Ok(i) => i,
        Err(e) => {
            return Err(e);
        },
    };
    if !is_at(tokens, after_inc, &Expression::Rparen) {
        return Err(missing_at(Expression::Rparen, tokens, after_inc));
    }
    if !is_at(tokens, after_inc + 1, &Expression::Lbrace) {
        return Err(missing_at(Expression::Lbrace, tokens, after_inc + 1));
    }
    match make_block(tokens, after_inc + 2) {
        Ok((body, end)) => {
            proof {
                reveal_with_fuel(ExprNode::view, 3);
            }
            Ok(
                (
                    ExprNode::Loop(
                        String::from_str("for"),
                        Box::new(
                            ExprNode::ForLoopDec(Box::new(dec), Box::new(cond), Box::new(inc)),
                        ),
                        Box::new(body),
                    ),
                    end,
                ),
            )
        },
        Err(e) => Err(e),
    }
}

/// Handles all the different keywords, from the token behind the keyword on.
pub fn key_word(tokens: &Vec<Expression>, at: usize, word: &String) -> (r: Result<
    (ExprNode, usize),
    ParseError,
>)
    ensures
        agrees(r, grammar::key_word(lexemes(tokens@), at as int, word@)),
        r is Ok ==> at <= r->Ok_0.1 <= tokens.len() || (r->Ok_0.1 == at && at > tokens.len()),
    decreases tokens.len() - at, 5int,
{
    if is_text(word, "fn") {
        def_func(tokens, at)
    } else if is_text(word, "return") {
        let bare = match peek(tokens, at) {
            None => true,
            Some(Expression::Semicolon) => true,
            Some(Expression::Rbrace) => true,
            Some(Expression::EOF) => true,
            _ => false,
        };
        if bare {
            proof {
                reveal_with_fuel(ExprNode::view, 3);
            }
            Ok((ExprNode::ReturnVal(Box::new(ExprNode::Illegal(None))), at))
        } else {
            match read_line(tokens, at) {
                Ok((value, next)) => Ok((ExprNode::ReturnVal(Box::new(value)), next)),
                Err(e) => Err(e),
            }
        }
    } else if is_text(word, "while") {
        make_while(tokens, at)
    } else if is_text(word, "for") {
        make_for_loop(tokens, at)
    } else if is_text(word, "if") {
        make_if(tokens, at)
    } else if is_text(word, "class") {
        make_class(tokens, at)
    } else if is_text(word, "print") || is_text(word, "println") {
        match read_line(tokens, at) {
            Ok((arg, next)) => {
                let mut args: Vec<ExprNode> = Vec::new();
                args.push(arg);
                assert(trees(args@) =~= seq![arg@]);
                Ok((ExprNode::Call(word.clone(), args), next))
            },
            Err(e) => Err(e),
        }
    } else {
        Err(ParseError::UnknownKeyword(word.clone()))
    }
}

/// Reads one statement.
pub fn statement(tokens: &Vec<Expression>, at: usize) -> (r: Result<(ExprNode, usize), ParseError>)
    ensures
        agrees(r, grammar::statement(lexemes(tokens@), at as int)),
        r is Ok ==> at < r->Ok_0.1 <= tokens.len(),
    decreases tokens.len() - at, 6int,
{
    match peek(tokens, at) {
        Some(Expression::Key(w)) => {
            if is_text(w, "true") || is_text(w, "false") || is_text(w, "new") {
                read_line(tokens, at)
            } else {
                key_word(tokens, at + 1, w)
            }
        },
        Some(Expression::Lbrace) => make_block(tokens, at + 1),
        Some(Expression::Ident(n)) => {
            if begins_argument(peek(tokens, at + 1)) {
                match read_line(tokens, at + 1) {
                    Ok((arg, next)) => {
                        let mut args: Vec<ExprNode> = Vec::new();
                        args.push(arg);
                        assert(trees(args@) =~= seq![arg@]);
                        Ok((ExprNode::Call(n.clone(), args), next))
                    },
                    Err(e) => Err(e),
                }
            } else {
                read_line(tokens, at)
            }
        },
        _ => read_line(tokens, at),
    }
}

/// Loops through the tokens to generate all of the nodes in a block of code.
pub fn make_block(tokens: &Vec<Expression>, at: usize) -> (r: Result<(ExprNode, usize), ParseError>)
    ensures
        agrees(r, grammar::make_block(lexemes(tokens@), at as int)),
        r is Ok ==> at <= r->Ok_0.1 <= tokens.len() || (r->Ok_0.1 == at && at > tokens.len()),
        r is Ok && at < tokens.len() ==> at < r->Ok_0.1,
    decreases tokens.len() - at, 8int,
{
    let mut root: Vec<ExprNode> = Vec::new();
    let mut i: usize = at;
    assert(trees(root@) =~= Seq::<Tree>::empty());
    while i < tokens.len()
        invariant
            at <= i <= tokens.len() || (i == at && at > tokens.len()),
            at < tokens.len() && i >= tokens.len() ==> at < i,
            grammar::statements(lexemes(tokens@), i as int, trees(root@)) == grammar::statements(
                lexemes(tokens@),
                at as int,
                Seq::empty(),
            ),
        decreases tokens.len() - i,
    {
        match &tokens[i] {
            Expression::EOF => {
                return Ok((ExprNode::Block(root), i + 1));
            },
            Expression::Rbrace => {
                return Ok((ExprNode::Block(root), i + 1));
            },
            Expression::Semicolon => {
                i += 1;
            },
            _ => match statement(tokens, i) {
                Err(e) => {
                    return Err(e);
                },
                Ok((node, next)) => {
                    let ghost before = trees(root@);
                    root.push(node);
                    assert(trees(root@) =~= before.push(node@));
                    i = next;
                },
            },
        }
    }
    Ok((ExprNode::Block(root), i))
}

/// Starts the parser: the tree of a whole sequence of tokens.
pub fn parse(tokens: Vec<Expression>) -> (r: Result<ExprNode, ParseError>)
    ensures
        match r {
            Ok(node) => grammar::tree_of(lexemes(tokens@)) == Ok::<Tree, Flaw>(node@),
            Err(e) => grammar::tree_of(lexemes(tokens@)) == Err::<Tree, Flaw>(e@),
        },
{
    match make_block(&tokens, 0) {
        Ok((node, _)) => Ok(node),
        Err(e) => Err(e),
    }
}

} // verus!
