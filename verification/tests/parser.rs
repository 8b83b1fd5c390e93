use gem::lexer::{run, Expression};
use gem::number::Number;
use gem::parser::{parse, read_line, ExprNode, Operator, ParseError};

fn num(x: f32) -> ExprNode {
    ExprNode::NumLiteral(Number::from_bits(x.to_bits()))
}

fn name(n: &str) -> ExprNode {
    ExprNode::Name(n.to_owned())
}

fn op(o: Operator, l: ExprNode, r: ExprNode) -> ExprNode {
    ExprNode::Operation(o, Box::new(l), Box::new(r))
}

fn tree(source: &str) -> ExprNode {
    parse(run(source).unwrap()).unwrap()
}

fn statements(source: &str) -> Vec<ExprNode> {
    match tree(source) {
        ExprNode::Block(v) => v,
        other => panic!("no block: {:?}", other),
    }
}

#[test]
fn ast_generation() {
    let dummy = vec![
        Expression::Key("fn".to_owned()),
        Expression::Ident("test".to_owned()),
        Expression::Lparen,
        Expression::Rparen,
        Expression::Lbrace,
        Expression::Key("print".to_owned()),
        Expression::Word("hello world".to_owned()),
        Expression::Semicolon,
        Expression::Rbrace,
        Expression::EOF,
    ];

    let expected = ExprNode::Block(vec![ExprNode::Func(
        "test".to_owned(),
        vec![],
        Box::new(ExprNode::Block(vec![ExprNode::Call(
            "print".to_owned(),
            vec![ExprNode::StrLiteral("hello world".to_owned())],
        )])),
    )]);

    assert_eq!(parse(dummy), Ok(expected));
}

#[test]
fn operators_group_to_the_right_without_precedence() {
    assert_eq!(
        statements("2 * 3 + 4;"),
        vec![op(Operator::Mul, num(2.0), op(Operator::Add, num(3.0), num(4.0)))]
    );
    assert_eq!(
        statements("1 - 2 - 3;"),
        vec![op(Operator::Sub, num(1.0), op(Operator::Sub, num(2.0), num(3.0)))]
    );
    assert_eq!(
        statements("a = b < c;"),
        vec![op(Operator::Equals, name("a"), op(Operator::Less, name("b"), name("c")))]
    );
}

#[test]
fn compound_assignment_is_rewritten() {
    assert_eq!(
        statements("x += 2;"),
        vec![op(Operator::Equals, name("x"), op(Operator::Add, name("x"), num(2.0)))]
    );
    assert_eq!(
        statements("x /= y; x++; x--;"),
        vec![
            op(Operator::Equals, name("x"), op(Operator::Div, name("x"), name("y"))),
            op(Operator::Equals, name("x"), op(Operator::Add, name("x"), num(1.0))),
            op(Operator::Equals, name("x"), op(Operator::Sub, name("x"), num(1.0))),
        ]
    );
}

#[test]
fn function_definitions_and_calls() {
    assert_eq!(
        statements("fn add(a, b) { return a + b; } add(1, 2);"),
        vec![
            ExprNode::Func(
                "add".to_owned(),
                vec!["a".to_owned(), "b".to_owned()],
                Box::new(ExprNode::Block(vec![ExprNode::ReturnVal(Box::new(op(
                    Operator::Add,
                    name("a"),
                    name("b")
                )))])),
            ),
            ExprNode::Call("add".to_owned(), vec![num(1.0), num(2.0)]),
        ]
    );
    assert_eq!(
        statements("f(g(1), [2, 3]);"),
        vec![ExprNode::Call(
            "f".to_owned(),
            vec![
                ExprNode::Call("g".to_owned(), vec![num(1.0)]),
                ExprNode::Array(vec![num(2.0), num(3.0)]),
            ]
        )]
    );
}

#[test]
fn a_name_before_a_literal_is_a_call() {
    assert_eq!(
        statements("print \"hello world\";"),
        vec![ExprNode::Call(
            "print".to_owned(),
            vec![ExprNode::StrLiteral("hello world".to_owned())]
        )]
    );
}

#[test]
fn loops_and_conditionals() {
    assert_eq!(
        statements("while (i < 5) { i = i + 1; }"),
        vec![ExprNode::Loop(
            "while".to_owned(),
            Box::new(op(Operator::Less, name("i"), num(5.0))),
            Box::new(ExprNode::Block(vec![op(
                Operator::Equals,
                name("i"),
                op(Operator::Add, name("i"), num(1.0))
            )])),
        )]
    );
    assert_eq!(
        statements("for (; i < 5; ) { }"),
        vec![ExprNode::Loop(
            "for".to_owned(),
            Box::new(ExprNode::ForLoopDec(
                Box::new(ExprNode::Illegal(None)),
                Box::new(op(Operator::Less, name("i"), num(5.0))),
                Box::new(ExprNode::Illegal(None)),
            )),
            Box::new(ExprNode::Block(vec![])),
        )]
    );
    assert_eq!(
        statements("if (a) { } elif (b) { } else { x = 1; }"),
        vec![ExprNode::IfStatement(
            Box::new(name("a")),
            Box::new(ExprNode::Block(vec![])),
            Box::new(ExprNode::IfStatement(
                Box::new(name("b")),
                Box::new(ExprNode::Block(vec![])),
                Box::new(ExprNode::Block(vec![op(Operator::Equals, name("x"), num(1.0))])),
            )),
        )]
    );
}

#[test]
fn arrays_and_indices() {
    assert_eq!(
        statements("a = [1, [2, 3], \"x\"];"),
        vec![op(
            Operator::Equals,
            name("a"),
            ExprNode::Array(vec![
                num(1.0),
                ExprNode::Array(vec![num(2.0), num(3.0)]),
                ExprNode::StrLiteral("x".to_owned()),
            ])
        )]
    );
    assert_eq!(
        statements("a[0][1] = b[i + 1];"),
        vec![op(
            Operator::Equals,
            ExprNode::Index(
                Box::new(ExprNode::Index(Box::new(name("a")), Box::new(num(0.0)))),
                Box::new(num(1.0))
            ),
            ExprNode::Index(
                Box::new(name("b")),
                Box::new(op(Operator::Add, name("i"), num(1.0)))
            ),
        )]
    );
}

#[test]
fn classes_and_objects() {
    assert_eq!(
        statements("class P { fn get(self) { return 1; } } p = new P(2);"),
        vec![
            ExprNode::Class(
                "P".to_owned(),
                Box::new(ExprNode::Block(vec![ExprNode::Func(
                    "get".to_owned(),
                    vec!["self".to_owned()],
                    Box::new(ExprNode::Block(vec![ExprNode::ReturnVal(Box::new(num(1.0)))])),
                )])),
            ),
            op(Operator::Equals, name("p"), ExprNode::New("P".to_owned(), vec![num(2.0)])),
        ]
    );
}

#[test]
fn read_line_stops_before_what_is_no_operator() {
    let tokens = run("a + (b * 2), c").unwrap();
    assert_eq!(
        read_line(&tokens, 0),
        Ok((
            op(
                Operator::Add,
                name("a"),
                ExprNode::Statement(Box::new(op(Operator::Mul, name("b"), num(2.0))))
            ),
            7
        ))
    );
}

#[test]
fn malformed_constructs_are_errors() {
    let err = |s: &str| parse(run(s).unwrap()).unwrap_err();
    assert_eq!(
        err("while i < 5 { }"),
        ParseError::Expected {
            expected: Expression::Lparen,
            found: Some(Expression::Ident("i".to_owned()))
        }
    );
    assert_eq!(
        err("fn (a) { }"),
        ParseError::Expected {
            expected: Expression::Ident(String::new()),
            found: Some(Expression::Lparen)
        }
    );
    assert_eq!(
        err("f(1, 2"),
        ParseError::Expected { expected: Expression::Rparen, found: None }
    );
    assert_eq!(err("f({ x = 1; });"), ParseError::BlockInParameters);
    assert_eq!(err("else { }"), ParseError::UnknownKeyword("else".to_owned()));
    assert_eq!(err("x = ;"), ParseError::Unexpected(Some(Expression::Semicolon)));
    assert_eq!(err("x = 1 ! 2;"), ParseError::UnknownOperator(Expression::Operator('!')));
    assert_eq!(
        err("a = [1, 2;"),
        ParseError::Expected {
            expected: Expression::Rbracket,
            found: Some(Expression::Semicolon)
        }
    );
}

#[test]
fn leaves_give_their_inner_value() {
    assert_eq!(ExprNode::StrLiteral("s".to_owned()).inner(), "s");
    assert_eq!(num(2.5).inner(), "2.5");
    assert_eq!(ExprNode::BoolLiteral(true).inner(), "true");
    assert_eq!(name("n").inner(), "n");
    let node: gem::parser::Node = name("n");
    assert!(node.same(&name("n")));
    assert!(!node.same(&name("m")));
    assert_eq!(node.duplicate(), node);
}

#[test]
fn a_sign_at_the_beginning_has_zero_on_its_left() {
    assert_eq!(
        statements("x = -5;"),
        vec![op(Operator::Equals, name("x"), op(Operator::Sub, num(0.0), num(5.0)))]
    );
    assert_eq!(
        statements("< 5;"),
        vec![op(Operator::Less, ExprNode::Illegal(None), num(5.0))]
    );
}
