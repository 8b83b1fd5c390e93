use gem::lexer::{run, Expression, LexError};
use gem::number::{Number, Order};

fn num(x: f32) -> Number {
    Number::from_bits(x.to_bits())
}

#[test]
fn token_generation() {
    let dummy = "fn test() { print \"hello world\"; }";
    let expected = vec![
        Expression::Key("fn".to_owned()),
        Expression::Ident("test".to_owned()),
        Expression::Lparen,
        Expression::Rparen,
        Expression::Lbrace,
        Expression::Ident("print".to_owned()),
        Expression::Word("hello world".to_owned()),
        Expression::Semicolon,
        Expression::Rbrace,
    ];

    assert_eq!(expected, run(dummy).unwrap());
}

#[test]
fn number_literals_are_read() {
    let tokens = run("x = 12.5; y = 7").unwrap();
    assert_eq!(
        tokens,
        vec![
            Expression::Ident("x".to_owned()),
            Expression::Equal,
            Expression::Number(num(12.5)),
            Expression::Semicolon,
            Expression::Ident("y".to_owned()),
            Expression::Equal,
            Expression::Number(num(7.0)),
        ]
    );
}

#[test]
fn malformed_number_is_an_error() {
    assert_eq!(run("x = 1.2.3;"), Err(LexError { text: "1.2.3".to_owned() }));
    assert_eq!(run("12abc"), Err(LexError { text: "12abc".to_owned() }));
}

#[test]
fn two_character_operators() {
    let tokens = run("a += 1; b++; c <= d; e != f; g == h; i--; j /= 2; k *= 3; l -= 4; m >= n").unwrap();
    let ops: Vec<Expression> = tokens
        .into_iter()
        .filter(|t| matches!(t, Expression::CompoundOp(_) | Expression::BoolOp(_)))
        .collect();
    assert_eq!(
        ops,
        vec![
            Expression::CompoundOp("+=".to_owned()),
            Expression::CompoundOp("++".to_owned()),
            Expression::BoolOp("<=".to_owned()),
            Expression::BoolOp("!=".to_owned()),
            Expression::BoolOp("==".to_owned()),
            Expression::CompoundOp("--".to_owned()),
            Expression::CompoundOp("/=".to_owned()),
            Expression::CompoundOp("*=".to_owned()),
            Expression::CompoundOp("-=".to_owned()),
            Expression::BoolOp(">=".to_owned()),
        ]
    );
}

#[test]
fn comments_run_to_the_end_of_the_line() {
    let tokens = run("a // b c d\n/ e").unwrap();
    assert_eq!(
        tokens,
        vec![
            Expression::Ident("a".to_owned()),
            Expression::Operator('/'),
            Expression::Ident("e".to_owned()),
        ]
    );
}

#[test]
fn arithmetic_on_numbers() {
    assert_eq!(num(2.0).plus(&num(12.0)), num(14.0));
    assert_eq!(num(2.0).minus(&num(12.0)), num(-10.0));
    assert_eq!(num(3.0).times(&num(4.0)), num(12.0));
    assert_eq!(num(10.0).over(&num(4.0)), num(2.5));
    assert_eq!(num(1.0).over(&num(3.0)), num(1.0 / 3.0));
    assert_eq!(num(0.1).plus(&num(0.2)), num(0.1 + 0.2));
}

#[test]
fn numbers_compare_and_truncate() {
    assert_eq!(num(1.0).compare(&num(2.0)), Order::Less);
    assert_eq!(num(-1.0).compare(&num(-2.0)), Order::Greater);
    assert_eq!(num(0.0).compare(&num(-0.0)), Order::Equal);
    assert_eq!(num(f32::NAN).compare(&num(1.0)), Order::Unordered);
    assert_eq!(num(f32::INFINITY).compare(&num(3.0e38)), Order::Greater);
    assert_eq!(num(2.9).to_index(), 2);
    assert_eq!(num(-3.0).to_index(), 0);
    assert_eq!(num(0.99).to_index(), 0);
    assert_eq!(num(16777216.0).to_index(), 16777216);
    assert_eq!(num(1.0e10).to_index(), 1.0e10f32 as usize);
    assert_eq!(num(f32::NAN).to_index(), 0);
    assert_eq!(num(f32::INFINITY).to_index(), usize::MAX);
}

#[test]
fn numbers_are_written_as_the_shortest_decimal() {
    for x in [0.0f32, 1.0, 14.0, 0.5, 0.1, 2.5, 1.0 / 3.0, 100000.0, 16777216.0, 123456.79, 0.001, -7.25] {
        assert_eq!(num(x).to_text(), format!("{}", x));
    }
    assert_eq!(num(f32::NAN).to_text(), "NaN");
    assert_eq!(num(f32::INFINITY).to_text(), "inf");
    assert_eq!(num(f32::NEG_INFINITY).to_text(), "-inf");
}

#[test]
fn numerals_are_read_as_the_nearest_value() {
    for s in ["0", "1", "14", "0.5", "0.1", "3.14159", "1.", "16777217", "123456789.125"] {
        let chars: Vec<char> = s.chars().collect();
        assert_eq!(Number::from_chars(&chars), Some(num(s.parse::<f32>().unwrap())));
    }
    let bad: Vec<char> = "1e5".chars().collect();
    assert_eq!(Number::from_chars(&bad), None);
}

#[test]
fn strings_are_taken_as_they_stand() {
    assert_eq!(
        run("\"a // b\" \"\\n\" \"never closed").unwrap(),
        vec![Expression::Word("a // b".to_owned()), Expression::Word("\\n".to_owned())]
    );
}

#[test]
fn names_and_keywords() {
    let tokens = run("fn return true false while for if elif else class new print x1 _y").unwrap();
    let keys: Vec<bool> = tokens.iter().map(|t| matches!(t, Expression::Key(_))).collect();
    assert_eq!(
        keys,
        vec![true, true, true, true, true, true, true, true, true, true, true, false, false, false]
    );
    assert_eq!(tokens[12], Expression::Ident("x1".to_owned()));
    assert_eq!(run("a.b").unwrap(), vec![
        Expression::Ident("a".to_owned()),
        Expression::Operator('.'),
        Expression::Ident("b".to_owned()),
    ]);
    assert_eq!(run("a<b").unwrap(), vec![
        Expression::Ident("a".to_owned()),
        Expression::BoolOp("<".to_owned()),
        Expression::Ident("b".to_owned()),
    ]);
}

#[test]
fn tokens_are_described() {
    assert_eq!(Expression::Ident("x".to_owned()).describe(), "Identifier: x");
    assert_eq!(Expression::Number(num(2.5)).describe(), "Number: 2.5");
    assert_eq!(Expression::Operator('+').describe(), "Operator: +");
    assert_eq!(Expression::Lbrace.describe(), "Symbol: {");
}

#[test]
fn the_lexer_keeps_its_text() {
    let mut lexer = gem::lexer::Lexer::new();
    assert_eq!(lexer.tokenize("a b"), Ok(vec![
        Expression::Ident("a".to_owned()),
        Expression::Ident("b".to_owned()),
    ]));
    assert_eq!(lexer.chars, vec!['a', ' ', 'b']);
}
