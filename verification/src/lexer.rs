//! The tokenizer: one pass over the source text, from left to right, with one
//! character of lookahead for the two-character operators.

use crate::number::Number;
use crate::text::{chars_of, text_between};
use vstd::prelude::*;

verus! {

/// A token of the language.
#[derive(Debug, Clone, PartialEq)]
pub enum Expression {
    Ident(String),
    Number(Number),
    Word(String),
    Key(String),
    Operator(char),
    CompoundOp(String),
    BoolOp(String),
    Equal,
    Rparen,
    Lparen,
    Rbrace,
    Lbrace,
    Lbracket,
    Rbracket,
    Semicolon,
    Comma,
    EOF,
}

/// What an [`Expression`] stands for, with text as sequences of characters.
pub enum Lexeme {
    Ident(Seq<char>),
    Number(Number),
    Word(Seq<char>),
    Key(Seq<char>),
    Operator(char),
    CompoundOp(Seq<char>),
    BoolOp(Seq<char>),
    Equal,
    Rparen,
    Lparen,
    Rbrace,
    Lbrace,
    Lbracket,
    Rbracket,
    Semicolon,
    Comma,
    EOF,
}

impl View for Expression {
    type V = Lexeme;

    open spec fn view(&self) -> Lexeme {
        match self {
            Expression::Ident(s) => Lexeme::Ident(s@),
            Expression::Number(n) => Lexeme::Number(*n),
            Expression::Word(s) => Lexeme::Word(s@),
            Expression::Key(s) => Lexeme::Key(s@),
            Expression::Operator(c) => Lexeme::Operator(*c),
            Expression::CompoundOp(s) => Lexeme::CompoundOp(s@),
            Expression::BoolOp(s) => Lexeme::BoolOp(s@),
            Expression::Equal => Lexeme::Equal,
            Expression::Rparen => Lexeme::Rparen,
            Expression::Lparen => Lexeme::Lparen,
            Expression::Rbrace => Lexeme::Rbrace,
            Expression::Lbrace => Lexeme::Lbrace,
            Expression::Lbracket => Lexeme::Lbracket,
            Expression::Rbracket => Lexeme::Rbracket,
            Expression::Semicolon => Lexeme::Semicolon,
            Expression::Comma => Lexeme::Comma,
            Expression::EOF => Lexeme::EOF,
        }
    }
}

impl Expression {
    /// A copy of the token.
    pub fn duplicate(&self) -> (r: Expression)
        ensures
            r@ == self@,
    {
        match self {
            Expression::Ident(s) => Expression::Ident(s.clone()),
            Expression::Number(n) => Expression::Number(*n),
            Expression::Word(s) => Expression::Word(s.clone()),
            Expression::Key(s) => Expression::Key(s.clone()),
            Expression::Operator(c) => Expression::Operator(*c),
            Expression::CompoundOp(s) => Expression::CompoundOp(s.clone()),
            Expression::BoolOp(s) => Expression::BoolOp(s.clone()),
            Expression::Equal => Expression::Equal,
            Expression::Rparen => Expression::Rparen,
            Expression::Lparen => Expression::Lparen,
            Expression::Rbrace => Expression::Rbrace,
            Expression::Lbrace => Expression::Lbrace,
            Expression::Lbracket => Expression::Lbracket,
            Expression::Rbracket => Expression::Rbracket,
            Expression::Semicolon => Expression::Semicolon,
            Expression::Comma => Expression::Comma,
            Expression::EOF => Expression::EOF,
        }
    }
}

/// What a token is called in a message: its kind, and its text where it has
/// one.
pub open spec fn described(t: Lexeme) -> Seq<char> {
    match t {
        Lexeme::Ident(s) => "Identifier: "@ + s,
        Lexeme::Number(n) => "Number: "@ + n.text(),
        Lexeme::Word(s) => "String: "@ + s,
        Lexeme::Key(s) => "Keyword: "@ + s,
        Lexeme::Operator(c) => "Operator: "@.push(c),
        Lexeme::CompoundOp(s) => "Operator: "@ + s,
        Lexeme::BoolOp(s) => "Operator: "@ + s,
        Lexeme::Equal => "Operator: ="@,
        Lexeme::Rparen => "Symbol: )"@,
        Lexeme::Lparen => "Symbol: ("@,
        Lexeme::Rbrace => "Symbol: }"@,
        Lexeme::Lbrace => "Symbol: {"@,
        Lexeme::Lbracket => "Symbol: ["@,
        Lexeme::Rbracket => "Symbol: ]"@,
        Lexeme::Semicolon => "Symbol: ;"@,
        Lexeme::Comma => "Symbol: ,"@,
        Lexeme::EOF => "End of input"@,
    }
}

impl Expression {
    /// The token as it is called in a message.
    pub fn describe(&self) -> (text: String)
        ensures
            text@ == described(self@),
    {
        match self {
            Expression::Ident(s) => String::from_str("Identifier: ").concat(s.as_str()),
            Expression::Number(n) => {
                let t = n.to_text();
                String::from_str("Number: ").concat(t.as_str())
            },
            Expression::Word(s) => String::from_str("String: ").concat(s.as_str()),
            Expression::Key(s) => String::from_str("Keyword: ").concat(s.as_str()),
            Expression::Operator(c) => {
                let mut out = String::from_str("Operator: ");
                out.push(*c);
                out
            },
            Expression::CompoundOp(s) => String::from_str("Operator: ").concat(s.as_str()),
            Expression::BoolOp(s) => String::from_str("Operator: ").concat(s.as_str()),
            Expression::Equal => String::from_str("Operator: ="),
            Expression::Rparen => String::from_str("Symbol: )"),
            Expression::Lparen => String::from_str("Symbol: ("),
            Expression::Rbrace => String::from_str("Symbol: }"),
            Expression::Lbrace => String::from_str("Symbol: {"),
            Expression::Lbracket => String::from_str("Symbol: ["),
            Expression::Rbracket => String::from_str("Symbol: ]"),
            Expression::Semicolon => String::from_str("Symbol: ;"),
            Expression::Comma => String::from_str("Symbol: ,"),
            Expression::EOF => String::from_str("End of input"),
        }
    }

    /// Tells whether two tokens stand for the same thing.
    pub fn same(&self, other: &Expression) -> (b: bool)
        ensures
            b == (self@ == other@),
    {
        match (self, other) {
            (Expression::Ident(a), Expression::Ident(b)) => *a == *b,
            (Expression::Number(a), Expression::Number(b)) => a.bits == b.bits,
            (Expression::Word(a), Expression::Word(b)) => *a == *b,
            (Expression::Key(a), Expression::Key(b)) => *a == *b,
            (Expression::Operator(a), Expression::Operator(b)) => *a == *b,
            (Expression::CompoundOp(a), Expression::CompoundOp(b)) => *a == *b,
            (Expression::BoolOp(a), Expression::BoolOp(b)) => *a == *b,
            (Expression::Equal, Expression::Equal) => true,
            (Expression::Rparen, Expression::Rparen) => true,
            (Expression::Lparen, Expression::Lparen) => true,
            (Expression::Rbrace, Expression::Rbrace) => true,
            (Expression::Lbrace, Expression::Lbrace) => true,
            (Expression::Lbracket, Expression::Lbracket) => true,
            (Expression::Rbracket, Expression::Rbracket) => true,
            (Expression::Semicolon, Expression::Semicolon) => true,
            (Expression::Comma, Expression::Comma) => true,
            (Expression::EOF, Expression::EOF) => true,
            _ => false,
        }
    }
}

/// The tokens that a sequence of [`Expression`]s stands for.
pub open spec fn lexemes(tokens: Seq<Expression>) -> Seq<Lexeme> {
    Seq::new(tokens.len(), |i: int| tokens[i]@)
}

/// A malformed number literal, with the text that was found.
#[derive(Debug, Clone, PartialEq)]
pub struct LexError {
    pub text: String,
}

impl LexError {
    /// The message of the error.
    pub fn message(&self) -> (m: String)
        ensures
            m@ == "Malformed number: "@ + self.text@,
    {
        let mut m = String::from_str("Malformed number: ");
        m.append(self.text.as_str());
        m
    }
}

/// What the tokenizer is reading at a position of the source.
#[derive(Debug, Clone, Copy, PartialEq, Eq, Structural)]
pub enum State {
    Nothing,
    EmString,
    EmName,
    EmNumber,
    Comment,
}

/// The characters that separate tokens and are dropped.
pub open spec fn is_space(c: char) -> bool {
    c == ' ' || c == '\t' || c == '\n' || c == '\r'
}

/// The characters that are tokens of their own, or begin one of two characters.
pub open spec fn is_mark(c: char) -> bool {
    c == '+' || c == '-' || c == '*' || c == '/' || c == '<' || c == '>' || c == '!' || c == '='
        || c == '(' || c == ')' || c == '{' || c == '}' || c == '[' || c == ']' || c == ';' || c
        == ',' || c == '.'
}

/// The characters that make up names: all that have no other part to play.
/// A digit counts as one where it does not begin the run.
pub open spec fn is_word(c: char) -> bool {
    !is_space(c) && !is_mark(c) && c != '"'
}

/// The reserved words.
pub open spec fn is_keyword(text: Seq<char>) -> bool {
    text == "fn"@ || text == "return"@ || text == "true"@ || text == "false"@ || text == "while"@
        || text == "for"@ || text == "if"@ || text == "elif"@ || text == "else"@ || text
        == "class"@ || text == "new"@
}

/// The state that the tokenizer enters on the character at `at`.
pub open spec fn state_at(src: Seq<char>, at: int) -> State
    recommends
        0 <= at < src.len(),
{
    let c = src[at];
    if c == '"' {
        State::EmString
    } else if c == '/' && at + 1 < src.len() && src[at + 1] == '/' {
        State::Comment
    } else if is_space(c) || is_mark(c) {
        State::Nothing
    } else if '0' <= c <= '9' {
        State::EmNumber
    } else {
        State::EmName
    }
}

/// The first position from `at` on whose character is `stop`, or the length
/// of the text.
pub open spec fn find(src: Seq<char>, at: int, stop: char) -> int
    decreases src.len() - at,
{
    if at < 0 || at >= src.len() || src[at] == stop {
        at
    } else {
        find(src, at + 1, stop)
    }
}

/// The end of the run of word characters (with decimal points, where `points`
/// is set) that begins at `at`.
pub open spec fn run_end(src: Seq<char>, at: int, points: bool) -> int
    decreases src.len() - at,
{
    if at < 0 || at >= src.len() || !(is_word(src[at]) || (points && src[at] == '.')) {
        at
    } else {
        run_end(src, at + 1, points)
    }
}

/// `find` stays within the text and does not go back.
pub proof fn lemma_find_bounds(src: Seq<char>, at: int, stop: char)
    requires
        0 <= at <= src.len(),
    ensures
        at <= find(src, at, stop) <= src.len(),
    decreases src.len() - at,
{
    if at < src.len() && src[at] != stop {
        lemma_find_bounds(src, at + 1, stop);
    }
}

/// `run_end` stays within the text and does not go back.
pub proof fn lemma_run_bounds(src: Seq<char>, at: int, points: bool)
    requires
        0 <= at <= src.len(),
    ensures
        at <= run_end(src, at, points) <= src.len(),
    decreases src.len() - at,
{
    if at < src.len() && (is_word(src[at]) || (points && src[at] == '.')) {
        lemma_run_bounds(src, at + 1, points);
    }
}

/// The token that the mark at `at` begins, and the number of characters it
/// takes. A slash that begins a comment is not asked for here.
pub open spec fn mark_at(src: Seq<char>, at: int) -> (Option<Lexeme>, int)
    recommends
        0 <= at < src.len(),
{
    let c = src[at];
    let next = if at + 1 < src.len() {
        Some(src[at + 1])
    } else {
        None
    };
    if c == ',' {
        (Some(Lexeme::Comma), 1)
    } else if c == '{' {
        (Some(Lexeme::Lbrace), 1)
    } else if c == '}' {
        (Some(Lexeme::Rbrace), 1)
    } else if c == '(' {
        (Some(Lexeme::Lparen), 1)
    } else if c == ')' {
        (Some(Lexeme::Rparen), 1)
    } else if c == '[' {
        (Some(Lexeme::Lbracket), 1)
    } else if c == ']' {
        (Some(Lexeme::Rbracket), 1)
    } else if c == ';' {
        (Some(Lexeme::Semicolon), 1)
    } else if c == '.' {
        (Some(Lexeme::Operator('.')), 1)
    } else if c == '=' {
        if next == Some('=') {
            (Some(Lexeme::BoolOp("=="@)), 2)
        } else {
            (Some(Lexeme::Equal), 1)
        }
    } else if c == '*' {
        if next == Some('=') {
            (Some(Lexeme::CompoundOp("*="@)), 2)
        } else {
            (Some(Lexeme::Operator('*')), 1)
        }
    } else if c == '+' {
        if next == Some('=') {
            (Some(Lexeme::CompoundOp("+="@)), 2)
        } else if next == Some('+') {
            (Some(Lexeme::CompoundOp("++"@)), 2)
        } else {
            (Some(Lexeme::Operator('+')), 1)
        }
    } else if c == '-' {
        if next == Some('=') {
            (Some(Lexeme::CompoundOp("-="@)), 2)
        } else if next == Some('-') {
            (Some(Lexeme::CompoundOp("--"@)), 2)
        } else {
            (Some(Lexeme::Operator('-')), 1)
        }
    } else if c == '/' {
        if next == Some('=') {
            (Some(Lexeme::CompoundOp("/="@)), 2)
        } else {
            (Some(Lexeme::Operator('/')), 1)
        }
    } else if c == '!' {
        if next == Some('=') {
            (Some(Lexeme::BoolOp("!="@)), 2)
        } else {
            (Some(Lexeme::Operator('!')), 1)
        }
    } else if c == '<' {
        if next == Some('=') {
            (Some(Lexeme::BoolOp("<="@)), 2)
        } else {
            (Some(Lexeme::BoolOp("<"@)), 1)
        }
    } else if c == '>' {
        if next == Some('=') {
            (Some(Lexeme::BoolOp(">="@)), 2)
        } else {
            (Some(Lexeme::BoolOp(">"@)), 1)
        }
    } else {
        (None, 1)
    }
}

/// The token of a run of word characters: a keyword where the text is
/// reserved, an identifier otherwise.
pub open spec fn name_token(text: Seq<char>) -> Lexeme {
    if is_keyword(text) {
        Lexeme::Key(text)
    } else {
        Lexeme::Ident(text)
    }
}

/// `first` put in front of what follows, where what follows is no error.
pub open spec fn then_tokens(first: Seq<Lexeme>, rest: Result<Seq<Lexeme>, Seq<char>>) -> Result<
    Seq<Lexeme>,
    Seq<char>,
> {
    match rest {
        Ok(ts) => Ok(first + ts),
        Err(e) => Err(e),
    }
}

/// The tokens of the text from `at` on, or the text of the first malformed
/// number literal.
///
/// Spaces are dropped. `//` begins a comment that runs to the end of the line.
/// A double quote begins a string that runs to the next double quote, with
/// every character between them taken as it stands; a string that is never
/// closed gives no token and ends the text. A digit begins a run of word
/// characters and decimal points, which must be a plain decimal numeral. Any
/// other word character begins a name.
pub open spec fn scan(src: Seq<char>, at: int) -> Result<Seq<Lexeme>, Seq<char>>
    decreases src.len() - at,
{
    if at < 0 || at >= src.len() {
        Ok(Seq::empty())
    } else {
        match state_at(src, at) {
            State::EmString => {
                let close = find(src, at + 1, '"');
                proof {
                    lemma_find_bounds(src, at + 1, '"');
                }
                if close >= src.len() {
                    Ok(Seq::empty())
                } else {
                    then_tokens(
                        seq![Lexeme::Word(src.subrange(at + 1, close))],
                        scan(src, close + 1),
                    )
                }
            },
            State::Comment => {
                let end = find(src, at + 2, '\n');
                proof {
                    lemma_find_bounds(src, at + 2, '\n');
                }
                scan(src, end)
            },
            State::Nothing => {
                let (token, width) = mark_at(src, at);
                match token {
                    Some(t) => then_tokens(seq![t], scan(src, at + width)),
                    None => scan(src, at + 1),
                }
            },
            State::EmNumber => {
                let end = run_end(src, at, true);
                proof {
                    lemma_run_bounds(src, at + 1, true);
                }
                let text = src.subrange(at, end);
                match Number::numeral(text) {
                    Some(n) => then_tokens(seq![Lexeme::Number(n)], scan(src, end)),
                    None => Err(text),
                }
            },
            State::EmName => {
                let end = run_end(src, at, false);
                proof {
                    lemma_run_bounds(src, at + 1, false);
                }
                then_tokens(seq![name_token(src.subrange(at, end))], scan(src, end))
            },
        }
    }
}

/// The tokens of a source text.
pub open spec fn tokens_of(src: Seq<char>) -> Result<Seq<Lexeme>, Seq<char>> {
    scan(src, 0)
}

/// Tells whether `text` is the word `word`.
pub fn is_text(text: &String, word: &str) -> (b: bool)
    ensures
        b == (text@ == word@),
{
    let w = String::from_str(word);
    *text == w
}

/// Tells whether `c` is dropped between tokens.
pub fn space(c: char) -> (b: bool)
    ensures
        b == is_space(c),
{
    c == ' ' || c == '\t' || c == '\n' || c == '\r'
}

/// Tells whether `c` is, or begins, a token of its own.
pub fn mark(c: char) -> (b: bool)
    ensures
        b == is_mark(c),
{
    c == '+' || c == '-' || c == '*' || c == '/' || c == '<' || c == '>' || c == '!' || c == '='
        || c == '(' || c == ')' || c == '{' || c == '}' || c == '[' || c == ']' || c == ';' || c
        == ',' || c == '.'
}

/// Tells whether `text` is reserved.
pub fn reserved(text: &String) -> (b: bool)
    ensures
        b == is_keyword(text@),
{
    is_text(text, "fn") || is_text(text, "return") || is_text(text, "true") || is_text(
        text,
        "false",
    ) || is_text(text, "while") || is_text(text, "for") || is_text(text, "if") || is_text(
        text,
        "elif",
    ) || is_text(text, "else") || is_text(text, "class") || is_text(text, "new")
}

/// Handles the tokenization of a source text.
pub struct Lexer {
    pub chars: Vec<char>,
}

impl Lexer {
    /// A tokenizer with no text yet.
    pub fn new() -> (lexer: Lexer)
        ensures
            lexer.chars@ == Seq::<char>::empty(),
    {
        Lexer { chars: Vec::new() }
    }

    /// The state entered on the character at `at`.
    pub fn state(&self, at: usize) -> (state: State)
        requires
            at < self.chars.len(),
        ensures
            state == state_at(self.chars@, at as int),
    {
        let c = self.chars[at];
        if c == '"' {
            State::EmString
        } else if c == '/' && at + 1 < self.chars.len() && self.chars[at + 1] == '/' {
            State::Comment
        } else if space(c) || mark(c) {
            State::Nothing
        } else if c >= '0' && c <= '9' {
            State::EmNumber
        } else {
            State::EmName
        }
    }

    /// The first position from `at` on that holds `stop`, or the length of the
    /// text.
    pub fn seek(&self, at: usize, stop: char) -> (end: usize)
        requires
            at <= self.chars.len(),
        ensures
            end == find(self.chars@, at as int, stop),
            at <= end <= self.chars.len(),
    {
        let mut i: usize = at;
        while i < self.chars.len() && self.chars[i] != stop
            invariant
                at <= i <= self.chars.len(),
                find(self.chars@, at as int, stop) == find(self.chars@, i as int, stop),
            decreases self.chars.len() - i,
        {
            i += 1;
        }
        i
    }

    /// The end of the run of word characters that begins at `at`, decimal
    /// points counted in where `points` is set.
    pub fn run_to(&self, at: usize, points: bool) -> (end: usize)
        requires
            at <= self.chars.len(),
        ensures
            end == run_end(self.chars@, at as int, points),
            at <= end <= self.chars.len(),
    {
        let mut i: usize = at;
        while i < self.chars.len() && ((!space(self.chars[i]) && !mark(self.chars[i])
            && self.chars[i] != '"') || (points && self.chars[i] == '.'))
            invariant
                at <= i <= self.chars.len(),
                run_end(self.chars@, at as int, points) == run_end(self.chars@, i as int, points),
            decreases self.chars.len() - i,
        {
            i += 1;
        }
        i
    }

    /// Reads the mark at `at`: the punctuation and the operators of one and of
    /// two characters. Gives the token and the position behind it.
    pub fn nothing_handle(&self, at: usize) -> (r: (Option<Expression>, usize))
        requires
            at < self.chars.len(),
        ensures
            match r.0 {
                Some(t) => mark_at(self.chars@, at as int).0 == Some(t@),
                None => mark_at(self.chars@, at as int).0 is None,
            },
            r.1 == at + mark_at(self.chars@, at as int).1,
            at < r.1 <= self.chars.len(),
    {
        let c = self.chars[at];
        let follows_eq = at + 1 < self.chars.len() && self.chars[at + 1] == '=';
        let doubled = at + 1 < self.chars.len() && self.chars[at + 1] == c;
        if c == ',' {
            (Some(Expression::Comma), at + 1)
        } else if c == '{' {
            (Some(Expression::Lbrace), at + 1)
        } else if c == '}' {
            (Some(Expression::Rbrace), at + 1)
        } else if c == '(' {
            (Some(Expression::Lparen), at + 1)
        } else if c == ')' {
            (Some(Expression::Rparen), at + 1)
        } else if c == '[' {
            (Some(Expression::Lbracket), at + 1)
        } else if c == ']' {
            (Some(Expression::Rbracket), at + 1)
        } else if c == ';' {
            (Some(Expression::Semicolon), at + 1)
        } else if c == '.' {
            (Some(Expression::Operator('.')), at + 1)
        } else if c == '=' {
            if follows_eq {
                (Some(Expression::BoolOp(String::from_str("=="))), at + 2)
            } else {
                (Some(Expression::Equal), at + 1)
            }
        } else if c == '*' {
            if follows_eq {
                (Some(Expression::CompoundOp(String::from_str("*="))), at + 2)
            } else {
                (Some(Expression::Operator('*')), at + 1)
            }
        } else if c == '+' {
            if follows_eq {
                (Some(Expression::CompoundOp(String::from_str("+="))), at + 2)
            } else if doubled {
                (Some(Expression::CompoundOp(String::from_str("++"))), at + 2)
            } else {
                (Some(Expression::Operator('+')), at + 1)
            }
        } else if c == '-' {
            if follows_eq {
                (Some(Expression::CompoundOp(String::from_str("-="))), at + 2)
            } else if doubled {
                (Some(Expression::CompoundOp(String::from_str("--"))), at + 2)
            } else {
                (Some(Expression::Operator('-')), at + 1)
            }
        } else if c == '/' {
            if follows_eq {
                (Some(Expression::CompoundOp(String::from_str("/="))), at + 2)
            } else {
                (Some(Expression::Operator('/')), at + 1)
            }
        } else if c == '!' {
            if follows_eq {
                (Some(Expression::BoolOp(String::from_str("!="))), at + 2)
            } else {
                (Some(Expression::Operator('!')), at + 1)
            }
        } else if c == '<' {
            if follows_eq {
                (Some(Expression::BoolOp(String::from_str("<="))), at + 2)
            } else {
                (Some(Expression::BoolOp(String::from_str("<"))), at + 1)
            }
        } else if c == '>' {
            if follows_eq {
                (Some(Expression::BoolOp(String::from_str(">="))), at + 2)
            } else {
                (Some(Expression::BoolOp(String::from_str(">"))), at + 1)
            }
        } else {
            (None, at + 1)
        }
    }

    /// Reads the number literal that begins at `at`: the whole run of word
    /// characters and decimal points, which must be a plain decimal numeral.
    /// Gives the token, or the text of the run where it is malformed, and the
    /// position behind the run.
    pub fn num_handle(&self, at: usize) -> (r: (Result<Expression, LexError>, usize))
        requires
            at < self.chars.len(),
        ensures
            r.1 == run_end(self.chars@, at as int, true),
            at <= r.1 <= self.chars.len(),
            match r.0 {
                Ok(t) => Number::numeral(self.chars@.subrange(at as int, r.1 as int)) is Some
                    && t@ == Lexeme::Number(
                    Number::numeral(self.chars@.subrange(at as int, r.1 as int))->0,
                ),
                Err(e) => Number::numeral(self.chars@.subrange(at as int, r.1 as int)) is None
                    && e.text@ == self.chars@.subrange(at as int, r.1 as int),
            },
    {
        let end = self.run_to(at, true);
        let mut run: Vec<char> = Vec::new();
        let mut i: usize = at;
        while i < end
            invariant
                at <= i <= end <= self.chars.len(),
                run@ == self.chars@.subrange(at as int, i as int),
            decreases end - i,
        {
            run.push(self.chars[i]);
            i += 1;
        }
        match Number::from_chars(&run) {
            Some(n) => (Ok(Expression::Number(n)), end),
            None => (Err(LexError { text: text_between(&self.chars, at, end) }), end),
        }
    }

    /// Reads the name that begins at `at`: the whole run of word characters,
    /// a keyword where it is reserved and an identifier otherwise. Gives the
    /// token and the position behind the run.
    pub fn name_handle(&self, at: usize) -> (r: (Expression, usize))
        requires
            at < self.chars.len(),
        ensures
            r.1 == run_end(self.chars@, at as int, false),
            at <= r.1 <= self.chars.len(),
            r.0@ == name_token(self.chars@.subrange(at as int, r.1 as int)),
    {
        let end = self.run_to(at, false);
        let text = text_between(&self.chars, at, end);
        if reserved(&text) {
            (Expression::Key(text), end)
        } else {
            (Expression::Ident(text), end)
        }
    }

    /// Turns a source text into its tokens, or stops at the first malformed
    /// number literal and reports its text.
    pub fn tokenize(&mut self, data: &str) -> (r: Result<Vec<Expression>, LexError>)
        ensures
            final(self).chars@ == data@,
            match r {
                Ok(tokens) => tokens_of(data@) == Ok::<Seq<Lexeme>, Seq<char>>(lexemes(tokens@)),
                Err(e) => tokens_of(data@) == Err::<Seq<Lexeme>, Seq<char>>(e.text@),
            },
    {
        self.chars = chars_of(data);
        let mut result: Vec<Expression> = Vec::new();
        let mut at: usize = 0;
        assert(then_tokens(lexemes(result@), scan(self.chars@, 0)) == scan(self.chars@, 0)) by {
            match scan(self.chars@, 0) {
                Ok(ts) => assert(Seq::<Lexeme>::empty() + ts =~= ts),
                Err(_) => {},
            }
        }
        while at < self.chars.len()
            invariant
                at <= self.chars.len(),
                self.chars@ == data@,
                then_tokens(lexemes(result@), scan(self.chars@, at as int)) == scan(
                    self.chars@,
                    0,
                ),
            decreases self.chars.len() - at,
        {
            let ghost before = result@;
            match self.state(at) {
                State::EmString => {
                    let close = self.seek(at + 1, '"');
                    if close >= self.chars.len() {
                        at = self.chars.len();
                    } else {
                        let word = text_between(&self.chars, at + 1, close);
                        result.push(Expression::Word(word));
                        at = close + 1;
                        proof {
                            lemma_pushed(before, result@.last(), scan(self.chars@, at as int));
                        }
                    }
                },
                State::Comment => {
                    at = self.seek(at + 2, '\n');
                },
                State::Nothing => {
                    let (token, next) = self.nothing_handle(at);
                    match token {
                        Some(t) => {
                            result.push(t);
                            proof {
                                lemma_pushed(
                                    before,
                                    result@.last(),
                                    scan(self.chars@, next as int),
                                );
                            }
                        },
                        None => {},
                    }
                    at = next;
                },
                State::EmNumber => {
                    let (token, next) = self.num_handle(at);
                    match token {
                        Ok(t) => {
                            result.push(t);
                            proof {
                                lemma_pushed(
                                    before,
                                    result@.last(),
                                    scan(self.chars@, next as int),
                                );
                            }
                        },
                        Err(e) => {
                            return Err(e);
                        },
                    }
                    proof {
                        lemma_run_bounds(self.chars@, at + 1, true);
                    }
                    at = next;
                },
                State::EmName => {
                    let (token, next) = self.name_handle(at);
                    result.push(token);
                    proof {
                        lemma_pushed(before, result@.last(), scan(self.chars@, next as int));
                        lemma_run_bounds(self.chars@, at + 1, false);
                    }
                    at = next;
                },
            }
        }
        Ok(result)
    }
}

/// Putting one more token behind those read so far is the same as putting it
/// in front of those still to come.
pub proof fn lemma_pushed(
    before: Seq<Expression>,
    token: Expression,
    rest: Result<Seq<Lexeme>, Seq<char>>,
)
    ensures
        then_tokens(lexemes(before.push(token)), rest) == then_tokens(
            lexemes(before),
            then_tokens(seq![token@], rest),
        ),
{
    assert(lexemes(before.push(token)) =~= lexemes(before) + seq![token@]);
    match rest {
        Ok(ts) => {
            assert((lexemes(before) + seq![token@]) + ts =~= lexemes(before) + (seq![token@]
                + ts));
        },
        Err(_) => {},
    }
}

/// The tokens of a source text.
pub fn run(data: &str) -> (r: Result<Vec<Expression>, LexError>)
    ensures
        match r {
            Ok(tokens) => tokens_of(data@) == Ok::<Seq<Lexeme>, Seq<char>>(lexemes(tokens@)),
            Err(e) => tokens_of(data@) == Err::<Seq<Lexeme>, Seq<char>>(e.text@),
        },
{
    let mut lexer = Lexer::new();
    lexer.tokenize(data)
}

} // verus!
