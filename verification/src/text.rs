//! Text as sequences of characters: conversions between strings and character
//! vectors, the word that stands for a quote, and numbers written in decimal.

use regex::Regex;
use std::str::Chars;
use vstd::prelude::*;
use vstd::std_specs::iter::IteratorSpec;

verus! {

/// `String::push` appends one character to the end of the string.
pub assume_specification[ String::push ](s: &mut String, ch: char)
    ensures
        final(s)@ == old(s)@.push(ch),
;

/// The word that stands for a double quote inside a string.
pub open spec fn quote_word() -> Seq<char> {
    seq!['e', 's', 'c', '_', 'Q', 'U', 'O', 'T', 'E']
}

/// Whether `text` begins with `prefix`.
pub open spec fn begins_with(text: Seq<char>, prefix: Seq<char>) -> bool {
    prefix.len() <= text.len() && text.subrange(0, prefix.len() as int) == prefix
}

/// The text with a double quote in the place of every `esc_QUOTE`, read from
/// left to right.
pub open spec fn unescaped(text: Seq<char>) -> Seq<char>
    decreases text.len(),
{
    if text.len() == 0 {
        text
    } else if begins_with(text, quote_word()) {
        seq!['"'] + unescaped(text.skip(9))
    } else {
        seq![text[0]] + unescaped(text.skip(1))
    }
}

/// Calls `Regex::new` of regex on the pattern and `Regex::replace_all` on the
/// text. For the one pattern that is admitted, which holds no character with
/// a meaning of its own in a pattern, the matches are the places where the
/// pattern stands as it is written, found from left to right without
/// overlap; the replacement holds no `$` and is put in as it is.
#[verifier::external_body]
fn replace_word(pattern: &str, text: &str, replacement: &str) -> (r: String)
    requires
        pattern@ == quote_word(),
        replacement@ == seq!['"'],
    ensures
        r@ == unescaped(text@),
{
    Regex::new(pattern).unwrap().replace_all(text, replacement).into_owned()
}

/// The text as it is shown: with a double quote for every `esc_QUOTE`.
pub fn unescape(text: &str) -> (r: String)
    ensures
        r@ == unescaped(text@),
{
    proof {
        reveal_strlit("esc_QUOTE");
        reveal_strlit("\"");
        assert("esc_QUOTE"@ =~= quote_word());
        assert("\""@ =~= seq!['"']);
    }
    replace_word("esc_QUOTE", text, "\"")
}

/// The characters of a string, in order.
pub fn chars_of(s: &str) -> (out: Vec<char>)
    ensures
        out@ == s@,
{
    broadcast use vstd::string::group_string_axioms;

    let mut out: Vec<char> = Vec::new();
    let mut it: Chars<'_> = s.chars();
    loop
        invariant
            it.obeys_prophetic_iter_laws(),
            out@ + it.remaining() == s@,
        decreases s@.len() - out@.len(),
    {
        match it.next() {
            Some(c) => {
                out.push(c);
            },
            None => {
                return out;
            },
        }
    }
}

/// The string made of the characters `chars[from..to]`.
pub fn text_between(chars: &Vec<char>, from: usize, to: usize) -> (out: String)
    requires
        from <= to <= chars.len(),
    ensures
        out@ == chars@.subrange(from as int, to as int),
{
    let mut out = String::new();
    let mut i: usize = from;
    while i < to
        invariant
            from <= i <= to <= chars.len(),
            out@ == chars@.subrange(from as int, i as int),
        decreases to - i,
    {
        out.push(chars[i]);
        i += 1;
    }
    out
}

/// The string made of all of `chars`.
pub fn text_of(chars: &Vec<char>) -> (out: String)
    ensures
        out@ == chars@,
{
    let out = text_between(chars, 0, chars.len());
    out
}

/// The character of a decimal digit.
pub open spec fn digit(d: nat) -> char {
    if d == 0 {
        '0'
    } else if d == 1 {
        '1'
    } else if d == 2 {
        '2'
    } else if d == 3 {
        '3'
    } else if d == 4 {
        '4'
    } else if d == 5 {
        '5'
    } else if d == 6 {
        '6'
    } else if d == 7 {
        '7'
    } else if d == 8 {
        '8'
    } else {
        '9'
    }
}

/// The decimal numeral of a natural number, without leading zeros.
pub open spec fn numeral(n: nat) -> Seq<char>
    decreases n,
{
    if n < 10 {
        seq![digit(n)]
    } else {
        numeral(n / 10).push(digit(n % 10))
    }
}

/// Writes a number in decimal.
pub fn decimal(n: usize) -> (out: String)
    ensures
        out@ == numeral(n as nat),
    decreases n,
{
    let d = n % 10;
    let c = if d == 0 {
        '0'
    } else if d == 1 {
        '1'
    } else if d == 2 {
        '2'
    } else if d == 3 {
        '3'
    } else if d == 4 {
        '4'
    } else if d == 5 {
        '5'
    } else if d == 6 {
        '6'
    } else if d == 7 {
        '7'
    } else if d == 8 {
        '8'
    } else {
        '9'
    };
    if n < 10 {
        let mut out = String::new();
        out.push(c);
        out
    } else {
        let mut out = decimal(n / 10);
        out.push(c);
        out
    }
}

} // verus!
