//! The numbers of the language: IEEE 754 single precision values, held by
//! their 32-bit pattern. Comparison and truncation are decided on the bits and
//! proved here; rounding arithmetic and decimal conversion are computed by a
//! software implementation of the format and are known by name only.

use crate::lexer::find;
use crate::text::{chars_of, text_of};
use rustc_apfloat::ieee::Single;
use rustc_apfloat::Float;
use vstd::prelude::*;

verus! {

/// A number of the language, as the bit pattern of a single precision value:
/// one sign bit, eight exponent bits, twenty-three fraction bits.
#[derive(Clone, Copy, Debug, PartialEq, Eq, Structural)]
pub struct Number {
    pub bits: u32,
}

/// How two values stand to each other. `Unordered` is the answer for a pair
/// that has no order, such as any pair with a NaN in it.
#[derive(Clone, Copy, Debug, PartialEq, Eq, Structural)]
pub enum Order {
    Less,
    Equal,
    Greater,
    Unordered,
}

/// The bits of `a + b`, rounded to nearest, ties to even.
pub uninterp spec fn single_sum(a: u32, b: u32) -> u32;

/// The bits of `a - b`, rounded to nearest, ties to even.
pub uninterp spec fn single_difference(a: u32, b: u32) -> u32;

/// The bits of `a * b`, rounded to nearest, ties to even.
pub uninterp spec fn single_product(a: u32, b: u32) -> u32;

/// The bits of `a / b`, rounded to nearest, ties to even.
pub uninterp spec fn single_quotient(a: u32, b: u32) -> u32;

/// The bits of the single precision value nearest to the decimal numeral
/// `text`, or `None` where the numeral is not accepted.
pub uninterp spec fn decimal_value(text: Seq<char>) -> Option<u32>;

/// The decimal rendering of the value `bits` with at most `digits` significant
/// digits.
pub uninterp spec fn decimal_text(bits: u32, digits: nat) -> Seq<char>;

/// True for the characters `0` to `9`.
pub open spec fn is_digit(c: char) -> bool {
    '0' <= c <= '9'
}

/// The number of decimal points in `text`.
pub open spec fn count_points(text: Seq<char>) -> nat
    decreases text.len(),
{
    if text.len() == 0 {
        0
    } else {
        count_points(text.drop_last()) + if text.last() == '.' {
            1nat
        } else {
            0nat
        }
    }
}

/// A plain decimal numeral: digits and at most one decimal point, with a digit
/// in front.
pub open spec fn is_numeral(text: Seq<char>) -> bool {
    &&& text.len() > 0
    &&& is_digit(text[0])
    &&& forall|i: int| 0 <= i < text.len() ==> is_digit(#[trigger] text[i]) || text[i] == '.'
    &&& count_points(text) <= 1
}

/// Whether the characters of `text` from `from` up to `to` are digits.
pub open spec fn all_digits(text: Seq<char>, from: int, to: int) -> bool {
    forall|i: int| from <= i < to ==> is_digit(#[trigger] text[i])
}

/// The value of a digit.
pub open spec fn digit_value(c: char) -> nat {
    if c == '1' {
        1
    } else if c == '2' {
        2
    } else if c == '3' {
        3
    } else if c == '4' {
        4
    } else if c == '5' {
        5
    } else if c == '6' {
        6
    } else if c == '7' {
        7
    } else if c == '8' {
        8
    } else if c == '9' {
        9
    } else {
        0
    }
}

/// The number that the digits of `text` from `from` up to `to` spell.
pub open spec fn spelled(text: Seq<char>, from: int, to: int) -> nat
    decreases to - from,
{
    if to <= from || to > text.len() || from < 0 {
        0
    } else {
        spelled(text, from, to - 1) * 10 + digit_value(text[to - 1])
    }
}

/// A whole number that is written as `d.fffE+x`, one digit before the point,
/// digits behind it and a power of ten of at most two digits that is no less
/// than the number of digits behind the point, written out as plain digits:
/// the digits, and zeros up to the power. No other text is written out.
pub open spec fn positional(text: Seq<char>) -> Option<Seq<char>> {
    let e = find(text, 0, 'E');
    if 3 <= e && e + 3 <= text.len() <= e + 4 && is_digit(text[0]) && text[1] == '.'
        && all_digits(text, 2, e) && text[e + 1] == '+' && all_digits(
        text,
        e + 2,
        text.len() as int,
    ) && spelled(text, e + 2, text.len() as int) >= e - 2 {
        Some(
            seq![text[0]] + text.subrange(2, e) + Seq::new(
                (spelled(text, e + 2, text.len() as int) - (e - 2)) as nat,
                |i: int| '0',
            ),
        )
    } else {
        None
    }
}

/// The plain decimal numeral that a rendering gives: itself where it is one,
/// and what `positional` makes of it otherwise.
pub open spec fn plain(text: Seq<char>) -> Option<Seq<char>> {
    if is_numeral(text) {
        Some(text)
    } else {
        positional(text)
    }
}

/// Calls `<Single as Add>::add` of rustc_apfloat on the two values and takes
/// the value of the result, dropping the status flags: the sum rounded to
/// nearest, ties to even.
#[verifier::external_body]
fn single_add(a: u32, b: u32) -> (r: u32)
    ensures
        r == single_sum(a, b),
{
    (Single::from_bits(a as u128) + Single::from_bits(b as u128)).value.to_bits() as u32
}

/// Calls `<Single as Sub>::sub` of rustc_apfloat on the two values and takes
/// the value of the result, dropping the status flags.
#[verifier::external_body]
fn single_sub(a: u32, b: u32) -> (r: u32)
    ensures
        r == single_difference(a, b),
{
    (Single::from_bits(a as u128) - Single::from_bits(b as u128)).value.to_bits() as u32
}

/// Calls `<Single as Mul>::mul` of rustc_apfloat on the two values and takes
/// the value of the result, dropping the status flags.
#[verifier::external_body]
fn single_mul(a: u32, b: u32) -> (r: u32)
    ensures
        r == single_product(a, b),
{
    (Single::from_bits(a as u128) * Single::from_bits(b as u128)).value.to_bits() as u32
}

/// Calls `<Single as Div>::div` of rustc_apfloat on the two values and takes
/// the value of the result, dropping the status flags.
#[verifier::external_body]
fn single_div(a: u32, b: u32) -> (r: u32)
    ensures
        r == single_quotient(a, b),
{
    (Single::from_bits(a as u128) / Single::from_bits(b as u128)).value.to_bits() as u32
}

/// Calls `<Single as FromStr>::from_str` of rustc_apfloat, which reads a
/// decimal numeral and rounds it to nearest, ties to even; an error of the
/// crate becomes `None`.
#[verifier::external_body]
fn single_parse(text: &str) -> (r: Option<u32>)
    requires
        is_numeral(text@),
    ensures
        r == decimal_value(text@),
{
    match text.parse::<Single>() {
        Ok(x) => Some(x.to_bits() as u32),
        Err(_) => None,
    }
}

/// Calls `<Single as Display>::fmt` of rustc_apfloat with the given precision,
/// and a width of sixty so that the crate keeps to positional notation as
/// long as it can.
#[verifier::external_body]
fn single_format(bits: u32, digits: usize) -> (r: String)
    requires
        1 <= digits <= 9,
    ensures
        r@ == decimal_text(bits, digits as nat),
{
    format!("{:60.1$}", Single::from_bits(bits as u128), digits)
}

/// Tells whether `text` is a plain decimal numeral.
pub fn numeral_shaped(text: &Vec<char>) -> (b: bool)
    ensures
        b == is_numeral(text@),
{
    if text.len() == 0 {
        return false;
    }
    if !(text[0] >= '0' && text[0] <= '9') {
        return false;
    }
    let mut points: usize = 0;
    let mut i: usize = 0;
    while i < text.len()
        invariant
            i <= text.len(),
            points == count_points(text@.take(i as int)),
            points <= i,
            forall|k: int| 0 <= k < i ==> is_digit(#[trigger] text@[k]) || text@[k] == '.',
        decreases text.len() - i,
    {
        let c = text[i];
        assert(text@.take(i + 1).drop_last() =~= text@.take(i as int));
        if c == '.' {
            points += 1;
        } else if !(c >= '0' && c <= '9') {
            return false;
        }
        i += 1;
    }
    assert(text@.take(text.len() as int) =~= text@);
    points <= 1
}

/// Tells whether the characters from `from` up to `to` are digits.
pub fn digits_between(text: &Vec<char>, from: usize, to: usize) -> (b: bool)
    requires
        from <= to <= text.len(),
    ensures
        b == all_digits(text@, from as int, to as int),
{
    let mut i: usize = from;
    while i < to
        invariant
            from <= i <= to <= text.len(),
            all_digits(text@, from as int, i as int),
        decreases to - i,
    {
        if !(text[i] >= '0' && text[i] <= '9') {
            return false;
        }
        i += 1;
    }
    true
}

/// The value of a digit.
pub fn value_of_digit(c: char) -> (v: usize)
    ensures
        v == digit_value(c),
        v <= 9,
{
    if c == '1' {
        1
    } else if c == '2' {
        2
    } else if c == '3' {
        3
    } else if c == '4' {
        4
    } else if c == '5' {
        5
    } else if c == '6' {
        6
    } else if c == '7' {
        7
    } else if c == '8' {
        8
    } else if c == '9' {
        9
    } else {
        0
    }
}

/// Writes a whole number out of its form with a power of ten.
pub fn write_out(text: &Vec<char>) -> (r: Option<Vec<char>>)
    ensures
        match r {
            Some(out) => positional(text@) == Some(out@),
            None => positional(text@) is None,
        },
{
    let mut e: usize = 0;
    while e < text.len() && text[e] != 'E'
        invariant
            e <= text.len(),
            find(text@, 0, 'E') == find(text@, e as int, 'E'),
        decreases text.len() - e,
    {
        e += 1;
    }
    if e < 3 || text.len() < 3 || e > text.len() - 3 || text.len() - e > 4 {
        return None;
    }
    if !(text[0] >= '0' && text[0] <= '9') || text[1] != '.' || !digits_between(text, 2, e)
        || text[e + 1] != '+' || !digits_between(text, e + 2, text.len()) {
        return None;
    }
    let mut power: usize = 0;
    let mut i: usize = e + 2;
    while i < text.len()
        invariant
            e + 2 <= i <= text.len() <= e + 4,
            power == spelled(text@, e + 2, i as int),
            i == e + 2 ==> power == 0,
            i == e + 3 ==> power <= 9,
            power <= 99,
        decreases text.len() - i,
    {
        power = power * 10 + value_of_digit(text[i]);
        i += 1;
    }
    if power < e - 2 {
        return None;
    }
    let mut out: Vec<char> = Vec::new();
    out.push(text[0]);
    let mut k: usize = 2;
    while k < e
        invariant
            2 <= k <= e <= text.len(),
            out@ == seq![text@[0]] + text@.subrange(2, k as int),
        decreases e - k,
    {
        out.push(text[k]);
        k += 1;
    }
    let zeros: usize = power - (e - 2);
    let mut z: usize = 0;
    while z < zeros
        invariant
            z <= zeros,
            2 <= e <= text.len(),
            out@ == seq![text@[0]] + text@.subrange(2, e as int) + Seq::new(z as nat, |i: int| '0'),
        decreases zeros - z,
    {
        out.push('0');
        z += 1;
    }
    Some(out)
}

impl Number {
    /// The number with the given bit pattern.
    pub fn from_bits(bits: u32) -> (n: Number)
        ensures
            n.bits == bits,
    {
        Number { bits }
    }

    /// The bit pattern of the number.
    pub fn to_bits(&self) -> (bits: u32)
        ensures
            bits == self.bits,
    {
        self.bits
    }

    /// Positive zero.
    pub fn zero() -> (n: Number)
        ensures
            n.bits == 0,
    {
        Number { bits: 0 }
    }

    /// The number one.
    pub fn one() -> (n: Number)
        ensures
            n.bits == 0x3f80_0000,
    {
        Number { bits: 0x3f80_0000 }
    }

    /// The eight exponent bits.
    pub open spec fn exponent(&self) -> u32 {
        (self.bits >> 23) & 0xff
    }

    /// The twenty-three fraction bits.
    pub open spec fn fraction(&self) -> u32 {
        self.bits & 0x7f_ffff
    }

    /// The pattern without its sign bit. Among values that are not NaN, a
    /// larger magnitude has a larger pattern.
    pub open spec fn magnitude(&self) -> u32 {
        self.bits & 0x7fff_ffff
    }

    /// True where the sign bit is set.
    pub open spec fn negative(&self) -> bool {
        self.bits >> 31 == 1
    }

    /// True for the patterns that stand for no number at all.
    pub open spec fn nan(&self) -> bool {
        self.magnitude() > 0x7f80_0000
    }

    /// True for positive and negative infinity.
    pub open spec fn infinite(&self) -> bool {
        self.magnitude() == 0x7f80_0000
    }

    /// The place of the number on the line of integers that orders all values
    /// which are not NaN: the magnitude, negated under a sign bit. Both zeros
    /// stand at 0.
    pub open spec fn rank(&self) -> int {
        if self.negative() {
            -(self.magnitude() as int)
        } else {
            self.magnitude() as int
        }
    }

    /// How `self` stands to `other`: unordered where either is NaN, otherwise
    /// as their ranks stand.
    pub open spec fn order(&self, other: Number) -> Order {
        if self.nan() || other.nan() {
            Order::Unordered
        } else if self.rank() < other.rank() {
            Order::Less
        } else if self.rank() == other.rank() {
            Order::Equal
        } else {
            Order::Greater
        }
    }

    /// The number cut down to a whole number that fits a `u64`: 0 for NaN, for
    /// negative numbers and for numbers below one; the integer part of the
    /// value where it is below 2^64; the largest `u64` above that.
    pub open spec fn whole(&self) -> u64 {
        let e = self.exponent();
        let m = (self.fraction() | 0x80_0000) as u64;
        if self.nan() || self.negative() || e < 127 {
            0
        } else if e <= 150 {
            m >> ((150 - e) as u64)
        } else if e <= 190 {
            m << ((e - 150) as u64)
        } else {
            u64::MAX
        }
    }

    /// The position in an array that the number stands for: its whole part,
    /// held down to the largest `usize`.
    pub open spec fn index(&self) -> usize {
        if self.whole() > usize::MAX as u64 {
            usize::MAX
        } else {
            self.whole() as usize
        }
    }

    /// True where the number is NaN.
    pub fn is_nan(&self) -> (b: bool)
        ensures
            b == self.nan(),
    {
        (self.bits & 0x7fff_ffff) > 0x7f80_0000
    }

    /// Compares two numbers as the format orders them.
    pub fn compare(&self, other: &Number) -> (o: Order)
        ensures
            o == self.order(*other),
    {
        let a: u32 = self.bits & 0x7fff_ffff;
        let b: u32 = other.bits & 0x7fff_ffff;
        if a > 0x7f80_0000 || b > 0x7f80_0000 {
            return Order::Unordered;
        }
        let a_neg = self.bits >> 31 == 1;
        let b_neg = other.bits >> 31 == 1;
        let left: i64 = if a_neg {
            -(a as i64)
        } else {
            a as i64
        };
        let right: i64 = if b_neg {
            -(b as i64)
        } else {
            b as i64
        };
        if left < right {
            Order::Less
        } else if left == right {
            Order::Equal
        } else {
            Order::Greater
        }
    }

    /// Truncates the number to an array position.
    pub fn to_index(&self) -> (i: usize)
        ensures
            i == self.index(),
    {
        let e: u32 = (self.bits >> 23) & 0xff;
        let m: u64 = ((self.bits & 0x7f_ffff) | 0x80_0000) as u64;
        let wide: u64 = if (self.bits & 0x7fff_ffff) > 0x7f80_0000 || self.bits >> 31 == 1 || e
            < 127 {
            0
        } else if e <= 150 {
            m >> ((150 - e) as u64)
        } else if e <= 190 {
            m << ((e - 150) as u64)
        } else {
            u64::MAX
        };
        if wide > usize::MAX as u64 {
            usize::MAX
        } else {
            wide as usize
        }
    }

    /// The number that a plain decimal numeral stands for: none for text that
    /// is no such numeral, else what the conversion gives.
    pub open spec fn numeral(text: Seq<char>) -> Option<Number> {
        if is_numeral(text) {
            match decimal_value(text) {
                Some(bits) => Some(Number { bits }),
                None => None,
            }
        } else {
            None
        }
    }

    /// The shortest plain numeral of a positive finite value that reads back
    /// as the same value, trying renderings of `digits` significant digits
    /// and more, up to nine. Where none reads back, the rendering of nine
    /// digits is taken as it comes.
    pub open spec fn shortest(bits: u32, digits: nat) -> Seq<char>
        decreases 10 - digits,
    {
        if digits > 9 {
            decimal_text(bits, 9)
        } else {
            match plain(decimal_text(bits, digits)) {
                Some(t) => if Number::numeral(t) == Some(Number { bits }) {
                    t
                } else {
                    Number::shortest(bits, digits + 1)
                },
                None => Number::shortest(bits, digits + 1),
            }
        }
    }

    /// The text of a number: `NaN`, `inf` and `0` for the special values, the
    /// shortest plain numeral that reads back as the same value for the
    /// others, and a minus sign in front under a sign bit (but never before
    /// `NaN`).
    pub open spec fn text(&self) -> Seq<char> {
        let body = if self.infinite() {
            "inf"@
        } else if self.magnitude() == 0 {
            "0"@
        } else {
            Number::shortest(self.magnitude(), 1)
        };
        if self.nan() {
            "NaN"@
        } else if self.negative() {
            seq!['-'] + body
        } else {
            body
        }
    }

    /// Reads a plain decimal numeral.
    pub fn from_chars(text: &Vec<char>) -> (r: Option<Number>)
        ensures
            r == Number::numeral(text@),
    {
        if !numeral_shaped(text) {
            return None;
        }
        let s = text_of(text);
        match single_parse(s.as_str()) {
            Some(bits) => Some(Number { bits }),
            None => None,
        }
    }

    /// Writes the number as text.
    pub fn to_text(&self) -> (r: String)
        ensures
            r@ == self.text(),
    {
        let mag: u32 = self.bits & 0x7fff_ffff;
        if mag > 0x7f80_0000 {
            return String::from_str("NaN");
        }
        let mut out = String::new();
        if self.bits >> 31 == 1 {
            out.push('-');
        }
        if mag == 0x7f80_0000 {
            out.append("inf");
        } else if mag == 0 {
            out.append("0");
        } else {
            let mut digits: usize = 1;
            let mut found: Option<String> = None;
            while digits <= 9 && found.is_none()
                invariant
                    1 <= digits <= 10,
                    match found {
                        Some(t) => t@ == Number::shortest(mag, 1),
                        None => Number::shortest(mag, digits as nat) == Number::shortest(mag, 1),
                    },
                decreases 10 - digits + if found.is_none() { 1int } else { 0int },
            {
                let t = single_format(mag, digits);
                let chars = chars_of(t.as_str());
                let numeral = if numeral_shaped(&chars) {
                    Some(chars)
                } else {
                    write_out(&chars)
                };
                match numeral {
                    Some(c) => match Number::from_chars(&c) {
                        Some(n) => {
                            if n.bits == mag {
                                found = Some(text_of(&c));
                            } else {
                                digits += 1;
                            }
                        },
                        None => {
                            digits += 1;
                        },
                    },
                    None => {
                        digits += 1;
                    },
                }
            }
            match found {
                Some(t) => {
                    out.append(t.as_str());
                },
                None => {
                    let t = single_format(mag, 9);
                    out.append(t.as_str());
                },
            }
        }
        out
    }

    /// The sum of two numbers.
    pub fn plus(&self, other: &Number) -> (n: Number)
        ensures
            n.bits == single_sum(self.bits, other.bits),
    {
        Number { bits: single_add(self.bits, other.bits) }
    }

    /// The difference of two numbers.
    pub fn minus(&self, other: &Number) -> (n: Number)
        ensures
            n.bits == single_difference(self.bits, other.bits),
    {
        Number { bits: single_sub(self.bits, other.bits) }
    }

    /// The product of two numbers.
    pub fn times(&self, other: &Number) -> (n: Number)
        ensures
            n.bits == single_product(self.bits, other.bits),
    {
        Number { bits: single_mul(self.bits, other.bits) }
    }

    /// The quotient of two numbers.
    pub fn over(&self, other: &Number) -> (n: Number)
        ensures
            n.bits == single_quotient(self.bits, other.bits),
    {
        Number { bits: single_div(self.bits, other.bits) }
    }
}

} // verus!
