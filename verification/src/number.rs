//! Decimal numbers, held as their literals.
//!
//! Coordinates, weights and measures are not integers. The library carries
//! each such number as the decimal literal that stands for it on the wire,
//! and checks the literal's grammar where one comes in.

use vstd::prelude::*;
use vstd::string::StringExecFns;

use crate::decode::Decode;
use crate::json::Json;
use crate::text::{chars_of, find_char, first_index, is_digit, is_numeral};

verus! {

/// Whether `s` is a non-empty run of decimal digits.
pub open spec fn is_digits(s: Seq<char>) -> bool {
    &&& s.len() >= 1
    &&& forall|i: int| 0 <= i < s.len() ==> is_digit(#[trigger] s[i])
}

/// The index of the first `e` or `E` in `s`, or the length of `s` where it
/// holds neither.
pub open spec fn exponent_index(s: Seq<char>) -> int {
    let lower = first_index(s, 'e');
    let upper = first_index(s, 'E');
    if lower <= upper {
        lower
    } else {
        upper
    }
}

/// Whether `s` is an exponent: digits, with or without a sign before them.
pub open spec fn is_exponent(s: Seq<char>) -> bool {
    if s.len() > 0 && (s[0] == '+' || s[0] == '-') {
        is_digits(s.skip(1))
    } else {
        is_digits(s)
    }
}

/// Whether `s` is a mantissa: a numeral without a leading zero, alone or
/// followed by a point and digits.
pub open spec fn is_mantissa(s: Seq<char>) -> bool {
    let dot = first_index(s, '.');
    if 0 <= dot < s.len() {
        is_numeral(s.take(dot)) && is_digits(s.skip(dot + 1))
    } else {
        is_numeral(s)
    }
}

/// Whether `s` is a number literal without a sign: a mantissa, alone or
/// followed by `e` or `E` and an exponent.
pub open spec fn is_unsigned_literal(s: Seq<char>) -> bool {
    let mark = exponent_index(s);
    if 0 <= mark < s.len() {
        is_mantissa(s.take(mark)) && is_exponent(s.skip(mark + 1))
    } else {
        is_mantissa(s)
    }
}

/// Whether `s` is a number literal of JSON: `-12`, `0.5`, `1.25e-7`.
pub open spec fn is_number_literal(s: Seq<char>) -> bool {
    if s.len() > 0 && s[0] == '-' {
        is_unsigned_literal(s.skip(1))
    } else {
        is_unsigned_literal(s)
    }
}

/// A decimal number, held as its literal.
#[derive(Debug)]
pub struct Decimal {
    literal: String,
}

impl View for Decimal {
    type V = Seq<char>;

    closed spec fn view(&self) -> Seq<char> {
        self.literal@
    }
}

impl Clone for Decimal {
    fn clone(&self) -> (copy: Decimal)
        ensures
            copy@ == self@,
    {
        proof {
            use_type_invariant(self);
        }
        Decimal { literal: self.literal.clone() }
    }
}

/// Whether `chars[from..to]` is a non-empty run of digits.
fn digits_in(chars: &Vec<char>, from: usize, to: usize) -> (all: bool)
    requires
        from <= to <= chars.len(),
    ensures
        all == is_digits(chars@.subrange(from as int, to as int)),
{
    let ghost s = chars@.subrange(from as int, to as int);
    if from == to {
        return false;
    }
    let mut i = from;
    while i < to
        invariant
            from <= i <= to,
            to <= chars.len(),
            s == chars@.subrange(from as int, to as int),
            forall|j: int| 0 <= j < i - from ==> is_digit(#[trigger] s[j]),
        decreases to - i,
    {
        let c = chars[i];
        assert(c == s[i - from]);
        if !('0' <= c && c <= '9') {
            return false;
        }
        i += 1;
    }
    true
}

/// Whether `chars[from..to]` is a numeral without a leading zero.
fn numeral_in(chars: &Vec<char>, from: usize, to: usize) -> (all: bool)
    requires
        from <= to <= chars.len(),
    ensures
        all == is_numeral(chars@.subrange(from as int, to as int)),
{
    let ghost s = chars@.subrange(from as int, to as int);
    if !digits_in(chars, from, to) {
        return false;
    }
    assert(s[0] == chars@[from as int]);
    to - from == 1 || chars[from] != '0'
}

/// Whether `chars[from..to]` is a mantissa.
fn mantissa_in(chars: &Vec<char>, from: usize, to: usize) -> (all: bool)
    requires
        from <= to <= chars.len(),
    ensures
        all == is_mantissa(chars@.subrange(from as int, to as int)),
{
    let ghost s = chars@.subrange(from as int, to as int);
    let dot = find_char(chars, from, to, '.');
    if dot < to {
        assert(s.take(dot - from) =~= chars@.subrange(from as int, dot as int));
        assert(s.skip(dot - from + 1) =~= chars@.subrange(dot as int + 1, to as int));
        numeral_in(chars, from, dot) && digits_in(chars, dot + 1, to)
    } else {
        numeral_in(chars, from, to)
    }
}

/// Whether `chars[from..to]` is an exponent.
fn exponent_in(chars: &Vec<char>, from: usize, to: usize) -> (all: bool)
    requires
        from <= to <= chars.len(),
    ensures
        all == is_exponent(chars@.subrange(from as int, to as int)),
{
    let ghost s = chars@.subrange(from as int, to as int);
    if from < to && (chars[from] == '+' || chars[from] == '-') {
        assert(s[0] == chars@[from as int]);
        assert(s.skip(1) =~= chars@.subrange(from as int + 1, to as int));
        digits_in(chars, from + 1, to)
    } else {
        if from < to {
            assert(s[0] == chars@[from as int]);
        }
        digits_in(chars, from, to)
    }
}

/// Whether `chars[from..]` is a number literal without a sign.
fn unsigned_literal_in(chars: &Vec<char>, from: usize) -> (all: bool)
    requires
        from <= chars.len(),
    ensures
        all == is_unsigned_literal(chars@.skip(from as int)),
{
    let to = chars.len();
    let ghost s = chars@.skip(from as int);
    assert(s =~= chars@.subrange(from as int, to as int));
    let lower = find_char(chars, from, to, 'e');
    let upper = find_char(chars, from, to, 'E');
    let mark = if lower <= upper {
        lower
    } else {
        upper
    };
    if mark < to {
        assert(s.take(mark - from) =~= chars@.subrange(from as int, mark as int));
        assert(s.skip(mark - from + 1) =~= chars@.subrange(mark as int + 1, to as int));
        mantissa_in(chars, from, mark) && exponent_in(chars, mark + 1, to)
    } else {
        mantissa_in(chars, from, to)
    }
}

impl Decimal {
    /// Whether the number's literal follows the grammar of number literals.
    /// It does for every number that `parse` has let in.
    #[verifier::type_invariant]
    pub closed spec fn well_formed(self) -> bool {
        is_number_literal(self.literal@)
    }

    /// Takes `text` as the literal of a number: `Some` for exactly the texts
    /// that are number literals.
    pub fn parse(text: &str) -> (number: Option<Decimal>)
        ensures
            number is Some <==> is_number_literal(text@),
            number matches Some(n) ==> n@ == text@,
    {
        let chars = chars_of(text);
        let accepted = if chars.len() > 0 && chars[0] == '-' {
            unsigned_literal_in(&chars, 1)
        } else {
            assert(chars@.skip(0) =~= chars@);
            unsigned_literal_in(&chars, 0)
        };
        if accepted {
            Some(Decimal { literal: String::from_str(text) })
        } else {
            None
        }
    }

    /// The number's literal, which follows the grammar of number literals.
    pub fn literal(&self) -> (text: &str)
        ensures
            text@ == self@,
            is_number_literal(self@),
    {
        proof {
            use_type_invariant(self);
        }
        self.literal.as_str()
    }
}

impl Decode for Decimal {
    open spec fn accepts(value: Json) -> bool {
        value matches Json::Number(literal) && is_number_literal(literal@)
    }

    open spec fn renders(value: Json, decoded: Decimal) -> bool {
        value matches Json::Number(literal) && decoded@ == literal@
    }

    fn decode(value: &Json) -> (decoded: Option<Decimal>) {
        match value {
            Json::Number(literal) => Decimal::parse(literal.as_str()),
            _ => None,
        }
    }
}

} // verus!
