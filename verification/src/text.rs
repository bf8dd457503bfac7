//! Text utilities shared by the query serializer, the JSON document model
//! and the wire-name tables: string comparison, and the decimal and boolean
//! literals that scalar values take on the wire.

use vstd::prelude::*;
use vstd::string::StringSliceAdditionalSpecFns;

verus! {

/// Two strings with the same UTF-8 encoding hold the same characters.
pub proof fn lemma_same_bytes_same_chars(a: Seq<char>, b: Seq<char>)
    requires
        vstd::utf8::encode_utf8(a) == vstd::utf8::encode_utf8(b),
    ensures
        a == b,
{
    vstd::utf8::encode_utf8_decode_utf8(a);
    vstd::utf8::encode_utf8_decode_utf8(b);
}

/// Compares two string slices character by character.
pub fn str_eq(a: &str, b: &str) -> (equal: bool)
    ensures
        equal == (a@ == b@),
{
    let x = a.as_bytes();
    let y = b.as_bytes();
    if x.len() != y.len() {
        return false;
    }
    let mut i: usize = 0;
    while i < x.len()
        invariant
            i <= x.len(),
            x.len() == y.len(),
            x@ == a.spec_bytes(),
            y@ == b.spec_bytes(),
            forall|j: int| 0 <= j < i ==> x@[j] == y@[j],
        decreases x.len() - i,
    {
        if x[i] != y[i] {
            return false;
        }
        i += 1;
    }
    proof {
        assert(x@ =~= y@);
        lemma_same_bytes_same_chars(a@, b@);
    }
    true
}

/// The characters of `s`, in order.
pub fn chars_of(s: &str) -> (chars: Vec<char>)
    ensures
        chars@ == s@,
{
    let mut chars: Vec<char> = Vec::new();
    for c in it: s.chars()
        invariant
            chars@ == it.seq().take(it.index() as int),
            it.seq() == s@,
    {
        chars.push(c);
    }
    chars
}

/// The character that writes the decimal digit `d`.
pub open spec fn digit_char(d: int) -> char {
    if d == 0 {
        '0'
    } else if d == 1 {
        '1'
    } else if d == 2 {
        '2'
    } else if d == 3 {
        '3'
    } else if d == 4 {
        '4'
    } else if d == 5 {
        '5'
    } else if d == 6 {
        '6'
    } else if d == 7 {
        '7'
    } else if d == 8 {
        '8'
    } else {
        '9'
    }
}

/// Whether `c` is one of the ten decimal digits.
pub open spec fn is_digit(c: char) -> bool {
    '0' <= c && c <= '9'
}

/// The number that the decimal digit `c` writes.
pub open spec fn digit_value(c: char) -> int {
    c as int - '0' as int
}

/// The decimal numeral of `n`: most significant digit first, no leading zero.
pub open spec fn decimal_digits(n: nat) -> Seq<char>
    decreases n,
{
    if n < 10 {
        seq![digit_char(n as int)]
    } else {
        decimal_digits(n / 10).push(digit_char((n % 10) as int))
    }
}

/// The decimal numeral of an integer: a minus sign before the numeral of a
/// negative number's magnitude.
pub open spec fn signed_decimal(n: int) -> Seq<char> {
    if n < 0 {
        seq!['-'] + decimal_digits((-n) as nat)
    } else {
        decimal_digits(n as nat)
    }
}

/// The literal of a boolean: `true` or `false`.
pub open spec fn bool_chars(b: bool) -> Seq<char> {
    if b {
        seq!['t', 'r', 'u', 'e']
    } else {
        seq!['f', 'a', 'l', 's', 'e']
    }
}

/// The number that a sequence of decimal digits writes.
pub open spec fn digits_value(s: Seq<char>) -> nat
    decreases s.len(),
{
    if s.len() == 0 {
        0
    } else {
        (digits_value(s.drop_last()) * 10 + digit_value(s.last())) as nat
    }
}

/// Whether `s` is a decimal numeral without a leading zero.
pub open spec fn is_numeral(s: Seq<char>) -> bool {
    &&& s.len() >= 1
    &&& forall|i: int| 0 <= i < s.len() ==> is_digit(#[trigger] s[i])
    &&& (s.len() == 1 || s[0] != '0')
}

/// Every numeral that `decimal_digits` writes is well formed and has the
/// value it was written for.
pub proof fn lemma_decimal_digits_value(n: nat)
    ensures
        is_numeral(decimal_digits(n)),
        digits_value(decimal_digits(n)) == n,
    decreases n,
{
    let s = decimal_digits(n);
    if n < 10 {
        assert(s.drop_last() =~= Seq::<char>::empty());
        assert(digits_value(s.drop_last()) == 0);
        assert(s.last() == digit_char(n as int));
        assert(n != 0 ==> s[0] != '0');
    } else {
        let head = decimal_digits(n / 10);
        lemma_decimal_digits_value(n / 10);
        assert(s.drop_last() =~= head);
        assert(s.last() == digit_char((n % 10) as int));
        assert(s[0] == head[0]);
        lemma_leading_digit(n / 10);
        assert forall|i: int| 0 <= i < s.len() implies is_digit(#[trigger] s[i]) by {
            if i < head.len() {
                assert(s[i] == head[i]);
            }
        }
    }
}

/// The numeral of a positive number does not start with a zero.
pub proof fn lemma_leading_digit(n: nat)
    requires
        n >= 1,
    ensures
        decimal_digits(n).len() >= 1,
        decimal_digits(n)[0] != '0',
    decreases n,
{
    if n >= 10 {
        lemma_leading_digit(n / 10);
    }
}

/// A numeral that starts with a non-zero digit writes a positive number.
proof fn lemma_numeral_positive(s: Seq<char>)
    requires
        s.len() >= 1,
        forall|i: int| 0 <= i < s.len() ==> is_digit(#[trigger] s[i]),
        s[0] != '0',
    ensures
        digits_value(s) >= 1,
    decreases s.len(),
{
    let init = s.drop_last();
    assert(is_digit(s[s.len() - 1]));
    if init.len() >= 1 {
        assert(init[0] == s[0]);
        assert forall|i: int| 0 <= i < init.len() implies is_digit(#[trigger] init[i]) by {
            assert(init[i] == s[i]);
        }
        lemma_numeral_positive(init);
    } else {
        assert(is_digit(s[0]));
    }
}

/// A well-formed numeral is the one that `decimal_digits` writes for its
/// value.
pub proof fn lemma_numeral_digits(s: Seq<char>)
    requires
        is_numeral(s),
    ensures
        decimal_digits(digits_value(s)) == s,
    decreases s.len(),
{
    let init = s.drop_last();
    let d = digit_value(s.last());
    assert(is_digit(s[s.len() - 1]));
    assert(digit_char(d) == s.last());
    if s.len() == 1 {
        assert(init =~= Seq::<char>::empty());
        assert(digits_value(init) == 0);
        assert(decimal_digits(d as nat) =~= s);
    } else {
        assert(init[0] == s[0]);
        assert forall|i: int| 0 <= i < init.len() implies is_digit(#[trigger] init[i]) by {
            assert(init[i] == s[i]);
        }
        lemma_numeral_positive(init);
        lemma_numeral_digits(init);
        let n = digits_value(s);
        assert(n == digits_value(init) * 10 + d);
        assert(n / 10 == digits_value(init));
        assert(n % 10 == d);
        assert(decimal_digits(n) =~= s);
    }
}

/// Different numbers have different numerals.
pub proof fn lemma_decimal_digits_injective(a: nat, b: nat)
    requires
        decimal_digits(a) == decimal_digits(b),
    ensures
        a == b,
{
    lemma_decimal_digits_value(a);
    lemma_decimal_digits_value(b);
}

/// Different integers have different signed numerals.
pub proof fn lemma_signed_decimal_injective(a: int, b: int)
    requires
        signed_decimal(a) == signed_decimal(b),
    ensures
        a == b,
{
    let x = decimal_digits((if a < 0 { -a } else { a }) as nat);
    let y = decimal_digits((if b < 0 { -b } else { b }) as nat);
    lemma_decimal_digits_value((if a < 0 { -a } else { a }) as nat);
    lemma_decimal_digits_value((if b < 0 { -b } else { b }) as nat);
    assert(is_digit(x[0]) && is_digit(y[0]));
    if a < 0 && b < 0 {
        assert((seq!['-'] + x).skip(1) =~= x);
        assert((seq!['-'] + y).skip(1) =~= y);
        lemma_decimal_digits_injective((-a) as nat, (-b) as nat);
    } else if a < 0 {
        assert((seq!['-'] + x)[0] == '-');
    } else if b < 0 {
        assert((seq!['-'] + y)[0] == '-');
    } else {
        lemma_decimal_digits_injective(a as nat, b as nat);
    }
}

/// Different booleans have different literals.
pub proof fn lemma_bool_chars_injective(a: bool, b: bool)
    requires
        bool_chars(a) == bool_chars(b),
    ensures
        a == b,
{
    assert(bool_chars(a).len() == bool_chars(b).len());
}

/// The value of a digit sequence is at least the value of each of its
/// prefixes.
proof fn lemma_prefix_value(s: Seq<char>, k: int)
    requires
        0 <= k <= s.len(),
        forall|i: int| 0 <= i < s.len() ==> is_digit(#[trigger] s[i]),
    ensures
        digits_value(s.take(k)) <= digits_value(s),
    decreases s.len() - k,
{
    if k == s.len() {
        assert(s.take(k) =~= s);
    } else {
        let next = s.take(k + 1);
        assert(next.drop_last() =~= s.take(k));
        assert(next.last() == s[k]);
        assert(is_digit(s[k]));
        lemma_prefix_value(s, k + 1);
    }
}

/// The one-digit string that writes `d`.
pub fn digit_str(d: u64) -> (s: &'static str)
    requires
        d < 10,
    ensures
        s@ == seq![digit_char(d as int)],
{
    proof {
        reveal_strlit("0");
        reveal_strlit("1");
        reveal_strlit("2");
        reveal_strlit("3");
        reveal_strlit("4");
        reveal_strlit("5");
        reveal_strlit("6");
        reveal_strlit("7");
        reveal_strlit("8");
        reveal_strlit("9");
    }
    let s = if d == 0 {
        "0"
    } else if d == 1 {
        "1"
    } else if d == 2 {
        "2"
    } else if d == 3 {
        "3"
    } else if d == 4 {
        "4"
    } else if d == 5 {
        "5"
    } else if d == 6 {
        "6"
    } else if d == 7 {
        "7"
    } else if d == 8 {
        "8"
    } else {
        "9"
    };
    assert(s@ =~= seq![digit_char(d as int)]);
    s
}

/// Whether `c` is one of the letters `A` to `Z` and `a` to `z`.
pub open spec fn is_ascii_letter(c: char) -> bool {
    ('A' <= c && c <= 'Z') || ('a' <= c && c <= 'z')
}

/// The one-letter string that holds `c`.
pub fn letter_str(c: char) -> (s: &'static str)
    requires
        is_ascii_letter(c),
    ensures
        s@ == seq![c],
{
    proof {
        reveal_strlit("A");
        reveal_strlit("B");
        reveal_strlit("C");
        reveal_strlit("D");
        reveal_strlit("E");
        reveal_strlit("F");
        reveal_strlit("G");
        reveal_strlit("H");
        reveal_strlit("I");
        reveal_strlit("J");
        reveal_strlit("K");
        reveal_strlit("L");
        reveal_strlit("M");
        reveal_strlit("N");
        reveal_strlit("O");
        reveal_strlit("P");
        reveal_strlit("Q");
        reveal_strlit("R");
        reveal_strlit("S");
        reveal_strlit("T");
        reveal_strlit("U");
        reveal_strlit("V");
        reveal_strlit("W");
        reveal_strlit("X");
        reveal_strlit("Y");
        reveal_strlit("Z");
        reveal_strlit("a");
        reveal_strlit("b");
        reveal_strlit("c");
        reveal_strlit("d");
        reveal_strlit("e");
        reveal_strlit("f");
        reveal_strlit("g");
        reveal_strlit("h");
        reveal_strlit("i");
        reveal_strlit("j");
        reveal_strlit("k");
        reveal_strlit("l");
        reveal_strlit("m");
        reveal_strlit("n");
        reveal_strlit("o");
        reveal_strlit("p");
        reveal_strlit("q");
        reveal_strlit("r");
        reveal_strlit("s");
        reveal_strlit("t");
        reveal_strlit("u");
        reveal_strlit("v");
        reveal_strlit("w");
        reveal_strlit("x");
        reveal_strlit("y");
        reveal_strlit("z");
    }
    let s = match c {
        'A' => "A",
        'B' => "B",
        'C' => "C",
        'D' => "D",
        'E' => "E",
        'F' => "F",
        'G' => "G",
        'H' => "H",
        'I' => "I",
        'J' => "J",
        'K' => "K",
        'L' => "L",
        'M' => "M",
        'N' => "N",
        'O' => "O",
        'P' => "P",
        'Q' => "Q",
        'R' => "R",
        'S' => "S",
        'T' => "T",
        'U' => "U",
        'V' => "V",
        'W' => "W",
        'X' => "X",
        'Y' => "Y",
        'Z' => "Z",
        'a' => "a",
        'b' => "b",
        'c' => "c",
        'd' => "d",
        'e' => "e",
        'f' => "f",
        'g' => "g",
        'h' => "h",
        'i' => "i",
        'j' => "j",
        'k' => "k",
        'l' => "l",
        'm' => "m",
        'n' => "n",
        'o' => "o",
        'p' => "p",
        'q' => "q",
        'r' => "r",
        's' => "s",
        't' => "t",
        'u' => "u",
        'v' => "v",
        'w' => "w",
        'x' => "x",
        'y' => "y",
        _ => "z",
    };
    assert(s@ =~= seq![c]);
    s
}

/// Appends the decimal numeral of `n` to `out`.
pub fn push_decimal(out: &mut String, n: u64)
    ensures
        final(out)@ == old(out)@ + decimal_digits(n as nat),
    decreases n,
{
    if n >= 10 {
        push_decimal(out, n / 10);
    }
    out.append(digit_str(n % 10));
}

/// Writes `n` as a decimal numeral.
pub fn u64_to_decimal(n: u64) -> (text: String)
    ensures
        text@ == decimal_digits(n as nat),
{
    let mut text = String::new();
    push_decimal(&mut text, n);
    assert(text@ =~= decimal_digits(n as nat));
    text
}

/// Writes `n` as a decimal numeral, with a minus sign if it is negative.
pub fn i64_to_decimal(n: i64) -> (text: String)
    ensures
        text@ == signed_decimal(n as int),
{
    let mut text = String::new();
    if n < 0 {
        proof {
            reveal_strlit("-");
        }
        text.append("-");
        let magnitude: u64 = (-(n + 1)) as u64 + 1;
        push_decimal(&mut text, magnitude);
        assert(text@ =~= signed_decimal(n as int));
    } else {
        push_decimal(&mut text, n as u64);
        assert(text@ =~= signed_decimal(n as int));
    }
    text
}

/// The literal of a boolean.
pub fn bool_str(b: bool) -> (text: &'static str)
    ensures
        text@ == bool_chars(b),
{
    proof {
        reveal_strlit("true");
        reveal_strlit("false");
    }
    let text = if b {
        "true"
    } else {
        "false"
    };
    assert(text@ =~= bool_chars(b));
    text
}

/// Reads a boolean literal: `Some` for exactly `true` and `false`.
pub fn parse_bool(text: &str) -> (value: Option<bool>)
    ensures
        match value {
            Some(b) => text@ == bool_chars(b),
            None => forall|b: bool| text@ != bool_chars(b),
        },
{
    if str_eq(text, bool_str(true)) {
        Some(true)
    } else if str_eq(text, bool_str(false)) {
        Some(false)
    } else {
        None
    }
}

/// Reads the value of the digits `chars[from..]`, which must form a numeral
/// that fits 64 bits.
fn parse_numeral(chars: &Vec<char>, from: usize) -> (value: Option<u64>)
    requires
        from <= chars.len(),
    ensures
        match value {
            Some(n) => chars@.skip(from as int) == decimal_digits(n as nat),
            None => forall|n: u64| chars@.skip(from as int) != decimal_digits(n as nat),
        },
{
    let ghost s = chars@.skip(from as int);
    let len = chars.len() - from;
    if len == 0 {
        proof {
            assert forall|n: u64| s != decimal_digits(n as nat) by {
                lemma_decimal_digits_value(n as nat);
            }
        }
        return None;
    }
    if len > 1 && chars[from] == '0' {
        proof {
            assert(s[0] == '0');
            assert forall|n: u64| s != decimal_digits(n as nat) by {
                lemma_decimal_digits_value(n as nat);
            }
        }
        return None;
    }
    let mut value: u64 = 0;
    let mut i: usize = 0;
    while i < len
        invariant
            i <= len,
            len == chars.len() - from,
            from <= chars.len(),
            s == chars@.skip(from as int),
            s.len() == len,
            forall|j: int| 0 <= j < i ==> is_digit(#[trigger] s[j]),
            value == digits_value(s.take(i as int)),
        decreases len - i,
    {
        let c = chars[from + i];
        assert(c == s[i as int]);
        if !('0' <= c && c <= '9') {
            proof {
                assert forall|n: u64| s != decimal_digits(n as nat) by {
                    lemma_decimal_digits_value(n as nat);
                }
            }
            return None;
        }
        let d: u64 = (c as u32 - '0' as u32) as u64;
        proof {
            let next = s.take(i as int + 1);
            assert(next.drop_last() =~= s.take(i as int));
            assert(next.last() == c);
            assert(digits_value(next) == value * 10 + d);
        }
        if value > (u64::MAX - d) / 10 {
            proof {
                assert(value * 10 + d > u64::MAX);
                assert forall|n: u64| s != decimal_digits(n as nat) by {
                    lemma_decimal_digits_value(n as nat);
                    if s == decimal_digits(n as nat) {
                        lemma_prefix_value(s, i as int + 1);
                    }
                }
            }
            return None;
        }
        value = value * 10 + d;
        i += 1;
    }
    proof {
        assert(s.take(len as int) =~= s);
        assert(is_numeral(s));
        lemma_numeral_digits(s);
    }
    Some(value)
}

/// Reads an unsigned decimal numeral: `Some(n)` for exactly the text that
/// `u64_to_decimal` writes for `n`.
pub fn parse_u64(text: &str) -> (value: Option<u64>)
    ensures
        match value {
            Some(n) => text@ == decimal_digits(n as nat),
            None => forall|n: u64| text@ != decimal_digits(n as nat),
        },
{
    let chars = chars_of(text);
    assert(chars@.skip(0) =~= text@);
    parse_numeral(&chars, 0)
}

/// Reads a signed decimal numeral: `Some(n)` for exactly the text that
/// `i64_to_decimal` writes for `n`.
pub fn parse_i64(text: &str) -> (value: Option<i64>)
    ensures
        match value {
            Some(n) => text@ == signed_decimal(n as int),
            None => forall|n: i64| text@ != signed_decimal(n as int),
        },
{
    let chars = chars_of(text);
    let ghost s = text@;
    if chars.len() > 0 && chars[0] == '-' {
        let ghost tail = s.skip(1);
        proof {
            assert forall|n: i64| n >= 0 implies s != signed_decimal(n as int) by {
                lemma_decimal_digits_value(n as nat);
                assert(is_digit(decimal_digits(n as nat)[0]));
            }
            assert forall|n: i64| n < 0 && s == signed_decimal(n as int) implies tail
                == decimal_digits((-n) as nat) by {
                assert((seq!['-'] + decimal_digits((-n) as nat)).skip(1) =~= decimal_digits(
                    (-n) as nat,
                ));
            }
        }
        match parse_numeral(&chars, 1) {
            Some(m) => {
                if m == 0 || m > 9223372036854775808u64 {
                    proof {
                        assert forall|n: i64| s != signed_decimal(n as int) by {
                            if n < 0 && s == signed_decimal(n as int) {
                                lemma_decimal_digits_injective((-n) as nat, m as nat);
                            }
                        }
                    }
                    None
                } else {
                    let n: i64 = if m == 9223372036854775808u64 {
                        i64::MIN
                    } else {
                        -(m as i64)
                    };
                    assert(s =~= seq!['-'] + tail);
                    Some(n)
                }
            },
            None => {
                proof {
                    assert forall|n: i64| s != signed_decimal(n as int) by {
                        if n < 0 && s == signed_decimal(n as int) {
                            assert(tail == decimal_digits(((-n) as u64) as nat));
                        }
                    }
                }
                None
            },
        }
    } else {
        assert(chars@.skip(0) =~= s);
        proof {
            assert forall|n: i64| n < 0 implies s != signed_decimal(n as int) by {
                assert((seq!['-'] + decimal_digits((-n) as nat))[0] == '-');
            }
        }
        match parse_numeral(&chars, 0) {
            Some(m) => {
                if m > 9223372036854775807u64 {
                    proof {
                        assert forall|n: i64| s != signed_decimal(n as int) by {
                            if n >= 0 && s == signed_decimal(n as int) {
                                lemma_decimal_digits_injective(n as nat, m as nat);
                            }
                        }
                    }
                    None
                } else {
                    Some(m as i64)
                }
            },
            None => {
                proof {
                    assert forall|n: i64| s != signed_decimal(n as int) by {
                        if n >= 0 && s == signed_decimal(n as int) {
                            assert(s == decimal_digits((n as u64) as nat));
                        }
                    }
                }
                None
            },
        }
    }
}

/// The index of the first `c` in `s`, or the length of `s` where it holds
/// none.
pub open spec fn first_index(s: Seq<char>, c: char) -> int
    decreases s.len(),
{
    if s.len() == 0 {
        0
    } else if s[0] == c {
        0
    } else {
        1 + first_index(s.drop_first(), c)
    }
}

/// Where the first `c` stands in `s`: within `s` or at its end, after
/// characters that are not `c`.
pub proof fn lemma_first_index_bounds(s: Seq<char>, c: char)
    ensures
        0 <= first_index(s, c) <= s.len(),
        first_index(s, c) < s.len() ==> s[first_index(s, c)] == c,
        forall|j: int| 0 <= j < first_index(s, c) ==> s[j] != c,
    decreases s.len(),
{
    if s.len() != 0 && s[0] != c {
        let rest = s.drop_first();
        lemma_first_index_bounds(rest, c);
        assert forall|j: int| 0 <= j < first_index(s, c) implies s[j] != c by {
            if j > 0 {
                assert(s[j] == rest[j - 1]);
            }
        }
    }
}

/// The first `c` stands where a `c` follows characters that are not `c`.
pub proof fn lemma_first_index_is(s: Seq<char>, c: char, at: int)
    requires
        0 <= at <= s.len(),
        forall|j: int| 0 <= j < at ==> s[j] != c,
        at < s.len() ==> s[at] == c,
    ensures
        first_index(s, c) == at,
    decreases s.len(),
{
    if s.len() != 0 && at != 0 {
        let rest = s.drop_first();
        assert(s[0] != c);
        assert forall|j: int| 0 <= j < at - 1 implies rest[j] != c by {
            assert(rest[j] == s[j + 1]);
        }
        lemma_first_index_is(rest, c, at - 1);
    }
}

/// The index of the first `c` in `chars[from..to]`, or `to`.
pub fn find_char(chars: &Vec<char>, from: usize, to: usize, c: char) -> (at: usize)
    requires
        from <= to <= chars.len(),
    ensures
        from <= at <= to,
        at - from == first_index(chars@.subrange(from as int, to as int), c),
{
    let ghost s = chars@.subrange(from as int, to as int);
    let mut at = from;
    while at < to && chars[at] != c
        invariant
            from <= at <= to,
            to <= chars.len(),
            s == chars@.subrange(from as int, to as int),
            forall|j: int| 0 <= j < at - from ==> s[j] != c,
        decreases to - at,
    {
        assert(s[at - from] == chars@[at as int]);
        at += 1;
    }
    proof {
        if at < to {
            assert(s[at - from] == chars@[at as int]);
        }
        lemma_first_index_is(s, c, at - from);
    }
    at
}

} // verus!
