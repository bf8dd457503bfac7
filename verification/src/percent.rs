//! Percent-encoding of the names and values of a query string.
//!
//! A text is encoded byte by byte over its UTF-8 form. Letters, digits and
//! the marks that a query may hold as data without changing how it is
//! parted stand for themselves: `-`, `.`, `_`, `~`, `:`, `@`, `/`, `,`, `;`,
//! `!`, `$`, `'`, `(`, `)` and `*`. Every other byte is written as `%` and
//! two upper-case hex digits: `%`, `&`, `=`, `?`, `#`, `+`, the space, `"`,
//! `<`, `>`, the other marks, control characters and everything beyond
//! ASCII. Decoding takes exactly the texts that encoding writes.

use vstd::prelude::*;
use vstd::string::StringSliceAdditionalSpecFns;
use vstd::utf8::{decode_utf8, encode_utf8, valid_utf8};

use crate::text::{
    bool_chars, chars_of, decimal_digits, digit_char, digit_str, is_digit,
    lemma_decimal_digits_value, letter_str, signed_decimal,
};

verus! {

/// Whether the byte stands for itself in an encoded text: a letter, a
/// digit, or one of `-._~:@/,;!$'()*`.
pub open spec fn is_kept(b: u8) -> bool {
    ||| 0x41 <= b <= 0x5a
    ||| 0x61 <= b <= 0x7a
    ||| 0x30 <= b <= 0x3b
    ||| 0x27 <= b <= 0x2a
    ||| 0x2c <= b <= 0x2f
    ||| b == 0x21
    ||| b == 0x24
    ||| b == 0x40
    ||| b == 0x5f
    ||| b == 0x7e
}

/// Whether the character stands for itself in an encoded text: a letter, a
/// digit, or one of `-._~:@/,;!$'()*`.
pub open spec fn is_kept_char(c: char) -> bool {
    ||| 'A' <= c <= 'Z'
    ||| 'a' <= c <= 'z'
    ||| '0' <= c <= '9'
    ||| c == '-'
    ||| c == '.'
    ||| c == '_'
    ||| c == '~'
    ||| c == ':'
    ||| c == '@'
    ||| c == '/'
    ||| c == ','
    ||| c == ';'
    ||| c == '!'
    ||| c == '$'
    ||| c == '\''
    ||| c == '('
    ||| c == ')'
    ||| c == '*'
}

/// The upper-case hex digit of a number below sixteen.
pub open spec fn hex_digit(n: int) -> char {
    if n < 10 {
        digit_char(n)
    } else if n == 10 {
        'A'
    } else if n == 11 {
        'B'
    } else if n == 12 {
        'C'
    } else if n == 13 {
        'D'
    } else if n == 14 {
        'E'
    } else {
        'F'
    }
}

/// The number that an upper-case hex digit writes.
pub open spec fn hex_value(c: char) -> Option<int> {
    if '0' <= c <= '9' {
        Some(c as int - '0' as int)
    } else if 'A' <= c <= 'F' {
        Some(c as int - 'A' as int + 10)
    } else {
        None
    }
}

/// The encoded form of one byte.
pub open spec fn encoded_byte(b: u8) -> Seq<char> {
    if is_kept(b) {
        seq![b as char]
    } else {
        seq!['%', hex_digit(b as int / 16), hex_digit(b as int % 16)]
    }
}

/// The encoded form of bytes: that of each byte, in order.
pub open spec fn encoded_bytes(bytes: Seq<u8>) -> Seq<char>
    decreases bytes.len(),
{
    if bytes.len() == 0 {
        Seq::empty()
    } else {
        encoded_byte(bytes[0]) + encoded_bytes(bytes.drop_first())
    }
}

/// The percent-encoded form of a text: the encoded form of its UTF-8 bytes.
pub open spec fn percent_encoded(text: Seq<char>) -> Seq<char> {
    encoded_bytes(encode_utf8(text))
}

/// `head` before the bytes of `tail`, if there are any.
pub open spec fn prepend_bytes(head: Seq<u8>, tail: Option<Seq<u8>>) -> Option<Seq<u8>> {
    match tail {
        Some(rest) => Some(head + rest),
        None => None,
    }
}

/// The bytes that an encoded text stands for. `None` for a text that no
/// bytes are encoded as: one with a character that must be encoded, a `%`
/// without two upper-case hex digits, or a `%` for a byte that stands for
/// itself.
pub open spec fn decoded_bytes(s: Seq<char>) -> Option<Seq<u8>>
    decreases s.len(),
{
    if s.len() == 0 {
        Some(Seq::empty())
    } else if s[0] == '%' {
        if s.len() >= 3 && hex_value(s[1]) is Some && hex_value(s[2]) is Some {
            let b = (16 * hex_value(s[1])->0 + hex_value(s[2])->0) as u8;
            if is_kept(b) {
                None
            } else {
                prepend_bytes(seq![b], decoded_bytes(s.skip(3)))
            }
        } else {
            None
        }
    } else if is_kept_char(s[0]) {
        prepend_bytes(seq![s[0] as u8], decoded_bytes(s.skip(1)))
    } else {
        None
    }
}

/// The text that an encoded text stands for. `None` where `decoded_bytes`
/// finds no bytes, or bytes that are not UTF-8.
pub open spec fn percent_decoded(s: Seq<char>) -> Option<Seq<char>> {
    match decoded_bytes(s) {
        Some(bytes) => if valid_utf8(bytes) {
            Some(decode_utf8(bytes))
        } else {
            None
        },
        None => None,
    }
}

/// One more byte is encoded after the others.
proof fn lemma_encoded_push(bytes: Seq<u8>, b: u8)
    ensures
        encoded_bytes(bytes.push(b)) == encoded_bytes(bytes) + encoded_byte(b),
    decreases bytes.len(),
{
    let all = bytes.push(b);
    if bytes.len() == 0 {
        assert(all[0] == b);
        assert(all.drop_first() =~= Seq::<u8>::empty());
        assert(encoded_bytes(all.drop_first()) =~= Seq::<char>::empty());
        assert(encoded_bytes(all) =~= encoded_byte(b));
        assert(encoded_bytes(bytes) + encoded_byte(b) =~= encoded_byte(b));
    } else {
        assert(all[0] == bytes[0]);
        assert(all.drop_first() =~= bytes.drop_first().push(b));
        lemma_encoded_push(bytes.drop_first(), b);
        assert(encoded_bytes(all) =~= encoded_bytes(bytes) + encoded_byte(b));
    }
}

/// The encoded form of a byte holds none of the characters that part a
/// query string.
pub proof fn lemma_encoded_byte_safe(b: u8)
    ensures
        forall|i: int|
            0 <= i < encoded_byte(b).len() ==> {
                let c = #[trigger] encoded_byte(b)[i];
                c != '&' && c != '=' && c != '?'
            },
{
}

/// An encoded text holds none of the characters that part a query string.
pub proof fn lemma_encoded_safe(bytes: Seq<u8>)
    ensures
        !encoded_bytes(bytes).contains('&'),
        !encoded_bytes(bytes).contains('='),
        !encoded_bytes(bytes).contains('?'),
    decreases bytes.len(),
{
    if bytes.len() != 0 {
        let head = encoded_byte(bytes[0]);
        let tail = encoded_bytes(bytes.drop_first());
        lemma_encoded_byte_safe(bytes[0]);
        lemma_encoded_safe(bytes.drop_first());
        let s = encoded_bytes(bytes);
        assert forall|i: int| 0 <= i < s.len() implies s[i] != '&' && s[i] != '=' && s[i]
            != '?' by {
            if i < head.len() {
                assert(s[i] == head[i]);
            } else {
                assert(s[i] == tail[i - head.len()]);
                assert(tail.contains(tail[i - head.len()]));
            }
        }
    }
}

/// A hex digit writes the number it is the digit of.
proof fn lemma_hex_digit_value(n: int)
    requires
        0 <= n < 16,
    ensures
        hex_value(hex_digit(n)) == Some(n),
        hex_digit(n) != '%',
{
}

/// A hex digit is the digit of the number it writes.
proof fn lemma_hex_value_digit(c: char)
    requires
        hex_value(c) is Some,
    ensures
        0 <= hex_value(c)->0 < 16,
        hex_digit(hex_value(c)->0) == c,
{
}

/// A byte that stands for itself is the character that stands for itself.
proof fn lemma_kept_byte(b: u8)
    requires
        is_kept(b),
    ensures
        is_kept_char(b as char),
        (b as char) as u8 == b,
        b as char != '%',
{
}

/// A character stands for itself exactly if it is in ASCII and its byte
/// stands for itself.
proof fn lemma_kept_ascii(c: char)
    ensures
        is_kept_char(c) <==> (c <= '\u{7f}' && is_kept(c as u8)),
{
}

/// A character that stands for itself is the byte that stands for itself.
proof fn lemma_kept_char(c: char)
    requires
        is_kept_char(c),
    ensures
        is_kept(c as u8),
        (c as u8) as char == c,
{
}

/// Decoding recovers the bytes that were encoded.
pub proof fn lemma_decoded_encoded(bytes: Seq<u8>)
    ensures
        decoded_bytes(encoded_bytes(bytes)) == Some(bytes),
    decreases bytes.len(),
{
    if bytes.len() == 0 {
        assert(bytes =~= Seq::<u8>::empty());
    } else {
        let b = bytes[0];
        let head = encoded_byte(b);
        let tail = encoded_bytes(bytes.drop_first());
        let s = encoded_bytes(bytes);
        lemma_decoded_encoded(bytes.drop_first());
        assert(s[0] == head[0]);
        assert(seq![b] + bytes.drop_first() =~= bytes);
        if is_kept(b) {
            lemma_kept_byte(b);
            assert(s.skip(1) =~= tail);
        } else {
            let high = b as int / 16;
            let low = b as int % 16;
            lemma_hex_digit_value(high);
            lemma_hex_digit_value(low);
            assert(s[1] == head[1]);
            assert(s[2] == head[2]);
            assert(s.skip(3) =~= tail);
            assert((16 * high + low) as u8 == b);
        }
    }
}

/// A text that decodes is the encoded form of its bytes.
pub proof fn lemma_encoded_decoded(s: Seq<char>)
    requires
        decoded_bytes(s) is Some,
    ensures
        encoded_bytes(decoded_bytes(s)->0) == s,
    decreases s.len(),
{
    if s.len() != 0 {
        let bytes = decoded_bytes(s)->0;
        if s[0] == '%' {
            let hi = hex_value(s[1])->0;
            let lo = hex_value(s[2])->0;
            let b = (16 * hi + lo) as u8;
            let rest = s.skip(3);
            lemma_encoded_decoded(rest);
            lemma_hex_value_digit(s[1]);
            lemma_hex_value_digit(s[2]);
            assert(bytes[0] == b);
            assert(bytes.drop_first() =~= decoded_bytes(rest)->0);
            assert(b as int / 16 == hi && b as int % 16 == lo);
            assert(encoded_byte(b) + rest =~= s);
        } else {
            let b = s[0] as u8;
            let rest = s.skip(1);
            lemma_encoded_decoded(rest);
            lemma_kept_char(s[0]);
            assert(bytes[0] == b);
            assert(bytes.drop_first() =~= decoded_bytes(rest)->0);
            assert(encoded_byte(b) + rest =~= s);
        }
    }
}

/// Decoding recovers the text that was encoded.
pub proof fn lemma_percent_round_trip(text: Seq<char>)
    ensures
        percent_decoded(percent_encoded(text)) == Some(text),
{
    lemma_decoded_encoded(encode_utf8(text));
    vstd::utf8::encode_utf8_valid_utf8(text);
    vstd::utf8::encode_utf8_decode_utf8(text);
}

/// A text that decodes is the encoded form of what it decodes to.
pub proof fn lemma_percent_decoded_sound(s: Seq<char>)
    requires
        percent_decoded(s) is Some,
    ensures
        percent_encoded(percent_decoded(s)->0) == s,
{
    lemma_encoded_decoded(s);
    vstd::utf8::decode_utf8_encode_utf8(decoded_bytes(s)->0);
}

/// A percent-encoded text holds none of the characters that part a query
/// string.
pub proof fn lemma_percent_encoded_safe(text: Seq<char>)
    ensures
        !percent_encoded(text).contains('&'),
        !percent_encoded(text).contains('='),
        !percent_encoded(text).contains('?'),
{
    lemma_encoded_safe(encode_utf8(text));
}

/// Whether every character of the text stands for itself when encoded.
pub open spec fn is_kept_text(text: Seq<char>) -> bool {
    forall|i: int| 0 <= i < text.len() ==> is_kept_char(#[trigger] text[i])
}

/// Bytes that are the characters of a text that is kept are encoded as that
/// text.
proof fn lemma_encoded_kept(bytes: Seq<u8>, text: Seq<char>)
    requires
        bytes.len() == text.len(),
        is_kept_text(text),
        forall|i: int| 0 <= i < text.len() ==> bytes[i] == #[trigger] text[i] as u8,
    ensures
        encoded_bytes(bytes) == text,
    decreases bytes.len(),
{
    if bytes.len() == 0 {
        assert(text =~= Seq::<char>::empty());
    } else {
        let rest = text.drop_first();
        assert(is_kept_char(text[0]));
        lemma_kept_char(text[0]);
        assert forall|i: int| 0 <= i < rest.len() implies is_kept_char(
            #[trigger] rest[i],
        ) && bytes.drop_first()[i] == rest[i] as u8 by {
            assert(rest[i] == text[i + 1]);
        }
        lemma_encoded_kept(bytes.drop_first(), rest);
        assert(encoded_byte(bytes[0]) =~= seq![text[0]]);
        assert(seq![text[0]] + rest =~= text);
    }
}

/// A text of characters that stand for themselves is encoded as itself.
pub proof fn lemma_kept_text(text: Seq<char>)
    requires
        is_kept_text(text),
    ensures
        percent_encoded(text) == text,
{
    assert(vstd::utf8::is_ascii_chars(text)) by {
        assert forall|i: int| 0 <= i < text.len() implies '\0' <= #[trigger] text[i]
            <= '\u{7f}' by {
            assert(is_kept_char(text[i]));
        }
    }
    vstd::utf8::is_ascii_chars_encode_utf8(text);
    lemma_encoded_kept(encode_utf8(text), text);
}

/// The numeral of a natural number is written into a query string as it is.
pub proof fn lemma_numeral_kept(n: nat)
    ensures
        percent_encoded(decimal_digits(n)) == decimal_digits(n),
{
    lemma_decimal_digits_value(n);
    let s = decimal_digits(n);
    assert forall|i: int| 0 <= i < s.len() implies is_kept_char(#[trigger] s[i]) by {
        assert(is_digit(s[i]));
    }
    lemma_kept_text(s);
}

/// The numeral of an integer is written into a query string as it is.
pub proof fn lemma_signed_numeral_kept(n: int)
    ensures
        percent_encoded(signed_decimal(n)) == signed_decimal(n),
{
    let magnitude = (if n < 0 {
        -n
    } else {
        n
    }) as nat;
    lemma_decimal_digits_value(magnitude);
    let digits = decimal_digits(magnitude);
    let s = signed_decimal(n);
    assert forall|i: int| 0 <= i < s.len() implies is_kept_char(#[trigger] s[i]) by {
        if n < 0 {
            if i > 0 {
                assert(s[i] == digits[i - 1]);
                assert(is_digit(digits[i - 1]));
            }
        } else {
            assert(is_digit(digits[i]));
        }
    }
    lemma_kept_text(s);
}

/// The literal of a boolean is written into a query string as it is.
pub proof fn lemma_bool_kept(b: bool)
    ensures
        percent_encoded(bool_chars(b)) == bool_chars(b),
{
    lemma_kept_text(bool_chars(b));
}

/// Calls `String::from_utf8`. It gives the string that holds exactly the
/// bytes, and no string for bytes that are not UTF-8.
#[verifier::external_body]
fn string_from_utf8(bytes: Vec<u8>) -> (text: Option<String>)
    ensures
        text matches Some(t) ==> encode_utf8(t@) == bytes@,
        text is None ==> !valid_utf8(bytes@),
{
    String::from_utf8(bytes).ok()
}

/// Whether the byte stands for itself in an encoded text.
fn keeps(b: u8) -> (kept: bool)
    ensures
        kept == is_kept(b),
{
    let letter = (0x41 <= b && b <= 0x5a) || (0x61 <= b && b <= 0x7a);
    let digit_or_colon = 0x30 <= b && b <= 0x3b;
    let mark = (0x27 <= b && b <= 0x2a) || (0x2c <= b && b <= 0x2f);
    let other = b == 0x21 || b == 0x24 || b == 0x40 || b == 0x5f || b == 0x7e;
    letter || digit_or_colon || mark || other
}

/// The one-character string of a byte that stands for itself.
fn kept_str(b: u8) -> (s: &'static str)
    requires
        is_kept(b),
    ensures
        s@ == seq![b as char],
{
    proof {
        reveal_strlit("-");
        reveal_strlit(".");
        reveal_strlit("_");
        reveal_strlit("~");
        reveal_strlit(":");
        reveal_strlit("@");
        reveal_strlit("/");
        reveal_strlit(",");
        reveal_strlit(";");
        reveal_strlit("!");
        reveal_strlit("$");
        reveal_strlit("'");
        reveal_strlit("(");
        reveal_strlit(")");
        reveal_strlit("*");
    }
    let s = if 0x30 <= b && b <= 0x39 {
        digit_str((b - 0x30) as u64)
    } else if b == 0x2d {
        "-"
    } else if b == 0x2e {
        "."
    } else if b == 0x5f {
        "_"
    } else if b == 0x7e {
        "~"
    } else if b == 0x3a {
        ":"
    } else if b == 0x40 {
        "@"
    } else if b == 0x2f {
        "/"
    } else if b == 0x2c {
        ","
    } else if b == 0x3b {
        ";"
    } else if b == 0x21 {
        "!"
    } else if b == 0x24 {
        "$"
    } else if b == 0x27 {
        "'"
    } else if b == 0x28 {
        "("
    } else if b == 0x29 {
        ")"
    } else if b == 0x2a {
        "*"
    } else {
        letter_str(b as char)
    };
    assert(s@ =~= seq![b as char]);
    s
}

/// The one-character string of an upper-case hex digit.
fn hex_str(n: u8) -> (s: &'static str)
    requires
        n < 16,
    ensures
        s@ == seq![hex_digit(n as int)],
{
    if n < 10 {
        digit_str(n as u64)
    } else {
        let s = letter_str((n - 10 + 0x41) as char);
        assert(s@ =~= seq![hex_digit(n as int)]);
        s
    }
}

/// Percent-encodes a text.
pub fn percent_encode(text: &str) -> (encoded: String)
    ensures
        encoded@ == percent_encoded(text@),
{
    let bytes = text.as_bytes();
    let mut encoded = String::new();
    let mut i: usize = 0;
    assert(bytes@.take(0) =~= Seq::<u8>::empty());
    while i < bytes.len()
        invariant
            i <= bytes.len(),
            bytes@ == encode_utf8(text@),
            encoded@ == encoded_bytes(bytes@.take(i as int)),
        decreases bytes.len() - i,
    {
        let b = bytes[i];
        let ghost before = encoded@;
        proof {
            lemma_encoded_push(bytes@.take(i as int), b);
            assert(bytes@.take(i as int + 1) =~= bytes@.take(i as int).push(b));
        }
        if keeps(b) {
            encoded.append(kept_str(b));
        } else {
            proof {
                reveal_strlit("%");
            }
            encoded.append("%");
            encoded.append(hex_str(b / 16));
            encoded.append(hex_str(b % 16));
        }
        assert(encoded@ =~= before + encoded_byte(b));
        i += 1;
    }
    assert(bytes@.take(i as int) =~= bytes@);
    encoded
}

/// The number that an upper-case hex digit writes.
fn hex_digit_value(c: char) -> (value: Option<u8>)
    ensures
        match value {
            Some(n) => hex_value(c) == Some(n as int) && n < 16,
            None => hex_value(c) is None,
        },
{
    if '0' <= c && c <= '9' {
        Some((c as u32 - '0' as u32) as u8)
    } else if 'A' <= c && c <= 'F' {
        Some((c as u32 - 'A' as u32 + 10) as u8)
    } else {
        None
    }
}

/// Decodes a percent-encoded text: `Some` for exactly the texts that
/// `percent_encode` writes, with the text that was encoded.
pub fn percent_decode(text: &str) -> (decoded: Option<String>)
    ensures
        match decoded {
            Some(t) => percent_decoded(text@) == Some(t@),
            None => percent_decoded(text@) is None,
        },
{
    let chars = chars_of(text);
    let ghost s = text@;
    let n = chars.len();
    let mut bytes: Vec<u8> = Vec::new();
    let mut i: usize = 0;
    proof {
        assert(s.skip(0) =~= s);
        if let Some(rest) = decoded_bytes(s) {
            assert(Seq::<u8>::empty() + rest =~= rest);
        }
    }
    while i < n
        invariant
            i <= n,
            n == chars.len(),
            chars@ == s,
            s == text@,
            decoded_bytes(s) == prepend_bytes(bytes@, decoded_bytes(s.skip(i as int))),
        decreases n - i,
    {
        let ghost rest = s.skip(i as int);
        let ghost before = bytes@;
        let c = chars[i];
        assert(rest[0] == c);
        if c == '%' {
            if n - i < 3 {
                return None;
            }
            assert(rest[1] == chars@[i as int + 1]);
            assert(rest[2] == chars@[i as int + 2]);
            let high = match hex_digit_value(chars[i + 1]) {
                Some(h) => h,
                None => {
                    return None;
                },
            };
            let low = match hex_digit_value(chars[i + 2]) {
                Some(l) => l,
                None => {
                    return None;
                },
            };
            let b: u8 = 16 * high + low;
            if keeps(b) {
                return None;
            }
            bytes.push(b);
            proof {
                assert(rest.skip(3) =~= s.skip(i as int + 3));
                if let Some(tail) = decoded_bytes(rest.skip(3)) {
                    assert(before + (seq![b] + tail) =~= before.push(b) + tail);
                }
            }
            i += 3;
        } else if c <= '\u{7f}' && keeps(c as u8) {
            proof {
                lemma_kept_ascii(c);
            }
            let b: u8 = c as u8;
            bytes.push(b);
            proof {
                assert(rest.skip(1) =~= s.skip(i as int + 1));
                if let Some(tail) = decoded_bytes(rest.skip(1)) {
                    assert(before + (seq![b] + tail) =~= before.push(b) + tail);
                }
            }
            i += 1;
        } else {
            proof {
                lemma_kept_ascii(c);
            }
            return None;
        }
    }
    proof {
        assert(s.skip(n as int) =~= Seq::<char>::empty());
        assert(bytes@ + Seq::<u8>::empty() =~= bytes@);
    }
    let ghost found = bytes@;
    match string_from_utf8(bytes) {
        Some(decoded) => {
            proof {
                vstd::utf8::encode_utf8_valid_utf8(decoded@);
                vstd::utf8::encode_utf8_decode_utf8(decoded@);
            }
            Some(decoded)
        },
        None => None,
    }
}

} // verus!
