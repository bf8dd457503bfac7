//! The query serializer: from the members of a request object to the query
//! string of its URL, and back.
//!
//! A request is serialized in two steps. The first picks the members that
//! hold a scalar and gives each its name on the wire; the second joins the
//! resulting pairs as `?name=value&name=value`, with each name and each
//! value percent-encoded, so that the query string is valid in a URL
//! whatever the values hold.

use convert_case::{Case, Casing};
use vstd::prelude::*;
use vstd::string::StrSliceExecFns;
use vstd::string::StringExecFns;

use crate::json::Json;
use crate::number::Decimal;
use crate::percent::{
    lemma_percent_decoded_sound, lemma_percent_encoded_safe, lemma_percent_round_trip,
    percent_decode, percent_decoded, percent_encode, percent_encoded,
};
use crate::text::{
    bool_chars, bool_str, chars_of, decimal_digits, find_char, first_index, i64_to_decimal,
    lemma_first_index_bounds, lemma_first_index_is, signed_decimal, u64_to_decimal,
};

verus! {

/// A name and a value as they stand in a query string.
pub type Pair = (Seq<char>, Seq<char>);

/// What a member of a request object holds: nothing, a scalar, or a value
/// that is no scalar. A number is held as its literal.
pub enum FieldValue {
    Null,
    Bool(bool),
    Number(Seq<char>),
    Text(Seq<char>),
    Nested,
}

/// A field of a request: its name in the program, and what it holds.
pub type Field = (Seq<char>, FieldValue);

/// The camel-case form that `convert_case` gives to `name`.
pub uninterp spec fn camel_case(name: Seq<char>) -> Seq<char>;

/// Calls `convert_case::Casing::to_case` with `Case::Camel`. The conversion
/// splits `name` into words and joins them again, so all that is claimed of
/// the result is that it depends on `name` alone.
#[verifier::external_body]
fn to_camel_case(name: &str) -> (wire: String)
    ensures
        wire@ == camel_case(name@),
{
    name.to_case(Case::Camel)
}

/// What a JSON value holds, as a field of a request sees it.
pub open spec fn held_by(value: Json) -> FieldValue {
    match value {
        Json::Null => FieldValue::Null,
        Json::Bool(b) => FieldValue::Bool(b),
        Json::Number(literal) => FieldValue::Number(literal@),
        Json::Text(text) => FieldValue::Text(text@),
        Json::Array(_) => FieldValue::Nested,
        Json::Object(_) => FieldValue::Nested,
    }
}

/// The text that a field's value takes in a query string; `None` for what
/// is absent or not a scalar.
pub open spec fn value_text(value: FieldValue) -> Option<Seq<char>> {
    match value {
        FieldValue::Bool(b) => Some(bool_chars(b)),
        FieldValue::Number(literal) => Some(literal),
        FieldValue::Text(text) => Some(text),
        _ => None,
    }
}

/// The field that a member of an object stands for: the member's name with
/// what the member holds.
pub open spec fn field_of(member: (String, Json)) -> Field {
    (member.0@, held_by(member.1))
}

/// The fields that the members of an object stand for.
pub open spec fn fields_of(members: Seq<(String, Json)>) -> Seq<Field> {
    Seq::new(members.len(), |i: int| field_of(members[i]))
}

/// The text of an optional string.
pub open spec fn text_of(value: Option<String>) -> Option<Seq<char>> {
    match value {
        Some(text) => Some(text@),
        None => None,
    }
}

/// What a field holds for an optional text: the text, or nothing.
pub open spec fn text_value(value: Option<Seq<char>>) -> FieldValue {
    match value {
        Some(text) => FieldValue::Text(text),
        None => FieldValue::Null,
    }
}

/// What a field holds for an optional boolean.
pub open spec fn bool_value(value: Option<bool>) -> FieldValue {
    match value {
        Some(b) => FieldValue::Bool(b),
        None => FieldValue::Null,
    }
}

/// What a field holds for an optional natural number: its numeral.
pub open spec fn number_value(value: Option<u32>) -> FieldValue {
    match value {
        Some(n) => FieldValue::Number(decimal_digits(n as nat)),
        None => FieldValue::Null,
    }
}

/// What a field holds for an optional integer: its numeral.
pub open spec fn signed_value(value: Option<i64>) -> FieldValue {
    match value {
        Some(n) => FieldValue::Number(signed_decimal(n as int)),
        None => FieldValue::Null,
    }
}

/// The pairs that fields contribute to a query string: one for each field
/// that is present, in the fields' order, under the camel-case form of the
/// field's name.
pub open spec fn wire_pairs(fields: Seq<Field>) -> Seq<Pair>
    decreases fields.len(),
{
    if fields.len() == 0 {
        Seq::empty()
    } else {
        let head = wire_pairs(fields.drop_last());
        match value_text(fields.last().1) {
            Some(text) => head.push((camel_case(fields.last().0), text)),
            None => head,
        }
    }
}

/// One for a value that is there, nothing for one that is not.
pub open spec fn one_if_set<T>(value: Option<T>) -> nat {
    if value is Some {
        1
    } else {
        0
    }
}

/// The number of fields that are present.
pub open spec fn present_count(fields: Seq<Field>) -> nat
    decreases fields.len(),
{
    if fields.len() == 0 {
        0
    } else if value_text(fields.last().1) is Some {
        present_count(fields.drop_last()) + 1
    } else {
        present_count(fields.drop_last())
    }
}

/// `name=value`, with the name and the value percent-encoded.
pub open spec fn pair_text(pair: Pair) -> Seq<char> {
    percent_encoded(pair.0) + seq!['='] + percent_encoded(pair.1)
}

/// The pairs' texts with an `&` between each two.
pub open spec fn joined_pairs(pairs: Seq<Pair>) -> Seq<char>
    decreases pairs.len(),
{
    if pairs.len() == 0 {
        Seq::empty()
    } else if pairs.len() == 1 {
        pair_text(pairs[0])
    } else {
        pair_text(pairs[0]) + seq!['&'] + joined_pairs(pairs.drop_first())
    }
}

/// The query string of `pairs`: empty where there is no pair, else a `?`
/// and the joined pairs.
pub open spec fn query_text(pairs: Seq<Pair>) -> Seq<char> {
    if pairs.len() == 0 {
        Seq::empty()
    } else {
        seq!['?'] + joined_pairs(pairs)
    }
}

/// The query string that a request object serializes to. A value that is no
/// object has none.
pub open spec fn url_params(value: Json) -> Seq<char> {
    match value {
        Json::Object(members) => query_text(wire_pairs(fields_of(members@))),
        _ => Seq::empty(),
    }
}

/// The name and the value of `name=value`, parted at the first `=` and
/// percent-decoded. `None` where there is no `=`, or a part does not decode.
pub open spec fn split_pair(segment: Seq<char>) -> Option<Pair> {
    let at = first_index(segment, '=');
    if 0 <= at < segment.len() {
        match (percent_decoded(segment.take(at)), percent_decoded(segment.skip(at + 1))) {
            (Some(name), Some(value)) => Some((name, value)),
            _ => None,
        }
    } else {
        None
    }
}

/// `head` before the pairs of `tail`, if there are any.
pub open spec fn prepend(head: Seq<Pair>, tail: Option<Seq<Pair>>) -> Option<Seq<Pair>> {
    match tail {
        Some(rest) => Some(head + rest),
        None => None,
    }
}

/// The pairs that `s` joins: `s` is parted at each `&`, and each part at its
/// first `=`. `None` where a part is no pair.
pub open spec fn parsed_pairs(s: Seq<char>) -> Option<Seq<Pair>>
    decreases s.len(),
{
    let end = first_index(s, '&');
    if 0 <= end < s.len() {
        match split_pair(s.take(end)) {
            Some(pair) => prepend(seq![pair], parsed_pairs(s.skip(end + 1))),
            None => None,
        }
    } else {
        match split_pair(s) {
            Some(pair) => Some(seq![pair]),
            None => None,
        }
    }
}

/// The pairs of a query string: none for the empty string, else those that
/// follow the leading `?`.
pub open spec fn parsed_query(query: Seq<char>) -> Option<Seq<Pair>> {
    if query.len() == 0 {
        Some(Seq::empty())
    } else if query[0] == '?' {
        parsed_pairs(query.skip(1))
    } else {
        None
    }
}

/// One more pair is joined to the others with an `&`.
proof fn lemma_joined_push(pairs: Seq<Pair>, pair: Pair)
    requires
        pairs.len() >= 1,
    ensures
        joined_pairs(pairs.push(pair)) == joined_pairs(pairs) + seq!['&'] + pair_text(pair),
    decreases pairs.len(),
{
    let all = pairs.push(pair);
    assert(all[0] == pairs[0]);
    if pairs.len() == 1 {
        assert(all.drop_first() =~= seq![pair]);
        assert(joined_pairs(all.drop_first()) == pair_text(pair));
    } else {
        assert(all.drop_first() =~= pairs.drop_first().push(pair));
        lemma_joined_push(pairs.drop_first(), pair);
        assert(joined_pairs(all) =~= joined_pairs(pairs) + seq!['&'] + pair_text(pair));
    }
}

/// The number of the first `n` fields that are present.
pub open spec fn present_below(fields: Seq<Field>, n: int) -> nat
    decreases n,
{
    if n <= 0 {
        0
    } else {
        present_below(fields, n - 1) + one_if_set(value_text(fields[n - 1].1))
    }
}

/// The pairs that the first `n` fields contribute to a query string.
pub open spec fn pairs_below(fields: Seq<Field>, n: int) -> Seq<Pair>
    decreases n,
{
    if n <= 0 {
        Seq::empty()
    } else {
        match value_text(fields[n - 1].1) {
            Some(text) => pairs_below(fields, n - 1).push((camel_case(fields[n - 1].0), text)),
            None => pairs_below(fields, n - 1),
        }
    }
}

/// What the first fields contribute does not depend on the last one.
proof fn lemma_below_without_last(fields: Seq<Field>, n: int)
    requires
        n < fields.len(),
    ensures
        present_below(fields.drop_last(), n) == present_below(fields, n),
        pairs_below(fields.drop_last(), n) == pairs_below(fields, n),
    decreases n,
{
    if n > 0 {
        lemma_below_without_last(fields, n - 1);
        assert(fields.drop_last()[n - 1] == fields[n - 1]);
    }
}

/// The fields that are present, and the pairs they contribute, can be
/// counted off field by field from the first.
pub proof fn lemma_fields_by_index(fields: Seq<Field>)
    ensures
        present_count(fields) == present_below(fields, fields.len() as int),
        wire_pairs(fields) == pairs_below(fields, fields.len() as int),
    decreases fields.len(),
{
    if fields.len() != 0 {
        lemma_fields_by_index(fields.drop_last());
        lemma_below_without_last(fields, fields.len() - 1);
    }
}

/// Whether `a` and `b` agree before the index `at`, where `a` ends or holds
/// the lesser character.
pub open spec fn parts_at(a: Seq<char>, b: Seq<char>, at: int) -> bool {
    &&& 0 <= at <= a.len()
    &&& at < b.len()
    &&& forall|i: int| 0 <= i < at ==> a[i] == b[i]
    &&& (at == a.len() || a[at] < b[at])
}

/// Whether `a` stands before `b` in the order of the dictionary.
pub open spec fn precedes(a: Seq<char>, b: Seq<char>) -> bool {
    exists|at: int| parts_at(a, b, at)
}

/// Whether the names of the fields ascend strictly, so that no name stands
/// twice.
pub open spec fn names_ascend(fields: Seq<Field>) -> bool {
    forall|i: int| 0 <= i < fields.len() - 1 ==> precedes(#[trigger] fields[i].0, fields[i + 1].0)
}

/// The order of the dictionary is transitive.
pub proof fn lemma_precedes_transitive(a: Seq<char>, b: Seq<char>, c: Seq<char>)
    requires
        precedes(a, b),
        precedes(b, c),
    ensures
        precedes(a, c),
{
    let first = choose|at: int| parts_at(a, b, at);
    let second = choose|at: int| parts_at(b, c, at);
    if first <= second {
        assert(parts_at(a, c, first));
    } else {
        assert(parts_at(a, c, second));
    }
}

/// A text that stands before another is not that text.
pub proof fn lemma_precedes_differs(a: Seq<char>, b: Seq<char>)
    requires
        precedes(a, b),
    ensures
        a != b,
{
    let at = choose|at: int| parts_at(a, b, at);
    if at < a.len() {
        assert(a[at] != b[at]);
    }
}

/// In fields whose names ascend, each name stands before every later one,
/// so that no two fields have the same name.
pub proof fn lemma_ascending_names_differ(fields: Seq<Field>, i: int, j: int)
    requires
        names_ascend(fields),
        0 <= i < j < fields.len(),
    ensures
        precedes(fields[i].0, fields[j].0),
        fields[i].0 != fields[j].0,
    decreases j - i,
{
    assert(precedes(fields[j - 1].0, fields[j].0));
    if i < j - 1 {
        lemma_ascending_names_differ(fields, i, j - 1);
        lemma_precedes_transitive(fields[i].0, fields[j - 1].0, fields[j].0);
    }
    lemma_precedes_differs(fields[i].0, fields[j].0);
}

/// Fields contribute as many pairs as there are fields present.
pub proof fn lemma_pair_count(fields: Seq<Field>)
    ensures
        wire_pairs(fields).len() == present_count(fields),
    decreases fields.len(),
{
    if fields.len() != 0 {
        lemma_pair_count(fields.drop_last());
    }
}

/// Fields none of which is present have an empty query string.
pub proof fn lemma_nothing_present_no_query(fields: Seq<Field>)
    requires
        present_count(fields) == 0,
    ensures
        query_text(wire_pairs(fields)) == Seq::<char>::empty(),
{
    lemma_pair_count(fields);
}

/// The text of a pair holds no `&`, and its first `=` stands after the
/// encoded name.
proof fn lemma_pair_text_parts(pair: Pair)
    ensures
        !pair_text(pair).contains('&'),
        first_index(pair_text(pair), '=') == percent_encoded(pair.0).len(),
        split_pair(pair_text(pair)) == Some(pair),
{
    let name = percent_encoded(pair.0);
    let value = percent_encoded(pair.1);
    let segment = pair_text(pair);
    lemma_percent_encoded_safe(pair.0);
    lemma_percent_encoded_safe(pair.1);
    lemma_percent_round_trip(pair.0);
    lemma_percent_round_trip(pair.1);
    assert forall|j: int| 0 <= j < segment.len() implies segment[j] != '&' by {
        if j < name.len() {
            assert(segment[j] == name[j]);
            assert(name.contains(name[j]));
        } else if j > name.len() {
            assert(segment[j] == value[j - name.len() - 1]);
            assert(value.contains(value[j - name.len() - 1]));
        }
    }
    assert forall|j: int| 0 <= j < name.len() implies segment[j] != '=' by {
        assert(segment[j] == name[j]);
        assert(name.contains(name[j]));
    }
    lemma_first_index_is(segment, '=', name.len() as int);
    assert(segment.take(name.len() as int) =~= name);
    assert(segment.skip(name.len() as int + 1) =~= value);
}

/// A text that parses into pairs is the one that joins them.
pub proof fn lemma_parsed_pairs_sound(s: Seq<char>)
    requires
        parsed_pairs(s) is Some,
    ensures
        parsed_pairs(s).unwrap().len() >= 1,
        joined_pairs(parsed_pairs(s).unwrap()) == s,
    decreases s.len(),
{
    let end = first_index(s, '&');
    lemma_first_index_bounds(s, '&');
    let segment = if end < s.len() {
        s.take(end)
    } else {
        s
    };
    let at = first_index(segment, '=');
    lemma_first_index_bounds(segment, '=');
    let pair = split_pair(segment).unwrap();
    lemma_percent_decoded_sound(segment.take(at));
    lemma_percent_decoded_sound(segment.skip(at + 1));
    assert(pair_text(pair) =~= segment);
    if end < s.len() {
        let tail = s.skip(end + 1);
        lemma_parsed_pairs_sound(tail);
        let rest = parsed_pairs(tail).unwrap();
        let all = seq![pair] + rest;
        assert(all[0] == pair);
        assert(all.drop_first() =~= rest);
        assert(s =~= segment + seq!['&'] + tail);
    }
}

/// Pairs are recovered from the text that joins them.
pub proof fn lemma_joined_pairs_parse(pairs: Seq<Pair>)
    requires
        pairs.len() >= 1,
    ensures
        parsed_pairs(joined_pairs(pairs)) == Some(pairs),
    decreases pairs.len(),
{
    let pair = pairs[0];
    let segment = pair_text(pair);
    let s = joined_pairs(pairs);
    lemma_pair_text_parts(pair);
    assert forall|j: int| 0 <= j < segment.len() implies segment[j] != '&' by {
        assert(segment.contains(segment[j]));
    }
    if pairs.len() == 1 {
        lemma_first_index_is(s, '&', s.len() as int);
        assert(seq![pair] =~= pairs);
    } else {
        let rest = pairs.drop_first();
        let tail = joined_pairs(rest);
        assert(s =~= segment + seq!['&'] + tail);
        assert forall|j: int| 0 <= j < segment.len() implies s[j] != '&' by {
            assert(s[j] == segment[j]);
        }
        lemma_first_index_is(s, '&', segment.len() as int);
        assert(s.take(segment.len() as int) =~= segment);
        assert(s.skip(segment.len() as int + 1) =~= tail);
        lemma_joined_pairs_parse(rest);
        assert(seq![pair] + rest =~= pairs);
    }
}

/// Serializing pairs and parsing the query string again recovers the pairs,
/// whatever their names and values hold.
pub proof fn lemma_query_round_trip(pairs: Seq<Pair>)
    ensures
        parsed_query(query_text(pairs)) == Some(pairs),
{
    if pairs.len() == 0 {
        assert(pairs =~= Seq::<Pair>::empty());
    } else {
        lemma_joined_pairs_parse(pairs);
        assert(query_text(pairs).skip(1) =~= joined_pairs(pairs));
    }
}

/// The query string of fields parses into one pair for each field that is
/// present: the camel-case form of its name, and its value as it was
/// written.
pub proof fn lemma_fields_round_trip(fields: Seq<Field>)
    ensures
        parsed_query(query_text(wire_pairs(fields))) == Some(wire_pairs(fields)),
        parsed_query(query_text(wire_pairs(fields))).unwrap().len() == present_count(fields),
{
    lemma_query_round_trip(wire_pairs(fields));
    lemma_pair_count(fields);
}

/// A query string that parses is the serialization of its pairs.
pub proof fn lemma_parsed_query_sound(query: Seq<char>)
    requires
        parsed_query(query) is Some,
    ensures
        query_text(parsed_query(query).unwrap()) == query,
{
    if query.len() != 0 {
        lemma_parsed_pairs_sound(query.skip(1));
        assert(seq!['?'] + query.skip(1) =~= query);
    }
}

/// How often `c` stands in `s`.
pub open spec fn count_of(s: Seq<char>, c: char) -> nat
    decreases s.len(),
{
    if s.len() == 0 {
        0
    } else if s.last() == c {
        count_of(s.drop_last(), c) + 1
    } else {
        count_of(s.drop_last(), c)
    }
}

/// A character stands in two joined texts as often as in both together.
proof fn lemma_count_concat(a: Seq<char>, b: Seq<char>, c: char)
    ensures
        count_of(a + b, c) == count_of(a, c) + count_of(b, c),
    decreases b.len(),
{
    if b.len() == 0 {
        assert(a + b =~= a);
    } else {
        assert((a + b).drop_last() =~= a + b.drop_last());
        assert((a + b).last() == b.last());
        lemma_count_concat(a, b.drop_last(), c);
    }
}

/// A character that a text does not hold stands in it no times.
proof fn lemma_count_absent(s: Seq<char>, c: char)
    requires
        !s.contains(c),
    ensures
        count_of(s, c) == 0,
    decreases s.len(),
{
    if s.len() != 0 {
        assert(s.last() == s[s.len() - 1]);
        assert forall|i: int| 0 <= i < s.drop_last().len() implies s.drop_last()[i] != c by {
            assert(s.drop_last()[i] == s[i]);
        }
        lemma_count_absent(s.drop_last(), c);
    }
}

/// A character stands once in the text of itself, and in no other text of
/// one character.
proof fn lemma_count_single(c: char, d: char)
    ensures
        count_of(seq![c], d) == (if c == d {
            1nat
        } else {
            0nat
        }),
{
    let s = seq![c];
    assert(s.last() == c);
    assert(s.drop_last() =~= Seq::<char>::empty());
    assert(count_of(s.drop_last(), d) == 0);
}

/// The text of a pair holds one `=`, no `&` and no `?`.
proof fn lemma_pair_text_marks(pair: Pair)
    ensures
        count_of(pair_text(pair), '=') == 1,
        count_of(pair_text(pair), '&') == 0,
        count_of(pair_text(pair), '?') == 0,
{
    let name = percent_encoded(pair.0);
    let value = percent_encoded(pair.1);
    let mark = seq!['='];
    lemma_percent_encoded_safe(pair.0);
    lemma_percent_encoded_safe(pair.1);
    lemma_count_single('=', '=');
    lemma_count_single('=', '&');
    lemma_count_single('=', '?');
    lemma_count_absent(name, '=');
    lemma_count_absent(name, '&');
    lemma_count_absent(name, '?');
    lemma_count_absent(value, '=');
    lemma_count_absent(value, '&');
    lemma_count_absent(value, '?');
    lemma_count_concat(name, mark, '=');
    lemma_count_concat(name, mark, '&');
    lemma_count_concat(name, mark, '?');
    lemma_count_concat(name + mark, value, '=');
    lemma_count_concat(name + mark, value, '&');
    lemma_count_concat(name + mark, value, '?');
}

/// Joined pairs hold one `=` for each pair, one `&` between each two, and no
/// `?`.
proof fn lemma_joined_marks(pairs: Seq<Pair>)
    requires
        pairs.len() >= 1,
    ensures
        count_of(joined_pairs(pairs), '=') == pairs.len(),
        count_of(joined_pairs(pairs), '&') == pairs.len() - 1,
        count_of(joined_pairs(pairs), '?') == 0,
    decreases pairs.len(),
{
    lemma_pair_text_marks(pairs[0]);
    if pairs.len() > 1 {
        let head = pair_text(pairs[0]);
        let mark = seq!['&'];
        let tail = joined_pairs(pairs.drop_first());
        lemma_joined_marks(pairs.drop_first());
        lemma_count_single('&', '=');
        lemma_count_single('&', '&');
        lemma_count_single('&', '?');
        lemma_count_concat(head, mark, '=');
        lemma_count_concat(head, mark, '&');
        lemma_count_concat(head, mark, '?');
        lemma_count_concat(head + mark, tail, '=');
        lemma_count_concat(head + mark, tail, '&');
        lemma_count_concat(head + mark, tail, '?');
    }
}

/// The query string of at least one pair starts with its only `?`, and
/// holds one `=` for each pair and one `&` between each two, whatever the
/// names and values hold.
pub proof fn lemma_query_marks(pairs: Seq<Pair>)
    requires
        pairs.len() >= 1,
    ensures
        query_text(pairs)[0] == '?',
        count_of(query_text(pairs), '?') == 1,
        count_of(query_text(pairs), '=') == pairs.len(),
        count_of(query_text(pairs), '&') == pairs.len() - 1,
{
    let mark = seq!['?'];
    lemma_joined_marks(pairs);
    lemma_count_single('?', '=');
    lemma_count_single('?', '&');
    lemma_count_single('?', '?');
    lemma_count_concat(mark, joined_pairs(pairs), '?');
    lemma_count_concat(mark, joined_pairs(pairs), '=');
    lemma_count_concat(mark, joined_pairs(pairs), '&');
}

/// The query string of fields of which N >= 1 are present starts with its
/// only `?` and holds N times `=` and N - 1 times `&`.
pub proof fn lemma_fields_marks(fields: Seq<Field>)
    requires
        present_count(fields) >= 1,
    ensures
        query_text(wire_pairs(fields))[0] == '?',
        count_of(query_text(wire_pairs(fields)), '?') == 1,
        count_of(query_text(wire_pairs(fields)), '=') == present_count(fields),
        count_of(query_text(wire_pairs(fields)), '&') == present_count(fields) - 1,
{
    lemma_pair_count(fields);
    lemma_query_marks(wire_pairs(fields));
}

/// The member `name` of a request object for an optional string: the string
/// where there is one, else null.
pub fn text_member(name: &str, value: &Option<String>) -> (member: (String, Json))
    ensures
        field_of(member) == (name@, text_value(text_of(*value))),
{
    match value {
        Some(text) => (String::from_str(name), Json::Text(text.clone())),
        None => (String::from_str(name), Json::Null),
    }
}

/// The member `name` of a request object for an optional name of the wire.
pub fn name_member(name: &str, value: Option<&str>) -> (member: (String, Json))
    ensures
        field_of(member) == (
            name@,
            match value {
                Some(text) => FieldValue::Text(text@),
                None => FieldValue::Null,
            },
        ),
{
    match value {
        Some(text) => (String::from_str(name), Json::Text(String::from_str(text))),
        None => (String::from_str(name), Json::Null),
    }
}

/// The member `name` of a request object for an optional boolean.
pub fn bool_member(name: &str, value: Option<bool>) -> (member: (String, Json))
    ensures
        field_of(member) == (name@, bool_value(value)),
{
    match value {
        Some(b) => (String::from_str(name), Json::Bool(b)),
        None => (String::from_str(name), Json::Null),
    }
}

/// The member `name` of a request object for an optional natural number.
pub fn number_member(name: &str, value: Option<u32>) -> (member: (String, Json))
    ensures
        field_of(member) == (name@, number_value(value)),
{
    match value {
        Some(n) => (String::from_str(name), Json::Number(u64_to_decimal(n as u64))),
        None => (String::from_str(name), Json::Null),
    }
}

/// The member `name` of a request object for an optional integer.
pub fn signed_member(name: &str, value: Option<i64>) -> (member: (String, Json))
    ensures
        field_of(member) == (name@, signed_value(value)),
{
    match value {
        Some(n) => (String::from_str(name), Json::Number(i64_to_decimal(n))),
        None => (String::from_str(name), Json::Null),
    }
}

/// The member `name` of a request object for a decimal number.
pub fn decimal_member(name: &str, value: &Decimal) -> (member: (String, Json))
    ensures
        field_of(member) == (name@, FieldValue::Number(value@)),
{
    (String::from_str(name), Json::Number(String::from_str(value.literal())))
}

/// The scalar members of an object as pairs, each under the camel-case form
/// of its name.
pub fn scalar_pairs(members: &Vec<(String, Json)>) -> (pairs: Vec<(String, String)>)
    ensures
        pairs.deep_view() == wire_pairs(fields_of(members@)),
{
    let mut pairs: Vec<(String, String)> = Vec::new();
    let mut i: usize = 0;
    let ghost fields = fields_of(members@);
    assert(fields.take(0) =~= Seq::<Field>::empty());
    assert(pairs.deep_view() =~= Seq::<Pair>::empty());
    while i < members.len()
        invariant
            i <= members.len(),
            fields == fields_of(members@),
            pairs.deep_view() == wire_pairs(fields.take(i as int)),
        decreases members.len() - i,
    {
        let ghost before = pairs.deep_view();
        let ghost next = fields.take(i as int + 1);
        proof {
            assert(next.drop_last() =~= fields.take(i as int));
            assert(next.last() == fields[i as int]);
        }
        let name = &members[i].0;
        match &members[i].1 {
            Json::Bool(b) => {
                let text = String::from_str(bool_str(*b));
                pairs.push((to_camel_case(name.as_str()), text));
                assert(pairs.deep_view() =~= before.push((camel_case(name@), bool_chars(*b))));
            },
            Json::Number(literal) => {
                pairs.push((to_camel_case(name.as_str()), literal.clone()));
                assert(pairs.deep_view() =~= before.push((camel_case(name@), literal@)));
            },
            Json::Text(text) => {
                pairs.push((to_camel_case(name.as_str()), text.clone()));
                assert(pairs.deep_view() =~= before.push((camel_case(name@), text@)));
            },
            _ => {},
        }
        i += 1;
    }
    assert(fields.take(i as int) =~= fields);
    pairs
}

/// Joins pairs into a query string: `?name=value&name=value`, with each
/// name and each value percent-encoded, or the empty string where there is
/// no pair.
pub fn query_string(pairs: &Vec<(String, String)>) -> (query: String)
    ensures
        query@ == query_text(pairs.deep_view()),
{
    let mut query = String::new();
    let mut i: usize = 0;
    let ghost all = pairs.deep_view();
    assert(all.take(0) =~= Seq::<Pair>::empty());
    while i < pairs.len()
        invariant
            i <= pairs.len(),
            all == pairs.deep_view(),
            query@ == query_text(all.take(i as int)),
        decreases pairs.len() - i,
    {
        let ghost done = all.take(i as int);
        let ghost pair = all[i as int];
        proof {
            reveal_strlit("?");
            reveal_strlit("&");
            reveal_strlit("=");
            assert(all.take(i as int + 1) =~= done.push(pair));
            assert(pair == (pairs@[i as int].0@, pairs@[i as int].1@));
            if i == 0 {
                assert(done.push(pair).len() == 1);
                assert(done.push(pair)[0] == pair);
            } else {
                lemma_joined_push(done, pair);
            }
        }
        if i == 0 {
            query.append("?");
        } else {
            query.append("&");
        }
        query.append(percent_encode(pairs[i].0.as_str()).as_str());
        query.append("=");
        query.append(percent_encode(pairs[i].1.as_str()).as_str());
        assert(query@ =~= query_text(done.push(pair)));
        i += 1;
    }
    assert(all.take(i as int) =~= all);
    query
}

/// Serializes a request object into the query string of its URL.
///
/// Each member that holds a boolean, a number or a string contributes
/// `name=value`, under the camel-case form of its name, both
/// percent-encoded; members that are absent, and members that hold an array
/// or an object, contribute nothing.
/// The pairs are joined with `&` and follow a single `?`. An object without
/// such a member, and a value that is no object, give the empty string.
pub fn serializable_to_url_params(value: &Json) -> (query: String)
    ensures
        query@ == url_params(*value),
{
    match value {
        Json::Object(members) => {
            let pairs = scalar_pairs(members);
            query_string(&pairs)
        },
        _ => String::new(),
    }
}

/// Parses a query string into its pairs.
///
/// The empty string has no pairs. Any other query string starts with `?`;
/// what follows is parted at each `&`, each part at its first `=`, and the
/// name and the value are percent-decoded. `None` where the `?` is missing,
/// a part holds no `=`, or a name or value is not what percent-encoding
/// writes.
pub fn parse_query_string(query: &str) -> (pairs: Option<Vec<(String, String)>>)
    ensures
        match pairs {
            Some(found) => parsed_query(query@) == Some(found.deep_view()),
            None => parsed_query(query@) is None,
        },
{
    let chars = chars_of(query);
    let n = chars.len();
    let mut pairs: Vec<(String, String)> = Vec::new();
    if n == 0 {
        assert(pairs.deep_view() =~= Seq::<Pair>::empty());
        return Some(pairs);
    }
    if chars[0] != '?' {
        return None;
    }
    let ghost t = query@;
    let mut start: usize = 1;
    assert(prepend(pairs.deep_view(), parsed_pairs(t.skip(1))) =~= parsed_pairs(t.skip(1))) by {
        assert(pairs.deep_view() =~= Seq::<Pair>::empty());
        if let Some(rest) = parsed_pairs(t.skip(1)) {
            assert(Seq::<Pair>::empty() + rest =~= rest);
        }
    }
    loop
        invariant
            1 <= start <= n,
            n == chars.len(),
            chars@ == t,
            t == query@,
            parsed_query(t) == prepend(pairs.deep_view(), parsed_pairs(t.skip(start as int))),
        decreases n - start,
    {
        let ghost s = t.skip(start as int);
        let ghost before = pairs.deep_view();
        assert(s =~= t.subrange(start as int, n as int));
        let end = find_char(&chars, start, n, '&');
        let ghost segment = t.subrange(start as int, end as int);
        let at = find_char(&chars, start, end, '=');
        proof {
            if end < n {
                assert(s.take(end - start) =~= segment);
            } else {
                assert(s =~= segment);
            }
        }
        if at == end {
            return None;
        }
        let raw_name = query.substring_char(start, at);
        let raw_value = query.substring_char(at + 1, end);
        proof {
            assert(segment.take(at - start) =~= raw_name@);
            assert(segment.skip(at - start + 1) =~= raw_value@);
        }
        let name = match percent_decode(raw_name) {
            Some(name) => name,
            None => {
                return None;
            },
        };
        let value = match percent_decode(raw_value) {
            Some(value) => value,
            None => {
                return None;
            },
        };
        let ghost pair: Pair = (name@, value@);
        assert(split_pair(segment) == Some(pair));
        pairs.push((name, value));
        assert(pairs.deep_view() =~= before.push(pair));
        if end == n {
            assert(before + seq![pair] =~= before.push(pair));
            return Some(pairs);
        }
        proof {
            let tail = parsed_pairs(s.skip(end - start + 1));
            assert(s.skip(end - start + 1) =~= t.skip(end as int + 1));
            if let Some(rest) = tail {
                assert(before + (seq![pair] + rest) =~= before.push(pair) + rest);
            }
        }
        start = end + 1;
    }
}

} // verus!
