//! Reading typed values out of JSON documents.

use vstd::prelude::*;

use crate::json::Json;
use crate::text::{decimal_digits, parse_i64, parse_u64, signed_decimal};

verus! {

/// A type whose values can be read from a JSON value.
pub trait Decode: Sized {
    /// Whether `value` has the shape of this type.
    spec fn accepts(value: Json) -> bool;

    /// Whether `decoded` is what `value` holds.
    spec fn renders(value: Json, decoded: Self) -> bool;

    /// Reads `value`: `Some` for exactly the values that have the shape of
    /// this type.
    fn decode(value: &Json) -> (decoded: Option<Self>)
        ensures
            decoded is Some <==> Self::accepts(*value),
            decoded matches Some(d) ==> Self::renders(*value, d),
    ;
}

impl Decode for String {
    open spec fn accepts(value: Json) -> bool {
        value is Text
    }

    open spec fn renders(value: Json, decoded: String) -> bool {
        value matches Json::Text(text) && decoded@ == text@
    }

    fn decode(value: &Json) -> (decoded: Option<String>) {
        match value {
            Json::Text(text) => Some(text.clone()),
            _ => None,
        }
    }
}

impl Decode for bool {
    open spec fn accepts(value: Json) -> bool {
        value is Bool
    }

    open spec fn renders(value: Json, decoded: bool) -> bool {
        value == Json::Bool(decoded)
    }

    fn decode(value: &Json) -> (decoded: Option<bool>) {
        match value {
            Json::Bool(b) => Some(*b),
            _ => None,
        }
    }
}

impl Decode for u32 {
    open spec fn accepts(value: Json) -> bool {
        value matches Json::Number(literal) && exists|n: u32| literal@ == decimal_digits(n as nat)
    }

    open spec fn renders(value: Json, decoded: u32) -> bool {
        value matches Json::Number(literal) && literal@ == decimal_digits(decoded as nat)
    }

    fn decode(value: &Json) -> (decoded: Option<u32>) {
        match value {
            Json::Number(literal) => match parse_u64(literal.as_str()) {
                Some(n) => {
                    if n <= 0xffff_ffff {
                        Some(n as u32)
                    } else {
                        proof {
                            assert forall|m: u32| literal@ != decimal_digits(m as nat) by {
                                if literal@ == decimal_digits(m as nat) {
                                    crate::text::lemma_decimal_digits_injective(m as nat, n as nat);
                                }
                            }
                        }
                        None
                    }
                },
                None => {
                    proof {
                        assert forall|m: u32| literal@ != decimal_digits(m as nat) by {
                            assert(literal@ != decimal_digits((m as u64) as nat));
                        }
                    }
                    None
                },
            },
            _ => None,
        }
    }
}

impl Decode for i64 {
    open spec fn accepts(value: Json) -> bool {
        value matches Json::Number(literal) && exists|n: i64| literal@ == signed_decimal(n as int)
    }

    open spec fn renders(value: Json, decoded: i64) -> bool {
        value matches Json::Number(literal) && literal@ == signed_decimal(decoded as int)
    }

    fn decode(value: &Json) -> (decoded: Option<i64>) {
        match value {
            Json::Number(literal) => parse_i64(literal.as_str()),
            _ => None,
        }
    }
}

impl<T: Decode> Decode for Option<T> {
    open spec fn accepts(value: Json) -> bool {
        value is Null || T::accepts(value)
    }

    open spec fn renders(value: Json, decoded: Option<T>) -> bool {
        match decoded {
            Some(inner) => !(value is Null) && T::renders(value, inner),
            None => value is Null,
        }
    }

    fn decode(value: &Json) -> (decoded: Option<Option<T>>) {
        match value {
            Json::Null => Some(None),
            _ => match T::decode(value) {
                Some(inner) => Some(Some(inner)),
                None => None,
            },
        }
    }
}

impl<T: Decode> Decode for Vec<T> {
    open spec fn accepts(value: Json) -> bool {
        value matches Json::Array(items) && forall|i: int|
            0 <= i < items@.len() ==> T::accepts(#[trigger] items@[i])
    }

    open spec fn renders(value: Json, decoded: Vec<T>) -> bool {
        value matches Json::Array(items) && decoded@.len() == items@.len() && forall|i: int|
            0 <= i < items@.len() ==> T::renders(#[trigger] items@[i], decoded@[i])
    }

    fn decode(value: &Json) -> (decoded: Option<Vec<T>>) {
        match value {
            Json::Array(items) => {
                let mut decoded: Vec<T> = Vec::new();
                let mut i: usize = 0;
                while i < items.len()
                    invariant
                        i <= items.len(),
                        *value == Json::Array(*items),
                        decoded@.len() == i,
                        forall|j: int| 0 <= j < i ==> T::accepts(#[trigger] items@[j]),
                        forall|j: int| 0 <= j < i ==> T::renders(#[trigger] items@[j], decoded@[j]),
                    decreases items.len() - i,
                {
                    match T::decode(&items[i]) {
                        Some(item) => {
                            decoded.push(item);
                        },
                        None => {
                            assert(value->Array_0 == *items);
                            assert(!T::accepts(items@[i as int]));
                            return None;
                        },
                    }
                    i += 1;
                }
                Some(decoded)
            },
            _ => None,
        }
    }
}

/// Reads the member `name` of an object as a `T`. A member that is missing
/// is read as null is.
pub fn decode_member<T: Decode>(value: &Json, name: &str) -> (decoded: Option<T>)
    ensures
        decoded is Some <==> T::accepts(value.member_or_null(name@)),
        decoded matches Some(d) ==> T::renders(value.member_or_null(name@), d),
{
    match value.get(name) {
        Some(found) => T::decode(found),
        None => T::decode(&Json::Null),
    }
}

/// Reads the member `name` of an object as a `T`, or the member `other`
/// where there is no member `name`.
pub fn decode_either_member<T: Decode>(value: &Json, name: &str, other: &str) -> (decoded: Option<
    T,
>)
    ensures
        decoded is Some <==> T::accepts(value.either_member_or_null(name@, other@)),
        decoded matches Some(d) ==> T::renders(value.either_member_or_null(name@, other@), d),
{
    match value.get(name) {
        Some(found) => T::decode(found),
        None => decode_member(value, other),
    }
}

/// Whether `value` can be read as a list of `T` that may be left out: it is
/// null, or an array of what `T` accepts.
pub open spec fn accepts_list_or_nothing<T: Decode>(value: Json) -> bool {
    value is Null || Vec::<T>::accepts(value)
}

/// Whether `decoded` is the list that `value` holds: empty for null, else
/// the items of the array.
pub open spec fn renders_list_or_nothing<T: Decode>(value: Json, decoded: Vec<T>) -> bool {
    if value is Null {
        decoded@.len() == 0
    } else {
        Vec::<T>::renders(value, decoded)
    }
}

/// Reads the member `name` of an object as a list of `T`. A member that is
/// missing or null is read as the empty list.
pub fn decode_list_or_nothing<T: Decode>(value: &Json, name: &str) -> (decoded: Option<Vec<T>>)
    ensures
        decoded is Some <==> accepts_list_or_nothing::<T>(value.member_or_null(name@)),
        decoded matches Some(d) ==> renders_list_or_nothing::<T>(value.member_or_null(name@), d),
{
    match value.get(name) {
        Some(Json::Null) => Some(Vec::new()),
        Some(found) => Vec::<T>::decode(found),
        None => Some(Vec::new()),
    }
}

} // verus!
