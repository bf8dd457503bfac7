//! The document model that requests are serialized from and response bodies
//! are read into.

use vstd::prelude::*;

use crate::decode::Decode;
use crate::text::str_eq;

verus! {

/// A JSON value.
///
/// A number is held as a literal, so that no floating-point arithmetic is
/// needed. In a document that was read it is the literal that `serde_json`
/// prints for the number it read, not the text of the document: `2.50` is
/// held as `2.5` and `-3e2` as `-300.0`. An object is held as the list of
/// its members; in a document that was read they stand in the order of
/// their names, each name once.
#[derive(Debug)]
pub enum Json {
    Null,
    Bool(bool),
    Number(String),
    Text(String),
    Array(Vec<Json>),
    Object(Vec<(String, Json)>),
}

/// `serde_json::Value`, as an opaque type: what the parser reads before it
/// is copied into a [`Json`].
#[verifier::external_type_specification]
#[verifier::external_body]
pub struct ExSerdeValue(serde_json::Value);

/// The document that `serde_json` reads from `bytes`, if it reads one.
pub uninterp spec fn document_of(bytes: Seq<u8>) -> Option<Json>;

/// Copies a value of `serde_json` into a value of the library, variant by
/// variant. A number is copied as the literal that `serde_json` prints for
/// it, an object as its members in the order in which `serde_json` walks
/// them. Nothing is claimed of the result.
#[verifier::external_body]
fn value_of(value: serde_json::Value) -> Json {
    match value {
        serde_json::Value::Null => Json::Null,
        serde_json::Value::Bool(b) => Json::Bool(b),
        serde_json::Value::Number(n) => Json::Number(n.to_string()),
        serde_json::Value::String(s) => Json::Text(s),
        serde_json::Value::Array(a) => Json::Array(a.into_iter().map(value_of).collect()),
        serde_json::Value::Object(m) => {
            Json::Object(m.into_iter().map(|(k, v)| (k, value_of(v))).collect())
        },
    }
}

/// Calls `serde_json::from_slice` for `serde_json::Value` and copies what it
/// reads with `value_of`. Whether a document is read, and which, depends on
/// `bytes` alone.
#[verifier::external_body]
pub(crate) fn parse_document(bytes: &[u8]) -> (document: Result<Json, serde_json::Error>)
    ensures
        document matches Ok(value) ==> document_of(bytes@) == Some(value),
        document is Err ==> document_of(bytes@) is None,
{
    serde_json::from_slice::<serde_json::Value>(bytes).map(value_of)
}

/// Calls `serde::de::Error::custom` of `serde_json::Error`, which makes an
/// error that carries `message`.
#[verifier::external_body]
pub(crate) fn shape_error(message: &str) -> serde_json::Error {
    <serde_json::Error as serde::de::Error>::custom(message)
}

/// The value of the first member of `members` whose name is `name`.
pub open spec fn member(members: Seq<(String, Json)>, name: Seq<char>) -> Option<Json>
    decreases members.len(),
{
    if members.len() == 0 {
        None
    } else if members[0].0@ == name {
        Some(members[0].1)
    } else {
        member(members.drop_first(), name)
    }
}

impl Json {
    /// The value of the member `name` of an object; `None` for a value that
    /// is no object or has no such member.
    pub open spec fn field(self, name: Seq<char>) -> Option<Json> {
        match self {
            Json::Object(members) => member(members@, name),
            _ => None,
        }
    }

    /// The value of the member `name` of an object, or null where `field`
    /// finds none.
    pub open spec fn member_or_null(self, name: Seq<char>) -> Json {
        match self.field(name) {
            Some(value) => value,
            None => Json::Null,
        }
    }

    /// The value of the member `name` of an object, or else of the member
    /// `other`, or null where `field` finds neither.
    pub open spec fn either_member_or_null(self, name: Seq<char>, other: Seq<char>) -> Json {
        match self.field(name) {
            Some(value) => value,
            None => self.member_or_null(other),
        }
    }

    /// Whether the value is an object.
    pub fn is_object(&self) -> (object: bool)
        ensures
            object == (self is Object),
    {
        match self {
            Json::Object(_) => true,
            _ => false,
        }
    }

    /// Looks up the member `name` of an object.
    pub fn get(&self, name: &str) -> (found: Option<&Json>)
        ensures
            match found {
                Some(v) => self.field(name@) == Some(*v),
                None => self.field(name@) is None,
            },
    {
        match self {
            Json::Object(members) => {
                let mut i: usize = 0;
                assert(members@.skip(0) =~= members@);
                while i < members.len()
                    invariant
                        i <= members.len(),
                        self.field(name@) == member(members@, name@),
                        member(members@, name@) == member(members@.skip(i as int), name@),
                    decreases members.len() - i,
                {
                    if str_eq(members[i].0.as_str(), name) {
                        proof {
                            let rest = members@.skip(i as int);
                            assert(rest[0] == members@[i as int]);
                            assert(member(rest, name@) == Some(rest[0].1));
                        }
                        return Some(&members[i].1);
                    }
                    proof {
                        let rest = members@.skip(i as int);
                        assert(rest[0] == members@[i as int]);
                        assert(rest.drop_first() =~= members@.skip(i as int + 1));
                    }
                    i += 1;
                }
                assert(members@.skip(i as int).len() == 0);
                None
            },
            _ => None,
        }
    }
}

/// What reading a document as a `T` comes to: the decoded value where the
/// document is there and has the shape of `T`.
pub open spec fn reads_as<T: Decode>(
    document: Option<Json>,
    outcome: Result<T, serde_json::Error>,
) -> bool {
    match outcome {
        Ok(decoded) => {
            &&& document matches Some(value)
            &&& T::accepts(value)
            &&& T::renders(value, decoded)
        },
        Err(_) => document matches Some(value) ==> !T::accepts(value),
    }
}

/// Reads a parsed document as a `T`. An error of the parser is handed on; a
/// document that has not the shape of `T` gives an error that says so.
pub fn read_document<T: Decode>(document: Result<Json, serde_json::Error>) -> (outcome: Result<
    T,
    serde_json::Error,
>)
    ensures
        match document {
            Ok(value) => reads_as::<T>(Some(value), outcome),
            Err(error) => outcome == Err::<T, serde_json::Error>(error),
        },
{
    match document {
        Ok(value) => match T::decode(&value) {
            Some(decoded) => Ok(decoded),
            None => Err(shape_error("the document does not have the expected shape")),
        },
        Err(error) => Err(error),
    }
}

/// Reads the bytes of a JSON document as a `T`: `Ok` for exactly the bytes
/// that hold a document of the shape of `T`.
pub fn from_slice<T: Decode>(bytes: &[u8]) -> (outcome: Result<T, serde_json::Error>)
    ensures
        reads_as::<T>(document_of(bytes@), outcome),
{
    read_document(parse_document(bytes))
}

} // verus!
