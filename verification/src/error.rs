//! The error type of the library.

use vstd::prelude::*;
use vstd::std_specs::convert::FromSpecImpl;
use vstd::string::StringExecFns;

use crate::text::{decimal_digits, push_decimal};

verus! {

/// `reqwest::Error`, as an opaque type: the error of an HTTP call that
/// failed, carried to the caller as it came.
#[verifier::external_type_specification]
#[verifier::external_body]
pub struct ExReqwestError(reqwest::Error);

/// `serde_json::Error`, as an opaque type: the error of a body that could
/// not be read, carried to the caller as it came.
#[verifier::external_type_specification]
#[verifier::external_body]
pub struct ExSerdeJsonError(serde_json::Error);

/// What can go wrong when building requests and calling APIs.
#[derive(Debug)]
pub enum DhlError {
    /// An operation was invoked on an API for which no key is configured.
    MissingCredentials(String),
    /// The remote API answered with a structured failure.
    ResponseNotOk { status: u32, title: String, detail: String },
    /// The HTTP call itself failed.
    Reqwest(reqwest::Error),
    /// The response body is no JSON document, or not of the expected shape.
    Serde(serde_json::Error),
}

impl From<reqwest::Error> for DhlError {
    fn from(error: reqwest::Error) -> (wrapped: DhlError) {
        DhlError::Reqwest(error)
    }
}

impl FromSpecImpl<reqwest::Error> for DhlError {
    open spec fn obeys_from_spec() -> bool {
        true
    }

    open spec fn from_spec(error: reqwest::Error) -> DhlError {
        DhlError::Reqwest(error)
    }
}

impl From<serde_json::Error> for DhlError {
    fn from(error: serde_json::Error) -> (wrapped: DhlError) {
        DhlError::Serde(error)
    }
}

impl FromSpecImpl<serde_json::Error> for DhlError {
    open spec fn obeys_from_spec() -> bool {
        true
    }

    open spec fn from_spec(error: serde_json::Error) -> DhlError {
        DhlError::Serde(error)
    }
}

/// The text that `std` writes for a string with `{:?}`: the string between
/// quotes, with its special characters escaped.
pub uninterp spec fn quoted(text: Seq<char>) -> Seq<char>;

/// Formats a string with `{:?}`, the `Debug` form of `str`. The result
/// depends on `text` alone.
#[verifier::external_body]
fn quote(text: &str) -> (written: String)
    ensures
        written@ == quoted(text@),
{
    format!("{:?}", text)
}

/// Calls `to_string` of `reqwest::Error`, its `Display` form. Nothing is
/// claimed of the text.
#[verifier::external_body]
fn reqwest_error_text(error: &reqwest::Error) -> String {
    error.to_string()
}

/// Calls `to_string` of `serde_json::Error`, its `Display` form. Nothing is
/// claimed of the text.
#[verifier::external_body]
fn serde_error_text(error: &serde_json::Error) -> String {
    error.to_string()
}

impl DhlError {
    /// What `message` says of an error, as far as the error's own fields
    /// decide it: all of the message for the first two variants, its
    /// beginning for the errors of the transport and of the parser.
    pub open spec fn message_starts(self) -> Seq<char> {
        match self {
            DhlError::MissingCredentials(text) => "MissingCredentials Error: "@ + text@,
            DhlError::ResponseNotOk { status, title, detail } => "ResponseNotOk (status "@
                + decimal_digits(status as nat) + ", title "@ + quoted(title@) + ", detail "@
                + quoted(detail@) + ")"@,
            DhlError::Reqwest(_) => "Reqwest Error: "@,
            DhlError::Serde(_) => "Serde Error: "@,
        }
    }

    /// Whether the error's own fields decide all of its message.
    pub open spec fn message_is_decided(self) -> bool {
        self is MissingCredentials || self is ResponseNotOk
    }

    /// The error in words, for a person to read.
    pub fn message(&self) -> (text: String)
        ensures
            self.message_is_decided() ==> text@ == self.message_starts(),
            !self.message_is_decided() ==> self.message_starts().is_prefix_of(text@),
    {
        match self {
            DhlError::MissingCredentials(missing) => {
                let mut text = String::from_str("MissingCredentials Error: ");
                text.append(missing.as_str());
                text
            },
            DhlError::ResponseNotOk { status, title, detail } => {
                let mut text = String::from_str("ResponseNotOk (status ");
                push_decimal(&mut text, *status as u64);
                text.append(", title ");
                text.append(quote(title.as_str()).as_str());
                text.append(", detail ");
                text.append(quote(detail.as_str()).as_str());
                text.append(")");
                text
            },
            DhlError::Reqwest(error) => {
                let mut text = String::from_str("Reqwest Error: ");
                text.append(reqwest_error_text(error).as_str());
                text
            },
            DhlError::Serde(error) => {
                let mut text = String::from_str("Serde Error: ");
                text.append(serde_error_text(error).as_str());
                text
            },
        }
    }
}

} // verus!
