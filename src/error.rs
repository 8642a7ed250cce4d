use vstd::prelude::*;
use vstd::string::*;

use reqwest::Error as HttpError;
use serde_json::Error as JsonError;

use crate::post::{append_decimal, decimal};

verus! {

#[verifier::external_type_specification]
#[verifier::external_body]
pub struct ExHttpError(HttpError);

#[verifier::external_type_specification]
#[verifier::external_body]
pub struct ExJsonError(JsonError);

/// A structural violation found while normalizing a raw record.
#[derive(Debug, Clone, PartialEq, Eq)]
pub enum DecodeError {
    /// A thread's post list held no posts, so it has no opening post.
    EmptyThread,
    /// A capcode token outside the known set; it carries the token.
    UnknownCapcode(String),
    /// A field encoded as an integer flag held some other JSON value.
    TypeMismatch,
}

/// Everything that can end a request.
#[derive(Debug)]
pub enum Error {
    /// The HTTP exchange itself failed.
    Web(HttpError),
    /// The body was not JSON of the expected shape.
    Json(JsonError),
    /// The server answered with a status outside 200..=299.
    StatusCode(u16),
    /// The body parsed, but a record broke the model's rules.
    Decode(DecodeError),
}

/// A status code in the success class.
pub open spec fn is_success(code: u16) -> bool {
    200 <= code && code < 300
}

impl Error {
    pub fn status_code(c: u16) -> (r: Error)
        ensures
            r == Error::StatusCode(c),
    {
        Error::StatusCode(c)
    }
}

impl From<HttpError> for Error {
    fn from(e: HttpError) -> (r: Error) {
        Error::Web(e)
    }
}

impl vstd::std_specs::convert::FromSpecImpl<HttpError> for Error {
    open spec fn obeys_from_spec() -> bool {
        true
    }

    open spec fn from_spec(e: HttpError) -> Error {
        Error::Web(e)
    }
}

impl From<JsonError> for Error {
    fn from(e: JsonError) -> (r: Error) {
        Error::Json(e)
    }
}

impl vstd::std_specs::convert::FromSpecImpl<JsonError> for Error {
    open spec fn obeys_from_spec() -> bool {
        true
    }

    open spec fn from_spec(e: JsonError) -> Error {
        Error::Json(e)
    }
}

impl From<DecodeError> for Error {
    fn from(e: DecodeError) -> (r: Error) {
        Error::Decode(e)
    }
}

impl vstd::std_specs::convert::FromSpecImpl<DecodeError> for Error {
    open spec fn obeys_from_spec() -> bool {
        true
    }

    open spec fn from_spec(e: DecodeError) -> Error {
        Error::Decode(e)
    }
}

/// Decides what a response's status means before its body is read: a code in
/// the success class lets decoding go on, any other ends the request with a
/// `StatusCode` error that carries the code.
pub fn check_status(code: u16) -> (r: Result<(), Error>)
    ensures
        is_success(code) <==> r is Ok,
        !is_success(code) ==> r == Err::<(), Error>(Error::StatusCode(code)),
{
    if 200 <= code && code < 300 {
        Ok(())
    } else {
        Err(Error::status_code(code))
    }
}

/// The text that describes a normalization failure.
pub open spec fn spec_decode_message(e: DecodeError) -> Seq<char> {
    match e {
        DecodeError::EmptyThread => "the thread has no posts"@,
        DecodeError::UnknownCapcode(s) => s@ + " is not a valid capcode"@,
        DecodeError::TypeMismatch => "expected an integer"@,
    }
}

/// The canonical reason phrase of a status code, if it has one.
pub uninterp spec fn reason_of(code: u16) -> Option<Seq<char>>;

/// A status code as HTTP shows it: the number, a space, and its reason phrase
/// or a note that it has none.
pub open spec fn spec_status_text(code: u16) -> Seq<char> {
    decimal(code as nat) + " "@ + match reason_of(code) {
        Some(reason) => reason,
        None => "<unknown status code>"@,
    }
}

/// The text that describes a status failure.
pub open spec fn spec_status_message(code: u16) -> Seq<char> {
    "status code is not success: server returned "@ + spec_status_text(code)
}

/// Relies on `reqwest::StatusCode::from_u16`, which refuses codes outside
/// 100..=999, and `StatusCode::canonical_reason`, for the reason phrase.
#[verifier::external_body]
fn status_reason(code: u16) -> (r: Option<String>)
    ensures
        match r {
            Some(t) => reason_of(code) == Some(t@),
            None => reason_of(code) is None,
        },
        (code < 100 || code > 999) ==> r is None,
{
    match reqwest::StatusCode::from_u16(code) {
        Ok(c) => c.canonical_reason().map(String::from),
        Err(_) => None,
    }
}

/// Relies on the `Display` impl of `reqwest::Error` for its text.
#[verifier::external_body]
fn http_error_text(e: &HttpError) -> (r: String) {
    e.to_string()
}

/// Relies on the `Display` impl of `serde_json::Error` for its text.
#[verifier::external_body]
fn json_error_text(e: &JsonError) -> (r: String) {
    e.to_string()
}

impl DecodeError {
    /// A human-readable description.
    pub fn message(&self) -> (r: String)
        ensures
            r@ == spec_decode_message(*self),
    {
        match self {
            DecodeError::EmptyThread => String::from_str("the thread has no posts"),
            DecodeError::UnknownCapcode(s) => {
                let mut t = s.clone();
                t.append(" is not a valid capcode");
                t
            },
            DecodeError::TypeMismatch => String::from_str("expected an integer"),
        }
    }
}

impl Error {
    /// A human-readable description: the outside error's own text for a
    /// transport or JSON failure, else the status or the normalization failure.
    pub fn message(&self) -> (r: String)
        ensures
            match *self {
                Error::StatusCode(c) => r@ == spec_status_message(c),
                Error::Decode(e) => r@ == spec_decode_message(e),
                _ => true,
            },
    {
        match self {
            Error::Web(e) => http_error_text(e),
            Error::Json(e) => json_error_text(e),
            Error::StatusCode(c) => {
                let mut t = String::from_str("status code is not success: server returned ");
                append_decimal(&mut t, *c as u64);
                t.append(" ");
                match status_reason(*c) {
                    Some(reason) => t.append(reason.as_str()),
                    None => t.append("<unknown status code>"),
                }
                proof {
                    assert(t@ =~= spec_status_message(*c));
                }
                t
            },
            Error::Decode(e) => e.message(),
        }
    }
}

} // verus!
