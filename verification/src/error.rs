use vstd::prelude::*;
use reqwest::Error as ReqwestError;
use serde_json::Error as JsonError;
use std::fmt::Write;
use std::string::FromUtf8Error;
use vstd::string::StringExecFns;
use vstd::pervasive::arbitrary;

verus! {

#[verifier::external_type_specification]
#[verifier::external_body]
pub struct ExFromUtf8Error(FromUtf8Error);

#[verifier::external_type_specification]
#[verifier::external_body]
pub struct ExJsonError(JsonError);

#[verifier::external_type_specification]
#[verifier::external_body]
pub struct ExReqwestError(ReqwestError);

/// What `Display` writes for a `reqwest::Error`: the kind of the error and
/// the URL it concerns, which depend on the error alone.
pub uninterp spec fn reqwest_error_text(e: ReqwestError) -> Seq<char>;

/// `ToString::to_string` of a `reqwest::Error` (its `Display`).
#[verifier::external_body]
fn reqwest_error_display(e: &ReqwestError) -> (s: String)
    ensures
        s@ == reqwest_error_text(*e),
{
    e.to_string()
}

/// The errors that can occur during the ingestion of an endpoint.
///
/// An error of the HTTP client or of a parse is kept as its message.
#[derive(Debug)]
#[non_exhaustive]
pub enum Error {
    /// The HTTP client could not execute a request.
    Http(String),
    /// The construction of a request failed (for example, a header value
    /// that is not valid).
    RequestBuild(String),
    /// `Endpoint::parse` failed.
    Parse(String),
    /// A response body is not valid UTF-8.
    Utf8(FromUtf8Error),
    /// A response body is not valid JSON.
    Json(JsonError),
}

/// What `Display` writes for a `FromUtf8Error`.
pub uninterp spec fn utf8_error_text(e: FromUtf8Error) -> Seq<char>;

/// `ToString::to_string` of a `FromUtf8Error` (its `Display`), which depends
/// on the error alone.
#[verifier::external_body]
fn utf8_error_display(e: &FromUtf8Error) -> (s: String)
    ensures
        s@ == utf8_error_text(*e),
{
    e.to_string()
}

/// The error wraps an I/O error (`serde_json::Error::is_io`).
pub uninterp spec fn json_error_is_io(e: JsonError) -> bool;

/// What `Display` writes for a `serde_json::Error` that does not wrap an I/O
/// error: the message of its kind, with the line and column where there is
/// one, which depend on the error alone.
pub uninterp spec fn json_error_text(e: JsonError) -> Seq<char>;

/// The `Display` of a `serde_json::Error`, written into a `String`. For an
/// error that wraps an I/O error the text is that error's message, which can
/// come from the operating system, so it is not stated; a display that
/// fails leaves the text short rather than panicking.
#[verifier::external_body]
fn json_error_display(e: &JsonError) -> (s: String)
    ensures
        !json_error_is_io(*e) ==> s@ == json_error_text(*e),
{
    let mut text = String::new();
    let _ = write!(text, "{}", e);
    text
}

impl Error {
    /// The phrase, ending in a colon and a space, that names the kind of
    /// the error at the start of its message.
    pub open spec fn message_prefix(&self) -> Seq<char> {
        match self {
            Error::Http(_) => "http error: "@,
            Error::RequestBuild(_) => "failed to build request: "@,
            Error::Parse(_) => "failed to parse response: "@,
            Error::Utf8(_) => "response body is not valid UTF-8: "@,
            Error::Json(_) => "response body is not valid JSON: "@,
        }
    }

    /// The text of what caused the error, where it is known: the message
    /// held, or the display of the UTF-8 or JSON error; for a JSON error that
    /// wraps an I/O error it is not.
    pub open spec fn cause_text(&self) -> Option<Seq<char>> {
        match self {
            Error::Http(m) => Some(m@),
            Error::RequestBuild(m) => Some(m@),
            Error::Parse(m) => Some(m@),
            Error::Utf8(e) => Some(utf8_error_text(*e)),
            Error::Json(e) => if json_error_is_io(*e) {
                None
            } else {
                Some(json_error_text(*e))
            },
        }
    }

    /// The text that describes this error (what its display shows): the
    /// phrase of its kind, then the text of its cause.
    pub fn message(&self) -> (s: String)
        ensures
            exists|cause: Seq<char>| {
                &&& s@ == self.message_prefix() + cause
                &&& (self.cause_text() matches Some(c) ==> cause == c)
            },
    {
        let (kind, cause): (&str, String) = match self {
            Error::Http(m) => ("http error: ", m.clone()),
            Error::RequestBuild(m) => ("failed to build request: ", m.clone()),
            Error::Parse(m) => ("failed to parse response: ", m.clone()),
            Error::Utf8(e) => ("response body is not valid UTF-8: ", utf8_error_display(e)),
            Error::Json(e) => ("response body is not valid JSON: ", json_error_display(e)),
        };
        proof {
            assert(kind@ == self.message_prefix());
            assert(self.cause_text() matches Some(c) ==> cause@ == c);
        }
        let s = String::from_str(kind).concat(cause.as_str());
        assert(s@ == self.message_prefix() + cause@);
        s
    }

    /// Make a `Parse` error that holds the message of `err`. This function is
    /// for `Endpoint::parse` implementations.
    ///
    /// Writes the error's `Display` into the message; that display is the
    /// caller's type's own, so what the message reads is not stated, and a
    /// display that fails leaves it short rather than panicking.
    #[verifier::external_body]
    pub fn parse<E: std::error::Error + Send + Sync + 'static>(err: E) -> (r: Self)
        ensures
            r is Parse,
    {
        let mut message = String::new();
        let _ = write!(message, "{}", err);
        Error::Parse(message)
    }
}

impl From<FromUtf8Error> for Error {
    fn from(err: FromUtf8Error) -> (r: Self) {
        Error::Utf8(err)
    }
}

impl vstd::std_specs::convert::FromSpecImpl<FromUtf8Error> for Error {
    open spec fn obeys_from_spec() -> bool {
        true
    }

    open spec fn from_spec(err: FromUtf8Error) -> Self {
        Error::Utf8(err)
    }
}

/// An error of the `reqwest` client becomes an `Http` error that holds its
/// message.
impl From<ReqwestError> for Error {
    fn from(err: ReqwestError) -> (r: Self)
        ensures
            r matches Error::Http(m) && m@ == reqwest_error_text(err),
    {
        Error::Http(reqwest_error_display(&err))
    }
}

impl vstd::std_specs::convert::FromSpecImpl<ReqwestError> for Error {
    open spec fn obeys_from_spec() -> bool {
        false
    }

    open spec fn from_spec(err: ReqwestError) -> Self {
        Error::Http(arbitrary())
    }
}

impl From<JsonError> for Error {
    fn from(err: JsonError) -> (r: Self) {
        Error::Json(err)
    }
}

impl vstd::std_specs::convert::FromSpecImpl<JsonError> for Error {
    open spec fn obeys_from_spec() -> bool {
        true
    }

    open spec fn from_spec(err: JsonError) -> Self {
        Error::Json(err)
    }
}

} // verus!
