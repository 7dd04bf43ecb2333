use vstd::prelude::*;
use bytes::Bytes;
use http::{HeaderMap, StatusCode};
use serde_json::Error as JsonError;
use std::string::FromUtf8Error;
use url::Url;
use vstd::utf8::{decode_utf8, encode_utf8, valid_utf8};

use crate::error::{json_error_is_io, Error};

verus! {

#[verifier::external_type_specification]
#[verifier::external_body]
pub struct ExBytes(Bytes);

#[verifier::external_type_specification]
#[verifier::external_body]
pub struct ExStatusCode(StatusCode);

/// The bytes that a `Bytes` buffer holds, in order.
pub uninterp spec fn bytes_contents(b: Bytes) -> Seq<u8>;

/// `Bytes::clone`: a buffer with the same bytes.
pub assume_specification[ <Bytes as Clone>::clone ](b: &Bytes) -> (r: Bytes)
    ensures
        bytes_contents(r) == bytes_contents(*b),
;

/// `Bytes::from` a vector: a buffer with the vector's bytes.
pub assume_specification[ <Bytes as core::convert::From<Vec<u8>>>::from ](v: Vec<u8>) -> (b: Bytes)
    ensures
        bytes_contents(b) == v@,
;

/// `Bytes::from` a string: a buffer with the string's UTF-8 bytes.
pub assume_specification[ <Bytes as core::convert::From<String>>::from ](s: String) -> (b: Bytes)
    ensures
        bytes_contents(b) == encode_utf8(s@),
;

/// `Bytes::from` a static string: a buffer with the string's UTF-8 bytes.
pub assume_specification[ <Bytes as core::convert::From<&'static str>>::from ](s: &'static str) -> (b: Bytes)
    ensures
        bytes_contents(b) == encode_utf8(s@),
;

/// `Bytes::from` a static slice: a buffer with the slice's bytes.
pub assume_specification[ <Bytes as core::convert::From<&'static [u8]>>::from ](s: &'static [u8]) -> (b: Bytes)
    ensures
        bytes_contents(b) == s@,
;

/// `StatusCode::clone`, used by the derived `Clone` of `Response`.
pub assume_specification[ <StatusCode as Clone>::clone ](s: &StatusCode) -> StatusCode;

/// `<[u8]>::to_vec` on the bytes of a buffer: a vector with the same bytes.
#[verifier::external_body]
fn bytes_to_vec(b: &Bytes) -> (v: Vec<u8>)
    ensures
        v@ == bytes_contents(*b),
{
    b.to_vec()
}

/// `String::from_utf8`: succeeds exactly on valid UTF-8, with the decoded text.
#[verifier::external_body]
fn string_from_utf8(v: Vec<u8>) -> (r: Result<String, FromUtf8Error>)
    ensures
        r is Ok <==> valid_utf8(v@),
        r matches Ok(s) ==> s@ == decode_utf8(v@),
{
    String::from_utf8(v)
}

/// `serde_json::from_slice` on the bytes of a buffer. What it gives back
/// rests on the `Deserialize` impl of `T`; of it, only that an error never
/// wraps an I/O error (a slice is read without I/O, and the errors that a
/// `Deserialize` impl makes are messages) is stated.
#[verifier::external_body]
fn json_from_bytes<T: serde::de::DeserializeOwned>(b: &Bytes) -> (r: Result<T, JsonError>)
    ensures
        r matches Err(e) ==> !json_error_is_io(e),
{
    serde_json::from_slice(b)
}

/// The response to one request.
#[derive(Debug, Clone)]
pub struct Response {
    pub status: StatusCode,
    pub headers: HeaderMap,
    /// The URL that supplied the response.
    pub url: Url,
    body: Bytes,
}

impl Response {
    /// The status of the response.
    pub closed spec fn status_spec(&self) -> StatusCode {
        self.status
    }

    /// The headers of the response.
    pub closed spec fn headers_spec(&self) -> HeaderMap {
        self.headers
    }

    /// The URL that supplied the response.
    pub closed spec fn url_spec(&self) -> Url {
        self.url
    }

    /// The body of the response.
    pub closed spec fn body_spec(&self) -> Bytes {
        self.body
    }

    /// The bytes of the body.
    pub open spec fn body_bytes(&self) -> Seq<u8> {
        bytes_contents(self.body_spec())
    }

    pub fn new(status: StatusCode, headers: HeaderMap, url: Url, body: Bytes) -> (r: Self)
        ensures
            r.status_spec() == status,
            r.headers_spec() == headers,
            r.url_spec() == url,
            r.body_spec() == body,
    {
        Response { status, headers, url, body }
    }

    /// The status of the response.
    pub fn status(&self) -> (s: &StatusCode)
        ensures
            *s == self.status_spec(),
    {
        &self.status
    }

    /// The headers of the response.
    pub fn headers(&self) -> (h: &HeaderMap)
        ensures
            *h == self.headers_spec(),
    {
        &self.headers
    }

    /// The URL that supplied the response.
    pub fn url(&self) -> (u: &Url)
        ensures
            *u == self.url_spec(),
    {
        &self.url
    }

    pub fn bytes(&self) -> (b: &Bytes)
        ensures
            *b == self.body_spec(),
    {
        &self.body
    }

    /// Get the body as UTF-8 text.
    pub fn text(&self) -> (r: Result<String, Error>)
        ensures
            r is Ok <==> valid_utf8(self.body_bytes()),
            r matches Ok(s) ==> s@ == decode_utf8(self.body_bytes()),
            r matches Err(e) ==> e is Utf8,
    {
        let v = bytes_to_vec(&self.body);
        match string_from_utf8(v) {
            Ok(s) => Ok(s),
            Err(e) => Err(Error::Utf8(e)),
        }
    }

    /// Parse the body as JSON.
    pub fn json<T: serde::de::DeserializeOwned>(&self) -> (r: Result<T, Error>)
        ensures
            r matches Err(e) ==> e matches Error::Json(j) && !json_error_is_io(j),
            exists|parsed: Result<T, JsonError>|
                {
                    &&& json_parses(self.body_spec(), parsed)
                    &&& r == json_outcome_of(parsed)
                },
    {
        let parsed = json_from_bytes(&self.body);
        let ghost raw = parsed;
        proof {
            assert(json_parses(self.body_spec(), raw));
        }
        let r = json_outcome(parsed);
        assert(r == json_outcome_of(raw));
        r
    }
}

/// `parsed` is what the JSON parser (`serde_json::from_slice`) gives for
/// the bytes of `body`.
pub closed spec fn json_parses<T: serde::de::DeserializeOwned>(body: Bytes, parsed: Result<T, JsonError>) -> bool {
    call_ensures(json_from_bytes::<T>, (&body,), parsed)
}

/// What `Response::json` gives is the JSON parser's answer for the
/// response's own body, and nothing else: a value exactly when the parser
/// gave that value for those bytes, and otherwise the parser's error, as a
/// JSON error that does not wrap an I/O error.
pub proof fn lemma_json_is_the_parse_of_the_body<T: serde::de::DeserializeOwned>(
    resp: Response,
    parsed: Result<T, JsonError>,
    r: Result<T, Error>,
)
    requires
        json_parses(resp.body_spec(), parsed),
        r == json_outcome_of(parsed),
    ensures
        r is Ok <==> parsed is Ok,
        r matches Ok(v) ==> parsed == Ok::<T, JsonError>(v),
        parsed matches Ok(v) ==> r == Ok::<T, Error>(v),
        r matches Err(e) ==> (e matches Error::Json(j) && parsed == Err::<T, JsonError>(j)
            && !json_error_is_io(j)),
{
    reveal(json_parses);
}

/// What the JSON parser's result becomes: the value itself, or its error
/// as `Error::Json`.
pub open spec fn json_outcome_of<T>(parsed: Result<T, JsonError>) -> Result<T, Error> {
    match parsed {
        Ok(v) => Ok(v),
        Err(e) => Err(Error::Json(e)),
    }
}

/// What `Response::json` gives for what the JSON parser gave back: the
/// value itself, or its error as `Error::Json`.
pub fn json_outcome<T>(parsed: Result<T, JsonError>) -> (r: Result<T, Error>)
    ensures
        parsed matches Ok(v) ==> r == Ok::<T, Error>(v),
        parsed matches Err(e) ==> r == Err::<T, Error>(Error::Json(e)),
{
    match parsed {
        Ok(v) => Ok(v),
        Err(e) => Err(Error::Json(e)),
    }
}

} // verus!
