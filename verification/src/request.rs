use vstd::prelude::*;
use bytes::Bytes;
use http::header::InvalidHeaderValue;
use http::method::InvalidMethod;
use http::{HeaderMap, HeaderName, HeaderValue, Method};
use url::Url;
use vstd::utf8::encode_utf8;

verus! {

#[verifier::external_type_specification]
#[verifier::external_body]
pub struct ExMethod(Method);

#[verifier::external_type_specification]
#[verifier::external_body]
pub struct ExUrl(Url);

#[verifier::external_type_specification]
#[verifier::external_body]
#[verifier::reject_recursive_types(T)]
pub struct ExHeaderMap<T>(HeaderMap<T>);

#[verifier::external_type_specification]
#[verifier::external_body]
pub struct ExHeaderName(HeaderName);

#[verifier::external_type_specification]
#[verifier::external_body]
pub struct ExHeaderValue(HeaderValue);

#[verifier::external_type_specification]
#[verifier::external_body]
pub struct ExInvalidHeaderValue(InvalidHeaderValue);

#[verifier::external_type_specification]
#[verifier::external_body]
pub struct ExInvalidMethod(InvalidMethod);

/// `Method::clone`, used by the derived `Clone` of `Request`.
pub assume_specification[ <Method as Clone>::clone ](m: &Method) -> Method;

/// `Url::clone`, used by the derived `Clone` of `Request` and `Response`.
pub assume_specification[ <Url as Clone>::clone ](u: &Url) -> Url;

/// `HeaderMap::clone`, used by the derived `Clone` of `Request` and `Response`.
pub assume_specification<T>[ <HeaderMap<T> as Clone>::clone ](m: &HeaderMap<T>) -> (r: HeaderMap<T>)
    where
        T: Clone,
;

/// What a header map holds: for each header name (by its bytes), the bytes
/// of each of its values, in order.
pub uninterp spec fn header_entries(map: HeaderMap) -> Map<Seq<u8>, Seq<Seq<u8>>>;

/// The bytes of a header name (`HeaderName::as_str`, always lower case).
pub uninterp spec fn header_name_bytes(name: HeaderName) -> Seq<u8>;

/// The bytes of a header value (`HeaderValue::as_bytes`).
pub uninterp spec fn header_value_bytes(value: HeaderValue) -> Seq<u8>;

/// The number of names in a header map (`-1` stands for a map whose names
/// are not finitely many, which no header map is).
pub open spec fn header_count(map: HeaderMap) -> int {
    if header_entries(map).dom().finite() {
        header_entries(map).dom().len() as int
    } else {
        -1
    }
}

/// A header map accepts one more name without reaching its size limit:
/// `HeaderMap` grows its table (and fails past `MAX_SIZE = 2^15` slots)
/// only once it holds at least `MAX_SIZE / 5` names.
pub open spec fn header_room(map: HeaderMap) -> bool {
    0 <= header_count(map) && header_count(map) * 5 < 32768
}

/// A character may stand in a header value: its UTF-8 bytes are visible
/// ASCII, a horizontal tab, or (for a character outside ASCII) bytes of
/// 0x80 and above, which a header value accepts.
pub open spec fn header_value_char(c: char) -> bool {
    c == '\t' || (c as u32 >= 32 && c as u32 != 127)
}

/// The text is a valid header value: each of its characters may stand in one.
pub open spec fn header_value_valid(text: Seq<char>) -> bool {
    forall|i: int| 0 <= i < text.len() ==> header_value_char(#[trigger] text[i])
}

/// `HeaderMap::new`: an empty map.
#[verifier::external_body]
fn empty_header_map() -> (headers: HeaderMap)
    ensures
        header_entries(headers).dom() == Set::<Seq<u8>>::empty(),
{
    HeaderMap::new()
}

/// `HeaderMap::keys_len`: the number of distinct names in the map.
#[verifier::external_body]
fn header_keys_len(headers: &HeaderMap) -> (count: usize)
    ensures
        count == header_count(*headers),
{
    headers.keys_len()
}

/// `HeaderMap::insert`: the name gets this one value, in place of the
/// values it had; the other names keep theirs. It panics only once the map
/// has no room left, which `header_room` excludes.
#[verifier::external_body]
fn header_map_insert(headers: &mut HeaderMap, name: HeaderName, value: HeaderValue)
    requires
        header_room(*old(headers)),
    ensures
        header_entries(*final(headers)) == header_entries(*old(headers)).insert(
            header_name_bytes(name),
            seq![header_value_bytes(value)],
        ),
{
    headers.insert(name, value);
}

/// `HeaderValue::from_str`: accepts the text exactly when each of its bytes
/// is visible ASCII, a tab, or part of a multi-byte character (each such
/// byte is at least 0x80); the value holds the text's UTF-8 bytes.
#[verifier::external_body]
fn parse_header_value(text: &str) -> (r: Result<HeaderValue, InvalidHeaderValue>)
    ensures
        r is Ok <==> header_value_valid(text@),
        r matches Ok(v) ==> header_value_bytes(v) == encode_utf8(text@),
{
    HeaderValue::from_str(text)
}

/// A character that may stand in an HTTP method: an ASCII letter or digit,
/// or one of `!#$%&'*+-.^_`|~`.
pub open spec fn method_char(c: char) -> bool {
    ||| ('0' <= c && c <= '9')
    ||| ('A' <= c && c <= 'Z')
    ||| ('a' <= c && c <= 'z')
    ||| c == '!' || c == '#' || c == '$' || c == '%' || c == '&' || c == '\''
    ||| c == '*' || c == '+' || c == '-' || c == '.' || c == '^' || c == '_'
    ||| c == '`' || c == '|' || c == '~'
}

/// The text names an HTTP method: it is not empty and each character may
/// stand in a method.
pub open spec fn method_token(name: Seq<char>) -> bool {
    &&& name.len() > 0
    &&& forall|i: int| 0 <= i < name.len() ==> method_char(#[trigger] name[i])
}

/// The method that `Method::from_bytes` makes of a name.
pub uninterp spec fn method_named(name: Seq<char>) -> Method;

/// `Method::from_bytes` on the bytes of a name: it accepts exactly the
/// names that are not empty and hold only method characters (a character
/// outside ASCII has bytes of 0x80 and above, which it refuses), and gives
/// the same method for the same name.
#[verifier::external_body]
fn method_from_name(name: &str) -> (r: Result<Method, InvalidMethod>)
    ensures
        r is Ok <==> method_token(name@),
        r matches Ok(m) ==> m == method_named(name@),
{
    Method::from_bytes(name.as_bytes())
}

/// The method of a valid name.
fn method_of(name: &str) -> (m: Method)
    requires
        method_token(name@),
    ensures
        m == method_named(name@),
{
    match method_from_name(name) {
        Ok(m) => m,
        Err(_) => {
            proof {
                assert(false);
            }
            unreached()
        },
    }
}

/// One HTTP request that an endpoint makes.
#[derive(Debug, Clone)]
pub struct Request {
    pub method: Method,
    pub url: Url,
    pub headers: HeaderMap,
    pub body: Option<Bytes>,
}

impl Request {
    /// Make a `GET` request to `url`.
    pub fn get(url: Url) -> (r: Self)
        ensures
            r.method == method_named("GET"@),
            r.url == url,
            header_entries(r.headers).dom() == Set::<Seq<u8>>::empty(),
            r.body is None,
    {
        let name = "GET";
        proof {
            reveal_strlit("GET");
            assert(method_char(name@[0]) && method_char(name@[1]) && method_char(name@[2]));
        }
        Self::new(method_of(name), url)
    }

    /// Make a `POST` request to `url`.
    pub fn post(url: Url) -> (r: Self)
        ensures
            r.method == method_named("POST"@),
            r.url == url,
            header_entries(r.headers).dom() == Set::<Seq<u8>>::empty(),
            r.body is None,
    {
        let name = "POST";
        proof {
            reveal_strlit("POST");
            assert(method_char(name@[0]) && method_char(name@[1]) && method_char(name@[2]) && method_char(name@[3]));
        }
        Self::new(method_of(name), url)
    }

    /// Make a request with the given method to `url`, with no headers and no body.
    pub fn new(method: Method, url: Url) -> (r: Self)
        ensures
            r.method == method,
            r.url == url,
            header_entries(r.headers).dom() == Set::<Seq<u8>>::empty(),
            r.body is None,
    {
        Request { method, url, headers: empty_header_map(), body: None }
    }

    /// Whether one more header can be set on this request without reaching
    /// the size limit of its header map.
    pub fn has_header_room(&self) -> (b: bool)
        ensures
            b == header_room(self.headers),
    {
        let n = header_keys_len(&self.headers);
        (n as u128) * 5 < 32768
    }

    /// Set a header. The value must be a valid header value (see
    /// `try_header` for a form that reports an invalid one).
    pub fn header(self, name: HeaderName, value: &str) -> (r: Self)
        requires
            header_value_valid(value@),
            header_room(self.headers),
        ensures
            r.method == self.method,
            r.url == self.url,
            r.body == self.body,
            header_entries(r.headers) == header_entries(self.headers).insert(
                header_name_bytes(name),
                seq![encode_utf8(value@)],
            ),
    {
        match self.try_header(name, value) {
            Ok(r) => r,
            Err(_) => {
                proof {
                    assert(false);
                }
                unreached()
            },
        }
    }

    /// Set a header. If `value` is not a valid header value, the request is
    /// dropped and the error returned.
    pub fn try_header(self, name: HeaderName, value: &str) -> (r: Result<Self, InvalidHeaderValue>)
        requires
            header_room(self.headers),
        ensures
            r is Ok <==> header_value_valid(value@),
            r matches Ok(req) ==> {
                &&& req.method == self.method
                &&& req.url == self.url
                &&& req.body == self.body
                &&& header_entries(req.headers) == header_entries(self.headers).insert(
                    header_name_bytes(name),
                    seq![encode_utf8(value@)],
                )
            },
    {
        let parsed = parse_header_value(value);
        match parsed {
            Ok(v) => {
                let mut req = self;
                header_map_insert(&mut req.headers, name, v);
                Ok(req)
            },
            Err(e) => Err(e),
        }
    }

    /// Set the body, converted to `Bytes` by its `Into`.
    pub fn body<T: Into<Bytes>>(self, body: T) -> (r: Self)
        ensures
            r.method == self.method,
            r.url == self.url,
            r.headers == self.headers,
            r.body matches Some(b) && call_ensures(T::into, (body,), b),
    {
        let mut req = self;
        req.body = Some(body.into());
        req
    }
}

} // verus!
