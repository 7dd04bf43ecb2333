//! Tests of the library's parts on concrete values: requests, responses,
//! errors, clients, rate limits, and the steps of an ingestion.

use std::collections::VecDeque;

use bytes::Bytes;
use http::header::{ACCEPT, CONTENT_TYPE};
use http::{HeaderMap, Method, StatusCode};
use ingester::response::json_outcome;
use ingester::{
    Endpoint, Error, HttpClient, Ingester, NoRateLimit, Pump, RateLimit, Request, Response, Step,
};
use url::Url;

fn url(text: &str) -> Url {
    text.parse().unwrap()
}

fn response(body: &'static str) -> Response {
    Response::new(StatusCode::OK, HeaderMap::new(), url("http://example.com/"), Bytes::from(body))
}

/// An endpoint that follows a script: it hands out one request per page,
/// records which response it saw each time, and parses each body as a
/// comma-separated list of numbers ("x" fails the parse).
struct Scripted {
    pages: VecDeque<&'static str>,
    seen: Vec<Option<String>>,
}

impl Scripted {
    fn new(pages: &[&'static str]) -> Self {
        Self { pages: pages.iter().copied().collect(), seen: Vec::new() }
    }
}

impl Endpoint for Scripted {
    type Item = u32;

    fn next_request(&mut self, last: Option<&Response>) -> Option<Request> {
        self.seen.push(last.map(|r| r.text().unwrap()));
        let page = self.pages.pop_front()?;
        Some(Request::get(url(&format!("http://example.com/{page}"))))
    }

    fn parse(&self, response: &Response) -> Result<Vec<u32>, Error> {
        let text = response.text()?;
        if text == "x" {
            return Err(Error::parse(std::io::Error::other("bad page")));
        }
        Ok(text.split(',').filter(|s| !s.is_empty()).map(|s| s.parse().unwrap()).collect())
    }
}

fn body_of(req: &Request) -> String {
    req.url.path().trim_start_matches('/').to_string()
}

fn expect_send(pump: &mut Pump<Scripted>) -> Request {
    match pump.next_step() {
        Step::Send(req) => req,
        Step::Item(i) => panic!("expected a request, got item {i}"),
        Step::Done => panic!("expected a request, got Done"),
    }
}

fn expect_item(pump: &mut Pump<Scripted>) -> u32 {
    match pump.next_step() {
        Step::Item(i) => i,
        Step::Send(_) => panic!("expected an item, got a request"),
        Step::Done => panic!("expected an item, got Done"),
    }
}

fn expect_done(pump: &mut Pump<Scripted>) {
    assert!(matches!(pump.next_step(), Step::Done));
}

fn answer(pump: &mut Pump<Scripted>, req: Request) -> Option<Error> {
    let body = body_of(&req);
    let text: &'static str = Box::leak(body.replace('_', ",").into_boxed_str());
    pump.on_response(Ok(response(text)))
}

#[test]
fn items_come_in_parse_order_before_the_next_request() {
    let mut pump = Pump::new(Scripted::new(&["1_2_3", "4"]));
    let req = expect_send(&mut pump);
    assert!(answer(&mut pump, req).is_none());
    assert_eq!(expect_item(&mut pump), 1);
    assert_eq!(expect_item(&mut pump), 2);
    assert_eq!(expect_item(&mut pump), 3);
    let req = expect_send(&mut pump);
    assert!(answer(&mut pump, req).is_none());
    assert_eq!(expect_item(&mut pump), 4);
    expect_done(&mut pump);
    expect_done(&mut pump);
}

#[test]
fn endpoint_sees_the_last_response() {
    let mut pump = Pump::new(Scripted::new(&["1", "2"]));
    for _ in 0..2 {
        let req = expect_send(&mut pump);
        assert!(answer(&mut pump, req).is_none());
        expect_item(&mut pump);
    }
    expect_done(&mut pump);
    assert_eq!(
        pump.endpoint().seen,
        vec![None, Some("1".to_string()), Some("2".to_string())],
        "first call gets None, each later call the response before it"
    );
}

#[test]
fn empty_page_goes_on_to_the_next_request() {
    let mut pump = Pump::new(Scripted::new(&["", "7"]));
    let req = expect_send(&mut pump);
    assert!(answer(&mut pump, req).is_none());
    let req = expect_send(&mut pump);
    assert_eq!(body_of(&req), "7");
    assert!(answer(&mut pump, req).is_none());
    assert_eq!(expect_item(&mut pump), 7);
    expect_done(&mut pump);
}

#[test]
fn client_error_is_given_once_then_done() {
    let mut pump = Pump::new(Scripted::new(&["1", "2"]));
    let _req = expect_send(&mut pump);
    let err = pump.on_response(Err(Error::Http("connection refused".to_string())));
    assert!(matches!(err, Some(Error::Http(ref m)) if m == "connection refused"));
    expect_done(&mut pump);
    expect_done(&mut pump);
}

#[test]
fn parse_error_is_given_once_then_done() {
    let mut pump = Pump::new(Scripted::new(&["1", "x", "3"]));
    let req = expect_send(&mut pump);
    assert!(answer(&mut pump, req).is_none());
    assert_eq!(expect_item(&mut pump), 1);
    let _req = expect_send(&mut pump);
    let err = pump.on_response(Ok(response("x")));
    assert!(matches!(err, Some(Error::Parse(ref m)) if m == "bad page"));
    expect_done(&mut pump);
    expect_done(&mut pump);
}

#[test]
fn accept_request_and_batch_directly() {
    let mut pump = Pump::new(Scripted::new(&[]));
    let step = pump.accept_request(Some(Request::get(url("http://example.com/a"))));
    assert!(matches!(step, Step::Send(ref r) if r.url == url("http://example.com/a")));
    assert!(pump.accept_batch(response("5,6"), Ok(vec![5, 6])).is_none());
    assert_eq!(expect_item(&mut pump), 5);
    assert_eq!(expect_item(&mut pump), 6);
    let step = pump.accept_request(None);
    assert!(matches!(step, Step::Done));
    expect_done(&mut pump);
}

#[test]
fn accept_batch_error_ends() {
    let mut pump = Pump::new(Scripted::new(&[]));
    let _ = pump.accept_request(Some(Request::get(url("http://example.com/a"))));
    let err = pump.accept_batch(response(""), Err(Error::RequestBuild("no".to_string())));
    assert!(matches!(err, Some(Error::RequestBuild(ref m)) if m == "no"));
    expect_done(&mut pump);
}

#[test]
fn ingester_start_keeps_its_parts() {
    let ing = Ingester::new(Scripted::new(&["9"]), 3u8, NoRateLimit);
    let ing = ing.with_client::<u16, _>(HttpClient::new(4u16));
    let ing = ing.with_rate_limit(5i32);
    let (mut pump, client, rate_limit) = ing.start();
    assert_eq!(*client.backend(), 4u16);
    assert_eq!(*rate_limit.backend(), 5i32);
    let req = expect_send(&mut pump);
    assert_eq!(body_of(&req), "9");
}

#[test]
fn client_and_rate_limit_hold_their_backend() {
    assert_eq!(*HttpClient::new(7u8).backend(), 7);
    assert_eq!(*HttpClient::from(8u8).backend(), 8);
    assert_eq!(*RateLimit::new(9u8).backend(), 9);
    assert_eq!(*RateLimit::from(10u8).backend(), 10);
    let none: RateLimit = RateLimit::new(NoRateLimit);
    let _ = none.backend();
}

#[test]
fn request_builders() {
    let get = Request::get(url("http://example.com/a"));
    assert_eq!(get.method, Method::GET);
    assert_eq!(get.url, url("http://example.com/a"));
    assert!(get.headers.is_empty());
    assert!(get.body.is_none());

    let post = Request::post(url("http://example.com/b"));
    assert_eq!(post.method, Method::POST);

    let put = Request::new(Method::PUT, url("http://example.com/c"));
    assert_eq!(put.method, Method::PUT);
    assert!(put.headers.is_empty());

    let with_body = Request::post(url("http://example.com/d")).body("payload");
    assert_eq!(with_body.body.as_deref(), Some(&b"payload"[..]));
    assert_eq!(with_body.method, Method::POST);
}

#[test]
fn request_header_sets_and_replaces() {
    let req = Request::get(url("http://example.com/"))
        .header(ACCEPT, "text/plain")
        .header(CONTENT_TYPE, "application/json")
        .header(ACCEPT, "application/json");
    assert_eq!(req.headers.keys_len(), 2);
    assert_eq!(req.headers.get_all(ACCEPT).iter().count(), 1);
    assert_eq!(req.headers[ACCEPT], "application/json");
    assert_eq!(req.headers[CONTENT_TYPE], "application/json");
}

#[test]
fn try_header_refuses_invalid_values() {
    let req = Request::get(url("http://example.com/"));
    assert!(req.clone().try_header(ACCEPT, "bad\nvalue").is_err());
    assert!(req.clone().try_header(ACCEPT, "del\u{7f}").is_err());
    let ok = req.clone().try_header(ACCEPT, "tab\tand ümlaut").unwrap();
    assert_eq!(ok.headers[ACCEPT].as_bytes(), "tab\tand ümlaut".as_bytes());
}

#[test]
fn response_keeps_its_parts() {
    let mut headers = HeaderMap::new();
    headers.insert(ACCEPT, "x".parse().unwrap());
    let resp = Response::new(StatusCode::NOT_FOUND, headers, url("http://example.com/z"), Bytes::from("abc"));
    assert_eq!(resp.status, StatusCode::NOT_FOUND);
    assert_eq!(resp.headers[ACCEPT], "x");
    assert_eq!(resp.url, url("http://example.com/z"));
    assert_eq!(resp.bytes(), &Bytes::from("abc"));
}

#[test]
fn text_decodes_utf8_and_refuses_invalid() {
    let resp = Response::new(StatusCode::OK, HeaderMap::new(), url("http://example.com/"), Bytes::from("héllo ✓"));
    assert_eq!(resp.text().unwrap(), "héllo ✓");
    let bad = Response::new(
        StatusCode::OK,
        HeaderMap::new(),
        url("http://example.com/"),
        Bytes::from(vec![0x66, 0xff, 0x6f]),
    );
    assert!(matches!(bad.text(), Err(Error::Utf8(_))));
    let empty = response("");
    assert_eq!(empty.text().unwrap(), "");
}

#[test]
fn json_parses_and_reports_errors() {
    let resp = response(r#"{"a": [1, 2]}"#);
    let value: serde_json::Value = resp.json().unwrap();
    assert_eq!(value["a"][1], 2);
    let bad = response("{not json");
    assert!(matches!(bad.json::<serde_json::Value>(), Err(Error::Json(_))));
    let wrong_shape = response(r#"{"a": 1}"#);
    assert!(matches!(wrong_shape.json::<Vec<u8>>(), Err(Error::Json(_))));
}

#[test]
fn json_outcome_maps_the_parser_result() {
    assert!(matches!(json_outcome::<u8>(Ok(4)), Ok(4)));
    let err = serde_json::from_str::<u8>("nope").unwrap_err();
    assert!(matches!(json_outcome::<u8>(Err(err)), Err(Error::Json(_))));
}

#[test]
fn errors_convert_and_carry_their_message() {
    let utf8 = String::from_utf8(vec![0xc3]).unwrap_err();
    assert!(matches!(Error::from(utf8), Error::Utf8(_)));
    let json = serde_json::from_str::<u8>("[").unwrap_err();
    assert!(matches!(Error::from(json), Error::Json(_)));
    let parse = Error::parse(std::io::Error::other("boom"));
    assert!(matches!(parse, Error::Parse(ref m) if m == "boom"));
}

#[test]
fn requests_and_responses_clone() {
    let req = Request::post(url("http://example.com/q"))
        .header(ACCEPT, "text/plain")
        .body(vec![1u8, 2, 3]);
    let copy = req.clone();
    assert_eq!(copy.method, req.method);
    assert_eq!(copy.url, req.url);
    assert_eq!(copy.headers, req.headers);
    assert_eq!(copy.body, Some(Bytes::from(vec![1u8, 2, 3])));

    let resp = response("same bytes");
    let copy = resp.clone();
    assert_eq!(copy.bytes(), resp.bytes());
    assert_eq!(copy.text().unwrap(), "same bytes");
}

#[test]
fn error_messages_name_the_kind_and_the_cause() {
    assert_eq!(Error::Http("refused".to_string()).message(), "http error: refused");
    assert_eq!(
        Error::RequestBuild("bad".to_string()).message(),
        "failed to build request: bad"
    );
    assert_eq!(
        Error::parse(std::io::Error::other("boom")).message(),
        "failed to parse response: boom"
    );
    let utf8 = String::from_utf8(vec![0xc3]).unwrap_err();
    let expected = format!("response body is not valid UTF-8: {utf8}");
    assert_eq!(Error::Utf8(utf8).message(), expected);
    let json = serde_json::from_str::<u8>("[").unwrap_err();
    let expected = format!("response body is not valid JSON: {json}");
    assert_eq!(Error::Json(json).message(), expected);
}

#[test]
fn response_accessors_give_its_parts() {
    let resp = Response::new(StatusCode::CREATED, HeaderMap::new(), url("http://example.com/y"), Bytes::from("b"));
    assert_eq!(*resp.status(), StatusCode::CREATED);
    assert!(resp.headers().is_empty());
    assert_eq!(*resp.url(), url("http://example.com/y"));
}

#[test]
fn reqwest_errors_become_http_errors() {
    let err = reqwest::Client::new().get("not a url").build().unwrap_err();
    let text = err.to_string();
    assert!(matches!(Error::from(err), Error::Http(ref m) if *m == text));
}

#[test]
fn body_takes_each_kind_of_bytes() {
    let base = || Request::post(url("http://example.com/p"));
    assert_eq!(base().body(vec![7u8, 8]).body, Some(Bytes::from(vec![7u8, 8])));
    assert_eq!(base().body(String::from("s")).body, Some(Bytes::from("s")));
    assert_eq!(base().body("t").body, Some(Bytes::from("t")));
    assert_eq!(base().body(&b"u"[..]).body, Some(Bytes::from("u")));
    assert_eq!(base().body(Bytes::from("v")).body.unwrap(), Bytes::from("v"));
    assert_eq!(base().body("old").body("new").body, Some(Bytes::from("new")));
}

#[test]
fn ingester_keeps_a_client_and_rate_limit_given_as_they_are() {
    let ing: Ingester<Scripted, u8, u16> =
        Ingester::new(Scripted::new(&[]), HttpClient::new(1u8), RateLimit::new(2u16));
    let (_, client, rate_limit) = ing.start();
    assert_eq!(*client.backend(), 1);
    assert_eq!(*rate_limit.backend(), 2);
}

#[test]
fn header_room_and_phase_can_be_tested() {
    let req = Request::get(url("http://example.com/")).header(ACCEPT, "a");
    assert!(req.has_header_room());
    let mut pump = Pump::new(Scripted::new(&["1"]));
    assert!(matches!(pump.phase(), ingester::pump::Phase::Ready));
    let _req = expect_send(&mut pump);
    assert!(matches!(pump.phase(), ingester::pump::Phase::Awaiting));
    let _ = pump.on_response(Err(Error::Http("down".to_string())));
    assert!(matches!(pump.phase(), ingester::pump::Phase::Finished));
}

#[test]
fn json_errors_of_a_response_are_not_io_and_show_their_cause() {
    let err = match response("{oops").json::<serde_json::Value>() {
        Err(Error::Json(e)) => e,
        _ => panic!("expected a JSON error"),
    };
    assert!(!err.is_io());
    let text = err.to_string();
    assert_eq!(
        Error::Json(err).message(),
        format!("response body is not valid JSON: {text}")
    );
}
