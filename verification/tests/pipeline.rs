//! Offline tests: a mock HTTP client serves canned responses, a counting
//! rate limiter records how often it was awaited. The ingestion is driven
//! step by step, as a driver does: wait, execute, hand the outcome back.

use std::cell::{Cell, RefCell};
use std::collections::VecDeque;
use std::rc::Rc;

use bytes::Bytes;
use http::{HeaderMap, StatusCode};
use ingester::{Endpoint, Error, Ingester, NoRateLimit, Request, Response, Step};
use url::Url;

trait SyncClient {
    fn execute(&self, req: Request) -> Result<Response, Error>;
}

trait Gate {
    fn wait(&self);
}

impl Gate for NoRateLimit {
    fn wait(&self) {}
}

#[derive(Clone, Default)]
struct MockClient {
    responses: Rc<RefCell<VecDeque<Response>>>,
    requested: Rc<RefCell<Vec<Url>>>,
}

impl MockClient {
    fn new(responses: Vec<Response>) -> Self {
        Self {
            responses: Rc::new(RefCell::new(responses.into())),
            requested: Rc::new(RefCell::new(Vec::new())),
        }
    }

    fn requested_urls(&self) -> Vec<Url> {
        self.requested.borrow().clone()
    }
}

impl SyncClient for MockClient {
    fn execute(&self, req: Request) -> Result<Response, Error> {
        self.requested.borrow_mut().push(req.url.clone());
        self.responses
            .borrow_mut()
            .pop_front()
            .ok_or_else(|| Error::RequestBuild("mock client ran out of canned responses".into()))
    }
}

#[derive(Clone, Default)]
struct CountingRateLimit(Rc<Cell<usize>>);

impl CountingRateLimit {
    fn count(&self) -> usize {
        self.0.get()
    }
}

impl Gate for CountingRateLimit {
    fn wait(&self) {
        self.0.set(self.0.get() + 1);
    }
}

/// Drive an ingestion to its end and give each item or error as it comes.
fn into_results<E: Endpoint, C: SyncClient, B: Gate>(
    ingester: Ingester<E, C, B>,
) -> Vec<Result<E::Item, Error>> {
    let (mut pump, client, rate_limit) = ingester.start();
    let mut out = Vec::new();
    loop {
        match pump.next_step() {
            Step::Item(item) => out.push(Ok(item)),
            Step::Done => return out,
            Step::Send(req) => {
                rate_limit.backend().wait();
                let outcome = client.backend().execute(req);
                if let Some(err) = pump.on_response(outcome) {
                    out.push(Err(err));
                }
            }
        }
    }
}

/// Drive an ingestion to its end and collect all the items, or the error.
fn collect<E: Endpoint, C: SyncClient, B: Gate>(
    ingester: Ingester<E, C, B>,
) -> Result<Vec<E::Item>, Error> {
    into_results(ingester).into_iter().collect()
}

fn response(url: &str, body: &'static str) -> Response {
    Response::new(
        StatusCode::OK,
        HeaderMap::new(),
        url.parse().unwrap(),
        Bytes::from(body),
    )
}

/// Serves pages of `{"items": [...], "next": "<cursor>" | null}`; the next
/// request's URL embeds the cursor from the previous response.
struct CursorEndpoint {
    base: Url,
}

impl CursorEndpoint {
    fn new() -> Self {
        Self {
            base: "http://example.com/items".parse().unwrap(),
        }
    }
}

impl Endpoint for CursorEndpoint {
    type Item = u64;

    fn next_request(&mut self, last: Option<&Response>) -> Option<Request> {
        let mut url = self.base.clone();
        match last {
            None => {}
            Some(resp) => {
                let body: serde_json::Value = resp.json().ok()?;
                let next = body["next"].as_str()?;
                url.query_pairs_mut().append_pair("cursor", next);
            }
        }
        Some(Request::get(url))
    }

    fn parse(&self, response: &Response) -> Result<Vec<u64>, Error> {
        let body: serde_json::Value = response.json()?;
        Ok(body["items"]
            .as_array()
            .into_iter()
            .flatten()
            .filter_map(|v| v.as_u64())
            .collect())
    }
}

#[test]
fn cursor_pagination_flows_through_responses() {
    let client = MockClient::new(vec![
        response("http://example.com/items", r#"{"items": [1, 2], "next": "tok-a"}"#),
        response("http://example.com/items?cursor=tok-a", r#"{"items": [3], "next": null}"#),
    ]);
    let rate_limit = CountingRateLimit::default();

    let items = collect(Ingester::new(CursorEndpoint::new(), client.clone(), rate_limit.clone())).unwrap();

    assert_eq!(items, vec![1, 2, 3]);
    assert_eq!(
        client.requested_urls(),
        vec![
            Url::parse("http://example.com/items").unwrap(),
            Url::parse("http://example.com/items?cursor=tok-a").unwrap(),
        ],
        "second request carries the cursor from the first response"
    );
    assert_eq!(rate_limit.count(), 2, "one wait per request");
}

#[test]
fn endpoint_returning_none_immediately_yields_empty_stream() {
    struct Empty;

    impl Endpoint for Empty {
        type Item = u64;
        fn next_request(&mut self, _last: Option<&Response>) -> Option<Request> {
            None
        }
        fn parse(&self, _response: &Response) -> Result<Vec<u64>, Error> {
            unreachable!()
        }
    }

    let client = MockClient::new(vec![]);
    let items = collect(Ingester::new(Empty, client.clone(), NoRateLimit)).unwrap();

    assert!(items.is_empty());
    assert!(client.requested_urls().is_empty(), "no requests were made");
}

#[test]
fn parse_error_yields_one_err_then_ends_stream() {
    struct AlwaysFails;

    impl Endpoint for AlwaysFails {
        type Item = u64;
        fn next_request(&mut self, last: Option<&Response>) -> Option<Request> {
            // Keep making requests; parse will fail on the first response.
            if last.is_none() {
                Some(Request::get("http://example.com/items".parse().unwrap()))
            } else {
                None
            }
        }
        fn parse(&self, _response: &Response) -> Result<Vec<u64>, Error> {
            Err(Error::parse(std::io::Error::other("boom")))
        }
    }

    let client = MockClient::new(vec![response("http://example.com/items", r#"{"items": [1]}"#)]);

    let results = into_results(Ingester::new(AlwaysFails, client, NoRateLimit));

    assert_eq!(results.len(), 1, "one Err item, then the stream ends");
    assert!(results[0].is_err());
}

#[test]
fn rate_limit_is_awaited_before_every_request() {
    let client = MockClient::new(vec![
        response("http://example.com/items", r#"{"items": [1], "next": "a"}"#),
        response("http://example.com/items?cursor=a", r#"{"items": [2], "next": "b"}"#),
        response("http://example.com/items?cursor=b", r#"{"items": [3], "next": null}"#),
    ]);
    let rate_limit = CountingRateLimit::default();

    let items = collect(Ingester::new(CursorEndpoint::new(), client.clone(), rate_limit.clone())).unwrap();

    assert_eq!(items, vec![1, 2, 3]);
    assert_eq!(rate_limit.count(), 3);
}

#[test]
fn response_text_and_json_helpers() {
    let resp = Response::new(
        StatusCode::OK,
        HeaderMap::new(),
        "http://example.com".parse().unwrap(),
        Bytes::from(r#"{"a": 1}"#),
    );
    assert_eq!(resp.text().unwrap(), r#"{"a": 1}"#);
    let value: serde_json::Value = resp.json().unwrap();
    assert_eq!(value["a"], 1);
}
