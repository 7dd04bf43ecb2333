# ingester

Reads paginated APIs and makes a stream of parsed items. An `Endpoint`
says which request comes next (it sees the previous response, so cursor,
token and page-count pagination all work) and how each response parses
into items. The ingester sends each request through a replaceable HTTP
client, obeys a configurable rate limit, and gives out the items.

## Layout

- `src/` is the verified library.
  - `pump.rs` holds the decisions of an ingestion as a state machine
    (`Pump`): give the oldest parsed item, ask the endpoint for the next
    request with the last response, take a response or an error. Its
    well-formedness is a type invariant, so a driver need only respect
    the phase (which `phase()` reports). Its contracts are stated over
    `PumpView` and tie each step to the
    endpoint's own calls, through the `requests` and `parses` relations of
    `Endpoint`: the request handed out is the one `next_request` returned
    when given the last response, and the items (or the error) are the ones
    `parse` returned. The proof functions there show that over any pages
    the items come out exactly once and in parse order, that each request
    the endpoint makes is handed out once and unchanged, that the endpoint
    is asked each time with the response to the request before, that no
    request is made while parsed items are pending, that an error is
    reported once and ends the ingestion, and that nothing parsed is lost
    when it ends. The waits and the HTTP calls themselves are made by the
    driver in `app/`, which is not verified.
  - `ingester.rs`, `client.rs`, `rate_limit.rs`: the configuration
    (`Ingester`, `HttpClient`, `RateLimit`).
  - `request.rs`, `response.rs`, `error.rs`, `endpoint.rs`: the data
    types, with the calls into `http`, `bytes`, `serde_json` and std behind
    small trusted wrappers whose contracts say what those functions do
    (for headers: which name holds which value bytes).
- `app/` is the asynchronous side, which Verus does not see: the client and
  rate limiter backend traits, the `reqwest` and `governor` backends, the
  stream that carries out the steps of a `Pump`, `ingest()`, and an `Error`
  with `Display` and `std::error::Error`.
- `tests/` drives ingestions step by step with a mock client.
