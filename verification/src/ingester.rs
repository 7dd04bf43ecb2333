use vstd::prelude::*;

use crate::client::HttpClient;
use crate::endpoint::Endpoint;
use crate::pump::{Pump, PumpView};
use crate::rate_limit::RateLimit;

verus! {

/// Operates an endpoint: sends its requests through an `HttpClient`, obeys
/// a `RateLimit`, and parses the responses into items.
///
/// `C` is the client's backend and `B` the rate limit's backend. The
/// constructors accept the backends directly and put them in an
/// `HttpClient` / a `RateLimit`.
pub struct Ingester<E, C, B> {
    endpoint: E,
    client: HttpClient<C>,
    rate_limit: RateLimit<B>,
}

/// The constructors accept a backend, or an `HttpClient` / `RateLimit` as
/// it is: a backend converts, by its `Into`, to the value that holds it; an
/// `HttpClient` or a `RateLimit` stays as it is. So giving a backend and
/// giving the value that holds it make the same ingester.
pub proof fn lemma_clients_and_limits_converted<C, B>(
    client: C,
    rate_limit: B,
    held_client: HttpClient<C>,
    held_limit: RateLimit<B>,
    c1: HttpClient<C>,
    c2: HttpClient<C>,
    r1: RateLimit<B>,
    r2: RateLimit<B>,
)
    ensures
        call_ensures(<C as Into<HttpClient<C>>>::into, (client,), c1) ==> {
            &&& c1 == HttpClient::<C>::holding(client)
            &&& c1.backend_spec() == client
        },
        call_ensures(<HttpClient<C> as Into<HttpClient<C>>>::into, (held_client,), c2) ==> c2 == held_client,
        call_ensures(<C as Into<HttpClient<C>>>::into, (client,), c1)
            && call_ensures(<HttpClient<C> as Into<HttpClient<C>>>::into, (HttpClient::<C>::holding(client),), c2)
            ==> c1 == c2,
        call_ensures(<B as Into<RateLimit<B>>>::into, (rate_limit,), r1) ==> {
            &&& r1 == RateLimit::<B>::holding(rate_limit)
            &&& r1.backend_spec() == rate_limit
        },
        call_ensures(<RateLimit<B> as Into<RateLimit<B>>>::into, (held_limit,), r2) ==> r2 == held_limit,
        call_ensures(<B as Into<RateLimit<B>>>::into, (rate_limit,), r1)
            && call_ensures(<RateLimit<B> as Into<RateLimit<B>>>::into, (RateLimit::<B>::holding(rate_limit),), r2)
            ==> r1 == r2,
{
    HttpClient::<C>::lemma_holding(client);
    RateLimit::<B>::lemma_holding(rate_limit);
}

impl<E: Endpoint, C, B> Ingester<E, C, B> {
    /// The endpoint that this ingester operates.
    pub closed spec fn endpoint_spec(&self) -> E {
        self.endpoint
    }

    /// The client that executes the requests.
    pub closed spec fn client_spec(&self) -> HttpClient<C> {
        self.client
    }

    /// The rate limit that gates the requests.
    pub closed spec fn rate_limit_spec(&self) -> RateLimit<B> {
        self.rate_limit
    }

    /// Make an `Ingester` for `endpoint` with the given client and rate
    /// limit. Each of the two accepts a backend, or an `HttpClient` /
    /// `RateLimit` that holds one; it is converted by its `Into`.
    pub fn new<CI: Into<HttpClient<C>>, RI: Into<RateLimit<B>>>(
        endpoint: E,
        client: CI,
        rate_limit: RI,
    ) -> (r: Self)
        ensures
            r.endpoint_spec() == endpoint,
            call_ensures(CI::into, (client,), r.client_spec()),
            call_ensures(RI::into, (rate_limit,), r.rate_limit_spec()),
    {
        Ingester { endpoint, client: client.into(), rate_limit: rate_limit.into() }
    }

    /// Replace the HTTP client with a different backend (or `HttpClient`).
    /// The endpoint and the rate limit stay.
    pub fn with_client<C2, CI: Into<HttpClient<C2>>>(self, client: CI) -> (r: Ingester<E, C2, B>)
        ensures
            r.endpoint_spec() == self.endpoint_spec(),
            r.rate_limit_spec() == self.rate_limit_spec(),
            call_ensures(CI::into, (client,), r.client_spec()),
    {
        Ingester { endpoint: self.endpoint, client: client.into(), rate_limit: self.rate_limit }
    }

    /// Replace the rate limit with a different backend (or `RateLimit`).
    /// The endpoint and the client stay.
    pub fn with_rate_limit<B2, RI: Into<RateLimit<B2>>>(self, rate_limit: RI) -> (r: Ingester<E, C, B2>)
        ensures
            r.endpoint_spec() == self.endpoint_spec(),
            r.client_spec() == self.client_spec(),
            call_ensures(RI::into, (rate_limit,), r.rate_limit_spec()),
    {
        Ingester { endpoint: self.endpoint, client: self.client, rate_limit: rate_limit.into() }
    }

    /// Start the ingestion: the decisions for the endpoint, with the client
    /// and the rate limit that the driver uses to carry them out.
    pub fn start(self) -> (parts: (Pump<E>, HttpClient<C>, RateLimit<B>))
        ensures
            parts.0@ == PumpView::<E::Item>::start(),
            parts.0.endpoint_spec() == self.endpoint_spec(),
            parts.1 == self.client_spec(),
            parts.2 == self.rate_limit_spec(),
    {
        (Pump::new(self.endpoint), self.client, self.rate_limit)
    }
}

} // verus!
