use vstd::prelude::*;

verus! {

/// `From::from` of a value into its own type (core's reflexive impl):
/// the value itself.
pub assume_specification<V>[ <V as core::convert::From<V>>::from ](v: V) -> (r: V)
    ensures
        r == v,
;

/// The HTTP client of an `Ingester`. The type parameter is its backend,
/// which executes each request and returns its response.
#[derive(Debug, Clone, Default)]
pub struct HttpClient<B> {
    backend: B,
}

impl<B> HttpClient<B> {
    /// The backend that this client holds.
    pub closed spec fn backend_spec(&self) -> B {
        self.backend
    }

    /// The value that holds `backend`.
    pub closed spec fn holding(backend: B) -> Self {
        HttpClient { backend }
    }

    /// The value that holds a backend holds that backend.
    pub proof fn lemma_holding(backend: B)
        ensures
            Self::holding(backend).backend_spec() == backend,
    {
    }

    /// Make an `HttpClient` that contains `backend`.
    pub fn new(backend: B) -> (c: Self)
        ensures
            c == Self::holding(backend),
            c.backend_spec() == backend,
    {
        HttpClient { backend }
    }

    /// The backend that executes the requests.
    pub fn backend(&self) -> (b: &B)
        ensures
            *b == self.backend_spec(),
    {
        &self.backend
    }
}

/// Makes an `HttpClient` from each backend. Thus, the `Ingester`
/// constructors accept backends directly.
impl<B> From<B> for HttpClient<B> {
    fn from(backend: B) -> (c: Self) {
        Self::new(backend)
    }
}

impl<B> vstd::std_specs::convert::FromSpecImpl<B> for HttpClient<B> {
    open spec fn obeys_from_spec() -> bool {
        true
    }

    open spec fn from_spec(backend: B) -> Self {
        Self::holding(backend)
    }
}

} // verus!
