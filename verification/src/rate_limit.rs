use vstd::prelude::*;

verus! {

/// The rate limit of an `Ingester`. The type parameter is its backend: an
/// async gate that the ingester awaits before each request.
///
/// `RateLimit<NoRateLimit>` (the default, also written plain `RateLimit`)
/// applies no limit.
#[derive(Debug, Clone, Default)]
pub struct RateLimit<B = NoRateLimit> {
    backend: B,
}

impl<B> RateLimit<B> {
    /// The backend that this rate limit holds.
    pub closed spec fn backend_spec(&self) -> B {
        self.backend
    }

    /// The value that holds `backend`.
    pub closed spec fn holding(backend: B) -> Self {
        RateLimit { backend }
    }

    /// The value that holds a backend holds that backend.
    pub proof fn lemma_holding(backend: B)
        ensures
            Self::holding(backend).backend_spec() == backend,
    {
    }

    /// Make a `RateLimit` that contains `backend`.
    pub fn new(backend: B) -> (r: Self)
        ensures
            r == Self::holding(backend),
            r.backend_spec() == backend,
    {
        RateLimit { backend }
    }

    /// The backend that gates the requests.
    pub fn backend(&self) -> (b: &B)
        ensures
            *b == self.backend_spec(),
    {
        &self.backend
    }
}

/// Makes a `RateLimit` from each backend. Thus, the `Ingester`
/// constructors accept backends directly.
impl<B> From<B> for RateLimit<B> {
    fn from(backend: B) -> (r: Self) {
        Self::new(backend)
    }
}

impl<B> vstd::std_specs::convert::FromSpecImpl<B> for RateLimit<B> {
    open spec fn obeys_from_spec() -> bool {
        true
    }

    open spec fn from_spec(backend: B) -> Self {
        Self::holding(backend)
    }
}

/// A backend with no rate limit: each request continues immediately.
#[derive(Debug, Default, Clone, Copy)]
pub struct NoRateLimit;

} // verus!
