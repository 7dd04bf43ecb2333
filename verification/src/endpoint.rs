use vstd::prelude::*;
use vstd::pervasive::arbitrary;

use crate::error::Error;
use crate::request::Request;
use crate::response::Response;

verus! {

/// Your description of the procedure that ingests one endpoint.
///
/// An `Endpoint` supplies the next request and the parse procedure for each
/// response. The ingester calls it in a loop:
///
/// 1. `next_request(last)`: return the next `Request`, or `None` to stop.
///    The `last` parameter holds the response to the previous request; on
///    the first call it is `None`. For cursor pagination, read the cursor
///    from the previous body and put it in the next URL. For a page counter,
///    keep the counter in `self` and ignore `last`.
/// 2. `parse(&response)`: parse the response into zero or more items.
///
/// The two spec functions name what an implementation does: the ingestion's
/// contracts say that the request it hands out, and the items it gives, are
/// the ones that these calls returned, for the arguments it passed.
pub trait Endpoint: Send + Sized {
    /// The type of the items that this endpoint makes.
    type Item: Send;

    /// Asked for the next request with `last`, this endpoint answers `out`
    /// and is then `after`. An implementation that does not define it gets a
    /// relation of which nothing is known beyond what its calls return.
    open spec fn requests(&self, last: Option<Response>, after: Self, out: Option<Request>) -> bool {
        arbitrary::<spec_fn(Self, Option<Response>, Self, Option<Request>) -> bool>()(
            *self,
            last,
            after,
            out,
        )
    }

    /// Parsing `response`, this endpoint gives `out`. An implementation that
    /// does not define it gets a relation of which nothing is known beyond
    /// what its calls return.
    open spec fn parses(&self, response: Response, out: Result<Seq<Self::Item>, Error>) -> bool {
        arbitrary::<spec_fn(Self, Response, Result<Seq<Self::Item>, Error>) -> bool>()(
            *self,
            response,
            out,
        )
    }

    /// Return the next request, or `None` to stop the ingestion.
    ///
    /// The `last` parameter holds the response to the previous request. On
    /// the first call, `last` is `None`.
    fn next_request(&mut self, last: Option<&Response>) -> (out: Option<Request>)
        ensures
            old(self).requests(owned(last), *final(self), out),
    ;

    /// Parse a response into zero or more items.
    fn parse(&self, response: &Response) -> (out: Result<Vec<Self::Item>, Error>)
        ensures
            self.parses(*response, batch_view(out)),
    ;
}

/// The response behind an optional reference.
pub open spec fn owned(last: Option<&Response>) -> Option<Response> {
    match last {
        Some(r) => Some(*r),
        None => None,
    }
}

/// A batch of parsed items as a sequence.
pub open spec fn batch_view<T>(parsed: Result<Vec<T>, Error>) -> Result<Seq<T>, Error> {
    match parsed {
        Ok(items) => Ok(items@),
        Err(e) => Err(e),
    }
}

} // verus!
