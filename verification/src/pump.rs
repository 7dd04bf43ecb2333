use vstd::prelude::*;
use std::collections::VecDeque;

use crate::endpoint::{batch_view, Endpoint};
use crate::error::Error;
use crate::request::Request;
use crate::response::Response;

verus! {

/// Where an ingestion stands between two steps.
#[derive(Debug, Clone, Copy, PartialEq, Eq, Structural)]
pub enum Phase {
    /// The next step may give an item or ask the endpoint for a request.
    Ready,
    /// A request was handed out; its outcome is awaited.
    Awaiting,
    /// The ingestion is over: the endpoint stopped, or an error occurred.
    Finished,
}

/// What the driver of an ingestion must do next.
#[derive(Debug)]
pub enum Step<T> {
    /// Give this item to the consumer.
    Item(T),
    /// Wait for the rate limit, execute this request, and hand its outcome
    /// to `Pump::on_response`.
    Send(Request),
    /// The ingestion is over.
    Done,
}

/// The state of an ingestion, as its contracts speak of it.
pub struct PumpView<T> {
    /// The last response that was parsed, which the endpoint sees when it
    /// makes its next request.
    pub last: Option<Response>,
    /// The parsed items that were not given out yet, oldest first.
    pub pending: Seq<T>,
    pub phase: Phase,
    /// Every item given out so far, in order.
    pub emitted: Seq<T>,
    /// Every item that the endpoint parsed so far, in order.
    pub parsed: Seq<T>,
}


impl<T> PumpView<T> {
    /// The state of an ingestion that has not started.
    pub open spec fn start() -> Self {
        PumpView {
            last: None,
            pending: Seq::empty(),
            phase: Phase::Ready,
            emitted: Seq::empty(),
            parsed: Seq::empty(),
        }
    }

    /// Items are pending only while the ingestion is ready to give them,
    /// and the items given out, followed by those pending, are exactly the
    /// items parsed.
    pub open spec fn wf(self) -> bool {
        &&& self.pending.len() > 0 ==> self.phase is Ready
        &&& self.emitted + self.pending == self.parsed
    }

    /// A step that needs no request: give the oldest pending item, or, once
    /// the ingestion is over, give `Done` and stay as it is.
    pub open spec fn take(self) -> (Self, Step<T>) {
        if self.pending.len() > 0 {
            (
                PumpView {
                    pending: self.pending.drop_first(),
                    emitted: self.emitted.push(self.pending[0]),
                    ..self
                },
                Step::Item(self.pending[0]),
            )
        } else {
            (self, Step::Done)
        }
    }

    /// A step that asked the endpoint: hand its request out, or end the
    /// ingestion where it gave none.
    pub open spec fn accept_request(self, request: Option<Request>) -> (Self, Step<T>) {
        match request {
            Some(r) => (PumpView { phase: Phase::Awaiting, ..self }, Step::Send(r)),
            None => (PumpView { phase: Phase::Finished, ..self }, Step::Done),
        }
    }

    /// The request failed: the ingestion ends with that error.
    pub open spec fn fail(self, e: Error) -> (Self, Option<Error>) {
        (PumpView { phase: Phase::Finished, ..self }, Some(e))
    }

    /// The response was parsed: its items become pending and it becomes the
    /// last response; or the parse failed and the ingestion ends with that
    /// error.
    pub open spec fn accept_batch(self, response: Response, parsed: Result<Seq<T>, Error>) -> (
        Self,
        Option<Error>,
    ) {
        match parsed {
            Ok(items) => (
                PumpView {
                    last: Some(response),
                    pending: items,
                    phase: Phase::Ready,
                    parsed: self.parsed + items,
                    ..self
                },
                None,
            ),
            Err(e) => self.fail(e),
        }
    }

    /// The state after `k` steps that need no request, with the items they gave.
    pub open spec fn drain(self, k: nat) -> (Self, Seq<T>)
        decreases k,
    {
        if k == 0 {
            (self, Seq::empty())
        } else {
            let (next, step) = self.take();
            let (end, items) = next.drain((k - 1) as nat);
            match step {
                Step::Item(x) => (end, seq![x] + items),
                _ => (end, items),
            }
        }
    }
}

/// An error ends the ingestion: whether the request failed or the parse of
/// its response did, the error is given back once, and from then on each
/// step gives `Done` and leaves the ingestion as it is.
pub proof fn lemma_error_ends_ingestion<T>(v: PumpView<T>, response: Response, e: Error)
    requires
        v.wf(),
        v.phase is Awaiting,
    ensures
        v.accept_batch(response, Err(e)) == v.fail(e),
        v.fail(e).1 == Some(e),
        v.fail(e).0.phase is Finished,
        v.fail(e).0.last == v.last,
        v.fail(e).0.pending.len() == 0,
        v.fail(e).0.emitted == v.emitted,
        v.fail(e).0.emitted == v.fail(e).0.parsed,
        v.fail(e).0.wf(),
        v.fail(e).0.take() == (v.fail(e).0, Step::<T>::Done),
{
}

/// Steps that need no request give the pending items one by one, oldest
/// first, and change nothing else.
pub proof fn lemma_drain_gives_pending_in_order<T>(v: PumpView<T>, k: nat)
    requires
        v.wf(),
        k <= v.pending.len(),
    ensures
        v.drain(k).1 == v.pending.take(k as int),
        v.drain(k).0 == (PumpView {
            pending: v.pending.skip(k as int),
            emitted: v.emitted + v.pending.take(k as int),
            ..v
        }),
        v.drain(k).0.wf(),
    decreases k,
{
    if k > 0 {
        let next = v.take().0;
        assert(next.wf()) by {
            assert(v.pending =~= seq![v.pending[0]] + v.pending.drop_first());
            assert(next.emitted + next.pending =~= v.emitted + v.pending);
        }
        lemma_drain_gives_pending_in_order(next, (k - 1) as nat);
        assert(seq![v.pending[0]] + next.pending.take(k - 1) =~= v.pending.take(k as int));
        assert(next.pending.skip(k - 1) =~= v.pending.skip(k as int));
        assert(next.emitted + next.pending.take(k - 1) =~= v.emitted + v.pending.take(k as int));
    } else {
        assert(v.pending.take(0) =~= Seq::<T>::empty());
        assert(v.pending.skip(0) =~= v.pending);
        assert(v.emitted + Seq::<T>::empty() =~= v.emitted);
    }
}

/// The items parsed from a response are given out exactly, in the order
/// that the parse gave them, before the endpoint is asked for another
/// request; when they are all out, the ingestion is ready to ask it, and the
/// endpoint then sees that response as the last one.
pub proof fn lemma_batch_given_in_order<T>(v: PumpView<T>, response: Response, items: Seq<T>, k: nat)
    requires
        v.wf(),
        v.phase is Awaiting,
        k <= items.len(),
    ensures
        ({
            let w = v.accept_batch(response, Ok(items)).0;
            let (u, given) = w.drain(k);
            &&& given == items.take(k as int)
            &&& u.pending == items.skip(k as int)
            &&& u.emitted == v.emitted + items.take(k as int)
            &&& u.parsed == v.parsed + items
            &&& u.last == Some(response)
            &&& u.phase is Ready
            &&& u.wf()
        }),
        v.accept_batch(response, Ok(items)).0.drain(items.len()).0.pending.len() == 0,
{
    let w = v.accept_batch(response, Ok(items)).0;
    assert(v.pending =~= Seq::<T>::empty());
    assert(v.emitted =~= v.emitted + v.pending);
    assert(w.wf());
    lemma_drain_gives_pending_in_order(w, k);
    lemma_drain_gives_pending_in_order(w, items.len());
}

/// Nothing is lost: whenever the ingestion says `Done`, every item that the
/// endpoint parsed has been given out, in order.
pub proof fn lemma_done_gives_everything<T>(v: PumpView<T>, request: Option<Request>)
    requires
        v.wf(),
    ensures
        v.take().1 is Done ==> v.take().0.emitted == v.take().0.parsed,
        v.pending.len() == 0 && v.accept_request(request).1 is Done
            ==> v.accept_request(request).0.emitted == v.accept_request(request).0.parsed,
{
    if v.pending.len() == 0 {
        assert(v.emitted + v.pending =~= v.emitted);
    }
}

/// One page of an ingestion: the request that the endpoint made, the
/// response to it, and the items that the endpoint parsed from it.
pub struct Page<T> {
    pub request: Request,
    pub response: Response,
    pub items: Seq<T>,
}

impl<T> PumpView<T> {
    /// The ingestion after one page: the request is handed out, its response
    /// parsed into the page's items, and the items given out.
    pub open spec fn after_page(self, page: Page<T>) -> (Self, Seq<T>) {
        let asked = self.accept_request(Some(page.request)).0;
        let parsed = asked.accept_batch(page.response, Ok(page.items)).0;
        parsed.drain(page.items.len())
    }

    /// The ingestion after the pages, one after the other, with every item
    /// given out on the way.
    pub open spec fn after_pages(self, pages: Seq<Page<T>>) -> (Self, Seq<T>)
        decreases pages.len(),
    {
        if pages.len() == 0 {
            (self, Seq::empty())
        } else {
            let (next, given) = self.after_page(pages[0]);
            let (end, rest) = next.after_pages(pages.drop_first());
            (end, given + rest)
        }
    }
}

/// The items of the pages, page after page.
pub open spec fn page_items<T>(pages: Seq<Page<T>>) -> Seq<T>
    decreases pages.len(),
{
    if pages.len() == 0 {
        Seq::empty()
    } else {
        pages[0].items + page_items(pages.drop_first())
    }
}

/// Over any number of pages, the ingestion gives exactly the items of the
/// pages, in order, none dropped, repeated or reordered; after the pages it
/// is ready to ask the endpoint again, with the last page's response.
pub proof fn lemma_pages_give_their_items<T>(v: PumpView<T>, pages: Seq<Page<T>>)
    requires
        v.wf(),
        v.phase is Ready,
        v.pending.len() == 0,
    ensures
        ({
            let (end, given) = v.after_pages(pages);
            &&& given == page_items(pages)
            &&& end.wf()
            &&& end.phase is Ready
            &&& end.pending.len() == 0
            &&& end.emitted == v.emitted + page_items(pages)
            &&& end.parsed == v.parsed + page_items(pages)
            &&& end.last == (if pages.len() == 0 { v.last } else { Some(pages.last().response) })
        }),
    decreases pages.len(),
{
    if pages.len() > 0 {
        let page = pages[0];
        let asked = v.accept_request(Some(page.request)).0;
        lemma_batch_given_in_order(asked, page.response, page.items, page.items.len());
        assert(page.items.take(page.items.len() as int) =~= page.items);
        assert(page.items.skip(page.items.len() as int) =~= Seq::<T>::empty());
        let (next, given) = v.after_page(page);
        lemma_pages_give_their_items(next, pages.drop_first());
        assert(v.emitted + page.items + page_items(pages.drop_first()) =~= v.emitted + page_items(pages));
        assert(v.parsed + page.items + page_items(pages.drop_first()) =~= v.parsed + page_items(pages));
        if pages.len() > 1 {
            assert(pages.drop_first().last() == pages.last());
        }
    } else {
        assert(v.emitted + Seq::<T>::empty() =~= v.emitted);
        assert(v.parsed + Seq::<T>::empty() =~= v.parsed);
    }
}

/// A whole ingestion: from the start, over pages, until the endpoint makes
/// no more requests, it gives exactly the pages' items in order and then
/// `Done`; or, where a request fails or a response fails to parse after
/// those pages, it gives the pages' items, then that error once, and then
/// only `Done`.
pub proof fn lemma_ingestion_gives_pages_then_ends<T>(pages: Seq<Page<T>>, request: Request, response: Response, e: Error)
    ensures
        ({
            let (end, given) = PumpView::<T>::start().after_pages(pages);
            let (stopped, last_step) = end.accept_request(None);
            let asked = end.accept_request(Some(request)).0;
            let (failed, failure) = asked.fail(e);
            &&& given == page_items(pages)
            &&& last_step is Done
            &&& stopped.emitted == page_items(pages)
            &&& stopped.take() == (stopped, Step::<T>::Done)
            &&& asked.accept_batch(response, Err(e)) == (failed, failure)
            &&& failure == Some(e)
            &&& failed.emitted == page_items(pages)
            &&& failed.take() == (failed, Step::<T>::Done)
        }),
{
    let v = PumpView::<T>::start();
    assert(v.emitted + v.pending =~= v.parsed);
    lemma_pages_give_their_items(v, pages);
    assert(Seq::<T>::empty() + page_items(pages) =~= page_items(pages));
}

impl<T> PumpView<T> {
    /// The last response that the ingestion holds each time it asks the
    /// endpoint for a request over the pages: before each page, and once
    /// more after the last one.
    pub open spec fn lasts_seen(self, pages: Seq<Page<T>>) -> Seq<Option<Response>>
        decreases pages.len(),
    {
        if pages.len() == 0 {
            seq![self.last]
        } else {
            seq![self.last] + self.after_page(pages[0]).0.lasts_seen(pages.drop_first())
        }
    }

    /// The steps that hand the pages' requests out, one per page.
    pub open spec fn sends(self, pages: Seq<Page<T>>) -> Seq<Step<T>>
        decreases pages.len(),
    {
        if pages.len() == 0 {
            Seq::empty()
        } else {
            seq![self.accept_request(Some(pages[0].request)).1] + self.after_page(pages[0]).0.sends(
                pages.drop_first(),
            )
        }
    }
}

/// Over any pages, the endpoint is asked each time with the response to the
/// request just before (with the ingestion's own last response the first
/// time, which is `None` at the start), and each request it makes is handed
/// out once, unchanged, in the order it made them.
pub proof fn lemma_endpoint_sees_previous_response<T>(v: PumpView<T>, pages: Seq<Page<T>>)
    requires
        v.wf(),
        v.phase is Ready,
        v.pending.len() == 0,
    ensures
        v.lasts_seen(pages).len() == pages.len() + 1,
        v.lasts_seen(pages)[0] == v.last,
        forall|k: int|
            1 <= k <= pages.len() ==> #[trigger] v.lasts_seen(pages)[k] == Some(pages[k - 1].response),
        v.sends(pages).len() == pages.len(),
        forall|k: int| 0 <= k < pages.len() ==> #[trigger] v.sends(pages)[k] == Step::<T>::Send(pages[k].request),
    decreases pages.len(),
{
    if pages.len() > 0 {
        let page = pages[0];
        let next = v.after_page(page).0;
        let asked = v.accept_request(Some(page.request)).0;
        lemma_batch_given_in_order(asked, page.response, page.items, page.items.len());
        lemma_endpoint_sees_previous_response(next, pages.drop_first());
        assert forall|k: int| 1 <= k <= pages.len() implies #[trigger] v.lasts_seen(pages)[k] == Some(
            pages[k - 1].response,
        ) by {
            if k > 1 {
                assert(v.lasts_seen(pages)[k] == next.lasts_seen(pages.drop_first())[k - 1]);
            }
        }
        assert forall|k: int| 0 <= k < pages.len() implies #[trigger] v.sends(pages)[k] == Step::<T>::Send(
            pages[k].request,
        ) by {
            if k > 0 {
                assert(v.sends(pages)[k] == next.sends(pages.drop_first())[k - 1]);
            }
        }
    }
}

/// While items are pending, a step gives the oldest of them: no request is
/// made before every item of the last page has been given out.
pub proof fn lemma_items_before_requests<T>(v: PumpView<T>)
    requires
        v.wf(),
        v.pending.len() > 0,
    ensures
        v.take().1 == Step::<T>::Item(v.pending[0]),
        v.take().0.phase == v.phase,
        v.take().0.last == v.last,
{
}

/// When the endpoint answers a request for the next request with `None`,
/// the ingestion stops for good: it gives `Done`, is finished, keeps its
/// last response, has given out every item parsed, and from then on every
/// step gives `Done` and leaves it exactly as it is, without asking the
/// endpoint again.
pub proof fn lemma_stop_is_for_good<T>(v: PumpView<T>, k: nat)
    requires
        v.wf(),
        v.phase is Ready,
        v.pending.len() == 0,
    ensures
        ({
            let (w, s) = v.accept_request(None);
            &&& s is Done
            &&& w.phase is Finished
            &&& w.last == v.last
            &&& w.pending.len() == 0
            &&& w.emitted == v.emitted
            &&& w.emitted == w.parsed
            &&& w.take() == (w, Step::<T>::Done)
            &&& w.drain(k) == (w, Seq::<T>::empty())
        }),
{
    let w = v.accept_request(None).0;
    assert(v.emitted + v.pending =~= v.emitted);
    lemma_finished_stays(w, k);
}

/// A finished ingestion with nothing pending gives nothing more: any number
/// of steps leaves it as it is.
pub proof fn lemma_finished_stays<T>(w: PumpView<T>, k: nat)
    requires
        w.phase is Finished,
        w.pending.len() == 0,
    ensures
        w.take() == (w, Step::<T>::Done),
        w.drain(k) == (w, Seq::<T>::empty()),
    decreases k,
{
    if k > 0 {
        lemma_finished_stays(w, (k - 1) as nat);
        assert(Seq::<T>::empty() =~= Seq::<T>::empty());
    }
}

/// What an ingestion holds besides its endpoint: the last response, the
/// pending items, where it stands, and (as ghost state) every item parsed.
struct Queue<T> {
    last: Option<Response>,
    pending: VecDeque<T>,
    phase: Phase,
    parsed: Ghost<Seq<T>>,
}

impl<T> Queue<T> {
    /// The pending items are the last ones parsed, and items are pending
    /// only while the ingestion is ready to give them.
    #[verifier::type_invariant]
    spec fn pending_are_last_parsed(self) -> bool {
        &&& self.pending@.len() <= self.parsed@.len()
        &&& self.pending@ == self.parsed@.skip(self.parsed@.len() - self.pending@.len())
        &&& self.pending@.len() > 0 ==> self.phase is Ready
    }

    spec fn view_of(self) -> PumpView<T> {
        PumpView {
            last: self.last,
            pending: self.pending@,
            phase: self.phase,
            emitted: self.parsed@.take(self.parsed@.len() - self.pending@.len()),
            parsed: self.parsed@,
        }
    }
}

/// A queue that keeps its type invariant has a well-formed view.
proof fn lemma_queue_wf<T>(q: Queue<T>)
    requires
        q.pending_are_last_parsed(),
    ensures
        q.view_of().wf(),
{
    let k = q.parsed@.len() - q.pending@.len();
    assert(q.parsed@.take(k) + q.parsed@.skip(k) =~= q.parsed@);
}

/// The decisions of an ingestion: which item to give, when to ask the
/// endpoint for a request, and what a response or an error does. The
/// driver performs what each `Step` asks (waiting for the rate limit and
/// executing requests) and hands the outcome back.
pub struct Pump<E: Endpoint> {
    endpoint: E,
    queue: Queue<E::Item>,
}

impl<E: Endpoint> View for Pump<E> {
    type V = PumpView<E::Item>;

    closed spec fn view(&self) -> PumpView<E::Item> {
        self.queue.view_of()
    }
}

impl<E: Endpoint> Pump<E> {
    /// The endpoint that this ingestion operates.
    pub closed spec fn endpoint_spec(&self) -> E {
        self.endpoint
    }

    /// Where the ingestion stands: a driver calls `next_step` unless a
    /// request is awaited, and `on_response` only then.
    pub fn phase(&self) -> (p: Phase)
        ensures
            p == self@.phase,
    {
        self.queue.phase
    }

    /// The endpoint that this ingestion operates.
    pub fn endpoint(&self) -> (e: &E)
        ensures
            *e == self.endpoint_spec(),
    {
        &self.endpoint
    }

    /// Start the ingestion of `endpoint`.
    pub fn new(endpoint: E) -> (p: Self)
        ensures
            p@ == PumpView::<E::Item>::start(),
            p.endpoint_spec() == endpoint,
            p@.wf(),
    {
        let pending: VecDeque<E::Item> = VecDeque::new();
        proof {
            assert(Seq::<E::Item>::empty().skip(0) =~= pending@);
        }
        let queue = Queue { last: None, pending, phase: Phase::Ready, parsed: Ghost(Seq::empty()) };
        proof {
            assert(queue.view_of().emitted =~= Seq::<E::Item>::empty());
        }
        Pump { endpoint, queue }
    }

    /// Decide the next step. With items pending, give the oldest; once the
    /// ingestion is over, give `Done`; else ask the endpoint for the next
    /// request, with the last response, and go on as `accept_request` says.
    pub fn next_step(&mut self) -> (s: Step<E::Item>)
        requires
            !(old(self)@.phase is Awaiting),
        ensures
            final(self)@.wf(),
            final(self)@.last == old(self)@.last,
            s is Done ==> final(self)@.phase is Finished && final(self)@.pending.len() == 0,
            old(self)@.phase is Finished ==> s is Done && final(self)@ == old(self)@,
            old(self)@.pending.len() > 0 || old(self)@.phase is Finished ==> {
                &&& (final(self)@, s) == old(self)@.take()
                &&& final(self).endpoint_spec() == old(self).endpoint_spec()
            },
            old(self)@.pending.len() == 0 && old(self)@.phase is Ready ==> exists|r: Option<Request>|
                {
                    &&& old(self).endpoint_spec().requests(old(self)@.last, final(self).endpoint_spec(), r)
                    &&& (final(self)@, s) == #[trigger] old(self)@.accept_request(r)
                },
    {
        proof {
            use_type_invariant(&self.queue);
        }
        if self.queue.pending.len() > 0 {
            let mut pending: VecDeque<E::Item> = VecDeque::new();
            proof {
                let p = self.queue.parsed@;
                assert(p.skip(p.len() - 0) =~= Seq::<E::Item>::empty());
            }
            core::mem::swap(&mut pending, &mut self.queue.pending);
            let item = pending.pop_front();
            proof {
                let p = self.queue.parsed@;
                let n = old(self)@.pending.len();
                assert(pending@ =~= old(self)@.pending.drop_first());
                assert(old(self)@.pending[0] == p[p.len() - n]);
                assert(pending@ =~= p.skip(p.len() - (n - 1)));
            }
            self.queue.pending = pending;
            proof {
                let p = self.queue.parsed@;
                let n = old(self)@.pending.len();
                assert(p.take(p.len() - n).push(p[p.len() - n]) =~= p.take(p.len() - (n - 1)));
                lemma_queue_wf(self.queue);
            }
            match item {
                Some(x) => Step::Item(x),
                None => {
                    proof {
                        assert(false);
                    }
                    Step::Done
                },
            }
        } else {
            match self.queue.phase {
                Phase::Finished => {
                    proof {
                        lemma_queue_wf(self.queue);
                    }
                    Step::Done
                },
                _ => {
                    let request = self.endpoint.next_request(self.queue.last.as_ref());
                    self.accept_request(request)
                },
            }
        }
    }

    /// Take the endpoint's answer to a request for the next request: hand
    /// the request out, or end the ingestion where there is none.
    pub fn accept_request(&mut self, request: Option<Request>) -> (s: Step<E::Item>)
        requires
            old(self)@.phase is Ready,
            old(self)@.pending.len() == 0,
        ensures
            final(self)@.wf(),
            (final(self)@, s) == old(self)@.accept_request(request),
            final(self).endpoint_spec() == old(self).endpoint_spec(),
            final(self)@.last == old(self)@.last,
            request is None ==> s is Done && final(self)@.phase is Finished,
            request matches Some(r) ==> s == Step::<E::Item>::Send(r) && final(self)@.phase is Awaiting,
    {
        proof {
            use_type_invariant(&self.queue);
        }
        let s = match request {
            Some(r) => {
                self.queue.phase = Phase::Awaiting;
                Step::Send(r)
            },
            None => {
                self.queue.phase = Phase::Finished;
                Step::Done
            },
        };
        proof {
            lemma_queue_wf(self.queue);
        }
        s
    }

    /// Take the outcome of the request that was handed out. An error ends
    /// the ingestion and is given back; a response goes to the endpoint's
    /// parse, and on as `accept_batch` says.
    pub fn on_response(&mut self, outcome: Result<Response, Error>) -> (failure: Option<Error>)
        requires
            old(self)@.phase is Awaiting,
        ensures
            final(self)@.wf(),
            final(self).endpoint_spec() == old(self).endpoint_spec(),
            failure is Some ==> final(self)@.phase is Finished && final(self)@.last == old(self)@.last,
            failure is None ==> final(self)@.phase is Ready,
            outcome matches Ok(resp) ==> (failure is None ==> final(self)@.last == Some(resp)),
            outcome matches Err(e) ==> failure == Some(e),
            outcome matches Err(e) ==> (final(self)@, failure) == old(self)@.fail(e),
            outcome matches Ok(resp) ==> exists|parsed: Result<Seq<E::Item>, Error>|
                {
                    &&& old(self).endpoint_spec().parses(resp, parsed)
                    &&& (final(self)@, failure) == #[trigger] old(self)@.accept_batch(resp, parsed)
                },
    {
        proof {
            use_type_invariant(&self.queue);
        }
        match outcome {
            Err(e) => {
                self.queue.phase = Phase::Finished;
                proof {
                    lemma_queue_wf(self.queue);
                }
                Some(e)
            },
            Ok(response) => {
                let parsed = self.endpoint.parse(&response);
                self.accept_batch(response, parsed)
            },
        }
    }

    /// Take the parse of the response to the request that was handed out:
    /// its items become pending, in order, and the response becomes the last
    /// one; or the parse error ends the ingestion and is given back.
    pub fn accept_batch(&mut self, response: Response, parsed: Result<Vec<E::Item>, Error>) -> (failure: Option<Error>)
        requires
            old(self)@.phase is Awaiting,
        ensures
            final(self)@.wf(),
            (final(self)@, failure) == old(self)@.accept_batch(response, batch_view(parsed)),
            parsed matches Ok(items) ==> failure is None && final(self)@.phase is Ready
                && final(self)@.pending == items@ && final(self)@.last == Some(response),
            parsed matches Err(e) ==> failure == Some(e) && final(self)@.phase is Finished
                && final(self)@.last == old(self)@.last,
            final(self).endpoint_spec() == old(self).endpoint_spec(),
    {
        proof {
            use_type_invariant(&self.queue);
        }
        match parsed {
            Ok(items) => {
                let ghost batch = items@;
                let mut queue: VecDeque<E::Item> = VecDeque::new();
                for x in it: items
                    invariant
                        queue@ == it.seq().take(it.index() as int),
                        it.seq() == batch,
                {
                    queue.push_back(x);
                }
                let ghost before = self.queue.parsed@;
                proof {
                    assert(queue@ =~= batch);
                    assert(old(self)@.pending =~= Seq::<E::Item>::empty());
                    assert((before + batch).skip((before + batch).len() - 0) =~= Seq::<E::Item>::empty());
                }
                self.queue.parsed = Ghost(before + batch);
                self.queue.phase = Phase::Ready;
                proof {
                    let p = before + batch;
                    assert(p.skip(p.len() - batch.len()) =~= batch);
                    assert(p.take(p.len() - batch.len()) =~= before);
                    assert(before.take(before.len() - 0) =~= before);
                }
                self.queue.pending = queue;
                self.queue.last = Some(response);
                proof {
                    lemma_queue_wf(self.queue);
                }
                None
            },
            Err(e) => {
                self.queue.phase = Phase::Finished;
                proof {
                    lemma_queue_wf(self.queue);
                }
                Some(e)
            },
        }
    }
}

} // verus!
