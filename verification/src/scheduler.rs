//! The record of what a call body has asked of the host.
//!
//! Every request is kept, in the order in which it was made. A request that
//! opens a batch or joins two handles is answered with a handle: the position
//! of that request in the record. The batch of a handle is read off the record:
//! the actions appended to it, in the order of their requests.

use vstd::prelude::*;
use crate::action::{action_views, AccountId, Action, ActionView};

verus! {

/// The number by which the host and the call body refer to a batch or a join.
pub type PromiseIndex = u64;

/// One request to the host.
#[derive(Debug, PartialEq, Eq)]
pub enum Request {
    /// Open an empty batch on an account.
    Open { account_id: AccountId },
    /// Open an empty batch on an account, to run once `after` has completed.
    Chain { after: PromiseIndex, account_id: AccountId },
    /// Make a node that completes once both `left` and `right` have.
    Join { left: PromiseIndex, right: PromiseIndex },
    /// Put an action at the end of the batch `promise`.
    Append { promise: PromiseIndex, action: Action },
}

/// What a [`Request`] is, as a mathematical value.
pub enum RequestView {
    Open { account_id: Seq<char> },
    Chain { after: PromiseIndex, account_id: Seq<char> },
    Join { left: PromiseIndex, right: PromiseIndex },
    Append { promise: PromiseIndex, action: ActionView },
}

impl View for Request {
    type V = RequestView;

    open spec fn view(&self) -> RequestView {
        match *self {
            Request::Open { account_id } => RequestView::Open { account_id: account_id@ },
            Request::Chain { after, account_id } => {
                RequestView::Chain { after, account_id: account_id@ }
            },
            Request::Join { left, right } => RequestView::Join { left, right },
            Request::Append { promise, action } => RequestView::Append { promise, action: action@ },
        }
    }
}

/// The record `requests`, each request as its mathematical value.
pub open spec fn request_views(requests: Seq<Request>) -> Seq<RequestView> {
    requests.map_values(|r: Request| r@)
}

/// `handle` was given out for a batch: the request at that place opened one.
pub open spec fn is_batch(log: Seq<RequestView>, handle: PromiseIndex) -> bool {
    handle < log.len() && (log[handle as int] is Open || log[handle as int] is Chain)
}

/// `handle` was given out for a join.
pub open spec fn is_joint(log: Seq<RequestView>, handle: PromiseIndex) -> bool {
    handle < log.len() && log[handle as int] is Join
}

/// `handle` was given out, for a batch or for a join.
pub open spec fn is_handle(log: Seq<RequestView>, handle: PromiseIndex) -> bool {
    is_batch(log, handle) || is_joint(log, handle)
}

/// The request at place `at` speaks only of handles given out before it, and
/// appends only to a batch.
pub open spec fn refers_back(log: Seq<RequestView>, at: int) -> bool {
    match log[at] {
        RequestView::Open { .. } => true,
        RequestView::Chain { after, .. } => after < at && is_handle(log, after),
        RequestView::Join { left, right } => {
            left < at && is_handle(log, left) && right < at && is_handle(log, right)
        },
        RequestView::Append { promise, .. } => promise < at && is_batch(log, promise),
    }
}

/// Every request of the record speaks only of handles given out before it.
pub open spec fn well_formed(log: Seq<RequestView>) -> bool {
    forall|at: int| 0 <= at < log.len() ==> #[trigger] refers_back(log, at)
}

/// The actions of the batch `handle`, in the order in which they were appended.
pub open spec fn batch_of(log: Seq<RequestView>, handle: PromiseIndex) -> Seq<ActionView>
    decreases log.len(),
{
    if log.len() == 0 {
        Seq::empty()
    } else {
        let earlier = batch_of(log.drop_last(), handle);
        match log.last() {
            RequestView::Append { promise, action } => if promise == handle {
                earlier.push(action)
            } else {
                earlier
            },
            _ => earlier,
        }
    }
}

/// What one more request does to a batch: an action appended to `handle` comes
/// last in it, and any other request leaves it as it was.
pub proof fn lemma_batch_of_push(log: Seq<RequestView>, request: RequestView, handle: PromiseIndex)
    ensures
        batch_of(log.push(request), handle) == match request {
            RequestView::Append { promise, action } => if promise == handle {
                batch_of(log, handle).push(action)
            } else {
                batch_of(log, handle)
            },
            _ => batch_of(log, handle),
        },
{
    assert(log.push(request).drop_last() =~= log);
    assert(log.push(request).last() == request);
}

/// `after` is `before` and one request more, which puts `action` at the end of
/// the batch `handle` and leaves every other batch as it was.
pub open spec fn appended(
    before: Seq<RequestView>,
    after: Seq<RequestView>,
    handle: PromiseIndex,
    action: ActionView,
) -> bool {
    &&& after == before.push(RequestView::Append { promise: handle, action })
    &&& batch_of(after, handle) == batch_of(before, handle).push(action)
    &&& forall|other: PromiseIndex|
        other != handle ==> #[trigger] batch_of(after, other) == batch_of(before, other)
}

/// In a well-formed record, a handle that was not given out yet has no actions.
pub proof fn lemma_batch_of_later_handle(log: Seq<RequestView>, handle: PromiseIndex)
    requires
        well_formed(log),
        handle >= log.len(),
    ensures
        batch_of(log, handle) == Seq::<ActionView>::empty(),
    decreases log.len(),
{
    if log.len() > 0 {
        let earlier = log.drop_last();
        assert forall|at: int| 0 <= at < earlier.len() implies #[trigger] refers_back(
            earlier,
            at,
        ) by {
            assert(refers_back(log, at));
        }
        lemma_batch_of_later_handle(earlier, handle);
        assert(refers_back(log, log.len() - 1));
    }
}

/// One more request that speaks only of handles given out keeps the record
/// well-formed.
pub proof fn lemma_well_formed_push(log: Seq<RequestView>, request: RequestView)
    requires
        well_formed(log),
        match request {
            RequestView::Open { .. } => true,
            RequestView::Chain { after, .. } => is_handle(log, after),
            RequestView::Join { left, right } => is_handle(log, left) && is_handle(log, right),
            RequestView::Append { promise, .. } => is_batch(log, promise),
        },
    ensures
        well_formed(log.push(request)),
{
    let longer = log.push(request);
    assert forall|at: int| 0 <= at < longer.len() implies #[trigger] refers_back(longer, at) by {
        if at < log.len() {
            assert(refers_back(log, at));
        }
    }
}

/// The record `log` followed by one request for each of `actions`, in their
/// order, each appending to the batch `handle`.
pub open spec fn with_actions(
    log: Seq<RequestView>,
    handle: PromiseIndex,
    actions: Seq<ActionView>,
) -> Seq<RequestView> {
    log + actions.map_values(|action: ActionView| RequestView::Append { promise: handle, action })
}

/// Appending any actions to a batch, one request each, puts exactly those
/// actions at its end, in the order of the requests, and leaves every other
/// batch as it was.
pub proof fn lemma_batch_of_with_actions(
    log: Seq<RequestView>,
    handle: PromiseIndex,
    actions: Seq<ActionView>,
)
    ensures
        batch_of(with_actions(log, handle, actions), handle) == batch_of(log, handle) + actions,
        forall|other: PromiseIndex|
            other != handle ==> #[trigger] batch_of(with_actions(log, handle, actions), other)
                == batch_of(log, other),
    decreases actions.len(),
{
    if actions.len() == 0 {
        assert(with_actions(log, handle, actions) =~= log);
        assert(batch_of(log, handle) + actions =~= batch_of(log, handle));
    } else {
        let earlier = actions.drop_last();
        let request = RequestView::Append { promise: handle, action: actions.last() };
        lemma_batch_of_with_actions(log, handle, earlier);
        assert(with_actions(log, handle, actions) =~= with_actions(log, handle, earlier).push(
            request,
        ));
        lemma_batch_of_push(with_actions(log, handle, earlier), request, handle);
        assert((batch_of(log, handle) + earlier).push(actions.last()) =~= batch_of(log, handle)
            + actions);
        assert forall|other: PromiseIndex| other != handle implies #[trigger] batch_of(
            with_actions(log, handle, actions),
            other,
        ) == batch_of(log, other) by {
            lemma_batch_of_push(with_actions(log, handle, earlier), request, other);
        }
    }
}

/// A batch that was just opened and then had actions appended to it, one
/// request each, holds exactly those actions, in the order of the requests.
pub proof fn lemma_new_batch_holds_its_actions(
    log: Seq<RequestView>,
    opening: RequestView,
    actions: Seq<ActionView>,
)
    requires
        well_formed(log),
        opening is Open || opening is Chain,
        log.len() <= PromiseIndex::MAX,
    ensures
        batch_of(
            with_actions(log.push(opening), log.len() as PromiseIndex, actions),
            log.len() as PromiseIndex,
        ) == actions,
{
    let handle = log.len() as PromiseIndex;
    lemma_batch_of_later_handle(log, handle);
    lemma_batch_of_push(log, opening, handle);
    lemma_batch_of_with_actions(log.push(opening), handle, actions);
    assert(Seq::<ActionView>::empty() + actions =~= actions);
}

/// The record of the requests that a call body has made, in order.
pub struct Scheduler {
    requests: Vec<Request>,
}

impl View for Scheduler {
    type V = Seq<RequestView>;

    closed spec fn view(&self) -> Seq<RequestView> {
        request_views(self.requests@)
    }
}

impl Scheduler {
    /// What holds of every record: no request speaks of a handle that was not
    /// given out before it.
    #[verifier::type_invariant]
    pub open spec fn inv(self) -> bool {
        well_formed(self@)
    }

    /// A record with no request in it.
    pub fn new() -> (host: Scheduler)
        ensures
            host@ == Seq::<RequestView>::empty(),
    {
        let host = Scheduler { requests: Vec::new() };
        assert(host@ =~= Seq::<RequestView>::empty());
        host
    }

    fn record(&mut self, request: Request) -> (place: PromiseIndex)
        requires
            match request@ {
                RequestView::Open { .. } => true,
                RequestView::Chain { after, .. } => is_handle(old(self)@, after),
                RequestView::Join { left, right } => {
                    is_handle(old(self)@, left) && is_handle(old(self)@, right)
                },
                RequestView::Append { promise, .. } => is_batch(old(self)@, promise),
            },
        ensures
            final(self)@ == old(self)@.push(request@),
            place == old(self)@.len(),
    {
        proof {
            use_type_invariant(&*self);
            lemma_well_formed_push(self@, request@);
            assert(request_views(self.requests@.push(request)) =~= self@.push(request@));
            assert(request_views(Seq::<Request>::empty()) =~= Seq::<RequestView>::empty());
        }
        let place = self.requests.len() as u64;
        // The vector grows outside the record: `push` may unwind, and the
        // invariant is to hold of whatever an unwinding leaves behind.
        let mut requests: Vec<Request> = Vec::new();
        core::mem::swap(&mut self.requests, &mut requests);
        requests.push(request);
        core::mem::swap(&mut self.requests, &mut requests);
        place
    }

    /// Opens an empty batch on `account_id` and gives out its handle.
    pub fn open(&mut self, account_id: &AccountId) -> (handle: PromiseIndex)
        ensures
            final(self)@ == old(self)@.push(RequestView::Open { account_id: account_id@ }),
            handle == old(self)@.len(),
            is_batch(final(self)@, handle),
            batch_of(final(self)@, handle) == Seq::<ActionView>::empty(),
    {
        let ghost before = self@;
        proof {
            use_type_invariant(&*self);
        }
        let handle = self.record(Request::Open { account_id: account_id.clone() });
        proof {
            lemma_batch_of_later_handle(before, handle);
            lemma_batch_of_push(before, RequestView::Open { account_id: account_id@ }, handle);
        }
        handle
    }

    /// Opens an empty batch on `account_id` that is to run once `after` has
    /// completed, and gives out its handle.
    pub fn chain(&mut self, after: PromiseIndex, account_id: &AccountId) -> (handle: PromiseIndex)
        requires
            is_handle(old(self)@, after),
        ensures
            final(self)@ == old(self)@.push(
                RequestView::Chain { after, account_id: account_id@ },
            ),
            handle == old(self)@.len(),
            handle != after,
            is_batch(final(self)@, handle),
            batch_of(final(self)@, handle) == Seq::<ActionView>::empty(),
    {
        let ghost before = self@;
        proof {
            use_type_invariant(&*self);
        }
        let handle = self.record(Request::Chain { after, account_id: account_id.clone() });
        proof {
            lemma_batch_of_later_handle(before, handle);
            lemma_batch_of_push(
                before,
                RequestView::Chain { after, account_id: account_id@ },
                handle,
            );
        }
        handle
    }

    /// Makes a node that completes once both `left` and `right` have, and gives
    /// out its handle.
    pub fn join(&mut self, left: PromiseIndex, right: PromiseIndex) -> (handle: PromiseIndex)
        requires
            is_handle(old(self)@, left),
            is_handle(old(self)@, right),
        ensures
            final(self)@ == old(self)@.push(RequestView::Join { left, right }),
            handle == old(self)@.len(),
            handle != left,
            handle != right,
            is_joint(final(self)@, handle),
    {
        self.record(Request::Join { left, right })
    }

    /// Puts `action` at the end of the batch `promise`.
    pub fn append(&mut self, promise: PromiseIndex, action: Action)
        requires
            is_batch(old(self)@, promise),
        ensures
            appended(old(self)@, final(self)@, promise, action@),
    {
        let ghost before = self@;
        let ghost request = RequestView::Append { promise, action: action@ };
        self.record(Request::Append { promise, action });
        proof {
            lemma_batch_of_push(before, request, promise);
            assert forall|other: PromiseIndex| other != promise implies #[trigger] batch_of(
                self@,
                other,
            ) == batch_of(before, other) by {
                lemma_batch_of_push(before, request, other);
            }
        }
    }

    /// The number of requests made so far.
    pub fn len(&self) -> (n: usize)
        ensures
            n == self@.len(),
    {
        self.requests.len()
    }

    /// The request made at place `at`.
    pub fn request(&self, at: usize) -> (request: &Request)
        requires
            at < self@.len(),
        ensures
            request@ == self@[at as int],
    {
        &self.requests[at]
    }

    /// Whether `handle` was given out for a batch.
    pub fn is_batch(&self, handle: PromiseIndex) -> (yes: bool)
        ensures
            yes == is_batch(self@, handle),
    {
        if handle < self.requests.len() as u64 {
            match &self.requests[handle as usize] {
                Request::Open { .. } => true,
                Request::Chain { .. } => true,
                _ => false,
            }
        } else {
            false
        }
    }

    /// Whether `handle` was given out for a join.
    pub fn is_joint(&self, handle: PromiseIndex) -> (yes: bool)
        ensures
            yes == is_joint(self@, handle),
    {
        if handle < self.requests.len() as u64 {
            match &self.requests[handle as usize] {
                Request::Join { .. } => true,
                _ => false,
            }
        } else {
            false
        }
    }

    /// The actions of the batch `handle`, in the order in which they were
    /// appended.
    pub fn batch(&self, handle: PromiseIndex) -> (actions: Vec<Action>)
        ensures
            action_views(actions@) == batch_of(self@, handle),
    {
        let mut actions: Vec<Action> = Vec::new();
        let mut at: usize = 0;
        assert(action_views(actions@) =~= Seq::<ActionView>::empty());
        while at < self.requests.len()
            invariant
                at <= self.requests.len(),
                self@.len() == self.requests.len(),
                action_views(actions@) == batch_of(self@.take(at as int), handle),
            decreases self.requests.len() - at,
        {
            let ghost seen = self@.take(at as int);
            let ghost collected = actions@;
            proof {
                assert(self@.take(at + 1) =~= seen.push(self@[at as int]));
                lemma_batch_of_push(seen, self@[at as int], handle);
            }
            match &self.requests[at] {
                Request::Append { promise, action } => {
                    if *promise == handle {
                        let copy = action.duplicate();
                        actions.push(copy);
                        assert(action_views(actions@) =~= action_views(collected).push(copy@));
                    }
                },
                _ => {},
            }
            at = at + 1;
        }
        assert(self@.take(at as int) =~= self@);
        actions
    }
}

} // verus!
