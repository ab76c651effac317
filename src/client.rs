//! The client multiplexer: producers submit requests to a bounded queue, a
//! single dispatcher takes them in FIFO order, and each dispatch attempt is
//! correlated with exactly one resolution for its waiting caller.
//!
//! The transport round trip itself happens outside the library: the
//! dispatcher hands each [`Payload`] to the transport and reports the outcome
//! back through [`Client::complete`].

use vstd::prelude::*;
use crate::error::{ClientResult, Error, ErrorMessage};
use crate::queue::{Method, Payload, Refused, RequestQueue};
use crate::retry::RetryPolicy;

verus! {

/// Result of one transport round trip.
#[derive(Debug, Clone, PartialEq, Eq)]
pub enum TransportOutcome {
    /// The peer answered with this status and body.
    Response(u16, String),
    /// The exchange could not be completed (connection, timeout, reset).
    Failure(String),
}

/// Classification of a transport outcome, given the structured error body
/// decoded from the response (if it could be decoded).
pub open spec fn classified(outcome: TransportOutcome, error_body: Option<ErrorMessage>) -> ClientResult {
    match outcome {
        TransportOutcome::Response(status, body) => if 200 <= status < 300 {
            Ok(body)
        } else {
            Err(Error::Api(status, error_body))
        },
        TransportOutcome::Failure(detail) => Err(Error::Network(detail)),
    }
}

/// Classifies one transport outcome: a 2xx response carries its raw body, any
/// other status is an `Api` error with the decoded error body if there was
/// one, and a transport failure is a `Network` error.
pub fn classify(outcome: TransportOutcome, error_body: Option<ErrorMessage>) -> (r: ClientResult)
    ensures
        r == classified(outcome, error_body),
{
    match outcome {
        TransportOutcome::Response(status, body) => {
            if 200 <= status && status < 300 {
                Ok(body)
            } else {
                Err(Error::Api(status, error_body))
            }
        },
        TransportOutcome::Failure(detail) => Err(Error::Network(detail)),
    }
}

/// Turns the decoding of a successful body into the caller's typed result: a
/// decoding failure becomes a `Parse` error.
pub fn into_typed<T>(decoded: Result<T, String>) -> (r: Result<T, Error>)
    ensures
        match decoded {
            Ok(v) => r == Ok::<T, Error>(v),
            Err(d) => r == Err::<T, Error>(Error::Parse(d)),
        },
{
    match decoded {
        Ok(v) => Ok(v),
        Err(d) => Err(Error::Parse(d)),
    }
}

/// State of the correlator of one dispatch attempt.
#[derive(Debug, PartialEq, Eq)]
pub enum Correlation {
    /// Waiting in the queue.
    Queued,
    /// Handed to the transport by the dispatcher.
    InFlight,
    /// Resolved; the caller has not collected the result yet.
    Resolved(ClientResult),
    /// The caller collected the result.
    Delivered,
    /// The caller gave up waiting; any later resolution is dropped.
    Abandoned,
}

/// The correlator after the dispatcher resolves it with `r`: only an
/// attempt in flight takes a resolution, any other state stays as it is.
pub open spec fn completed(s: Correlation, r: ClientResult) -> Correlation {
    if s is InFlight {
        Correlation::Resolved(r)
    } else {
        s
    }
}

/// The correlator after its caller gives up waiting.
pub open spec fn cancelled(s: Correlation) -> Correlation {
    if s is Delivered {
        s
    } else {
        Correlation::Abandoned
    }
}

/// The correlator at shutdown: one still pending resolves to an `Unknown` error.
pub open spec fn shut_down(s: Correlation) -> bool {
    s is Queued || s is InFlight
}

/// Number of correlators in `s` that are still queued or in flight.
pub open spec fn pending_count(s: Seq<Correlation>) -> nat
    decreases s.len(),
{
    if s.len() == 0 {
        0
    } else {
        pending_count(s.drop_last()) + if shut_down(s.last()) {
            1nat
        } else {
            0nat
        }
    }
}

/// Cheap, copyable producer-side view of a client: the retry budget that each
/// logical request starts with.
#[derive(Debug, Clone, Copy, PartialEq, Eq)]
pub struct ClientHandle {
    pub max_retries: usize,
}

impl ClientHandle {
    /// Fresh attempt state for one logical request.
    pub fn retry_policy(&self) -> (p: RetryPolicy)
        ensures
            p.wf(),
            p.budget() == self.max_retries,
            p.remaining() == self.max_retries,
    {
        RetryPolicy::new(self.max_retries)
    }
}

/// Request queue plus the correlators of every attempt submitted so far;
/// correlator `i` belongs to the payload with id `i`.
#[derive(Debug)]
pub struct Client {
    queue: RequestQueue,
    slots: Vec<Correlation>,
    max_retries: usize,
}

impl Client {
    pub closed spec fn queue(&self) -> RequestQueue {
        self.queue
    }

    pub closed spec fn slots(&self) -> Seq<Correlation> {
        self.slots@
    }

    pub closed spec fn max_retries(&self) -> nat {
        self.max_retries as nat
    }

    /// Id of the oldest payload still in the queue.
    pub open spec fn head(&self) -> int {
        self.slots().len() - self.queue().items().len()
    }

    pub open spec fn wf(&self) -> bool {
        &&& self.queue().wf()
        &&& self.queue().items().len() <= self.slots().len()
        &&& forall|i: int|
            0 <= i < self.queue().items().len() ==> (#[trigger] self.queue().items()[i]).id == self.head() + i
        &&& forall|id: int| 0 <= id < self.head() ==> !(#[trigger] self.slots()[id] is Queued)
        &&& forall|id: int|
            self.head() <= id < self.slots().len() ==> (#[trigger] self.slots()[id] is Queued
                || self.slots()[id] is Abandoned)
    }

    /// An open client whose queue holds at most `buffer_size` payloads and
    /// whose requests retry transient failures up to `max_retries` times.
    pub fn new(buffer_size: usize, max_retries: usize) -> (c: Self)
        ensures
            c.wf(),
            c.queue().capacity() == buffer_size,
            c.queue().items().len() == 0,
            !c.queue().is_closed(),
            c.slots().len() == 0,
            c.max_retries() == max_retries,
    {
        Client { queue: RequestQueue::new(buffer_size), slots: Vec::new(), max_retries }
    }

    /// A producer handle carrying this client's retry budget.
    pub fn handle(&self) -> (h: ClientHandle)
        ensures
            h.max_retries == self.max_retries(),
    {
        ClientHandle { max_retries: self.max_retries }
    }

    /// Number of dispatch attempts submitted so far, which is the id the next
    /// one gets.
    pub fn submitted(&self) -> (r: usize)
        ensures
            r == self.slots().len(),
    {
        self.slots.len()
    }

    /// Number of payloads waiting for the dispatcher.
    pub fn queued(&self) -> (r: usize)
        ensures
            r == self.queue().items().len(),
    {
        self.queue.len()
    }

    /// Submits one dispatch attempt. On success the payload is at the back of
    /// the queue and its correlator, with the returned id, is `Queued`. A full
    /// queue refuses with `Full` (the producer waits for the dispatcher and
    /// submits again), a closed one with `Closed`; a refusal changes nothing.
    pub fn submit(&mut self, method: Method, url: String, body: Option<String>) -> (r: Result<usize, Refused>)
        requires
            old(self).wf(),
            old(self).slots().len() < usize::MAX,
        ensures
            final(self).wf(),
            final(self).max_retries() == old(self).max_retries(),
            final(self).queue().capacity() == old(self).queue().capacity(),
            final(self).queue().is_closed() == old(self).queue().is_closed(),
            ({
                let p = Payload { id: old(self).slots().len() as usize, method, url, body };
                &&& old(self).queue().is_closed() ==> r == Err::<usize, Refused>(Refused::Closed(p))
                &&& !old(self).queue().is_closed() && old(self).queue().items().len()
                    >= old(self).queue().capacity() ==> r == Err::<usize, Refused>(Refused::Full(p))
                &&& r is Err ==> final(self).slots() == old(self).slots() && final(self).queue().items()
                    == old(self).queue().items()
                &&& !old(self).queue().is_closed() && old(self).queue().items().len()
                    < old(self).queue().capacity() ==> {
                    &&& r == Ok::<usize, Refused>(p.id)
                    &&& final(self).slots() == old(self).slots().push(Correlation::Queued)
                    &&& final(self).queue().items() == old(self).queue().items().push(p)
                }
            }),
    {
        let id = self.slots.len();
        let p = Payload { id, method, url, body };
        let r = self.queue.try_push(p);
        match r {
            Ok(()) => {
                self.slots.push(Correlation::Queued);
                assert forall|i: int| 0 <= i < self.queue().items().len() implies (
                #[trigger] self.queue().items()[i]).id == self.head() + i by {
                    if i < old(self).queue().items().len() {
                        assert(self.queue().items()[i] == old(self).queue().items()[i]);
                    }
                }
                assert forall|k: int| 0 <= k < self.head() implies !(
                #[trigger] self.slots()[k] is Queued) by {
                    assert(self.slots()[k] == old(self).slots()[k]);
                }
                assert forall|k: int| self.head() <= k < self.slots().len() implies (
                #[trigger] self.slots()[k] is Queued || self.slots()[k] is Abandoned) by {
                    if k < old(self).slots().len() {
                        assert(self.slots()[k] == old(self).slots()[k]);
                    }
                }
                Ok(id)
            },
            Err(e) => Err(e),
        }
    }

    /// The dispatcher takes the oldest waiting payload, in submission order;
    /// its correlator goes from `Queued` to `InFlight` (an abandoned one stays
    /// abandoned).
    pub fn next_payload(&mut self) -> (r: Option<Payload>)
        requires
            old(self).wf(),
        ensures
            final(self).wf(),
            final(self).max_retries() == old(self).max_retries(),
            final(self).queue().capacity() == old(self).queue().capacity(),
            final(self).queue().is_closed() == old(self).queue().is_closed(),
            old(self).queue().items().len() == 0 ==> r is None && final(self).slots() == old(self).slots()
                && final(self).queue().items() == old(self).queue().items(),
            old(self).queue().items().len() > 0 ==> {
                let p = old(self).queue().items()[0];
                &&& r == Some(p)
                &&& final(self).queue().items() == old(self).queue().items().drop_first()
                &&& final(self).slots() == old(self).slots().update(
                    p.id as int,
                    if old(self).slots()[p.id as int] is Queued {
                        Correlation::InFlight
                    } else {
                        Correlation::Abandoned
                    },
                )
            },
    {
        let r = self.queue.pop();
        match r {
            Some(p) => {
                let ghost h = old(self).head();
                assert(old(self).queue().items()[0].id == h);
                if let Correlation::Queued = self.slots[p.id] {
                    self.slots[p.id] = Correlation::InFlight;
                } else {
                    self.slots[p.id] = Correlation::Abandoned;
                }
                assert forall|i: int| 0 <= i < self.queue().items().len() implies (
                #[trigger] self.queue().items()[i]).id == self.head() + i by {
                    assert(self.queue().items()[i] == old(self).queue().items()[i + 1]);
                }
                assert forall|k: int| 0 <= k < self.head() implies !(
                #[trigger] self.slots()[k] is Queued) by {
                    if k != h {
                        assert(self.slots()[k] == old(self).slots()[k]);
                    }
                }
                assert forall|k: int| self.head() <= k < self.slots().len() implies (
                #[trigger] self.slots()[k] is Queued || self.slots()[k] is Abandoned) by {
                    assert(self.slots()[k] == old(self).slots()[k]);
                }
                Some(p)
            },
            None => None,
        }
    }

    /// The dispatcher resolves correlator `id` with `result`. Only an attempt
    /// in flight takes it (`true`); for any other correlator, an abandoned one
    /// included, this is a harmless no-op (`false`).
    pub fn complete(&mut self, id: usize, result: ClientResult) -> (taken: bool)
        requires
            old(self).wf(),
        ensures
            final(self).wf(),
            final(self).max_retries() == old(self).max_retries(),
            final(self).queue() == old(self).queue(),
            taken == (id < old(self).slots().len() && old(self).slots()[id as int] is InFlight),
            id < old(self).slots().len() ==> final(self).slots() == old(self).slots().update(
                id as int,
                completed(old(self).slots()[id as int], result),
            ),
            id >= old(self).slots().len() ==> final(self).slots() == old(self).slots(),
    {
        if id >= self.slots.len() {
            return false;
        }
        if let Correlation::InFlight = self.slots[id] {
            self.slots[id] = Correlation::Resolved(result);
            assert forall|k: int| 0 <= k < self.head() implies !(#[trigger] self.slots()[k] is Queued) by {
                if k != id {
                    assert(self.slots()[k] == old(self).slots()[k]);
                }
            }
            assert forall|k: int| self.head() <= k < self.slots().len() implies (
            #[trigger] self.slots()[k] is Queued || self.slots()[k] is Abandoned) by {
                assert(self.slots()[k] == old(self).slots()[k]);
            }
            assert(self.slots() =~= old(self).slots().update(id as int, completed(old(self).slots()[id as int], result)));
            true
        } else {
            assert(self.slots() =~= old(self).slots().update(id as int, completed(old(self).slots()[id as int], result)));
            false
        }
    }

    /// One dispatcher step after a transport round trip: the outcome of the
    /// attempt with payload id `id` is classified and resolves its correlator,
    /// as [`Client::complete`] does.
    pub fn complete_with(&mut self, id: usize, outcome: TransportOutcome, error_body: Option<ErrorMessage>) -> (taken: bool)
        requires
            old(self).wf(),
        ensures
            final(self).wf(),
            final(self).max_retries() == old(self).max_retries(),
            final(self).queue() == old(self).queue(),
            taken == (id < old(self).slots().len() && old(self).slots()[id as int] is InFlight),
            id < old(self).slots().len() ==> final(self).slots() == old(self).slots().update(
                id as int,
                completed(old(self).slots()[id as int], classified(outcome, error_body)),
            ),
            id >= old(self).slots().len() ==> final(self).slots() == old(self).slots(),
    {
        let r = classify(outcome, error_body);
        self.complete(id, r)
    }

    /// The caller gives up waiting on correlator `id`: it becomes `Abandoned`
    /// (a collected one stays `Delivered`), and whatever resolution comes
    /// later is dropped. The queue and the dispatcher are not affected.
    pub fn cancel(&mut self, id: usize)
        requires
            old(self).wf(),
        ensures
            final(self).wf(),
            final(self).max_retries() == old(self).max_retries(),
            final(self).queue() == old(self).queue(),
            id < old(self).slots().len() ==> final(self).slots() == old(self).slots().update(
                id as int,
                cancelled(old(self).slots()[id as int]),
            ),
            id >= old(self).slots().len() ==> final(self).slots() == old(self).slots(),
    {
        if id >= self.slots.len() {
            return;
        }
        if let Correlation::Delivered = self.slots[id] {
        } else {
            self.slots[id] = Correlation::Abandoned;
        }
        assert forall|k: int| 0 <= k < self.head() implies !(#[trigger] self.slots()[k] is Queued) by {
            if k != id {
                assert(self.slots()[k] == old(self).slots()[k]);
            }
        }
        assert forall|k: int| self.head() <= k < self.slots().len() implies (
        #[trigger] self.slots()[k] is Queued || self.slots()[k] is Abandoned) by {
            if k != id {
                assert(self.slots()[k] == old(self).slots()[k]);
            }
        }
        assert(self.slots() =~= old(self).slots().update(id as int, cancelled(old(self).slots()[id as int])));
    }

    /// The caller collects the resolution of correlator `id`: `Some` exactly
    /// when it is resolved, and then the correlator becomes `Delivered`, so a
    /// result is handed out once.
    pub fn collect(&mut self, id: usize) -> (r: Option<ClientResult>)
        requires
            old(self).wf(),
        ensures
            final(self).wf(),
            final(self).max_retries() == old(self).max_retries(),
            final(self).queue() == old(self).queue(),
            id < old(self).slots().len() && old(self).slots()[id as int] is Resolved ==> {
                &&& r == Some(old(self).slots()[id as int]->Resolved_0)
                &&& final(self).slots() == old(self).slots().update(id as int, Correlation::Delivered)
            },
            !(id < old(self).slots().len() && old(self).slots()[id as int] is Resolved) ==> {
                &&& r is None
                &&& final(self).slots() == old(self).slots()
            },
    {
        if id >= self.slots.len() {
            return None;
        }
        if let Correlation::Resolved(_) = self.slots[id] {
            let mut old_slot = Correlation::Delivered;
            std::mem::swap(&mut self.slots[id], &mut old_slot);
            assert forall|k: int| 0 <= k < self.head() implies !(#[trigger] self.slots()[k] is Queued) by {
                if k != id {
                    assert(self.slots()[k] == old(self).slots()[k]);
                }
            }
            assert forall|k: int| self.head() <= k < self.slots().len() implies (
            #[trigger] self.slots()[k] is Queued || self.slots()[k] is Abandoned) by {
                assert(self.slots()[k] == old(self).slots()[k]);
            }
            match old_slot {
                Correlation::Resolved(r) => Some(r),
                _ => None,
            }
        } else {
            None
        }
    }

    /// Whether correlator `id` is resolved and waiting to be collected.
    pub fn is_resolved(&self, id: usize) -> (r: bool)
        ensures
            r == (id < self.slots().len() && self.slots()[id as int] is Resolved),
    {
        id < self.slots.len() && matches!(self.slots[id], Correlation::Resolved(_))
    }

    /// Shuts the client down: the queue closes, so every later submission is
    /// refused, and every correlator still queued or in flight resolves to an
    /// `Unknown` error instead of hanging. Returns how many were resolved so.
    pub fn shutdown(&mut self) -> (n: usize)
        requires
            old(self).wf(),
        ensures
            final(self).wf(),
            final(self).max_retries() == old(self).max_retries(),
            final(self).queue().is_closed(),
            final(self).queue().items().len() == 0,
            final(self).queue().capacity() == old(self).queue().capacity(),
            final(self).slots().len() == old(self).slots().len(),
            forall|k: int|
                0 <= k < old(self).slots().len() ==> if shut_down(#[trigger] old(self).slots()[k]) {
                    final(self).slots()[k] matches Correlation::Resolved(Err(Error::Unknown(_)))
                } else {
                    final(self).slots()[k] == old(self).slots()[k]
                },
            n == pending_count(old(self).slots()),
    {
        let _drained = self.queue.close();
        let mut n: usize = 0;
        let mut k: usize = 0;
        while k < self.slots.len()
            invariant
                self.queue().wf(),
                self.queue().is_closed(),
                self.queue().items().len() == 0,
                self.queue().capacity() == old(self).queue().capacity(),
                self.max_retries == old(self).max_retries,
                self.slots().len() == old(self).slots().len(),
                k <= self.slots().len(),
                n == pending_count(old(self).slots().subrange(0, k as int)),
                n <= k,
                forall|j: int|
                    0 <= j < k ==> if shut_down(#[trigger] old(self).slots()[j]) {
                        self.slots()[j] matches Correlation::Resolved(Err(Error::Unknown(_)))
                    } else {
                        self.slots()[j] == old(self).slots()[j]
                    },
                forall|j: int| k <= j < self.slots().len() ==> #[trigger] self.slots()[j] == old(self).slots()[j],
            decreases self.slots().len() - k,
        {
            proof {
                let next = old(self).slots().subrange(0, k + 1);
                assert(next.drop_last() =~= old(self).slots().subrange(0, k as int));
                assert(next.last() == old(self).slots()[k as int]);
            }
            let pending = match self.slots[k] {
                Correlation::Queued => true,
                Correlation::InFlight => true,
                _ => false,
            };
            if pending {
                self.slots[k] = Correlation::Resolved(Err(Error::Unknown("http client channel closed".to_string())));
                n = n + 1;
            }
            k = k + 1;
        }
        assert forall|j: int| 0 <= j < self.head() implies !(#[trigger] self.slots()[j] is Queued) by {
            assert(shut_down(old(self).slots()[j]) || self.slots()[j] == old(self).slots()[j]);
        }
        assert(old(self).slots().subrange(0, k as int) =~= old(self).slots());
        n
    }
}

/// A correlator takes at most one resolution: resolving it a second time,
/// whatever the value, leaves the first resolution in place.
pub proof fn lemma_resolves_at_most_once(s: Correlation, first: ClientResult, second: ClientResult)
    ensures
        completed(completed(s, first), second) == completed(s, first),
        s is InFlight ==> completed(s, first) == Correlation::Resolved(first),
{
}

/// No request is lost or duplicated between submission and dispatch: every
/// correlator still queued has exactly one payload in the queue, at the
/// position given by submission order, and no payload in the queue belongs to
/// a correlator that was already dispatched.
pub proof fn lemma_queued_requests_reach_dispatch(c: Client)
    requires
        c.wf(),
    ensures
        forall|id: int|
            0 <= id < c.slots().len() && (#[trigger] c.slots()[id]) is Queued ==> c.head() <= id && c.queue().items()[id
                - c.head()].id == id,
        forall|i: int, j: int|
            0 <= i < j < c.queue().items().len() ==> (#[trigger] c.queue().items()[i]).id < (
            #[trigger] c.queue().items()[j]).id,
        forall|i: int|
            0 <= i < c.queue().items().len() ==> {
                let id = (#[trigger] c.queue().items()[i]).id as int;
                0 <= id < c.slots().len() && (c.slots()[id] is Queued || c.slots()[id] is Abandoned)
            },
{
    assert forall|id: int| 0 <= id < c.slots().len() && (#[trigger] c.slots()[id]) is Queued implies c.head()
        <= id && c.queue().items()[id - c.head()].id == id by {
        if id < c.head() {
        }
        assert(c.queue().items()[id - c.head()].id == c.head() + (id - c.head()));
    }
}

/// Abandoning a caller's wait is harmless to the dispatcher: a later
/// resolution of the abandoned correlator is dropped without effect.
pub proof fn lemma_abandoned_resolution_is_noop(s: Correlation, r: ClientResult)
    requires
        !(s is Delivered),
    ensures
        cancelled(s) == Correlation::Abandoned,
        completed(cancelled(s), r) == cancelled(s),
{
}

} // verus!
