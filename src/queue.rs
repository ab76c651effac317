//! Bounded FIFO request queue between the producers and the dispatcher.

use vstd::prelude::*;
use std::collections::VecDeque;

verus! {

/// HTTP method of an outbound request.
#[derive(Debug, Clone, Copy, PartialEq, Eq)]
pub enum Method {
    Get,
    Post,
    Put,
    Delete,
    Patch,
    Head,
    Options,
}

/// One dispatch attempt: what to send, and the correlator it resolves.
#[derive(Debug)]
pub struct Payload {
    pub id: usize,
    pub method: Method,
    pub url: String,
    pub body: Option<String>,
}

/// Why an enqueue did not take place; the payload is handed back.
#[derive(Debug)]
pub enum Refused {
    /// The queue is at capacity: the producer waits for the dispatcher.
    Full(Payload),
    /// The queue was shut down.
    Closed(Payload),
}

/// Bounded FIFO channel from many producers to one dispatcher.
#[derive(Debug)]
pub struct RequestQueue {
    capacity: usize,
    items: VecDeque<Payload>,
    closed: bool,
}

impl RequestQueue {
    pub closed spec fn capacity(&self) -> nat {
        self.capacity as nat
    }

    /// Waiting payloads, oldest first.
    pub closed spec fn items(&self) -> Seq<Payload> {
        self.items@
    }

    pub closed spec fn is_closed(&self) -> bool {
        self.closed
    }

    pub open spec fn wf(&self) -> bool {
        self.items().len() <= self.capacity()
    }

    /// An open, empty queue that holds at most `capacity` payloads.
    pub fn new(capacity: usize) -> (q: Self)
        ensures
            q.wf(),
            q.capacity() == capacity,
            q.items() == Seq::<Payload>::empty(),
            !q.is_closed(),
    {
        RequestQueue { capacity, items: VecDeque::new(), closed: false }
    }

    pub fn len(&self) -> (r: usize)
        ensures
            r == self.items().len(),
    {
        self.items.len()
    }

    pub fn capacity_limit(&self) -> (r: usize)
        ensures
            r == self.capacity(),
    {
        self.capacity
    }

    pub fn closed_now(&self) -> (r: bool)
        ensures
            r == self.is_closed(),
    {
        self.closed
    }

    /// Appends `p` at the back. A closed queue refuses it with `Closed`, a full
    /// one with `Full`; a refusal leaves the queue as it was.
    pub fn try_push(&mut self, p: Payload) -> (r: Result<(), Refused>)
        requires
            old(self).wf(),
        ensures
            final(self).wf(),
            final(self).capacity() == old(self).capacity(),
            final(self).is_closed() == old(self).is_closed(),
            old(self).is_closed() ==> r == Err::<(), Refused>(Refused::Closed(p)),
            !old(self).is_closed() && old(self).items().len() >= old(self).capacity()
                ==> r == Err::<(), Refused>(Refused::Full(p)),
            r is Err ==> final(self).items() == old(self).items(),
            !old(self).is_closed() && old(self).items().len() < old(self).capacity() ==> (r is Ok
                && final(self).items() == old(self).items().push(p)),
    {
        if self.closed {
            Err(Refused::Closed(p))
        } else if self.items.len() >= self.capacity {
            Err(Refused::Full(p))
        } else {
            self.items.push_back(p);
            Ok(())
        }
    }

    /// Takes the oldest payload, if any.
    pub fn pop(&mut self) -> (r: Option<Payload>)
        requires
            old(self).wf(),
        ensures
            final(self).wf(),
            final(self).capacity() == old(self).capacity(),
            final(self).is_closed() == old(self).is_closed(),
            old(self).items().len() == 0 ==> r is None && final(self).items() == old(self).items(),
            old(self).items().len() > 0 ==> r == Some(old(self).items()[0])
                && final(self).items() == old(self).items().drop_first(),
    {
        self.items.pop_front()
    }

    /// Closes the queue and hands back the payloads that were still waiting.
    pub fn close(&mut self) -> (drained: Vec<Payload>)
        requires
            old(self).wf(),
        ensures
            final(self).wf(),
            final(self).capacity() == old(self).capacity(),
            final(self).is_closed(),
            final(self).items() == Seq::<Payload>::empty(),
            drained@ == old(self).items(),
    {
        self.closed = true;
        let mut drained: Vec<Payload> = Vec::new();
        while self.items.len() > 0
            invariant
                self.capacity == old(self).capacity,
                self.closed,
                drained@ + self.items@ == old(self).items(),
            decreases self.items@.len(),
        {
            let p = self.items.pop_front().unwrap();
            drained.push(p);
            assert(drained@ + self.items@ =~= old(self).items());
        }
        assert(drained@ =~= old(self).items());
        drained
    }
}

} // verus!
