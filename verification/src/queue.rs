//! The relay queue: a bounded, ordered buffer of events connecting the
//! webhook ingestor to the chat notifier.
//!
//! The queue keeps two ghost histories beside its live contents: every event
//! it ever accepted and every event it ever handed to the consumer.  Its
//! well-formedness ties the three together, which is what makes the FIFO and
//! backpressure guarantees statable.

use vstd::prelude::*;

verus! {

/// A validated unit of webhook data awaiting delivery.
///
/// `payload` holds the verbatim request body (JSON text); the relay imposes
/// no schema on it and passes it through to the formatter unchanged.
pub struct Event {
    /// Opaque delivery identifier supplied by the sender.
    pub id: String,
    /// Event category declared by the sender.
    pub kind: String,
    /// Verbatim event body.
    pub payload: Vec<u8>,
}

/// Why an enqueue was refused.
#[derive(Clone, Copy, PartialEq, Eq, Structural, Debug)]
pub enum EnqueueError {
    /// The queue already holds `capacity` undelivered events.
    Full,
    /// The queue was closed by shutdown; no further events are accepted.
    Closed,
}

/// Bounded FIFO buffer of events.
pub struct RelayQueue {
    items: Vec<Event>,
    capacity: usize,
    closed: bool,
    accepted: Ghost<Seq<Event>>,
    taken: Ghost<Seq<Event>>,
}

impl View for RelayQueue {
    type V = Seq<Event>;

    /// The undelivered events, oldest first.
    closed spec fn view(&self) -> Seq<Event> {
        self.items@
    }
}

impl RelayQueue {
    /// Bound fixed at construction.
    pub closed spec fn spec_capacity(&self) -> nat {
        self.capacity as nat
    }

    /// Whether shutdown has closed the queue.
    pub closed spec fn spec_closed(&self) -> bool {
        self.closed
    }

    /// Every event ever accepted, in acceptance order.
    pub closed spec fn spec_accepted(&self) -> Seq<Event> {
        self.accepted@
    }

    /// Every event ever handed to the consumer, in that order.
    pub closed spec fn spec_taken(&self) -> Seq<Event> {
        self.taken@
    }

    /// Well-formedness: the queue never exceeds its bound, and what was
    /// accepted is exactly what was handed out followed by what still waits.
    pub closed spec fn wf(&self) -> bool {
        &&& self.items@.len() <= self.capacity
        &&& self.accepted@ == self.taken@ + self.items@
    }

    /// Create an empty, open queue with the given bound.
    pub fn new(capacity: usize) -> (q: RelayQueue)
        ensures
            q.wf(),
            q@ =~= Seq::<Event>::empty(),
            q.spec_capacity() == capacity,
            !q.spec_closed(),
            q.spec_accepted() =~= Seq::<Event>::empty(),
            q.spec_taken() =~= Seq::<Event>::empty(),
    {
        let q = RelayQueue {
            items: Vec::new(),
            capacity,
            closed: false,
            accepted: Ghost(Seq::empty()),
            taken: Ghost(Seq::empty()),
        };
        proof {
            assert(q.accepted@ =~= q.taken@ + q.items@);
        }
        q
    }

    /// Number of undelivered events.
    pub fn len(&self) -> (n: usize)
        ensures
            n == self@.len(),
    {
        self.items.len()
    }

    /// The bound fixed at construction.
    pub fn capacity(&self) -> (c: usize)
        ensures
            c == self.spec_capacity(),
    {
        self.capacity
    }

    /// Whether shutdown has closed the queue.
    pub fn is_closed(&self) -> (b: bool)
        ensures
            b == self.spec_closed(),
    {
        self.closed
    }

    /// Non-blocking enqueue.  A closed queue refuses every event; a full
    /// queue refuses the new event and keeps its contents untouched
    /// (backpressure: the event is rejected, never silently dropped after
    /// acceptance).  Otherwise the event is appended in acceptance order.
    pub fn enqueue(&mut self, e: Event) -> (r: Result<(), EnqueueError>)
        requires
            old(self).wf(),
        ensures
            final(self).wf(),
            final(self).spec_capacity() == old(self).spec_capacity(),
            final(self).spec_closed() == old(self).spec_closed(),
            final(self).spec_taken() == old(self).spec_taken(),
            old(self).spec_closed() ==> {
                &&& r == Result::<(), EnqueueError>::Err(EnqueueError::Closed)
                &&& final(self)@ == old(self)@
                &&& final(self).spec_accepted() == old(self).spec_accepted()
            },
            !old(self).spec_closed() && old(self)@.len() >= old(self).spec_capacity() ==> {
                &&& r == Result::<(), EnqueueError>::Err(EnqueueError::Full)
                &&& final(self)@ == old(self)@
                &&& final(self).spec_accepted() == old(self).spec_accepted()
            },
            !old(self).spec_closed() && old(self)@.len() < old(self).spec_capacity() ==> {
                &&& r == Result::<(), EnqueueError>::Ok(())
                &&& final(self)@ == old(self)@.push(e)
                &&& final(self).spec_accepted() == old(self).spec_accepted().push(e)
            },
    {
        if self.closed {
            return Err(EnqueueError::Closed);
        }
        if self.items.len() >= self.capacity {
            return Err(EnqueueError::Full);
        }
        proof {
            assert(self.taken@ + self.items@.push(e) =~= (self.taken@ + self.items@).push(e));
        }
        self.accepted = Ghost(self.accepted@.push(e));
        self.items.push(e);
        Ok(())
    }

    /// Take the oldest undelivered event, if any.  The caller gains exclusive
    /// ownership; the queue forgets the event (at-most-once hand-off).
    pub fn dequeue(&mut self) -> (r: Option<Event>)
        requires
            old(self).wf(),
        ensures
            final(self).wf(),
            final(self).spec_capacity() == old(self).spec_capacity(),
            final(self).spec_closed() == old(self).spec_closed(),
            final(self).spec_accepted() == old(self).spec_accepted(),
            old(self)@.len() == 0 ==> {
                &&& r is None
                &&& final(self)@ == old(self)@
                &&& final(self).spec_taken() == old(self).spec_taken()
            },
            old(self)@.len() > 0 ==> {
                &&& r == Some(old(self)@[0])
                &&& final(self)@ == old(self)@.skip(1)
                &&& final(self).spec_taken() == old(self).spec_taken().push(old(self)@[0])
            },
    {
        if self.items.len() == 0 {
            return None;
        }
        let ghost pre = self.items@;
        let e = self.items.remove(0);
        self.taken = Ghost(self.taken@.push(e));
        proof {
            assert(self.items@ =~= pre.skip(1));
            assert(self.taken@ + self.items@ =~= self.accepted@);
        }
        Some(e)
    }

    /// Close the queue for shutdown: no further event is accepted, and the
    /// consumer's blocking wait resolves instead of hanging.
    pub fn close(&mut self)
        requires
            old(self).wf(),
        ensures
            final(self).wf(),
            final(self).spec_closed(),
            final(self)@ == old(self)@,
            final(self).spec_capacity() == old(self).spec_capacity(),
            final(self).spec_accepted() == old(self).spec_accepted(),
            final(self).spec_taken() == old(self).spec_taken(),
    {
        self.closed = true;
    }
}

/// FIFO law: at every moment, the events handed to the consumer are exactly
/// the oldest accepted events, in acceptance order, and the events still
/// queued follow them; nothing is reordered, lost or duplicated in between.
pub proof fn lemma_fifo_order(q: &RelayQueue)
    requires
        q.wf(),
    ensures
        q.spec_accepted() == q.spec_taken() + q@,
        q.spec_taken() =~= q.spec_accepted().take(q.spec_taken().len() as int),
        q@ =~= q.spec_accepted().skip(q.spec_taken().len() as int),
{
}

} // verus!
