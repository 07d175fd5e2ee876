//! The chat notifier's control state: the connection lifecycle with bounded
//! reconnects and increasing backoff, and the ghost record of every delivery
//! attempt and every successful delivery.
//!
//! The surrounding task performs the actual network work (establishing the
//! session, sending a message, sleeping); each outcome is reported back here,
//! and the contracts pin down how the state and the delivery history move.

use vstd::prelude::*;
use crate::queue::Event;

verus! {

/// Delay before the first reconnect attempt, in milliseconds.
pub const BASE_BACKOFF_MS: u64 = 500;

/// The connection lifecycle of the chat session.
#[derive(Clone, Copy, PartialEq, Eq, Structural, Debug)]
pub enum SessionState {
    /// No session and no attempt under way.
    Disconnected,
    /// A session is being established.
    Connecting,
    /// The session is live; events may be delivered.
    Connected,
}

/// What to do after the session dropped.
#[derive(Clone, Copy, PartialEq, Eq, Structural, Debug)]
pub enum ReconnectDecision {
    /// Wait this long, then try to reconnect.
    Retry { delay_ms: u64 },
    /// The tolerated number of reconnects is exhausted: give up.
    Fatal,
}

/// Backoff before reconnect attempt `n` (counting from zero): doubles with
/// every consecutive failure, up to 64 times the base delay.
pub open spec fn spec_backoff(n: u32) -> u64 {
    if n == 0 {
        BASE_BACKOFF_MS
    } else if n == 1 {
        (2 * BASE_BACKOFF_MS) as u64
    } else if n == 2 {
        (4 * BASE_BACKOFF_MS) as u64
    } else if n == 3 {
        (8 * BASE_BACKOFF_MS) as u64
    } else if n == 4 {
        (16 * BASE_BACKOFF_MS) as u64
    } else if n == 5 {
        (32 * BASE_BACKOFF_MS) as u64
    } else {
        (64 * BASE_BACKOFF_MS) as u64
    }
}

/// The notifier: connection state, reconnect budget, and the ghost history
/// of delivery attempts and outcomes.
pub struct Notifier {
    state: SessionState,
    attempts: u32,
    max_attempts: u32,
    attempted: Ghost<Seq<Event>>,
    delivered: Ghost<Seq<Event>>,
}

impl Notifier {
    /// Current lifecycle state.
    pub closed spec fn spec_state(&self) -> SessionState {
        self.state
    }

    /// Consecutive failed reconnects since the session was last live.
    pub closed spec fn spec_attempts(&self) -> u32 {
        self.attempts
    }

    /// How many consecutive reconnects are tolerated before giving up.
    pub closed spec fn spec_max_attempts(&self) -> u32 {
        self.max_attempts
    }

    /// Every event whose delivery was attempted, in the order taken.
    pub closed spec fn spec_attempted(&self) -> Seq<Event> {
        self.attempted@
    }

    /// Every event delivered successfully, in delivery order.
    pub closed spec fn spec_delivered(&self) -> Seq<Event> {
        self.delivered@
    }

    /// A fresh notifier: disconnected, with an untouched reconnect budget and
    /// an empty delivery history.
    pub fn new(max_attempts: u32) -> (n: Notifier)
        ensures
            n.spec_state() == SessionState::Disconnected,
            n.spec_attempts() == 0,
            n.spec_max_attempts() == max_attempts,
            n.spec_attempted() =~= Seq::<Event>::empty(),
            n.spec_delivered() =~= Seq::<Event>::empty(),
    {
        Notifier {
            state: SessionState::Disconnected,
            attempts: 0,
            max_attempts,
            attempted: Ghost(Seq::empty()),
            delivered: Ghost(Seq::empty()),
        }
    }

    /// Current lifecycle state.
    pub fn state(&self) -> (s: SessionState)
        ensures
            s == self.spec_state(),
    {
        self.state
    }

    /// A session establishment begins.
    pub fn begin_connect(&mut self)
        ensures
            connect_step(*old(self), *final(self)),
    {
        self.state = SessionState::Connecting;
    }

    /// The session signalled readiness: delivery may resume, and the
    /// reconnect budget is restored.
    pub fn on_session_ready(&mut self)
        ensures
            ready_step(*old(self), *final(self)),
    {
        self.state = SessionState::Connected;
        self.attempts = 0;
    }

    /// The session itself failed.  Within the tolerated number of reconnects
    /// the notifier turns to connecting again, after a backoff that grows
    /// with each consecutive failure; beyond it the failure is fatal.  The
    /// delivery history is untouched either way: nothing already taken is
    /// reprocessed.
    pub fn on_session_lost(&mut self) -> (d: ReconnectDecision)
        ensures
            lost_step(*old(self), *final(self), d),
    {
        if self.attempts < self.max_attempts {
            let delay = backoff_for(self.attempts);
            self.attempts = self.attempts + 1;
            self.state = SessionState::Connecting;
            ReconnectDecision::Retry { delay_ms: delay }
        } else {
            self.state = SessionState::Disconnected;
            ReconnectDecision::Fatal
        }
    }

    /// The outcome of one delivery attempt: the event joins the attempt
    /// history exactly once, and the delivered history exactly when the send
    /// succeeded.  A failed event is skipped, never retried.
    pub fn on_delivery(&mut self, e: Event, ok: bool)
        ensures
            delivery_step(*old(self), *final(self), e, ok),
    {
        proof {
            self.attempted@ = self.attempted@.push(e);
            if ok {
                self.delivered@ = self.delivered@.push(e);
            }
        }
    }
}

/// How `begin_connect` moves the notifier.
pub open spec fn connect_step(pre: Notifier, post: Notifier) -> bool {
    &&& post.spec_state() == SessionState::Connecting
    &&& post.spec_attempts() == pre.spec_attempts()
    &&& post.spec_max_attempts() == pre.spec_max_attempts()
    &&& post.spec_attempted() == pre.spec_attempted()
    &&& post.spec_delivered() == pre.spec_delivered()
}

/// How a ready session moves the notifier.
pub open spec fn ready_step(pre: Notifier, post: Notifier) -> bool {
    &&& post.spec_state() == SessionState::Connected
    &&& post.spec_attempts() == 0
    &&& post.spec_max_attempts() == pre.spec_max_attempts()
    &&& post.spec_attempted() == pre.spec_attempted()
    &&& post.spec_delivered() == pre.spec_delivered()
}

/// How a session failure moves the notifier.
pub open spec fn lost_step(pre: Notifier, post: Notifier, d: ReconnectDecision) -> bool {
    &&& post.spec_max_attempts() == pre.spec_max_attempts()
    &&& post.spec_attempted() == pre.spec_attempted()
    &&& post.spec_delivered() == pre.spec_delivered()
    &&& if pre.spec_attempts() < pre.spec_max_attempts() {
        &&& d == ReconnectDecision::Retry { delay_ms: spec_backoff(pre.spec_attempts()) }
        &&& post.spec_state() == SessionState::Connecting
        &&& post.spec_attempts() == pre.spec_attempts() + 1
    } else {
        &&& d == ReconnectDecision::Fatal
        &&& post.spec_state() == SessionState::Disconnected
        &&& post.spec_attempts() == pre.spec_attempts()
    }
}

/// How a delivery outcome moves the notifier.
pub open spec fn delivery_step(pre: Notifier, post: Notifier, e: Event, ok: bool) -> bool {
    &&& post.spec_state() == pre.spec_state()
    &&& post.spec_attempts() == pre.spec_attempts()
    &&& post.spec_max_attempts() == pre.spec_max_attempts()
    &&& post.spec_attempted() == pre.spec_attempted().push(e)
    &&& post.spec_delivered() == if ok {
        pre.spec_delivered().push(e)
    } else {
        pre.spec_delivered()
    }
}

/// Backoff before reconnect attempt `n`.
pub fn backoff_for(n: u32) -> (d: u64)
    ensures
        d == spec_backoff(n),
{
    if n == 0 {
        BASE_BACKOFF_MS
    } else if n == 1 {
        2 * BASE_BACKOFF_MS
    } else if n == 2 {
        4 * BASE_BACKOFF_MS
    } else if n == 3 {
        8 * BASE_BACKOFF_MS
    } else if n == 4 {
        16 * BASE_BACKOFF_MS
    } else if n == 5 {
        32 * BASE_BACKOFF_MS
    } else {
        64 * BASE_BACKOFF_MS
    }
}

/// The backoff never shrinks as consecutive failures accumulate.
pub proof fn lemma_backoff_monotonic(m: u32, n: u32)
    requires
        m <= n,
    ensures
        spec_backoff(m) <= spec_backoff(n),
{
}

/// At-most-once delivery: one attempt records the event exactly once; a
/// failed attempt leaves the delivered history unchanged, and the event is
/// not retried — the attempt history gains no second copy of it from this
/// step, and the queue (which already released the event) is not involved.
pub proof fn lemma_at_most_once(pre: Notifier, post: Notifier, e: Event)
    requires
        delivery_step(pre, post, e, false),
    ensures
        post.spec_attempted() == pre.spec_attempted().push(e),
        post.spec_delivered() == pre.spec_delivered(),
{
}

/// The delivery loop keeps the notifier's attempt history equal to the
/// queue's hand-out history: one dequeue followed by one delivery outcome
/// preserves the coupling.  With the queue's FIFO law this says delivery is
/// attempted exactly in acceptance order.
pub proof fn lemma_attempts_follow_queue(
    q0: crate::queue::RelayQueue,
    q1: crate::queue::RelayQueue,
    n0: Notifier,
    n1: Notifier,
    e: Event,
    ok: bool,
)
    requires
        n0.spec_attempted() == q0.spec_taken(),
        q1.spec_taken() == q0.spec_taken().push(e),
        delivery_step(n0, n1, e, ok),
    ensures
        n1.spec_attempted() == q1.spec_taken(),
{
}

/// Reconnect preserves progress: a session drop followed by a successful
/// reconnect leaves the attempt and delivery histories exactly as they were
/// — nothing dequeued before the drop is reprocessed — and delivery resumes
/// in the connected state with a restored reconnect budget.
pub proof fn lemma_reconnect_resumes(
    n0: Notifier,
    n1: Notifier,
    n2: Notifier,
    d: ReconnectDecision,
)
    requires
        lost_step(n0, n1, d),
        d is Retry,
        ready_step(n1, n2),
    ensures
        n2.spec_state() == SessionState::Connected,
        n2.spec_attempted() == n0.spec_attempted(),
        n2.spec_delivered() == n0.spec_delivered(),
        n2.spec_attempts() == 0,
{
}

} // verus!
