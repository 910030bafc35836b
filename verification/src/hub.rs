//! The broadcast hub: a bounded fan-out buffer shared by all sessions.
//!
//! The hub keeps the `capacity` most recently published messages together with
//! the total number of messages ever published. Each subscriber owns a
//! [`Subscription`], a cursor into that history. Publishing never waits on a
//! subscriber: when the buffer is full the oldest retained message is evicted,
//! and a subscriber whose cursor has fallen behind the retained window is told
//! how many messages it missed and resumes from the oldest retained one.

use vstd::prelude::*;

verus! {

/// Number of messages the hub retains when no explicit capacity is given.
pub const DEFAULT_CAPACITY: usize = 1000;

/// What one read attempt on a subscription yields.
pub enum RecvOutcome {
    /// The next message in publish order.
    Message(String),
    /// The subscriber fell behind the retained window; this many messages
    /// were skipped. The cursor has been moved to the oldest retained message.
    Lagged(u64),
    /// Nothing is pending; the caller should wait for the next publish.
    Empty,
}

/// A per-subscriber cursor into the hub's publish history.
pub struct Subscription {
    cursor: u64,
}

impl Subscription {
    /// The absolute position in the publish history this subscription
    /// will read next.
    pub closed spec fn cursor(&self) -> nat {
        self.cursor as nat
    }
}

/// The shared fan-out channel. Holds the most recent messages and the live
/// count of active subscriptions.
pub struct BroadcastHub {
    capacity: usize,
    buffer: Vec<String>,
    published: u64,
    subscribers: usize,
    history: Ghost<Seq<Seq<char>>>,
}

impl BroadcastHub {
    /// Every message ever accepted for broadcast, in publish order.
    pub closed spec fn log(&self) -> Seq<Seq<char>> {
        self.history@
    }

    /// How many of the newest messages the hub retains.
    pub closed spec fn capacity(&self) -> nat {
        self.capacity as nat
    }

    /// The live count of active subscriptions.
    pub closed spec fn subscriber_count(&self) -> nat {
        self.subscribers as nat
    }

    /// Position of the oldest message still retained: everything published
    /// before it has been evicted.
    pub open spec fn oldest_retained(&self) -> int {
        if self.log().len() <= self.capacity() {
            0
        } else {
            self.log().len() - self.capacity()
        }
    }

    /// A cursor is valid for this hub when it does not point past the end of
    /// the publish history.
    pub open spec fn valid_sub(&self, sub: Subscription) -> bool {
        sub.cursor() <= self.log().len()
    }

    /// A subscriber is lagged when its cursor has fallen behind the oldest
    /// retained message.
    pub open spec fn lagged(&self, sub: Subscription) -> bool {
        sub.cursor() < self.oldest_retained()
    }

    /// The messages this subscriber has yet to receive: the publish history
    /// from its cursor on, less anything already evicted.
    pub open spec fn pending(&self, sub: Subscription) -> Seq<Seq<char>> {
        let start: int = if sub.cursor() >= self.oldest_retained() {
            sub.cursor() as int
        } else {
            self.oldest_retained()
        };
        self.log().subrange(start, self.log().len() as int)
    }

    /// Internal coherence: the buffer holds exactly the newest retained
    /// suffix of the publish history.
    pub closed spec fn wf(&self) -> bool {
        &&& 1 <= self.capacity
        &&& self.history@.len() == self.published
        &&& self.buffer@.len() == if self.history@.len() <= self.capacity {
            self.history@.len() as int
        } else {
            self.capacity as int
        }
        &&& forall|i: int| 0 <= i < self.buffer@.len() ==> #[trigger] self.buffer@[i]@
            == self.history@[self.history@.len() - self.buffer@.len() + i]
    }

    /// Creates an empty hub retaining at most `capacity` messages.
    pub fn new(capacity: usize) -> (hub: Self)
        requires
            1 <= capacity,
        ensures
            hub.wf(),
            hub.capacity() == capacity,
            hub.log() == Seq::<Seq<char>>::empty(),
            hub.subscriber_count() == 0,
    {
        BroadcastHub {
            capacity,
            buffer: Vec::new(),
            published: 0,
            subscribers: 0,
            history: Ghost(Seq::empty()),
        }
    }

    /// Creates an empty hub with the default capacity.
    pub fn with_default_capacity() -> (hub: Self)
        ensures
            hub.wf(),
            hub.capacity() == DEFAULT_CAPACITY,
            hub.log() == Seq::<Seq<char>>::empty(),
            hub.subscriber_count() == 0,
    {
        Self::new(DEFAULT_CAPACITY)
    }

    /// Registers a new subscriber. Never fails; the returned cursor stands at
    /// the end of the history, so it will observe exactly the messages
    /// published from this point on.
    pub fn subscribe(&mut self) -> (sub: Subscription)
        requires
            old(self).wf(),
            old(self).subscriber_count() < usize::MAX,
        ensures
            final(self).wf(),
            final(self).log() == old(self).log(),
            final(self).capacity() == old(self).capacity(),
            final(self).subscriber_count() == old(self).subscriber_count() + 1,
            sub.cursor() == final(self).log().len(),
            final(self).valid_sub(sub),
            !final(self).lagged(sub),
            final(self).pending(sub) == Seq::<Seq<char>>::empty(),
    {
        self.subscribers = self.subscribers + 1;
        let sub = Subscription { cursor: self.published };
        proof {
            assert(self.pending(sub) =~= Seq::<Seq<char>>::empty());
        }
        sub
    }

    /// Removes one subscriber from the live count. The publish history and
    /// every other subscriber's view of it are untouched.
    pub fn unsubscribe(&mut self, sub: Subscription)
        requires
            old(self).wf(),
        ensures
            final(self).wf(),
            final(self).log() == old(self).log(),
            final(self).capacity() == old(self).capacity(),
            final(self).subscriber_count() == if old(self).subscriber_count() > 0 {
                old(self).subscriber_count() - 1
            } else {
                0
            },
    {
        let _ = sub;
        if self.subscribers > 0 {
            self.subscribers = self.subscribers - 1;
        }
    }

    /// Appends a message to the shared history. Never waits on any
    /// subscriber: a full buffer evicts its oldest message instead. With no
    /// live subscriber the call is a no-op, not an error.
    pub fn publish(&mut self, msg: String)
        requires
            old(self).wf(),
            old(self).log().len() < u64::MAX,
        ensures
            final(self).wf(),
            final(self).capacity() == old(self).capacity(),
            final(self).subscriber_count() == old(self).subscriber_count(),
            old(self).subscriber_count() == 0 ==> *final(self) == *old(self),
            old(self).subscriber_count() > 0 ==> final(self).log() == old(self).log().push(msg@),
    {
        if self.subscribers == 0 {
            return;
        }
        if self.buffer.len() == self.capacity {
            self.buffer.remove(0);
        }
        let ghost m = msg@;
        self.buffer.push(msg);
        self.published = self.published + 1;
        proof {
            self.history@ = self.history@.push(m);
        }
    }

    /// One read attempt for `sub`: the next pending message in publish order,
    /// a lag signal naming how many messages were evicted unread (after which
    /// the cursor stands at the oldest retained message), or `Empty` when the
    /// subscriber has seen everything published so far.
    pub fn recv(&self, sub: &mut Subscription) -> (out: RecvOutcome)
        requires
            self.wf(),
            self.valid_sub(*old(sub)),
        ensures
            self.valid_sub(*final(sub)),
            match out {
                RecvOutcome::Empty => {
                    &&& old(sub).cursor() == self.log().len()
                    &&& *final(sub) == *old(sub)
                },
                RecvOutcome::Lagged(n) => {
                    &&& self.lagged(*old(sub))
                    &&& n == self.oldest_retained() - old(sub).cursor()
                    &&& final(sub).cursor() == self.oldest_retained()
                    &&& !self.lagged(*final(sub))
                    &&& self.oldest_retained() < self.log().len()
                },
                RecvOutcome::Message(m) => {
                    &&& !self.lagged(*old(sub))
                    &&& old(sub).cursor() < self.log().len()
                    &&& m@ == self.log()[old(sub).cursor() as int]
                    &&& m@ == self.pending(*old(sub))[0]
                    &&& final(sub).cursor() == old(sub).cursor() + 1
                },
            },
            self.pending(*final(sub)) == if out is Message {
                self.pending(*old(sub)).drop_first()
            } else {
                self.pending(*old(sub))
            },
    {
        let first: u64 = self.published - (self.buffer.len() as u64);
        if sub.cursor < first {
            let skipped: u64 = first - sub.cursor;
            sub.cursor = first;
            proof {
                assert(self.pending(*sub) =~= self.pending(*old(sub)));
            }
            RecvOutcome::Lagged(skipped)
        } else if sub.cursor == self.published {
            RecvOutcome::Empty
        } else {
            let idx: usize = (sub.cursor - first) as usize;
            let msg = self.buffer[idx].clone();
            sub.cursor = sub.cursor + 1;
            proof {
                assert(self.pending(*sub) =~= self.pending(*old(sub)).drop_first());
            }
            RecvOutcome::Message(msg)
        }
    }

    /// Total number of messages ever accepted for broadcast.
    pub fn published_total(&self) -> (n: u64)
        requires
            self.wf(),
        ensures
            n == self.log().len(),
    {
        self.published
    }

    /// The live count of active subscriptions.
    pub fn active_subscribers(&self) -> (n: usize)
        ensures
            n == self.subscriber_count(),
    {
        self.subscribers
    }
}

/// Fan-out: one publish extends the pending stream of every subscriber that
/// is within the retained window by exactly the published message, at the
/// end. Every such subscriber therefore observes every published message
/// exactly once, in publish order.
pub proof fn lemma_fanout_publish(
    pre: BroadcastHub,
    post: BroadcastHub,
    sub: Subscription,
    msg: Seq<char>,
)
    requires
        pre.valid_sub(sub),
        post.capacity() == pre.capacity(),
        post.log() == pre.log().push(msg),
        !post.lagged(sub),
    ensures
        post.valid_sub(sub),
        post.pending(sub) == pre.pending(sub).push(msg),
        post.pending(sub).len() == pre.pending(sub).len() + 1,
        post.pending(sub)[post.pending(sub).len() - 1] == msg,
{
    assert(post.pending(sub) =~= pre.pending(sub).push(msg));
}

/// No self-block: a publish step asks nothing of any subscriber — however
/// far behind a subscription stands, it never obstructs the publisher, and
/// the publish leaves it valid. At worst a slow subscriber becomes lagged.
pub proof fn lemma_publish_never_blocked(
    pre: BroadcastHub,
    post: BroadcastHub,
    any: Subscription,
    msg: Seq<char>,
)
    requires
        pre.valid_sub(any),
        post.capacity() == pre.capacity(),
        post.log() == pre.log().push(msg),
    ensures
        post.valid_sub(any),
{
}

/// Lag recovery: a lagged subscriber has missed exactly the messages before
/// the oldest retained one, and once its cursor is fast-forwarded there — as
/// `recv` does when it signals the lag — it is current again with the whole
/// retained window, never empty, still pending: it resumes receiving.
pub proof fn lemma_lag_recovery(hub: BroadcastHub, sub: Subscription, recovered: Subscription)
    requires
        hub.wf(),
        hub.lagged(sub),
        recovered.cursor() == hub.oldest_retained(),
    ensures
        hub.oldest_retained() - sub.cursor() > 0,
        !hub.lagged(recovered),
        hub.valid_sub(recovered),
        hub.pending(recovered) == hub.log().subrange(
            hub.oldest_retained(),
            hub.log().len() as int,
        ),
        hub.pending(recovered).len() == hub.capacity(),
        hub.pending(recovered).len() > 0,
{
}

/// Disconnect isolation: any step that leaves the publish history and the
/// capacity unchanged — releasing another session's subscription does exactly
/// that — changes nothing about what any other subscriber has pending,
/// whether it is lagged, or whether it is valid.
pub proof fn lemma_disconnect_isolation(pre: BroadcastHub, post: BroadcastHub, other: Subscription)
    requires
        post.log() == pre.log(),
        post.capacity() == pre.capacity(),
    ensures
        post.pending(other) == pre.pending(other),
        post.lagged(other) == pre.lagged(other),
        post.valid_sub(other) == pre.valid_sub(other),
{
}

} // verus!
