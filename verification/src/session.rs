//! The per-connection session: a state machine binding one bidirectional
//! connection to one hub subscription.
//!
//! A session starts `Connected` with a fresh subscription. Two waits then race
//! for its whole connected life: the next inbound frame, and the next message
//! (or lag signal) from the subscription. The caller performs the waiting and
//! the frame I/O and reports each outcome here; every decision — what to
//! publish, what to deliver, when to stop — is made by these methods. A close
//! frame, end of stream, read error, or failed write moves the session to
//! `Closing`; releasing it moves it to `Closed`, the terminal state. No
//! message is ever delivered through a `Closing` or `Closed` session.
//!
//! A lag signal from the subscription is consumed silently: the session
//! resumes from the oldest retained message without surfacing a notice to the
//! client, matching the hub's best-effort delivery.

use crate::hub::{BroadcastHub, RecvOutcome, Subscription};
use vstd::prelude::*;

verus! {

/// Lifecycle of one connection's relay loop. `Closed` is terminal.
#[derive(Clone, Copy, PartialEq, Eq, Structural)]
pub enum SessionState {
    /// Both relay directions are live.
    Connected,
    /// A close condition was observed; no further traffic is relayed.
    Closing,
    /// The subscription has been released and the session is finished.
    Closed,
}

/// One frame or condition observed on the inbound side of the connection.
pub enum InboundEvent {
    /// A text frame; the whole payload is one chat message.
    Text(String),
    /// A close frame from the peer.
    CloseFrame,
    /// The inbound stream ended.
    EndOfStream,
    /// Reading the next frame failed.
    ReadError,
    /// Any other frame (ping or similar control traffic).
    Control,
}

impl InboundEvent {
    /// The conditions that end the connected phase: a close frame, the end of
    /// the inbound stream, or a read error.
    pub open spec fn closes_session(&self) -> bool {
        self is CloseFrame || self is EndOfStream || self is ReadError
    }
}

/// What the caller must do next on the outbound side.
pub enum OutboundStep {
    /// Write this message to the connection as a text frame, then report the
    /// write's outcome through `on_send_result`.
    Deliver(String),
    /// Nothing is pending: wait until the hub sees the next publish.
    Wait,
}

/// One connected client's relay state: the session's lifecycle state and its
/// hub subscription. Exactly one session exists per connection.
pub struct ConnectionSession {
    state: SessionState,
    sub: Option<Subscription>,
}

impl ConnectionSession {
    /// Where the session stands in its lifecycle.
    pub closed spec fn state(&self) -> SessionState {
        self.state
    }

    /// The hub subscription this session holds, if it has not been released.
    pub closed spec fn subscription(&self) -> Option<Subscription> {
        self.sub
    }

    /// A session holds its subscription, valid for the hub, for its whole
    /// life; only a `Closed` session has released it.
    pub open spec fn wf(&self, hub: BroadcastHub) -> bool {
        match self.subscription() {
            Some(sub) => hub.valid_sub(sub) && !(self.state() is Closed),
            None => self.state() is Closed,
        }
    }

    /// The messages this session has yet to forward to its connection.
    pub open spec fn pending(&self, hub: BroadcastHub) -> Seq<Seq<char>> {
        match self.subscription() {
            Some(sub) => hub.pending(sub),
            None => Seq::empty(),
        }
    }

    /// On entry a session subscribes to the hub: it starts `Connected`, with
    /// nothing pending, and will observe exactly the messages published from
    /// this point on.
    pub fn start(hub: &mut BroadcastHub) -> (s: ConnectionSession)
        requires
            old(hub).wf(),
            old(hub).subscriber_count() < usize::MAX,
        ensures
            final(hub).wf(),
            final(hub).log() == old(hub).log(),
            final(hub).capacity() == old(hub).capacity(),
            final(hub).subscriber_count() == old(hub).subscriber_count() + 1,
            s.state() is Connected,
            s.wf(*final(hub)),
            s.pending(*final(hub)) == Seq::<Seq<char>>::empty(),
    {
        let sub = hub.subscribe();
        ConnectionSession { state: SessionState::Connected, sub: Some(sub) }
    }

    /// Handles one inbound event. While `Connected`: a text frame is
    /// published verbatim to the hub; a close frame, end of stream, or read
    /// error moves the session to `Closing`; any other frame is ignored. In
    /// any other state the event changes nothing — in particular, nothing is
    /// ever published through a session that is shutting down.
    pub fn on_inbound(&mut self, hub: &mut BroadcastHub, ev: InboundEvent)
        requires
            old(self).wf(*old(hub)),
            old(hub).wf(),
            old(hub).log().len() < u64::MAX,
        ensures
            final(hub).wf(),
            final(self).wf(*final(hub)),
            final(hub).capacity() == old(hub).capacity(),
            final(hub).subscriber_count() == old(hub).subscriber_count(),
            final(self).subscription() == old(self).subscription(),
            ev matches InboundEvent::Text(t) ==> ((old(self).state() is Connected && old(hub).subscriber_count() > 0) ==> final(hub).log() == old(hub).log().push(t@)),
            !(ev is Text && old(self).state() is Connected && old(hub).subscriber_count() > 0)
                ==> *final(hub) == *old(hub),
            ev.closes_session() && old(self).state() is Connected ==> final(self).state()
                is Closing,
            !(ev.closes_session() && old(self).state() is Connected) ==> final(self).state()
                == old(self).state(),
    {
        match ev {
            InboundEvent::Text(t) => {
                if self.state == SessionState::Connected {
                    hub.publish(t);
                }
            },
            InboundEvent::Control => {},
            _ => {
                if self.state == SessionState::Connected {
                    self.state = SessionState::Closing;
                }
            },
        }
    }

    /// One outbound step. While `Connected`, takes the next pending message
    /// from the subscription; a lag signal is consumed silently, so the
    /// caller either gets the oldest message still owed to this subscriber or
    /// learns that nothing is pending and it must wait for the next publish.
    /// Outside `Connected` nothing is ever delivered.
    pub fn next_outbound(&mut self, hub: &BroadcastHub) -> (step: OutboundStep)
        requires
            old(self).wf(*hub),
            hub.wf(),
        ensures
            final(self).wf(*hub),
            final(self).state() == old(self).state(),
            step is Deliver ==> old(self).state() is Connected,
            step is Deliver ==> old(self).pending(*hub).len() > 0,
            step matches OutboundStep::Deliver(m) ==> m@ == old(self).pending(*hub)[0],
            step is Deliver ==> final(self).pending(*hub) == old(self).pending(
                *hub,
            ).drop_first(),
            step is Wait ==> *final(self) == *old(self),
            step is Wait && old(self).state() is Connected ==> old(self).pending(*hub).len()
                == 0,
    {
        if !(self.state == SessionState::Connected) {
            return OutboundStep::Wait;
        }
        match &mut self.sub {
            Some(sub) => {
                match hub.recv(sub) {
                    RecvOutcome::Message(m) => OutboundStep::Deliver(m),
                    RecvOutcome::Empty => OutboundStep::Wait,
                    RecvOutcome::Lagged(_) => {
                        match hub.recv(sub) {
                            RecvOutcome::Message(m) => OutboundStep::Deliver(m),
                            _ => {
                                // a lag signal leaves the whole retained
                                // window pending, so a second read cannot
                                // be empty or lagged again
                                proof {
                                    assert(false);
                                }
                                OutboundStep::Wait
                            },
                        }
                    },
                }
            },
            None => OutboundStep::Wait,
        }
    }

    /// Records the outcome of writing a delivered message to the connection:
    /// a failed write moves a `Connected` session to `Closing`; everything
    /// else is unchanged.
    pub fn on_send_result(&mut self, ok: bool)
        ensures
            final(self).subscription() == old(self).subscription(),
            old(self).state() is Connected && !ok ==> final(self).state() is Closing,
            !(old(self).state() is Connected && !ok) ==> final(self).state() == old(self).state(),
    {
        if !ok && self.state == SessionState::Connected {
            self.state = SessionState::Closing;
        }
    }

    /// Releases the session: its subscription is unsubscribed from the hub
    /// exactly once and the state becomes `Closed`. Closing an already
    /// `Closed` session is a no-op — the hub is untouched and nothing is
    /// released twice.
    pub fn close(&mut self, hub: &mut BroadcastHub)
        requires
            old(self).wf(*old(hub)),
            old(hub).wf(),
        ensures
            final(hub).wf(),
            final(self).state() is Closed,
            final(self).subscription() is None,
            final(self).wf(*final(hub)),
            final(hub).log() == old(hub).log(),
            final(hub).capacity() == old(hub).capacity(),
            old(self).state() is Closed ==> *final(self) == *old(self) && *final(hub) == *old(hub),
            !(old(self).state() is Closed) && old(hub).subscriber_count() > 0 ==> final(hub).subscriber_count() == old(hub).subscriber_count() - 1,
            !(old(self).state() is Closed) && old(hub).subscriber_count() == 0 ==> final(hub).subscriber_count() == 0,
    {
        if self.state == SessionState::Closed {
            return;
        }
        let sub = self.sub.take();
        match sub {
            Some(s) => hub.unsubscribe(s),
            None => {},
        }
        self.state = SessionState::Closed;
    }

    /// True while the session is `Connected` and its relay loop should keep
    /// racing the two waits.
    pub fn is_connected(&self) -> (b: bool)
        ensures
            b == (self.state() is Connected),
    {
        self.state == SessionState::Connected
    }

    /// True once the session is `Closed`.
    pub fn is_closed(&self) -> (b: bool)
        ensures
            b == (self.state() is Closed),
    {
        self.state == SessionState::Closed
    }
}

/// Fan-out: a publish that lands while a session's subscription is within
/// the retained window appends exactly that message to the end of the
/// session's pending stream — every such session observes every message
/// exactly once, in publish order.
pub proof fn lemma_session_fanout(
    pre_hub: BroadcastHub,
    post_hub: BroadcastHub,
    s: ConnectionSession,
    sub: Subscription,
    msg: Seq<char>,
)
    requires
        s.wf(pre_hub),
        s.subscription() == Some(sub),
        post_hub.capacity() == pre_hub.capacity(),
        post_hub.log() == pre_hub.log().push(msg),
        !post_hub.lagged(sub),
    ensures
        s.wf(post_hub),
        s.pending(post_hub) == s.pending(pre_hub).push(msg),
{
    crate::hub::lemma_fanout_publish(pre_hub, post_hub, sub, msg);
}

/// Disconnect isolation: a step that leaves the publish history and the
/// capacity unchanged — closing another session does exactly that — changes
/// nothing about any other session: not its well-formedness and not what it
/// has pending.
pub proof fn lemma_session_isolation(
    pre_hub: BroadcastHub,
    post_hub: BroadcastHub,
    other: ConnectionSession,
)
    requires
        post_hub.log() == pre_hub.log(),
        post_hub.capacity() == pre_hub.capacity(),
    ensures
        other.wf(post_hub) == other.wf(pre_hub),
        other.pending(post_hub) == other.pending(pre_hub),
{
    match other.subscription() {
        Some(sub) => {
            crate::hub::lemma_disconnect_isolation(pre_hub, post_hub, sub);
        },
        None => {},
    }
}

} // verus!
