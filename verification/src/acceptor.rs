//! Turning connection upgrades into live sessions.
//!
//! The acceptor owns the single long-lived reference to the shared hub and
//! handles one upgrade request at a time: a successful handshake produces one
//! fresh session subscribed to the hub; a failed handshake produces nothing —
//! the failure is reported to the connecting client at the protocol level by
//! the caller and never reaches the hub or any session.

use crate::hub::BroadcastHub;
use crate::session::ConnectionSession;
use vstd::prelude::*;

verus! {

/// One accept step. `upgraded` reports whether the handshake completed; only
/// then is a session created and subscribed. On failure the hub is untouched.
pub fn accept_upgrade(hub: &mut BroadcastHub, upgraded: bool) -> (r: Option<ConnectionSession>)
    requires
        old(hub).wf(),
        old(hub).subscriber_count() < usize::MAX,
    ensures
        final(hub).wf(),
        final(hub).log() == old(hub).log(),
        final(hub).capacity() == old(hub).capacity(),
        r is Some <==> upgraded,
        r matches Some(s) ==> s.state() is Connected && s.wf(*final(hub)) && s.pending(
            *final(hub),
        ) == Seq::<Seq<char>>::empty(),
        upgraded ==> final(hub).subscriber_count() == old(hub).subscriber_count() + 1,
        !upgraded ==> *final(hub) == *old(hub),
{
    if upgraded {
        Some(ConnectionSession::start(hub))
    } else {
        None
    }
}

} // verus!
