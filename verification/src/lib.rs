//! A real-time chat relay: a bounded multi-subscriber broadcast hub, the
//! per-connection session state machine that publishes inbound text frames and
//! forwards broadcast messages outbound, and the acceptor step that turns a
//! successful connection upgrade into a subscribed session.
//!
//! The hub retains the most recent `capacity` published messages. A subscriber
//! that falls behind the retained window receives a lag signal with the number
//! of messages skipped and then resumes from the oldest retained message.

pub mod acceptor;
pub mod hub;
pub mod session;
