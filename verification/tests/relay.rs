use chat_relay::acceptor::accept_upgrade;
use chat_relay::hub::{BroadcastHub, RecvOutcome, DEFAULT_CAPACITY};
use chat_relay::session::{ConnectionSession, InboundEvent, OutboundStep};

fn expect_frame(session: &mut ConnectionSession, hub: &BroadcastHub) -> String {
    match session.next_outbound(hub) {
        OutboundStep::Deliver(m) => m,
        OutboundStep::Wait => panic!("expected a frame to deliver"),
    }
}

#[test]
fn two_sessions_fanout_hello() {
    let mut hub = BroadcastHub::with_default_capacity();
    let mut a = ConnectionSession::start(&mut hub);
    let mut b = ConnectionSession::start(&mut hub);

    a.on_inbound(&mut hub, InboundEvent::Text("hello".to_string()));

    assert_eq!(expect_frame(&mut a, &hub), "hello");
    assert_eq!(expect_frame(&mut b, &hub), "hello");

    assert!(matches!(a.next_outbound(&hub), OutboundStep::Wait));
    assert!(matches!(b.next_outbound(&hub), OutboundStep::Wait));
}

#[test]
fn fanout_order_is_publish_order() {
    let mut hub = BroadcastHub::new(16);
    let mut a = ConnectionSession::start(&mut hub);
    let mut b = ConnectionSession::start(&mut hub);

    a.on_inbound(&mut hub, InboundEvent::Text("one".to_string()));
    b.on_inbound(&mut hub, InboundEvent::Text("two".to_string()));
    a.on_inbound(&mut hub, InboundEvent::Text("three".to_string()));

    for s in [&mut a, &mut b] {
        assert_eq!(expect_frame(s, &hub), "one");
        assert_eq!(expect_frame(s, &hub), "two");
        assert_eq!(expect_frame(s, &hub), "three");
        assert!(matches!(s.next_outbound(&hub), OutboundStep::Wait));
    }
}

#[test]
fn slow_subscriber_gets_lag_signal_at_default_capacity() {
    let mut hub = BroadcastHub::with_default_capacity();
    assert_eq!(DEFAULT_CAPACITY, 1000);
    let mut sub = hub.subscribe();

    for i in 0..1001u32 {
        hub.publish(format!("m{i}"));
    }

    match hub.recv(&mut sub) {
        RecvOutcome::Lagged(skipped) => assert_eq!(skipped, 1),
        RecvOutcome::Message(m) => panic!("expected a lag signal, got message {m:?}"),
        RecvOutcome::Empty => panic!("expected a lag signal, got nothing"),
    }

    match hub.recv(&mut sub) {
        RecvOutcome::Message(m) => assert_eq!(m, "m1"),
        _ => panic!("expected the oldest retained message"),
    }
}

#[test]
fn lag_reports_skipped_count_and_recovers() {
    let mut hub = BroadcastHub::new(2);
    let mut sub = hub.subscribe();

    for text in ["a", "b", "c", "d", "e"] {
        hub.publish(text.to_string());
    }

    match hub.recv(&mut sub) {
        RecvOutcome::Lagged(skipped) => assert_eq!(skipped, 3),
        _ => panic!("expected a lag signal"),
    }
    match hub.recv(&mut sub) {
        RecvOutcome::Message(m) => assert_eq!(m, "d"),
        _ => panic!("expected message d"),
    }
    match hub.recv(&mut sub) {
        RecvOutcome::Message(m) => assert_eq!(m, "e"),
        _ => panic!("expected message e"),
    }
    assert!(matches!(hub.recv(&mut sub), RecvOutcome::Empty));

    hub.publish("fresh".to_string());
    match hub.recv(&mut sub) {
        RecvOutcome::Message(m) => assert_eq!(m, "fresh"),
        _ => panic!("expected the fresh message after recovery"),
    }
}

#[test]
fn lagged_session_silently_resumes() {
    let mut hub = BroadcastHub::new(2);
    let mut s = ConnectionSession::start(&mut hub);

    for text in ["a", "b", "c", "d"] {
        s.on_inbound(&mut hub, InboundEvent::Text(text.to_string()));
    }

    // The session consumes the lag signal itself and hands over the oldest
    // retained message instead of surfacing a notice.
    assert_eq!(expect_frame(&mut s, &hub), "c");
    assert_eq!(expect_frame(&mut s, &hub), "d");
    assert!(matches!(s.next_outbound(&hub), OutboundStep::Wait));
}

#[test]
fn publish_without_subscribers_is_noop() {
    let mut hub = BroadcastHub::with_default_capacity();
    hub.publish("into the void".to_string());
    assert_eq!(hub.published_total(), 0);

    let mut late = hub.subscribe();
    assert!(matches!(hub.recv(&mut late), RecvOutcome::Empty));
}

#[test]
fn subscriber_sees_only_messages_published_after_subscribing() {
    let mut hub = BroadcastHub::new(8);
    let mut early = hub.subscribe();
    hub.publish("before".to_string());

    let mut late = hub.subscribe();
    hub.publish("after".to_string());

    match hub.recv(&mut late) {
        RecvOutcome::Message(m) => assert_eq!(m, "after"),
        _ => panic!("late subscriber expected only the later message"),
    }
    assert!(matches!(hub.recv(&mut late), RecvOutcome::Empty));

    match hub.recv(&mut early) {
        RecvOutcome::Message(m) => assert_eq!(m, "before"),
        _ => panic!("early subscriber expected both messages"),
    }
    match hub.recv(&mut early) {
        RecvOutcome::Message(m) => assert_eq!(m, "after"),
        _ => panic!("early subscriber expected both messages"),
    }
}

#[test]
fn disconnect_does_not_affect_other_sessions() {
    let mut hub = BroadcastHub::with_default_capacity();
    let mut a = ConnectionSession::start(&mut hub);
    let mut b = ConnectionSession::start(&mut hub);

    b.on_inbound(&mut hub, InboundEvent::Text("first".to_string()));

    // A's connection is forcibly cut: read error, then release.
    a.on_inbound(&mut hub, InboundEvent::ReadError);
    assert!(!a.is_connected());
    a.close(&mut hub);
    assert!(a.is_closed());
    assert_eq!(hub.active_subscribers(), 1);

    b.on_inbound(&mut hub, InboundEvent::Text("second".to_string()));
    assert_eq!(expect_frame(&mut b, &hub), "first");
    assert_eq!(expect_frame(&mut b, &hub), "second");
}

#[test]
fn closing_a_closed_session_is_a_noop() {
    let mut hub = BroadcastHub::with_default_capacity();
    let mut s = ConnectionSession::start(&mut hub);
    assert_eq!(hub.active_subscribers(), 1);

    s.close(&mut hub);
    assert!(s.is_closed());
    assert_eq!(hub.active_subscribers(), 0);

    s.close(&mut hub);
    assert!(s.is_closed());
    assert_eq!(hub.active_subscribers(), 0);
}

#[test]
fn close_frame_moves_session_out_of_connected() {
    let mut hub = BroadcastHub::with_default_capacity();
    let mut s = ConnectionSession::start(&mut hub);
    assert!(s.is_connected());
    s.on_inbound(&mut hub, InboundEvent::CloseFrame);
    assert!(!s.is_connected());
    assert!(!s.is_closed());
}

#[test]
fn end_of_stream_moves_session_out_of_connected() {
    let mut hub = BroadcastHub::with_default_capacity();
    let mut s = ConnectionSession::start(&mut hub);
    s.on_inbound(&mut hub, InboundEvent::EndOfStream);
    assert!(!s.is_connected());
}

#[test]
fn control_frames_are_ignored() {
    let mut hub = BroadcastHub::with_default_capacity();
    let mut s = ConnectionSession::start(&mut hub);
    s.on_inbound(&mut hub, InboundEvent::Control);
    assert!(s.is_connected());
    assert_eq!(hub.published_total(), 0);
}

#[test]
fn nothing_is_published_through_a_closing_session() {
    let mut hub = BroadcastHub::with_default_capacity();
    let mut s = ConnectionSession::start(&mut hub);
    s.on_inbound(&mut hub, InboundEvent::CloseFrame);
    s.on_inbound(&mut hub, InboundEvent::Text("too late".to_string()));
    assert_eq!(hub.published_total(), 0);
}

#[test]
fn nothing_is_delivered_through_a_closing_session() {
    let mut hub = BroadcastHub::with_default_capacity();
    let mut a = ConnectionSession::start(&mut hub);
    let mut b = ConnectionSession::start(&mut hub);
    b.on_inbound(&mut hub, InboundEvent::Text("pending".to_string()));
    a.on_inbound(&mut hub, InboundEvent::ReadError);
    assert!(matches!(a.next_outbound(&hub), OutboundStep::Wait));
}

#[test]
fn failed_write_closes_the_session() {
    let mut hub = BroadcastHub::with_default_capacity();
    let mut a = ConnectionSession::start(&mut hub);
    let mut b = ConnectionSession::start(&mut hub);
    b.on_inbound(&mut hub, InboundEvent::Text("hi".to_string()));

    let frame = expect_frame(&mut a, &hub);
    assert_eq!(frame, "hi");
    a.on_send_result(false);
    assert!(!a.is_connected());
}

#[test]
fn successful_write_keeps_the_session_connected() {
    let mut hub = BroadcastHub::with_default_capacity();
    let mut a = ConnectionSession::start(&mut hub);
    let mut b = ConnectionSession::start(&mut hub);
    b.on_inbound(&mut hub, InboundEvent::Text("hi".to_string()));

    expect_frame(&mut a, &hub);
    a.on_send_result(true);
    assert!(a.is_connected());
}

#[test]
fn successful_upgrade_creates_a_subscribed_session() {
    let mut hub = BroadcastHub::with_default_capacity();
    let s = accept_upgrade(&mut hub, true);
    assert!(s.is_some());
    assert!(s.unwrap().is_connected());
    assert_eq!(hub.active_subscribers(), 1);
}

#[test]
fn failed_upgrade_never_reaches_the_hub() {
    let mut hub = BroadcastHub::with_default_capacity();
    let s = accept_upgrade(&mut hub, false);
    assert!(s.is_none());
    assert_eq!(hub.active_subscribers(), 0);
    assert_eq!(hub.published_total(), 0);
}

#[test]
fn empty_read_on_fresh_subscription() {
    let mut hub = BroadcastHub::new(4);
    let mut sub = hub.subscribe();
    assert!(matches!(hub.recv(&mut sub), RecvOutcome::Empty));
}

#[test]
fn own_message_comes_back_to_sender() {
    let mut hub = BroadcastHub::with_default_capacity();
    let mut a = ConnectionSession::start(&mut hub);
    a.on_inbound(&mut hub, InboundEvent::Text("echo".to_string()));
    assert_eq!(expect_frame(&mut a, &hub), "echo");
}
