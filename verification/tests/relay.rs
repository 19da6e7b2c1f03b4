use music_companion::error::{Reach, RelayError};
use music_companion::listener::{
    AcceptFailure, AcceptOutcome, BindOutcome, ListenAddress, ListenerAction, ListenerState,
    RelayService, UpgradeOutcome, RELAY_PORT,
};
use music_companion::message::{
    acknowledgment, topic, ControlKind, InboundMessage, RelayEvent,
};
use music_companion::router::{
    Liveness, MessageRouter, RouterAction, RouterEvent, RouterState, Stage,
};

fn text(payload: &str) -> RouterEvent {
    RouterEvent::Received(InboundMessage::Text(payload.to_string()))
}

fn binary(payload: &[u8]) -> RouterEvent {
    RouterEvent::Received(InboundMessage::Binary(payload.to_vec()))
}

fn publish(payload: &str) -> RouterAction {
    RouterAction::Publish(RelayEvent::new(payload.to_string()))
}

#[test]
fn ping_is_published_and_acknowledged() {
    let mut listener = RelayService::start(ListenAddress::relay(), BindOutcome::Bound).unwrap();
    assert_eq!(listener.on_accept(AcceptOutcome::Accepted), ListenerAction::Spawn);
    let mut router = RelayService::begin_connection(UpgradeOutcome::Upgraded).unwrap();

    match router.step(text("ping")) {
        RouterAction::Publish(event) => {
            assert_eq!(event.topic(), "relay-message");
            assert_eq!(event.payload(), "ping");
        }
        other => panic!("expected a publish, got {:?}", other),
    }
    assert_eq!(router.step(RouterEvent::Published), RouterAction::Acknowledge);
    assert_eq!(acknowledgment(), "Received");
    assert_eq!(router.step(RouterEvent::AcknowledgmentSent), RouterAction::Receive);

    assert_eq!(router.step(RouterEvent::StreamEnded), RouterAction::Release);
    assert_eq!(router.state(), RouterState::Closed);
    assert_eq!(router.liveness(), Liveness::Closing);
    assert_eq!(router.step(RouterEvent::Released), RouterAction::Nothing);
    assert_eq!(router.liveness(), Liveness::Closed);

    assert_eq!(listener.state(), ListenerState::Accepting);
    assert_eq!(listener.on_accept(AcceptOutcome::Accepted), ListenerAction::Spawn);
}

#[test]
fn messages_are_published_and_acknowledged_in_order() {
    let mut router = MessageRouter::new();
    let trace = router.replay(vec![
        text("one"),
        RouterEvent::Published,
        RouterEvent::AcknowledgmentSent,
        binary(b"two"),
        RouterEvent::Published,
        RouterEvent::AcknowledgmentSent,
        text("three"),
        RouterEvent::Published,
        RouterEvent::AcknowledgmentSent,
    ]);
    assert_eq!(
        trace,
        vec![
            publish("one"),
            RouterAction::Acknowledge,
            RouterAction::Receive,
            publish("two"),
            RouterAction::Acknowledge,
            RouterAction::Receive,
            publish("three"),
            RouterAction::Acknowledge,
            RouterAction::Receive,
        ]
    );
    assert_eq!(router.state(), RouterState::Running);
    assert_eq!(router.stage(), Stage::Receiving);
}

#[test]
fn replay_of_nothing_changes_nothing() {
    let mut router = MessageRouter::new();
    assert_eq!(router.replay(Vec::new()), Vec::new());
    assert_eq!(router.stage(), Stage::Receiving);
}

#[test]
fn control_and_invalid_frames_leave_no_trace() {
    let mut router = MessageRouter::new();
    let trace = router.replay(vec![
        RouterEvent::Received(InboundMessage::Control(ControlKind::Ping)),
        RouterEvent::Received(InboundMessage::Control(ControlKind::Pong)),
        RouterEvent::Received(InboundMessage::Control(ControlKind::Close)),
        RouterEvent::Received(InboundMessage::Invalid),
    ]);
    assert_eq!(trace, vec![RouterAction::Receive; 4]);
    assert_eq!(router.state(), RouterState::Running);
    assert_eq!(router.liveness(), Liveness::Open);
}

#[test]
fn classes_of_messages() {
    assert!(InboundMessage::Text(String::new()).is_forwarded());
    assert!(InboundMessage::Binary(Vec::new()).is_forwarded());
    assert!(!InboundMessage::Control(ControlKind::Ping).is_forwarded());
    assert!(!InboundMessage::Control(ControlKind::Pong).is_forwarded());
    assert!(!InboundMessage::Control(ControlKind::Close).is_forwarded());
    assert!(!InboundMessage::Invalid.is_forwarded());
    assert_eq!(InboundMessage::Invalid.into_event(), None);
    assert_eq!(InboundMessage::Control(ControlKind::Close).into_event(), None);
}

#[test]
fn empty_text_is_still_forwarded() {
    let mut router = MessageRouter::new();
    assert_eq!(router.step(text("")), publish(""));
}

#[test]
fn binary_payload_is_read_as_utf8() {
    let event = InboundMessage::Binary("grüß dich".as_bytes().to_vec()).into_event().unwrap();
    assert_eq!(event.payload(), "grüß dich");
    assert_eq!(event.topic(), "relay-message");
    assert_eq!(event.into_payload(), "grüß dich".to_string());
}

#[test]
fn malformed_binary_payload_is_forwarded_with_replacements() {
    let event = InboundMessage::Binary(vec![0x66, 0xff, 0x6f]).into_event().unwrap();
    assert_eq!(event.payload(), "f\u{fffd}o");
}

#[test]
fn topic_and_acknowledgment_are_fixed() {
    assert_eq!(topic(), "relay-message");
    assert_eq!(acknowledgment(), "Received");
    assert_eq!(RelayEvent::new("x".to_string()).topic(), topic());
}

#[test]
fn failed_publish_does_not_end_the_connection() {
    let mut router = MessageRouter::new();
    let trace = router.replay(vec![
        text("a"),
        RouterEvent::PublishFailed,
        RouterEvent::AcknowledgmentSent,
        text("b"),
    ]);
    assert_eq!(
        trace,
        vec![publish("a"), RouterAction::Acknowledge, RouterAction::Receive, publish("b")]
    );
    assert_eq!(router.state(), RouterState::Running);
}

#[test]
fn failed_acknowledgment_ends_the_connection_in_error() {
    let mut router = MessageRouter::new();
    let trace = router.replay(vec![
        text("a"),
        RouterEvent::Published,
        RouterEvent::AcknowledgmentFailed,
        text("b"),
        RouterEvent::Released,
        text("c"),
    ]);
    assert_eq!(
        trace,
        vec![
            publish("a"),
            RouterAction::Acknowledge,
            RouterAction::Release,
            RouterAction::Nothing,
            RouterAction::Nothing,
            RouterAction::Nothing,
        ]
    );
    assert_eq!(router.state(), RouterState::Errored);
    assert_eq!(router.liveness(), Liveness::Closed);
}

#[test]
fn failed_receive_closes_without_an_event() {
    let mut router = MessageRouter::new();
    assert_eq!(router.step(RouterEvent::ReceiveFailed), RouterAction::Release);
    assert_eq!(router.state(), RouterState::Closed);
    assert_eq!(router.liveness(), Liveness::Closing);
}

#[test]
fn close_frame_is_followed_by_the_end_of_the_stream() {
    let mut router = MessageRouter::new();
    let trace = router.replay(vec![
        RouterEvent::Received(InboundMessage::Control(ControlKind::Close)),
        RouterEvent::StreamEnded,
    ]);
    assert_eq!(trace, vec![RouterAction::Receive, RouterAction::Release]);
    assert_eq!(router.state(), RouterState::Closed);
}

#[test]
fn fault_ends_the_connection_with_a_release() {
    for stage_events in [vec![], vec![text("a")], vec![text("a"), RouterEvent::Published]] {
        let mut router = MessageRouter::new();
        router.replay(stage_events);
        assert_eq!(router.state(), RouterState::Running);
        assert_eq!(router.step(RouterEvent::Faulted), RouterAction::Release);
        assert_eq!(router.state(), RouterState::Errored);
    }
}

#[test]
fn event_out_of_turn_is_a_fault() {
    let mut router = MessageRouter::new();
    assert_eq!(router.step(RouterEvent::AcknowledgmentSent), RouterAction::Release);
    assert_eq!(router.state(), RouterState::Errored);

    let mut router = MessageRouter::new();
    router.step(text("a"));
    assert_eq!(router.step(text("b")), RouterAction::Release);
    assert_eq!(router.state(), RouterState::Errored);

    let mut router = MessageRouter::new();
    router.step(text("a"));
    router.step(RouterEvent::Published);
    assert_eq!(router.step(RouterEvent::StreamEnded), RouterAction::Release);
    assert_eq!(router.state(), RouterState::Errored);
}

#[test]
fn release_is_asked_for_once() {
    let mut router = MessageRouter::new();
    let trace = router.replay(vec![
        RouterEvent::StreamEnded,
        RouterEvent::StreamEnded,
        RouterEvent::Faulted,
        RouterEvent::Released,
        RouterEvent::Released,
    ]);
    let releases = trace.iter().filter(|action| **action == RouterAction::Release).count();
    assert_eq!(releases, 1);
    assert_eq!(trace[0], RouterAction::Release);
    assert_eq!(router.stage(), Stage::Released(music_companion::router::Ending::Closed));
}

#[test]
fn fault_on_one_connection_leaves_the_other() {
    let mut a = MessageRouter::new();
    let mut b = MessageRouter::new();
    assert_eq!(b.step(text("b1")), publish("b1"));
    assert_eq!(a.step(text("a1")), publish("a1"));
    assert_eq!(a.step(RouterEvent::Faulted), RouterAction::Release);
    assert_eq!(b.step(RouterEvent::Published), RouterAction::Acknowledge);
    assert_eq!(a.step(RouterEvent::Released), RouterAction::Nothing);
    assert_eq!(b.step(RouterEvent::AcknowledgmentSent), RouterAction::Receive);
    assert_eq!(b.step(text("b2")), publish("b2"));
    assert_eq!(a.state(), RouterState::Errored);
    assert_eq!(b.state(), RouterState::Running);

    let mut alone = MessageRouter::new();
    alone.replay(vec![
        text("b1"),
        RouterEvent::Published,
        RouterEvent::AcknowledgmentSent,
        text("b2"),
    ]);
    assert_eq!(alone.stage(), b.stage());
}

#[test]
fn bound_relay_accepts_connections() {
    let address = ListenAddress::new([127, 0, 0, 1], 4455).unwrap();
    let mut listener = RelayService::start(address, BindOutcome::Bound).unwrap();
    assert_eq!(listener.address(), address);
    assert_eq!(listener.state(), ListenerState::Accepting);
    assert_eq!(listener.on_accept(AcceptOutcome::Accepted), ListenerAction::Spawn);
    assert_eq!(listener.state(), ListenerState::Accepting);
}

#[test]
fn second_start_on_the_same_address_fails() {
    let address = ListenAddress::relay();
    let mut first = RelayService::start(address, BindOutcome::Bound).unwrap();
    let second = RelayService::start(address, BindOutcome::AddressInUse);
    assert_eq!(second.err(), Some(RelayError::Bind));
    assert_eq!(first.state(), ListenerState::Accepting);
    assert_eq!(first.on_accept(AcceptOutcome::Accepted), ListenerAction::Spawn);
}

#[test]
fn unavailable_address_fails_the_start() {
    let started = RelayService::start(ListenAddress::relay(), BindOutcome::Unavailable);
    assert_eq!(started.err(), Some(RelayError::Bind));
}

#[test]
fn relay_address_is_loopback_with_the_relay_port() {
    let address = ListenAddress::relay();
    assert_eq!(address.host(), [127, 0, 0, 1]);
    assert_eq!(address.port(), RELAY_PORT);
}

#[test]
fn only_loopback_addresses_with_a_port_are_taken() {
    assert!(ListenAddress::new([127, 0, 0, 1], 1).is_some());
    assert!(ListenAddress::new([127, 255, 3, 9], 65535).is_some());
    assert!(ListenAddress::new([127, 0, 0, 1], 0).is_none());
    assert!(ListenAddress::new([0, 0, 0, 0], 8080).is_none());
    assert!(ListenAddress::new([192, 168, 0, 1], 8080).is_none());
    let address = ListenAddress::new([127, 0, 0, 2], 8080).unwrap();
    assert_eq!(address.host(), [127, 0, 0, 2]);
    assert_eq!(address.port(), 8080);
}

#[test]
fn transient_accept_failures_do_not_end_the_listener() {
    let mut listener = RelayService::start(ListenAddress::relay(), BindOutcome::Bound).unwrap();
    for failure in [
        AcceptFailure::ConnectionAborted,
        AcceptFailure::ConnectionReset,
        AcceptFailure::Interrupted,
        AcceptFailure::TimedOut,
        AcceptFailure::WouldBlock,
    ] {
        assert!(failure.is_transient());
        assert_eq!(listener.on_accept(AcceptOutcome::Failed(failure)), ListenerAction::Continue);
        assert_eq!(listener.state(), ListenerState::Accepting);
    }
    assert_eq!(listener.on_accept(AcceptOutcome::Accepted), ListenerAction::Spawn);
}

#[test]
fn fatal_accept_failure_ends_the_listener_for_good() {
    let address = ListenAddress::relay();
    let mut listener = RelayService::start(address, BindOutcome::Bound).unwrap();
    assert!(!AcceptFailure::Other.is_transient());
    assert_eq!(
        listener.on_accept(AcceptOutcome::Failed(AcceptFailure::Other)),
        ListenerAction::Stop
    );
    assert_eq!(listener.state(), ListenerState::Terminated);
    assert_eq!(listener.on_accept(AcceptOutcome::Accepted), ListenerAction::Stop);
    assert_eq!(
        listener.on_accept(AcceptOutcome::Failed(AcceptFailure::Interrupted)),
        ListenerAction::Stop
    );
    assert_eq!(listener.state(), ListenerState::Terminated);
    assert_eq!(listener.address(), address);
}

#[test]
fn failed_upgrade_ends_the_task_with_a_handshake_failure() {
    let begun = RelayService::begin_connection(UpgradeOutcome::Failed);
    assert_eq!(begun.err(), Some(RelayError::Handshake));
    let router = RelayService::begin_connection(UpgradeOutcome::Upgraded).unwrap();
    assert_eq!(router.stage(), Stage::Receiving);
    assert_eq!(router.state(), RouterState::Running);
    assert_eq!(router.liveness(), Liveness::Open);
}

#[test]
fn reach_of_each_failure() {
    assert_eq!(RelayError::Bind.reach(), Reach::Caller);
    assert_eq!(RelayError::Accept.reach(), Reach::Logged);
    assert_eq!(RelayError::Handshake.reach(), Reach::Connection);
    assert_eq!(RelayError::Receive.reach(), Reach::Connection);
    assert_eq!(RelayError::Send.reach(), Reach::Connection);
    assert_eq!(RelayError::Publish.reach(), Reach::Logged);
}

#[test]
fn only_a_bind_failure_is_seen_by_the_user() {
    assert!(RelayError::Bind.is_user_visible());
    for error in [
        RelayError::Accept,
        RelayError::Handshake,
        RelayError::Receive,
        RelayError::Send,
        RelayError::Publish,
    ] {
        assert!(!error.is_user_visible());
    }
}

#[test]
fn failures_that_events_report() {
    assert_eq!(RouterEvent::ReceiveFailed.failure(), Some(RelayError::Receive));
    assert_eq!(RouterEvent::PublishFailed.failure(), Some(RelayError::Publish));
    assert_eq!(RouterEvent::AcknowledgmentFailed.failure(), Some(RelayError::Send));
    assert_eq!(RouterEvent::StreamEnded.failure(), None);
    assert_eq!(RouterEvent::Published.failure(), None);
    assert_eq!(RouterEvent::AcknowledgmentSent.failure(), None);
    assert_eq!(RouterEvent::Released.failure(), None);
    assert_eq!(RouterEvent::Faulted.failure(), None);
    assert_eq!(text("x").failure(), None);
}
