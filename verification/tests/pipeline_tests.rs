use ui_events::EventType;
use ui_events::FanoutBus;
use ui_events::FrameRing;
use ui_events::IngestQueue;
use ui_events::Session;
use ui_events::SessionAction;
use ui_events::SessionInput;
use ui_events::SessionState;
use ui_events::UiEvent;
use ui_events::broadcast_step;
use ui_events::pump_step;
use ui_events::serialize;
use ui_events::session_step;

fn event(kind: EventType, ts: i64) -> UiEvent {
    UiEvent {
        event_type: kind,
        timestamp: ts,
        application: None,
        window: None,
        element: None,
        event_specific_data: None,
    }
}

#[test]
fn ingest_capacity_two_drops_exactly_three_of_five() {
    let mut q = IngestQueue::new(2);
    let mut accepted = 0;
    let mut dropped = 0;
    for ts in 1..=5 {
        if q.offer(event(EventType::ValueChanged, ts)) {
            accepted += 1;
        } else {
            dropped += 1;
        }
    }
    assert_eq!(accepted, 2);
    assert_eq!(dropped, 3);
    // The retained events drain in their original relative order.
    assert_eq!(q.poll().map(|e| e.timestamp), Some(1));
    assert_eq!(q.poll().map(|e| e.timestamp), Some(2));
    assert_eq!(q.poll().map(|e| e.timestamp), None);
}

#[test]
fn ingest_preserves_order_under_interleaved_drain() {
    let mut q = IngestQueue::new(3);
    assert!(q.offer(event(EventType::MenuOpened, 1)));
    assert!(q.offer(event(EventType::MenuClosed, 2)));
    assert_eq!(q.poll().map(|e| e.timestamp), Some(1));
    assert!(q.offer(event(EventType::TitleChanged, 3)));
    assert_eq!(q.poll().map(|e| e.timestamp), Some(2));
    assert_eq!(q.poll().map(|e| e.timestamp), Some(3));
    assert_eq!(q.poll().map(|e| e.timestamp), None);
}

#[test]
fn ingest_default_capacity() {
    let q = IngestQueue::with_default_capacity();
    assert_eq!(q.capacity(), 100);
    assert_eq!(q.len(), 0);
}

#[test]
fn frame_ring_drops_oldest_when_full() {
    let mut r = FrameRing::new(2);
    r.push_drop_oldest(String::from("a"));
    r.push_drop_oldest(String::from("b"));
    r.push_drop_oldest(String::from("c"));
    assert_eq!(r.len(), 2);
    assert_eq!(r.pop_front(), Some(String::from("b")));
    assert_eq!(r.pop_front(), Some(String::from("c")));
    assert_eq!(r.pop_front(), None);
}

#[test]
fn publish_with_zero_subscribers_is_a_quiet_no_op() {
    let mut bus = FanoutBus::new(4);
    bus.publish("nobody hears this");
    bus.publish("or this");
    assert_eq!(bus.subscriber_count(), 0);
}

#[test]
fn subscriber_sees_only_frames_published_after_subscribing() {
    let mut bus = FanoutBus::new(4);
    bus.publish("before");
    let id = bus.subscribe();
    assert_eq!(bus.recv(id), None);
    bus.publish("after");
    assert_eq!(bus.recv(id), Some(String::from("after")));
}

#[test]
fn full_subscriber_keeps_receiving_new_frames() {
    let mut bus = FanoutBus::new(2);
    let id = bus.subscribe();
    bus.publish("m1");
    bus.publish("m2");
    bus.publish("m3");
    // The queue was full when m3 arrived: m1 made way, the publisher never
    // stalled, and the newest frames are all there.
    assert_eq!(bus.recv(id), Some(String::from("m2")));
    assert_eq!(bus.recv(id), Some(String::from("m3")));
    bus.publish("m4");
    assert_eq!(bus.recv(id), Some(String::from("m4")));
    assert_eq!(bus.recv(id), None);
}

#[test]
fn two_subscribers_both_receive_the_same_event_frame() {
    let mut bus = FanoutBus::new(4);
    let a = bus.subscribe();
    let b = bus.subscribe();
    let e = event(EventType::WindowCreated, 1000);
    broadcast_step(&mut bus, &e);
    let frame_a = bus.recv(a).expect("first subscriber receives the frame");
    let frame_b = bus.recv(b).expect("second subscriber receives the frame");
    let decoded_a: serde_json::Value = serde_json::from_str(&frame_a).expect("valid JSON");
    let decoded_b: serde_json::Value = serde_json::from_str(&frame_b).expect("valid JSON");
    let canonical: serde_json::Value =
        serde_json::from_str(&serialize(&e)).expect("valid JSON");
    assert_eq!(decoded_a, canonical);
    assert_eq!(decoded_b, canonical);
}

#[test]
fn pump_moves_queue_front_to_every_subscriber_in_order() {
    let mut q = IngestQueue::new(8);
    let mut bus = FanoutBus::new(8);
    let id = bus.subscribe();
    assert!(q.offer(event(EventType::MenuOpened, 1)));
    assert!(q.offer(event(EventType::MenuClosed, 2)));
    assert!(pump_step(&mut q, &mut bus));
    assert!(pump_step(&mut q, &mut bus));
    assert!(!pump_step(&mut q, &mut bus));
    assert_eq!(bus.recv(id), Some(serialize(&event(EventType::MenuOpened, 1))));
    assert_eq!(bus.recv(id), Some(serialize(&event(EventType::MenuClosed, 2))));
    assert_eq!(bus.recv(id), None);
}

#[test]
fn session_lifecycle_relays_and_answers_pings() {
    let mut bus = FanoutBus::new(4);
    let id = bus.subscribe();
    let mut session = Session::accept(id);
    assert_eq!(session.state, SessionState::Accepted);

    let a = session.advance(&mut bus, SessionInput::Start);
    assert_eq!(a, SessionAction::BeginHandshake);
    assert_eq!(session.state, SessionState::Handshaking);

    let a = session.advance(&mut bus, SessionInput::HandshakeSucceeded);
    assert_eq!(a, SessionAction::Idle);
    assert_eq!(session.state, SessionState::Open);

    let a = session.advance(&mut bus, SessionInput::BusFrame(String::from("frame")));
    assert_eq!(a, SessionAction::SendText(String::from("frame")));
    assert_eq!(session.state, SessionState::Open);

    let a = session.advance(&mut bus, SessionInput::PeerPing(vec![1, 2, 3]));
    assert_eq!(a, SessionAction::SendPong(vec![1, 2, 3]));
    assert_eq!(session.state, SessionState::Open);

    let a = session.advance(&mut bus, SessionInput::PeerData);
    assert_eq!(a, SessionAction::Idle);
    assert_eq!(session.state, SessionState::Open);
}

#[test]
fn close_frame_tears_the_session_down_and_removes_its_subscription() {
    let mut bus = FanoutBus::new(4);
    let id = bus.subscribe();
    let mut session = Session::accept(id);
    session.advance(&mut bus, SessionInput::Start);
    session.advance(&mut bus, SessionInput::HandshakeSucceeded);
    bus.publish("while open");
    assert_eq!(bus.recv(id), Some(String::from("while open")));

    let a = session.advance(&mut bus, SessionInput::PeerClose);
    assert_eq!(a, SessionAction::BeginClose);
    assert_eq!(session.state, SessionState::Closing);

    let a = session.advance(&mut bus, SessionInput::CloseFinished);
    assert_eq!(a, SessionAction::Release);
    assert_eq!(session.state, SessionState::Closed);

    // A publish after the teardown no longer reaches the session.
    bus.publish("after close");
    assert_eq!(bus.recv(id), None);
}

#[test]
fn write_failure_and_read_error_also_close_the_session() {
    let (s1, a1) = session_step(SessionState::Open, SessionInput::SendFailed);
    assert_eq!((s1, a1), (SessionState::Closing, SessionAction::BeginClose));
    let (s2, a2) = session_step(SessionState::Open, SessionInput::PeerReadError);
    assert_eq!((s2, a2), (SessionState::Closing, SessionAction::BeginClose));
    let (s3, a3) = session_step(SessionState::Closing, SessionInput::CloseTimedOut);
    assert_eq!((s3, a3), (SessionState::Closed, SessionAction::Release));
}

#[test]
fn handshake_failure_is_terminal_without_retry() {
    let mut bus = FanoutBus::new(4);
    let id = bus.subscribe();
    let mut session = Session::accept(id);
    session.advance(&mut bus, SessionInput::Start);
    let a = session.advance(&mut bus, SessionInput::HandshakeFailed);
    assert_eq!(a, SessionAction::Release);
    assert_eq!(session.state, SessionState::Closed);
    bus.publish("never delivered");
    assert_eq!(bus.recv(id), None);
}

#[test]
fn closed_state_is_terminal() {
    let inputs = [
        SessionInput::Start,
        SessionInput::HandshakeSucceeded,
        SessionInput::BusFrame(String::from("x")),
        SessionInput::PeerClose,
        SessionInput::CloseFinished,
    ];
    for input in inputs {
        let (s, a) = session_step(SessionState::Closed, input);
        assert_eq!(s, SessionState::Closed);
        assert_eq!(a, SessionAction::Idle);
    }
}

#[test]
fn independent_subscribers_drain_independently() {
    let mut bus = FanoutBus::new(4);
    let a = bus.subscribe();
    let b = bus.subscribe();
    bus.publish("one");
    bus.publish("two");
    assert_eq!(bus.recv(a), Some(String::from("one")));
    // Subscriber b has consumed nothing yet; a's progress does not move b.
    assert_eq!(bus.recv(b), Some(String::from("one")));
    assert_eq!(bus.recv(a), Some(String::from("two")));
    assert_eq!(bus.recv(b), Some(String::from("two")));
}
