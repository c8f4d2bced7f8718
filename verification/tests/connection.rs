use loopback_pool::connection::{
    deliver, read_text, Action, ConnectionHandler, Event, Phase, Role, IDLE_PAUSE_MS,
    READ_BUFFER_SIZE, READ_TIMEOUT_MS,
};
use loopback_pool::packet::MsgPacket;
use loopback_pool::threadpool::{Job, Message};

fn read_action() -> Action {
    Action::Read { timeout_ms: 100, capacity: 1024 }
}

fn received(bytes: &[u8], packet: Option<MsgPacket>) -> Event {
    Event::Received { bytes: bytes.to_vec(), packet }
}

fn reading(role: Role) -> ConnectionHandler {
    let mut h = ConnectionHandler::new(role);
    assert_eq!(h.step(Event::Polled(None)), read_action());
    h
}

#[test]
fn limits_are_as_documented() {
    assert_eq!(READ_TIMEOUT_MS, 100);
    assert_eq!(IDLE_PAUSE_MS, 10);
    assert_eq!(READ_BUFFER_SIZE, 1024);
}

#[test]
fn handler_starts_with_a_check_for_termination() {
    let h = ConnectionHandler::new(Role::Echo);
    assert_eq!(h.phase, Phase::Polling);
    assert_eq!(h.start(), Action::Poll);
    assert!(!h.is_closed());
}

#[test]
fn terminate_shuts_the_stream_down_and_ends_the_loop() {
    for role in [Role::Echo, Role::Outbound] {
        let mut h = ConnectionHandler::new(role);
        assert_eq!(h.step(Event::Polled(Some(Message::Terminate))), Action::Shutdown);
        assert!(h.is_closed());
        assert_eq!(h.step(Event::Polled(None)), Action::Stop);
        assert_eq!(h.step(Event::Slept), Action::Stop);
        assert!(h.is_closed());
    }
}

#[test]
fn other_messages_do_not_end_the_loop() {
    let mut h = ConnectionHandler::new(Role::Echo);
    assert_eq!(h.step(Event::Polled(Some(Message::NewJob(Job { ticket: 1 })))), read_action());
    assert_eq!(h.phase, Phase::Reading);
}

#[test]
fn idle_turn_of_an_echo_handler() {
    let mut h = reading(Role::Echo);
    assert_eq!(h.step(received(&[], None)), Action::Sleep(10));
    assert_eq!(h.phase, Phase::Idling);
    assert_eq!(h.step(Event::Slept), Action::Poll);
    assert_eq!(h.phase, Phase::Polling);
}

#[test]
fn terminate_is_seen_one_idle_turn_later() {
    let mut h = ConnectionHandler::new(Role::Echo);
    let mut waited = 0;
    for action in [
        h.step(Event::Polled(None)),
        h.step(received(&[], None)),
        h.step(Event::Slept),
    ] {
        waited += match action {
            Action::Read { timeout_ms, .. } => timeout_ms,
            Action::Sleep(ms) => ms,
            _ => 0,
        };
    }
    assert_eq!(waited, 110);
    assert!(waited <= 150);
    assert_eq!(h.step(Event::Polled(Some(Message::Terminate))), Action::Shutdown);
    assert!(h.is_closed());
}

#[test]
fn packet_payload_is_echoed() {
    let mut h = reading(Role::Echo);
    let wire = br#"{"len":7,"id":"alice","data":"hi"}"#;
    let action = h.step(received(wire, Some(MsgPacket::new("alice", "hi"))));
    assert_eq!(action, Action::Reply("hi".to_string()));
    assert_eq!(h.phase, Phase::Replying);
    assert_eq!(h.step(Event::Written(true)), Action::Poll);
    assert_eq!(h.phase, Phase::Polling);
}

#[test]
fn raw_bytes_are_read_as_text() {
    let mut h = reading(Role::Echo);
    assert_eq!(h.step(received(b"ok", None)), Action::Reply("ok".to_string()));
}

#[test]
fn ill_formed_bytes_do_not_stop_the_handler() {
    let mut h = reading(Role::Echo);
    let action = h.step(received(&[0xff, 0xfe], None));
    assert_eq!(action, Action::Reply("\u{fffd}\u{fffd}".to_string()));
    assert!(!h.is_closed());
}

#[test]
fn read_text_prefers_the_packet() {
    assert_eq!(read_text(b"xyz", Some(MsgPacket::new("bob", "hello"))), "hello");
    assert_eq!(read_text(b"xyz", None), "xyz");
    assert_eq!(read_text("gr\u{fc}n".as_bytes(), None), "gr\u{fc}n");
    assert_eq!(read_text(&[b'a', 0x80, b'b'], None), "a\u{fffd}b");
}

#[test]
fn deliver_goes_by_role() {
    assert_eq!(deliver(Role::Echo, "x".to_string()), Action::Reply("x".to_string()));
    assert_eq!(deliver(Role::Outbound, "x".to_string()), Action::Print("x".to_string()));
}

#[test]
fn failed_echo_ends_the_loop() {
    let mut h = reading(Role::Echo);
    h.step(received(b"hi", None));
    assert_eq!(h.step(Event::Written(false)), Action::Stop);
    assert!(h.is_closed());
}

#[test]
fn client_shows_text_then_sends_one_pending_message() {
    let mut h = reading(Role::Outbound);
    assert_eq!(h.step(received(b"hi", None)), Action::Print("hi".to_string()));
    assert_eq!(h.phase, Phase::Printing);
    assert_eq!(h.step(Event::Printed), Action::TakeOutbound);
    assert_eq!(h.step(Event::Outbound(Some(vec![1, 2, 3]))), Action::Send(vec![1, 2, 3]));
    assert_eq!(h.phase, Phase::Sending);
    assert_eq!(h.step(Event::Written(true)), Action::Poll);
    assert_eq!(h.phase, Phase::Polling);
}

#[test]
fn client_checks_outbound_after_an_empty_read() {
    let mut h = reading(Role::Outbound);
    assert_eq!(h.step(received(&[], None)), Action::Sleep(10));
    assert_eq!(h.step(Event::Slept), Action::TakeOutbound);
    assert_eq!(h.step(Event::Outbound(None)), Action::Poll);
    assert_eq!(h.phase, Phase::Polling);
}

#[test]
fn failed_send_does_not_end_the_loop() {
    let mut h = reading(Role::Outbound);
    h.step(received(&[], None));
    h.step(Event::Slept);
    h.step(Event::Outbound(Some(vec![9])));
    assert_eq!(h.step(Event::Written(false)), Action::Poll);
    assert!(!h.is_closed());
    assert_eq!(h.step(Event::Polled(None)), read_action());
}

#[test]
fn unexpected_event_shuts_the_handler_down() {
    let mut h = ConnectionHandler::new(Role::Echo);
    assert_eq!(h.step(Event::Slept), Action::Shutdown);
    assert!(h.is_closed());

    let mut h = reading(Role::Outbound);
    assert_eq!(h.step(Event::Written(true)), Action::Shutdown);
    assert!(h.is_closed());
    assert_eq!(h.step(Event::Printed), Action::Stop);
}

#[test]
fn closed_stream_ends_the_loop() {
    for role in [Role::Echo, Role::Outbound] {
        let mut h = reading(role);
        assert_eq!(h.step(Event::PeerClosed), Action::Stop);
        assert!(h.is_closed());
    }
    let mut h = ConnectionHandler::new(Role::Echo);
    assert_eq!(h.step(Event::PeerClosed), Action::Shutdown);
    assert!(h.is_closed());
}

fn wait_of(action: &Action) -> u64 {
    match action {
        Action::Read { timeout_ms, .. } => *timeout_ms,
        Action::Sleep(ms) => *ms,
        _ => 0,
    }
}

#[test]
fn no_turn_keeps_the_caller_longer_than_timeout_and_rest() {
    let turns: Vec<(Role, Vec<Event>)> = vec![
        (Role::Echo, vec![Event::Polled(None), received(&[], None), Event::Slept]),
        (Role::Echo, vec![Event::Polled(None), received(b"hi", None), Event::Written(true)]),
        (
            Role::Outbound,
            vec![
                Event::Polled(None),
                received(&[], None),
                Event::Slept,
                Event::Outbound(Some(vec![1])),
                Event::Written(true),
            ],
        ),
        (
            Role::Outbound,
            vec![
                Event::Polled(None),
                received(b"hi", None),
                Event::Printed,
                Event::Outbound(None),
            ],
        ),
    ];
    for (role, events) in turns {
        let mut h = ConnectionHandler::new(role);
        let mut waited = 0;
        let count = events.len();
        for event in events {
            waited += wait_of(&h.step(event));
        }
        assert!(count <= 5);
        assert!(waited <= 110);
        assert_eq!(h.phase, Phase::Polling);
    }
}
