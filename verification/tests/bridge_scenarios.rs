use can_bridge::bridge::{Action, Bridge, ClientMessage, Event, Notice, Phase, StopReason};
use can_bridge::envelope::{encode_envelope, ClientEnvelope};
use can_bridge::frame::{parse_frame, BusFrame, FormatError};
use can_bridge::session::{DeviceSession, OpenError};

const URL: &str = "http://10.0.0.1:3000";

fn notice(sequence: u64, text: &str) -> Action {
    Action::Send(ClientEnvelope {
        sequence,
        service_url: String::from(URL),
        data: None,
        notice: Some(String::from(text)),
    })
}

fn data(sequence: u64, text: &str) -> Action {
    Action::Send(ClientEnvelope {
        sequence,
        service_url: String::from(URL),
        data: Some(String::from(text)),
        notice: None,
    })
}

fn text(message: &str) -> Event {
    Event::Message(ClientMessage::Text(String::from(message)))
}

fn present() -> Result<DeviceSession, OpenError> {
    DeviceSession::open(true, true)
}

fn absent() -> Result<DeviceSession, OpenError> {
    DeviceSession::open(false, false)
}

/// A bridge whose first envelope has reached the client.
fn idle_bridge(opened: Result<DeviceSession, OpenError>) -> Bridge {
    let (mut bridge, _) = Bridge::start(String::from(URL), opened);
    assert_eq!(bridge.step(Event::Sent), Action::Wait);
    assert_eq!(bridge.phase(), Phase::Idle);
    bridge
}

#[test]
fn notice_texts() {
    assert_eq!(Notice::DeviceMissing.text(), "missing CAN device");
    assert_eq!(Notice::DeviceConnected.text(), "connected to CAN device");
    assert_eq!(Notice::DeviceDisconnected.text(), "disconnected from CAN device");
    assert_eq!(Notice::Heartbeat.text(), "heartbeat");
}

#[test]
fn device_absent_at_connect() {
    let (bridge, action) = Bridge::start(String::from(URL), absent());
    match &action {
        Action::Send(envelope) => {
            assert_eq!(envelope.sequence, 0);
            assert!(envelope.notice.as_deref().unwrap().contains("missing"));
            assert_eq!(envelope.data, None);
            assert_eq!(envelope.service_url, URL);
        }
        other => panic!("no envelope but {:?}", other),
    }
    assert_eq!(action, notice(0, "missing CAN device"));
    assert!(!bridge.device_up());
    assert_eq!(bridge.phase(), Phase::Sending);
    assert_eq!(bridge.next_sequence(), 1);
    assert_eq!(bridge.service_url(), URL);
    assert!(!bridge.is_stopped());
}

#[test]
fn device_absent_when_only_one_handle_was_acquired() {
    let (bridge, action) = Bridge::start(String::from(URL), DeviceSession::open(true, false));
    assert_eq!(action, notice(0, "missing CAN device"));
    assert!(!bridge.device_up());
}

#[test]
fn device_absent_when_the_session_handed_over_is_closed() {
    let (bridge, action) = Bridge::start(String::from(URL), Ok(DeviceSession::closed()));
    assert_eq!(action, notice(0, "missing CAN device"));
    assert!(!bridge.device_up());
}

#[test]
fn device_present_at_connect() {
    let (bridge, action) = Bridge::start(String::from(URL), present());
    assert_eq!(action, notice(0, "connected to CAN device"));
    assert!(bridge.device_up());
    assert_eq!(bridge.phase(), Phase::Sending);
    assert_eq!(bridge.next_sequence(), 1);
}

#[test]
fn first_envelope_as_json() {
    let (_, action) = Bridge::start(String::from(URL), absent());
    let Action::Send(envelope) = action else { panic!("no envelope") };
    assert_eq!(
        encode_envelope(&envelope).unwrap(),
        "{\"sequence\":0,\"serviceUrl\":\"http://10.0.0.1:3000\",\"data\":null,\"notice\":\"missing CAN device\"}"
    );
}

#[test]
fn frame_from_the_device_is_relayed() {
    let mut bridge = idle_bridge(present());
    let frame = parse_frame("1A3#DEADBEEF").unwrap();
    let action = bridge.step(Event::Frame(frame));
    match &action {
        Action::Send(envelope) => {
            assert_eq!(envelope.data.as_deref(), Some("1a3#deadbeef"));
            assert_eq!(envelope.notice, None);
            assert_eq!(envelope.sequence, 1);
        }
        other => panic!("no envelope but {:?}", other),
    }
    assert_eq!(action, data(1, "1a3#deadbeef"));
    assert_eq!(bridge.phase(), Phase::Sending);
    assert_eq!(bridge.step(Event::Sent), Action::Wait);
    assert_eq!(bridge.phase(), Phase::Idle);
    assert!(bridge.device_up());
    assert_eq!(bridge.next_sequence(), 2);
}

#[test]
fn relayed_frame_as_json() {
    let mut bridge = idle_bridge(present());
    let frame = BusFrame { id: 0x1a3, payload: vec![0xde, 0xad, 0xbe, 0xef] };
    let Action::Send(envelope) = bridge.step(Event::Frame(frame)) else { panic!("no envelope") };
    assert_eq!(
        encode_envelope(&envelope).unwrap(),
        "{\"sequence\":1,\"serviceUrl\":\"http://10.0.0.1:3000\",\"data\":\"1a3#deadbeef\",\"notice\":null}"
    );
}

#[test]
fn frame_without_a_device_is_not_relayed() {
    let mut bridge = idle_bridge(absent());
    let frame = BusFrame { id: 1, payload: vec![] };
    assert_eq!(bridge.step(Event::Frame(frame)), Action::Wait);
    assert_eq!(bridge.phase(), Phase::Idle);
    assert_eq!(bridge.next_sequence(), 1);
    assert!(!bridge.is_stopped());
}

#[test]
fn device_read_failure_then_reopen() {
    let mut bridge = idle_bridge(present());

    // The read fails: a notice and nothing else.
    assert_eq!(bridge.step(Event::ReadFailed), notice(1, "disconnected from CAN device"));
    assert!(!bridge.device_up());
    assert_eq!(bridge.step(Event::Sent), Action::Wait);

    // First tick: heartbeat, then a reopening that fails in silence.
    assert_eq!(bridge.step(Event::Tick), notice(2, "heartbeat"));
    assert_eq!(bridge.phase(), Phase::SendingBeforeReopen);
    assert_eq!(bridge.step(Event::Sent), Action::Open);
    assert_eq!(bridge.phase(), Phase::Opening);
    assert_eq!(bridge.step(Event::Reopened(absent())), Action::Wait);
    assert_eq!(bridge.phase(), Phase::Idle);
    assert!(!bridge.device_up());
    assert_eq!(bridge.next_sequence(), 3);

    // Second tick: the same, with one handle only.
    assert_eq!(bridge.step(Event::Tick), notice(3, "heartbeat"));
    assert_eq!(bridge.step(Event::Sent), Action::Open);
    assert_eq!(bridge.step(Event::Reopened(DeviceSession::open(true, false))), Action::Wait);
    assert!(!bridge.device_up());

    // Third tick: the reopening succeeds.
    assert_eq!(bridge.step(Event::Tick), notice(4, "heartbeat"));
    assert_eq!(bridge.step(Event::Sent), Action::Open);
    assert_eq!(bridge.step(Event::Reopened(present())), notice(5, "connected to CAN device"));
    assert!(bridge.device_up());
    assert_eq!(bridge.phase(), Phase::Sending);
    assert_eq!(bridge.step(Event::Sent), Action::Wait);

    // With the device back, a tick is a heartbeat and no more.
    assert_eq!(bridge.step(Event::Tick), notice(6, "heartbeat"));
    assert_eq!(bridge.phase(), Phase::Sending);
    assert_eq!(bridge.step(Event::Sent), Action::Wait);
    assert_eq!(bridge.phase(), Phase::Idle);

    // And frames are relayed again.
    let frame = BusFrame { id: 0x7ff, payload: vec![1] };
    assert_eq!(bridge.step(Event::Frame(frame)), data(7, "7ff#01"));
}

#[test]
fn reopening_that_hands_over_a_closed_session_counts_as_failed() {
    let mut bridge = idle_bridge(absent());
    assert_eq!(bridge.step(Event::Tick), notice(1, "heartbeat"));
    assert_eq!(bridge.step(Event::Sent), Action::Open);
    assert_eq!(bridge.step(Event::Reopened(Ok(DeviceSession::closed()))), Action::Wait);
    assert!(!bridge.device_up());
    assert_eq!(bridge.phase(), Phase::Idle);
}

#[test]
fn read_failure_without_a_device_changes_nothing() {
    let mut bridge = idle_bridge(absent());
    assert_eq!(bridge.step(Event::ReadFailed), Action::Wait);
    assert_eq!(bridge.next_sequence(), 1);
    assert_eq!(bridge.phase(), Phase::Idle);
}

#[test]
fn malformed_text_is_rejected_and_the_bridge_goes_on() {
    let mut bridge = idle_bridge(present());
    assert_eq!(bridge.step(text("zzzz")), Action::Reject(FormatError::MissingSeparator));
    assert_eq!(bridge.phase(), Phase::Idle);
    assert_eq!(bridge.next_sequence(), 1);
    assert!(bridge.device_up());
    assert!(!bridge.is_stopped());
    // The bridge still works.
    assert_eq!(bridge.step(Event::Tick), notice(1, "heartbeat"));
}

#[test]
fn malformed_text_is_rejected_for_its_reason() {
    let mut bridge = idle_bridge(absent());
    assert_eq!(bridge.step(text("")), Action::Reject(FormatError::MissingSeparator));
    assert_eq!(bridge.step(text("xyz#00")), Action::Reject(FormatError::InvalidId));
    assert_eq!(bridge.step(text("1a3#abc")), Action::Reject(FormatError::OddPayloadLength));
    assert_eq!(bridge.step(text("1a3#zz")), Action::Reject(FormatError::InvalidPayload));
    assert_eq!(bridge.phase(), Phase::Idle);
    assert_eq!(bridge.next_sequence(), 1);
}

#[test]
fn client_send_failure_ends_the_bridge() {
    // While the first envelope is on its way.
    let (mut bridge, _) = Bridge::start(String::from(URL), present());
    assert_eq!(bridge.step(Event::SendFailed), Action::Stop(StopReason::SendFailed));
    assert!(bridge.is_stopped());

    // While a relayed frame is on its way.
    let mut bridge = idle_bridge(present());
    let frame = BusFrame { id: 1, payload: vec![2] };
    assert_eq!(bridge.step(Event::Frame(frame)), data(1, "1#02"));
    assert_eq!(bridge.step(Event::SendFailed), Action::Stop(StopReason::SendFailed));
    assert!(bridge.is_stopped());

    // While a heartbeat is on its way, with the device.
    let mut bridge = idle_bridge(present());
    assert_eq!(bridge.step(Event::Tick), notice(1, "heartbeat"));
    assert_eq!(bridge.step(Event::SendFailed), Action::Stop(StopReason::SendFailed));
    assert!(bridge.is_stopped());

    // While a heartbeat is on its way, without the device: no reopening.
    let mut bridge = idle_bridge(absent());
    assert_eq!(bridge.step(Event::Tick), notice(1, "heartbeat"));
    assert_eq!(bridge.step(Event::SendFailed), Action::Stop(StopReason::SendFailed));
    assert!(bridge.is_stopped());

    // While the notice of a lost device is on its way.
    let mut bridge = idle_bridge(present());
    assert_eq!(bridge.step(Event::ReadFailed), notice(1, "disconnected from CAN device"));
    assert_eq!(bridge.step(Event::SendFailed), Action::Stop(StopReason::SendFailed));
    assert!(bridge.is_stopped());

    // While the notice of a failed write is on its way.
    let mut bridge = idle_bridge(present());
    assert!(matches!(bridge.step(text("1#02")), Action::Write(_)));
    assert_eq!(bridge.step(Event::WriteFailed), notice(1, "disconnected from CAN device"));
    assert_eq!(bridge.step(Event::SendFailed), Action::Stop(StopReason::SendFailed));
    assert!(bridge.is_stopped());

    // While the notice of a reopened device is on its way.
    let mut bridge = idle_bridge(absent());
    assert_eq!(bridge.step(Event::Tick), notice(1, "heartbeat"));
    assert_eq!(bridge.step(Event::Sent), Action::Open);
    assert_eq!(bridge.step(Event::Reopened(present())), notice(2, "connected to CAN device"));
    assert_eq!(bridge.step(Event::SendFailed), Action::Stop(StopReason::SendFailed));
    assert!(bridge.is_stopped());
}

#[test]
fn stopped_bridge_stays_stopped() {
    let mut bridge = idle_bridge(present());
    assert_eq!(bridge.step(Event::ClientLost), Action::Stop(StopReason::ClientLost));
    assert!(bridge.is_stopped());
    assert_eq!(bridge.phase(), Phase::Stopped);
    let sequence = bridge.next_sequence();
    let events = vec![
        Event::Tick,
        Event::Sent,
        Event::SendFailed,
        Event::Written,
        Event::WriteFailed,
        Event::ReadFailed,
        Event::ClientLost,
        Event::Reopened(present()),
        Event::Frame(BusFrame { id: 1, payload: vec![] }),
        text("1#00"),
        Event::Message(ClientMessage::Close),
    ];
    for event in events {
        assert_eq!(bridge.step(event), Action::Stop(StopReason::OutOfTurn));
        assert!(bridge.is_stopped());
        assert_eq!(bridge.next_sequence(), sequence);
        assert!(bridge.device_up());
    }
}

#[test]
fn client_text_is_written_to_the_device() {
    let mut bridge = idle_bridge(present());
    let action = bridge.step(text("1A3#DEADBEEF"));
    assert_eq!(action, Action::Write(BusFrame { id: 0x1a3, payload: vec![0xde, 0xad, 0xbe, 0xef] }));
    assert_eq!(bridge.phase(), Phase::Writing);
    assert_eq!(bridge.step(Event::Written), Action::Wait);
    assert_eq!(bridge.phase(), Phase::Idle);
    assert!(bridge.device_up());
    assert_eq!(bridge.next_sequence(), 1);
}

#[test]
fn failed_write_gives_the_device_up_and_keeps_the_client() {
    let mut bridge = idle_bridge(present());
    assert!(matches!(bridge.step(text("1a3#00")), Action::Write(_)));
    assert_eq!(bridge.step(Event::WriteFailed), notice(1, "disconnected from CAN device"));
    assert!(!bridge.device_up());
    assert!(!bridge.is_stopped());
    assert_eq!(bridge.step(Event::Sent), Action::Wait);
    assert_eq!(bridge.phase(), Phase::Idle);
    // The next tick tries to reopen.
    assert_eq!(bridge.step(Event::Tick), notice(2, "heartbeat"));
    assert_eq!(bridge.step(Event::Sent), Action::Open);
}

#[test]
fn client_text_without_a_device_is_answered_by_a_notice() {
    let mut bridge = idle_bridge(absent());
    assert_eq!(bridge.step(text("1a3#00")), notice(1, "missing CAN device"));
    assert!(!bridge.device_up());
    assert_eq!(bridge.phase(), Phase::Sending);
    assert_eq!(bridge.step(Event::Sent), Action::Wait);
    assert!(!bridge.is_stopped());
}

#[test]
fn other_client_messages_change_nothing() {
    let mut bridge = idle_bridge(present());
    assert_eq!(bridge.step(Event::Message(ClientMessage::Binary)), Action::Wait);
    assert_eq!(bridge.step(Event::Message(ClientMessage::Ping)), Action::Wait);
    assert_eq!(bridge.step(Event::Message(ClientMessage::Pong)), Action::Wait);
    assert_eq!(bridge.phase(), Phase::Idle);
    assert_eq!(bridge.next_sequence(), 1);
    assert!(bridge.device_up());
}

#[test]
fn close_message_ends_the_bridge() {
    let mut bridge = idle_bridge(present());
    assert_eq!(
        bridge.step(Event::Message(ClientMessage::Close)),
        Action::Stop(StopReason::ClientClosed)
    );
    assert!(bridge.is_stopped());
}

#[test]
fn lost_client_ends_the_bridge() {
    let mut bridge = idle_bridge(absent());
    assert_eq!(bridge.step(Event::ClientLost), Action::Stop(StopReason::ClientLost));
    assert!(bridge.is_stopped());
}

#[test]
fn heartbeat_with_a_device_does_not_reopen() {
    let mut bridge = idle_bridge(present());
    assert_eq!(bridge.step(Event::Tick), notice(1, "heartbeat"));
    assert_eq!(bridge.phase(), Phase::Sending);
    assert_eq!(bridge.step(Event::Sent), Action::Wait);
    assert_eq!(bridge.phase(), Phase::Idle);
}

#[test]
fn heartbeat_as_json() {
    let mut bridge = idle_bridge(present());
    let Action::Send(envelope) = bridge.step(Event::Tick) else { panic!("no envelope") };
    assert_eq!(
        encode_envelope(&envelope).unwrap(),
        "{\"sequence\":1,\"serviceUrl\":\"http://10.0.0.1:3000\",\"data\":null,\"notice\":\"heartbeat\"}"
    );
}

#[test]
fn event_out_of_turn_ends_the_bridge() {
    // A tick while an envelope is on its way.
    let (mut bridge, _) = Bridge::start(String::from(URL), present());
    assert_eq!(bridge.step(Event::Tick), Action::Stop(StopReason::OutOfTurn));
    assert!(bridge.is_stopped());

    // The end of a write that was never asked for.
    let mut bridge = idle_bridge(present());
    assert_eq!(bridge.step(Event::Written), Action::Stop(StopReason::OutOfTurn));
    assert!(bridge.is_stopped());

    // The end of a send that was never asked for.
    let mut bridge = idle_bridge(present());
    assert_eq!(bridge.step(Event::Sent), Action::Stop(StopReason::OutOfTurn));
    let mut bridge = idle_bridge(present());
    assert_eq!(bridge.step(Event::SendFailed), Action::Stop(StopReason::OutOfTurn));

    // A frame while a write is on its way.
    let mut bridge = idle_bridge(present());
    assert!(matches!(bridge.step(text("1#00")), Action::Write(_)));
    assert_eq!(
        bridge.step(Event::Frame(BusFrame { id: 1, payload: vec![] })),
        Action::Stop(StopReason::OutOfTurn)
    );

    // A message while the device is being reopened.
    let mut bridge = idle_bridge(absent());
    assert_eq!(bridge.step(Event::Tick), notice(1, "heartbeat"));
    assert_eq!(bridge.step(Event::Sent), Action::Open);
    assert_eq!(bridge.step(text("1#00")), Action::Stop(StopReason::OutOfTurn));
    assert!(bridge.is_stopped());

    // The end of a reopening that was never asked for.
    let mut bridge = idle_bridge(absent());
    assert_eq!(bridge.step(Event::Reopened(present())), Action::Stop(StopReason::OutOfTurn));
    assert!(!bridge.device_up());
}

#[test]
fn sequence_numbers_have_no_gap() {
    let (mut bridge, first) = Bridge::start(String::from(URL), present());
    let mut actions = vec![first];
    let events = vec![
        Event::Sent,
        Event::Tick,
        Event::Sent,
        Event::Frame(BusFrame { id: 1, payload: vec![1] }),
        Event::Sent,
        text("zzzz"),
        Event::Message(ClientMessage::Ping),
        text("2#02"),
        Event::Written,
        Event::Frame(BusFrame { id: 3, payload: vec![3] }),
        Event::Sent,
        text("4#04"),
        Event::WriteFailed,
        Event::Sent,
        text("5#05"),
        Event::Sent,
        Event::Tick,
        Event::Sent,
        Event::Reopened(absent()),
        Event::Tick,
        Event::Sent,
        Event::Reopened(present()),
        Event::Sent,
        Event::ReadFailed,
        Event::Sent,
        Event::Message(ClientMessage::Close),
        Event::Tick,
    ];
    let count = events.len();
    for event in events {
        actions.push(bridge.step(event));
    }
    assert_eq!(actions.len(), count + 1);
    let sequences: Vec<u64> = actions
        .iter()
        .filter_map(|action| match action {
            Action::Send(envelope) => Some(envelope.sequence),
            _ => None,
        })
        .collect();
    assert_eq!(sequences, vec![0, 1, 2, 3, 4, 5, 6, 7, 8, 9]);
    assert_eq!(bridge.next_sequence(), 10);
    for action in &actions {
        if let Action::Send(envelope) = action {
            assert_eq!(envelope.service_url, URL);
            assert!(envelope.data.is_some() != envelope.notice.is_some());
        }
    }
    assert!(bridge.is_stopped());
}

#[test]
fn every_envelope_carries_the_address_of_the_bridge() {
    let (mut bridge, first) = Bridge::start(String::from("http://bridge.local:3000"), absent());
    let Action::Send(envelope) = first else { panic!("no envelope") };
    assert_eq!(envelope.service_url, "http://bridge.local:3000");
    assert_eq!(bridge.step(Event::Sent), Action::Wait);
    let Action::Send(envelope) = bridge.step(Event::Tick) else { panic!("no envelope") };
    assert_eq!(envelope.service_url, "http://bridge.local:3000");
    assert_eq!(bridge.service_url(), "http://bridge.local:3000");
}

#[test]
fn first_envelope_has_the_number_asked_for() {
    let (mut bridge, action) = Bridge::start_at(String::from(URL), present(), 41);
    assert_eq!(action, notice(41, "connected to CAN device"));
    assert_eq!(bridge.next_sequence(), 42);
    assert_eq!(bridge.step(Event::Sent), Action::Wait);
    assert_eq!(bridge.step(Event::Tick), notice(42, "heartbeat"));
    assert_eq!(bridge.step(Event::Sent), Action::Wait);
    let frame = BusFrame { id: 2, payload: vec![] };
    assert_eq!(bridge.step(Event::Frame(frame)), data(43, "2#"));
}

#[test]
fn bridge_ends_when_the_sequence_numbers_are_used_up() {
    // The last number is never given out.
    let (bridge, action) = Bridge::start_at(String::from(URL), present(), u64::MAX);
    assert_eq!(action, Action::Stop(StopReason::SequenceExhausted));
    assert!(bridge.is_stopped());
    assert_eq!(bridge.next_sequence(), u64::MAX);

    let (mut bridge, action) = Bridge::start_at(String::from(URL), absent(), u64::MAX - 1);
    assert_eq!(action, notice(u64::MAX - 1, "missing CAN device"));
    assert_eq!(bridge.step(Event::Sent), Action::Wait);
    assert_eq!(bridge.next_sequence(), u64::MAX);
    assert_eq!(bridge.step(Event::Message(ClientMessage::Ping)), Action::Wait);
    assert_eq!(bridge.step(Event::Tick), Action::Stop(StopReason::SequenceExhausted));
    assert!(bridge.is_stopped());
    assert_eq!(bridge.step(Event::Tick), Action::Stop(StopReason::OutOfTurn));
}

#[test]
fn refreshed_address_is_carried_by_the_envelopes_that_follow() {
    let mut bridge = idle_bridge(present());
    bridge.refresh_service_url(String::from("http://10.0.0.2:3000"));
    assert_eq!(bridge.service_url(), "http://10.0.0.2:3000");
    assert_eq!(bridge.phase(), Phase::Idle);
    assert_eq!(bridge.next_sequence(), 1);
    assert!(bridge.device_up());
    let Action::Send(envelope) = bridge.step(Event::Tick) else { panic!("no envelope") };
    assert_eq!(envelope.service_url, "http://10.0.0.2:3000");
    assert_eq!(envelope.sequence, 1);
    assert_eq!(envelope.notice.as_deref(), Some("heartbeat"));
}
