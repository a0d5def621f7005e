use chorus::api::types::GatewayHeartbeat;
use chorus::errors::GatewayError;
use chorus::gateway::events::GatewayEvent;
use chorus::gateway::heartbeat::{
    HeartbeatAction, HeartbeatEvent, HeartbeatState, HeartbeatThreadCommunication,
    HEARTBEAT_ACK_TIMEOUT,
};
use chorus::gateway::message::{
    check_hello, error_from_lowercase, event_kind_of, message_action, payload_action,
    sequence_followup, DeliveryOutcome, GatewayEventKind, GatewayMessage, MessageAction,
    PayloadAction, WebSocketMessageKind,
};
use chorus::gateway::options::{
    GatewayEncoding, GatewayOptions, GatewayTransportCompression, InstanceSoftware,
};

fn text_message(content: &str) -> GatewayMessage {
    GatewayMessage {
        kind: WebSocketMessageKind::Text,
        content: content.to_string(),
        len: content.len(),
    }
}

#[test]
fn add_to_url_appends_default_options() {
    let options = GatewayOptions::default();
    assert_eq!(
        options.add_to_url("wss://gateway.example.com"),
        "wss://gateway.example.com/?encoding=json&compress=zlib-stream"
    );
}

#[test]
fn add_to_url_keeps_existing_parameters() {
    let options = GatewayOptions {
        encoding: GatewayEncoding::Json,
        transport_compression: GatewayTransportCompression::ZLibStream,
    };
    assert_eq!(
        options.add_to_url("wss://gateway.example.com/?v=9"),
        "wss://gateway.example.com/?v=9&encoding=json&compress=zlib-stream"
    );
}

#[test]
fn add_to_url_without_compression() {
    let options = GatewayOptions {
        encoding: GatewayEncoding::ETF,
        transport_compression: GatewayTransportCompression::Uncompressed,
    };
    assert_eq!(options.add_to_url("wss://g.example/"), "wss://g.example/?encoding=etf");
    assert_eq!(options.add_to_url(""), "/?encoding=etf");
}

#[test]
fn options_follow_instance_software() {
    let symfonia = GatewayOptions::for_instance_software(InstanceSoftware::Symfonia);
    assert_eq!(symfonia.encoding, GatewayEncoding::Json);
    assert_eq!(
        symfonia.transport_compression,
        GatewayTransportCompression::Uncompressed
    );
    let spacebar = GatewayOptions::for_instance_software(InstanceSoftware::SpacebarTypescript);
    assert_eq!(
        spacebar.transport_compression,
        GatewayTransportCompression::ZLibStream
    );
    let other = GatewayOptions::for_instance_software(InstanceSoftware::Other);
    assert_eq!(
        other.transport_compression,
        GatewayTransportCompression::ZLibStream
    );
}

#[test]
fn url_parameters() {
    assert_eq!(
        GatewayTransportCompression::ZLibStream.to_url_parameter(),
        Some("compress=zlib-stream".to_string())
    );
    assert_eq!(GatewayTransportCompression::Uncompressed.to_url_parameter(), None);
    assert_eq!(GatewayEncoding::Json.to_url_parameter(), "encoding=json");
    assert_eq!(GatewayEncoding::ETF.to_url_parameter(), "encoding=etf");
}

#[test]
fn gateway_errors_by_code_and_text() {
    assert_eq!(text_message("4000").error(), Some(GatewayError::Unknown));
    assert_eq!(text_message("Unknown Error.").error(), Some(GatewayError::Unknown));
    assert_eq!(text_message("DECODE ERROR").error(), Some(GatewayError::Decode));
    assert_eq!(
        text_message("Error while decoding payload.").error(),
        Some(GatewayError::Decode)
    );
    assert_eq!(
        text_message("Invalid intent(s)").error(),
        Some(GatewayError::InvalidIntents)
    );
    assert_eq!(text_message("4014").error(), Some(GatewayError::DisallowedIntents));
    assert_eq!(text_message("{\"op\":10}").error(), None);
    assert!(text_message("4.0.0.4").is_error());
    assert!(!text_message("hello").is_error());
    assert_eq!(error_from_lowercase("rate limited."), Some(GatewayError::RateLimited));
    assert_eq!(error_from_lowercase("Rate limited"), None);
}

#[test]
fn gateway_message_shape() {
    let empty = GatewayMessage {
        kind: WebSocketMessageKind::Binary,
        content: String::new(),
        len: 0,
    };
    assert!(empty.is_empty());
    assert!(!empty.may_be_payload());
    assert!(text_message("{}").may_be_payload());
    assert!(!text_message("{}").is_empty());
}

#[test]
fn message_actions() {
    assert_eq!(message_action(true, Some(GatewayError::Decode), true), MessageAction::Skip);
    assert_eq!(message_action(false, None, false), MessageAction::WarnUnrecognised);
    assert_eq!(
        message_action(false, Some(GatewayError::RateLimited), false),
        MessageAction::CloseWithError(GatewayError::RateLimited)
    );
    assert_eq!(
        message_action(false, Some(GatewayError::Unknown), true),
        MessageAction::CloseWithError(GatewayError::Unknown)
    );
    assert_eq!(message_action(false, None, true), MessageAction::HandlePayload);
}

#[test]
fn payload_actions() {
    assert_eq!(
        payload_action(0, Some("MESSAGE_CREATE"), Some(4)),
        PayloadAction::Deliver(GatewayEventKind::MessageCreate)
    );
    assert_eq!(
        payload_action(0, Some("READY"), None),
        PayloadAction::Deliver(GatewayEventKind::Ready)
    );
    assert_eq!(payload_action(0, None, None), PayloadAction::WarnMissingEventName);
    assert_eq!(payload_action(0, Some("RESUMED"), None), PayloadAction::Resumed);
    assert_eq!(
        payload_action(0, Some("SESSIONS_REPLACE"), None),
        PayloadAction::ReplaceSessions
    );
    assert_eq!(payload_action(0, Some("NOT_AN_EVENT"), None), PayloadAction::WarnUnknownEvent);
    assert_eq!(
        payload_action(1, None, Some(5)),
        PayloadAction::Heartbeat(HeartbeatThreadCommunication {
            op_code: Some(1),
            sequence_number: Some(5)
        })
    );
    assert_eq!(
        payload_action(11, None, None),
        PayloadAction::Heartbeat(HeartbeatThreadCommunication {
            op_code: Some(11),
            sequence_number: None
        })
    );
    assert_eq!(payload_action(7, None, None), PayloadAction::Reconnect);
    assert_eq!(payload_action(9, None, None), PayloadAction::InvalidSession);
    assert_eq!(payload_action(10, None, None), PayloadAction::WarnUnexpectedHello);
    assert_eq!(
        payload_action(2, None, None),
        PayloadAction::UnexpectedOpcode(GatewayError::UnexpectedOpcodeReceived { opcode: 2 })
    );
    assert_eq!(
        payload_action(14, None, None),
        PayloadAction::UnexpectedOpcode(GatewayError::UnexpectedOpcodeReceived { opcode: 14 })
    );
    assert_eq!(payload_action(200, None, None), PayloadAction::WarnUnknownOpcode);
}

#[test]
fn sequence_numbers_follow_completed_handling() {
    let deliver = PayloadAction::Deliver(GatewayEventKind::GuildCreate);
    assert_eq!(
        sequence_followup(&deliver, DeliveryOutcome::Completed, Some(8)),
        Some(HeartbeatThreadCommunication {
            op_code: None,
            sequence_number: Some(8)
        })
    );
    assert_eq!(sequence_followup(&deliver, DeliveryOutcome::EndedEarly, Some(8)), None);
    assert_eq!(sequence_followup(&deliver, DeliveryOutcome::Completed, None), None);
    assert_eq!(
        sequence_followup(&PayloadAction::Reconnect, DeliveryOutcome::Completed, Some(3)),
        None
    );
    assert_eq!(
        sequence_followup(&PayloadAction::WarnUnknownOpcode, DeliveryOutcome::EndedEarly, Some(3)),
        Some(HeartbeatThreadCommunication {
            op_code: None,
            sequence_number: Some(3)
        })
    );
}

#[test]
fn hello_check() {
    assert_eq!(check_hello(10), Ok(()));
    assert_eq!(
        check_hello(0),
        Err(GatewayError::NonHelloOnInitiate { opcode: 0 })
    );
}

#[test]
fn event_names() {
    assert_eq!(event_kind_of("GUILD_ROLE_UPDATE"), Some(GatewayEventKind::GuildRoleUpdate));
    assert_eq!(event_kind_of("guild_role_update"), None);
    assert!(GatewayEventKind::ChannelUpdate.updates_store());
    assert!(!GatewayEventKind::MessageCreate.updates_store());
}

#[test]
fn heartbeat_carries_last_sequence_number() {
    let mut state = HeartbeatState::new();
    assert_eq!(state.timeout_ms(41250), 41250);
    let received = state.step(HeartbeatEvent::Received(HeartbeatThreadCommunication {
        op_code: None,
        sequence_number: Some(3),
    }));
    assert_eq!(received, HeartbeatAction::Wait);
    let sent = state.step(HeartbeatEvent::TimerElapsed);
    assert_eq!(
        sent,
        HeartbeatAction::Send(GatewayHeartbeat { op: 1, d: Some(3) })
    );
    assert_eq!(state.timeout_ms(41250), HEARTBEAT_ACK_TIMEOUT);
    let acknowledged = state.step(HeartbeatEvent::Received(HeartbeatThreadCommunication {
        op_code: Some(11),
        sequence_number: None,
    }));
    assert_eq!(acknowledged, HeartbeatAction::Wait);
    assert!(state.last_heartbeat_acknowledged);
    assert_eq!(state.last_seq_number, Some(3));
    assert_eq!(state.timeout_ms(41250), 41250);
}

#[test]
fn heartbeat_on_request_and_stop() {
    let mut state = HeartbeatState::new();
    let requested = state.step(HeartbeatEvent::Received(HeartbeatThreadCommunication {
        op_code: Some(1),
        sequence_number: Some(9),
    }));
    assert_eq!(
        requested,
        HeartbeatAction::Send(GatewayHeartbeat { op: 1, d: Some(9) })
    );
    assert!(!state.last_heartbeat_acknowledged);
    let before = state;
    assert_eq!(state.step(HeartbeatEvent::Killed), HeartbeatAction::Stop);
    assert_eq!(state, before);
}

#[test]
fn observers_unsubscribed_are_not_notified() {
    // Observers are told apart by their rendering at the moment of unsubscribing, which here
    // holds the number of events each has received.
    let mut event: GatewayEvent<usize> = GatewayEvent::default();
    let names = ["first", "second"];
    let mut received = [0u32, 0u32];
    let render = |observer: usize, received: &[u32; 2]| format!("{} {}", names[observer], received[observer]);
    assert!(!event.is_observed());
    event.subscribe(0);
    event.subscribe(1);
    assert!(event.is_observed());
    for &observer in event.observers() {
        received[observer] += 1;
    }
    let renderings: Vec<String> = event.observers().iter().map(|&o| render(o, &received)).collect();
    event.unsubscribe(&render(0, &received), &renderings);
    for &observer in event.observers() {
        received[observer] += 1;
    }
    assert_eq!(received[0], 1);
    assert_eq!(received[1], 2);
    assert_eq!(event.observers(), &vec![1]);
}

#[test]
fn unsubscribe_without_match_keeps_everyone() {
    let mut event: GatewayEvent<u8> = GatewayEvent::new();
    event.subscribe(7);
    event.subscribe(8);
    event.unsubscribe("nobody", &vec!["a".to_string(), "b".to_string()]);
    assert_eq!(event.observers(), &vec![7, 8]);
    event.unsubscribe("a", &vec!["a".to_string()]);
    assert_eq!(event.observers(), &vec![8]);
}

#[test]
fn heartbeat_stops_after_failed_send() {
    let mut state = HeartbeatState::new();
    assert_eq!(state.step(HeartbeatEvent::SendFailed), HeartbeatAction::Stop);
}
