use shaco::error::LcuWebsocketError;
use shaco::json::{from_str, FromJson};
use shaco::model::ws::{EventType, LcuEvent, LcuEventData, LcuSubscriptionType};
use shaco::ws::{
    connect_failure, on_connect_error, websocket_url, ConnectFailure, Inbound, PushEngine,
    PushStep, SocketFailure,
};
use tokio_tungstenite::tungstenite::error::{CapacityError, ProtocolError, TlsError, UrlError};
use tokio_tungstenite::tungstenite::{Error, Message};

const VALID: &str = r#"[8, "OnJsonApiEvent_lol-gameflow_v1_gameflow-phase", {"data": "ChampSelect", "eventType": "Update", "uri": "/lol-gameflow/v1/gameflow-phase"}]"#;

fn open_engine() -> PushEngine {
    PushEngine::connect(Ok(())).unwrap()
}

fn expected() -> LcuEvent {
    LcuEvent {
        opcode: 8,
        subscription_type: LcuSubscriptionType::JsonApiEvent(
            "lol-gameflow_v1_gameflow-phase".to_string(),
        ),
        payload: LcuEventData {
            data: serde_json::Value::String("ChampSelect".to_string()),
            event_type: EventType::Update,
            uri: "/lol-gameflow/v1/gameflow-phase".to_string(),
        },
    }
}

#[test]
fn frame_is_decoded() {
    assert_eq!(from_str::<LcuEvent>(VALID), Some(expected()));
    let document: serde_json::Value = serde_json::from_str(VALID).unwrap();
    assert_eq!(LcuEvent::decode(&document), Some(expected()));
}

#[test]
fn payload_is_handed_on_as_it_came() {
    let frame = r#"[8, "OnJsonApiEvent", {"data": {"a": [1, 2.5, null, {"b": false}]}, "eventType": "Create", "uri": "/x", "extra": 1}]"#;
    let event = from_str::<LcuEvent>(frame).unwrap();
    let data: serde_json::Value =
        serde_json::from_str(r#"{"a": [1, 2.5, null, {"b": false}]}"#).unwrap();
    assert_eq!(event.payload.data, data);
    assert_eq!(event.payload.event_type, EventType::Create);
    assert_eq!(event.subscription_type, LcuSubscriptionType::AllJsonApiEvents);
    let null = r#"[8, "OnJsonApiEvent", {"data": null, "eventType": "Delete", "uri": "/x"}]"#;
    let event = from_str::<LcuEvent>(null).unwrap();
    assert_eq!(event.payload.data, serde_json::Value::Null);
    assert_eq!(event.payload.event_type, EventType::Delete);
}

#[test]
fn frames_of_another_shape_are_no_events() {
    let frames = vec![
        "",
        "not json",
        "{}",
        "[]",
        r#"[8, "OnJsonApiEvent"]"#,
        r#"[8, "OnJsonApiEvent", {"data": 1, "eventType": "Update", "uri": "/x"}, 4]"#,
        r#"[256, "OnJsonApiEvent", {"data": 1, "eventType": "Update", "uri": "/x"}]"#,
        r#"[-1, "OnJsonApiEvent", {"data": 1, "eventType": "Update", "uri": "/x"}]"#,
        r#"[8.5, "OnJsonApiEvent", {"data": 1, "eventType": "Update", "uri": "/x"}]"#,
        r#"["8", "OnJsonApiEvent", {"data": 1, "eventType": "Update", "uri": "/x"}]"#,
        r#"[8, "OnSomethingElse", {"data": 1, "eventType": "Update", "uri": "/x"}]"#,
        r#"[8, 5, {"data": 1, "eventType": "Update", "uri": "/x"}]"#,
        r#"[8, "OnJsonApiEvent", {"eventType": "Update", "uri": "/x"}]"#,
        r#"[8, "OnJsonApiEvent", {"data": 1, "eventType": "Changed", "uri": "/x"}]"#,
        r#"[8, "OnJsonApiEvent", {"data": 1, "eventType": "update", "uri": "/x"}]"#,
        r#"[8, "OnJsonApiEvent", {"data": 1, "eventType": "Update"}]"#,
        r#"[8, "OnJsonApiEvent", {"data": 1, "eventType": "Update", "uri": 7}]"#,
        r#"[8, "OnJsonApiEvent", [1, "Update", "/x"]]"#,
    ];
    for frame in frames {
        assert_eq!(from_str::<LcuEvent>(frame), None, "{frame}");
    }
}

#[test]
fn malformed_frame_then_event_then_close() {
    let mut engine = open_engine();
    assert!(engine.is_open());
    let first = engine.on_message(Some(Ok(Message::Text("this is no JSON".to_string()))));
    assert_eq!(first, PushStep::Skip);
    assert!(engine.is_open());
    let second = engine.on_message(Some(Ok(Message::Text(VALID.to_string()))));
    assert_eq!(second, PushStep::Yield(expected()));
    assert!(engine.is_open());
    let third = engine.on_message(Some(Ok(Message::Close(None))));
    assert_eq!(third, PushStep::End);
    assert!(!engine.is_open());
    let fourth = engine.on_message(Some(Ok(Message::Text(VALID.to_string()))));
    assert_eq!(fourth, PushStep::End);
    assert!(!engine.is_open());
}

#[test]
fn drain_yields_one_event_from_three_frames() {
    let mut engine = open_engine();
    let items = vec![
        Inbound::Text("{oops".to_string()),
        Inbound::Text(VALID.to_string()),
        Inbound::Close,
    ];
    assert_eq!(engine.drain(&items), vec![expected()]);
    assert!(!engine.is_open());
    assert_eq!(engine.drain(&items), vec![]);
}

#[test]
fn drain_keeps_the_order_and_stops_at_the_end() {
    let other = r#"[8, "OnJsonApiEvent_b", {"data": 2, "eventType": "Delete", "uri": "/b"}]"#;
    let mut engine = open_engine();
    let items = vec![
        Inbound::Other,
        Inbound::Text(other.to_string()),
        Inbound::Text("[]".to_string()),
        Inbound::Text(VALID.to_string()),
        Inbound::Other,
        Inbound::Failed,
        Inbound::Text(VALID.to_string()),
    ];
    let events = engine.drain(&items);
    assert_eq!(events.len(), 2);
    assert_eq!(events[0].payload.uri, "/b");
    assert_eq!(events[1], expected());
    assert!(!engine.is_open());
    let mut idle = open_engine();
    assert_eq!(idle.drain(&vec![]), vec![]);
    assert!(idle.is_open());
}

#[test]
fn messages_that_are_no_text_are_skipped() {
    let mut engine = open_engine();
    let messages = vec![
        Message::Binary(VALID.as_bytes().to_vec()),
        Message::Ping(vec![1, 2]),
        Message::Pong(vec![]),
    ];
    for message in messages {
        assert_eq!(engine.on_message(Some(Ok(message))), PushStep::Skip);
        assert!(engine.is_open());
    }
}

#[test]
fn error_and_end_close_the_engine() {
    let mut engine = open_engine();
    assert_eq!(engine.on_message(Some(Err(Error::Utf8))), PushStep::End);
    assert!(!engine.is_open());
    let mut engine = open_engine();
    assert_eq!(engine.on_message(None), PushStep::End);
    assert!(!engine.is_open());
    let mut engine = open_engine();
    assert_eq!(engine.on_inbound(&Inbound::Ended), PushStep::End);
    assert_eq!(engine.on_inbound(&Inbound::Other), PushStep::End);
}

#[test]
fn requests_of_an_open_engine() {
    let engine = open_engine();
    let key = LcuSubscriptionType::JsonApiEvent("/lol-gameflow/v1/session".to_string());
    assert_eq!(
        engine.subscribe(&key),
        Ok("[5, \"OnJsonApiEvent_lol-gameflow_v1_session\"]".to_string())
    );
    assert_eq!(
        engine.unsubscribe(&key),
        Ok("[6, \"OnJsonApiEvent_lol-gameflow_v1_session\"]".to_string())
    );
    assert_eq!(
        engine.request(7, &LcuSubscriptionType::AllLcdsEvents),
        Ok("[7, \"OnJsonApiEvent\"]".to_string())
    );
}

#[test]
fn requests_are_json_whatever_the_path_holds() {
    let engine = open_engine();
    let paths = ["a\"b", "back\\slash", "line\nfeed", "\u{0}\u{1f}\u{7f}", "käse/\u{1f600}", ""];
    for path in paths {
        for key in [
            LcuSubscriptionType::JsonApiEvent(path.to_string()),
            LcuSubscriptionType::LcdsEvent(path.to_string()),
        ] {
            let sent = engine.subscribe(&key).unwrap();
            let frame: serde_json::Value = serde_json::from_str(&sent).unwrap();
            assert_eq!(frame.as_array().unwrap().len(), 2);
            assert_eq!(frame[0].as_u64(), Some(5));
            assert_eq!(frame[1].as_str(), Some(key.to_wire().as_str()));
            let sent = engine.unsubscribe(&key).unwrap();
            let frame: serde_json::Value = serde_json::from_str(&sent).unwrap();
            assert_eq!(frame.as_array().unwrap().len(), 2);
            assert_eq!(frame[0].as_u64(), Some(6));
            assert_eq!(frame[1].as_str(), Some(key.to_wire().as_str()));
        }
    }
    assert_eq!(
        engine.subscribe(&LcuSubscriptionType::JsonApiEvent("a\"b".to_string())),
        Ok("[5, \"OnJsonApiEvent_a\\\"b\"]".to_string())
    );
}

#[test]
fn requests_of_a_closed_engine_fail_fast() {
    let mut engine = open_engine();
    engine.on_inbound(&Inbound::Close);
    let key = LcuSubscriptionType::AllJsonApiEvents;
    let closed =
        LcuWebsocketError::Disconnected("Trying to work with closed connection".to_string());
    assert_eq!(engine.subscribe(&key), Err(closed.clone()));
    assert_eq!(engine.unsubscribe(&key), Err(closed.clone()));
    assert_eq!(LcuWebsocketError::Disconnected(Error::AlreadyClosed.to_string()), closed);
}

#[test]
fn send_errors_are_told_apart() {
    let mut engine = open_engine();
    assert_eq!(engine.on_send_error(&Error::Utf8), LcuWebsocketError::SendError);
    assert_eq!(engine.on_send_error(&Error::AttackAttempt), LcuWebsocketError::SendError);
    assert!(engine.is_open());
    assert_eq!(
        engine.on_send_error(&Error::ConnectionClosed),
        LcuWebsocketError::Disconnected("Connection closed normally".to_string())
    );
    assert!(!engine.is_open());
    let mut engine = open_engine();
    assert_eq!(
        engine.on_send_error(&Error::AlreadyClosed),
        LcuWebsocketError::Disconnected("Trying to work with closed connection".to_string())
    );
    assert!(!engine.is_open());
    let mut engine = open_engine();
    assert_eq!(engine.send_failed(false, "x".to_string()), LcuWebsocketError::SendError);
    assert!(engine.is_open());
    assert_eq!(
        engine.send_failed(true, "gone".to_string()),
        LcuWebsocketError::Disconnected("gone".to_string())
    );
    assert!(!engine.is_open());
}

#[test]
fn connect_failures_have_their_errors() {
    assert_eq!(
        PushEngine::connect(Err(ConnectFailure::Unavailable("no client".to_string()))),
        Err(LcuWebsocketError::LcuNotAvailable("no client".to_string()))
    );
    assert_eq!(
        PushEngine::connect(Err(ConnectFailure::Setup)),
        Err(LcuWebsocketError::AuthError)
    );
    assert_eq!(
        PushEngine::connect(Err(ConnectFailure::Handshake("refused".to_string()))),
        Err(LcuWebsocketError::Disconnected("refused".to_string()))
    );
}

#[test]
fn an_unreachable_peer_is_not_available() {
    let refused = std::io::Error::new(std::io::ErrorKind::ConnectionRefused, "refused");
    let failure = on_connect_error(&Error::Io(refused));
    assert_eq!(failure, ConnectFailure::Unavailable("IO error: refused".to_string()));
    assert_eq!(
        PushEngine::connect(Err(failure)),
        Err(LcuWebsocketError::LcuNotAvailable("IO error: refused".to_string()))
    );
    assert_eq!(
        connect_failure(SocketFailure::Io, "gone".to_string()),
        ConnectFailure::Unavailable("gone".to_string())
    );
}

#[test]
fn a_malformed_setup_is_an_auth_error() {
    assert_eq!(on_connect_error(&Error::Tls(TlsError::InvalidDnsName)), ConnectFailure::Setup);
    assert_eq!(on_connect_error(&Error::Url(UrlError::NoHostName)), ConnectFailure::Setup);
    for kind in [SocketFailure::Tls, SocketFailure::Url] {
        assert_eq!(connect_failure(kind, "x".to_string()), ConnectFailure::Setup);
    }
    assert_eq!(
        PushEngine::connect(Err(on_connect_error(&Error::Url(UrlError::EmptyHostName)))),
        Err(LcuWebsocketError::AuthError)
    );
}

#[test]
fn a_failed_handshake_is_a_disconnect() {
    assert_eq!(
        on_connect_error(&Error::Utf8),
        ConnectFailure::Handshake("UTF-8 encoding error".to_string())
    );
    let forbidden = http::Response::builder().status(403).body(None).unwrap();
    assert_eq!(
        on_connect_error(&Error::Http(forbidden)),
        ConnectFailure::Handshake("HTTP error: 403 Forbidden".to_string())
    );
    assert_eq!(
        on_connect_error(&Error::Protocol(ProtocolError::MissingConnectionUpgradeHeader)),
        ConnectFailure::Handshake(
            "WebSocket protocol error: No \"Connection: upgrade\" header".to_string()
        )
    );
    assert_eq!(
        on_connect_error(&Error::Capacity(CapacityError::TooManyHeaders)),
        ConnectFailure::Handshake("Space limit exceeded: Too many headers".to_string())
    );
    assert_eq!(
        on_connect_error(&Error::AttackAttempt),
        ConnectFailure::Handshake("Attack attempt detected".to_string())
    );
    let bad_status = http::Response::builder().status(1000).body(()).unwrap_err();
    let shown = bad_status.to_string();
    assert_eq!(
        on_connect_error(&Error::HttpFormat(bad_status)),
        ConnectFailure::Handshake(format!("HTTP format error: {shown}"))
    );
    assert_eq!(
        on_connect_error(&Error::WriteBufferFull(Message::text("x"))),
        ConnectFailure::Handshake("Write buffer is full".to_string())
    );
    assert_eq!(
        on_connect_error(&Error::ConnectionClosed),
        ConnectFailure::Handshake("Connection closed normally".to_string())
    );
    assert_eq!(
        on_connect_error(&Error::AlreadyClosed),
        ConnectFailure::Handshake("Trying to work with closed connection".to_string())
    );
    for kind in [
        SocketFailure::ConnectionClosed,
        SocketFailure::AlreadyClosed,
        SocketFailure::Capacity,
        SocketFailure::Protocol,
        SocketFailure::WriteBufferFull,
        SocketFailure::Utf8,
        SocketFailure::AttackAttempt,
        SocketFailure::Http,
        SocketFailure::HttpFormat,
    ] {
        assert_eq!(
            connect_failure(kind, "x".to_string()),
            ConnectFailure::Handshake("x".to_string())
        );
    }
    assert_eq!(
        PushEngine::connect(Err(on_connect_error(&Error::Utf8))),
        Err(LcuWebsocketError::Disconnected("UTF-8 encoding error".to_string()))
    );
}

#[test]
fn socket_failures_by_kind() {
    let all = [
        SocketFailure::ConnectionClosed,
        SocketFailure::AlreadyClosed,
        SocketFailure::Io,
        SocketFailure::Tls,
        SocketFailure::Capacity,
        SocketFailure::Protocol,
        SocketFailure::WriteBufferFull,
        SocketFailure::Utf8,
        SocketFailure::AttackAttempt,
        SocketFailure::Url,
        SocketFailure::Http,
        SocketFailure::HttpFormat,
    ];
    for kind in all {
        assert_eq!(
            kind.is_closed(),
            matches!(kind, SocketFailure::ConnectionClosed | SocketFailure::AlreadyClosed)
        );
        assert_eq!(kind.is_unreachable(), matches!(kind, SocketFailure::Io));
        assert_eq!(
            kind.is_malformed(),
            matches!(kind, SocketFailure::Tls | SocketFailure::Url)
        );
    }
}

#[test]
fn only_a_closed_connection_closes_the_engine_on_send() {
    let broken = std::io::Error::new(std::io::ErrorKind::BrokenPipe, "pipe");
    let failures = [
        Error::Io(broken),
        Error::Tls(TlsError::InvalidDnsName),
        Error::Capacity(CapacityError::TooManyHeaders),
        Error::Protocol(ProtocolError::SendAfterClosing),
        Error::WriteBufferFull(Message::text("x")),
        Error::Url(UrlError::NoHostName),
    ];
    for failure in &failures {
        let mut engine = open_engine();
        assert_eq!(engine.on_send_error(failure), LcuWebsocketError::SendError);
        assert!(engine.is_open());
    }
}

#[test]
fn websocket_address() {
    assert_eq!(websocket_url(51234), "wss://127.0.0.1:51234");
    assert_eq!(websocket_url(0), "wss://127.0.0.1:0");
    assert_eq!(websocket_url(u16::MAX), "wss://127.0.0.1:65535");
}

#[test]
fn websocket_errors_as_text() {
    assert_eq!(
        LcuWebsocketError::LcuNotAvailable("x".to_string()).message(),
        "LCU API not available: x"
    );
    assert_eq!(LcuWebsocketError::AuthError.message(), "Authentication error");
    assert_eq!(LcuWebsocketError::SendError.message(), "Error sending message");
    assert_eq!(
        LcuWebsocketError::Disconnected("y".to_string()).message(),
        "Websocket disconnected: y"
    );
}
