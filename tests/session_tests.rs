use dorico_bridge::bridge::{classify_remote, Bridge, InboundEvent, RemoteMessage};
use dorico_bridge::command::Command;
use dorico_bridge::handshake::{Handshake, ProtocolViolation};
use dorico_bridge::json::{Member, Object};
use dorico_bridge::router::Key;

fn status(text: &str) -> InboundEvent {
    match classify_remote(text) {
        RemoteMessage::Event(e) => e,
        other => panic!("not an event: {:?}", other),
    }
}

#[test]
fn handshake_establishes_session_with_received_token() {
    let (mut hs, connect) = Handshake::start();
    assert!(connect.contains("\"connect\""));
    assert!(hs.is_pending());
    let accept = hs.receive(r#"{"message":"sessiontoken","sessionToken":"abc-42"}"#);
    assert_eq!(
        accept,
        Some(r#"{"message": "acceptsessiontoken","sessionToken":"abc-42"}"#.to_string())
    );
    assert!(hs.is_pending());
    assert_eq!(hs.session_token(), None);
    assert_eq!(hs.receive(r#"{"code":"kConnected","message":"response"}"#), None);
    assert!(!hs.is_pending());
    assert_eq!(hs.session_token(), Some("abc-42".to_string()));
    assert_eq!(hs.failure(), None);
}

#[test]
fn handshake_missing_token_fails_before_second_reply() {
    let (mut hs, _) = Handshake::start();
    assert_eq!(hs.receive(r#"{"message":"sessiontoken"}"#), None);
    assert_eq!(hs.failure(), Some(ProtocolViolation::MissingField));
    assert!(!hs.is_pending());
    assert_eq!(hs.receive(r#"{"code":"kConnected"}"#), None);
    assert_eq!(hs.failure(), Some(ProtocolViolation::MissingField));
    assert_eq!(hs.session_token(), None);
}

#[test]
fn handshake_errors() {
    let cases = [
        ("not json", ProtocolViolation::NotAnObject),
        ("[1, 2]", ProtocolViolation::NotAnObject),
        (r#"{"sessionToken":"x"}"#, ProtocolViolation::MissingField),
        (r#"{"message":5,"sessionToken":"x"}"#, ProtocolViolation::NotAString),
        (r#"{"message":"status","sessionToken":"x"}"#, ProtocolViolation::UnexpectedMessage),
        (r#"{"message":"sessiontoken","sessionToken":true}"#, ProtocolViolation::NotAString),
    ];
    for (text, err) in cases {
        let (mut hs, _) = Handshake::start();
        assert_eq!(hs.receive(text), None);
        assert_eq!(hs.failure(), Some(err), "{}", text);
    }
}

#[test]
fn handshake_rejects_other_code() {
    let (mut hs, _) = Handshake::start();
    assert!(hs.receive(r#"{"message":"sessiontoken","sessionToken":"t"}"#).is_some());
    assert_eq!(hs.receive(r#"{"code":"kDenied"}"#), None);
    assert_eq!(hs.failure(), Some(ProtocolViolation::NotConnected));
    let (mut hs2, _) = Handshake::start();
    assert!(hs2.receive(r#"{"message":"sessiontoken","sessionToken":"t"}"#).is_some());
    assert_eq!(hs2.receive(r#"{"message":"response"}"#), None);
    assert_eq!(hs2.failure(), Some(ProtocolViolation::MissingField));
}

#[test]
fn decoded_object_members() {
    let o = Object::parse(r#"{"message":"status","noteInputActive":true,"n":3}"#).unwrap();
    assert!(matches!(o.get("message"), Some(Member::Str(s)) if s == "status"));
    assert!(matches!(o.get("noteInputActive"), Some(Member::Bool(true))));
    assert!(matches!(o.get("n"), Some(Member::Other)));
    assert!(o.get("missing").is_none());
    assert!(Object::parse("\"just a string\"").is_none());
}

#[test]
fn remote_messages_are_sorted() {
    assert!(matches!(
        classify_remote(r#"{"message":"status"}"#),
        RemoteMessage::Event(InboundEvent::RemoteStatus(_))
    ));
    assert!(matches!(
        classify_remote(r#"{"message":"selectionchanged"}"#),
        RemoteMessage::Event(InboundEvent::RemoteSelectionChanged(_))
    ));
    assert!(matches!(classify_remote(r#"{"message":"response"}"#), RemoteMessage::Response));
    assert!(matches!(
        classify_remote(r#"{"message":"other"}"#),
        RemoteMessage::Unrecognized(s) if s == "other"
    ));
    assert!(matches!(classify_remote("{"), RemoteMessage::Malformed));
    assert!(matches!(classify_remote(r#"{"code":"x"}"#), RemoteMessage::Malformed));
}

#[test]
fn status_push_switches_to_fine_threshold() {
    let mut b = Bridge::new("tok".to_string());
    assert!(!b.context().note_input_active);
    let out = b.handle(&status(r#"{"message":"status","noteInputActive":true}"#));
    assert!(out.is_empty());
    assert!(b.context().note_input_active);
    let mut sent = Vec::new();
    for d in [50, 60, 70, 30] {
        sent.extend(b.handle(&InboundEvent::DeviceJog(0, d)));
    }
    assert_eq!(
        sent,
        vec![r#"{"message": "command","sessionToken":"tok","command":"NoteInput.MoveRight"}"#.to_string()]
    );
    assert_eq!(b.jog_value(), 0);
}

#[test]
fn status_without_flag_keeps_context() {
    let mut b = Bridge::new("tok".to_string());
    b.handle(&status(r#"{"message":"status","noteInputActive":true}"#));
    b.handle(&status(r#"{"message":"status"}"#));
    assert!(b.context().note_input_active);
    b.handle(&status(r#"{"message":"status","noteInputActive":"no"}"#));
    assert!(b.context().note_input_active);
    b.handle(&status(r#"{"message":"selectionchanged","noteInputActive":false}"#));
    assert!(b.context().note_input_active);
    b.handle(&status(r#"{"message":"status","noteInputActive":false}"#));
    assert!(!b.context().note_input_active);
}

#[test]
fn status_keeps_accumulated_jog() {
    let mut b = Bridge::new("tok".to_string());
    assert!(b.handle(&InboundEvent::DeviceJog(1, 150)).is_empty());
    b.handle(&status(r#"{"message":"status","noteInputActive":true}"#));
    assert_eq!(b.jog_value(), 150);
    assert_eq!(b.decide(&InboundEvent::DeviceJog(1, 60)), vec![Command::MoveRight]);
}

#[test]
fn bridge_routes_keys() {
    let mut b = Bridge::new("s".to_string());
    let out = b.handle(&InboundEvent::DeviceKey(Key::Shtl, true));
    assert_eq!(
        out,
        vec![
            r#"{"message": "command","sessionToken":"s","command":"Window.SwitchMode?WindowMode=kWriteMode"}"#.to_string(),
            r#"{"message": "command","sessionToken":"s","command":"NoteInput.Enter?Set=true"}"#.to_string(),
        ]
    );
    assert!(b.handle(&InboundEvent::DeviceKey(Key::Other(3), true)).is_empty());
    assert_eq!(b.decide(&InboundEvent::DeviceKey(Key::Roll, true)), vec![Command::SlurStart]);
    assert_eq!(b.decide(&InboundEvent::DeviceKey(Key::Roll, false)), vec![Command::SlurStop]);
}
