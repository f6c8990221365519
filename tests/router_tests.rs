use dorico_bridge::command::{dorico_accept_message, dorico_command, dorico_connect_message, Command};
use dorico_bridge::router::{route_key, Key};

#[test]
fn roll_down_then_up_starts_then_stops_slur() {
    let mut sent = route_key(Key::Roll, true);
    sent.extend(route_key(Key::Roll, false));
    assert_eq!(sent, vec![Command::SlurStart, Command::SlurStop]);
}

#[test]
fn shuttle_key_enters_write_mode_then_note_input() {
    assert_eq!(
        route_key(Key::Shtl, true),
        vec![Command::SwitchToWriteMode, Command::EnterNoteInput]
    );
    assert_eq!(route_key(Key::Shtl, false), vec![]);
}

#[test]
fn duration_and_transport_keys() {
    assert_eq!(route_key(Key::Cam4, true), vec![Command::NoteValueEighth]);
    assert_eq!(route_key(Key::Cam5, true), vec![Command::NoteValueQuarter]);
    assert_eq!(route_key(Key::Cam6, true), vec![Command::NoteValueHalf]);
    assert_eq!(route_key(Key::StopPlay, true), vec![Command::PlayFromSelection]);
    assert_eq!(route_key(Key::Cam4, false), vec![]);
    assert_eq!(route_key(Key::StopPlay, false), vec![]);
}

#[test]
fn other_keys_do_nothing() {
    assert_eq!(route_key(Key::Other(7), true), vec![]);
    assert_eq!(route_key(Key::Other(7), false), vec![]);
}

#[test]
fn routing_is_repeatable() {
    for code in 0..=255u8 {
        let key = Key::from_code(code);
        for down in [true, false] {
            let first = route_key(key, down);
            let _ = route_key(Key::Shtl, true);
            let _ = route_key(Key::Roll, false);
            assert_eq!(route_key(key, down), first);
        }
    }
}

#[test]
fn device_codes_map_to_keys() {
    assert_eq!(Key::from_code(28), Key::Shtl);
    assert_eq!(Key::from_code(54), Key::Cam4);
    assert_eq!(Key::from_code(55), Key::Cam5);
    assert_eq!(Key::from_code(56), Key::Cam6);
    assert_eq!(Key::from_code(11), Key::Roll);
    assert_eq!(Key::from_code(60), Key::StopPlay);
    assert_eq!(Key::from_code(29), Key::Other(29));
}

#[test]
fn command_names() {
    assert_eq!(Command::SlurStart.name(), "NoteInput.SlurStart");
    assert_eq!(Command::NoteValueEighth.name(), "NoteInput.NoteValue?LogDuration=kQuaver");
    assert_eq!(Command::NavigateLeft.name(), "EventEdit.NavigateLeft");
    assert_eq!(Command::MoveRight.name(), "NoteInput.MoveRight");
}

#[test]
fn message_texts() {
    assert_eq!(
        dorico_connect_message(),
        r#"{"message": "connect","clientName": "TestClient","handshakeVersion": "1.0"}"#
    );
    assert_eq!(
        dorico_accept_message("tok123"),
        r#"{"message": "acceptsessiontoken","sessionToken":"tok123"}"#
    );
    assert_eq!(
        dorico_command("NoteInput.SlurStart", "tok123"),
        r#"{"message": "command","sessionToken":"tok123","command":"NoteInput.SlurStart"}"#
    );
}
