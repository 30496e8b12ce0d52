use futures_loco_protocol::session::LocoSession;
use futures_loco_protocol::LocoClient;
use talk_loco_client::command::{
    Command, Field, Payload, Value, GET_TRAILER, LOAD_CHANNEL_LIST, LOGIN_LIST, PING, SET_STATUS,
};
use talk_loco_client::error::{RequestError, STATUS_OK};
use talk_loco_client::method::METHOD_CAPACITY;
use talk_loco_client::session::{TalkSession, STATUS_KEY, TRAILER_CHAT_TYPE_KEY, TRAILER_KEY};

fn idle_session() -> LocoSession {
    LocoSession::new(LocoClient::new(())).0
}

#[test]
fn wire_names_are_exact() {
    assert_eq!(PING, "PING");
    assert_eq!(SET_STATUS, "SETST");
    assert_eq!(LOGIN_LIST, "LOGINLIST");
    assert_eq!(LOAD_CHANNEL_LIST, "LCHATLIST");
    assert_eq!(GET_TRAILER, "GETTRAILER");
}

#[test]
fn wire_keys_are_exact() {
    assert_eq!(STATUS_KEY, "st");
    assert_eq!(TRAILER_KEY, "k");
    assert_eq!(TRAILER_CHAT_TYPE_KEY, "t");
}

#[test]
fn wire_names_fit_a_method() {
    for name in [PING, SET_STATUS, LOGIN_LIST, LOAD_CHANNEL_LIST, GET_TRAILER] {
        assert!(name.len() <= METHOD_CAPACITY);
        assert!(Command::new(name, Payload::Document(Vec::new())).is_some());
    }
}

#[test]
fn ping_carries_nothing() {
    let session = idle_session();
    let command = TalkSession(&session).ping();
    assert_eq!(&*command.method, "PING");
    assert_eq!(command.payload, Payload::Document(Vec::new()));
}

#[test]
fn ping_builds_the_same_command_each_time() {
    let session = idle_session();
    let talk = TalkSession(&session);
    let first = talk.ping();
    let second = talk.ping();
    assert_eq!(first.method, second.method);
    assert_eq!(first.payload, second.payload);
}

#[test]
fn set_status_carries_the_status() {
    let session = idle_session();
    let command = TalkSession(&session).set_status(2);
    assert_eq!(&*command.method, "SETST");
    assert_eq!(
        command.payload,
        Payload::Document(vec![Field { key: "st", value: Value::Int32(2) }])
    );
}

#[test]
fn set_status_passes_any_value_on() {
    let session = idle_session();
    for status in [0, -1, 1, i32::MIN, i32::MAX] {
        let command = TalkSession(&session).set_status(status);
        assert_eq!(&*command.method, "SETST");
        assert_eq!(
            command.payload,
            Payload::Document(vec![Field { key: "st", value: Value::Int32(status) }])
        );
    }
}

#[test]
fn get_trailer_carries_key_then_chat_type() {
    let session = idle_session();
    let command = TalkSession(&session).get_trailer(1, "a1b2c3");
    assert_eq!(&*command.method, "GETTRAILER");
    assert_eq!(
        command.payload,
        Payload::Document(vec![
            Field { key: "k", value: Value::Text("a1b2c3") },
            Field { key: "t", value: Value::Int32(1) },
        ])
    );
}

#[test]
fn get_trailer_takes_an_empty_key_and_a_negative_type() {
    let session = idle_session();
    let command = TalkSession(&session).get_trailer(-7, "");
    assert_eq!(&*command.method, "GETTRAILER");
    assert_eq!(
        command.payload,
        Payload::Document(vec![
            Field { key: "k", value: Value::Text("") },
            Field { key: "t", value: Value::Int32(-7) },
        ])
    );
}

#[test]
fn command_keeps_name_and_payload() {
    let payload = Payload::Document(vec![Field { key: "n", value: Value::Int32(5) }]);
    let command = Command::new("CHATONROOM", payload.clone()).expect("ten bytes fit");
    assert_eq!(&*command.method, "CHATONROOM");
    assert_eq!(command.method.len(), 10);
    assert_eq!(command.payload, payload);
}

#[test]
fn command_name_may_take_eleven_bytes() {
    let command = Command::new("ELEVENBYTES", Payload::Document(Vec::new()));
    assert_eq!(&*command.expect("eleven bytes fit").method, "ELEVENBYTES");
}

#[test]
fn command_name_may_not_take_twelve_bytes() {
    assert!(Command::new("TWELVE_BYTES", Payload::Document(Vec::new())).is_none());
}

#[test]
fn command_name_is_measured_in_bytes() {
    // Six letters of two bytes each.
    assert_eq!("éééééé".chars().count(), 6);
    assert!(Command::new("éééééé", Payload::Document(Vec::new())).is_none());
    // Five of them and one of one byte.
    let command = Command::new("éééééA", Payload::Document(Vec::new()));
    assert_eq!(&*command.expect("eleven bytes fit").method, "éééééA");
}

#[test]
fn command_name_may_be_empty() {
    let command = Command::new("", Payload::Document(Vec::new())).expect("no bytes fit");
    assert!(command.method.is_empty());
}

#[test]
fn status_zero_is_success() {
    assert_eq!(STATUS_OK, 0);
    assert_eq!(RequestError::check_status(0), Ok(()));
}

#[test]
fn other_statuses_are_failures() {
    for status in [1, -1, -300, -950, i32::MIN, i32::MAX] {
        assert_eq!(RequestError::check_status(status), Err(RequestError::Status(status)));
    }
}
