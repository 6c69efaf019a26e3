use dbus::message::{Arg, Message, MessageType};
use dbus::reply::{default_reply, needs_machine_id, peer, unknown_method};

const PEER: &str = "org.freedesktop.DBus.Peer";
const UNKNOWN: &str = "org.freedesktop.DBus.Error.UnknownMethod";

fn message(msg_type: MessageType, interface: Option<&str>, member: Option<&str>) -> Message {
    let mut m = Message::new(msg_type);
    m.serial = 12;
    m.sender = Some(":1.7".to_string());
    m.path = Some("/".to_string());
    m.interface = interface.map(|s| s.to_string());
    m.member = member.map(|s| s.to_string());
    m
}

fn call(interface: Option<&str>, member: Option<&str>) -> Message {
    message(MessageType::MethodCall, interface, member)
}

fn assert_reply(r: &Message, msg_type: MessageType, args: Vec<Arg>) {
    assert_eq!(r.msg_type, msg_type);
    assert_eq!(r.reply_serial, Some(12));
    assert_eq!(r.destination.as_deref(), Some(":1.7"));
    assert!(r.no_reply);
    assert_eq!(r.serial, 0);
    assert_eq!(r.sender, None);
    assert_eq!(r.path, None);
    assert_eq!(r.interface, None);
    assert_eq!(r.member, None);
    assert_eq!(r.args, args);
}

fn assert_error(r: &Message, name: &str, text: &str) {
    assert_reply(r, MessageType::Error, vec![Arg::Str(text.to_string())]);
    assert_eq!(r.error_name.as_deref(), Some(name));
}

#[test]
fn ping_is_returned() {
    let r = default_reply(&call(Some(PEER), Some("Ping")), None).unwrap();
    assert_reply(&r, MessageType::MethodReturn, vec![]);
    assert_eq!(r.error_name, None);
}

#[test]
fn machine_id_is_returned() {
    let m = call(Some(PEER), Some("GetMachineId"));
    assert!(needs_machine_id(&m));
    let r = default_reply(&m, Some("0123abcd")).unwrap();
    assert_reply(&r, MessageType::MethodReturn, vec![Arg::Str("0123abcd".to_string())]);
}

#[test]
fn missing_machine_id_is_an_error() {
    let r = default_reply(&call(Some(PEER), Some("GetMachineId")), None).unwrap();
    assert_error(&r, "org.freedesktop.DBus.Error.Failed", "Failed to retreive UUID");
}

#[test]
fn unknown_peer_method_is_an_error() {
    let r = default_reply(&call(Some(PEER), Some("Pong")), Some("id")).unwrap();
    assert_error(&r, UNKNOWN, "Method does not exist");
    let r = default_reply(&call(Some(PEER), None), Some("id")).unwrap();
    assert_error(&r, UNKNOWN, "Method does not exist");
}

#[test]
fn call_to_another_interface_is_unknown() {
    let text = "Path, Interface, or Method does not exist";
    let m = call(Some("com.example.Other"), Some("Ping"));
    assert!(peer(&m, None).is_none());
    assert!(!needs_machine_id(&m));
    assert_error(&default_reply(&m, None).unwrap(), UNKNOWN, text);
    assert_error(&unknown_method(&m).unwrap(), UNKNOWN, text);
    let m = call(None, Some("GetMachineId"));
    assert!(!needs_machine_id(&m));
    assert_error(&default_reply(&m, Some("id")).unwrap(), UNKNOWN, text);
}

#[test]
fn only_calls_are_answered() {
    for t in [MessageType::MethodReturn, MessageType::Error, MessageType::Signal] {
        for interface in [None, Some(PEER), Some("com.example.Other")] {
            for member in [None, Some("Ping"), Some("GetMachineId")] {
                let m = message(t, interface, member);
                assert!(default_reply(&m, Some("id")).is_none());
                assert!(unknown_method(&m).is_none());
                assert!(!needs_machine_id(&m));
            }
        }
    }
}

#[test]
fn replies_are_not_answered() {
    for member in [None, Some("Ping"), Some("GetMachineId"), Some("Pong")] {
        let r = default_reply(&call(Some(PEER), member), Some("id")).unwrap();
        assert!(default_reply(&r, Some("id")).is_none());
    }
}

#[test]
fn call_without_sender_gets_a_reply_without_destination() {
    let mut m = call(Some(PEER), Some("Ping"));
    m.sender = None;
    let r = default_reply(&m, None).unwrap();
    assert_eq!(r.destination, None);
    assert_eq!(r.reply_serial, Some(12));
}

#[test]
fn call_that_wants_no_reply_is_still_answered() {
    let mut m = call(None, Some("Method"));
    m.no_reply = true;
    assert!(default_reply(&m, None).is_some());
}

#[test]
fn machine_id_shows_only_where_asked_for() {
    let m = call(Some(PEER), Some("Ping"));
    assert!(!needs_machine_id(&m));
    let a = default_reply(&m, None).unwrap();
    let b = default_reply(&m, Some("id")).unwrap();
    assert_eq!(a.args, b.args);
    assert_eq!(a.msg_type, b.msg_type);
}
