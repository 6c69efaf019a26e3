use dbus::channel::{MatchRule, MatchingReceiver, Sender};
use dbus::context::Context;
use dbus::error::MethodErr;
use dbus::message::{Arg, Message, MessageType};
use std::cell::RefCell;

struct Outbox {
    sent: RefCell<Vec<Message>>,
    broken: bool,
}

impl Outbox {
    fn new(broken: bool) -> Outbox {
        Outbox { sent: RefCell::new(Vec::new()), broken }
    }
}

impl Sender for Outbox {
    fn send(&self, msg: Message) -> Result<u32, ()> {
        self.sent.borrow_mut().push(msg);
        if self.broken {
            Err(())
        } else {
            Ok(99)
        }
    }
}

fn call() -> Message {
    let mut m = Message::new(MessageType::MethodCall);
    m.serial = 12;
    m.sender = Some(":1.7".to_string());
    m.path = Some("/com/example".to_string());
    m.interface = Some("com.example.Calc".to_string());
    m.member = Some("Sum".to_string());
    m
}

fn context(m: Message) -> Context<u8> {
    Context::new(m).unwrap()
}

fn failure() -> MethodErr {
    MethodErr { name: "com.example.Failed".to_string(), description: "no luck".to_string() }
}

fn flush_one(c: &mut Context<u8>) -> Message {
    let out = Outbox::new(false);
    assert_eq!(c.flush_messages(&out), Ok(()));
    let mut sent = out.sent.into_inner();
    assert_eq!(sent.len(), 1);
    sent.pop().unwrap()
}

#[test]
fn context_shows_the_call() {
    let c = context(call());
    assert_eq!(c.path(), "/com/example");
    assert_eq!(c.interface(), Some("com.example.Calc"));
    assert_eq!(c.method(), "Sum");
    assert_eq!(c.message().serial, 12);
    assert!(!c.has_reply());
}

#[test]
fn interface_is_optional() {
    let mut m = call();
    m.interface = None;
    assert_eq!(context(m).interface(), None);
}

#[test]
fn context_needs_a_complete_call() {
    for t in [MessageType::MethodReturn, MessageType::Error, MessageType::Signal] {
        let mut m = call();
        m.msg_type = t;
        assert!(Context::<u8>::new(m).is_none());
    }
    let mut m = call();
    m.path = None;
    assert!(Context::<u8>::new(m).is_none());
    let mut m = call();
    m.member = None;
    assert!(Context::<u8>::new(m).is_none());
}

#[test]
fn reply_is_filled_in_and_sent() {
    let mut c = context(call());
    c.set_reply(|m| m.args.push(Arg::Int32(3)));
    assert!(c.has_reply());
    let r = flush_one(&mut c);
    assert_eq!(r.msg_type, MessageType::MethodReturn);
    assert_eq!(r.reply_serial, Some(12));
    assert_eq!(r.destination.as_deref(), Some(":1.7"));
    assert!(r.no_reply);
    assert_eq!(r.args, vec![Arg::Int32(3)]);
    assert!(!c.has_reply());
}

#[test]
fn first_reply_stands() {
    let mut c = context(call());
    c.set_reply(|m| m.args.push(Arg::Int32(1)));
    c.set_reply(|_| panic!("a second reply was asked for"));
    assert_eq!(flush_one(&mut c).args, vec![Arg::Int32(1)]);
}

#[test]
fn failed_check_replies_with_the_error() {
    let mut c = context(call());
    assert_eq!(c.check(|_| Err::<u8, MethodErr>(failure())), Err(()));
    c.set_reply(|_| panic!("a reply was asked for after an error"));
    let r = flush_one(&mut c);
    assert_eq!(r.msg_type, MessageType::Error);
    assert_eq!(r.error_name.as_deref(), Some("com.example.Failed"));
    assert_eq!(r.reply_serial, Some(12));
    assert_eq!(r.args, vec![Arg::Str("no luck".to_string())]);
}

#[test]
fn error_replaces_a_reply() {
    let mut c = context(call());
    let r = c.check(|c| {
        c.set_reply(|m| m.args.push(Arg::Int32(1)));
        Err::<u8, MethodErr>(failure())
    });
    assert_eq!(r, Err(()));
    assert_eq!(flush_one(&mut c).msg_type, MessageType::Error);
}

#[test]
fn passed_check_keeps_what_was_done() {
    let mut c = context(call());
    let r = c.check(|c| {
        c.give_propctx(5);
        Ok::<&str, MethodErr>("value")
    });
    assert_eq!(r, Ok("value"));
    assert!(!c.has_reply());
    assert_eq!(c.take_propctx(), Some(5));
}

#[test]
fn unwanted_reply_is_not_held() {
    let mut m = call();
    m.no_reply = true;
    let mut c = context(m);
    c.set_reply(|_| panic!("a reply was asked for"));
    assert!(!c.has_reply());
    assert_eq!(c.check(|_| Err::<u8, MethodErr>(failure())), Err(()));
    assert!(!c.has_reply());
    c.fail(&failure());
    assert!(!c.has_reply());
    let out = Outbox::new(true);
    assert_eq!(c.flush_messages(&out), Ok(()));
    assert_eq!(out.sent.into_inner().len(), 0);
}

#[test]
fn failed_send_is_reported_once() {
    let mut c = context(call());
    c.set_reply(|_| {});
    let out = Outbox::new(true);
    assert_eq!(c.flush_messages(&out), Err(()));
    assert!(!c.has_reply());
    assert_eq!(c.flush_messages(&out), Ok(()));
    assert_eq!(out.sent.into_inner().len(), 1);
}

#[test]
fn nothing_is_sent_without_a_reply() {
    let mut c = context(call());
    let out = Outbox::new(true);
    assert_eq!(c.flush_messages(&out), Ok(()));
    assert_eq!(c.flush_messages(&out), Ok(()));
    assert_eq!(out.sent.into_inner().len(), 0);
    assert!(!c.has_reply());
    assert_eq!(c.message().serial, 12);
}

#[test]
fn second_sender_gets_nothing() {
    let mut c = context(call());
    c.set_reply(|_| {});
    flush_one(&mut c);
    let second = Outbox::new(true);
    assert_eq!(c.flush_messages(&second), Ok(()));
    assert_eq!(second.sent.into_inner().len(), 0);
}

#[test]
fn another_reply_can_follow_a_flush() {
    let mut c = context(call());
    c.set_reply(|m| m.args.push(Arg::Int32(1)));
    flush_one(&mut c);
    c.set_reply(|m| m.args.push(Arg::Int32(2)));
    assert_eq!(flush_one(&mut c).args, vec![Arg::Int32(2)]);
}

#[test]
fn property_state_is_taken_once() {
    let mut c = context(call());
    assert_eq!(c.take_propctx(), None);
    c.give_propctx(1);
    c.give_propctx(2);
    assert_eq!(c.take_propctx(), Some(2));
    assert_eq!(c.take_propctx(), None);
}

struct OneSlot {
    slot: RefCell<Option<(MatchRule, u8)>>,
}

impl MatchingReceiver for OneSlot {
    type F = u8;

    fn start_receive(&self, m: MatchRule, f: u8) -> u32 {
        *self.slot.borrow_mut() = Some((m, f));
        1
    }

    fn stop_receive(&self, id: u32) -> Option<(MatchRule, u8)> {
        if id == 1 {
            self.slot.borrow_mut().take()
        } else {
            None
        }
    }
}

#[test]
fn receiver_can_be_implemented() {
    let receiver = OneSlot { slot: RefCell::new(None) };
    let rule = MatchRule {
        msg_type: Some(MessageType::Signal),
        sender: None,
        path: Some("/".to_string()),
        path_is_namespace: true,
        interface: None,
        member: None,
    };
    let id = receiver.start_receive(rule, 8);
    assert!(receiver.stop_receive(id + 1).is_none());
    let (rule, f) = receiver.stop_receive(id).unwrap();
    assert_eq!(rule.msg_type, Some(MessageType::Signal));
    assert_eq!(f, 8);
}
