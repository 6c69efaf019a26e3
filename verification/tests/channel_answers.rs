use dbus::channel::{
    is_connected, made_or_error, read_write_result, read_write_timeout, register_result,
    send_result, timeout_arg, unique_name, BlockingPop,
};
use dbus::error::Error;

fn error(name: &str) -> Error {
    Error { name: Some(name.to_string()), message: None }
}

#[test]
fn connection_is_handed_on() {
    assert_eq!(made_or_error(Some(17), error("a.b")).unwrap(), 17);
}

#[test]
fn missing_connection_is_the_error() {
    let e = made_or_error::<u8>(None, error("a.b")).unwrap_err();
    assert_eq!(e.name, Some("a.b".to_string()));
}

#[test]
fn registration_succeeds_or_gives_the_error() {
    assert!(register_result(1, error("a.b")).is_ok());
    assert_eq!(register_result(0, error("a.b")).unwrap_err().name, Some("a.b".to_string()));
}

#[test]
fn connection_is_open_unless_told_otherwise() {
    assert!(is_connected(1));
    assert!(!is_connected(0));
}

#[test]
fn queued_message_has_its_serial() {
    assert_eq!(send_result(1, 42), Ok(42));
    assert_eq!(send_result(0, 42), Err(()));
}

#[test]
fn read_write_fails_when_disconnected() {
    assert_eq!(read_write_result(1), Ok(()));
    assert_eq!(read_write_result(0), Err(()));
}

#[test]
fn unique_name_is_read_from_bytes() {
    assert_eq!(unique_name(Some(&b":1.54"[..])), Some(":1.54"));
    assert_eq!(unique_name(Some(&[0xc3, 0xa9][..])), Some("\u{e9}"));
    assert_eq!(unique_name(Some(&[][..])), Some(""));
}

#[test]
fn unique_name_can_be_missing() {
    assert_eq!(unique_name(None), None);
    assert_eq!(unique_name(Some(&[0x3a, 0xff][..])), None);
    assert_eq!(unique_name(Some(&[0xc3][..])), None);
}

#[test]
fn timeout_is_passed_on() {
    assert_eq!(timeout_arg(0), 0);
    assert_eq!(timeout_arg(100), 100);
    assert_eq!(timeout_arg(0x7fff_ffff), i32::MAX);
}

#[test]
fn long_timeout_is_cut_to_the_longest() {
    assert_eq!(timeout_arg(0x8000_0000), i32::MAX);
    assert_eq!(timeout_arg(0xffff_ffff), i32::MAX);
    assert_eq!(timeout_arg(0x1_0000_0005), i32::MAX);
    assert_eq!(timeout_arg(u128::MAX), i32::MAX);
}

#[test]
fn long_timeout_is_not_forever() {
    assert_eq!(read_write_timeout(Some(4294967295)), i32::MAX);
    let wait: BlockingPop<&str, Error> = BlockingPop::begin(4294967295);
    assert!(matches!(wait.popped(None), BlockingPop::ReadWrite { timeout: i32::MAX }));
}

#[test]
fn no_timeout_is_forever() {
    assert_eq!(read_write_timeout(None), -1);
    assert_eq!(read_write_timeout(Some(0)), 0);
    assert_eq!(read_write_timeout(Some(100)), 100);
}

#[test]
fn queued_message_is_popped_at_once() {
    let wait: BlockingPop<&str, Error> = BlockingPop::begin(100);
    assert!(matches!(wait, BlockingPop::Pop { timeout: 100 }));
    assert!(matches!(wait.popped(Some("msg")), BlockingPop::Done(Ok(Some("msg")))));
}

#[test]
fn empty_queue_is_read_once() {
    let wait: BlockingPop<&str, Error> = BlockingPop::begin(100);
    let wait = wait.popped(None);
    assert!(matches!(wait, BlockingPop::ReadWrite { timeout: 100 }));
    let wait = wait.read_written(Ok(()));
    assert!(matches!(wait, BlockingPop::PopAgain));
    assert!(matches!(wait.popped(Some("msg")), BlockingPop::Done(Ok(Some("msg")))));
}

#[test]
fn wait_can_end_without_a_message() {
    let wait: BlockingPop<&str, Error> = BlockingPop::begin(0);
    let wait = wait.popped(None).read_written(Ok(())).popped(None);
    assert!(matches!(wait, BlockingPop::Done(Ok(None))));
}

#[test]
fn lost_connection_ends_the_wait() {
    let wait: BlockingPop<&str, Error> = BlockingPop::begin(100);
    match wait.popped(None).read_written(Err(())) {
        BlockingPop::Done(Err(e)) => {
            assert_eq!(e.name.as_deref(), Some("org.freedesktop.DBus.Error.Failed"));
            assert_eq!(
                e.message.as_deref(),
                Some("Failed to read/write data, disconnected from D-Bus?")
            );
        }
        _ => panic!("the wait goes on"),
    }
}

#[test]
fn finished_wait_stays_finished() {
    let wait: BlockingPop<&str, Error> = BlockingPop::begin(100);
    let wait = wait.popped(Some("first")).popped(Some("second")).read_written(Err(()));
    assert!(matches!(wait, BlockingPop::Done(Ok(Some("first")))));
}
