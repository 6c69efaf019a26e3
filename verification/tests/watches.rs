use dbus::watch::{watch_fds, Watch};

fn watch(fd: i32, read: bool, write: bool) -> Watch {
    Watch { fd, read, write }
}

#[test]
fn enabled_watch_follows_its_flags() {
    assert_eq!(Watch::from_raw(5, 1, 0), watch(5, false, false));
    assert_eq!(Watch::from_raw(5, 1, 1), watch(5, true, false));
    assert_eq!(Watch::from_raw(5, 1, 2), watch(5, false, true));
    assert_eq!(Watch::from_raw(5, 1, 3), watch(5, true, true));
    assert_eq!(Watch::from_raw(-1, 7, 0xffff_fffc), watch(-1, false, false));
}

#[test]
fn disabled_watch_waits_for_nothing() {
    assert_eq!(Watch::from_raw(5, 0, 3), watch(5, false, false));
}

#[test]
fn two_directions_of_a_socket_are_joined() {
    let list = watch_fds(1, 1, vec![watch(4, true, false), watch(4, false, true)]).unwrap();
    assert_eq!(list, vec![watch(4, true, true)]);
    let list = watch_fds(1, 1, vec![watch(4, false, false), watch(4, true, false)]).unwrap();
    assert_eq!(list, vec![watch(4, true, false)]);
}

#[test]
fn other_lists_stay_as_they_are() {
    assert_eq!(watch_fds(1, 1, vec![]).unwrap(), vec![]);
    let one = vec![watch(4, true, false)];
    assert_eq!(watch_fds(1, 1, one.clone()).unwrap(), one);
    let two = vec![watch(4, true, false), watch(5, false, true)];
    assert_eq!(watch_fds(2, 1, two.clone()).unwrap(), two);
    let three = vec![watch(4, true, false), watch(4, false, true), watch(4, true, true)];
    assert_eq!(watch_fds(1, 1, three.clone()).unwrap(), three);
}

#[test]
fn joining_twice_is_joining_once() {
    let once = watch_fds(1, 1, vec![watch(4, true, false), watch(4, false, true)]).unwrap();
    assert_eq!(watch_fds(1, 1, once.clone()).unwrap(), once);
}

#[test]
fn refused_watches_are_an_error() {
    assert_eq!(watch_fds(0, 0, vec![watch(4, true, false)]), Err(()));
}
