//! The file descriptors that a connection wants to be told about.
use vstd::prelude::*;

verus! {

/// The bit of a watch's flags that asks for readability.
pub const WATCH_READABLE: u32 = 1;

/// The bit of a watch's flags that asks for writability.
pub const WATCH_WRITABLE: u32 = 2;

/// A file descriptor, and an indication whether it should be read from, written to, or both.
#[derive(Clone, Copy, Debug, PartialEq, Eq, PartialOrd, Ord, Structural)]
pub struct Watch {
    pub fd: i32,
    pub read: bool,
    pub write: bool,
}

impl Watch {
    /// The watch that the bus library describes by a file descriptor, by whether it is
    /// enabled (any value but 0), and by its flags. One that is not enabled waits for
    /// nothing.
    pub fn from_raw(fd: i32, enabled: u32, flags: u32) -> (w: Watch)
        ensures
            w.fd == fd,
            w.read <==> enabled != 0 && flags & WATCH_READABLE != 0,
            w.write <==> enabled != 0 && flags & WATCH_WRITABLE != 0,
            w.read <==> enabled != 0 && flags % 2 == 1,
            w.write <==> enabled != 0 && (flags / 2) % 2 == 1,
    {
        assert(flags & 1 != 0 <==> flags % 2 == 1) by (bit_vector);
        assert(flags & 2 != 0 <==> (flags / 2) % 2 == 1) by (bit_vector);
        let mut w = Watch { fd, read: false, write: false };
        if enabled != 0 {
            w.read = (flags & WATCH_READABLE) != 0;
            w.write = (flags & WATCH_WRITABLE) != 0;
        }
        w
    }
}

/// Whether there are exactly two watches, on one file descriptor.
pub open spec fn is_split(watches: Seq<Watch>) -> bool {
    watches.len() == 2 && watches[0].fd == watches[1].fd
}

/// The watches, with two on one file descriptor joined into one.
pub open spec fn merged(watches: Seq<Watch>) -> Seq<Watch> {
    if is_split(watches) {
        seq![
            Watch {
                fd: watches[0].fd,
                read: watches[0].read || watches[1].read,
                write: watches[0].write || watches[1].write,
            },
        ]
    } else {
        watches
    }
}

/// Whether some watch is on the file descriptor.
pub open spec fn watches_fd(watches: Seq<Watch>, fd: i32) -> bool {
    exists|i: int| 0 <= i < watches.len() && (#[trigger] watches[i]).fd == fd
}

/// Whether some watch waits for the file descriptor to become readable.
pub open spec fn waits_to_read(watches: Seq<Watch>, fd: i32) -> bool {
    exists|i: int| 0 <= i < watches.len() && (#[trigger] watches[i]).fd == fd && watches[i].read
}

/// Whether some watch waits for the file descriptor to become writable.
pub open spec fn waits_to_write(watches: Seq<Watch>, fd: i32) -> bool {
    exists|i: int| 0 <= i < watches.len() && (#[trigger] watches[i]).fd == fd && watches[i].write
}

/// The list of file descriptors to watch, out of what the bus library reported.
///
/// `installed` is the library's answer to the callback that collects its watches, and
/// `removed` its answer when the callback is taken back, which is to be done only after it
/// was installed; 0 is a refusal. Taking it back must not be refused. The library reports
/// the two directions of its socket as two watches; they are joined into one.
pub fn watch_fds(installed: u32, removed: u32, watches: Vec<Watch>) -> (r: Result<
    Vec<Watch>,
    (),
>)
    requires
        installed != 0 ==> removed != 0,
    ensures
        r is Err <==> installed == 0,
        r matches Ok(list) ==> list@ == merged(watches@),
        r matches Ok(list) ==> (if watches@.len() == 2 && watches@[0].fd == watches@[1].fd {
            &&& list@.len() == 1
            &&& list@[0].fd == watches@[0].fd
            &&& list@[0].read == (watches@[0].read || watches@[1].read)
            &&& list@[0].write == (watches@[0].write || watches@[1].write)
        } else {
            list@ == watches@
        }),
{
    if installed == 0 {
        return Err(());
    }
    if watches.len() == 2 && watches[0].fd == watches[1].fd {
        let mut joined: Vec<Watch> = Vec::new();
        joined.push(
            Watch {
                fd: watches[0].fd,
                read: watches[0].read || watches[1].read,
                write: watches[0].write || watches[1].write,
            },
        );
        return Ok(joined);
    }
    Ok(watches)
}

/// Joining watches changes nothing about which file descriptors are watched, nor about
/// what is waited for on each of them.
pub proof fn law_merging_keeps_what_is_watched(watches: Seq<Watch>, fd: i32)
    ensures
        watches_fd(merged(watches), fd) == watches_fd(watches, fd),
        waits_to_read(merged(watches), fd) == waits_to_read(watches, fd),
        waits_to_write(merged(watches), fd) == waits_to_write(watches, fd),
{
    if is_split(watches) {
        assert(merged(watches)[0].fd == watches[0].fd);
        assert(merged(watches)[0].fd == watches[1].fd);
    }
}

/// After joining, there is nothing left to join.
pub proof fn law_merging_is_complete(watches: Seq<Watch>)
    ensures
        !is_split(merged(watches)),
        merged(merged(watches)) == merged(watches),
{
}

/// Two watches on one file descriptor become one, which waits for whatever either waited for.
pub proof fn law_split_watches_become_one(a: Watch, b: Watch)
    requires
        a.fd == b.fd,
    ensures
        ({
            let list = merged(seq![a, b]);
            &&& list.len() == 1
            &&& list[0].fd == a.fd
            &&& list[0].read <==> a.read || b.read
            &&& list[0].write <==> a.write || b.write
        }),
        merged(seq![a, b]) == merged(seq![b, a]),
{
}

/// Any other list stays as it is: with fewer or more than two watches, or with two on
/// different file descriptors.
pub proof fn law_other_watches_stay(watches: Seq<Watch>)
    requires
        watches.len() != 2 || watches[0].fd != watches[1].fd,
    ensures
        merged(watches) == watches,
        !is_split(watches),
{
}

/// What is watched and waited for is read off the single watches.
pub proof fn law_each_watch_counts(watches: Seq<Watch>, i: int)
    requires
        0 <= i < watches.len(),
    ensures
        watches_fd(watches, watches[i].fd),
        watches[i].read ==> waits_to_read(watches, watches[i].fd),
        watches[i].write ==> waits_to_write(watches, watches[i].fd),
{
}

/// Whatever list of watches is reported, the call succeeds exactly if they could be asked
/// for, and the list that comes out watches and waits for the same.
pub proof fn law_watch_list_is_complete(
    installed: u32,
    removed: u32,
    watches: Vec<Watch>,
    r: Result<Vec<Watch>, ()>,
    fd: i32,
)
    requires
        call_ensures(watch_fds, (installed, removed, watches), r),
    ensures
        r is Ok <==> installed != 0,
        r matches Ok(list) ==> {
            &&& watches_fd(list@, fd) == watches_fd(watches@, fd)
            &&& waits_to_read(list@, fd) == waits_to_read(watches@, fd)
            &&& waits_to_write(list@, fd) == waits_to_write(watches@, fd)
            &&& list@.len() <= watches@.len()
            &&& watches@.len() != 2 ==> list@ == watches@
        },
{
    law_merging_keeps_what_is_watched(watches@, fd);
}

/// A watch is on the file descriptor it was made for. If it is enabled, the lowest bit of its
/// flags says whether it waits to read and the next whether it waits to write; if not, it
/// waits for nothing.
pub proof fn law_watch_follows_its_flags(fd: i32, enabled: u32, flags: u32, w: Watch)
    requires
        call_ensures(Watch::from_raw, (fd, enabled, flags), w),
    ensures
        w.fd == fd,
        enabled == 0 ==> !w.read && !w.write,
        enabled != 0 ==> (w.read <==> flags % 2 == 1),
        enabled != 0 ==> (w.write <==> (flags / 2) % 2 == 1),
{
}

} // verus!
