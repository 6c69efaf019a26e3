//! What a connection asks of the bus library, and what the library's answers mean.
use crate::error::{Error, ErrorView};
use crate::message::{Message, MessageType};
use vstd::prelude::*;
use vstd::string::StringSliceAdditionalSpecFns;
use vstd::utf8::{decode_utf8, encode_utf8_decode_utf8, valid_utf8};

verus! {

/// Which bus to connect to
#[derive(Debug, Clone, Copy, PartialOrd, Ord, PartialEq, Eq, Hash, Structural)]
pub enum BusType {
    /// The Session bus - local to every logged in session
    Session,
    /// The system wide bus
    System,
    /// The bus that started us, if any
    Starter,
}

impl BusType {
    /// The number by which the bus library knows the bus.
    pub open spec fn number(self) -> u32 {
        match self {
            BusType::Session => 0,
            BusType::System => 1,
            BusType::Starter => 2,
        }
    }

    /// The number by which the bus library knows the bus.
    pub fn code(self) -> (n: u32)
        ensures
            n == self.number(),
            self == BusType::Session <==> n == 0,
            self == BusType::System <==> n == 1,
            self == BusType::Starter <==> n == 2,
    {
        match self {
            BusType::Session => 0,
            BusType::System => 1,
            BusType::Starter => 2,
        }
    }
}

/// Different buses have different numbers.
pub proof fn law_bus_numbers_differ(a: BusType, b: BusType)
    ensures
        a.number() == b.number() <==> a == b,
{
}

/// The session bus is number 0, the system bus 1, and the bus that started us 2.
pub proof fn law_buses_have_their_numbers(bus: BusType, n: u32)
    requires
        call_ensures(BusType::code, (bus,), n),
    ensures
        n == bus.number(),
        n == 0 <==> bus == BusType::Session,
        n == 1 <==> bus == BusType::System,
        n == 2 <==> bus == BusType::Starter,
        n <= 2,
{
}

/// The outcome of a call that hands out `made`, or nothing and an error: a connection
/// that was opened, or the reply to a message.
pub fn made_or_error<T>(made: Option<T>, e: Error) -> (r: Result<T, Error>)
    ensures
        r == (match made {
            Some(v) => Ok(v),
            None => Err(e),
        }),
{
    match made {
        Some(v) => Ok(v),
        None => Err(e),
    }
}

/// The outcome of a registration with the bus, out of the library's answer `done` (0 if
/// it failed) and the error that it then left.
pub fn register_result(done: u32, e: Error) -> (r: Result<(), Error>)
    ensures
        r == (if done == 0 {
            Err(e)
        } else {
            Ok::<(), Error>(())
        }),
{
    if done == 0 {
        Err(e)
    } else {
        Ok(())
    }
}

/// Whether the connection is open, out of the library's answer.
pub fn is_connected(answer: u32) -> (r: bool)
    ensures
        r == (answer != 0),
{
    answer != 0
}

/// The outcome of putting a message into the queue of outgoing messages, out of the
/// library's answer `queued` (0 if it failed) and the serial number it gave.
pub fn send_result(queued: u32, serial: u32) -> (r: Result<u32, ()>)
    ensures
        r == (if queued == 0 {
            Err(())
        } else {
            Ok::<u32, ()>(serial)
        }),
{
    if queued == 0 {
        return Err(());
    }
    Ok(serial)
}

/// The outcome of a read and write on the socket, out of the library's answer: 0 says
/// that the connection is gone.
pub fn read_write_result(open: u32) -> (r: Result<(), ()>)
    ensures
        r == (if open == 0 {
            Err(())
        } else {
            Ok::<(), ()>(())
        }),
{
    if open == 0 {
        Err(())
    } else {
        Ok(())
    }
}

/// `std::str::from_utf8`: the string whose UTF-8 encoding the bytes are, and nothing
/// where they are not valid UTF-8.
#[verifier::external_body]
fn utf8_str(bytes: &[u8]) -> (r: Option<&str>)
    ensures
        r is Some <==> valid_utf8(bytes@),
        r matches Some(s) ==> s.spec_bytes() == bytes@,
{
    std::str::from_utf8(bytes).ok()
}

/// The unique name of the connection, out of the bytes that the library gave, if any.
///
/// It's usually something like ":1.54". There is none before the connection is
/// registered, and none where the bytes are not valid UTF-8.
pub fn unique_name(bytes: Option<&[u8]>) -> (r: Option<&str>)
    ensures
        r is Some <==> (bytes matches Some(b) && valid_utf8(b@)),
        r matches Some(name) ==> (bytes matches Some(b) && name.spec_bytes() == b@),
{
    match bytes {
        Some(b) => utf8_str(b),
        None => None,
    }
}

/// The timeout that the library is given for a time of so many milliseconds: the time, or
/// the longest that the library can count where the time is longer than that.
pub open spec fn timeout_of(millis: u128) -> int {
    if millis <= i32::MAX {
        millis as int
    } else {
        i32::MAX as int
    }
}

/// The timeout that the library is given for a time of so many milliseconds.
///
/// The library counts in 32 bits, signed, and takes negative numbers for something else, so
/// that a longer time is cut to the longest that it can count.
pub fn timeout_arg(millis: u128) -> (t: i32)
    ensures
        t == timeout_of(millis),
        millis <= i32::MAX ==> t == millis,
        millis > i32::MAX ==> t == i32::MAX,
{
    if millis <= i32::MAX as u128 {
        millis as i32
    } else {
        i32::MAX
    }
}

/// The timeout that the library is given for a read and write: -1 stands for none.
pub open spec fn read_write_timeout_of(millis: Option<u128>) -> int {
    match millis {
        Some(m) => timeout_of(m),
        None => -1,
    }
}

/// The timeout that the library is given for a read and write that blocks for up to so
/// many milliseconds, or forever if there is no limit.
///
/// For non-blocking behaviour, set the limit to `Some(0)`.
pub fn read_write_timeout(millis: Option<u128>) -> (t: i32)
    ensures
        t == read_write_timeout_of(millis),
        millis is None ==> t == -1,
        millis matches Some(m) ==> (m <= i32::MAX ==> t == m),
        millis matches Some(m) ==> (m > i32::MAX ==> t == i32::MAX),
{
    match millis {
        Some(m) => timeout_arg(m),
        None => -1,
    }
}

/// A time that the library can count is passed on as it is.
pub proof fn law_timeout_is_exact(millis: u128)
    requires
        millis <= i32::MAX,
    ensures
        timeout_of(millis) == millis,
{
}

/// The number that the library is given is never negative, never more than was asked for,
/// and never less for a longer time.
pub proof fn law_timeout_is_bounded_and_monotonic(millis: u128, longer: u128)
    requires
        millis <= longer,
    ensures
        0 <= timeout_of(millis) <= millis,
        timeout_of(millis) <= timeout_of(longer),
{
}

/// A read and write with a limit waits no longer than the limit.
pub proof fn law_read_write_waits_at_most(millis: u128)
    ensures
        0 <= read_write_timeout_of(Some(millis)) <= millis,
{
}

/// A read and write with a limit that the library can count is given exactly that limit, and
/// so is the wait for a reply; a longer limit is cut to the longest that can be counted.
pub proof fn law_read_write_limit_is_exact(millis: u128)
    ensures
        millis <= i32::MAX ==> read_write_timeout_of(Some(millis)) == millis,
        millis <= i32::MAX ==> timeout_of(millis) == millis,
        millis > i32::MAX ==> read_write_timeout_of(Some(millis)) == 0x7fff_ffff,
        millis > i32::MAX ==> timeout_of(millis) == 0x7fff_ffff,
{
}

/// Two limits that the library can count are told apart, and keep their distance.
pub proof fn law_limits_keep_their_distance(millis: u128, more: u128)
    requires
        millis + more <= i32::MAX,
    ensures
        read_write_timeout_of(Some((millis + more) as u128)) == read_write_timeout_of(Some(millis))
            + more,
        timeout_of((millis + more) as u128) == timeout_of(millis) + more,
{
}

/// What any call for a timeout gives: the number of milliseconds as far as it can be counted,
/// and -1 for a read and write without a limit.
pub proof fn law_timeouts_are_as_asked(
    millis: u128,
    limit: Option<u128>,
    t: i32,
    rw: i32,
)
    requires
        call_ensures(timeout_arg, (millis,), t),
        call_ensures(read_write_timeout, (limit,), rw),
    ensures
        t >= 0,
        t == millis || (t == 0x7fff_ffff && millis > 0x7fff_ffff),
        rw == -1 <==> limit is None,
        limit matches Some(m) ==> rw == m || (rw == 0x7fff_ffff && m > 0x7fff_ffff),
        limit == Some(millis) ==> rw == t,
{
}

/// A read and write waits forever exactly if there is no limit.
pub proof fn law_read_write_waits_forever(millis: Option<u128>)
    ensures
        read_write_timeout_of(millis) == -1 <==> millis is None,
{
}

/// How far a blocking wait for a message has come, which is what is to be done next.
///
/// `M` is the type of the messages, `E` that of the error.
pub enum BlockingPop<M, E> {
    /// Take a message from the queue of incoming messages, and report it to
    /// [`BlockingPop::popped`].
    Pop {
        timeout: i32,
    },
    /// Read and write with this timeout, and report the outcome to
    /// [`BlockingPop::read_written`].
    ReadWrite {
        timeout: i32,
    },
    /// Once more, take a message from the queue, and report it to
    /// [`BlockingPop::popped`].
    PopAgain,
    /// Return this.
    Done(Result<Option<M>, E>),
}

impl<M> View for BlockingPop<M, Error> {
    type V = BlockingPop<M, ErrorView>;

    open spec fn view(&self) -> BlockingPop<M, ErrorView> {
        match *self {
            BlockingPop::Pop { timeout } => BlockingPop::Pop { timeout },
            BlockingPop::ReadWrite { timeout } => BlockingPop::ReadWrite { timeout },
            BlockingPop::PopAgain => BlockingPop::PopAgain,
            BlockingPop::Done(Ok(found)) => BlockingPop::Done(Ok(found)),
            BlockingPop::Done(Err(e)) => BlockingPop::Done(Err(e@)),
        }
    }
}

impl<M> BlockingPop<M, ErrorView> {
    /// A wait of up to so many milliseconds, before anything was done.
    pub open spec fn begun(millis: u128) -> Self {
        BlockingPop::Pop { timeout: timeout_of(millis) as i32 }
    }

    /// What comes after the queue gave `found`.
    pub open spec fn after_pop(self, found: Option<M>) -> Self {
        match self {
            BlockingPop::Pop { timeout } => if found is Some {
                BlockingPop::Done(Ok(found))
            } else {
                BlockingPop::ReadWrite { timeout }
            },
            BlockingPop::PopAgain => BlockingPop::Done(Ok(found)),
            _ => self,
        }
    }

    /// What comes after a read and write.
    pub open spec fn after_read_write(self, outcome: Result<(), ()>) -> Self {
        match self {
            BlockingPop::ReadWrite { timeout } => if outcome is Ok {
                BlockingPop::PopAgain
            } else {
                BlockingPop::Done(
                    Err(
                        ErrorView::failed(
                            "Failed to read/write data, disconnected from D-Bus?"@,
                        ),
                    ),
                )
            },
            _ => self,
        }
    }
}

impl<M> BlockingPop<M, Error> {
    /// Begins to take a message from the incoming queue, or to wait until the timeout if
    /// the queue is empty.
    pub fn begin(millis: u128) -> (s: Self)
        ensures
            s@ == BlockingPop::<M, ErrorView>::begun(millis),
            s is Pop,
            millis <= i32::MAX ==> s->Pop_timeout == millis,
            millis > i32::MAX ==> s->Pop_timeout == i32::MAX,
    {
        BlockingPop::Pop { timeout: timeout_arg(millis) }
    }

    /// Takes notice of what the queue gave. Where no message was to be taken, nothing
    /// changes.
    pub fn popped(self, found: Option<M>) -> (s: Self)
        ensures
            s@ == self@.after_pop(found),
            self is Pop && found is Some ==> (s matches BlockingPop::Done(Ok(f)) && f == found),
            self is Pop && found is None ==> (s is ReadWrite && s->ReadWrite_timeout
                == self->Pop_timeout),
            self is PopAgain ==> (s matches BlockingPop::Done(Ok(f)) && f == found),
            self is ReadWrite || self is Done ==> s == self,
    {
        match self {
            BlockingPop::Pop { timeout } => match found {
                Some(msg) => BlockingPop::Done(Ok(Some(msg))),
                None => BlockingPop::ReadWrite { timeout },
            },
            BlockingPop::PopAgain => BlockingPop::Done(Ok(found)),
            other => other,
        }
    }

    /// Takes notice of how a read and write ended. Where none was to be done, nothing
    /// changes.
    pub fn read_written(self, outcome: Result<(), ()>) -> (s: Self)
        ensures
            s@ == self@.after_read_write(outcome),
            self is ReadWrite && outcome is Ok ==> s is PopAgain,
            self is ReadWrite && outcome is Err ==> (s matches BlockingPop::Done(Err(e)) && e@.name
                == Some("org.freedesktop.DBus.Error.Failed"@) && e@.message == Some(
                "Failed to read/write data, disconnected from D-Bus?"@,
            )),
            !(self is ReadWrite) ==> s == self,
    {
        match self {
            BlockingPop::ReadWrite { timeout } => match outcome {
                Ok(()) => BlockingPop::PopAgain,
                Err(()) => BlockingPop::Done(
                    Err(Error::new_failed("Failed to read/write data, disconnected from D-Bus?")),
                ),
            },
            other => other,
        }
    }
}

/// A message that is already in the queue is returned without any reading or waiting.
pub proof fn law_queued_message_is_returned<M>(millis: u128, msg: M)
    ensures
        BlockingPop::<M, ErrorView>::begun(millis).after_pop(Some(msg)) == BlockingPop::Done(
            Ok::<Option<M>, ErrorView>(Some(msg)),
        ),
{
}

/// With an empty queue there is one read and write, with the timeout that was asked for.
/// If it succeeds, what is then in the queue is returned, be it nothing; if it fails, the
/// error says that the connection may be gone.
pub proof fn law_empty_queue_reads_once<M>(
    millis: u128,
    outcome: Result<(), ()>,
    found: Option<M>,
)
    ensures
        ({
            let waiting = BlockingPop::<M, ErrorView>::begun(millis).after_pop(None);
            &&& waiting matches BlockingPop::ReadWrite { timeout } && timeout
                == read_write_timeout_of(Some(millis))
            &&& waiting matches BlockingPop::ReadWrite { timeout } && (millis <= i32::MAX
                ==> timeout == millis) && (millis > i32::MAX ==> timeout == i32::MAX)
            &&& outcome is Ok ==> waiting.after_read_write(outcome).after_pop(found)
                == BlockingPop::Done(Ok::<Option<M>, ErrorView>(found))
            &&& outcome is Err ==> waiting.after_read_write(outcome) == BlockingPop::Done(
                Err::<Option<M>, ErrorView>(
                    ErrorView::failed("Failed to read/write data, disconnected from D-Bus?"@),
                ),
            )
        }),
{
}

/// Once it is known what to return, nothing changes that.
pub proof fn law_done_is_final<M>(
    result: Result<Option<M>, ErrorView>,
    found: Option<M>,
    outcome: Result<(), ()>,
)
    ensures
        BlockingPop::Done(result).after_pop(found) == BlockingPop::Done(result),
        BlockingPop::<M, ErrorView>::Done(result).after_read_write(outcome)
            == BlockingPop::<M, ErrorView>::Done(result),
{
}

/// From wherever a wait stands, what the queue gives moves it on as follows: a message that is
/// found ends the wait with that message; nothing found leads to the read and write with the
/// timeout of the wait, and after it ends the wait with nothing. While a read and write is due,
/// what the queue gives changes nothing.
pub proof fn law_queue_moves_the_wait_on<M>(s: BlockingPop<M, ErrorView>, found: Option<M>)
    ensures
        ({
            let next = s.after_pop(found);
            &&& s is Pop && found is Some ==> (next matches BlockingPop::Done(Ok(f)) && f == found)
            &&& s is Pop && found is None ==> (next is ReadWrite && next->ReadWrite_timeout
                == s->Pop_timeout)
            &&& s is PopAgain ==> (next matches BlockingPop::Done(Ok(f)) && f == found)
            &&& s is ReadWrite ==> next == s
        }),
{
}

/// A read and write that succeeds leads back to the queue, whatever its timeout; one that
/// fails ends the wait with the error that the connection may be gone. Where no read and write
/// was due, its outcome changes nothing.
pub proof fn law_read_write_moves_the_wait_on<M>(
    s: BlockingPop<M, ErrorView>,
    outcome: Result<(), ()>,
)
    ensures
        ({
            let next = s.after_read_write(outcome);
            &&& s is ReadWrite && outcome is Ok ==> next is PopAgain
            &&& s is ReadWrite && outcome is Err ==> (next matches BlockingPop::Done(Err(e))
                && e.name == Some("org.freedesktop.DBus.Error.Failed"@) && e.message == Some(
                "Failed to read/write data, disconnected from D-Bus?"@,
            ))
            &&& !(s is ReadWrite) ==> next == s
        }),
{
}

/// The view of a wait shows where the wait stands, and what it returns.
pub proof fn law_wait_view_is_faithful<M>(s: BlockingPop<M, Error>)
    ensures
        ({
            let v = s@;
            &&& s is Pop ==> v is Pop && v->Pop_timeout == s->Pop_timeout
            &&& s is ReadWrite ==> v is ReadWrite && v->ReadWrite_timeout == s->ReadWrite_timeout
            &&& s is PopAgain ==> v is PopAgain
            &&& s matches BlockingPop::Done(Ok(f)) ==> (v matches BlockingPop::Done(Ok(g)) && g
                == f)
            &&& s matches BlockingPop::Done(Err(e)) ==> (v matches BlockingPop::Done(Err(x)) && x
                == e@)
        }),
{
}

/// What was made is handed on, and the error only where nothing was made.
pub proof fn law_made_is_handed_on<T>(made: Option<T>, e: Error, r: Result<T, Error>)
    requires
        call_ensures(made_or_error::<T>, (made, e), r),
    ensures
        made matches Some(v) ==> r == Ok::<T, Error>(v),
        made is None ==> r == Err::<T, Error>(e),
{
}

/// To every question the library answers 0 or not: 0 is a failure, a closed connection, or a
/// refusal, and every other answer is the opposite. The error of a registration and the serial
/// number of a message come through unchanged.
pub proof fn law_zero_is_no(
    answer: u32,
    e: Error,
    serial: u32,
    registered: Result<(), Error>,
    connected: bool,
    sent: Result<u32, ()>,
    read_written: Result<(), ()>,
)
    requires
        call_ensures(register_result, (answer, e), registered),
        call_ensures(is_connected, (answer,), connected),
        call_ensures(send_result, (answer, serial), sent),
        call_ensures(read_write_result, (answer,), read_written),
    ensures
        registered is Ok <==> answer != 0,
        registered matches Err(x) ==> x == e,
        connected <==> answer != 0,
        sent is Ok <==> answer != 0,
        sent matches Ok(n) ==> n == serial,
        read_written is Ok <==> answer != 0,
{
}

/// A name is the characters that the bytes encode; there is one for all bytes that are valid
/// UTF-8, and two different names have different bytes.
pub proof fn law_name_is_what_the_bytes_encode(bytes: Option<&[u8]>, r: Option<&str>)
    requires
        call_ensures(unique_name, (bytes,), r),
    ensures
        bytes is None ==> r is None,
        bytes matches Some(b) ==> (r is Some <==> valid_utf8(b@)),
        bytes matches Some(b) ==> (r matches Some(name) ==> name@ == decode_utf8(b@)),
{
    if let (Some(b), Some(name)) = (bytes, r) {
        encode_utf8_decode_utf8(name@);
    }
}

/// Which messages a receiver is for; a part that is `None` is met by every message.
pub struct MatchRule {
    pub msg_type: Option<MessageType>,
    pub sender: Option<String>,
    pub path: Option<String>,
    /// Whether `path` stands for all paths below it, too.
    pub path_is_namespace: bool,
    pub interface: Option<String>,
    pub member: Option<String>,
}

/// Abstraction over different connections
pub trait Sender {
    /// Whether this connection may be handed the message. Unless an implementation says
    /// otherwise, it may be handed any.
    ///
    /// Code that works on every connection knows nothing of this, and so hands over no
    /// message but those that its own contract names. As it speaks of the very message, not
    /// of what the message holds, and a message is given away when it is sent, each of those
    /// is handed over at most once.
    open spec fn may_send(&self, msg: Message) -> bool {
        true
    }

    /// Schedules a message for sending.
    ///
    /// Returns a serial number than can be used to match against a reply.
    fn send(&self, msg: Message) -> Result<u32, ()>
        requires
            self.may_send(msg),
    ;
}

/// A connection that hands incoming messages to callbacks.
pub trait MatchingReceiver {
    /// The type of the callbacks.
    type F;

    /// Starts to hand the messages that `m` describes to `f`. Returns a number by which
    /// to stop it.
    fn start_receive(&self, m: MatchRule, f: Self::F) -> u32;

    /// Stops what was started under `id`, and returns what it was started with; `None`
    /// if there is nothing under that number.
    fn stop_receive(&self, id: u32) -> Option<(MatchRule, Self::F)>;
}

} // verus!
