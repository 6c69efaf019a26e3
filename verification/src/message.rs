//! Messages as plain values, and the two replies that a message can be given.
use vstd::prelude::*;

verus! {

/// What a message is for.
#[derive(Clone, Copy, Debug, PartialEq, Eq, Structural)]
pub enum MessageType {
    /// A request that a method be run.
    MethodCall,
    /// The answer of a method that ran.
    MethodReturn,
    /// The answer of a method that failed.
    Error,
    /// A notification that nobody answers.
    Signal,
}

/// One argument of a message.
#[derive(Debug, PartialEq)]
pub enum Arg {
    Byte(u8),
    Bool(bool),
    Int16(i16),
    UInt16(u16),
    Int32(i32),
    UInt32(u32),
    Int64(i64),
    UInt64(u64),
    /// A double, as its 64 bits.
    Double(u64),
    Str(String),
    ObjectPath(String),
    Signature(String),
    /// A file descriptor.
    UnixFd(i32),
    /// The signature that all elements have, and the elements.
    Array(String, Vec<Arg>),
    Struct(Vec<Arg>),
    /// A key and its value, as an element of an array.
    DictEntry(Box<Arg>, Box<Arg>),
    /// The signature of the value, and the value.
    Variant(String, Box<Arg>),
}

/// What an [`Arg`] holds.
pub enum ArgView {
    Byte(u8),
    Bool(bool),
    Int16(i16),
    UInt16(u16),
    Int32(i32),
    UInt32(u32),
    Int64(i64),
    UInt64(u64),
    Double(u64),
    Str(Seq<char>),
    ObjectPath(Seq<char>),
    Signature(Seq<char>),
    UnixFd(i32),
    Array(Seq<char>, Seq<ArgView>),
    Struct(Seq<ArgView>),
    DictEntry(Box<ArgView>, Box<ArgView>),
    Variant(Seq<char>, Box<ArgView>),
}

/// What an argument holds, strings as their characters.
pub open spec fn arg_view(arg: Arg) -> ArgView
    decreases arg,
{
    match arg {
        Arg::Byte(v) => ArgView::Byte(v),
        Arg::Bool(v) => ArgView::Bool(v),
        Arg::Int16(v) => ArgView::Int16(v),
        Arg::UInt16(v) => ArgView::UInt16(v),
        Arg::Int32(v) => ArgView::Int32(v),
        Arg::UInt32(v) => ArgView::UInt32(v),
        Arg::Int64(v) => ArgView::Int64(v),
        Arg::UInt64(v) => ArgView::UInt64(v),
        Arg::Double(v) => ArgView::Double(v),
        Arg::Str(v) => ArgView::Str(v@),
        Arg::ObjectPath(v) => ArgView::ObjectPath(v@),
        Arg::Signature(v) => ArgView::Signature(v@),
        Arg::UnixFd(v) => ArgView::UnixFd(v),
        Arg::Array(elem, v) => ArgView::Array(
            elem@,
            Seq::new(
                v@.len(),
                |i: int|
                    if 0 <= i < v@.len() {
                        arg_view(v@[i])
                    } else {
                        arbitrary()
                    },
            ),
        ),
        Arg::Struct(v) => ArgView::Struct(
            Seq::new(
                v@.len(),
                |i: int|
                    if 0 <= i < v@.len() {
                        arg_view(v@[i])
                    } else {
                        arbitrary()
                    },
            ),
        ),
        Arg::DictEntry(k, v) => ArgView::DictEntry(Box::new(arg_view(*k)), Box::new(arg_view(*v))),
        Arg::Variant(sig, v) => ArgView::Variant(sig@, Box::new(arg_view(*v))),
    }
}

impl View for Arg {
    type V = ArgView;

    open spec fn view(&self) -> ArgView {
        arg_view(*self)
    }
}

/// The characters of an optional string.
pub open spec fn opt_chars(s: Option<String>) -> Option<Seq<char>> {
    match s {
        Some(s) => Some(s@),
        None => None,
    }
}

/// A message: its header fields and its arguments.
#[derive(Debug)]
pub struct Message {
    pub msg_type: MessageType,
    /// The number that the sender gave this message; 0 while it has not been sent.
    pub serial: u32,
    /// The number of the message that this one replies to.
    pub reply_serial: Option<u32>,
    /// Whether the sender wants no reply.
    pub no_reply: bool,
    pub sender: Option<String>,
    pub destination: Option<String>,
    pub path: Option<String>,
    pub interface: Option<String>,
    pub member: Option<String>,
    /// The name of the error, on a message of type [`MessageType::Error`].
    pub error_name: Option<String>,
    /// The arguments, in order.
    pub args: Vec<Arg>,
}

/// What a [`Message`] holds.
#[verifier::ext_equal]
pub struct MessageView {
    pub msg_type: MessageType,
    pub serial: u32,
    pub reply_serial: Option<u32>,
    pub no_reply: bool,
    pub sender: Option<Seq<char>>,
    pub destination: Option<Seq<char>>,
    pub path: Option<Seq<char>>,
    pub interface: Option<Seq<char>>,
    pub member: Option<Seq<char>>,
    pub error_name: Option<Seq<char>>,
    pub args: Seq<ArgView>,
}

impl View for Message {
    type V = MessageView;

    open spec fn view(&self) -> MessageView {
        MessageView {
            msg_type: self.msg_type,
            serial: self.serial,
            reply_serial: self.reply_serial,
            no_reply: self.no_reply,
            sender: opt_chars(self.sender),
            destination: opt_chars(self.destination),
            path: opt_chars(self.path),
            interface: opt_chars(self.interface),
            member: opt_chars(self.member),
            error_name: opt_chars(self.error_name),
            args: self.args@.map_values(|a: Arg| a@),
        }
    }
}

impl MessageView {
    /// A message of the given type with nothing filled in.
    pub open spec fn empty(msg_type: MessageType) -> MessageView {
        MessageView {
            msg_type,
            serial: 0,
            reply_serial: None,
            no_reply: false,
            sender: None,
            destination: None,
            path: None,
            interface: None,
            member: None,
            error_name: None,
            args: Seq::empty(),
        }
    }

    /// The successful reply to this message, without arguments: it goes back to the
    /// sender, names the message it answers, and wants no reply itself.
    pub open spec fn method_return(self) -> MessageView {
        MessageView {
            reply_serial: Some(self.serial),
            no_reply: true,
            destination: self.sender,
            ..MessageView::empty(MessageType::MethodReturn)
        }
    }

    /// The error reply to this message, with `text` as its only argument.
    pub open spec fn error(self, name: Seq<char>, text: Seq<char>) -> MessageView {
        MessageView {
            reply_serial: Some(self.serial),
            no_reply: true,
            destination: self.sender,
            error_name: Some(name),
            args: seq![ArgView::Str(text)],
            ..MessageView::empty(MessageType::Error)
        }
    }

    /// This message with one more argument at the end.
    pub open spec fn append1(self, arg: ArgView) -> MessageView {
        MessageView { args: self.args.push(arg), ..self }
    }

    /// Whether this message is a reply to `request`: an answer, sent back to where the
    /// request came from, under its number, that is not itself to be answered.
    pub open spec fn replies_to(self, request: MessageView) -> bool {
        &&& self.msg_type == MessageType::MethodReturn || self.msg_type == MessageType::Error
        &&& self.reply_serial == Some(request.serial)
        &&& self.destination == request.sender
        &&& self.no_reply
    }
}

impl Message {
    /// A message of the given type with nothing filled in.
    pub fn new(msg_type: MessageType) -> (m: Message)
        ensures
            m@ == MessageView::empty(msg_type),
            m.msg_type == msg_type,
            m.serial == 0,
            m.reply_serial is None,
            !m.no_reply,
            m.sender is None,
            m.destination is None,
            m.path is None,
            m.interface is None,
            m.member is None,
            m.error_name is None,
            m.args@.len() == 0,
    {
        Message {
            msg_type,
            serial: 0,
            reply_serial: None,
            no_reply: false,
            sender: None,
            destination: None,
            path: None,
            interface: None,
            member: None,
            error_name: None,
            args: Vec::new(),
        }
    }

    /// The successful reply to this message, without arguments.
    pub fn method_return(&self) -> (r: Message)
        ensures
            r@ == self@.method_return(),
            r.msg_type == MessageType::MethodReturn,
            r.serial == 0,
            r.reply_serial == Some(self.serial),
            r.no_reply,
            r.destination is Some <==> self.sender is Some,
            r.destination matches Some(d) ==> (self.sender matches Some(s) && d@ == s@),
            r.sender is None,
            r.path is None,
            r.interface is None,
            r.member is None,
            r.error_name is None,
            r.args@.len() == 0,
    {
        let mut r = Message::new(MessageType::MethodReturn);
        r.reply_serial = Some(self.serial);
        r.no_reply = true;
        r.destination = clone_opt(&self.sender);
        r
    }

    /// The error reply to this message, with `text` as its only argument.
    pub fn error(&self, name: &str, text: &str) -> (r: Message)
        ensures
            r@ == self@.error(name@, text@),
            r.msg_type == MessageType::Error,
            r.serial == 0,
            r.reply_serial == Some(self.serial),
            r.no_reply,
            r.destination is Some <==> self.sender is Some,
            r.destination matches Some(d) ==> (self.sender matches Some(s) && d@ == s@),
            r.sender is None,
            r.path is None,
            r.interface is None,
            r.member is None,
            r.error_name matches Some(n) && n@ == name@,
            r.args@.len() == 1,
            r.args@[0] matches Arg::Str(t) && t@ == text@,
            r@.args == seq![ArgView::Str(text@)],
    {
        let mut r = Message::new(MessageType::Error);
        r.reply_serial = Some(self.serial);
        r.no_reply = true;
        r.destination = clone_opt(&self.sender);
        r.error_name = Some(name.to_owned());
        r.append1(Arg::Str(text.to_owned()))
    }

    /// This message with one more argument at the end.
    pub fn append1(self, arg: Arg) -> (r: Message)
        ensures
            r@ == self@.append1(arg@),
            r.args@ == self.args@.push(arg),
            r.msg_type == self.msg_type,
            r.serial == self.serial,
            r.reply_serial == self.reply_serial,
            r.no_reply == self.no_reply,
            r.sender == self.sender,
            r.destination == self.destination,
            r.path == self.path,
            r.interface == self.interface,
            r.member == self.member,
            r.error_name == self.error_name,
    {
        let mut r = self;
        r.args.push(arg);
        r
    }
}

/// A reply, successful or not, goes back to the sender of the message, under the number of
/// the message, and wants no reply itself.
pub proof fn law_replies_are_addressed(m: MessageView, name: Seq<char>, text: Seq<char>)
    ensures
        m.method_return().replies_to(m),
        m.error(name, text).replies_to(m),
{
}

/// The view of an argument holds all of the argument: the same kind, the same value, and the
/// same elements in the same order.
pub proof fn law_arg_view_is_faithful(arg: Arg)
    ensures
        arg matches Arg::Byte(v) ==> arg@ == ArgView::Byte(v),
        arg matches Arg::Bool(v) ==> arg@ == ArgView::Bool(v),
        arg matches Arg::Int16(v) ==> arg@ == ArgView::Int16(v),
        arg matches Arg::UInt16(v) ==> arg@ == ArgView::UInt16(v),
        arg matches Arg::Int32(v) ==> arg@ == ArgView::Int32(v),
        arg matches Arg::UInt32(v) ==> arg@ == ArgView::UInt32(v),
        arg matches Arg::Int64(v) ==> arg@ == ArgView::Int64(v),
        arg matches Arg::UInt64(v) ==> arg@ == ArgView::UInt64(v),
        arg matches Arg::Double(v) ==> arg@ == ArgView::Double(v),
        arg matches Arg::Str(v) ==> arg@ == ArgView::Str(v@),
        arg matches Arg::ObjectPath(v) ==> arg@ == ArgView::ObjectPath(v@),
        arg matches Arg::Signature(v) ==> arg@ == ArgView::Signature(v@),
        arg matches Arg::UnixFd(v) ==> arg@ == ArgView::UnixFd(v),
        arg matches Arg::Array(elem, v) ==> (arg@ matches ArgView::Array(e, w) && {
            &&& e == elem@
            &&& w.len() == v@.len()
            &&& forall|i: int| 0 <= i < v@.len() ==> #[trigger] w[i] == v@[i]@
        }),
        arg matches Arg::Struct(v) ==> (arg@ matches ArgView::Struct(w) && {
            &&& w.len() == v@.len()
            &&& forall|i: int| 0 <= i < v@.len() ==> #[trigger] w[i] == v@[i]@
        }),
        arg matches Arg::DictEntry(k, v) ==> (arg@ matches ArgView::DictEntry(x, y) && {
            &&& *x == (*k)@
            &&& *y == (*v)@
        }),
        arg matches Arg::Variant(sig, v) ==> (arg@ matches ArgView::Variant(x, y) && {
            &&& x == sig@
            &&& *y == (*v)@
        }),
{
}

/// The view of a message holds all of the message.
pub proof fn law_message_view_is_faithful(m: Message)
    ensures
        m@.msg_type == m.msg_type,
        m@.serial == m.serial,
        m@.reply_serial == m.reply_serial,
        m@.no_reply == m.no_reply,
        m@.sender is Some <==> m.sender is Some,
        m.sender matches Some(s) ==> m@.sender == Some(s@),
        m@.destination is Some <==> m.destination is Some,
        m.destination matches Some(s) ==> m@.destination == Some(s@),
        m@.path is Some <==> m.path is Some,
        m.path matches Some(s) ==> m@.path == Some(s@),
        m@.interface is Some <==> m.interface is Some,
        m.interface matches Some(s) ==> m@.interface == Some(s@),
        m@.member is Some <==> m.member is Some,
        m.member matches Some(s) ==> m@.member == Some(s@),
        m@.error_name is Some <==> m.error_name is Some,
        m.error_name matches Some(s) ==> m@.error_name == Some(s@),
        m@.args.len() == m.args@.len(),
        forall|i: int| 0 <= i < m.args@.len() ==> #[trigger] m@.args[i] == m.args@[i]@,
{
}

/// A new message holds nothing but its type.
pub proof fn law_new_message_is_empty(msg_type: MessageType)
    ensures
        ({
            let m = MessageView::empty(msg_type);
            &&& m.msg_type == msg_type
            &&& m.serial == 0
            &&& m.reply_serial is None
            &&& !m.no_reply
            &&& m.sender is None
            &&& m.destination is None
            &&& m.path is None
            &&& m.interface is None
            &&& m.member is None
            &&& m.error_name is None
            &&& m.args.len() == 0
        }),
{
}

/// Whatever the message, the successful reply to it is a method return without arguments,
/// sent to where the message came from, under its number, with nothing else in it.
pub proof fn law_method_return_holds(m: MessageView)
    ensures
        ({
            let r = m.method_return();
            &&& r.msg_type == MessageType::MethodReturn
            &&& r.serial == 0
            &&& r.reply_serial == Some(m.serial)
            &&& r.no_reply
            &&& r.sender is None
            &&& r.destination == m.sender
            &&& r.path is None
            &&& r.interface is None
            &&& r.member is None
            &&& r.error_name is None
            &&& r.args.len() == 0
        }),
{
}

/// Whatever the message, the error reply to it is an error of the given name with the given
/// text as its only argument, sent to where the message came from, under its number, with
/// nothing else in it.
pub proof fn law_error_reply_holds(m: MessageView, name: Seq<char>, text: Seq<char>)
    ensures
        ({
            let r = m.error(name, text);
            &&& r.msg_type == MessageType::Error
            &&& r.serial == 0
            &&& r.reply_serial == Some(m.serial)
            &&& r.no_reply
            &&& r.sender is None
            &&& r.destination == m.sender
            &&& r.path is None
            &&& r.interface is None
            &&& r.member is None
            &&& r.error_name == Some(name)
            &&& r.args.len() == 1
            &&& r.args[0] == ArgView::Str(text)
        }),
{
}

/// Replies to two messages differ only by the numbers and senders of the messages: nothing
/// else about a message has a bearing on them.
pub proof fn law_replies_depend_on_the_address_only(
    m: MessageView,
    other: MessageView,
    name: Seq<char>,
    text: Seq<char>,
)
    requires
        m.serial == other.serial,
        m.sender == other.sender,
    ensures
        m.method_return() == other.method_return(),
        m.error(name, text) == other.error(name, text),
{
}

/// No two errors give the same reply: the name and the text can be read back from it.
pub proof fn law_error_reply_tells_errors_apart(
    m: MessageView,
    name: Seq<char>,
    text: Seq<char>,
    other_name: Seq<char>,
    other_text: Seq<char>,
)
    ensures
        m.error(name, text) == m.error(other_name, other_text) <==> name == other_name && text
            == other_text,
{
    assert(m.error(name, text).args[0] == ArgView::Str(text));
    assert(m.error(other_name, other_text).args[0] == ArgView::Str(other_text));
}

/// A further argument comes after all others, and changes nothing else.
pub proof fn law_append_adds_at_the_end(m: MessageView, arg: ArgView)
    ensures
        ({
            let r = m.append1(arg);
            &&& r.args.len() == m.args.len() + 1
            &&& r.args[m.args.len() as int] == arg
            &&& forall|i: int| 0 <= i < m.args.len() ==> #[trigger] r.args[i] == m.args[i]
            &&& r.msg_type == m.msg_type
            &&& r.serial == m.serial
            &&& r.reply_serial == m.reply_serial
            &&& r.no_reply == m.no_reply
            &&& r.sender == m.sender
            &&& r.destination == m.destination
            &&& r.path == m.path
            &&& r.interface == m.interface
            &&& r.member == m.member
            &&& r.error_name == m.error_name
        }),
{
}

/// A message replies to another exactly if it is an answer, is sent to where the other came
/// from, names its number, and wants no reply.
pub proof fn law_reply_means(r: MessageView, request: MessageView)
    ensures
        r.replies_to(request) <==> (r.msg_type == MessageType::MethodReturn || r.msg_type
            == MessageType::Error) && r.reply_serial == Some(request.serial) && r.destination
            == request.sender && r.no_reply,
{
}

/// What any call for a new message, a reply or a further argument gives.
pub proof fn law_messages_are_built_as_asked(
    msg_type: MessageType,
    request: &Message,
    name: &str,
    text: &str,
    message: Message,
    arg: Arg,
    created: Message,
    returned: Message,
    refused: Message,
    extended: Message,
)
    requires
        call_ensures(Message::new, (msg_type,), created),
        call_ensures(Message::method_return, (request,), returned),
        call_ensures(Message::error, (request, name, text), refused),
        call_ensures(Message::append1, (message, arg), extended),
    ensures
        created@.msg_type == msg_type,
        created@.reply_serial is None && created@.args.len() == 0,
        returned@.msg_type == MessageType::MethodReturn,
        returned@.replies_to(request@),
        returned@.error_name is None && returned@.args.len() == 0,
        refused@.msg_type == MessageType::Error,
        refused@.replies_to(request@),
        refused@.error_name == Some(name@),
        refused@.args == seq![ArgView::Str(text@)],
        extended.args@ == message.args@.push(arg),
        extended@.reply_serial == message@.reply_serial,
        extended@.destination == message@.destination,
        extended@.msg_type == message@.msg_type,
        extended@.error_name == message@.error_name,
{
}

/// A copy of an optional string.
pub(crate) fn clone_opt(s: &Option<String>) -> (r: Option<String>)
    ensures
        opt_chars(r) == opt_chars(*s),
{
    match s {
        Some(s) => Some(s.clone()),
        None => None,
    }
}

/// Whether a string holds exactly `text`.
pub(crate) fn is_text(s: &String, text: &str) -> (r: bool)
    ensures
        r == (s@ == text@),
{
    *s == text.to_owned()
}

} // verus!
