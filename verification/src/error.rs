//! The two kinds of error: what the bus library reports, and what a method answers.
use crate::message::{opt_chars, ArgView, Message, MessageType};
use vstd::prelude::*;

verus! {

/// An error of the bus library. Either part is absent where the library left it unset.
#[derive(Debug)]
pub struct Error {
    /// The name of the error, such as `org.freedesktop.DBus.Error.Failed`.
    pub name: Option<String>,
    /// What went wrong, for a human reader.
    pub message: Option<String>,
}

/// What an [`Error`] holds.
pub struct ErrorView {
    pub name: Option<Seq<char>>,
    pub message: Option<Seq<char>>,
}

impl View for Error {
    type V = ErrorView;

    open spec fn view(&self) -> ErrorView {
        ErrorView { name: opt_chars(self.name), message: opt_chars(self.message) }
    }
}

impl ErrorView {
    /// A general failure, described by `message`.
    pub open spec fn failed(message: Seq<char>) -> ErrorView {
        ErrorView {
            name: Some("org.freedesktop.DBus.Error.Failed"@),
            message: Some(message),
        }
    }
}

impl Error {
    /// A general failure, described by `message`.
    pub fn new_failed(message: &str) -> (e: Error)
        ensures
            e@ == ErrorView::failed(message@),
            e.name matches Some(n) && n@ == "org.freedesktop.DBus.Error.Failed"@,
            e.message matches Some(m) && m@ == message@,
    {
        Error {
            name: Some("org.freedesktop.DBus.Error.Failed".to_owned()),
            message: Some(message.to_owned()),
        }
    }
}

/// The error that a method handler answers its caller with.
#[derive(Debug)]
pub struct MethodErr {
    /// The name of the error, such as `org.freedesktop.DBus.Error.InvalidArgs`.
    pub name: String,
    /// What went wrong, for a human reader.
    pub description: String,
}

impl MethodErr {
    /// The error reply to `msg` that carries this error.
    pub fn to_message(&self, msg: &Message) -> (r: Message)
        ensures
            r@ == msg@.error(self.name@, self.description@),
            r.msg_type == MessageType::Error,
            r.error_name matches Some(n) && n@ == self.name@,
            r@.args == seq![ArgView::Str(self.description@)],
            r.reply_serial == Some(msg.serial),
            r@.destination == msg@.sender,
            r.no_reply,
    {
        msg.error(self.name.as_str(), self.description.as_str())
    }
}

/// The view of an error holds all of the error.
pub proof fn law_error_view_is_faithful(e: Error)
    ensures
        e@.name is Some <==> e.name is Some,
        e.name matches Some(s) ==> e@.name == Some(s@),
        e@.message is Some <==> e.message is Some,
        e.message matches Some(s) ==> e@.message == Some(s@),
{
}

/// A general failure has its name, and the message it was given.
pub proof fn law_failure_holds(message: Seq<char>)
    ensures
        ErrorView::failed(message).name == Some("org.freedesktop.DBus.Error.Failed"@),
        ErrorView::failed(message).message == Some(message),
{
}

/// Any error of a method is answered under its own name and with its own description, and any
/// general failure keeps its message.
pub proof fn law_errors_keep_their_words(
    e: &MethodErr,
    msg: &Message,
    r: Message,
    message: &str,
    failure: Error,
)
    requires
        call_ensures(MethodErr::to_message, (e, msg), r),
        call_ensures(Error::new_failed, (message,), failure),
    ensures
        r@.msg_type == MessageType::Error,
        r@.error_name == Some(e.name@),
        r@.args == seq![ArgView::Str(e.description@)],
        r@.replies_to(msg@),
        failure@.name == Some("org.freedesktop.DBus.Error.Failed"@),
        failure@.message == Some(message@),
{
}

} // verus!
