//! The replies that are due to messages nobody else has handled.
use crate::message::{is_text, Arg, ArgView, Message, MessageType, MessageView};
use vstd::prelude::*;

verus! {

/// Whether a message is a call to the interface `org.freedesktop.DBus.Peer`.
pub open spec fn calls_peer(m: MessageView) -> bool {
    &&& m.msg_type == MessageType::MethodCall
    &&& m.interface == Some("org.freedesktop.DBus.Peer"@)
}

/// Whether the reply to a message holds the id of the local machine.
pub open spec fn wants_machine_id(m: MessageView) -> bool {
    &&& calls_peer(m)
    &&& m.member == Some("GetMachineId"@)
}

/// The reply to a request for the machine id: the id, or an error where there is none.
pub open spec fn machine_id_reply_to(m: MessageView, machine_id: Option<Seq<char>>) -> MessageView {
    match machine_id {
        Some(id) => m.method_return().append1(ArgView::Str(id)),
        None => m.error("org.freedesktop.DBus.Error.Failed"@, "Failed to retreive UUID"@),
    }
}

/// The reply that the interface `org.freedesktop.DBus.Peer` gives to a message.
pub open spec fn peer_reply_to(m: MessageView, machine_id: Option<Seq<char>>) -> Option<
    MessageView,
> {
    if !calls_peer(m) {
        None
    } else if m.member == Some("Ping"@) {
        Some(m.method_return())
    } else if m.member == Some("GetMachineId"@) {
        Some(machine_id_reply_to(m, machine_id))
    } else {
        Some(m.error("org.freedesktop.DBus.Error.UnknownMethod"@, "Method does not exist"@))
    }
}

/// The reply to a message that nothing else knows how to handle.
pub open spec fn unknown_method_reply_to(m: MessageView) -> Option<MessageView> {
    if m.msg_type == MessageType::MethodCall {
        Some(
            m.error(
                "org.freedesktop.DBus.Error.UnknownMethod"@,
                "Path, Interface, or Method does not exist"@,
            ),
        )
    } else {
        None
    }
}

/// The reply due to a message that nobody has handled.
pub open spec fn default_reply_to(m: MessageView, machine_id: Option<Seq<char>>) -> Option<
    MessageView,
> {
    match peer_reply_to(m, machine_id) {
        Some(r) => Some(r),
        None => unknown_method_reply_to(m),
    }
}

/// The characters of an optional string slice.
pub open spec fn opt_str_chars(s: Option<&str>) -> Option<Seq<char>> {
    match s {
        Some(s) => Some(s@),
        None => None,
    }
}

/// What an optional reply holds.
pub open spec fn opt_message(m: Option<Message>) -> Option<MessageView> {
    match m {
        Some(m) => Some(m@),
        None => None,
    }
}

/// Whether a message is a call to the interface `org.freedesktop.DBus.Peer`.
fn is_peer_call(m: &Message) -> (r: bool)
    ensures
        r == calls_peer(m@),
{
    if m.msg_type != MessageType::MethodCall {
        return false;
    }
    match &m.interface {
        Some(interface) => is_text(interface, "org.freedesktop.DBus.Peer"),
        None => false,
    }
}

/// Whether the id of the local machine is needed to reply to `m`.
///
/// Reading the id is work for the caller, who hands the outcome to [`default_reply`].
pub fn needs_machine_id(m: &Message) -> (r: bool)
    ensures
        r == wants_machine_id(m@),
        r <==> m.msg_type == MessageType::MethodCall && m@.interface == Some(
            "org.freedesktop.DBus.Peer"@,
        ) && m@.member == Some("GetMachineId"@),
{
    if !is_peer_call(m) {
        return false;
    }
    match &m.member {
        Some(method) => is_text(method, "GetMachineId"),
        None => false,
    }
}

/// Handles what it takes to be a good D-Bus citizen.
///
/// To be called for messages that have not been handled otherwise:
/// * It handles calls to `org.freedesktop.DBus.Peer`.
/// * To other method calls, the reply is the error that the method is unknown.
///
/// `machine_id` is the id of the local machine, or `None` where it could not be read;
/// it is looked at only where [`needs_machine_id`] says so.
pub fn default_reply(m: &Message, machine_id: Option<&str>) -> (r: Option<Message>)
    ensures
        opt_message(r) == default_reply_to(m@, opt_str_chars(machine_id)),
        r is Some <==> m.msg_type == MessageType::MethodCall,
        r matches Some(x) ==> {
            &&& x.msg_type == MessageType::MethodReturn || x.msg_type == MessageType::Error
            &&& x.reply_serial == Some(m.serial)
            &&& x@.destination == m@.sender
            &&& x.no_reply
        },
{
    match peer(m, machine_id) {
        Some(r) => Some(r),
        None => unknown_method(m),
    }
}

/// Replies if this is a call to `org.freedesktop.DBus.Peer`, otherwise returns `None`.
pub fn peer(m: &Message, machine_id: Option<&str>) -> (r: Option<Message>)
    ensures
        opt_message(r) == peer_reply_to(m@, opt_str_chars(machine_id)),
        r is Some <==> m.msg_type == MessageType::MethodCall && m@.interface == Some(
            "org.freedesktop.DBus.Peer"@,
        ),
        r matches Some(x) ==> (m@.member == Some("Ping"@) ==> {
            &&& x.msg_type == MessageType::MethodReturn
            &&& x.args@.len() == 0
            &&& x.error_name is None
        }),
{
    if !is_peer_call(m) {
        return None;
    }
    if let Some(method) = &m.member {
        if is_text(method, "Ping") {
            return Some(m.method_return());
        }
        if is_text(method, "GetMachineId") {
            return match machine_id {
                Some(id) => Some(m.method_return().append1(Arg::Str(id.to_owned()))),
                None => Some(
                    m.error("org.freedesktop.DBus.Error.Failed", "Failed to retreive UUID"),
                ),
            };
        }
    }
    Some(m.error("org.freedesktop.DBus.Error.UnknownMethod", "Method does not exist"))
}

/// For method calls, replies that the method is unknown, otherwise returns `None`.
pub fn unknown_method(m: &Message) -> (r: Option<Message>)
    ensures
        opt_message(r) == unknown_method_reply_to(m@),
        r is Some <==> m.msg_type == MessageType::MethodCall,
        r matches Some(x) ==> {
            &&& x.msg_type == MessageType::Error
            &&& x@.error_name == Some("org.freedesktop.DBus.Error.UnknownMethod"@)
            &&& x@.args == seq![ArgView::Str("Path, Interface, or Method does not exist"@)]
        },
{
    if m.msg_type != MessageType::MethodCall {
        return None;
    }
    Some(
        m.error(
            "org.freedesktop.DBus.Error.UnknownMethod",
            "Path, Interface, or Method does not exist",
        ),
    )
}

/// Every method call is answered, and nothing else is.
pub proof fn law_exactly_calls_are_answered(m: MessageView, machine_id: Option<Seq<char>>)
    ensures
        default_reply_to(m, machine_id) is Some <==> m.msg_type == MessageType::MethodCall,
{
}

/// The peer interface answers exactly the calls made to it.
pub proof fn law_peer_answers_its_calls(m: MessageView, machine_id: Option<Seq<char>>)
    ensures
        peer_reply_to(m, machine_id) is Some <==> calls_peer(m),
{
}

/// A call to any interface but the peer interface is refused as unknown, whatever
/// method it names.
pub proof fn law_other_calls_are_unknown(m: MessageView, machine_id: Option<Seq<char>>)
    requires
        m.msg_type == MessageType::MethodCall,
        m.interface != Some("org.freedesktop.DBus.Peer"@),
    ensures
        default_reply_to(m, machine_id) == Some(
            m.error(
                "org.freedesktop.DBus.Error.UnknownMethod"@,
                "Path, Interface, or Method does not exist"@,
            ),
        ),
        default_reply_to(m, machine_id) matches Some(r) && {
            &&& r.msg_type == MessageType::Error
            &&& r.error_name == Some("org.freedesktop.DBus.Error.UnknownMethod"@)
            &&& r.args == seq![ArgView::Str("Path, Interface, or Method does not exist"@)]
            &&& r.reply_serial == Some(m.serial)
            &&& r.destination == m.sender
            &&& r.no_reply
        },
{
}

/// A default reply goes back to the sender of the message, under the number of the message,
/// and wants no reply itself.
pub proof fn law_default_replies_are_addressed(m: MessageView, machine_id: Option<Seq<char>>)
    ensures
        default_reply_to(m, machine_id) matches Some(r) ==> r.replies_to(m),
{
}

/// No reply is ever answered, so that two parties that both reply by default come to
/// rest.
pub proof fn law_default_replies_are_not_answered(
    m: MessageView,
    machine_id: Option<Seq<char>>,
    other_id: Option<Seq<char>>,
)
    ensures
        default_reply_to(m, machine_id) matches Some(r) ==> default_reply_to(r, other_id) is None,
{
}

/// The id of the machine shows in the reply only where it was asked for.
pub proof fn law_machine_id_only_where_asked(
    m: MessageView,
    machine_id: Option<Seq<char>>,
    other_id: Option<Seq<char>>,
)
    requires
        !wants_machine_id(m),
    ensures
        default_reply_to(m, machine_id) == default_reply_to(m, other_id),
{
}

/// Every ping is answered by a method return without arguments, whatever object it is for and
/// whatever it carries.
pub proof fn law_ping_is_returned(m: MessageView, machine_id: Option<Seq<char>>)
    requires
        m.msg_type == MessageType::MethodCall,
        m.interface == Some("org.freedesktop.DBus.Peer"@),
        m.member == Some("Ping"@),
    ensures
        peer_reply_to(m, machine_id) == default_reply_to(m, machine_id),
        default_reply_to(m, machine_id) == Some(m.method_return()),
        default_reply_to(m, machine_id) matches Some(r) && {
            &&& r.msg_type == MessageType::MethodReturn
            &&& r.args.len() == 0
            &&& r.error_name is None
            &&& r.reply_serial == Some(m.serial)
            &&& r.destination == m.sender
            &&& r.no_reply
        },
{
}

/// A call for the machine id, on whatever object, is answered by a method return with the id
/// as its only argument.
pub proof fn law_known_machine_id_is_returned(m: MessageView, id: Seq<char>)
    requires
        m.msg_type == MessageType::MethodCall,
        m.interface == Some("org.freedesktop.DBus.Peer"@),
        m.member == Some("GetMachineId"@),
    ensures
        peer_reply_to(m, Some(id)) == default_reply_to(m, Some(id)),
        default_reply_to(m, Some(id)) matches Some(r) && {
            &&& r.msg_type == MessageType::MethodReturn
            &&& r.args == seq![ArgView::Str(id)]
            &&& r.error_name is None
            &&& r.reply_serial == Some(m.serial)
            &&& r.destination == m.sender
            &&& r.no_reply
            &&& r.serial == 0
            &&& r.sender is None
            &&& r.path is None
            &&& r.interface is None
            &&& r.member is None
        },
{
    reveal_strlit("GetMachineId");
    reveal_strlit("Ping");
    assert("GetMachineId"@.len() != "Ping"@.len());
    assert(m.method_return().append1(ArgView::Str(id)).args =~= seq![ArgView::Str(id)]);
}

/// A call for the machine id where there is none is answered by an error that says so.
pub proof fn law_missing_machine_id_is_an_error(m: MessageView)
    requires
        m.msg_type == MessageType::MethodCall,
        m.interface == Some("org.freedesktop.DBus.Peer"@),
        m.member == Some("GetMachineId"@),
    ensures
        peer_reply_to(m, None) == default_reply_to(m, None),
        default_reply_to(m, None) == Some(
            m.error("org.freedesktop.DBus.Error.Failed"@, "Failed to retreive UUID"@),
        ),
        default_reply_to(m, None) matches Some(r) && {
            &&& r.msg_type == MessageType::Error
            &&& r.error_name == Some("org.freedesktop.DBus.Error.Failed"@)
            &&& r.args == seq![ArgView::Str("Failed to retreive UUID"@)]
            &&& r.reply_serial == Some(m.serial)
            &&& r.destination == m.sender
            &&& r.no_reply
        },
{
    reveal_strlit("GetMachineId");
    reveal_strlit("Ping");
    assert("GetMachineId"@.len() != "Ping"@.len());
}

/// A call of any other method of the peer interface, or of none, is answered by the error
/// that the method does not exist.
pub proof fn law_other_peer_methods_do_not_exist(m: MessageView, machine_id: Option<Seq<char>>)
    requires
        m.msg_type == MessageType::MethodCall,
        m.interface == Some("org.freedesktop.DBus.Peer"@),
        m.member != Some("Ping"@),
        m.member != Some("GetMachineId"@),
    ensures
        peer_reply_to(m, machine_id) == default_reply_to(m, machine_id),
        default_reply_to(m, machine_id) == Some(
            m.error("org.freedesktop.DBus.Error.UnknownMethod"@, "Method does not exist"@),
        ),
        default_reply_to(m, machine_id) matches Some(r) && {
            &&& r.msg_type == MessageType::Error
            &&& r.error_name == Some("org.freedesktop.DBus.Error.UnknownMethod"@)
            &&& r.args == seq![ArgView::Str("Method does not exist"@)]
            &&& r.reply_serial == Some(m.serial)
            &&& r.destination == m.sender
            &&& r.no_reply
        },
{
}

/// Two messages of one type that name the same interface and method, and come from the same
/// sender under the same number, get the same reply: nothing else about them has a bearing on
/// it.
pub proof fn law_default_reply_ignores_the_rest(
    m: MessageView,
    other: MessageView,
    machine_id: Option<Seq<char>>,
)
    requires
        m.msg_type == other.msg_type,
        m.interface == other.interface,
        m.member == other.member,
        m.serial == other.serial,
        m.sender == other.sender,
    ensures
        peer_reply_to(m, machine_id) == peer_reply_to(other, machine_id),
        unknown_method_reply_to(m) == unknown_method_reply_to(other),
        default_reply_to(m, machine_id) == default_reply_to(other, machine_id),
        wants_machine_id(m) == wants_machine_id(other),
{
}

/// The peer interface goes first, and the refusal stands for what it leaves.
pub proof fn law_peer_goes_first(m: MessageView, machine_id: Option<Seq<char>>)
    ensures
        peer_reply_to(m, machine_id) is Some ==> default_reply_to(m, machine_id) == peer_reply_to(
            m,
            machine_id,
        ),
        peer_reply_to(m, machine_id) is None ==> default_reply_to(m, machine_id)
            == unknown_method_reply_to(m),
        unknown_method_reply_to(m) is Some <==> m.msg_type == MessageType::MethodCall,
        unknown_method_reply_to(m) matches Some(r) ==> {
            &&& r.msg_type == MessageType::Error
            &&& r.error_name == Some("org.freedesktop.DBus.Error.UnknownMethod"@)
            &&& r.args == seq![ArgView::Str("Path, Interface, or Method does not exist"@)]
            &&& r.replies_to(m)
        },
{
}

/// A message is a call to the peer interface by its type and the interface it names, and asks
/// for the machine id by its method.
pub proof fn law_peer_calls_are_known_by_name(m: MessageView)
    ensures
        calls_peer(m) <==> m.msg_type == MessageType::MethodCall && m.interface == Some(
            "org.freedesktop.DBus.Peer"@,
        ),
        wants_machine_id(m) <==> m.msg_type == MessageType::MethodCall && m.interface == Some(
            "org.freedesktop.DBus.Peer"@,
        ) && m.member == Some("GetMachineId"@),
{
}

/// An optional string or message is viewed as what it holds.
pub proof fn law_optional_views_are_faithful(s: Option<&str>, m: Option<Message>)
    ensures
        opt_str_chars(s) is Some <==> s is Some,
        s matches Some(t) ==> opt_str_chars(s) == Some(t@),
        opt_message(m) is Some <==> m is Some,
        m matches Some(x) ==> opt_message(m) == Some(x@),
{
}

/// A request for the machine id is answered with the id, and with an error where there
/// is none.
pub proof fn law_machine_id_where_asked(m: MessageView, machine_id: Option<Seq<char>>)
    requires
        wants_machine_id(m),
    ensures
        default_reply_to(m, machine_id) == Some(machine_id_reply_to(m, machine_id)),
{
    reveal_strlit("GetMachineId");
    reveal_strlit("Ping");
    assert("GetMachineId"@.len() != "Ping"@.len());
}

/// Any default reply to a call of the peer interface is a return where the method is known
/// and its result is there, and an error where not; any other call is refused, and anything
/// but a call is left alone.
pub proof fn law_default_reply_calls(
    m: &Message,
    machine_id: Option<&str>,
    r: Option<Message>,
    needed: bool,
)
    requires
        call_ensures(default_reply, (m, machine_id), r),
        call_ensures(needs_machine_id, (m,), needed),
    ensures
        r is Some <==> m@.msg_type == MessageType::MethodCall,
        r matches Some(x) ==> x@.replies_to(m@),
        r matches Some(x) ==> {
            let peer_call = m@.interface == Some("org.freedesktop.DBus.Peer"@);
            let ping = peer_call && m@.member == Some("Ping"@);
            let id_asked = peer_call && m@.member == Some("GetMachineId"@);
            &&& ping ==> x@.msg_type == MessageType::MethodReturn && x@.args.len() == 0
            &&& id_asked ==> (machine_id matches Some(id) ==> x@.msg_type
                == MessageType::MethodReturn && x@.args == seq![ArgView::Str(id@)])
            &&& id_asked && machine_id is None ==> x@.msg_type == MessageType::Error
                && x@.error_name == Some("org.freedesktop.DBus.Error.Failed"@)
            &&& !ping && !id_asked ==> x@.msg_type == MessageType::Error && x@.error_name == Some(
                "org.freedesktop.DBus.Error.UnknownMethod"@,
            )
        },
        needed <==> m@.msg_type == MessageType::MethodCall && m@.interface == Some(
            "org.freedesktop.DBus.Peer"@,
        ) && m@.member == Some("GetMachineId"@),
{
    reveal_strlit("GetMachineId");
    reveal_strlit("Ping");
    assert("GetMachineId"@.len() != "Ping"@.len());
    if let Some(id) = machine_id {
        assert(m@.method_return().append1(ArgView::Str(id@)).args =~= seq![ArgView::Str(id@)]);
    }
}

} // verus!
