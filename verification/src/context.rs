//! A method call that is being handled, and the one reply it is owed.
use crate::channel::Sender;
use crate::error::MethodErr;
use crate::message::{clone_opt, opt_chars, ArgView, Message, MessageType, MessageView};
use crate::reply::opt_message;
use vstd::prelude::*;

verus! {

/// A method call on its way through the handlers.
///
/// The call is never changed. At most one reply is held for it at a time, and none at all
/// if the caller wants none. `P` is what the handling of a property carries along.
pub struct Context<P> {
    path: String,
    interface: Option<String>,
    method: String,
    message: Message,
    prop_ctx: Option<P>,
    reply: Option<Message>,
}

/// What a [`Context`] holds.
pub struct ContextView<P> {
    /// The method call.
    pub message: MessageView,
    /// The reply that waits to be sent.
    pub reply: Option<MessageView>,
    /// What the handling of a property has left here.
    pub prop_ctx: Option<P>,
}

impl<P> ContextView<P> {
    /// Whether the message is a method call that names an object and a method, and whether
    /// no reply is held for a caller that wants none.
    pub open spec fn valid(self) -> bool {
        &&& self.message.msg_type == MessageType::MethodCall
        &&& self.message.path is Some
        &&& self.message.member is Some
        &&& self.message.no_reply ==> self.reply is None
    }

    /// The context of a message that has just come in, if the message is a method call that
    /// names an object and a method.
    pub open spec fn opened(msg: MessageView) -> Option<ContextView<P>> {
        if msg.msg_type == MessageType::MethodCall && msg.path is Some && msg.member is Some {
            Some(ContextView { message: msg, reply: None, prop_ctx: None })
        } else {
            None
        }
    }

    /// Whether the caller wants a reply and none is held yet.
    pub open spec fn owes_reply(self) -> bool {
        !self.message.no_reply && self.reply is None
    }

    /// After a handler failed: the error is the reply, in place of any other, unless the
    /// caller wants none.
    pub open spec fn failed(self, name: Seq<char>, description: Seq<char>) -> Self {
        if self.message.no_reply {
            self
        } else {
            ContextView { reply: Some(self.message.error(name, description)), ..self }
        }
    }

    /// After a handler offered a reply: it is taken if one is still owed.
    pub open spec fn replied(self, reply: MessageView) -> Self {
        if self.owes_reply() {
            ContextView { reply: Some(reply), ..self }
        } else {
            self
        }
    }

    /// After the reply left, whether or not it could be sent.
    pub open spec fn flushed(self) -> Self {
        ContextView { reply: None, ..self }
    }

    /// After the handling of a property left `p` here.
    pub open spec fn given(self, p: P) -> Self {
        ContextView { prop_ctx: Some(p), ..self }
    }

    /// After what the handling of a property left here was taken away.
    pub open spec fn taken(self) -> Self {
        ContextView { prop_ctx: None, ..self }
    }
}

impl<P> View for Context<P> {
    type V = ContextView<P>;

    closed spec fn view(&self) -> ContextView<P> {
        ContextView {
            message: self.message@,
            reply: opt_message(self.reply),
            prop_ctx: self.prop_ctx,
        }
    }
}

impl<P> Context<P> {
    #[verifier::type_invariant]
    spec fn inv(self) -> bool {
        &&& self@.valid()
        &&& self@.message.path == Some(self.path@)
        &&& self@.message.interface == opt_chars(self.interface)
        &&& self@.message.member == Some(self.method@)
    }

    /// The reply that waits to be sent, as the very message that a flush hands over.
    pub closed spec fn held(&self) -> Option<Message> {
        self.reply
    }

    /// The context of a message that has just come in. `None` if the message is not a method
    /// call, or names no object or no method.
    pub fn new(msg: Message) -> (r: Option<Self>)
        ensures
            r is Some <==> ContextView::<P>::opened(msg@) is Some,
            r matches Some(c) ==> Some(c@) == ContextView::<P>::opened(msg@),
            r is Some <==> msg.msg_type == MessageType::MethodCall && msg.path is Some
                && msg.member is Some,
            r matches Some(c) ==> {
                &&& c@.message == msg@
                &&& c@.reply is None
                &&& c@.prop_ctx is None
                &&& c.held() is None
            },
    {
        if msg.msg_type != MessageType::MethodCall {
            return None;
        }
        let path = match &msg.path {
            Some(p) => p.clone(),
            None => {
                return None;
            },
        };
        let interface = clone_opt(&msg.interface);
        let method = match &msg.member {
            Some(m) => m.clone(),
            None => {
                return None;
            },
        };
        Some(Context { path, interface, method, message: msg, prop_ctx: None, reply: None })
    }

    /// Takes notice that a handler failed with `e`: unless the caller wants no reply, `e` is
    /// now the reply.
    pub fn fail(&mut self, e: &MethodErr)
        ensures
            final(self)@ == old(self)@.failed(e.name@, e.description@),
            final(self)@.message == old(self)@.message,
            final(self)@.prop_ctx == old(self)@.prop_ctx,
            old(self)@.message.no_reply ==> final(self)@.reply == old(self)@.reply,
            !old(self)@.message.no_reply ==> (final(self)@.reply matches Some(r) && {
                &&& r.msg_type == MessageType::Error
                &&& r.error_name == Some(e.name@)
                &&& r.args == seq![ArgView::Str(e.description@)]
                &&& r.reply_serial == Some(old(self)@.message.serial)
                &&& r.destination == old(self)@.message.sender
                &&& r.no_reply
            }),
    {
        proof {
            use_type_invariant(&*self);
        }
        if !self.message.no_reply {
            self.reply = Some(e.to_message(&self.message));
        }
    }

    /// Runs `f` on this context. If `f` fails, its error becomes the reply, unless the caller
    /// wants none.
    pub fn check<R, F: FnOnce(&mut Context<P>) -> Result<R, MethodErr>>(
        &mut self,
        f: F,
    ) -> (res: Result<R, ()>)
        requires
            forall|c: &mut Context<P>| *c == *old(self) ==> call_requires(f, (c,)),
        ensures
            exists|c: &mut Context<P>, out: Result<R, MethodErr>|
                {
                    &&& *c == *old(self)
                    &&& #[trigger] call_ensures(f, (c,), out)
                    &&& match out {
                        Ok(v) => res == Ok::<R, ()>(v) && *final(self) == *final(c),
                        Err(e) => {
                            &&& res == Err::<R, ()>(())
                            &&& final(self)@ == final(c)@.failed(e.name@, e.description@)
                            &&& final(self)@.message == final(c)@.message
                            &&& final(self)@.prop_ctx == final(c)@.prop_ctx
                            &&& final(c)@.message.no_reply ==> final(self)@.reply
                                == final(c)@.reply
                            &&& !final(c)@.message.no_reply ==> (final(self)@.reply matches Some(
                                r,
                            ) && {
                                &&& r.msg_type == MessageType::Error
                                &&& r.error_name == Some(e.name@)
                                &&& r.args == seq![ArgView::Str(e.description@)]
                                &&& r.reply_serial == Some(final(c)@.message.serial)
                                &&& r.destination == final(c)@.message.sender
                                &&& r.no_reply
                            })
                        },
                    }
                },
    {
        match f(self) {
            Ok(v) => Ok(v),
            Err(e) => {
                self.fail(&e);
                Err(())
            },
        }
    }

    /// Lets `f` fill in the successful reply to the call. Does nothing if the caller wants no
    /// reply, or if one is already held.
    pub fn set_reply<F: FnOnce(&mut Message)>(&mut self, f: F)
        requires
            old(self)@.owes_reply() ==> forall|m: &mut Message|
                (*m)@ == old(self)@.message.method_return() ==> call_requires(f, (m,)),
        ensures
            !old(self)@.owes_reply() ==> *final(self) == *old(self),
            old(self)@.owes_reply() ==> exists|m: &mut Message|
                {
                    &&& (*m)@ == old(self)@.message.method_return()
                    &&& #[trigger] call_ensures(f, (m,), ())
                    &&& final(self)@ == old(self)@.replied((*final(m))@)
                    &&& final(self).held() == Some(*final(m))
                    &&& final(self)@.reply == Some((*final(m))@)
                    &&& final(self)@.message == old(self)@.message
                    &&& final(self)@.prop_ctx == old(self)@.prop_ctx
                },
    {
        proof {
            use_type_invariant(&*self);
        }
        if self.message.no_reply {
            return;
        }
        if self.reply.is_some() {
            return;
        }
        let mut msg = self.message.method_return();
        f(&mut msg);
        self.reply = Some(msg);
    }

    /// Sends the reply, if one is held. It is gone afterwards, also if sending it failed.
    ///
    /// The reply that is held is handed to the connection once, and nothing else is; nothing
    /// at all if none is held.
    pub fn flush_messages<S: Sender>(&mut self, conn: &S) -> (res: Result<(), ()>)
        requires
            old(self).held() matches Some(msg) ==> conn.may_send(msg),
        ensures
            old(self)@.reply == opt_message(old(self).held()),
            final(self).held() is None,
            final(self)@ == old(self)@.flushed(),
            final(self)@.message == old(self)@.message,
            final(self)@.prop_ctx == old(self)@.prop_ctx,
            old(self).held() is None ==> res is Ok,
            old(self).held() matches Some(msg) ==> exists|out: Result<u32, ()>|
                {
                    &&& #[trigger] call_ensures(S::send, (conn, msg), out)
                    &&& res is Ok <==> out is Ok
                },
    {
        proof {
            use_type_invariant(&*self);
        }
        let mut reply: Option<Message> = None;
        std::mem::swap(&mut self.reply, &mut reply);
        if let Some(msg) = reply {
            match conn.send(msg) {
                Ok(_) => {},
                Err(()) => {
                    return Err(());
                },
            }
        }
        Ok(())
    }

    /// The object that the call is for.
    pub fn path(&self) -> (r: &str)
        ensures
            self@.valid(),
            self@.message.path == Some(r@),
    {
        proof {
            use_type_invariant(self);
        }
        self.path.as_str()
    }

    /// The interface that the call names, if any.
    pub fn interface(&self) -> (r: Option<&str>)
        ensures
            self@.valid(),
            r is Some <==> self@.message.interface is Some,
            r matches Some(i) ==> self@.message.interface == Some(i@),
    {
        proof {
            use_type_invariant(self);
        }
        match &self.interface {
            Some(i) => Some(i.as_str()),
            None => None,
        }
    }

    /// The method that the call is for.
    pub fn method(&self) -> (r: &str)
        ensures
            self@.valid(),
            self@.message.member == Some(r@),
    {
        proof {
            use_type_invariant(self);
        }
        self.method.as_str()
    }

    /// The call.
    pub fn message(&self) -> (r: &Message)
        ensures
            self@.valid(),
            r@ == self@.message,
    {
        proof {
            use_type_invariant(self);
        }
        &self.message
    }

    /// Whether a reply is held.
    pub fn has_reply(&self) -> (r: bool)
        ensures
            self@.valid(),
            r == self@.reply is Some,
            r == self.held() is Some,
    {
        proof {
            use_type_invariant(self);
        }
        self.reply.is_some()
    }

    /// Takes away what the handling of a property left here.
    pub fn take_propctx(&mut self) -> (r: Option<P>)
        ensures
            r == old(self)@.prop_ctx,
            final(self)@ == old(self)@.taken(),
            final(self)@.prop_ctx is None,
            final(self)@.message == old(self)@.message,
            final(self)@.reply == old(self)@.reply,
            final(self).held() == old(self).held(),
    {
        proof {
            use_type_invariant(&*self);
        }
        let mut p: Option<P> = None;
        std::mem::swap(&mut self.prop_ctx, &mut p);
        p
    }

    /// Leaves `p` here for the handling of a property.
    pub fn give_propctx(&mut self, p: P)
        ensures
            final(self)@ == old(self)@.given(p),
            final(self)@.prop_ctx == Some(p),
            final(self)@.message == old(self)@.message,
            final(self)@.reply == old(self)@.reply,
            final(self).held() == old(self).held(),
    {
        proof {
            use_type_invariant(&*self);
        }
        self.prop_ctx = Some(p);
    }
}

/// A message that opens a context gives a valid one, which holds the message as it came and
/// owes a reply exactly if the caller wants one.
pub proof fn law_opened_is_valid<P>(msg: MessageView)
    ensures
        ContextView::<P>::opened(msg) matches Some(c) ==> {
            &&& c.valid()
            &&& c.message == msg
            &&& c.owes_reply() == !msg.no_reply
        },
{
}

/// A context is opened for every method call that names an object and a method, whatever else
/// it holds, and for no other message. It starts with the call as it came, and with nothing
/// else.
pub proof fn law_every_complete_call_is_opened<P>(msg: MessageView)
    ensures
        ContextView::<P>::opened(msg) is Some <==> msg.msg_type == MessageType::MethodCall
            && msg.path is Some && msg.member is Some,
        ContextView::<P>::opened(msg) matches Some(c) ==> {
            &&& c.message == msg
            &&& c.reply is None
            &&& c.prop_ctx is None
        },
{
}

/// Any call that opens a context gives one that shows that call, and none is refused.
pub proof fn law_opened_context_shows_the_call<P>(msg: Message, r: Option<Context<P>>)
    requires
        call_ensures(Context::<P>::new, (msg,), r),
    ensures
        r is Some <==> msg.msg_type == MessageType::MethodCall && msg.path is Some
            && msg.member is Some,
        r matches Some(c) ==> {
            &&& c@.message == msg@
            &&& c@.reply is None
            &&& c.held() is None
            &&& c@.prop_ctx is None
        },
{
}

/// A context is valid exactly if its message is a method call that names an object and a
/// method, and no reply is held against the caller's wish.
pub proof fn law_valid_means<P>(c: ContextView<P>)
    ensures
        c.valid() <==> c.message.msg_type == MessageType::MethodCall && c.message.path is Some
            && c.message.member is Some && !(c.message.no_reply && c.reply is Some),
        c.owes_reply() <==> !c.message.no_reply && c.reply is None,
{
}

/// A reply that is offered while one is owed is held exactly as the handler left it, with all
/// its fields and all its arguments.
pub proof fn law_offered_reply_is_held_as_it_is<P>(c: ContextView<P>, reply: MessageView)
    requires
        !c.message.no_reply,
        c.reply is None,
    ensures
        c.replied(reply).reply == Some(reply),
        c.replied(reply).message == c.message,
        c.replied(reply).prop_ctx == c.prop_ctx,
{
}

/// A reply that is offered while none is owed changes nothing.
pub proof fn law_reply_not_owed_is_dropped<P>(c: ContextView<P>, reply: MessageView)
    requires
        c.message.no_reply || c.reply is Some,
    ensures
        c.replied(reply) == c,
{
}

/// Two replies that are offered while one is owed are told apart by what is held.
pub proof fn law_offered_replies_are_told_apart<P>(
    c: ContextView<P>,
    reply: MessageView,
    other: MessageView,
)
    requires
        c.owes_reply(),
    ensures
        c.replied(reply) == c.replied(other) <==> reply == other,
{
}

/// When a handler fails and the caller wants a reply, the reply that is held is the handler's
/// own error, by name and description, sent to the caller, whatever the call holds and whatever
/// reply was held before.
pub proof fn law_failure_is_answered_with_the_error<P>(
    c: ContextView<P>,
    name: Seq<char>,
    description: Seq<char>,
)
    requires
        !c.message.no_reply,
    ensures
        c.failed(name, description).reply matches Some(r) && {
            &&& r.msg_type == MessageType::Error
            &&& r.error_name == Some(name)
            &&& r.args == seq![ArgView::Str(description)]
            &&& r.reply_serial == Some(c.message.serial)
            &&& r.destination == c.message.sender
            &&& r.no_reply
            &&& r.serial == 0
            &&& r.sender is None
            &&& r.path is None
            &&& r.interface is None
            &&& r.member is None
        },
        c.failed(name, description).message == c.message,
        c.failed(name, description).prop_ctx == c.prop_ctx,
{
}

/// When a handler fails and the caller wants no reply, nothing changes.
pub proof fn law_unwanted_error_is_dropped<P>(
    c: ContextView<P>,
    name: Seq<char>,
    description: Seq<char>,
)
    requires
        c.message.no_reply,
    ensures
        c.failed(name, description) == c,
{
}

/// Nothing that happens to a valid context makes it invalid.
pub proof fn law_stays_valid<P>(
    c: ContextView<P>,
    name: Seq<char>,
    description: Seq<char>,
    reply: MessageView,
    p: P,
)
    requires
        c.valid(),
    ensures
        c.failed(name, description).valid(),
        c.replied(reply).valid(),
        c.flushed().valid(),
        c.given(p).valid(),
        c.taken().valid(),
{
}

/// Nothing that happens to a context changes the call.
pub proof fn law_call_never_changes<P>(
    c: ContextView<P>,
    name: Seq<char>,
    description: Seq<char>,
    reply: MessageView,
    p: P,
)
    ensures
        c.failed(name, description).message == c.message,
        c.replied(reply).message == c.message,
        c.flushed().message == c.message,
        c.given(p).message == c.message,
        c.taken().message == c.message,
{
}

/// A caller that wants no reply gets none: neither a reply that is offered nor an error is
/// held for it.
pub proof fn law_unwanted_reply_is_not_held<P>(
    c: ContextView<P>,
    name: Seq<char>,
    description: Seq<char>,
    reply: MessageView,
)
    requires
        c.valid(),
        c.message.no_reply,
    ensures
        c.reply is None,
        c.replied(reply) == c,
        c.failed(name, description) == c,
{
}

/// The first reply that is offered stands: what is offered later, after a reply or after an
/// error, changes nothing.
pub proof fn law_first_reply_stands<P>(
    c: ContextView<P>,
    name: Seq<char>,
    description: Seq<char>,
    reply: MessageView,
    later: MessageView,
)
    ensures
        c.replied(reply).replied(later) == c.replied(reply),
        c.failed(name, description).replied(later) == c.failed(name, description),
{
}

/// An error takes the place of whatever reply is held.
pub proof fn law_error_takes_precedence<P>(
    c: ContextView<P>,
    name: Seq<char>,
    description: Seq<char>,
    reply: MessageView,
)
    requires
        !c.message.no_reply,
    ensures
        c.replied(reply).failed(name, description) == c.failed(name, description),
        c.failed(name, description).reply == Some(c.message.error(name, description)),
{
}

/// After a flush there is nothing left to send, and a caller that wants a reply can be given
/// another.
pub proof fn law_flush_leaves_nothing<P>(c: ContextView<P>)
    ensures
        c.flushed().reply is None,
        c.flushed().message == c.message,
        c.flushed().prop_ctx == c.prop_ctx,
        c.flushed().owes_reply() == !c.message.no_reply,
{
}

/// The message that a flush hands over holds what the context shows as its reply.
pub proof fn law_held_is_the_reply<P>(c: Context<P>)
    ensures
        c@.reply == opt_message(c.held()),
{
}

/// After a flush, whatever came of it, another flush finds nothing to hand over and changes
/// nothing.
pub proof fn law_second_flush_finds_nothing<P>(before: Context<P>, after: Context<P>)
    requires
        after@ == before@.flushed(),
    ensures
        after.held() is None,
        after@.flushed() == after@,
{
}

/// Along any number of flushes in a row, only the first can find a reply to hand over:
/// `states` are the context before the first flush and after each of them.
pub proof fn law_only_first_flush_hands_over<P>(states: Seq<Context<P>>, i: int)
    requires
        forall|j: int, k: int|
            #![trigger states[j], states[k]]
            0 <= j && k == j + 1 && k < states.len() ==> states[k]@ == states[j]@.flushed(),
        0 < i < states.len(),
    ensures
        states[i].held() is None,
        states[i]@ == states[0]@.flushed(),
    decreases i,
{
    assert(states[i]@ == states[i - 1]@.flushed());
    if i > 1 {
        law_only_first_flush_hands_over(states, i - 1);
    }
}

/// What is left for the handling of a property can be taken away once, and neither step
/// touches the call or its reply.
pub proof fn law_given_is_taken<P>(c: ContextView<P>, p: P)
    ensures
        c.given(p).prop_ctx == Some(p),
        c.given(p).taken() == c.taken(),
        c.taken().prop_ctx is None,
        c.given(p).reply == c.reply,
        c.taken().reply == c.reply,
        c.given(p).message == c.message,
        c.taken().message == c.message,
{
}

/// Whenever a context takes notice of a failure, the call and the property state stay, and a
/// caller that wants a reply is owed that error, by name and description.
pub proof fn law_noticed_failure_is_the_reply<P>()
    ensures
        forall|c: &mut Context<P>, e: &MethodErr| #[trigger]
            call_ensures(Context::<P>::fail, (c, e), ()) ==> {
                &&& (*final(c))@.message == (*c)@.message
                &&& (*final(c))@.prop_ctx == (*c)@.prop_ctx
                &&& (*c)@.message.no_reply ==> (*final(c))@.reply == (*c)@.reply
                &&& !(*c)@.message.no_reply ==> ((*final(c))@.reply matches Some(r) && {
                    &&& r.msg_type == MessageType::Error
                    &&& r.error_name == Some(e.name@)
                    &&& r.args == seq![ArgView::Str(e.description@)]
                    &&& r.replies_to((*c)@.message)
                })
            },
{
}

/// A check runs the handler once on the context. If the handler succeeds, its value is the
/// outcome and the context is as the handler left it. If it fails, the outcome is a failure,
/// and a caller that wants a reply is answered with the handler's own error.
pub proof fn law_check_passes_the_outcome_on<P, R, F: FnOnce(&mut Context<P>) -> Result<
    R,
    MethodErr,
>>()
    ensures
        forall|c: &mut Context<P>, f: F, res: Result<R, ()>| #[trigger]
            call_ensures(Context::<P>::check::<R, F>, (c, f), res) ==> exists|
                run: &mut Context<P>,
                out: Result<R, MethodErr>,
            |
                {
                    &&& *run == *c
                    &&& #[trigger] call_ensures(f, (run,), out)
                    &&& res is Ok <==> out is Ok
                    &&& out matches Ok(v) ==> (res matches Ok(w) && w == v)
                    &&& out is Ok ==> *final(c) == *final(run)
                    &&& out matches Err(e) ==> {
                        let left = (*final(run))@;
                        let now = (*final(c))@;
                        &&& now.message == left.message
                        &&& now.prop_ctx == left.prop_ctx
                        &&& left.message.no_reply ==> now.reply == left.reply
                        &&& !left.message.no_reply ==> (now.reply matches Some(r) && {
                            &&& r.msg_type == MessageType::Error
                            &&& r.error_name == Some(e.name@)
                            &&& r.args == seq![ArgView::Str(e.description@)]
                            &&& r.replies_to(left.message)
                        })
                    }
                },
{
}

/// While a reply is owed, the handler is given an empty method return that is addressed to the
/// caller, and what it makes of it is the reply that is held, the very message with all that
/// is in it. While none is owed, nothing changes.
pub proof fn law_filled_in_reply_is_held<P, F: FnOnce(&mut Message)>()
    ensures
        forall|c: &mut Context<P>, f: F| #[trigger]
            call_ensures(Context::<P>::set_reply::<F>, (c, f), ()) ==> {
                &&& (*c)@.message.no_reply || (*c)@.reply is Some ==> *final(c) == *c
                &&& !(*c)@.message.no_reply && (*c)@.reply is None ==> exists|m: &mut Message|
                    {
                        &&& #[trigger] call_ensures(f, (m,), ())
                        &&& (*m)@.msg_type == MessageType::MethodReturn
                        &&& (*m)@.args.len() == 0
                        &&& (*m)@.error_name is None
                        &&& (*m)@.replies_to((*c)@.message)
                        &&& (*final(c)).held() == Some(*final(m))
                        &&& (*final(c))@.reply == Some((*final(m))@)
                        &&& (*final(c))@.message == (*c)@.message
                        &&& (*final(c))@.prop_ctx == (*c)@.prop_ctx
                    }
            },
{
}

/// A flush hands the very message that is held to the connection and succeeds exactly if the
/// connection takes it; without one it succeeds. Either way nothing is held afterwards, and
/// the call and the property state stay.
pub proof fn law_flush_sends_what_is_held<P, S: Sender>()
    ensures
        forall|c: &mut Context<P>, conn: &S, res: Result<(), ()>| #[trigger]
            call_ensures(Context::<P>::flush_messages::<S>, (c, conn), res) ==> {
                &&& (*c).held() is None ==> res is Ok
                &&& (*c).held() matches Some(msg) ==> exists|out: Result<u32, ()>|
                    {
                        &&& #[trigger] call_ensures(S::send, (conn, msg), out)
                        &&& res is Ok <==> out is Ok
                    }
                &&& (*final(c)).held() is None
                &&& (*final(c))@.reply is None
                &&& (*final(c))@.message == (*c)@.message
                &&& (*final(c))@.prop_ctx == (*c)@.prop_ctx
            },
{
}

/// A reply that a handler fills in while one is owed is what the next flush sends, to the last
/// argument.
pub proof fn law_filled_in_reply_is_sent<P, F: FnOnce(&mut Message), S: Sender>()
    ensures
        forall|
            c: &mut Context<P>,
            f: F,
            next: &mut Context<P>,
            conn: &S,
            res: Result<(), ()>,
        |
            {
                &&& #[trigger] call_ensures(Context::<P>::set_reply::<F>, (c, f), ())
                &&& !(*c)@.message.no_reply
                &&& (*c)@.reply is None
                &&& *next == *final(c)
                &&& #[trigger] call_ensures(
                    Context::<P>::flush_messages::<S>,
                    (next, conn),
                    res,
                )
            } ==> exists|m: &mut Message, out: Result<u32, ()>|
                {
                    &&& #[trigger] call_ensures(f, (m,), ())
                    &&& #[trigger] call_ensures(S::send, (conn, *final(m)), out)
                    &&& res is Ok <==> out is Ok
                },
{
}

/// What is left for the handling of a property is what is taken away next, and nothing else
/// changes.
pub proof fn law_property_state_comes_back<P>()
    ensures
        forall|c: &mut Context<P>, p: P| #[trigger]
            call_ensures(Context::<P>::give_propctx, (c, p), ()) ==> {
                &&& (*final(c))@.prop_ctx == Some(p)
                &&& (*final(c))@.message == (*c)@.message
                &&& (*final(c))@.reply == (*c)@.reply
                &&& (*final(c)).held() == (*c).held()
            },
        forall|c: &mut Context<P>, r: Option<P>| #[trigger]
            call_ensures(Context::<P>::take_propctx, (c,), r) ==> {
                &&& r == (*c)@.prop_ctx
                &&& (*final(c))@.prop_ctx is None
                &&& (*final(c))@.message == (*c)@.message
                &&& (*final(c))@.reply == (*c)@.reply
                &&& (*final(c)).held() == (*c).held()
            },
{
}

/// A context shows the object, the interface and the method that its call names, the call
/// itself, and whether a reply is held.
pub proof fn law_context_shows_its_call<P>(
    c: &Context<P>,
    path: &str,
    interface: Option<&str>,
    method: &str,
    message: &Message,
    has_reply: bool,
)
    requires
        call_ensures(Context::<P>::path, (c,), path),
        call_ensures(Context::<P>::interface, (c,), interface),
        call_ensures(Context::<P>::method, (c,), method),
        call_ensures(Context::<P>::message, (c,), message),
        call_ensures(Context::<P>::has_reply, (c,), has_reply),
    ensures
        message@ == c@.message,
        message@.msg_type == MessageType::MethodCall,
        message@.path == Some(path@),
        message@.member == Some(method@),
        interface is Some <==> message@.interface is Some,
        interface matches Some(i) ==> message@.interface == Some(i@),
        has_reply <==> c@.reply is Some,
        has_reply ==> !message@.no_reply,
{
}

} // verus!
