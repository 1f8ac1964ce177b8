//! What holds of every registry, whatever is bound on it.

use crate::adapter::async_start_of;
use crate::adapter::sync_reply_of;
use crate::delegate_manager::DelegateManager;
use crate::erased::Erased;
use crate::error::wrong_mode_text;
use crate::error::Error;
use crate::error::ErrorView;
use crate::listener::Listener;
use crate::listener::Mode;
use crate::outcome::async_outcome;
use crate::outcome::settled;
use crate::outcome::sync_outcome;
use crate::singleton::initialised;
use crate::tag::TypeTag;
use futures::task::FutureObj;
use std::future::Future;
use vstd::prelude::*;

verus! {

/// A broadcast to a channel that was just bound synchronously, made with the
/// tags the channel was bound with, is answered by the handler that was
/// bound: the result is what that handler replied to the very argument that
/// was broadcast. A value reaches the caller as the handler gave it, and so
/// does a failure of the handler.
pub proof fn law_bound_handler_answers(
    entries: Map<Seq<char>, Listener>,
    name: Seq<char>,
    listener: Listener,
    arg: Erased,
    out: Result<Erased, Error>,
)
    requires
        listener.mode() == Mode::Sync,
        arg.tag() == listener.arg_tag(),
        sync_outcome(
            entries.insert(name, listener),
            name,
            listener.return_tag(),
            arg,
            out,
        ),
    ensures
        exists|reply: Result<Erased, Error>| #[trigger]
            listener.answers(arg, reply) && settled(
                Mode::Sync,
                name,
                listener.return_tag(),
                reply,
                out,
            ),
        out matches Ok(value) ==> listener.answers(arg, out) && value.tag()
            == listener.return_tag(),
        forall|reply: Result<Erased, Error>|
            (reply matches Ok(value) ==> value.tag() == listener.return_tag()) && settled(
                Mode::Sync,
                name,
                listener.return_tag(),
                reply,
                out,
            ) ==> out == reply,
{
}

/// A broadcast to a channel that was just bound asynchronously, made with
/// the tags the channel was bound with, starts the handler that was bound, on
/// the very argument that was broadcast, and hands its future to the caller.
pub proof fn law_bound_handler_starts(
    entries: Map<Seq<char>, Listener>,
    name: Seq<char>,
    listener: Listener,
    arg: Erased,
    out: Result<FutureObj<'static, Result<Erased, Error>>, Error>,
)
    requires
        listener.mode() == Mode::Async,
        arg.tag() == listener.arg_tag(),
        async_outcome(
            entries.insert(name, listener),
            name,
            listener.return_tag(),
            arg,
            out,
        ),
    ensures
        out matches Ok(pending) && listener.starts(arg, pending),
{
}

/// What a broadcast gets from a channel comes from the typed handler that
/// was bound to it last: a value stands for a value that handler returned,
/// and an `External` failure for an error that handler returned. No handler
/// bound earlier has a part in it.
pub proof fn law_replies_come_from_the_bound_handler<D, R, E, F>(
    entries: Map<Seq<char>, Listener>,
    name: Seq<char>,
    handler: F,
    return_tag: TypeTag,
    arg: Erased,
    out: Result<Erased, Error>,
) where F: Fn(D) -> Result<R, E>
    requires
        entries.contains_key(name),
        forall|given: Erased, reply: Result<Erased, Error>| #[trigger]
            entries[name].answers(given, reply) ==> sync_reply_of::<D, R, E, F>(
                name,
                handler,
                reply,
            ),
        sync_outcome(entries, name, return_tag, arg, out),
    ensures
        out is Ok ==> exists|d: D, r: R| call_ensures(handler, (d,), Ok::<R, E>(r)),
        out matches Err(Error::External(_)) ==> exists|d: D, e: E|
            call_ensures(handler, (d,), Err::<R, E>(e)),
{
}

/// The future that a broadcast gets from a channel comes from the typed
/// handler that was bound to it last: it is either ready with the mismatch of
/// the argument, or made from a future that handler returned.
pub proof fn law_futures_come_from_the_bound_handler<D, R, E, F, Fut>(
    entries: Map<Seq<char>, Listener>,
    name: Seq<char>,
    handler: F,
    return_tag: TypeTag,
    arg: Erased,
    out: Result<FutureObj<'static, Result<Erased, Error>>, Error>,
) where F: Fn(D) -> Fut, Fut: Future<Output = Result<R, E>>
    requires
        entries.contains_key(name),
        forall|given: Erased, pending: FutureObj<'static, Result<Erased, Error>>| #[trigger]
            entries[name].starts(given, pending) ==> async_start_of::<D, R, E, F, Fut>(
                name,
                handler,
                pending,
            ),
        async_outcome(entries, name, return_tag, arg, out),
    ensures
        out matches Ok(pending) ==> async_start_of::<D, R, E, F, Fut>(name, handler, pending),
{
}

/// A broadcast to a name under which nothing is bound fails with
/// `NoListener` and that name, whatever is broadcast and in either mode.
pub proof fn law_unbound_channel_has_no_listener(
    entries: Map<Seq<char>, Listener>,
    name: Seq<char>,
    return_tag: TypeTag,
    arg: Erased,
    out: Result<Erased, Error>,
    started: Result<FutureObj<'static, Result<Erased, Error>>, Error>,
)
    requires
        !entries.contains_key(name),
    ensures
        sync_outcome(entries, name, return_tag, arg, out) ==> (out matches Err(e)
            && e@ == ErrorView::NoListener(name)),
        async_outcome(entries, name, return_tag, arg, started) ==> (started matches Err(e)
            && e@ == ErrorView::NoListener(name)),
{
}

/// A broadcast that expects another result type than the channel was bound
/// with fails with `Mismatched`, in either mode: no value ever comes back
/// from it. The same holds of a broadcast that brings another argument type.
pub proof fn law_disagreeing_type_is_mismatched(
    entries: Map<Seq<char>, Listener>,
    name: Seq<char>,
    return_tag: TypeTag,
    arg: Erased,
    out: Result<Erased, Error>,
    started: Result<FutureObj<'static, Result<Erased, Error>>, Error>,
)
    requires
        entries.contains_key(name),
        entries[name].return_tag() != return_tag || entries[name].arg_tag() != arg.tag(),
    ensures
        sync_outcome(entries, name, return_tag, arg, out) ==> (out matches Err(e)
            && e is Mismatched),
        async_outcome(entries, name, return_tag, arg, started) ==> (started matches Err(e)
            && e is Mismatched),
{
}

/// A synchronous broadcast to a channel bound asynchronously fails with
/// `Mismatched`, and so does an asynchronous broadcast to a channel bound
/// synchronously; the text says which of the two happened, and where.
pub proof fn law_wrong_mode_is_mismatched(
    entries: Map<Seq<char>, Listener>,
    name: Seq<char>,
    return_tag: TypeTag,
    arg: Erased,
    out: Result<Erased, Error>,
    started: Result<FutureObj<'static, Result<Erased, Error>>, Error>,
)
    requires
        entries.contains_key(name),
    ensures
        entries[name].mode() == Mode::Async && sync_outcome(entries, name, return_tag, arg, out)
            ==> (out matches Err(e) && e@ == ErrorView::Mismatched(
            wrong_mode_text(Mode::Sync, name),
        )),
        entries[name].mode() == Mode::Sync && async_outcome(
            entries,
            name,
            return_tag,
            arg,
            started,
        ) ==> (started matches Err(e) && e@ == ErrorView::Mismatched(
            wrong_mode_text(Mode::Async, name),
        )),
{
}

/// Binding a name twice leaves the registry as if only the second bind had
/// been made: the first entry is gone, so its handler can never be reached
/// again, and every broadcast goes by the second.
pub proof fn law_rebinding_replaces(
    entries: Map<Seq<char>, Listener>,
    name: Seq<char>,
    first: Listener,
    second: Listener,
)
    ensures
        entries.insert(name, first).insert(name, second) == entries.insert(name, second),
        forall|return_tag: TypeTag, arg: Erased, out: Result<Erased, Error>|
            sync_outcome(
                entries.insert(name, first).insert(name, second),
                name,
                return_tag,
                arg,
                out,
            ) == sync_outcome(entries.insert(name, second), name, return_tag, arg, out),
{
    assert(entries.insert(name, first).insert(name, second) =~= entries.insert(name, second));
}

/// What a broadcast to one channel ends in does not depend on what is bound
/// under any other name: binding `other` changes no outcome on `name`.
pub proof fn law_channels_do_not_interfere(
    entries: Map<Seq<char>, Listener>,
    name: Seq<char>,
    other: Seq<char>,
    listener: Listener,
    return_tag: TypeTag,
    arg: Erased,
    out: Result<Erased, Error>,
    started: Result<FutureObj<'static, Result<Erased, Error>>, Error>,
)
    requires
        other != name,
    ensures
        sync_outcome(entries.insert(other, listener), name, return_tag, arg, out)
            == sync_outcome(entries, name, return_tag, arg, out),
        async_outcome(entries.insert(other, listener), name, return_tag, arg, started)
            == async_outcome(entries, name, return_tag, arg, started),
{
}

/// Initialising twice is the same as initialising once: the second call
/// reports that it made nothing, and the slot still holds the manager the
/// first call left in it, with everything bound on it since.
pub proof fn law_second_init_changes_nothing(
    before: Option<DelegateManager>,
    between: Option<DelegateManager>,
    rebound: Option<DelegateManager>,
    after: Option<DelegateManager>,
    first: bool,
    second: bool,
)
    requires
        initialised(before, between, first),
        rebound is Some,
        initialised(rebound, after, second),
    ensures
        between is Some,
        !second,
        after == rebound,
{
}

} // verus!
