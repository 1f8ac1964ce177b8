//! What a broadcast ends in, as a relation between the registry, the request
//! and the result.

use crate::erased::Erased;
use crate::error::reply_mismatch_text;
use crate::error::type_mismatch_text;
use crate::error::wrong_mode_text;
use crate::error::Error;
use crate::error::ErrorView;
use crate::listener::Listener;
use crate::listener::Mode;
use crate::tag::TypeTag;
use futures::task::FutureObj;
use vstd::prelude::*;

verus! {

/// The entry bound under `name`, if there is one.
pub open spec fn entry_at(entries: Map<Seq<char>, Listener>, name: Seq<char>) -> Option<Listener> {
    if entries.contains_key(name) {
        Some(entries[name])
    } else {
        None
    }
}

/// Why a broadcast in `mode` with the given tags is turned away before the
/// handler runs, or `None` where it is let through. The checks come in a
/// fixed order: is anything bound, is it served in the mode asked for, does
/// the argument type agree, does the result type agree.
pub open spec fn refusal(
    entry: Option<Listener>,
    mode: Mode,
    name: Seq<char>,
    arg_tag: TypeTag,
    return_tag: TypeTag,
) -> Option<ErrorView> {
    match entry {
        None => Some(ErrorView::NoListener(name)),
        Some(listener) => {
            if listener.mode() != mode {
                Some(ErrorView::Mismatched(wrong_mode_text(mode, name)))
            } else if listener.arg_tag() != arg_tag {
                Some(ErrorView::Mismatched(type_mismatch_text(name, "arg"@)))
            } else if listener.return_tag() != return_tag {
                Some(ErrorView::Mismatched(type_mismatch_text(name, "return"@)))
            } else {
                None
            }
        },
    }
}

/// How the handler's `reply` becomes the result `out`: a failure passes
/// through as it is, a value whose tag is the one asked for passes through as
/// it is, and a value under another tag becomes a mismatch.
pub open spec fn settled(
    mode: Mode,
    name: Seq<char>,
    return_tag: TypeTag,
    reply: Result<Erased, Error>,
    out: Result<Erased, Error>,
) -> bool {
    match reply {
        Ok(value) => if value.tag() == return_tag {
            out == reply
        } else {
            out matches Err(e) && e@ == ErrorView::Mismatched(reply_mismatch_text(mode, name))
        },
        Err(_) => out == reply,
    }
}

/// The results a synchronous broadcast of `arg` to `name` may have, where
/// the caller expects a reply under `return_tag`. The argument speaks for
/// its own type, by the tag it carries.
pub open spec fn sync_outcome(
    entries: Map<Seq<char>, Listener>,
    name: Seq<char>,
    return_tag: TypeTag,
    arg: Erased,
    out: Result<Erased, Error>,
) -> bool {
    match refusal(entry_at(entries, name), Mode::Sync, name, arg.tag(), return_tag) {
        Some(why) => out matches Err(e) && e@ == why,
        None => exists|reply: Result<Erased, Error>| #[trigger]
            entries[name].answers(arg, reply) && settled(Mode::Sync, name, return_tag, reply, out),
    }
}

/// The results the first half of an asynchronous broadcast of `arg` to
/// `name` may have: a refusal, or the future the handler handed back.
pub open spec fn async_outcome(
    entries: Map<Seq<char>, Listener>,
    name: Seq<char>,
    return_tag: TypeTag,
    arg: Erased,
    out: Result<FutureObj<'static, Result<Erased, Error>>, Error>,
) -> bool {
    match refusal(entry_at(entries, name), Mode::Async, name, arg.tag(), return_tag) {
        Some(why) => out matches Err(e) && e@ == why,
        None => out matches Ok(pending) && entries[name].starts(arg, pending),
    }
}

/// Compares the tag a listener was bound with against the tag the caller
/// brings for side `on` of channel `name`.
pub fn check_type(name: &str, bound: &TypeTag, brought: &TypeTag, on: &str) -> (r: Result<(), Error>)
    ensures
        *bound == *brought ==> r is Ok,
        *bound != *brought ==> (r matches Err(e) && e@ == ErrorView::Mismatched(
            type_mismatch_text(name@, on@),
        )),
{
    if bound.same(brought) {
        Ok(())
    } else {
        Err(Error::type_mismatch(name, on))
    }
}

/// Turns the reply of a handler into the result of the broadcast, checking
/// that a value replied carries the tag the caller asked for.
pub fn settle(mode: Mode, name: &str, return_tag: &TypeTag, reply: Result<Erased, Error>) -> (out: Result<Erased, Error>)
    ensures
        settled(mode, name@, *return_tag, reply, out),
{
    match reply {
        Err(e) => Err(e),
        Ok(value) => {
            let tag = value.type_tag();
            if tag.same(return_tag) {
                Ok(value)
            } else {
                Err(Error::reply_mismatch(mode, name))
            }
        },
    }
}

} // verus!
