//! What a channel is bound to.

use crate::erased::Erased;
use crate::error::Error;
use crate::tag::TypeTag;
use futures::task::FutureObj;
use vstd::prelude::*;

verus! {

/// `futures::task::FutureObj`: an owned, sendable future with its concrete
/// type forgotten. It is only ever handed on to whoever awaits it.
#[verifier::external_type_specification]
#[verifier::external_body]
#[verifier::reject_recursive_types(T)]
pub struct ExFutureObj<'a, T>(FutureObj<'a, T>);

/// The two ways a channel can be served and asked.
#[derive(Clone, Copy, Debug, PartialEq, Eq, Structural)]
pub enum Mode {
    /// The handler runs to completion on the caller's thread.
    Sync,
    /// The handler hands back a future that the caller awaits.
    Async,
}

/// A handler that replies before it returns.
///
/// It accepts every erased value: one that finds the wrong type inside is
/// expected to fail with [`Error::Mismatched`]. It may be invoked by several
/// broadcasts at once.
pub trait SyncHandler: Send + Sync {
    /// Whether `reply` is a reply this handler may give to `arg`. A handler
    /// that says nothing of itself may give any.
    open spec fn yields(&self, arg: Erased, reply: Result<Erased, Error>) -> bool {
        true
    }

    /// Runs the handler on `arg`.
    fn invoke(&self, arg: Erased) -> (reply: Result<Erased, Error>)
        ensures
            self.yields(arg, reply),
    ;
}

/// A handler that replies through a future.
///
/// Like a [`SyncHandler`] it accepts every erased value and may be started by
/// several broadcasts at once; each gets a future of its own.
pub trait AsyncHandler: Send + Sync {
    /// Whether `pending` is a future this handler may hand back for `arg`. A
    /// handler that says nothing of itself may hand back any.
    open spec fn begins(&self, arg: Erased, pending: FutureObj<'static, Result<Erased, Error>>) -> bool {
        true
    }

    /// Starts the handler on `arg`.
    fn start(&self, arg: Erased) -> (pending: FutureObj<'static, Result<Erased, Error>>)
        ensures
            self.begins(arg, pending),
    ;
}

/// The entry of one channel: the tags of the argument and result types the
/// handler was bound with, and the handler itself behind the erased
/// interface. An entry is never changed once made; binding the channel again
/// replaces it whole.
#[allow(inconsistent_fields)]
pub enum Listener {
    Sync { type_id_arg: TypeTag, type_id_return: TypeTag, handler: Box<dyn SyncHandler> },
    Async { type_id_arg: TypeTag, type_id_return: TypeTag, handler: Box<dyn AsyncHandler> },
}

impl Listener {
    /// How the channel is served.
    pub open spec fn mode(&self) -> Mode {
        match self {
            Listener::Sync { .. } => Mode::Sync,
            Listener::Async { .. } => Mode::Async,
        }
    }

    /// The tag of the argument type the handler was bound with.
    pub open spec fn arg_tag(&self) -> TypeTag {
        match self {
            Listener::Sync { type_id_arg, .. } => *type_id_arg,
            Listener::Async { type_id_arg, .. } => *type_id_arg,
        }
    }

    /// The tag of the result type the handler was bound with.
    pub open spec fn return_tag(&self) -> TypeTag {
        match self {
            Listener::Sync { type_id_return, .. } => *type_id_return,
            Listener::Async { type_id_return, .. } => *type_id_return,
        }
    }

    /// Whether this is a synchronous entry whose handler may give `reply` to
    /// `arg`.
    pub open spec fn answers(&self, arg: Erased, reply: Result<Erased, Error>) -> bool {
        self matches Listener::Sync { handler, .. } && handler.yields(arg, reply)
    }

    /// Whether this is an asynchronous entry whose handler may hand back
    /// `pending` for `arg`.
    pub open spec fn starts(&self, arg: Erased, pending: FutureObj<'static, Result<Erased, Error>>) -> bool {
        self matches Listener::Async { handler, .. } && handler.begins(arg, pending)
    }

    /// The pair of tags the entry was bound with.
    pub fn types(&self) -> (pair: (TypeTag, TypeTag))
        ensures
            pair == (self.arg_tag(), self.return_tag()),
    {
        match self {
            Listener::Sync { type_id_arg, type_id_return, .. } => (*type_id_arg, *type_id_return),
            Listener::Async { type_id_arg, type_id_return, .. } => (*type_id_arg, *type_id_return),
        }
    }
}

} // verus!
