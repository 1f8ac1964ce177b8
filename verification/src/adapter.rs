//! Typed handlers behind the erased interface.

use crate::erased::Erased;
use crate::error::type_mismatch_text;
use crate::error::Error;
use crate::error::ErrorView;
use crate::listener::AsyncHandler;
use crate::listener::Listener;
use crate::listener::Mode;
use crate::listener::SyncHandler;
use crate::tag::TypeTag;
use futures::task::FutureObj;
use futures::FutureExt;
use std::future::Future;
use std::marker::PhantomData;
use std::sync::Arc;
use vstd::prelude::*;

verus! {

/// Erases what a typed handler came to: its value, or its own error as the
/// cause of an `External` failure.
pub fn erase_outcome<R, E>(outcome: Result<R, E>) -> (reply: Result<Erased, Error>) where
    R: Send + Sync + 'static,
    E: Send + Sync + 'static,

    ensures
        outcome is Ok ==> (reply matches Ok(value) && value.well_tagged()),
        outcome is Err ==> (reply matches Err(Error::External(cause)) && cause.well_tagged()),
{
    match outcome {
        Ok(value) => Ok(Erased::new(value)),
        Err(cause) => Err(Error::External(Erased::new(cause))),
    }
}

/// Chains [`erase_outcome`] behind `future` with `FutureExt::map` and boxes
/// the result into a `FutureObj`: a future that resolves, when `future` does,
/// to what `erase_outcome` makes of its output. Nothing is claimed of the
/// future that comes back: what it resolves to is only known once it has
/// been awaited.
#[verifier::external_body]
fn erase_future<R, E, Fut>(future: Fut) -> (pending: FutureObj<'static, Result<Erased, Error>>) where
    R: Send + Sync + 'static,
    E: Send + Sync + 'static,
    Fut: Future<Output = Result<R, E>> + Send + 'static,
{
    FutureObj::new(Box::new(future.map(erase_outcome::<R, E>)))
}

/// The future that is ready with `reply` from the start.
pub uninterp spec fn ready_with(reply: Result<Erased, Error>) -> FutureObj<'static, Result<Erased, Error>>;

/// Boxes `futures::future::ready(reply)` into a `FutureObj`: the future
/// that resolves to `reply` at once.
#[verifier::external_body]
fn ready_future(reply: Result<Erased, Error>) -> (pending: FutureObj<'static, Result<Erased, Error>>)
    ensures
        pending == ready_with(reply),
{
    FutureObj::new(Box::new(futures::future::ready(reply)))
}

/// The replies that the typed `handler`, bound under `name`, may give from
/// behind the erased interface: a well-tagged value stands for a value the
/// handler returned, an `External` failure with a well-tagged cause for an
/// error it returned, and the only other failure is the mismatch of an
/// argument that is no `D`.
pub open spec fn sync_reply_of<D, R, E, F>(
    name: Seq<char>,
    handler: F,
    reply: Result<Erased, Error>,
) -> bool where F: Fn(D) -> Result<R, E> {
    match reply {
        Ok(value) => value.well_tagged() && exists|d: D, r: R|
            call_ensures(handler, (d,), Ok::<R, E>(r)),
        Err(Error::External(cause)) => cause.well_tagged() && exists|d: D, e: E|
            call_ensures(handler, (d,), Err::<R, E>(e)),
        Err(Error::Mismatched(text)) => text@ == type_mismatch_text(name, "arg"@),
        Err(Error::NoListener(_)) => false,
    }
}

/// The futures that the typed `handler`, bound under `name`, may hand back
/// from behind the erased interface: either the one that is ready with the
/// mismatch of an argument that is no `D`, or one made from a future that
/// the handler returned.
pub open spec fn async_start_of<D, R, E, F, Fut>(
    name: Seq<char>,
    handler: F,
    pending: FutureObj<'static, Result<Erased, Error>>,
) -> bool where F: Fn(D) -> Fut, Fut: Future<Output = Result<R, E>> {
    ||| exists|refused: Result<Erased, Error>|
        {
            &&& pending == #[trigger] ready_with(refused)
            &&& refused matches Err(e)
            &&& e@ == ErrorView::Mismatched(type_mismatch_text(name, "arg"@))
        }
    ||| exists|d: D, made: Fut| call_ensures(handler, (d,), made)
}

/// The replies that `method`, bound under `name` on the shared `consumer`,
/// may give from behind the erased interface: as [`sync_reply_of`] has them,
/// with every call made on that consumer.
pub open spec fn sync_method_reply_of<C, D, R, E, M>(
    name: Seq<char>,
    consumer: Arc<C>,
    method: M,
    reply: Result<Erased, Error>,
) -> bool where M: Fn(&C, D) -> Result<R, E> {
    match reply {
        Ok(value) => value.well_tagged() && exists|d: D, r: R|
            call_ensures(method, (&*consumer, d), Ok::<R, E>(r)),
        Err(Error::External(cause)) => cause.well_tagged() && exists|d: D, e: E|
            call_ensures(method, (&*consumer, d), Err::<R, E>(e)),
        Err(Error::Mismatched(text)) => text@ == type_mismatch_text(name, "arg"@),
        Err(Error::NoListener(_)) => false,
    }
}

/// The futures that `method`, bound under `name` on the shared `consumer`,
/// may hand back from behind the erased interface: as [`async_start_of`] has
/// them, with every call made on a handle on that consumer.
pub open spec fn async_method_start_of<C, D, R, E, M, Fut>(
    name: Seq<char>,
    consumer: Arc<C>,
    method: M,
    pending: FutureObj<'static, Result<Erased, Error>>,
) -> bool where M: Fn(Arc<C>, D) -> Fut, Fut: Future<Output = Result<R, E>> {
    ||| exists|refused: Result<Erased, Error>|
        {
            &&& pending == #[trigger] ready_with(refused)
            &&& refused matches Err(e)
            &&& e@ == ErrorView::Mismatched(type_mismatch_text(name, "arg"@))
        }
    ||| exists|d: D, made: Fut| call_ensures(method, (consumer, d), made)
}

/// A handler from `D` to `R`, bound under `name`, as a [`SyncHandler`].
#[verifier::reject_recursive_types(D)]
#[verifier::reject_recursive_types(R)]
#[verifier::reject_recursive_types(E)]
#[verifier::reject_recursive_types(F)]
pub struct SyncAdapter<D, R, E, F> where
    D: Send + Sync + 'static,
    R: Send + Sync + 'static,
    E: Send + Sync + 'static,
    F: Fn(D) -> Result<R, E> + Send + Sync + 'static,
 {
    name: &'static str,
    handler: F,
    marker: PhantomData<(D, R, E)>,
}

impl<D, R, E, F> SyncAdapter<D, R, E, F> where
    D: Send + Sync + 'static,
    R: Send + Sync + 'static,
    E: Send + Sync + 'static,
    F: Fn(D) -> Result<R, E> + Send + Sync + 'static,
 {
    /// The handler can be called on every `D`.
    #[verifier::type_invariant]
    spec fn total(self) -> bool {
        forall|d: D| call_requires(self.handler, (d,))
    }

    /// The channel the handler is bound under.
    pub closed spec fn name(&self) -> &'static str {
        self.name
    }

    /// The typed handler.
    pub closed spec fn handler(&self) -> F {
        self.handler
    }

    /// Wraps `handler`, which must accept every `D`.
    pub fn new(name: &'static str, handler: F) -> (adapter: Self)
        requires
            forall|d: D| call_requires(handler, (d,)),
        ensures
            adapter.name() == name,
            adapter.handler() == handler,
    {
        SyncAdapter { name, handler, marker: PhantomData }
    }
}

impl<D, R, E, F> SyncHandler for SyncAdapter<D, R, E, F> where
    D: Send + Sync + 'static,
    R: Send + Sync + 'static,
    E: Send + Sync + 'static,
    F: Fn(D) -> Result<R, E> + Send + Sync + 'static,
 {
    open spec fn yields(&self, arg: Erased, reply: Result<Erased, Error>) -> bool {
        sync_reply_of::<D, R, E, F>(self.name()@, self.handler(), reply)
    }

    fn invoke(&self, arg: Erased) -> (reply: Result<Erased, Error>) {
        proof {
            use_type_invariant(self);
        }
        match arg.recover::<D>() {
            Err(_) => Err(Error::type_mismatch(self.name, "arg")),
            Ok(d) => {
                let ghost given = d;
                let outcome = (self.handler)(d);
                let ghost made = outcome;
                proof {
                    match made {
                        Ok(r) => {
                            assert(call_ensures(self.handler(), (given,), Ok::<R, E>(r)));
                        },
                        Err(e) => {
                            assert(call_ensures(self.handler(), (given,), Err::<R, E>(e)));
                        },
                    }
                }
                erase_outcome(outcome)
            },
        }
    }
}

/// A handler from `D` to a future of `R`, bound under `name`, as an
/// [`AsyncHandler`].
#[verifier::reject_recursive_types(D)]
#[verifier::reject_recursive_types(R)]
#[verifier::reject_recursive_types(E)]
#[verifier::reject_recursive_types(F)]
#[verifier::reject_recursive_types(Fut)]
pub struct AsyncAdapter<D, R, E, F, Fut> where
    D: Send + Sync + 'static,
    R: Send + Sync + 'static,
    E: Send + Sync + 'static,
    F: Fn(D) -> Fut + Send + Sync + 'static,
    Fut: Future<Output = Result<R, E>> + Send + 'static,
 {
    name: &'static str,
    handler: F,
    marker: PhantomData<(D, R, E)>,
}

impl<D, R, E, F, Fut> AsyncAdapter<D, R, E, F, Fut> where
    D: Send + Sync + 'static,
    R: Send + Sync + 'static,
    E: Send + Sync + 'static,
    F: Fn(D) -> Fut + Send + Sync + 'static,
    Fut: Future<Output = Result<R, E>> + Send + 'static,
 {
    /// The handler can be called on every `D`.
    #[verifier::type_invariant]
    spec fn total(self) -> bool {
        forall|d: D| call_requires(self.handler, (d,))
    }

    /// The channel the handler is bound under.
    pub closed spec fn name(&self) -> &'static str {
        self.name
    }

    /// The typed handler.
    pub closed spec fn handler(&self) -> F {
        self.handler
    }

    /// Wraps `handler`, which must accept every `D`.
    pub fn new(name: &'static str, handler: F) -> (adapter: Self)
        requires
            forall|d: D| call_requires(handler, (d,)),
        ensures
            adapter.name() == name,
            adapter.handler() == handler,
    {
        AsyncAdapter { name, handler, marker: PhantomData }
    }
}

impl<D, R, E, F, Fut> AsyncHandler for AsyncAdapter<D, R, E, F, Fut> where
    D: Send + Sync + 'static,
    R: Send + Sync + 'static,
    E: Send + Sync + 'static,
    F: Fn(D) -> Fut + Send + Sync + 'static,
    Fut: Future<Output = Result<R, E>> + Send + 'static,
 {
    open spec fn begins(&self, arg: Erased, pending: FutureObj<'static, Result<Erased, Error>>) -> bool {
        async_start_of::<D, R, E, F, Fut>(self.name()@, self.handler(), pending)
    }

    fn start(&self, arg: Erased) -> (pending: FutureObj<'static, Result<Erased, Error>>) {
        proof {
            use_type_invariant(self);
        }
        match arg.recover::<D>() {
            Err(_) => {
                let refused = Err(Error::type_mismatch(self.name, "arg"));
                let pending = ready_future(refused);
                assert(pending == ready_with(refused));
                pending
            },
            Ok(d) => {
                let ghost given = d;
                let made = (self.handler)(d);
                assert(call_ensures(self.handler(), (given,), made));
                erase_future::<R, E, Fut>(made)
            },
        }
    }
}

/// The entry that binds a channel to the synchronous `handler`: the tags of
/// `D` and `R`, and the handler behind the erased interface.
pub fn sync_listener<D, R, E, F>(name: &'static str, handler: F) -> (listener: Listener) where
    D: Send + Sync + 'static,
    R: Send + Sync + 'static,
    E: Send + Sync + 'static,
    F: Fn(D) -> Result<R, E> + Send + Sync + 'static,

    requires
        forall|d: D| call_requires(handler, (d,)),
    ensures
        listener.mode() == Mode::Sync,
        forall|arg: Erased, reply: Result<Erased, Error>| #[trigger]
            listener.answers(arg, reply) ==> sync_reply_of::<D, R, E, F>(name@, handler, reply),
{
    let type_id_arg = TypeTag::of::<D>();
    let type_id_return = TypeTag::of::<R>();
    let adapter = SyncAdapter::<D, R, E, F>::new(name, handler);
    let ghost behind = adapter;
    let listener = Listener::Sync { type_id_arg, type_id_return, handler: Box::new(adapter) };
    proof {
        assert forall|arg: Erased, reply: Result<Erased, Error>| #[trigger]
            listener.answers(arg, reply) implies sync_reply_of::<D, R, E, F>(
            name@,
            behind.handler(),
            reply,
        ) by {
            match listener {
                Listener::Sync { handler: boxed, .. } => {
                    assert(boxed.yields(arg, reply) == behind.yields(arg, reply));
                },
                Listener::Async { .. } => {},
            }
        }
    }
    listener
}

/// The entry that binds a channel to the asynchronous `handler`: the tags of
/// `D` and `R`, and the handler behind the erased interface.
pub fn async_listener<D, R, E, F, Fut>(name: &'static str, handler: F) -> (listener: Listener) where
    D: Send + Sync + 'static,
    R: Send + Sync + 'static,
    E: Send + Sync + 'static,
    F: Fn(D) -> Fut + Send + Sync + 'static,
    Fut: Future<Output = Result<R, E>> + Send + 'static,

    requires
        forall|d: D| call_requires(handler, (d,)),
    ensures
        listener.mode() == Mode::Async,
        forall|arg: Erased, pending: FutureObj<'static, Result<Erased, Error>>| #[trigger]
            listener.starts(arg, pending) ==> async_start_of::<D, R, E, F, Fut>(
                name@,
                handler,
                pending,
            ),
{
    let type_id_arg = TypeTag::of::<D>();
    let type_id_return = TypeTag::of::<R>();
    let adapter = AsyncAdapter::<D, R, E, F, Fut>::new(name, handler);
    let ghost behind = adapter;
    let listener = Listener::Async { type_id_arg, type_id_return, handler: Box::new(adapter) };
    proof {
        assert forall|arg: Erased, pending: FutureObj<'static, Result<Erased, Error>>| #[trigger]
            listener.starts(arg, pending) implies async_start_of::<D, R, E, F, Fut>(
            name@,
            behind.handler(),
            pending,
        ) by {
            match listener {
                Listener::Async { handler: boxed, .. } => {
                    assert(boxed.begins(arg, pending) == behind.begins(arg, pending));
                },
                Listener::Sync { .. } => {},
            }
        }
    }
    listener
}

} // verus!
