//! The registry of channels and the dispatch of broadcasts to them.

use crate::adapter::async_listener;
use crate::adapter::async_method_start_of;
use crate::adapter::async_start_of;
use crate::adapter::sync_listener;
use crate::adapter::sync_method_reply_of;
use crate::adapter::sync_reply_of;
use crate::erased::Erased;
use crate::error::Error;
use crate::error::reply_mismatch_text;
use crate::error::wrong_mode_text;
use crate::error::ErrorView;
use crate::listener::Listener;
use crate::listener::Mode;
use crate::outcome::async_outcome;
use crate::outcome::check_type;
use crate::outcome::entry_at;
use crate::outcome::settle;
use crate::outcome::sync_outcome;
use crate::registry::entry_value;
use crate::registry::registry_entries;
use crate::registry::registry_get;
use crate::registry::registry_insert;
use crate::registry::registry_new;
use crate::tag::TypeTag;
use dashmap::DashMap;
use futures::task::FutureObj;
use std::future::Future;
use std::sync::Arc;
use vstd::prelude::*;

verus! {

/// Owns one entry per bound channel and dispatches broadcasts to them.
///
/// Binding takes the manager by `&mut`, broadcasting by `&`: any number of
/// broadcasts may run at once, on any threads, and each sees the entries as
/// the last bind left them.
pub struct DelegateManager {
    single: DashMap<&'static str, Listener>,
}

impl View for DelegateManager {
    type V = Map<Seq<char>, Listener>;

    /// The entries, by channel name.
    closed spec fn view(&self) -> Map<Seq<char>, Listener> {
        registry_entries(self.single)
    }
}

impl DelegateManager {
    /// A manager with no channel bound.
    pub fn new() -> (manager: Self)
        ensures
            manager@ == Map::<Seq<char>, Listener>::empty(),
    {
        DelegateManager { single: registry_new() }
    }

    /// Binds `name` to `listener`. An entry already under that name is
    /// replaced; all other channels stay as they are.
    pub fn register(&mut self, name: &'static str, listener: Listener)
        ensures
            final(self)@ == old(self)@.insert(name@, listener),
    {
        let _ = registry_insert(&mut self.single, name, listener);
    }

    /// The tags of the argument and result types `name` was bound with, or
    /// `None` where nothing is bound under it.
    pub fn get_types(&self, name: &str) -> (types: Option<(TypeTag, TypeTag)>)
        ensures
            types == match entry_at(self@, name@) {
                Some(listener) => Some((listener.arg_tag(), listener.return_tag())),
                None => None,
            },
    {
        match registry_get(&self.single, name) {
            None => None,
            Some(entry) => Some(entry_value(&entry).types()),
        }
    }

    /// Broadcasts the erased `arg` to the synchronous channel `name` on
    /// behalf of a caller that expects a reply under `return_tag`.
    ///
    /// The broadcast fails with `NoListener` where nothing is bound under
    /// `name`, and with `Mismatched` where the channel is asynchronous, where
    /// the tag that `arg` carries is not the one bound for the argument, or
    /// where `return_tag` is not the one bound for the result. Otherwise the
    /// handler is invoked once, on `arg`, and its reply is the result:
    /// untouched, unless it is a value under another tag than `return_tag`,
    /// which is a `Mismatched` failure too.
    pub fn dispatch(&self, name: &str, return_tag: &TypeTag, arg: Erased) -> (out: Result<Erased, Error>)
        ensures
            sync_outcome(self@, name@, *return_tag, arg, out),
    {
        let arg_tag = arg.type_tag();
        match registry_get(&self.single, name) {
            None => Err(Error::no_listener(name)),
            Some(entry) => {
                match entry_value(&entry) {
                    Listener::Async { .. } => Err(Error::wrong_mode(Mode::Sync, name)),
                    Listener::Sync { type_id_arg, type_id_return, handler } => {
                        match check_type(name, type_id_arg, &arg_tag, "arg") {
                            Err(e) => Err(e),
                            Ok(_) => match check_type(name, type_id_return, return_tag, "return") {
                                Err(e) => Err(e),
                                Ok(_) => {
                                    let reply = handler.invoke(arg);
                                    assert(self@[name@].answers(arg, reply));
                                    settle(Mode::Sync, name, return_tag, reply)
                                },
                            },
                        }
                    },
                }
            },
        }
    }

    /// The first half of a broadcast to the asynchronous channel `name`: the
    /// same checks as in [`DelegateManager::dispatch`], with the two modes
    /// exchanged, and then the handler is started, once, on `arg`. The future
    /// it hands back is for the caller to await; [`settle`] turns what it
    /// resolves to into the result of the broadcast.
    pub fn async_dispatch(&self, name: &str, return_tag: &TypeTag, arg: Erased) -> (out: Result<FutureObj<'static, Result<Erased, Error>>, Error>)
        ensures
            async_outcome(self@, name@, *return_tag, arg, out),
    {
        let arg_tag = arg.type_tag();
        match registry_get(&self.single, name) {
            None => Err(Error::no_listener(name)),
            Some(entry) => {
                match entry_value(&entry) {
                    Listener::Sync { .. } => Err(Error::wrong_mode(Mode::Async, name)),
                    Listener::Async { type_id_arg, type_id_return, handler } => {
                        match check_type(name, type_id_arg, &arg_tag, "arg") {
                            Err(e) => Err(e),
                            Ok(_) => match check_type(name, type_id_return, return_tag, "return") {
                                Err(e) => Err(e),
                                Ok(_) => Ok(handler.start(arg)),
                            },
                        }
                    },
                }
            },
        }
    }

    /// Binds the synchronous channel `name` to `handler`, which takes a `D`
    /// and returns an `R` or fails with an `E` of its own. An entry already
    /// under that name is replaced; all other channels stay as they are.
    ///
    /// The handler has to accept every `D`: it is run on whatever a caller
    /// broadcasts. From then on the channel answers as `handler` does: a
    /// value it replies stands for a value `handler` returned, and an error
    /// of `handler` reaches the caller as the cause of an `External` failure.
    pub fn bind<D, R, E, F>(&mut self, name: &'static str, handler: F) where
        D: Send + Sync + 'static,
        R: Send + Sync + 'static,
        E: Send + Sync + 'static,
        F: Fn(D) -> Result<R, E> + Send + Sync + 'static,

        requires
            forall|d: D| call_requires(handler, (d,)),
        ensures
            final(self)@.contains_key(name@),
            final(self)@[name@].mode() == Mode::Sync,
            final(self)@ == old(self)@.insert(name@, final(self)@[name@]),
            forall|arg: Erased, reply: Result<Erased, Error>| #[trigger]
                final(self)@[name@].answers(arg, reply) ==> sync_reply_of::<D, R, E, F>(
                    name@,
                    handler,
                    reply,
                ),
    {
        let listener = sync_listener::<D, R, E, F>(name, handler);
        self.register(name, listener);
    }

    /// Binds the asynchronous channel `name` to `handler`, which takes a `D`
    /// and returns a future of an `R` or of an `E` of its own. An entry
    /// already under that name is replaced; all other channels stay as they
    /// are.
    ///
    /// The handler has to accept every `D`, and is called anew for every
    /// broadcast: from then on every future the channel hands out was made
    /// from one that `handler` returned.
    pub fn async_bind<D, R, E, F, Fut>(&mut self, name: &'static str, handler: F) where
        D: Send + Sync + 'static,
        R: Send + Sync + 'static,
        E: Send + Sync + 'static,
        F: Fn(D) -> Fut + Send + Sync + 'static,
        Fut: Future<Output = Result<R, E>> + Send + 'static,

        requires
            forall|d: D| call_requires(handler, (d,)),
        ensures
            final(self)@.contains_key(name@),
            final(self)@[name@].mode() == Mode::Async,
            final(self)@ == old(self)@.insert(name@, final(self)@[name@]),
            forall|arg: Erased, pending: FutureObj<'static, Result<Erased, Error>>| #[trigger]
                final(self)@[name@].starts(arg, pending) ==> async_start_of::<D, R, E, F, Fut>(
                    name@,
                    handler,
                    pending,
                ),
    {
        let listener = async_listener::<D, R, E, F, Fut>(name, handler);
        self.register(name, listener);
    }

    /// Binds the synchronous channel `name` to a method of a shared consumer:
    /// the entry keeps a handle of its own on the consumer, so the consumer
    /// lives at least as long as the entry, and every broadcast calls
    /// `method` on it.
    pub fn bind_method<C, D, R, E, M>(&mut self, name: &'static str, consumer: &Arc<C>, method: M) where
        C: Send + Sync + 'static,
        D: Send + Sync + 'static,
        R: Send + Sync + 'static,
        E: Send + Sync + 'static,
        M: Fn(&C, D) -> Result<R, E> + Send + Sync + 'static,

        requires
            forall|c: &C, d: D| call_requires(method, (c, d)),
        ensures
            final(self)@.contains_key(name@),
            final(self)@[name@].mode() == Mode::Sync,
            final(self)@ == old(self)@.insert(name@, final(self)@[name@]),
            forall|arg: Erased, reply: Result<Erased, Error>| #[trigger]
                final(self)@[name@].answers(arg, reply) ==> sync_method_reply_of::<C, D, R, E, M>(
                    name@,
                    *consumer,
                    method,
                    reply,
                ),
    {
        let shared = Arc::clone(consumer);
        let handler = move |data: D| -> (out: Result<R, E>)
            ensures
                method_gave(&method, &shared, data, out),
            { method(&shared, data) };
        self.bind(name, handler);
    }

    /// Binds the asynchronous channel `name` to a method of a shared
    /// consumer: the entry keeps a handle of its own on the consumer, and
    /// every broadcast hands `method` a handle more, which the future it
    /// returns may hold on to for as long as it runs.
    pub fn async_bind_method<C, D, R, E, M, Fut>(&mut self, name: &'static str, consumer: &Arc<C>, method: M) where
        C: Send + Sync + 'static,
        D: Send + Sync + 'static,
        R: Send + Sync + 'static,
        E: Send + Sync + 'static,
        M: Fn(Arc<C>, D) -> Fut + Send + Sync + 'static,
        Fut: Future<Output = Result<R, E>> + Send + 'static,

        requires
            forall|c: Arc<C>, d: D| call_requires(method, (c, d)),
        ensures
            final(self)@.contains_key(name@),
            final(self)@[name@].mode() == Mode::Async,
            final(self)@ == old(self)@.insert(name@, final(self)@[name@]),
            forall|arg: Erased, pending: FutureObj<'static, Result<Erased, Error>>| #[trigger]
                final(self)@[name@].starts(arg, pending) ==> async_method_start_of::<
                    C,
                    D,
                    R,
                    E,
                    M,
                    Fut,
                >(name@, *consumer, method, pending),
    {
        let shared = Arc::clone(consumer);
        let handler = move |data: D| -> (made: Fut)
            ensures
                method_made(&method, &shared, data, made),
            { method(Arc::clone(&shared), data) };
        self.async_bind(name, handler);
    }

    /// Broadcasts `arg` to the synchronous channel `name` and recovers the
    /// reply as an `R`.
    ///
    /// This is [`DelegateManager::dispatch`] on `arg` erased, with the tag of
    /// `R` as the one expected, followed by [`recover_reply`].
    pub fn broadcast<A, R>(&self, name: &str, arg: A) -> (out: Result<R, Error>) where
        A: Send + Sync + 'static,
        R: Send + Sync + 'static,

        ensures
            !self@.contains_key(name@) ==> (out matches Err(e) && e@ == ErrorView::NoListener(
                name@,
            )),
            self@.contains_key(name@) && self@[name@].mode() == Mode::Async ==> (out matches Err(e)
                && e@ == ErrorView::Mismatched(wrong_mode_text(Mode::Sync, name@))),
            exists|return_tag: TypeTag, erased: Erased, inner: Result<Erased, Error>|
                sync_outcome(self@, name@, return_tag, erased, inner) && recovered(
                    Mode::Sync,
                    name@,
                    inner,
                    out,
                ),
    {
        let return_tag = TypeTag::of::<R>();
        let erased = Erased::new(arg);
        let inner = self.dispatch(name, &return_tag, erased);
        let out = recover_reply::<R>(Mode::Sync, name, inner);
        assert(sync_outcome(self@, name@, return_tag, erased, inner) && recovered(
            Mode::Sync,
            name@,
            inner,
            out,
        ));
        out
    }

    /// The first half of a broadcast of `data` to the asynchronous channel
    /// `name`, on behalf of a caller that expects an `R`.
    ///
    /// This is [`DelegateManager::async_dispatch`] on `data` erased, with
    /// the tag of `R` as the one expected. The caller awaits the future and
    /// hands what it resolves to to [`recover_reply`].
    pub fn async_broadcast<A, R>(&self, name: &str, data: A) -> (out: Result<FutureObj<'static, Result<Erased, Error>>, Error>) where
        A: Send + Sync + 'static,
        R: Send + Sync + 'static,

        ensures
            !self@.contains_key(name@) ==> (out matches Err(e) && e@ == ErrorView::NoListener(
                name@,
            )),
            self@.contains_key(name@) && self@[name@].mode() == Mode::Sync ==> (out matches Err(e)
                && e@ == ErrorView::Mismatched(wrong_mode_text(Mode::Async, name@))),
            exists|return_tag: TypeTag, erased: Erased|
                async_outcome(self@, name@, return_tag, erased, out),
    {
        let return_tag = TypeTag::of::<R>();
        let erased = Erased::new(data);
        let out = self.async_dispatch(name, &return_tag, erased);
        assert(async_outcome(self@, name@, return_tag, erased, out));
        out
    }
}

/// Whether `method`, called on `consumer` with `data`, may return `out`.
pub open spec fn method_gave<C, D, R, E, M>(
    method: &M,
    consumer: &Arc<C>,
    data: D,
    out: Result<R, E>,
) -> bool where M: Fn(&C, D) -> Result<R, E> {
    call_ensures(*method, (&**consumer, data), out)
}

/// Whether `method`, called with a handle on `consumer` and with `data`, may
/// return the future `made`.
pub open spec fn method_made<C, D, M, Fut>(
    method: &M,
    consumer: &Arc<C>,
    data: D,
    made: Fut,
) -> bool where M: Fn(Arc<C>, D) -> Fut {
    call_ensures(*method, (*consumer, data), made)
}

/// How the erased result `inner` of a broadcast reaches the caller as an
/// `R`: a failure passes through as it is, and a value is either recovered or
/// reported as a mismatch.
pub open spec fn recovered<R>(
    mode: Mode,
    name: Seq<char>,
    inner: Result<Erased, Error>,
    out: Result<R, Error>,
) -> bool {
    match inner {
        Err(failure) => out matches Err(e) && e == failure,
        Ok(_) => out is Ok || (out matches Err(e) && e@ == ErrorView::Mismatched(
            reply_mismatch_text(mode, name),
        )),
    }
}

/// Recovers the erased result of a broadcast to channel `name` as an `R`.
/// A value that is no `R` is a `Mismatched` failure.
pub fn recover_reply<R>(mode: Mode, name: &str, inner: Result<Erased, Error>) -> (out: Result<R, Error>) where
    R: Send + Sync + 'static,

    ensures
        recovered(mode, name@, inner, out),
{
    match inner {
        Err(failure) => Err(failure),
        Ok(value) => match value.recover::<R>() {
            Ok(reply) => Ok(reply),
            Err(_) => Err(Error::reply_mismatch(mode, name)),
        },
    }
}

impl Default for DelegateManager {
    fn default() -> (manager: Self)
        ensures
            manager@ == Map::<Seq<char>, Listener>::empty(),
    {
        DelegateManager::new()
    }
}

} // verus!
