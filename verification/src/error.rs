//! The failures a broadcast can end in.

use crate::erased::Erased;
use crate::listener::Mode;
use vstd::prelude::*;

verus! {

/// Why a broadcast did not yield a reply.
#[derive(Debug)]
pub enum Error {
    /// The caller and the bound handler disagree: on the argument type, on the
    /// result type, or on whether the channel is synchronous. The text names
    /// the channel and the side that disagreed.
    Mismatched(String),
    /// Nothing is bound under the channel name, which is carried along.
    NoListener(String),
    /// The handler ran and failed; its own error is carried along erased.
    External(Erased),
}

/// An [`Error`] with its texts as sequences of characters.
pub enum ErrorView {
    Mismatched(Seq<char>),
    NoListener(Seq<char>),
    External(Erased),
}

impl View for Error {
    type V = ErrorView;

    open spec fn view(&self) -> ErrorView {
        match self {
            Error::Mismatched(detail) => ErrorView::Mismatched(detail@),
            Error::NoListener(name) => ErrorView::NoListener(name@),
            Error::External(cause) => ErrorView::External(*cause),
        }
    }
}

/// What a mismatch of types on one side of a channel is reported as.
pub open spec fn type_mismatch_text(name: Seq<char>, on: Seq<char>) -> Seq<char> {
    "Data type mismatch for "@ + name + " on "@ + on
}

/// What a synchronous broadcast to an asynchronous listener is reported as.
pub open spec fn sync_on_async_text(name: Seq<char>) -> Seq<char> {
    "Called sync broadcast on async listener "@ + name
}

/// What an asynchronous broadcast to a synchronous listener is reported as.
pub open spec fn async_on_sync_text(name: Seq<char>) -> Seq<char> {
    "Called async broadcast on sync listener "@ + name
}

/// What a reply of another type than the caller asked for is reported as.
pub open spec fn reply_mismatch_text(mode: Mode, name: Seq<char>) -> Seq<char> {
    match mode {
        Mode::Sync => "Reply type mismatch on "@ + name,
        Mode::Async => "Reply type mismatch on "@ + name + "."@,
    }
}

/// What a broadcast in `mode` to a channel served the other way is reported
/// as.
pub open spec fn wrong_mode_text(mode: Mode, name: Seq<char>) -> Seq<char> {
    match mode {
        Mode::Sync => sync_on_async_text(name),
        Mode::Async => async_on_sync_text(name),
    }
}

impl Error {
    /// No listener is bound under `name`.
    pub fn no_listener(name: &str) -> (e: Error)
        ensures
            e@ == ErrorView::NoListener(name@),
    {
        Error::NoListener(String::from_str(name))
    }

    /// The type on side `on` of channel `name` is not the one that was bound.
    pub fn type_mismatch(name: &str, on: &str) -> (e: Error)
        ensures
            e@ == ErrorView::Mismatched(type_mismatch_text(name@, on@)),
    {
        let text = String::from_str("Data type mismatch for ").concat(name).concat(" on ").concat(on);
        Error::Mismatched(text)
    }

    /// A synchronous broadcast reached an asynchronous listener.
    pub fn sync_on_async(name: &str) -> (e: Error)
        ensures
            e@ == ErrorView::Mismatched(sync_on_async_text(name@)),
    {
        Error::Mismatched(String::from_str("Called sync broadcast on async listener ").concat(name))
    }

    /// An asynchronous broadcast reached a synchronous listener.
    pub fn async_on_sync(name: &str) -> (e: Error)
        ensures
            e@ == ErrorView::Mismatched(async_on_sync_text(name@)),
    {
        Error::Mismatched(String::from_str("Called async broadcast on sync listener ").concat(name))
    }

    /// A broadcast in `mode` reached a listener served the other way.
    pub fn wrong_mode(mode: Mode, name: &str) -> (e: Error)
        ensures
            e@ == ErrorView::Mismatched(wrong_mode_text(mode, name@)),
    {
        match mode {
            Mode::Sync => Error::sync_on_async(name),
            Mode::Async => Error::async_on_sync(name),
        }
    }

    /// The handler of channel `name` replied with a value of another type
    /// than the caller asked for.
    pub fn reply_mismatch(mode: Mode, name: &str) -> (e: Error)
        ensures
            e@ == ErrorView::Mismatched(reply_mismatch_text(mode, name@)),
    {
        let text = String::from_str("Reply type mismatch on ").concat(name);
        match mode {
            Mode::Sync => Error::Mismatched(text),
            Mode::Async => Error::Mismatched(text.concat(".")),
        }
    }
}

} // verus!
