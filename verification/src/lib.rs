//! An in-process registry of named channels.
//!
//! A consumer binds a handler under a channel name; a producer broadcasts a
//! value to that name and gets the handler's reply back. Handlers of unrelated
//! argument and result types share one registry: values cross it erased, and
//! every crossing is guarded by a comparison of type tags, so a disagreement
//! between the two sides surfaces as an [`Error`] and never as a wrong value.

pub mod adapter;
pub mod delegate_manager;
pub mod erased;
pub mod error;
pub mod laws;
pub mod listener;
pub mod outcome;
pub mod registry;
pub mod singleton;
pub mod tag;

pub use delegate_manager::recover_reply;
pub use delegate_manager::DelegateManager;
pub use erased::Erased;
pub use error::Error;
pub use error::ErrorView;
pub use listener::AsyncHandler;
pub use listener::Listener;
pub use listener::Mode;
pub use listener::SyncHandler;
pub use singleton::find_delegate_manager;
pub use singleton::get_delegate_manager;
pub use singleton::init;
pub use tag::TypeTag;
