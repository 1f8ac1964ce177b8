//! A slot for the one manager a process shares.
//!
//! The slot itself is owned by whoever sets the process up; the functions
//! here decide what initialising and reading it mean.

use crate::delegate_manager::DelegateManager;
use crate::listener::Listener;
use once_cell::sync::OnceCell;
use vstd::prelude::*;

verus! {

/// `once_cell::sync::OnceCell`, a cell that is written at most once.
#[verifier::external_type_specification]
#[verifier::external_body]
#[verifier::reject_recursive_types(T)]
pub struct ExOnceCell<T>(OnceCell<T>);

/// The manager a slot holds, if it has been initialised.
pub uninterp spec fn slot_value(slot: OnceCell<DelegateManager>) -> Option<DelegateManager>;

/// `OnceCell::set`: an empty cell takes the value and the call succeeds; a
/// full cell keeps what it has and hands the value back.
#[verifier::external_body]
fn slot_set(slot: &mut OnceCell<DelegateManager>, value: DelegateManager) -> (res: Result<(), DelegateManager>)
    ensures
        slot_value(*old(slot)) is None ==> res is Ok && slot_value(*final(slot)) == Some(value),
        slot_value(*old(slot)) is Some ==> res == (Err::<(), DelegateManager>(value))
            && slot_value(*final(slot)) == slot_value(*old(slot)),
{
    slot.set(value)
}

/// `OnceCell::get`: the value of a full cell, nothing for an empty one.
#[verifier::external_body]
fn slot_get(slot: &OnceCell<DelegateManager>) -> (found: Option<&DelegateManager>)
    ensures
        found matches Some(manager) ==> slot_value(*slot) == Some(*manager),
        found is None ==> slot_value(*slot) is None,
{
    slot.get()
}

/// How [`init`] takes a slot from `before` to `after`: an empty slot gets a
/// manager with no channel bound, and a full slot is left alone. `fresh` says
/// which of the two happened.
pub open spec fn initialised(
    before: Option<DelegateManager>,
    after: Option<DelegateManager>,
    fresh: bool,
) -> bool {
    match before {
        None => {
            &&& fresh
            &&& after matches Some(manager)
            &&& manager@ == Map::<Seq<char>, Listener>::empty()
        },
        Some(_) => !fresh && after == before,
    }
}

/// Initialises the shared manager, once. A second call changes nothing:
/// the manager made by the first stays in the slot with every channel that
/// was bound on it. Returns whether this call was the one that made it.
pub fn init(slot: &mut OnceCell<DelegateManager>) -> (fresh: bool)
    ensures
        initialised(slot_value(*old(slot)), slot_value(*final(slot)), fresh),
{
    match slot_set(slot, DelegateManager::default()) {
        Ok(_) => true,
        Err(_) => false,
    }
}

/// The shared manager, or `None` where the slot has not been initialised.
pub fn find_delegate_manager(slot: &OnceCell<DelegateManager>) -> (found: Option<&DelegateManager>)
    ensures
        found matches Some(manager) ==> slot_value(*slot) == Some(*manager),
        found is None ==> slot_value(*slot) is None,
{
    slot_get(slot)
}

/// The shared manager. The slot must have been initialised.
pub fn get_delegate_manager(slot: &OnceCell<DelegateManager>) -> (manager: &DelegateManager)
    requires
        slot_value(*slot) is Some,
    ensures
        slot_value(*slot) == Some(*manager),
{
    match find_delegate_manager(slot) {
        Some(manager) => manager,
        None => vstd::pervasive::unreached(),
    }
}

} // verus!
