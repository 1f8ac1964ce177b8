//! The concurrent map that holds the entries.

use crate::listener::Listener;
use dashmap::mapref::one::Ref;
use dashmap::DashMap;
use vstd::prelude::*;

verus! {

/// `dashmap::DashMap`, the sharded concurrent hash map.
#[verifier::external_type_specification]
#[verifier::external_body]
#[verifier::reject_recursive_types(K)]
#[verifier::reject_recursive_types(V)]
#[verifier::reject_recursive_types(S)]
pub struct ExDashMap<K, V, S>(DashMap<K, V, S>);

/// `dashmap::mapref::one::Ref`, the guard through which one entry of the map
/// is read while its shard stays locked for reading.
#[verifier::external_type_specification]
#[verifier::external_body]
#[verifier::reject_recursive_types(K)]
#[verifier::reject_recursive_types(V)]
pub struct ExRef<'a, K, V>(Ref<'a, K, V>);

/// The entries a map holds, by channel name.
pub uninterp spec fn registry_entries(registry: DashMap<&'static str, Listener>) -> Map<Seq<char>, Listener>;

/// The entry a guard gives access to.
pub uninterp spec fn guarded(entry: Ref<'_, &'static str, Listener>) -> Listener;

/// `DashMap::new()`: a map that holds nothing.
#[verifier::external_body]
pub(crate) fn registry_new() -> (fresh: DashMap<&'static str, Listener>)
    ensures
        registry_entries(fresh) == (Map::<Seq<char>, Listener>::empty()),
{
    DashMap::new()
}

/// `DashMap::insert`: afterwards the key maps to the value and every other
/// key to what it mapped to before; the value the key had, if any, comes
/// back. Taking the map by `&mut` keeps every guard out of the way, so the
/// call cannot wait on one.
#[verifier::external_body]
pub(crate) fn registry_insert(registry: &mut DashMap<&'static str, Listener>, name: &'static str, listener: Listener) -> (previous: Option<Listener>)
    ensures
        registry_entries(*final(registry)) == registry_entries(*old(registry)).insert(name@, listener),
        previous == if registry_entries(*old(registry)).contains_key(name@) { Some(registry_entries(*old(registry))[name@]) } else { None },
{
    registry.insert(name, listener)
}

/// `DashMap::get`: a guard on the entry of `name` if the map has one, and
/// nothing otherwise.
#[verifier::external_body]
pub(crate) fn registry_get<'a>(registry: &'a DashMap<&'static str, Listener>, name: &str) -> (found: Option<Ref<'a, &'static str, Listener>>)
    ensures
        found.is_some() == registry_entries(*registry).contains_key(name@),
        found matches Some(entry) ==> guarded(entry) == registry_entries(*registry)[name@],
{
    registry.get(name)
}

/// `Ref::value`: the entry behind the guard.
#[verifier::external_body]
pub(crate) fn entry_value<'r, 'a>(entry: &'r Ref<'a, &'static str, Listener>) -> (listener: &'r Listener)
    ensures
        *listener == guarded(*entry),
{
    entry.value()
}

} // verus!
