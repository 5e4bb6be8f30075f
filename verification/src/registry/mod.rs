//! The process-wide registries: rooms, their channels, and liveness.
//!
//! Each registry is a `dashmap::DashMap` keyed by an id. Verus sees such a
//! map as an opaque value; what each of the four tables holds is named by a
//! function of this module's files, and [`Kept`] says, for each type of
//! value, which of them it is. The calls into the maps are wrapped, one
//! wrapper for each method: those that serve every table stand here, the
//! others beside the table that they serve. The changing wrappers take the
//! map by unique reference: what they promise of its contents holds because
//! nobody else can touch the map during the call.

pub mod channels;
pub mod liveness;
pub mod rooms;

use dashmap::DashMap;
use vstd::prelude::*;

verus! {

/// `dashmap::DashMap`, carried as an opaque value.
#[verifier::external_type_specification]
#[verifier::external_body]
#[verifier::reject_recursive_types(K)]
#[verifier::reject_recursive_types(V)]
#[verifier::reject_recursive_types(S)]
pub struct ExDashMap<K, V, S>(DashMap<K, V, S>);

/// What a table keeps: each of the four types of value that the hub files
/// under an id says how a value is shown in contracts, and which function
/// names what a table of such values holds.
///
/// What the wrappers below promise is true only of a type whose `held`
/// is the name of what its table holds, as it is for the four types of
/// this crate. So the trait and the wrappers stay inside the crate: nothing
/// outside can give the wrappers another type.
pub(crate) trait Kept: Sized {
    /// A value as contracts show it.
    type Shown;

    /// This value as contracts show it.
    spec fn shown(self) -> Self::Shown;

    /// What a table of such values holds, each value as it is shown.
    spec fn held(table: DashMap<i32, Self>) -> Map<i32, Self::Shown>;
}

/// `DashMap::new`: a fresh table holds nothing.
#[verifier::external_body]
pub(crate) fn table_new<V: Kept>() -> (fresh: DashMap<i32, V>)
    ensures
        V::held(fresh).dom() == Set::<i32>::empty(),
{
    DashMap::new()
}

/// `DashMap::insert`, called by the table's only holder: afterwards the key
/// has the given value, and every other key has what it had.
#[verifier::external_body]
pub(crate) fn table_insert<V: Kept>(table: &mut DashMap<i32, V>, key: i32, value: V)
    ensures
        V::held(*final(table)) == V::held(*old(table)).insert(key, value.shown()),
{
    table.insert(key, value);
}

/// `DashMap::remove`, called by the table's only holder: the key is gone,
/// every other key has what it had, and the result tells whether the key
/// was there. What the table held under the key is dropped.
#[verifier::external_body]
pub(crate) fn table_remove<V: Kept>(table: &mut DashMap<i32, V>, key: i32) -> (removed: bool)
    ensures
        V::held(*final(table)) == V::held(*old(table)).remove(key),
        removed == V::held(*old(table)).contains_key(key),
{
    table.remove(&key).is_some()
}

} // verus!
