//! The hash tables of the `fnv` crate, keyed by channel or window number.
//!
//! The functions here are the only places where a table is read or written.
//! Their contracts are taken on trust from the documentation of the
//! standard library's `HashMap` and `HashSet`, of which the `fnv` tables
//! are instances with another hasher.

use vstd::prelude::*;
use fnv::{FnvHashMap, FnvHashSet};

verus! {

/// The hasher of the `fnv` crate, which the channel tables are built on.
#[verifier::external_type_specification]
#[verifier::external_body]
pub struct ExFnvHasher(fnv::FnvHasher);

/// The hasher builder of the standard library that `fnv` maps are built with.
#[verifier::external_type_specification]
#[verifier::external_body]
#[verifier::reject_recursive_types(H)]
pub struct ExBuildHasherDefault<H>(std::hash::BuildHasherDefault<H>);

/// Calls `HashMap::insert` on a map of the `fnv` crate. Claims that the map
/// afterwards holds `value` under `key` and is otherwise as before, which is
/// what the standard library documents for a key type with a lawful `Eq` and
/// `Hash`, as `u32` is.
#[verifier::external_body]
pub(crate) fn table_insert<V>(table: &mut FnvHashMap<u32, V>, key: u32, value: V)
    ensures
        final(table)@ == old(table)@.insert(key, value),
{
    table.insert(key, value);
}

/// Calls `HashMap::get` on a map of the `fnv` crate. Claims that the result is
/// the value held under `key`, and `None` exactly when the map holds none.
#[verifier::external_body]
pub(crate) fn table_get<V>(table: &FnvHashMap<u32, V>, key: u32) -> (r: Option<&V>)
    ensures
        r == (if table@.contains_key(key) {
            Some(&table@[key])
        } else {
            None
        }),
{
    table.get(&key)
}

/// Calls `HashMap::keys` on a map of the `fnv` crate and copies the keys out.
/// Claims that every key of the map comes out exactly once. Nothing is claimed
/// of the order, which the standard library leaves open.
#[verifier::external_body]
pub(crate) fn table_keys<V>(table: &FnvHashMap<u32, V>) -> (r: Vec<u32>)
    ensures
        r@.no_duplicates(),
        r@.to_set() == table@.dom(),
{
    table.keys().copied().collect()
}

/// Calls `HashSet::insert` on a set of the `fnv` crate. Claims that the set
/// afterwards holds `key` besides what it held, and that the result tells
/// whether `key` was new to it, as the standard library documents.
#[verifier::external_body]
pub(crate) fn set_insert(set: &mut FnvHashSet<u32>, key: u32) -> (fresh: bool)
    ensures
        final(set)@ == old(set)@.insert(key),
        fresh == !old(set)@.contains(key),
{
    set.insert(key)
}

/// Calls `HashSet::contains` on a set of the `fnv` crate. Claims that the
/// result tells whether the set holds `key`, as the standard library
/// documents.
#[verifier::external_body]
pub(crate) fn set_contains(set: &FnvHashSet<u32>, key: u32) -> (r: bool)
    ensures
        r == set@.contains(key),
{
    set.contains(&key)
}

} // verus!
