//! Hash maps keyed through the FNV hasher.
//!
//! The functions here are the only place where the maps of the `fnv` crate are
//! touched. Their contracts are taken on trust: they describe
//! `std::collections::HashMap` when it hashes with `fnv::FnvHasher`, a hasher
//! whose digest depends on nothing but the bytes written to it.

use fnv::FnvHashMap;
use fnv::FnvHasher;
use std::hash::BuildHasherDefault;
use std::hash::Hash;
use vstd::prelude::*;
use vstd::std_specs::hash::obeys_key_model;

verus! {

/// `fnv::FnvHasher`: the running FNV-1a digest. Nothing is read from it here.
#[verifier::external_type_specification]
#[verifier::external_body]
pub struct ExFnvHasher(FnvHasher);

/// `std::hash::BuildHasherDefault`: builds a hasher by `Default`. Nothing is
/// read from it here.
#[verifier::external_type_specification]
#[verifier::external_body]
#[verifier::reject_recursive_types(H)]
pub struct ExBuildHasherDefault<H>(BuildHasherDefault<H>);

/// `FnvHashMap::default()`: a map of the `fnv` crate with no key.
#[verifier::external_body]
pub(crate) fn fnv_map_new<K, V>() -> (created: FnvHashMap<K, V>)
    ensures
        created@.dom() == Set::<K>::empty(),
{
    FnvHashMap::default()
}

/// `HashMap::get` on a map of the `fnv` crate: the value stored under `k`, if
/// the map has that key. Claimed for key types on which `Eq` and `Hash`
/// agree with equality of values.
#[verifier::external_body]
pub(crate) fn fnv_map_get<'a, K: Eq + Hash, V>(m: &'a FnvHashMap<K, V>, k: &K) -> (r: Option<&'a V>)
    ensures
        obeys_key_model::<K>() ==> match r {
            Some(v) => m@.contains_key(*k) && *v == m@[*k],
            None => !m@.contains_key(*k),
        },
{
    m.get(k)
}

/// `HashMap::insert` on a map of the `fnv` crate: afterwards `k` maps to `v`
/// and every other key is as before; the result is the value that `k` had.
/// Claimed for key types on which `Eq` and `Hash` agree with equality of
/// values.
#[verifier::external_body]
pub(crate) fn fnv_map_insert<K: Eq + Hash, V>(m: &mut FnvHashMap<K, V>, k: K, v: V) -> (r: Option<V>)
    ensures
        obeys_key_model::<K>() ==> final(m)@ == old(m)@.insert(k, v),
        obeys_key_model::<K>() ==> match r {
            Some(p) => old(m)@.contains_key(k) && p == old(m)@[k],
            None => !old(m)@.contains_key(k),
        },
{
    m.insert(k, v)
}

/// `HashMap::remove` on a map of the `fnv` crate: afterwards `k` is no key
/// and every other key is as before; the result is the value that `k` had.
/// Claimed for key types on which `Eq` and `Hash` agree with equality of
/// values.
#[verifier::external_body]
pub(crate) fn fnv_map_remove<K: Eq + Hash, V>(m: &mut FnvHashMap<K, V>, k: &K) -> (r: Option<V>)
    ensures
        obeys_key_model::<K>() ==> final(m)@ == old(m)@.remove(*k),
        obeys_key_model::<K>() ==> match r {
            Some(p) => old(m)@.contains_key(*k) && p == old(m)@[*k],
            None => !old(m)@.contains_key(*k),
        },
{
    m.remove(k)
}

} // verus!
