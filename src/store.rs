//! Concurrent per-server maps. Each call locks only the shard that holds the
//! key, so servers never wait for each other; what a map holds may change
//! between two calls, and the calls here promise nothing about it.
use std::hash::Hash;
use vstd::prelude::*;

verus! {

#[verifier::external_type_specification]
#[verifier::external_body]
#[verifier::reject_recursive_types(K)]
#[verifier::reject_recursive_types(V)]
#[verifier::reject_recursive_types(S)]
pub struct ExDashMap<K, V, S>(dashmap::DashMap<K, V, S>);

/// Relies on `dashmap::DashMap::new`: an empty map.
#[verifier::external_body]
pub(crate) fn map_new<K: Eq + Hash, V>() -> dashmap::DashMap<K, V> {
    dashmap::DashMap::new()
}

/// Relies on `dashmap::DashMap::get`: a copy of the value under `key`, if
/// there is one at the moment of the call.
#[verifier::external_body]
pub(crate) fn map_get<K: Eq + Hash, V: Clone>(map: &dashmap::DashMap<K, V>, key: &K) -> Option<V> {
    map.get(key).map(|e| e.value().clone())
}

/// Relies on `dashmap::DashMap::insert`: the value under `key` is replaced.
#[verifier::external_body]
pub(crate) fn map_insert<K: Eq + Hash, V>(map: &dashmap::DashMap<K, V>, key: K, value: V) {
    map.insert(key, value);
}

/// Relies on `dashmap::DashMap::remove`: the entry under `key` is gone, if
/// there was one.
#[verifier::external_body]
pub(crate) fn map_remove<K: Eq + Hash, V>(map: &dashmap::DashMap<K, V>, key: &K) {
    map.remove(key);
}

/// Relies on `dashmap::DashMap::iter`: a copy of the entries, each shard read
/// in turn under its lock, so entries of other servers may change meanwhile.
/// A key always lives in the one shard its hash picks, and each shard is
/// visited once, so no key comes out twice.
#[verifier::external_body]
pub(crate) fn map_entries<V: Clone>(map: &dashmap::DashMap<u64, V>) -> (r: Vec<(u64, V)>)
    ensures
        forall|i: int, j: int| 0 <= i < j < r.len() ==> (#[trigger] r@[i]).0 != (#[trigger] r@[j]).0,
{
    map.iter().map(|e| (*e.key(), e.value().clone())).collect()
}

} // verus!
