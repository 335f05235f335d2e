//! nohash_hasher's `IntMap` keyed by `u64`, behind wrappers that state what its
//! methods do to the map's contents.

use vstd::prelude::*;

verus! {

/// std's `BuildHasherDefault`, declared so that `IntMap` can stand in signatures; opaque.
#[verifier::external_type_specification]
#[verifier::external_body]
#[verifier::reject_recursive_types(H)]
pub struct ExBuildHasherDefault<H>(std::hash::BuildHasherDefault<H>);

/// nohash_hasher's `NoHashHasher`, declared so that `IntMap` can stand in signatures;
/// opaque.
#[verifier::external_type_specification]
#[verifier::external_body]
#[verifier::reject_recursive_types(T)]
pub struct ExNoHashHasher<T>(nohash_hasher::NoHashHasher<T>);

/// nohash_hasher's `IntMap` with `u64` keys: a `HashMap` whose hash of a key is the key.
pub type U64Map<V> = nohash_hasher::IntMap<u64, V>;

/// `IntMap::default()`: an empty map.
#[verifier::external_body]
pub(crate) fn int_map_new<V>() -> (m: U64Map<V>)
    ensures
        m@.dom() == Set::<u64>::empty(),
{
    nohash_hasher::IntMap::default()
}

/// `HashMap::insert` on an `IntMap`: the key now maps to the value.
#[verifier::external_body]
pub(crate) fn int_map_insert<V>(m: &mut U64Map<V>, k: u64, v: V)
    ensures
        final(m)@ == old(m)@.insert(k, v),
{
    m.insert(k, v);
}

/// `HashMap::get` on an `IntMap`: the value under the key, if any.
#[verifier::external_body]
pub(crate) fn int_map_get<V>(m: &U64Map<V>, k: u64) -> (r: Option<&V>)
    ensures
        match r {
            Some(v) => m@.contains_key(k) && *v == m@[k],
            None => !m@.contains_key(k),
        },
{
    m.get(&k)
}

/// `HashMap::iter` on an `IntMap`, copied into a list: every entry once, in the map's
/// own (unspecified) order.
#[verifier::external_body]
pub(crate) fn int_map_entries<V: Copy>(m: &U64Map<V>) -> (r: Vec<(u64, V)>)
    ensures
        r@.len() == m@.dom().len(),
        forall|i: int| 0 <= i < r@.len() ==> #[trigger] m@.contains_key(r@[i].0) && m@[r@[i].0] == r@[i].1,
        forall|i: int, j: int| 0 <= i < j < r@.len() ==> r@[i].0 != r@[j].0,
        forall|k: u64| #[trigger] m@.contains_key(k) ==> exists|i: int| 0 <= i < r@.len() && r@[i].0 == k,
{
    m.iter().map(|(k, v)| (*k, *v)).collect()
}

} // verus!
