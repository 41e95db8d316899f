use rustc_hash::{FxBuildHasher, FxHashMap};
use std::hash::Hash;
use vstd::prelude::*;
use vstd::std_specs::hash::obeys_key_model;

verus! {

/// The hash builder of `rustc_hash`'s maps, known to Verus by name only.
#[verifier::external_type_specification]
#[verifier::external_body]
pub struct ExFxBuildHasher(FxBuildHasher);

// vstd models `std::collections::HashMap` as a `Map` for hash builders that it
// knows to be deterministic. `FxBuildHasher` is: it is a unit struct whose
// `build_hasher` returns `FxHasher::default()`, a hasher with a fixed seed. The
// four wrappers below state of an `FxHashMap` what vstd states of a `HashMap`
// with such a builder, for keys that obey vstd's key model (the integers).

/// Calls `HashMap::insert` on an `FxHashMap`. Trusted: afterwards the map sends
/// `k` to `v` and is otherwise unchanged; the result is the value that `k` had.
#[verifier::external_body]
pub(crate) fn fx_insert<K: Eq + Hash, V>(m: &mut FxHashMap<K, V>, k: K, v: V) -> (r: Option<V>)
    requires
        obeys_key_model::<K>(),
    ensures
        final(m)@ == old(m)@.insert(k, v),
        r == old(m)@.get(k),
{
    m.insert(k, v)
}

/// Calls `HashMap::contains_key` on an `FxHashMap`. Trusted: the result says
/// whether `k` has a value in the map.
#[verifier::external_body]
pub(crate) fn fx_contains_key<K: Eq + Hash, V>(m: &FxHashMap<K, V>, k: &K) -> (r: bool)
    requires
        obeys_key_model::<K>(),
    ensures
        r == m@.contains_key(*k),
{
    m.contains_key(k)
}

/// Calls `HashMap::get` on an `FxHashMap`. Trusted: the result is the value of
/// `k` in the map, or `None` where it has none.
#[verifier::external_body]
pub(crate) fn fx_get<'a, K: Eq + Hash, V>(m: &'a FxHashMap<K, V>, k: &K) -> (r: Option<&'a V>)
    requires
        obeys_key_model::<K>(),
    ensures
        match r {
            Some(v) => m@.contains_key(*k) && *v == m@[*k],
            None => !m@.contains_key(*k),
        },
{
    m.get(k)
}

/// Calls `HashMap::get_mut` on an `FxHashMap`. Trusted: the result borrows the
/// value of `k` (what is written through it becomes the value of `k`, and the
/// map is otherwise unchanged), or is `None`, the map unchanged, where `k` has
/// no value.
#[verifier::external_body]
pub(crate) fn fx_get_mut<'a, K: Eq + Hash, V>(m: &'a mut FxHashMap<K, V>, k: &K) -> (r: Option<
    &'a mut V,
>)
    requires
        obeys_key_model::<K>(),
    ensures
        match r {
            Some(v) => old(m)@.contains_key(*k) && *v == old(m)@[*k] && final(m)@ == old(m)@.insert(
                *k,
                *final(v),
            ),
            None => !old(m)@.contains_key(*k) && final(m)@ == old(m)@,
        },
{
    m.get_mut(k)
}

} // verus!
