//! The order of keys, and the lowest key of a container.

use std::collections::BTreeMap;
use vstd::laws_cmp::obeys_cmp;
use vstd::laws_cmp::obeys_cmp_ord;
use vstd::laws_cmp::obeys_cmp_partial_ord;
use vstd::laws_cmp::obeys_partial_cmp_spec_properties;
use vstd::laws_eq::obeys_concrete_eq;
use vstd::prelude::*;
use vstd::std_specs::cmp::OrdSpec;
use vstd::std_specs::cmp::PartialEqSpec;
use vstd::std_specs::cmp::PartialOrdSpec;

verus! {

/// The keys of type `K` are totally ordered, and two keys that compare
/// equal are the same key. Every contract on keys is stated under this
/// condition; it holds of the integer types.
pub open spec fn totally_ordered<K: Ord>() -> bool {
    obeys_cmp::<K>() && obeys_concrete_eq::<K>()
}

/// `a` comes strictly before `b` in the order of keys.
pub open spec fn precedes<K: Ord>(a: K, b: K) -> bool {
    a.cmp_spec(&b) is Less
}

/// `k` is a key of `m` that comes before every other key of `m`.
pub open spec fn is_lowest_key<K: Ord, V>(m: Map<K, V>, k: K) -> bool {
    &&& m.contains_key(k)
    &&& forall|j: K| #[trigger] m.contains_key(j) && j != k ==> precedes(k, j)
}

/// The lowest key of `m`. It is meaningful where `m` is finite and not
/// empty: see `lemma_lowest_key_exists`.
pub open spec fn lowest_key<K: Ord, V>(m: Map<K, V>) -> K {
    choose|k: K| is_lowest_key(m, k)
}

/// Under a total order, `precedes` is a strict total order: no key precedes
/// itself, of two different keys exactly one precedes the other, and
/// `precedes` is transitive.
pub proof fn lemma_precedes_is_strict_total<K: Ord>()
    requires
        totally_ordered::<K>(),
    ensures
        forall|a: K| !#[trigger] precedes(a, a),
        forall|a: K, b: K| a != b ==> (#[trigger] precedes(a, b) <==> !precedes(b, a)),
        forall|a: K, b: K, c: K|
            #[trigger] precedes(a, b) && #[trigger] precedes(b, c) ==> precedes(a, c),
{
    reveal(obeys_concrete_eq);
    reveal(obeys_cmp_partial_ord);
    reveal(obeys_cmp_ord);
    reveal(obeys_partial_cmp_spec_properties);
    assert forall|a: K| !#[trigger] precedes(a, a) by {
        assert(a.eq_spec(&a));
        assert(a.partial_cmp_spec(&a) == Some(a.cmp_spec(&a)));
    }
    assert forall|a: K, b: K| a != b implies (#[trigger] precedes(a, b) <==> !precedes(b, a)) by {
        assert(a.partial_cmp_spec(&b) == Some(a.cmp_spec(&b)));
        assert(b.partial_cmp_spec(&a) == Some(b.cmp_spec(&a)));
        assert(!a.eq_spec(&b));
    }
    assert forall|a: K, b: K, c: K| #[trigger]
        precedes(a, b) && #[trigger] precedes(b, c) implies precedes(a, c) by {
        assert(a.partial_cmp_spec(&b) == Some(a.cmp_spec(&b)));
        assert(b.partial_cmp_spec(&c) == Some(b.cmp_spec(&c)));
        assert(a.partial_cmp_spec(&c) == Some(a.cmp_spec(&c)));
    }
}

/// A container has at most one lowest key.
pub proof fn lemma_lowest_key_unique<K: Ord, V>(m: Map<K, V>, a: K, b: K)
    requires
        totally_ordered::<K>(),
        is_lowest_key(m, a),
        is_lowest_key(m, b),
    ensures
        a == b,
        lowest_key(m) == a,
{
    lemma_precedes_is_strict_total::<K>();
    if a != b {
        assert(precedes(a, b));
        assert(precedes(b, a));
    }
    let chosen = lowest_key(m);
    assert(is_lowest_key(m, chosen));
    if chosen != a {
        assert(precedes(a, chosen));
        assert(precedes(chosen, a));
    }
}

/// A finite container that is not empty has a lowest key.
pub proof fn lemma_lowest_key_exists<K: Ord, V>(m: Map<K, V>)
    requires
        totally_ordered::<K>(),
        m.dom().finite(),
        !m.dom().is_empty(),
    ensures
        is_lowest_key(m, lowest_key(m)),
    decreases m.dom().len(),
{
    lemma_precedes_is_strict_total::<K>();
    let a = m.dom().choose();
    let rest = m.remove(a);
    if rest.dom().is_empty() {
        assert forall|j: K| #[trigger] m.contains_key(j) && j != a implies precedes(a, j) by {
            assert(rest.dom().contains(j));
        }
        assert(is_lowest_key(m, a));
    } else {
        lemma_lowest_key_exists(rest);
        let b = lowest_key(rest);
        assert(rest.contains_key(b));
        if precedes(a, b) {
            assert forall|j: K| #[trigger] m.contains_key(j) && j != a implies precedes(a, j) by {
                assert(rest.contains_key(j));
                if j != b {
                    assert(precedes(b, j));
                }
            }
            assert(is_lowest_key(m, a));
        } else {
            assert(precedes(b, a));
            assert forall|j: K| #[trigger] m.contains_key(j) && j != b implies precedes(b, j) by {
                if j != a {
                    assert(rest.contains_key(j));
                }
            }
            assert(is_lowest_key(m, b));
        }
    }
}

/// Calls `BTreeMap::pop_first`, which removes and returns the first entry of
/// the map; the key of that entry is the minimum key that was in the map.
/// On an empty map it returns `None` and leaves the map as it was.
#[verifier::external_body]
pub(crate) fn pop_lowest<K: Ord, V>(m: &mut BTreeMap<K, V>) -> (popped: Option<(K, V)>)
    ensures
        obeys_cmp::<K>() ==> match popped {
            None => old(m)@.dom().is_empty() && final(m)@ == old(m)@,
            Some((k, v)) => {
                &&& is_lowest_key(old(m)@, k)
                &&& v == old(m)@[k]
                &&& final(m)@ == old(m)@.remove(k)
            },
        },
{
    m.pop_first()
}

} // verus!
