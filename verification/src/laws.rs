//! What holds of a container over several operations.
//!
//! The laws are stated over the views that the operations' contracts speak
//! of: a container is the map from its keys to what is stored under them,
//! an insertion is `Map::insert`, a removal is `Map::remove`, and a producer
//! step takes a container `m` to `rest_after_step(m)` and surfaces the key
//! `lowest_key(m)`. `V` is what is stored under a key; each stored
//! computation resolves to one outcome, so what a law says of the stored
//! computations it says of their outcomes.

use crate::error::normalized_plain;
use crate::error::Outcome;
use crate::order::is_lowest_key;
use crate::order::lemma_lowest_key_exists;
use crate::order::lemma_lowest_key_unique;
use crate::order::lemma_precedes_is_strict_total;
use crate::order::lowest_key;
use crate::order::precedes;
use crate::order::totally_ordered;
use crate::producer::rest_after_step;
use std::future::Future;
use vstd::future::FutureAdditionalSpecFns;
use vstd::prelude::*;

verus! {

/// The container after the insertions `ops`, made in order into `m`.
pub open spec fn after_inserts<K, V>(m: Map<K, V>, ops: Seq<(K, V)>) -> Map<K, V>
    decreases ops.len(),
{
    if ops.len() == 0 {
        m
    } else {
        after_inserts(m, ops.drop_last()).insert(ops.last().0, ops.last().1)
    }
}

/// One of the insertions `ops` is under the key `k`.
pub open spec fn is_written<K, V>(ops: Seq<(K, V)>, k: K) -> bool {
    exists|i: int| 0 <= i < ops.len() && (#[trigger] ops[i]).0 == k
}

/// `ops[i]` is the last of the insertions `ops` under its key.
pub open spec fn is_last_write<K, V>(ops: Seq<(K, V)>, i: int) -> bool {
    &&& 0 <= i < ops.len()
    &&& forall|j: int| i < j < ops.len() ==> (#[trigger] ops[j]).0 != ops[i].0
}

/// What a container hands out when it is driven to its end and every
/// computation is ready at its one poll: the pairs of key and stored
/// computation, in the order of the producer steps.
pub open spec fn drained<K: Ord, V>(m: Map<K, V>) -> Seq<(K, V)>
    decreases m.dom().len(),
{
    if m.dom().finite() && m.contains_key(lowest_key(m)) {
        seq![(lowest_key(m), m[lowest_key(m)])] + drained(rest_after_step(m))
    } else {
        Seq::empty()
    }
}

/// Keys are unique and the last insertion wins: a container holds one entry
/// per key, being a map; after any sequence of insertions its keys are those
/// it had and those inserted, under each inserted key stands what was
/// inserted there last, and the other entries are as they were.
pub proof fn law_last_insertion_wins<K, V>(m: Map<K, V>, ops: Seq<(K, V)>)
    ensures
        forall|k: K| #[trigger]
            after_inserts(m, ops).contains_key(k) <==> m.contains_key(k) || is_written(ops, k),
        forall|i: int| #[trigger]
            is_last_write(ops, i) ==> after_inserts(m, ops)[ops[i].0] == ops[i].1,
        forall|k: K|
            m.contains_key(k) && !is_written(ops, k) ==> #[trigger] after_inserts(m, ops)[k]
                == m[k],
    decreases ops.len(),
{
    if ops.len() > 0 {
        let earlier = ops.drop_last();
        let n = ops.len() - 1;
        let last = ops[n];
        law_last_insertion_wins(m, earlier);
        assert(after_inserts(m, ops) == after_inserts(m, earlier).insert(last.0, last.1));
        assert forall|k: K| is_written(ops, k) <==> k == last.0 || is_written(earlier, k) by {
            if is_written(ops, k) && k != last.0 {
                let i = choose|i: int| 0 <= i < ops.len() && (#[trigger] ops[i]).0 == k;
                assert(earlier[i].0 == k);
            }
            if is_written(earlier, k) {
                let i = choose|i: int| 0 <= i < earlier.len() && (#[trigger] earlier[i]).0 == k;
                assert(ops[i].0 == k);
            }
            if k == last.0 {
                assert(ops[n].0 == k);
            }
        }
        assert forall|i: int| #[trigger] is_last_write(ops, i) implies after_inserts(
            m,
            ops,
        )[ops[i].0] == ops[i].1 by {
            if i < n {
                assert(ops[n].0 != ops[i].0);
                assert forall|j: int| i < j < earlier.len() implies (#[trigger] earlier[j]).0
                    != earlier[i].0 by {
                    assert(ops[j].0 != ops[i].0);
                }
                assert(is_last_write(earlier, i));
                assert(earlier[i] == ops[i]);
            }
        }
    } else {
        assert forall|k: K| !is_written(ops, k) by {}
    }
}

/// Key-ordered delivery: where nothing is inserted between two producer
/// steps, the second surfaces a key that comes after the key of the first.
/// Removals between the steps do not change that.
pub proof fn law_surfaced_keys_ascend<K: Ord, V>(m: Map<K, V>, later: Map<K, V>)
    requires
        totally_ordered::<K>(),
        m.dom().finite(),
        !m.dom().is_empty(),
        later.dom().subset_of(rest_after_step(m).dom()),
        !later.dom().is_empty(),
    ensures
        precedes(lowest_key(m), lowest_key(later)),
{
    lemma_lowest_key_exists(m);
    vstd::set_lib::lemma_len_subset(later.dom(), rest_after_step(m).dom());
    lemma_lowest_key_exists(later);
    let second = lowest_key(later);
    assert(rest_after_step(m).dom().contains(second));
}

/// An empty container is at its end, and an insertion makes it produce
/// again: a step leaves an empty container empty, and after an insertion
/// into it the next step takes the inserted entry and leaves it empty
/// once more.
pub proof fn law_insertion_revives<K: Ord, V>(m: Map<K, V>, key: K, stored: V)
    requires
        totally_ordered::<K>(),
        m.dom().is_empty(),
    ensures
        rest_after_step(m) == m,
        !m.insert(key, stored).dom().is_empty(),
        lowest_key(m.insert(key, stored)) == key,
        rest_after_step(m.insert(key, stored)) == m,
{
    let refilled = m.insert(key, stored);
    assert(refilled.dom().contains(key));
    assert forall|j: K| #[trigger] refilled.contains_key(j) && j != key implies precedes(
        key,
        j,
    ) by {
        assert(m.dom().contains(j));
    }
    lemma_lowest_key_unique(refilled, key, key);
    assert(refilled.remove(key) =~= m);
}

/// A producer step touches the entry with the lowest key and no other: that
/// entry leaves the container, whether its computation was ready or not, so
/// the container is smaller by one; every other entry stays, with the
/// computation it had.
pub proof fn law_step_discards_lowest<K: Ord, V>(m: Map<K, V>)
    requires
        totally_ordered::<K>(),
        m.dom().finite(),
        !m.dom().is_empty(),
    ensures
        is_lowest_key(m, lowest_key(m)),
        !rest_after_step(m).contains_key(lowest_key(m)),
        rest_after_step(m).len() == m.len() - 1,
        forall|k: K|
            m.contains_key(k) && k != lowest_key(m) ==> #[trigger] rest_after_step(m).contains_key(
                k,
            ) && rest_after_step(m)[k] == m[k],
{
    lemma_lowest_key_exists(m);
}

/// Removal gives back what was inserted. Let `inserted` be a container
/// after `future` was stored under `key`, as `insert_future` leaves it, and
/// let `removed` and `rest` be what `remove_future` then returns and leaves
/// for `key`. Then `removed` is a computation that, resolved by the caller,
/// resolves to what `future` resolves to, as `Ok`; and `rest` is the
/// container as it was before the insertion, without the entry it had under
/// `key`.
pub proof fn law_remove_returns_inserted<
    K,
    T,
    F: Future<Output = T>,
    C: Future<Output = Outcome<T>>,
>(
    before: Map<K, C>,
    inserted: Map<K, C>,
    key: K,
    future: F,
    removed: Option<C>,
    rest: Map<K, C>,
)
    requires
        inserted == before.insert(key, inserted[key]),
        inserted[key].awaited() ==> future.awaited() && inserted[key]@ == normalized_plain(future@),
        rest == inserted.remove(key),
        removed == if inserted.contains_key(key) {
            Some(inserted[key])
        } else {
            None
        },
    ensures
        removed matches Some(computation) && (computation.awaited() ==> future.awaited()
            && computation@ == normalized_plain(future@)),
        rest == before.remove(key),
{
    assert(inserted.contains_key(key));
    assert(rest =~= before.remove(key));
}

/// Driving a container to its end hands out every entry once, in ascending
/// order of keys: as many pairs as the container has entries, each the pair
/// of a key and what is stored under it, and every such pair among them.
pub proof fn law_drain_surfaces_every_entry<K: Ord, V>(m: Map<K, V>)
    requires
        totally_ordered::<K>(),
        m.dom().finite(),
    ensures
        drained(m).len() == m.len(),
        forall|i: int|
            0 <= i < drained(m).len() ==> m.contains_key((#[trigger] drained(m)[i]).0) && m[drained(
                m,
            )[i].0] == drained(m)[i].1,
        forall|k: K| #[trigger] m.contains_key(k) ==> drained(m).contains((k, m[k])),
        forall|i: int, j: int|
            0 <= i < j < drained(m).len() ==> precedes(
                (#[trigger] drained(m)[i]).0,
                (#[trigger] drained(m)[j]).0,
            ),
    decreases m.len(),
{
    if m.dom().is_empty() {
        assert(!m.contains_key(lowest_key(m)));
    } else {
        lemma_lowest_key_exists(m);
        lemma_precedes_is_strict_total::<K>();
        let first = lowest_key(m);
        let rest = rest_after_step(m);
        law_drain_surfaces_every_entry(rest);
        let head = seq![(first, m[first])];
        assert(drained(m) == head + drained(rest));
        assert forall|i: int| 0 <= i < drained(m).len() implies m.contains_key(
            (#[trigger] drained(m)[i]).0,
        ) && m[drained(m)[i].0] == drained(m)[i].1 by {
            if i > 0 {
                assert(drained(m)[i] == drained(rest)[i - 1]);
                assert(rest.contains_key(drained(rest)[i - 1].0));
            }
        }
        assert forall|k: K| #[trigger] m.contains_key(k) implies drained(m).contains((k, m[k])) by {
            if k == first {
                assert(drained(m)[0] == (k, m[k]));
            } else {
                assert(rest.contains_key(k));
                let i = choose|i: int|
                    0 <= i < drained(rest).len() && drained(rest)[i] == (k, rest[k]);
                assert(drained(m)[i + 1] == (k, m[k]));
            }
        }
        assert forall|i: int, j: int| 0 <= i < j < drained(m).len() implies precedes(
            (#[trigger] drained(m)[i]).0,
            (#[trigger] drained(m)[j]).0,
        ) by {
            assert(drained(m)[j] == drained(rest)[j - 1]);
            assert(rest.contains_key(drained(rest)[j - 1].0));
            if i > 0 {
                assert(drained(m)[i] == drained(rest)[i - 1]);
            }
        }
    }
}

/// Round trip: insert, then drive to the end. What comes out is what went
/// in, last insertion under each key, each once: a pair is handed out if
/// and only if it is the last insertion under its key, and no pair is
/// handed out twice.
pub proof fn law_drain_returns_last_writes<K: Ord, V>(ops: Seq<(K, V)>)
    requires
        totally_ordered::<K>(),
    ensures
        forall|pair: (K, V)| #[trigger]
            drained(after_inserts(Map::empty(), ops)).contains(pair) <==> exists|i: int| #[trigger]
                is_last_write(ops, i) && ops[i] == pair,
        drained(after_inserts(Map::empty(), ops)).no_duplicates(),
{
    let m = after_inserts(Map::<K, V>::empty(), ops);
    lemma_after_inserts_finite(Map::<K, V>::empty(), ops);
    law_last_insertion_wins(Map::<K, V>::empty(), ops);
    law_drain_surfaces_every_entry(m);
    lemma_precedes_is_strict_total::<K>();
    let out = drained(m);
    assert forall|pair: (K, V)| #[trigger] out.contains(pair) implies exists|i: int| #[trigger]
        is_last_write(ops, i) && ops[i] == pair by {
        let at = choose|at: int| 0 <= at < out.len() && out[at] == pair;
        assert(m.contains_key(out[at].0));
        assert(is_written(ops, pair.0));
        let i = lemma_last_write_exists(ops, pair.0);
        assert(is_last_write(ops, i));
    }
    assert forall|pair: (K, V)| (exists|i: int| #[trigger] is_last_write(ops, i) && ops[i] == pair)
        implies #[trigger] out.contains(pair) by {
        let i = choose|i: int| #[trigger] is_last_write(ops, i) && ops[i] == pair;
        assert(m.contains_key(ops[i].0));
    }
    assert forall|i: int, j: int| 0 <= i < out.len() && 0 <= j < out.len() && i != j implies out[i]
        != out[j] by {
        if i < j {
            assert(precedes(out[i].0, out[j].0));
        } else {
            assert(precedes(out[j].0, out[i].0));
        }
    }
}

/// Insertions keep a finite container finite.
proof fn lemma_after_inserts_finite<K, V>(m: Map<K, V>, ops: Seq<(K, V)>)
    requires
        m.dom().finite(),
    ensures
        after_inserts(m, ops).dom().finite(),
    decreases ops.len(),
{
    if ops.len() > 0 {
        lemma_after_inserts_finite(m, ops.drop_last());
    }
}

/// Among the insertions under a key there is a last one.
proof fn lemma_last_write_exists<K, V>(ops: Seq<(K, V)>, key: K) -> (i: int)
    requires
        is_written(ops, key),
    ensures
        is_last_write(ops, i),
        ops[i].0 == key,
    decreases ops.len(),
{
    let n = ops.len() - 1;
    if ops[n].0 == key {
        n
    } else {
        let earlier = ops.drop_last();
        let w = choose|i: int| 0 <= i < ops.len() && (#[trigger] ops[i]).0 == key;
        assert(earlier[w].0 == key);
        let i = lemma_last_write_exists(earlier, key);
        assert forall|j: int| i < j < ops.len() implies (#[trigger] ops[j]).0 != ops[i].0 by {
            if j < n {
                assert(earlier[j].0 != earlier[i].0);
            }
        }
        i
    }
}

} // verus!
