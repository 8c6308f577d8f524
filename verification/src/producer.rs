//! The producer step: what one step of the lazy sequence does to the
//! container and what it hands to the caller.

use crate::order::lowest_key;
use std::task::Poll;
use vstd::prelude::*;

verus! {

/// What a producer step hands to the caller, once the entry under `key` was
/// detached and polled: the pair of key and outcome if the computation is
/// ready, and `Pending` if it is not.
pub open spec fn surfaced<K, O>(key: K, polled: Poll<O>) -> Poll<Option<(K, O)>> {
    match polled {
        Poll::Ready(outcome) => Poll::Ready(Some((key, outcome))),
        Poll::Pending => Poll::Pending,
    }
}

/// The container after one producer step: an empty container stays empty,
/// any other loses the entry with its lowest key, whether that entry was
/// ready or not.
pub open spec fn rest_after_step<K: Ord, V>(m: Map<K, V>) -> Map<K, V> {
    if m.dom().is_empty() {
        m
    } else {
        m.remove(lowest_key(m))
    }
}

/// Turns the result of the one poll of a step into the step's result.
pub fn surface<K, O>(key: K, polled: Poll<O>) -> (step: Poll<Option<(K, O)>>)
    ensures
        step == surfaced(key, polled),
{
    match polled {
        Poll::Ready(outcome) => Poll::Ready(Some((key, outcome))),
        Poll::Pending => Poll::Pending,
    }
}

} // verus!
