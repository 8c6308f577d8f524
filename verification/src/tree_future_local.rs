//! The single-thread container: computations that need not be able to move
//! across threads, stored by key and harvested in key order.

use crate::computation::abortable;
use crate::computation::boxed_local;
use crate::computation::map_future;
use crate::computation::poll_local;
use crate::computation::BoxedResultFutureLocal;
use crate::error::normalize_cancellable;
use crate::error::normalize_plain;
use crate::error::normalized_cancellable;
use crate::error::normalized_plain;
use crate::error::Outcome;
use crate::order::lowest_key;
use crate::order::lemma_lowest_key_unique;
use crate::order::pop_lowest;
use crate::order::totally_ordered;
use crate::producer::rest_after_step;
use crate::producer::surface;
use crate::tree_future_output::TreeFutureOutput;
use futures::future::AbortHandle;
use futures::stream::Aborted;
use std::collections::BTreeMap;
use std::future::Future;
use std::pin::Pin;
use std::task::Context;
use std::task::Poll;
use vstd::future::FutureAdditionalSpecFns;
use vstd::prelude::*;

verus! {

/// Many computations in flight on one thread, each under a key of its own,
/// whose outcomes are handed out one at a time, lowest key first.
///
/// The view of a container is the map from its keys to its stored
/// computations. Of a stored computation `c`, `c.awaited()` says that it
/// runs to completion, and `c@` is what it then resolves to.
#[verifier::reject_recursive_types(T)]
pub struct TreeFutureLocal<E, T> {
    futures: BTreeMap<E, BoxedResultFutureLocal<T>>,
}

impl<E, T> View for TreeFutureLocal<E, T> {
    type V = Map<E, BoxedResultFutureLocal<T>>;

    closed spec fn view(&self) -> Map<E, BoxedResultFutureLocal<T>> {
        self.futures@
    }
}

impl<E, T> TreeFutureLocal<E, T> where T: TreeFutureOutput + 'static, E: Ord + std::hash::Hash {
    /// An empty container.
    pub fn new() -> (tree: Self)
        ensures
            tree@ == Map::<E, BoxedResultFutureLocal<T>>::empty(),
    {
        TreeFutureLocal { futures: BTreeMap::new() }
    }

    /// Stores `future` under `task_id`. The stored computation runs
    /// `future` and resolves to `Ok` of its value. An entry that was under
    /// `task_id` before is dropped without being polled; no other entry
    /// changes.
    pub fn insert_future(&mut self, task_id: E, future: impl Future<Output = T> + 'static)
        ensures
            totally_ordered::<E>() ==> {
                &&& final(self)@ == old(self)@.insert(task_id, final(self)@[task_id])
                &&& final(self)@[task_id].awaited() ==> {
                    &&& future.awaited()
                    &&& final(self)@[task_id]@ == normalized_plain(future@)
                }
            },
    {
        let normalize = |value: T| -> (outcome: Outcome<T>)
            ensures
                outcome == normalized_plain(value),
            {
                normalize_plain(value)
            };
        let normalized = map_future(future, normalize);
        let stored = boxed_local(normalized);
        self.futures.insert(task_id, stored);
    }

    /// Stores `future` under `task_id` and returns a handle that cancels it.
    /// The stored computation runs `future` and resolves to `Ok` of its
    /// value, or it resolves to an error, which it does once the handle was
    /// used. An entry that was under `task_id` before is dropped without
    /// being polled; no other entry changes.
    pub fn insert_abortable_future(
        &mut self,
        task_id: E,
        future: impl Future<Output = T> + 'static,
    ) -> (abort_handle: AbortHandle)
        ensures
            totally_ordered::<E>() ==> {
                &&& final(self)@ == old(self)@.insert(task_id, final(self)@[task_id])
                &&& final(self)@[task_id].awaited() ==> match final(self)@[task_id]@ {
                    Ok(value) => future.awaited() && value == future@,
                    Err(_) => true,
                }
            },
    {
        let (abortable_future, abort_handle) = abortable(future);
        let normalize = |result: Result<T, Aborted>| -> (outcome: Outcome<T>)
            ensures
                normalized_cancellable(result, outcome),
            {
                normalize_cancellable(result)
            };
        let normalized = map_future(abortable_future, normalize);
        let stored = boxed_local(normalized);
        self.futures.insert(task_id, stored);
        abort_handle
    }

    /// Takes the entry under `task_id` out of the container, without polling
    /// it, and returns its computation; `None` if there is no such entry.
    pub fn remove_future(&mut self, task_id: E) -> (removed: Option<BoxedResultFutureLocal<T>>)
        ensures
            totally_ordered::<E>() ==> {
                &&& final(self)@ == old(self)@.remove(task_id)
                &&& removed == if old(self)@.contains_key(task_id) {
                    Some(old(self)@[task_id])
                } else {
                    None
                }
            },
    {
        self.futures.remove(&task_id)
    }
}

impl<E, T> TreeFutureLocal<E, T> where T: TreeFutureOutput, E: Ord {
    /// One producer step. On an empty container it is the end of the
    /// sequence. Otherwise the entry with the lowest key leaves the
    /// container and its computation is polled once, no other: if it is
    /// ready, it has run to completion and the step yields its key and what
    /// it resolved to; if not, the step is `Pending` and the entry is gone
    /// all the same.
    pub fn poll_next(&mut self, cx: &mut Context<'_>) -> (step: Poll<Option<(E, Outcome<T>)>>)
        ensures
            totally_ordered::<E>() ==> {
                &&& final(self)@ == rest_after_step(old(self)@)
                &&& (step matches Poll::Ready(None)) <==> old(self)@.dom().is_empty()
                &&& step matches Poll::Ready(Some((key, outcome))) ==> {
                    &&& key == lowest_key(old(self)@)
                    &&& old(self)@[key].awaited()
                    &&& outcome == old(self)@[key]@
                }
            },
    {
        match pop_lowest(&mut self.futures) {
            Some((task_id, future)) => {
                proof {
                    if totally_ordered::<E>() {
                        lemma_lowest_key_unique(old(self)@, task_id, task_id);
                    }
                }
                let polled = poll_local(future, cx);
                surface(task_id, polled)
            },
            None => Poll::Ready(None),
        }
    }
}

/// Calls `Pin::get_mut`, which gives back the reference that was pinned. It
/// is there for what is `Unpin`, as the container is: its computations are
/// pinned on the heap, each behind a handle that is free to move.
#[verifier::external_body]
fn unpinned<'a, E, T>(pinned: Pin<&'a mut TreeFutureLocal<E, T>>) -> &'a mut TreeFutureLocal<E, T> {
    pinned.get_mut()
}

/// The container as a lazy sequence of `(key, outcome)` pairs: each step of
/// the sequence is one producer step.
impl<E, T> futures::stream::Stream for TreeFutureLocal<E, T> where T: TreeFutureOutput, E: Ord {
    type Item = (E, Outcome<T>);

    /// Unpins the container and makes one producer step on it. What the
    /// step returns and how it changes the container is stated on
    /// `TreeFutureLocal::poll_next`, which takes the container itself; a pin is
    /// opaque to the verifier, so no clause here can speak of the container
    /// behind it.
    fn poll_next(self: Pin<&mut Self>, cx: &mut Context<'_>) -> Poll<Option<Self::Item>> {
        let tree = unpinned(self);
        tree.poll_next(cx)
    }
}

/// Read access to the entries: `len`, `is_empty`, the keys in ascending
/// order.
impl<E, T> std::ops::Deref for TreeFutureLocal<E, T> where T: TreeFutureOutput, E: Ord {
    type Target = BTreeMap<E, BoxedResultFutureLocal<T>>;

    fn deref(&self) -> (entries: &Self::Target)
        ensures
            entries@ == self@,
    {
        &self.futures
    }
}

/// Write access to the entries. What the caller does to them is done to the
/// container.
impl<E, T> std::ops::DerefMut for TreeFutureLocal<E, T> where T: TreeFutureOutput, E: Ord {
    fn deref_mut(&mut self) -> (entries: &mut Self::Target)
        ensures
            entries@ == old(self)@,
            final(self)@ == final(entries)@,
    {
        &mut self.futures
    }
}

} // verus!
