//! Stored computations: futures behind a uniform, type-erased handle, and
//! the calls that build and poll them.
//!
//! A future is opaque to the verifier. What the contracts say of one is said
//! through two things that the verifier's library gives every future `c`:
//! `c.awaited()`, that `c` runs to completion, and `c@`, the value that it
//! then resolves to.

use crate::error::Outcome;
use futures::future::AbortHandle;
use futures::future::Abortable;
use futures::future::FutureObj;
use futures::future::LocalFutureObj;
use std::future::Future;
use std::pin::Pin;
use std::task::Context;
use std::task::Poll;
use vstd::future::FutureAdditionalSpecFns;
use vstd::prelude::*;

verus! {

/// `futures::future::FutureObj`, an owned, type-erased future that may move
/// across threads. It is carried through and polled, never looked into.
#[verifier::external_type_specification]
#[verifier::external_body]
#[verifier::reject_recursive_types(T)]
pub struct ExFutureObj<'a, T>(FutureObj<'a, T>);

/// `futures::future::LocalFutureObj`, an owned, type-erased future that
/// stays on its thread.
#[verifier::external_type_specification]
#[verifier::external_body]
#[verifier::reject_recursive_types(T)]
pub struct ExLocalFutureObj<'a, T>(LocalFutureObj<'a, T>);

/// `futures::future::Map`, the future that `FutureExt::map` returns.
#[verifier::external_type_specification]
#[verifier::external_body]
#[verifier::reject_recursive_types(Fut)]
#[verifier::reject_recursive_types(F)]
pub struct ExMap<Fut, F>(futures::future::Map<Fut, F>);

/// `futures::future::Abortable`, the future that `futures::future::abortable`
/// returns.
#[verifier::external_type_specification]
#[verifier::external_body]
#[verifier::reject_recursive_types(T)]
pub struct ExAbortable<T>(Abortable<T>);

/// `futures::future::AbortHandle`, the cancel handle of an `Abortable`
/// future. The container hands it to the caller and never uses it.
#[verifier::external_type_specification]
#[verifier::external_body]
pub struct ExAbortHandle(AbortHandle);

/// `std::task::Context`, the scheduler context that a poll is given.
#[verifier::external_type_specification]
#[verifier::external_body]
pub struct ExContext<'a>(Context<'a>);

/// `std::pin::Pin`, as the lazy-sequence interface hands a container in.
#[verifier::external_type_specification]
#[verifier::external_body]
#[verifier::reject_recursive_types(P)]
pub struct ExPin<P>(Pin<P>);

/// `std::task::Poll`, with its two variants `Ready` and `Pending`.
#[verifier::external_type_specification]
#[verifier::reject_recursive_types(T)]
pub struct ExPoll<T>(Poll<T>);

/// A stored computation of the shareable container.
pub type BoxedResultFuture<T> = FutureObj<'static, Outcome<T>>;

/// A stored computation of the single-thread container.
pub type BoxedResultFutureLocal<T> = LocalFutureObj<'static, Outcome<T>>;

/// Calls `futures::FutureExt::map`, which returns a future that polls
/// `future` and, when that is ready, resolves to `f` applied to its value.
/// So if the new future runs to completion, `future` has, and `f` was
/// called on what it resolved to.
#[verifier::external_body]
pub(crate) fn map_future<A, B, Fut: Future<Output = A>, F: FnOnce(A) -> B>(
    future: Fut,
    f: F,
) -> (mapped: futures::future::Map<Fut, F>)
    requires
        forall|a: A| call_requires(f, (a,)),
    ensures
        mapped.awaited() ==> future.awaited() && call_ensures(f, (future@,), mapped@),
{
    futures::FutureExt::map(future, f)
}

/// Calls `futures::FutureExt::boxed`, which moves the future to the heap and
/// pins it, and hands the box to `FutureObj::new`. Polling the handle polls
/// `future`: if the handle runs to completion, `future` has, and both
/// resolved to the same value.
#[verifier::external_body]
pub(crate) fn boxed<O: 'static, Fut: Future<Output = O> + Send + 'static>(
    future: Fut,
) -> (erased: FutureObj<'static, O>)
    ensures
        erased.awaited() ==> future.awaited() && erased@ == future@,
{
    FutureObj::new(futures::FutureExt::boxed(future))
}

/// Calls `Box::pin` and hands the box to `LocalFutureObj::new`. Polling the
/// handle polls `future`: if the handle runs to completion, `future` has,
/// and both resolved to the same value.
#[verifier::external_body]
pub(crate) fn boxed_local<O: 'static, Fut: Future<Output = O> + 'static>(
    future: Fut,
) -> (erased: LocalFutureObj<'static, O>)
    ensures
        erased.awaited() ==> future.awaited() && erased@ == future@,
{
    LocalFutureObj::new(Box::pin(future))
}

/// Calls `futures::future::abortable`, which pairs the future with a cancel
/// handle. Polled after the handle was used, the new future resolves to
/// `Err(Aborted)`; otherwise it polls `future` and, when that is ready,
/// resolves to `Ok` of its value.
#[verifier::external_body]
pub(crate) fn abortable<A, Fut: Future<Output = A>>(
    future: Fut,
) -> (pair: (Abortable<Fut>, AbortHandle))
    ensures
        pair.0.awaited() ==> (pair.0@ matches Ok(value) ==> future.awaited() && value == future@),
{
    futures::future::abortable(future)
}

/// Takes a `FutureObj`, calls `Future::poll` on it once and drops it. Where
/// the poll is `Ready`, the future has run to completion and the value is
/// what it resolved to. What the computation does while it is polled is its
/// own; std asks that a future is not polled again once it was ready, and
/// taking the future by value, this call cannot be made twice on one.
#[verifier::external_body]
pub(crate) fn poll_shareable<O>(
    future: FutureObj<'static, O>,
    cx: &mut Context<'_>,
) -> (polled: Poll<O>)
    ensures
        polled matches Poll::Ready(value) ==> future.awaited() && value == future@,
{
    let mut future = future;
    Pin::new(&mut future).poll(cx)
}

/// Takes a `LocalFutureObj`, calls `Future::poll` on it once and drops it.
/// Where the poll is `Ready`, the future has run to completion and the value
/// is what it resolved to. What the computation does while it is polled is
/// its own; std asks that a future is not polled again once it was ready,
/// and taking the future by value, this call cannot be made twice on one.
#[verifier::external_body]
pub(crate) fn poll_local<O>(
    future: LocalFutureObj<'static, O>,
    cx: &mut Context<'_>,
) -> (polled: Poll<O>)
    ensures
        polled matches Poll::Ready(value) ==> future.awaited() && value == future@,
{
    let mut future = future;
    Pin::new(&mut future).poll(cx)
}

} // verus!
