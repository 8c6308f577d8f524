//! A keyed collection of in-flight computations.
//!
//! A container stores many futures, each under a key of the caller's
//! choosing, and hands their outcomes out one at a time as a lazy sequence
//! of `(key, outcome)` pairs, lowest key first. It owns no executor: a
//! stored computation makes progress only while the caller drives the
//! sequence.
//!
//! ```text
//! let mut tasks = TreeFuture::new();
//! tasks.insert_future(2, async { 20 });
//! tasks.insert_future(1, async { 10 });
//! let stop = tasks.insert_abortable_future(3, async { 30 });
//! stop.abort();
//! // tasks.next().await  ==  Some((1, Ok(10)))
//! // tasks.next().await  ==  Some((2, Ok(20)))
//! // tasks.next().await  ==  Some((3, Err(..)))   the cancellation
//! // tasks.next().await  ==  None
//! ```
//!
//! One step of the sequence looks at one entry, the one with the lowest
//! key. It takes that entry out of the container and polls its computation
//! once. A computation that is ready is handed out with its key; one that is
//! not is dropped, and the step is `Pending`.
//!
//! [`TreeFuture`] holds computations that may move across threads,
//! [`TreeFutureLocal`] holds computations that need not.
//!
//! The contracts are stated over the view of a container, the map from its
//! keys to its stored computations. What holds over several operations is
//! proved in [`laws`].

pub mod computation;
pub mod error;
pub mod laws;
pub mod order;
pub mod producer;
pub mod tree_future;
pub mod tree_future_local;
pub mod tree_future_output;

pub use computation::BoxedResultFuture;
pub use computation::BoxedResultFutureLocal;
pub use error::TreeFutureError;
pub use tree_future::TreeFuture;
pub use tree_future_local::TreeFutureLocal;
pub use tree_future_output::TreeFutureOutput;
