//! The error envelope: what a stored computation may resolve to instead of a
//! value, and the one error the container itself knows, cancellation.

use futures::stream::Aborted;
use std::fmt::Formatter;
use vstd::prelude::*;

verus! {

/// An error that a stored computation may resolve to.
///
/// The container never inspects such a value: it hands it on, boxed, with
/// the key of the computation. All that is asked of an error is that it can
/// give a human-readable account of itself.
pub trait TreeFutureError {
    /// A human-readable account of the error.
    fn describe(&self) -> String;
}

/// What a stored computation resolves to: its value, or an error in the
/// envelope.
pub type Outcome<T> = Result<T, Box<dyn TreeFutureError>>;

/// `futures::stream::Aborted`, the unit value that an `Abortable` future
/// resolves to once its handle was used. Nothing is read from it.
#[verifier::external_type_specification]
#[verifier::external_body]
pub struct ExAborted(Aborted);

/// `std::fmt::Formatter`, handed through to `write_str`.
#[verifier::external_type_specification]
#[verifier::external_body]
pub struct ExFormatter<'a>(Formatter<'a>);

/// `std::fmt::Error`, the error half of `std::fmt::Result`.
#[verifier::external_type_specification]
#[verifier::external_body]
pub struct ExFmtError(std::fmt::Error);

/// Formats an `Aborted` with its derived `Debug` impl. `Aborted` is a unit
/// struct, so the derived text is its name.
#[verifier::external_body]
fn aborted_text(e: &Aborted) -> (text: String)
    ensures
        text@ == "Aborted"@,
{
    format!("{:?}", e)
}

/// Calls `std::fmt::Formatter::write_str` with `text`. Nothing is claimed
/// of the formatter afterwards.
#[verifier::external_body]
fn write_text(f: &mut Formatter<'_>, text: &str) -> std::fmt::Result {
    f.write_str(text)
}

/// Cancellation is the one error that the container produces itself.
impl TreeFutureError for Aborted {
    fn describe(&self) -> (text: String)
        ensures
            text@ == "Aborted"@,
    {
        aborted_text(self)
    }
}

/// An error in the envelope prints as its own account of itself, so that an
/// outcome can be unwrapped and shown like any other `Result`.
impl std::fmt::Debug for dyn TreeFutureError {
    fn fmt(&self, f: &mut Formatter<'_>) -> std::fmt::Result {
        let text = self.describe();
        write_text(f, text.as_str())
    }
}

/// What a computation that was inserted without a cancel handle resolves
/// to, where the caller's future resolves to `value`.
pub open spec fn normalized_plain<T>(value: T) -> Outcome<T> {
    Ok(value)
}

/// Whether `outcome` is what a computation that was inserted with a cancel
/// handle resolves to, where the cancellable future resolves to `result`: a
/// value is forwarded unchanged, a cancellation becomes an error.
pub open spec fn normalized_cancellable<T>(
    result: Result<T, Aborted>,
    outcome: Outcome<T>,
) -> bool {
    match result {
        Ok(value) => outcome == normalized_plain(value),
        Err(_) => outcome is Err,
    }
}

/// The outcome of a computation that was inserted without a cancel handle:
/// its value, as `Ok`.
pub fn normalize_plain<T>(value: T) -> (outcome: Outcome<T>)
    ensures
        outcome == normalized_plain(value),
{
    Ok(value)
}

/// The outcome of a computation that was inserted with a cancel handle: its
/// value is forwarded unchanged, and a cancellation becomes an error in the
/// envelope.
pub fn normalize_cancellable<T>(result: Result<T, Aborted>) -> (outcome: Outcome<T>)
    ensures
        normalized_cancellable(result, outcome),
{
    match result {
        Ok(value) => Ok(value),
        Err(aborted) => {
            let boxed: Box<dyn TreeFutureError> = Box::new(aborted);
            Err(boxed)
        },
    }
}

} // verus!
