//! The error and result types of the fallible drivers, which tell errors of the input source
//! apart from errors in parsing a line.

use vstd::prelude::*;

verus! {

/// The errors which can occur when using a fallible driver, such as
/// [FallibleNdjsonIter](crate::driver::FallibleNdjsonIter) or
/// [FallibleNdjsonStream](crate::driver::FallibleNdjsonStream).
#[derive(Debug)]
pub enum FallibleNdjsonError<E> {
    /// Reading the fallible input failed. The error returned by the input on trying to read is
    /// wrapped in this variant.
    InputError(E),
    /// Parsing a JSON line failed. The [serde_json::Error] is wrapped in this variant.
    JsonError(serde_json::Error),
}

/// A [Result] with the given value type `V` and a [FallibleNdjsonError] whose input error type is
/// the given error type `E`.
pub type FallibleNdjsonResult<V, E> = Result<V, FallibleNdjsonError<E>>;

/// The fallible counterpart of a decode outcome: a parse error becomes
/// [FallibleNdjsonError::JsonError].
pub open spec fn fallible_of<V, E>(outcome: serde_json::Result<V>) -> FallibleNdjsonResult<V, E> {
    match outcome {
        Ok(value) => Ok(value),
        Err(error) => Err(FallibleNdjsonError::JsonError(error)),
    }
}

/// Turns a decode outcome into the result of a fallible driver.
pub(crate) fn into_fallible<V, E>(outcome: serde_json::Result<V>) -> (r: FallibleNdjsonResult<V, E>)
    ensures
        r == fallible_of::<V, E>(outcome),
{
    match outcome {
        Ok(value) => Ok(value),
        Err(error) => Err(FallibleNdjsonError::JsonError(error)),
    }
}

} // verus!
