//! What extractors decide once the outcome of an extraction is known.

use vstd::prelude::*;

verus! {

/// What an optional extractor makes of the outcome of the extractor that it
/// wraps: the value if there is one, and nothing, but no failure, if the
/// extraction failed.
pub fn optional<T, E>(outcome: Result<T, E>) -> (extracted: Option<T>)
    ensures
        extracted == match outcome {
            Ok(value) => Some(value),
            Err(_) => None::<T>,
        },
{
    match outcome {
        Ok(value) => Some(value),
        Err(_) => None,
    }
}

} // verus!
