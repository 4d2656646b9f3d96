use vstd::prelude::*;

verus! {

/// The outcome of one non-blocking poll of a future or a stream.
///
/// Exactly one of the three states is observed: the value is ready, the
/// computation cannot make progress yet, or it has failed.  For a stream the
/// ready value is itself an `Option`, where `None` marks the end of the
/// sequence.
#[derive(Debug, PartialEq)]
pub enum PollResult<T, E> {
    /// The computation produced its value.
    Ready(T),
    /// The computation cannot complete yet; interest should be registered
    /// through a wake handle before polling again.
    Pending,
    /// The computation failed with a domain error.
    Failed(E),
}

} // verus!
