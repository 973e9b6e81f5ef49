//! Fault containment: what becomes of a unit of native logic that may
//! terminate abnormally.
//!
//! Nothing may unwind across the boundary. Whoever runs a unit of native
//! logic on behalf of the host intercepts its abnormal termination and
//! reports how the unit ended as a `Contained` value; what the host gets
//! to see in either case is decided here.

use vstd::prelude::*;

verus! {

/// How a contained unit of native logic ended.
pub enum Contained<T> {
    /// The unit ran to its end and produced a value.
    Returned(T),
    /// The unit terminated abnormally; the fault was intercepted.
    Faulted,
}

impl<T> Contained<T> {
    /// The value the boundary hands out: the unit's own value where it ran
    /// to its end, the sentinel where it faulted.
    pub open spec fn value_or(self, sentinel: T) -> T {
        match self {
            Contained::Returned(value) => value,
            Contained::Faulted => sentinel,
        }
    }

    /// Replaces an intercepted fault by `sentinel`.
    pub fn or_sentinel(self, sentinel: T) -> (value: T)
        ensures
            value == self.value_or(sentinel),
    {
        match self {
            Contained::Returned(value) => value,
            Contained::Faulted => sentinel,
        }
    }
}

/// What is left of a contained call that may also fail in the ordinary
/// way: its value where it returned one, nothing where it failed or
/// faulted.
pub open spec fn settled<T, E>(outcome: Contained<Result<T, E>>) -> Option<T> {
    match outcome {
        Contained::Returned(Ok(value)) => Some(value),
        Contained::Returned(Err(_)) => None,
        Contained::Faulted => None,
    }
}

/// Turns the outcome of a contained call into what crosses the boundary:
/// the value, or nothing, which the host sees as a null handle. An ordinary
/// failure and a fault look the same from outside.
pub fn settle<T, E>(outcome: Contained<Result<T, E>>) -> (value: Option<T>)
    ensures
        value == settled(outcome),
{
    match outcome {
        Contained::Returned(Ok(value)) => Some(value),
        Contained::Returned(Err(_)) => None,
        Contained::Faulted => None,
    }
}

} // verus!
