//! Error values surfaced at the engine boundary.

use vstd::prelude::*;

verus! {

/// What went wrong at the boundary.  Every variant is detected locally,
/// surfaced to the caller as a recoverable value, and never converted into a
/// default or empty result.
#[derive(Clone, Copy, Debug, PartialEq, Eq, Structural)]
pub enum Error {
    /// The engine's create call returned a null handle; nothing was retained.
    ConstructionFailure,
    /// A compute call's result pointer was null.
    NullResult,
    /// A result's element count was negative.
    NegativeCount,
    /// A result declared a positive count but its data pointer was null.
    NullBuffer,
    /// The caller supplied an empty sample sequence.
    EmptySamples,
    /// The caller supplied a sample rate the engine cannot take.
    InvalidSampleRate,
}

impl Error {
    /// A short description of the failed stage, for callers that print.
    pub fn describe(&self) -> (s: &'static str)
        ensures
            s@.len() > 0,
    {
        proof {
            reveal_strlit("engine create call returned no handle");
            reveal_strlit("result pointer was null");
            reveal_strlit("result count was negative");
            reveal_strlit("result buffer pointer was null");
            reveal_strlit("input samples were empty");
            reveal_strlit("input sample rate is out of range");
        }
        match self {
            Error::ConstructionFailure => "engine create call returned no handle",
            Error::NullResult => "result pointer was null",
            Error::NegativeCount => "result count was negative",
            Error::NullBuffer => "result buffer pointer was null",
            Error::EmptySamples => "input samples were empty",
            Error::InvalidSampleRate => "input sample rate is out of range",
        }
    }
}

} // verus!
