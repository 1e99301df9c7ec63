//! What a runnable exercise looks like.
use vstd::prelude::*;

verus! {

/// An exercise that can be run and whose result can be checked against the
/// expected one.
pub trait CanRun {
    /// The name of the exercise.
    const NAME: &'static str;

    /// The number of the set that the exercise belongs to.
    const SET: usize;

    /// The number of the exercise in its set.
    const PROBLEM: usize;

    /// What a run gives.
    type Output;

    /// Why a run or a check fails.
    type Error;

    /// Runs the exercise.
    fn run() -> Result<Self::Output, Self::Error>;

    /// Checks the result of a run against the expected one.
    fn check(v: Self::Output, expected: Self::Output) -> Result<(), Self::Error>;
}

} // verus!
