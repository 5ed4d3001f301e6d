//! Why an experiment stops before it has produced all of its samples.

use vstd::prelude::*;

verus! {

/// What ends an experiment early.
#[derive(Clone, Copy, Debug, PartialEq, Eq, Structural)]
pub enum LabError {
    /// An engine was selected, and the engine found active right afterwards
    /// was of the other kind.
    EngineMismatch,
    /// A strategy of the experiment has no implementation.
    StrategyUnimplemented,
}

/// The answer of a strategy that has no implementation.
#[derive(Clone, Copy, Debug, PartialEq, Eq, Structural)]
pub struct Unimplemented;

/// Turns the answer of a strategy into the answer of the experiment.
pub fn strategy_outcome<T>(answer: Result<T, Unimplemented>) -> (r: Result<T, LabError>)
    ensures
        match answer {
            Ok(value) => r == Ok::<T, LabError>(value),
            Err(_) => r == Err::<T, LabError>(LabError::StrategyUnimplemented),
        },
{
    match answer {
        Ok(value) => Ok(value),
        Err(_) => Err(LabError::StrategyUnimplemented),
    }
}

/// Accepts an engine selection when the engine found active is of the kind
/// that was selected.
pub fn check_engine(active_as_selected: bool) -> (r: Result<(), LabError>)
    ensures
        r == if active_as_selected {
            Ok::<(), LabError>(())
        } else {
            Err::<(), LabError>(LabError::EngineMismatch)
        },
{
    if active_as_selected {
        Ok(())
    } else {
        Err(LabError::EngineMismatch)
    }
}

} // verus!
