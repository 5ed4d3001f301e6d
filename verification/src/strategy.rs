//! The three capabilities that an experiment is made of: generating an
//! input, editing it, and computing an output from it.

use vstd::prelude::*;
use std::marker::PhantomData;
use rand::StdRng;
use crate::error::Unimplemented;
use crate::params::GenerateParams;

verus! {

/// Produces an initial input from a random source.
pub trait Generate<T: View> {
    /// Whether `generate` is the function of its arguments that
    /// `generate_spec` names. An implementation that does not say so is
    /// held to nothing.
    open spec fn obeys_generate_spec() -> bool {
        false
    }

    /// The view of the input drawn from a random source in state `rng`, and
    /// the state in which the draw leaves the source.
    open spec fn generate_spec(rng: StdRng, params: GenerateParams) -> (T::V, StdRng) {
        arbitrary()
    }

    /// Whether `generate` has no implementation, and so answers
    /// `Unimplemented` whatever it is given.
    open spec fn never_generates() -> bool {
        false
    }

    fn generate(rng: &mut StdRng, params: &GenerateParams) -> (r: Result<T, Unimplemented>)
        ensures
            Self::obeys_generate_spec() ==> (r matches Ok(input) ==> (input@, *final(rng))
                == Self::generate_spec(*old(rng), *params)),
            Self::never_generates() ==> r is Err,
    ;
}

/// Applies one batch of changes to an input.
pub trait Edit<T: View>: Clone {
    /// Whether `edit` is the function of its arguments that `edit_spec`
    /// names. An implementation that does not say so is held to nothing.
    open spec fn obeys_edit_spec() -> bool {
        false
    }

    /// The view of the input that one batch of changes makes of an input
    /// with view `state`, and the state in which the batch leaves the random
    /// source.
    open spec fn edit_spec(state: T::V, rng: StdRng, params: GenerateParams) -> (T::V, StdRng) {
        arbitrary()
    }

    /// Whether `edit` has no implementation, and so answers `Unimplemented`
    /// whatever it is given.
    open spec fn never_edits() -> bool {
        false
    }

    fn edit(state: T, rng: &mut StdRng, params: &GenerateParams) -> (r: Result<T, Unimplemented>)
        ensures
            Self::obeys_edit_spec() ==> (r matches Ok(edited) ==> (edited@, *final(rng))
                == Self::edit_spec(state@, *old(rng), *params)),
            Self::never_edits() ==> r is Err,
    ;
}

/// Computes an output from an input, under whichever engine is active.
pub trait Compute<Input: View, Output: View> {
    /// Whether `compute` is the function of its input that `compute_spec`
    /// names, under every engine. An implementation that does not say so is
    /// held to nothing.
    open spec fn obeys_compute_spec() -> bool {
        false
    }

    /// The view of the output that belongs to an input with view `input`.
    open spec fn compute_spec(input: Input::V) -> Output::V {
        arbitrary()
    }

    /// Whether `compute` has no implementation, and so answers
    /// `Unimplemented` whatever it is given.
    open spec fn never_computes() -> bool {
        false
    }

    fn compute(input: Input) -> (r: Result<Output, Unimplemented>)
        ensures
            Self::obeys_compute_spec() ==> (r matches Ok(output) ==> output@ == Self::compute_spec(
                input@,
            )),
            Self::never_computes() ==> r is Err,
    ;
}

/// A computation held as a value.
pub struct Computer<Input: View, Output: View, C: Compute<Input, Output>> {
    pub computer: C,
    pub input: PhantomData<Input>,
    pub output: PhantomData<Output>,
}

} // verus!
