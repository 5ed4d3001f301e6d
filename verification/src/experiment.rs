//! Experiments behind one interface: a name, and a run from parameters to
//! samples, whatever the input, the output and the strategies are.

use vstd::prelude::*;
use std::marker::PhantomData;
use adapton::engine::Name;
use crate::error::LabError;
use crate::metrics::Recorder;
use crate::params::{round_count, LabExpParams, LabExpParamsView};
use crate::sample::{
    get_sample_gen, inputs_obey, outputs_obey, samples_recorded, samples_valid, strategy_missing,
    Sample, SampleGen,
};
use crate::strategy::{Compute, Edit, Generate};

verus! {

/// `adapton::engine::Name`, the engine library's first-class name. Opaque
/// here: an experiment carries one as its label.
#[verifier::external_type_specification]
#[verifier::external_body]
pub struct ExName(adapton::engine::Name);

/// The name that `adapton::engine::name_of_str` makes of `text`.
pub uninterp spec fn named(text: Seq<char>) -> Name;

/// `adapton::engine::name_of_str` makes a name of a string: the string
/// itself with a hash of it, computed with fixed keys. The name depends on
/// the characters alone: it is `named` of them.
pub assume_specification[ adapton::engine::name_of_str ](s: &'static str) -> (name: Name)
    ensures
        name == named(s@),
;

/// `<adapton::engine::Name as Clone>::clone`, which the engine library
/// derives: the clone is the name cloned.
pub assume_specification[ <Name as Clone>::clone ](name: &Name) -> (copy: Name)
    ensures
        copy == *name,
;

/// What one experiment returns: its samples, in the order of their rounds.
#[derive(Debug)]
pub struct LabExpResults {
    pub samples: Vec<Sample>,
}

impl Clone for LabExpResults {
    fn clone(&self) -> (copy: Self)
        ensures
            copy.samples@.len() == self.samples@.len(),
    {
        LabExpResults { samples: self.samples.clone() }
    }
}

impl LabExpResults {
    /// The results are those of a whole experiment on `params`: one sample
    /// for each round, each the one of its round.
    pub open spec fn complete_for(&self, params: LabExpParamsView) -> bool {
        &&& self.samples@.len() == round_count(params.change_batch_loopc)
        &&& samples_recorded(self.samples@, params.sample_params)
    }
}

/// An experiment that can be named and run, with its types hidden.
pub trait LabExp {
    /// The name of the experiment.
    spec fn identity(&self) -> Name;

    /// Whether the strategies of the experiment are functions of their
    /// arguments, so that the two engines must agree.
    spec fn obeys(&self) -> bool;

    fn name(&self) -> (name: Name)
        ensures
            name == self.identity(),
    ;

    /// Runs the experiment from its first round to its last.
    ///
    /// On success the results hold one sample for each round, the initial
    /// one included, in the order of the rounds. Where the strategies obey
    /// and outputs are compared, every sample found them equal.
    fn run(&self, params: &LabExpParams, recorder: &mut Recorder) -> (r: Result<
        LabExpResults,
        LabError,
    >)
        ensures
            r matches Ok(results) ==> {
                &&& results.complete_for(params@)
                &&& self.obeys() && params.sample_params.validate_output ==> samples_valid(
                    results.samples@,
                )
            },
    ;
}

/// An experiment: a name bound to an input type, an output type, an input
/// distribution and a computation.
pub struct TestComputer<
    Input: View,
    Output: View,
    InputDist: Generate<Input> + Edit<Input>,
    Computer: Compute<Input, Output>,
> {
    identity: Name,
    computer: PhantomData<Computer>,
    input: PhantomData<Input>,
    inputdist: PhantomData<InputDist>,
    output: PhantomData<Output>,
}

impl<
    Input: View + Clone,
    Output: View + Eq,
    InputDist: Generate<Input> + Edit<Input>,
    Computer: Compute<Input, Output>,
> TestComputer<Input, Output, InputDist, Computer> {
    /// Binds `identity` to the four types.
    pub fn new(identity: Name) -> (experiment: Self)
        ensures
            experiment.identity() == identity,
    {
        TestComputer {
            identity,
            input: PhantomData,
            output: PhantomData,
            inputdist: PhantomData,
            computer: PhantomData,
        }
    }
}

impl<
    Input: View + Clone,
    Output: View + Eq,
    InputDist: Generate<Input> + Edit<Input>,
    Computer: Compute<Input, Output>,
> LabExp for TestComputer<Input, Output, InputDist, Computer> {
    closed spec fn identity(&self) -> Name {
        self.identity
    }

    open spec fn obeys(&self) -> bool {
        inputs_obey::<Input, InputDist>() && outputs_obey::<Input, Output, Computer>()
    }

    fn name(&self) -> (name: Name) {
        self.identity.clone()
    }

    /// Starts the experiment, runs its rounds until none is left, and
    /// returns the samples. The run fails as soon as its start or a round
    /// fails, and it always does where a strategy is missing.
    fn run(&self, params: &LabExpParams, recorder: &mut Recorder) -> (r: Result<
        LabExpResults,
        LabError,
    >)
        ensures
            strategy_missing::<Input, Output, InputDist, Computer>() ==> r is Err,
    {
        let mut st = get_sample_gen::<Input, Output, InputDist, Computer>(params, recorder)?;
        loop
            invariant_except_break
                st.wf(),
                st.params@ == params@,
            ensures
                st.wf(),
                st.params@ == params@,
                st.finished(),
            decreases params.change_batch_loopc - st.change_batch_num,
        {
            match st.sample(recorder) {
                Ok(Some(_)) => {},
                Ok(None) => {
                    break ;
                },
                Err(e) => {
                    return Err(e);
                },
            }
        }
        Ok(LabExpResults { samples: st.samples })
    }
}

/// An experiment that ran to its end has one sample for each round of its
/// loop count, where that count is at least one.
pub proof fn lemma_one_sample_for_each_round(results: LabExpResults, params: LabExpParamsView)
    requires
        results.complete_for(params),
        params.change_batch_loopc >= 1,
    ensures
        results.samples@.len() == params.change_batch_loopc,
        forall|round: int|
            0 <= round < params.change_batch_loopc ==> (
            #[trigger] results.samples@[round]).batch_name == round,
{
}

} // verus!
