//! Experiment configuration: what is generated, from which seeds, and how
//! many rounds of edits follow.

use vstd::prelude::*;

verus! {

/// How structural names are assigned to the parts of a generated input.
#[derive(Clone, Copy, Debug, PartialEq, Eq, Structural)]
pub enum NominalStrategy {
    Regular,
    ByContent,
}

/// Shape of the input that a generator produces.
#[derive(Clone, Copy, Debug, PartialEq, Eq, Structural)]
pub struct GenerateParams {
    /// Target magnitude of the input.
    pub size: usize,
    /// Granularity of the input's structure; its meaning is up to the generator.
    pub gauge: usize,
    pub nominal_strategy: NominalStrategy,
}

/// What every sample of one experiment shares.
#[derive(Debug, PartialEq, Eq)]
pub struct SampleParams {
    /// Seed material for the random source that generation and editing draw from.
    pub input_seeds: Vec<usize>,
    /// Other parameters for generating the input.
    pub generate_params: GenerateParams,
    /// Whether the outputs of the two engines are compared after each computation.
    pub validate_output: bool,
    /// Size of each batch of changes.
    pub change_batch_size: usize,
}

/// The mathematical value of a [`SampleParams`].
pub struct SampleParamsView {
    pub input_seeds: Seq<usize>,
    pub generate_params: GenerateParams,
    pub validate_output: bool,
    pub change_batch_size: usize,
}

impl View for SampleParams {
    type V = SampleParamsView;

    open spec fn view(&self) -> SampleParamsView {
        SampleParamsView {
            input_seeds: self.input_seeds@,
            generate_params: self.generate_params,
            validate_output: self.validate_output,
            change_batch_size: self.change_batch_size,
        }
    }
}

impl Clone for SampleParams {
    fn clone(&self) -> (copy: Self)
        ensures
            copy@ == self@,
    {
        let input_seeds = self.input_seeds.clone();
        assert(input_seeds@ =~= self.input_seeds@);
        SampleParams {
            input_seeds,
            generate_params: self.generate_params,
            validate_output: self.validate_output,
            change_batch_size: self.change_batch_size,
        }
    }
}

/// Configuration of one experiment.
#[derive(Debug, PartialEq, Eq)]
pub struct LabExpParams {
    pub sample_params: SampleParams,
    /// Number of rounds, the initial one included. A count of zero still runs
    /// the initial round.
    pub change_batch_loopc: usize,
}

/// The mathematical value of a [`LabExpParams`].
pub struct LabExpParamsView {
    pub sample_params: SampleParamsView,
    pub change_batch_loopc: usize,
}

impl View for LabExpParams {
    type V = LabExpParamsView;

    open spec fn view(&self) -> LabExpParamsView {
        LabExpParamsView {
            sample_params: self.sample_params@,
            change_batch_loopc: self.change_batch_loopc,
        }
    }
}

impl Clone for LabExpParams {
    fn clone(&self) -> (copy: Self)
        ensures
            copy@ == self@,
    {
        LabExpParams {
            sample_params: self.sample_params.clone(),
            change_batch_loopc: self.change_batch_loopc,
        }
    }
}

/// Number of samples that an experiment with loop count `loopc` produces:
/// the initial round always runs.
pub open spec fn round_count(loopc: usize) -> nat {
    if loopc == 0 {
        1
    } else {
        loopc as nat
    }
}

/// The canonical configuration.
pub open spec fn default_params() -> LabExpParamsView {
    LabExpParamsView {
        sample_params: SampleParamsView {
            input_seeds: seq![0usize],
            generate_params: GenerateParams {
                size: 10,
                gauge: 1,
                nominal_strategy: NominalStrategy::Regular,
            },
            validate_output: true,
            change_batch_size: 1,
        },
        change_batch_loopc: 10,
    }
}

/// Produces the canonical configuration.
pub fn labexp_params_defaults() -> (params: LabExpParams)
    ensures
        params@ == default_params(),
{
    let mut input_seeds: Vec<usize> = Vec::new();
    input_seeds.push(0);
    assert(input_seeds@ =~= seq![0usize]);
    LabExpParams {
        sample_params: SampleParams {
            input_seeds,
            generate_params: GenerateParams {
                size: 10,
                gauge: 1,
                nominal_strategy: NominalStrategy::Regular,
            },
            validate_output: true,
            change_batch_size: 1,
        },
        change_batch_loopc: 10,
    }
}

/// Two canonical configurations agree in every field.
pub proof fn lemma_defaults_agree(first: LabExpParams, second: LabExpParams)
    requires
        first@ == default_params(),
        second@ == default_params(),
    ensures
        first.sample_params.input_seeds@ == second.sample_params.input_seeds@,
        first.sample_params.generate_params.size == second.sample_params.generate_params.size,
        first.sample_params.generate_params.gauge == second.sample_params.generate_params.gauge,
        first.sample_params.generate_params.nominal_strategy
            == second.sample_params.generate_params.nominal_strategy,
        first.sample_params.validate_output == second.sample_params.validate_output,
        first.sample_params.change_batch_size == second.sample_params.change_batch_size,
        first.change_batch_loopc == second.change_batch_loopc,
        first@ == second@,
{
}

} // verus!
