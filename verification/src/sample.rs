//! The sample generator: the state of one experiment, its first round, and
//! the rounds that follow.
//!
//! Both tracks start from generators seeded alike, and each round hands both
//! tracks a copy of the one random source that the state holds. Where the
//! strategies are functions of their arguments, the two tracks therefore hold
//! inputs with one view at every round; [`track`] names that view.
//!
//! An experiment selects engines, so it is started from outside any
//! computation of the engine: see [`crate::engine`]. It measures with the
//! thread's [`Recorder`], which every function here borrows from its caller.

use vstd::prelude::*;
use vstd::std_specs::cmp::PartialEqSpec;
use std::marker::PhantomData;
use adapton::engine::Engine;
use rand::StdRng;
use crate::engine::naive_engine;
use crate::error::{check_engine, strategy_outcome, LabError, Unimplemented};
use crate::metrics::{
    engine_sample_of, get_engine_metrics, EngineSample, EngineSampleView, Recorder,
};
use crate::params::{round_count, GenerateParams, LabExpParams, SampleParams, SampleParamsView};
use crate::random::{rng_from_seeds, seeded_rng};
use crate::strategy::{Compute, Edit, Generate};

verus! {

/// The outcome of one round: what each engine spent, and whether their
/// outputs agreed.
#[derive(Debug)]
pub struct Sample {
    /// The parameters of the experiment that the round belongs to.
    pub params: SampleParams,
    /// Index of the round; the first round has index 0.
    pub batch_name: usize,
    pub dcg_sample: EngineSample,
    pub naive_sample: EngineSample,
    /// Whether the two outputs were equal; `None` when they were not compared.
    pub output_valid: Option<bool>,
}

/// The mathematical value of a [`Sample`].
pub struct SampleView {
    pub params: SampleParamsView,
    pub batch_name: usize,
    pub dcg_sample: EngineSampleView,
    pub naive_sample: EngineSampleView,
    pub output_valid: Option<bool>,
}

impl SampleView {
    /// The sample is one of round `round` of an experiment on `params`: it
    /// carries the parameters and the round's index, and a verdict on the
    /// outputs exactly when the parameters ask for one.
    pub open spec fn recorded_in(self, params: SampleParamsView, round: int) -> bool {
        &&& self.params == params
        &&& self.batch_name == round
        &&& self.output_valid is Some <==> params.validate_output
    }
}

impl View for Sample {
    type V = SampleView;

    open spec fn view(&self) -> SampleView {
        SampleView {
            params: self.params@,
            batch_name: self.batch_name,
            dcg_sample: self.dcg_sample@,
            naive_sample: self.naive_sample@,
            output_valid: self.output_valid,
        }
    }
}

impl Clone for Sample {
    fn clone(&self) -> (copy: Self)
        ensures
            copy@ == self@,
    {
        Sample {
            params: self.params.clone(),
            batch_name: self.batch_name,
            dcg_sample: self.dcg_sample.clone(),
            naive_sample: self.naive_sample.clone(),
            output_valid: self.output_valid,
        }
    }
}

/// One track of an experiment: the engine set aside for it, and its input.
pub struct TestEngineState<
    Input: View,
    Output: View,
    InputDist: Generate<Input> + Edit<Input>,
    Computer: Compute<Input, Output>,
> {
    /// The track's engine while another one is active.
    pub engine: Engine,
    /// The input that the track's next round computes on.
    pub input: Input,
    pub inputdist: PhantomData<InputDist>,
    pub computer: PhantomData<Computer>,
    pub output: PhantomData<Output>,
}

/// The state of one experiment between two rounds.
pub struct TestState<
    Input: View,
    Output: View,
    InputDist: Generate<Input> + Edit<Input>,
    Computer: Compute<Input, Output>,
> {
    pub params: LabExpParams,
    /// The random source that both tracks copy at the next round.
    pub rng: Box<StdRng>,
    /// Index of the next round, which is the number of rounds done.
    pub change_batch_num: usize,
    pub dcg_state: TestEngineState<Input, Output, InputDist, Computer>,
    pub naive_state: TestEngineState<Input, Output, InputDist, Computer>,
    /// The samples of the rounds done.
    pub samples: Vec<Sample>,
}

/// Something that yields samples until it has no more.
pub trait SampleGen {
    fn sample(&mut self, recorder: &mut Recorder) -> Result<Option<Sample>, LabError>;
}

/// A clone of a `T` has the view of the value it was made from.
pub open spec fn clone_keeps_view<T: View + Clone>() -> bool {
    forall|value: T, copy: T| #[trigger] cloned::<T>(value, copy) ==> value@ == copy@
}

/// `==` on `T` is decided as `eq_spec` says, and holds two values with one
/// view equal.
pub open spec fn eq_follows_view<T: View + PartialEq>() -> bool {
    &&& T::obeys_eq_spec()
    &&& forall|first: T, second: T| first@ == second@ ==> #[trigger] first.eq_spec(&second)
}

/// Generation and editing are functions of their arguments, and a clone of
/// an input has the input's view.
pub open spec fn inputs_obey<Input: View + Clone, InputDist: Generate<Input> + Edit<Input>>() -> bool {
    &&& InputDist::obeys_generate_spec()
    &&& InputDist::obeys_edit_spec()
    &&& clone_keeps_view::<Input>()
}

/// The computation is a function of its input, and outputs with one view
/// compare equal.
pub open spec fn outputs_obey<
    Input: View,
    Output: View + PartialEq,
    Computer: Compute<Input, Output>,
>() -> bool {
    &&& Computer::obeys_compute_spec()
    &&& eq_follows_view::<Output>()
}

/// A strategy of the experiment has no implementation.
pub open spec fn strategy_missing<
    Input: View,
    Output: View,
    InputDist: Generate<Input> + Edit<Input>,
    Computer: Compute<Input, Output>,
>() -> bool {
    ||| InputDist::never_generates()
    ||| InputDist::never_edits()
    ||| Computer::never_computes()
}

/// `output` is an answer that the computation gave for `input`.
pub open spec fn computed_from<Input: View, Output: View, Computer: Compute<Input, Output>>(
    input: Input,
    output: Output,
) -> bool {
    call_ensures(Computer::compute, (input,), Ok::<Output, Unimplemented>(output))
}

/// In a one-track round that was handed `input` and drew from `rng`, the
/// computation received `given` and answered `output`: where an input was
/// handed in, `given` is a clone of it, and where generation and editing
/// obey, it has the view of [`round_input`].
pub open spec fn round_computed<
    Input: View + Clone,
    Output: View,
    InputDist: Generate<Input> + Edit<Input>,
    Computer: Compute<Input, Output>,
>(given: Input, output: Output, input: Option<Input>, rng: StdRng, params: GenerateParams) -> bool {
    &&& computed_from::<Input, Output, Computer>(given, output)
    &&& input matches Some(handed) ==> cloned::<Input>(handed, given)
    &&& inputs_obey::<Input, InputDist>() ==> given@ == round_input::<Input, InputDist>(
        input,
        rng,
        params,
    )
}

/// `copy` is a clone of a clone of `value`.
pub open spec fn recloned<T: Clone>(value: T, copy: T) -> bool {
    exists|between: T| #[trigger] cloned::<T>(value, between) && cloned::<T>(between, copy)
}

/// `verdict` is the verdict on two answers of the computation, the first
/// for `first_given` and the second for `second_given`: with validation on,
/// it tells whether `==` holds the first answer equal to the second.
pub open spec fn judged<Input: View, Output: View + PartialEq, Computer: Compute<Input, Output>>(
    first_given: Input,
    second_given: Input,
    validate: bool,
    verdict: Option<bool>,
) -> bool {
    exists|first: Output, second: Output|
        {
            &&& #[trigger] computed_from::<Input, Output, Computer>(first_given, first)
            &&& #[trigger] computed_from::<Input, Output, Computer>(second_given, second)
            &&& validate && Output::obeys_eq_spec() ==> verdict == Some(first.eq_spec(&second))
        }
}

/// The view of the input that a round computes on: the one handed in, or
/// else the one generated from a copy of the random source.
pub open spec fn round_input<Input: View, InputDist: Generate<Input>>(
    input: Option<Input>,
    rng: StdRng,
    params: GenerateParams,
) -> Input::V {
    match input {
        Some(input) => input@,
        None => InputDist::generate_spec(rng, params).0,
    }
}

/// The view of the input that both tracks compute on in round `round`, and
/// the random source that the round's edit draws from.
///
/// Round 0 computes on the generated input; its edit draws from the seeded
/// source, which generation used a copy of. Every later round computes on
/// what the edit before it produced, and draws from the source as that edit
/// left it.
pub open spec fn track<Input: View, InputDist: Generate<Input> + Edit<Input>>(
    seeds: Seq<usize>,
    params: GenerateParams,
    round: nat,
) -> (Input::V, StdRng)
    decreases round,
{
    if round == 0 {
        (InputDist::generate_spec(seeded_rng(seeds), params).0, seeded_rng(seeds))
    } else {
        let before = track::<Input, InputDist>(seeds, params, (round - 1) as nat);
        InputDist::edit_spec(before.0, before.1, params)
    }
}

/// Every sample of `samples` is the one of its round, in order.
pub open spec fn samples_recorded(samples: Seq<Sample>, params: SampleParamsView) -> bool {
    forall|i: int| 0 <= i < samples.len() ==> (#[trigger] samples[i])@.recorded_in(params, i)
}

/// Every sample of `samples` found the two outputs equal.
pub open spec fn samples_valid(samples: Seq<Sample>) -> bool {
    forall|i: int| 0 <= i < samples.len() ==> (#[trigger] samples[i]).output_valid == Some(true)
}

/// The verdict of a round on its two outputs: none when validation is off,
/// else whether `==` holds them equal.
pub fn output_validity<Output: PartialEq>(validate: bool, first: &Output, second: &Output) -> (verdict:
    Option<bool>)
    ensures
        verdict is Some <==> validate,
        validate && Output::obeys_eq_spec() ==> verdict == Some(first.eq_spec(second)),
{
    if validate {
        Some(first == second)
    } else {
        None
    }
}

/// Puts the sample of round `round` together.
pub fn assemble_sample(
    params: &SampleParams,
    round: usize,
    dcg_sample: EngineSample,
    naive_sample: EngineSample,
    output_valid: Option<bool>,
) -> (sample: Sample)
    ensures
        sample.params@ == params@,
        sample.batch_name == round,
        sample.dcg_sample == dcg_sample,
        sample.naive_sample == naive_sample,
        sample.output_valid == output_valid,
{
    Sample { params: params.clone(), batch_name: round, dcg_sample, naive_sample, output_valid }
}

/// Runs the three phases of one round on one track, under the engine that is
/// active: takes or generates the input, computes the output from a clone of
/// it, and applies one batch of edits to it. Each phase is measured on its
/// own, and [`engine_sample_of`] puts the three measurements together.
///
/// Generation draws from a copy of `rng`; the edit draws from `rng` itself.
/// Returns the output, the edited input and the three measurements, or
/// `StrategyUnimplemented` when a strategy gave no answer.
pub fn get_engine_sample<
    Input: View + Clone,
    Output: View,
    InputDist: Generate<Input> + Edit<Input>,
    Computer: Compute<Input, Output>,
>(recorder: &mut Recorder, rng: &mut StdRng, params: &SampleParams, input: Option<Input>) -> (r:
    Result<(Output, Input, EngineSample), LabError>)
    ensures
        match r {
            Ok((output, edited, _)) => {
                let start = round_input::<Input, InputDist>(
                    input,
                    *old(rng),
                    params.generate_params,
                );
                &&& inputs_obey::<Input, InputDist>() ==> (edited@, *final(rng))
                    == InputDist::edit_spec(start, *old(rng), params.generate_params)
                &&& inputs_obey::<Input, InputDist>() && Computer::obeys_compute_spec() ==> output@
                    == Computer::compute_spec(start)
                &&& exists|given: Input| #[trigger]
                    round_computed::<Input, Output, InputDist, Computer>(
                        given,
                        output,
                        input,
                        *old(rng),
                        params.generate_params,
                    )
            },
            Err(e) => e == LabError::StrategyUnimplemented && *final(rng) == *old(rng),
        },
        input is None && InputDist::never_generates() ==> r is Err,
        InputDist::never_edits() || Computer::never_computes() ==> r is Err,
{
    let gp = params.generate_params;
    let rng0: StdRng = *rng;
    let ghost handed_in = input;
    let (generated, generate_input) = match input {
        None => {
            let generate = move || -> (g: Result<Input, Unimplemented>)
                ensures
                    InputDist::obeys_generate_spec() ==> (g matches Ok(i) ==> i@
                        == InputDist::generate_spec(rng0, gp).0),
                    InputDist::never_generates() ==> g is Err,
                {
                    let mut rng2 = rng0;
                    InputDist::generate(&mut rng2, &gp)
                };
            get_engine_metrics(recorder, generate)
        },
        Some(given) => {
            let hand_over = move || -> (g: Result<Input, Unimplemented>)
                ensures
                    g == Ok::<Input, Unimplemented>(given),
                {
                    Ok(given)
                };
            get_engine_metrics(recorder, hand_over)
        },
    };
    let input = strategy_outcome(generated)?;
    let input2 = input.clone();
    assert(cloned::<Input>(input, input2));
    let compute = move || -> (c: Result<Output, Unimplemented>)
        ensures
            Computer::obeys_compute_spec() ==> (c matches Ok(o) ==> o@ == Computer::compute_spec(
                input2@,
            )),
            Computer::never_computes() ==> c is Err,
            call_ensures(Computer::compute, (input2,), c),
        {
            let compute = Computer::compute;
            compute(input2)
        };
    let (computed, compute_output) = get_engine_metrics(recorder, compute);
    let output = strategy_outcome(computed)?;
    assert(computed_from::<Input, Output, Computer>(input2, output));
    assert(handed_in matches Some(handed) ==> cloned::<Input>(handed, input2));
    assert(inputs_obey::<Input, InputDist>() ==> input2@ == round_input::<Input, InputDist>(
        handed_in,
        rng0,
        gp,
    ));
    let edit = move || -> (e: (Result<Input, Unimplemented>, StdRng))
        ensures
            InputDist::obeys_edit_spec() ==> (e.0 matches Ok(i) ==> (i@, e.1)
                == InputDist::edit_spec(input@, rng0, gp)),
            InputDist::never_edits() ==> e.0 is Err,
        {
            let mut rng3 = rng0;
            let answer = InputDist::edit(input, &mut rng3, &gp);
            (answer, rng3)
        };
    let (edited, batch_edit_input) = get_engine_metrics(recorder, edit);
    let input3 = strategy_outcome(edited.0)?;
    *rng = edited.1;
    let engine_sample = engine_sample_of(generate_input, compute_output, batch_edit_input);
    let r: Result<(Output, Input, EngineSample), LabError> = Ok((output, input3, engine_sample));
    assert(round_computed::<Input, Output, InputDist, Computer>(
        input2,
        r->Ok_0.0,
        handed_in,
        rng0,
        gp,
    ));
    r
}

impl<
    Input: View + Clone,
    Output: View + Eq,
    InputDist: Generate<Input> + Edit<Input>,
    Computer: Compute<Input, Output>,
> TestState<Input, Output, InputDist, Computer> {
    /// The state is one that an experiment on `self.params` is in after
    /// `self.change_batch_num` rounds.
    ///
    /// There is one sample for each round done, each the one of its round.
    /// Where generation and editing obey, both tracks hold an input with the
    /// view of [`track`] for the next round, and the state holds the random
    /// source of [`track`]. Where the computation obeys too and outputs are
    /// compared, every sample found the outputs equal.
    pub open spec fn wf(&self) -> bool {
        let sample_params = self.params@.sample_params;
        let next = track::<Input, InputDist>(
            sample_params.input_seeds,
            sample_params.generate_params,
            self.change_batch_num as nat,
        );
        &&& 1 <= self.change_batch_num <= round_count(self.params.change_batch_loopc)
        &&& self.samples@.len() == self.change_batch_num
        &&& samples_recorded(self.samples@, sample_params)
        &&& inputs_obey::<Input, InputDist>() ==> {
            &&& self.naive_state.input@ == next.0
            &&& self.dcg_state.input@ == next.0
            &&& *self.rng == next.1
        }
        &&& inputs_obey::<Input, InputDist>() && outputs_obey::<Input, Output, Computer>()
            && sample_params.validate_output ==> samples_valid(self.samples@)
    }

    /// No round is left: the next round's index has reached the loop count.
    pub open spec fn finished(&self) -> bool {
        self.change_batch_num >= self.params.change_batch_loopc
    }
}

/// The state that the first round leaves, from what its two runs returned.
///
/// `naive_run` and `dcg_run` are the output, the edited input and the
/// measurements of the round on each track, `rng` is the random source as the
/// naive run left it, and `dcg` is the incremental engine, set aside. The
/// state holds the two edited inputs and the one sample of round 0, whose
/// verdict compares the naive output with the incremental one.
pub fn initial_state<
    Input: View + Clone,
    Output: View + Eq,
    InputDist: Generate<Input> + Edit<Input>,
    Computer: Compute<Input, Output>,
>(
    params: &LabExpParams,
    rng: StdRng,
    naive_run: (Output, Input, EngineSample),
    dcg_run: (Output, Input, EngineSample),
    dcg: Engine,
) -> (state: TestState<Input, Output, InputDist, Computer>)
    ensures
        state.params@ == params@,
        *state.rng == rng,
        state.change_batch_num == 1,
        state.naive_state.input == naive_run.1,
        state.dcg_state.input == dcg_run.1,
        state.dcg_state.engine == dcg,
        state.samples@.len() == 1,
        state.samples@[0].params@ == params@.sample_params,
        state.samples@[0].batch_name == 0,
        state.samples@[0].naive_sample == naive_run.2,
        state.samples@[0].dcg_sample == dcg_run.2,
        state.samples@[0].output_valid is Some <==> params.sample_params.validate_output,
        params.sample_params.validate_output && Output::obeys_eq_spec()
            ==> state.samples@[0].output_valid == Some(naive_run.0.eq_spec(&dcg_run.0)),
{
    let (naive_output, naive_input, naive_sample) = naive_run;
    let (dcg_output, dcg_input, dcg_sample) = dcg_run;
    let output_valid = output_validity(
        params.sample_params.validate_output,
        &naive_output,
        &dcg_output,
    );
    let sample = assemble_sample(&params.sample_params, 0, dcg_sample, naive_sample, output_valid);
    let mut samples: Vec<Sample> = Vec::new();
    samples.push(sample);
    TestState {
        params: params.clone(),
        rng: Box::new(rng),
        dcg_state: TestEngineState {
            input: dcg_input,
            engine: dcg,
            output: PhantomData,
            inputdist: PhantomData,
            computer: PhantomData,
        },
        naive_state: TestEngineState {
            input: naive_input,
            engine: naive_engine(),
            output: PhantomData,
            inputdist: PhantomData,
            computer: PhantomData,
        },
        change_batch_num: 1,
        samples,
    }
}

/// Starts an experiment and runs its first round.
///
/// Two random sources are seeded alike, one for each track. The naive engine
/// is selected and the round is run on the first source; a fresh incremental
/// engine is selected and the round is run on the second. The incremental
/// engine is then set aside, which leaves a naive one active. The state
/// returned is the [`initial_state`] of the two runs: it holds the edited
/// inputs, the first source as the edit left it, and the sample of round 0.
///
/// The computation receives one generated input on each track; where
/// generation and editing obey, the two have one view, that of [`track`] at
/// round 0. The first sample's verdict is [`judged`] on the answer for the
/// naive track's input and the answer for the incremental track's.
///
/// Fails with `EngineMismatch` when an engine selected is not the one found
/// active, and with `StrategyUnimplemented` when a strategy gave no answer,
/// as every strategy without an implementation does. Whether an engine is
/// found active is the engine library's answer, and whether a strategy
/// answers is the strategy's.
pub fn get_sample_gen<
    Input: View + Clone,
    Output: View + Eq,
    InputDist: Generate<Input> + Edit<Input>,
    Computer: Compute<Input, Output>,
>(params: &LabExpParams, recorder: &mut Recorder) -> (r: Result<
    TestState<Input, Output, InputDist, Computer>,
    LabError,
>)
    ensures
        r matches Ok(state) ==> {
            &&& state.wf()
            &&& state.params@ == params@
            &&& state.change_batch_num == 1
            &&& exists|naive_given: Input, dcg_given: Input|
                {
                    &&& #[trigger] judged::<Input, Output, Computer>(
                        naive_given,
                        dcg_given,
                        params.sample_params.validate_output,
                        state.samples@[0].output_valid,
                    )
                    &&& inputs_obey::<Input, InputDist>() ==> {
                        &&& naive_given@ == track::<Input, InputDist>(
                            params@.sample_params.input_seeds,
                            params.sample_params.generate_params,
                            0,
                        ).0
                        &&& dcg_given@ == naive_given@
                    }
                }
        },
        strategy_missing::<Input, Output, InputDist, Computer>() ==> r is Err,
{
    let mut rng1 = rng_from_seeds(&params.sample_params.input_seeds);
    let mut rng2 = rng_from_seeds(&params.sample_params.input_seeds);
    let ghost seeded = rng1;

    let _ = adapton::engine::manage::init_naive();
    check_engine(adapton::engine::manage::engine_is_naive())?;
    let naive_run = get_engine_sample::<Input, Output, InputDist, Computer>(
        recorder,
        &mut rng1,
        &params.sample_params,
        None,
    )?;

    let _ = adapton::engine::manage::init_dcg();
    let incremental = adapton::engine::manage::engine_is_dcg();
    let dcg_run = if incremental {
        get_engine_sample::<Input, Output, InputDist, Computer>(
            recorder,
            &mut rng2,
            &params.sample_params,
            None,
        )
    } else {
        Err(LabError::EngineMismatch)
    };
    let dcg = adapton::engine::manage::use_engine(naive_engine());
    let dcg_run = dcg_run?;

    let state = initial_state::<Input, Output, InputDist, Computer>(
        params,
        rng1,
        naive_run,
        dcg_run,
        dcg,
    );
    proof {
        let sp = params@.sample_params;
        reveal_with_fuel(track, 2);
        assert(track::<Input, InputDist>(sp.input_seeds, sp.generate_params, 1)
            == InputDist::edit_spec(
            InputDist::generate_spec(seeded, sp.generate_params).0,
            seeded,
            sp.generate_params,
        ));
        if inputs_obey::<Input, InputDist>() && outputs_obey::<Input, Output, Computer>()
            && sp.validate_output {
            assert(naive_run.0@ == dcg_run.0@);
            assert(naive_run.0.eq_spec(&dcg_run.0));
        }
        let naive_given = choose|given: Input|
            round_computed::<Input, Output, InputDist, Computer>(
                given,
                naive_run.0,
                None,
                seeded,
                sp.generate_params,
            );
        let dcg_given = choose|given: Input|
            round_computed::<Input, Output, InputDist, Computer>(
                given,
                dcg_run.0,
                None,
                seeded,
                sp.generate_params,
            );
        assert(computed_from::<Input, Output, Computer>(naive_given, naive_run.0));
        assert(computed_from::<Input, Output, Computer>(dcg_given, dcg_run.0));
        assert(judged::<Input, Output, Computer>(
            naive_given,
            dcg_given,
            sp.validate_output,
            state.samples@[0].output_valid,
        ));
    }
    Ok(state)
}

/// Makes the step from one round to the next, from what the round's two
/// runs returned.
///
/// `naive_run` and `dcg_run` are the output, the edited input and the
/// measurements of the round on each track, and `rng` is the random source
/// as the incremental run left it. The state takes the two edited inputs and
/// the source, counts the round, and gets the round's sample appended, whose
/// verdict compares the incremental output with the naive one. A copy of
/// that sample is returned.
pub fn next_state<
    Input: View + Clone,
    Output: View + Eq,
    InputDist: Generate<Input> + Edit<Input>,
    Computer: Compute<Input, Output>,
>(
    state: &mut TestState<Input, Output, InputDist, Computer>,
    rng: StdRng,
    naive_run: (Output, Input, EngineSample),
    dcg_run: (Output, Input, EngineSample),
) -> (sample: Sample)
    requires
        old(state).change_batch_num < old(state).params.change_batch_loopc,
    ensures
        final(state).params == old(state).params,
        final(state).naive_state.engine == old(state).naive_state.engine,
        final(state).dcg_state.engine == old(state).dcg_state.engine,
        final(state).change_batch_num == old(state).change_batch_num + 1,
        *final(state).rng == rng,
        final(state).naive_state.input == naive_run.1,
        final(state).dcg_state.input == dcg_run.1,
        final(state).samples@.len() == old(state).samples@.len() + 1,
        final(state).samples@.drop_last() == old(state).samples@,
        final(state).samples@.last().naive_sample == naive_run.2,
        final(state).samples@.last().dcg_sample == dcg_run.2,
        final(state).samples@.last()@ == sample@,
        sample.batch_name == old(state).change_batch_num,
        sample.params@ == old(state).params@.sample_params,
        sample.output_valid is Some <==> old(state).params.sample_params.validate_output,
        old(state).params.sample_params.validate_output && Output::obeys_eq_spec()
            ==> sample.output_valid == Some(dcg_run.0.eq_spec(&naive_run.0)),
{
    let round = state.change_batch_num;
    let ghost before = state.samples@;
    let (naive_output, naive_input, naive_sample) = naive_run;
    let (dcg_output, dcg_input, dcg_sample) = dcg_run;
    let output_valid = output_validity(
        state.params.sample_params.validate_output,
        &dcg_output,
        &naive_output,
    );
    let sample = assemble_sample(
        &state.params.sample_params,
        round,
        dcg_sample,
        naive_sample,
        output_valid,
    );
    let copy = sample.clone();
    state.naive_state.input = naive_input;
    state.dcg_state.input = dcg_input;
    state.rng = Box::new(rng);
    state.samples.push(sample);
    state.change_batch_num = round + 1;
    assert(state.samples@.drop_last() =~= before);
    copy
}

impl<
    Input: View + Clone,
    Output: View + Eq,
    InputDist: Generate<Input> + Edit<Input>,
    Computer: Compute<Input, Output>,
> SampleGen for TestState<Input, Output, InputDist, Computer> {
    /// Runs the next round, if one is left.
    ///
    /// With no round left the answer is `Ok(None)` and the state stays as it
    /// is. Otherwise the naive engine is selected and the round is run on the
    /// naive track's input; the incremental engine is taken from the state,
    /// selected, run on its track's input, and set aside again. Both runs
    /// draw from a copy of the state's random source. The state then makes
    /// the step of [`next_state`] with what the two runs returned and the
    /// source as the second run left it, and the round's sample is returned.
    ///
    /// On each track the computation receives a clone of a clone of the
    /// track's input, and the sample's verdict is [`judged`] on the answer
    /// for the incremental track and the answer for the naive one.
    ///
    /// When the round fails, nothing but the engine set aside has changed.
    fn sample(&mut self, recorder: &mut Recorder) -> (r: Result<Option<Sample>, LabError>)
        ensures
            final(self).params == old(self).params,
            old(self).finished() <==> r == Ok::<Option<Sample>, LabError>(None),
            old(self).wf() ==> final(self).wf(),
            match r {
                Ok(None) => *final(self) == *old(self),
                Ok(Some(sample)) => {
                    &&& final(self).change_batch_num == old(self).change_batch_num + 1
                    &&& final(self).samples@.len() == old(self).samples@.len() + 1
                    &&& final(self).samples@.drop_last() == old(self).samples@
                    &&& final(self).samples@.last()@ == sample@
                    &&& sample@.recorded_in(
                        old(self).params@.sample_params,
                        old(self).change_batch_num as int,
                    )
                    &&& exists|naive_given: Input, dcg_given: Input|
                        {
                            &&& #[trigger] judged::<Input, Output, Computer>(
                                dcg_given,
                                naive_given,
                                old(self).params.sample_params.validate_output,
                                sample.output_valid,
                            )
                            &&& recloned::<Input>(old(self).naive_state.input, naive_given)
                            &&& recloned::<Input>(old(self).dcg_state.input, dcg_given)
                        }
                },
                Err(_) => {
                    &&& final(self).change_batch_num == old(self).change_batch_num
                    &&& final(self).samples == old(self).samples
                    &&& final(self).rng == old(self).rng
                    &&& final(self).naive_state == old(self).naive_state
                    &&& final(self).dcg_state.input == old(self).dcg_state.input
                },
            },
    {
        if self.change_batch_num >= self.params.change_batch_loopc {
            return Ok(None);
        }
        let ghost round = self.change_batch_num;
        let ghost before = *self;
        let ghost sp = self.params@.sample_params;

        let _ = adapton::engine::manage::use_engine(naive_engine());
        check_engine(adapton::engine::manage::engine_is_naive())?;
        let mut rng: StdRng = *self.rng;
        let naive_given = self.naive_state.input.clone();
        let ghost naive_given_in = naive_given;
        assert(cloned::<Input>(self.naive_state.input, naive_given));
        let naive_run = get_engine_sample::<Input, Output, InputDist, Computer>(
            recorder,
            &mut rng,
            &self.params.sample_params,
            Some(naive_given),
        )?;

        let mut dcg = naive_engine();
        std::mem::swap(&mut self.dcg_state.engine, &mut dcg);
        let _ = adapton::engine::manage::use_engine(dcg);
        let incremental = adapton::engine::manage::engine_is_dcg();
        let mut rng: StdRng = *self.rng;
        let dcg_given = self.dcg_state.input.clone();
        let ghost dcg_given_in = dcg_given;
        assert(cloned::<Input>(self.dcg_state.input, dcg_given));
        let dcg_run = if incremental {
            get_engine_sample::<Input, Output, InputDist, Computer>(
                recorder,
                &mut rng,
                &self.params.sample_params,
                Some(dcg_given),
            )
        } else {
            Err(LabError::EngineMismatch)
        };
        self.dcg_state.engine = adapton::engine::manage::use_engine(naive_engine());
        let dcg_run = dcg_run?;

        let ghost naive_handed = self.naive_state.input;
        let ghost dcg_handed = self.dcg_state.input;
        let ghost source = *self.rng;
        let sample = next_state(self, rng, naive_run, dcg_run);
        proof {
            let naive_given = choose|given: Input|
                round_computed::<Input, Output, InputDist, Computer>(
                    given,
                    naive_run.0,
                    Some(naive_given_in),
                    source,
                    sp.generate_params,
                );
            let dcg_given = choose|given: Input|
                round_computed::<Input, Output, InputDist, Computer>(
                    given,
                    dcg_run.0,
                    Some(dcg_given_in),
                    source,
                    sp.generate_params,
                );
            assert(computed_from::<Input, Output, Computer>(naive_given, naive_run.0));
            assert(computed_from::<Input, Output, Computer>(dcg_given, dcg_run.0));
            assert(judged::<Input, Output, Computer>(
                dcg_given,
                naive_given,
                sp.validate_output,
                sample.output_valid,
            ));
            assert(cloned::<Input>(naive_handed, naive_given_in) && cloned::<Input>(
                naive_given_in,
                naive_given,
            ));
            assert(recloned::<Input>(naive_handed, naive_given));
            assert(cloned::<Input>(dcg_handed, dcg_given_in) && cloned::<Input>(
                dcg_given_in,
                dcg_given,
            ));
            assert(recloned::<Input>(dcg_handed, dcg_given));
            if before.wf() {
                assert forall|i: int| 0 <= i < self.samples@.len() implies (
                #[trigger] self.samples@[i])@.recorded_in(sp, i) by {
                    if i < before.samples@.len() {
                        assert(self.samples@[i] == self.samples@.drop_last()[i]);
                    }
                }
            }
            assert(track::<Input, InputDist>(
                sp.input_seeds,
                sp.generate_params,
                (round + 1) as nat,
            ) == InputDist::edit_spec(
                track::<Input, InputDist>(sp.input_seeds, sp.generate_params, round as nat).0,
                track::<Input, InputDist>(sp.input_seeds, sp.generate_params, round as nat).1,
                sp.generate_params,
            ));
            if before.wf() && inputs_obey::<Input, InputDist>() && outputs_obey::<
                Input,
                Output,
                Computer,
            >() && sp.validate_output {
                assert(dcg_run.0@ == naive_run.0@);
                assert(dcg_run.0.eq_spec(&naive_run.0));
                assert forall|i: int| 0 <= i < self.samples@.len() implies (
                #[trigger] self.samples@[i]).output_valid == Some(true) by {
                    if i < before.samples@.len() {
                        assert(self.samples@[i] == self.samples@.drop_last()[i]);
                    }
                }
            }
        }
        Ok(Some(sample))
    }
}

/// Two experiments on the same seeds and generation parameters hold, after
/// the same number of rounds, inputs with the same views and the same random
/// source, provided that generation and editing are functions of their
/// arguments.
pub proof fn lemma_runs_agree<
    Input: View + Clone,
    Output: View + Eq,
    InputDist: Generate<Input> + Edit<Input>,
    Computer: Compute<Input, Output>,
>(
    first: TestState<Input, Output, InputDist, Computer>,
    second: TestState<Input, Output, InputDist, Computer>,
)
    requires
        first.wf(),
        second.wf(),
        inputs_obey::<Input, InputDist>(),
        first.params@.sample_params.input_seeds == second.params@.sample_params.input_seeds,
        first.params.sample_params.generate_params == second.params.sample_params.generate_params,
        first.change_batch_num == second.change_batch_num,
    ensures
        first.naive_state.input@ == second.naive_state.input@,
        first.dcg_state.input@ == second.dcg_state.input@,
        *first.rng == *second.rng,
{
}

/// Between two rounds the naive track and the incremental track hold inputs
/// with the same view, provided that generation and editing are functions of
/// their arguments.
pub proof fn lemma_tracks_agree<
    Input: View + Clone,
    Output: View + Eq,
    InputDist: Generate<Input> + Edit<Input>,
    Computer: Compute<Input, Output>,
>(state: TestState<Input, Output, InputDist, Computer>)
    requires
        state.wf(),
        inputs_obey::<Input, InputDist>(),
    ensures
        state.naive_state.input@ == state.dcg_state.input@,
{
}

/// With validation on, every sample of an experiment found the two outputs
/// equal, provided that the strategies are functions of their arguments.
pub proof fn lemma_pure_outputs_valid<
    Input: View + Clone,
    Output: View + Eq,
    InputDist: Generate<Input> + Edit<Input>,
    Computer: Compute<Input, Output>,
>(state: TestState<Input, Output, InputDist, Computer>, round: int)
    requires
        state.wf(),
        inputs_obey::<Input, InputDist>(),
        outputs_obey::<Input, Output, Computer>(),
        state.params.sample_params.validate_output,
        0 <= round < state.samples@.len(),
    ensures
        state.samples@[round].output_valid == Some(true),
{
}

} // verus!
