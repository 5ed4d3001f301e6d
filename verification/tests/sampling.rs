use adapton_lab::metrics::Recorder;
use adapton_lab::error::{LabError, Unimplemented};
use adapton_lab::experiment::{LabExp, TestComputer};
use adapton_lab::metrics::phase_metrics;
use adapton_lab::metrics::EngineSample;
use adapton_lab::params::{labexp_params_defaults, GenerateParams, LabExpParams, SampleParams};
use adapton_lab::sample::{
    assemble_sample, get_engine_sample, get_sample_gen, initial_state, next_state,
    output_validity, SampleGen, TestState,
};
use adapton_lab::strategy::{Compute, Edit, Generate};
use rand::{Rng, SeedableRng, StdRng};

/// Integers below a thousand; an edit prepends one more.
#[derive(Clone)]
struct Uniform;

impl Generate<Vec<usize>> for Uniform {
    fn generate(rng: &mut StdRng, params: &GenerateParams) -> Result<Vec<usize>, Unimplemented> {
        let mut input = Vec::new();
        for _ in 0..params.size {
            input.push((rng.next_u64() % 1000) as usize);
        }
        Ok(input)
    }
}

impl Edit<Vec<usize>> for Uniform {
    fn edit(
        state: Vec<usize>,
        rng: &mut StdRng,
        _params: &GenerateParams,
    ) -> Result<Vec<usize>, Unimplemented> {
        let mut edited = state;
        edited.insert(0, (rng.next_u64() % 1000) as usize);
        Ok(edited)
    }
}

/// Hands its input back.
struct Identity;

impl Compute<Vec<usize>, Vec<usize>> for Identity {
    fn compute(input: Vec<usize>) -> Result<Vec<usize>, Unimplemented> {
        Ok(input)
    }
}

/// Not a function of its input: the answer depends on the engine.
struct EngineDependent;

impl Compute<Vec<usize>, Vec<usize>> for EngineDependent {
    fn compute(input: Vec<usize>) -> Result<Vec<usize>, Unimplemented> {
        if adapton::engine::manage::engine_is_naive() {
            Ok(input)
        } else {
            let mut output = input;
            output.push(1000);
            Ok(output)
        }
    }
}

/// Generates, but cannot edit.
#[derive(Clone)]
struct Frozen;

impl Generate<Vec<usize>> for Frozen {
    fn generate(_rng: &mut StdRng, _params: &GenerateParams) -> Result<Vec<usize>, Unimplemented> {
        Ok(vec![1, 2, 3])
    }
}

impl Edit<Vec<usize>> for Frozen {
    fn edit(
        _state: Vec<usize>,
        _rng: &mut StdRng,
        _params: &GenerateParams,
    ) -> Result<Vec<usize>, Unimplemented> {
        Err(Unimplemented)
    }
}

type Trivial = TestState<Vec<usize>, Vec<usize>, Uniform, Identity>;

fn scenario(validate_output: bool, change_batch_loopc: usize) -> LabExpParams {
    let mut params = labexp_params_defaults();
    params.sample_params.validate_output = validate_output;
    params.change_batch_loopc = change_batch_loopc;
    params
}

fn start(params: &LabExpParams, recorder: &mut Recorder) -> Trivial {
    get_sample_gen::<Vec<usize>, Vec<usize>, Uniform, Identity>(params, recorder).unwrap()
}

fn rng_from_seeds(seeds: &Vec<usize>) -> StdRng {
    StdRng::from_seed(seeds.as_slice())
}

fn draws(rng: &StdRng) -> Vec<u64> {
    let mut copy = *rng;
    vec![copy.next_u64(), copy.next_u64(), copy.next_u64()]
}

fn empty_sample() -> EngineSample {
    EngineSample {
        generate_input: phase_metrics(0, 1, Vec::new()),
        compute_output: phase_metrics(0, 2, Vec::new()),
        batch_edit_input: phase_metrics(0, 3, Vec::new()),
    }
}

#[test]
fn three_rounds_of_the_identity_are_all_valid() {
    let mut recorder = Recorder::default();
    let params = scenario(true, 3);
    let experiment =
        TestComputer::<Vec<usize>, Vec<usize>, Uniform, Identity>::new(
            adapton::engine::name_of_str("identity"),
        );
    let results = experiment.run(&params, &mut recorder).unwrap();
    assert_eq!(results.samples.len(), 3);
    for (round, sample) in results.samples.iter().enumerate() {
        assert_eq!(sample.output_valid, Some(true));
        assert_eq!(sample.batch_name, round);
        assert_eq!(sample.params, params.sample_params);
    }
}

#[test]
fn without_validation_no_sample_has_a_verdict() {
    let mut recorder = Recorder::default();
    let params = scenario(false, 3);
    let experiment =
        TestComputer::<Vec<usize>, Vec<usize>, Uniform, Identity>::new(
            adapton::engine::name_of_str("identity"),
        );
    let results = experiment.run(&params, &mut recorder).unwrap();
    assert_eq!(results.samples.len(), 3);
    for (round, sample) in results.samples.iter().enumerate() {
        assert_eq!(sample.output_valid, None);
        assert_eq!(sample.batch_name, round);
    }
}

#[test]
fn a_loop_count_of_one_gives_the_initial_round_only() {
    let mut recorder = Recorder::default();
    let params = scenario(true, 1);
    let mut state = start(&params, &mut recorder);
    assert_eq!(state.samples.len(), 1);
    assert_eq!(state.samples[0].batch_name, 0);
    assert_eq!(state.change_batch_num, 1);
    let input = state.naive_state.input.clone();
    for _ in 0..3 {
        assert!(matches!(state.sample(&mut recorder), Ok(None)));
        assert_eq!(state.samples.len(), 1);
        assert_eq!(state.change_batch_num, 1);
        assert_eq!(state.naive_state.input, input);
    }
}

#[test]
fn a_loop_count_of_zero_still_runs_the_initial_round() {
    let mut recorder = Recorder::default();
    let params = scenario(true, 0);
    let mut state = start(&params, &mut recorder);
    assert_eq!(state.samples.len(), 1);
    assert!(matches!(state.sample(&mut recorder), Ok(None)));
    let experiment =
        TestComputer::<Vec<usize>, Vec<usize>, Uniform, Identity>::new(
            adapton::engine::name_of_str("identity"),
        );
    assert_eq!(experiment.run(&params, &mut recorder).unwrap().samples.len(), 1);
}

#[test]
fn a_run_gives_as_many_samples_as_the_loop_count() {
    let mut recorder = Recorder::default();
    let experiment =
        TestComputer::<Vec<usize>, Vec<usize>, Uniform, Identity>::new(
            adapton::engine::name_of_str("identity"),
        );
    for loopc in 1..6 {
        let results = experiment.run(&scenario(true, loopc), &mut recorder).unwrap();
        assert_eq!(results.samples.len(), loopc);
    }
    let results = experiment.run(&labexp_params_defaults(), &mut recorder).unwrap();
    assert_eq!(results.samples.len(), 10);
}

#[test]
fn each_round_yields_the_sample_that_it_appends() {
    let mut recorder = Recorder::default();
    let params = scenario(true, 4);
    let mut state = start(&params, &mut recorder);
    for round in 1..4 {
        let sample = state.sample(&mut recorder).unwrap().unwrap();
        assert_eq!(sample.batch_name, round);
        assert_eq!(sample.output_valid, Some(true));
        assert_eq!(sample.params, params.sample_params);
        assert_eq!(state.change_batch_num, round + 1);
        assert_eq!(state.samples.len(), round + 1);
        let last = state.samples.last().unwrap();
        assert_eq!(last.batch_name, sample.batch_name);
        assert_eq!(last.output_valid, sample.output_valid);
        assert_eq!(
            last.naive_sample.compute_output.time_ns,
            sample.naive_sample.compute_output.time_ns
        );
    }
    assert!(matches!(state.sample(&mut recorder), Ok(None)));
    assert!(matches!(state.sample(&mut recorder), Ok(None)));
    assert_eq!(state.samples.len(), 4);
}

#[test]
fn two_runs_from_the_same_seeds_hold_the_same_inputs() {
    let mut recorder = Recorder::default();
    let params = scenario(true, 5);
    let mut first = start(&params, &mut recorder);
    let mut second = start(&params, &mut recorder);
    for _ in 0..5 {
        assert_eq!(first.naive_state.input, second.naive_state.input);
        assert_eq!(first.dcg_state.input, second.dcg_state.input);
        assert_eq!(draws(&first.rng), draws(&second.rng));
        let _ = first.sample(&mut recorder).unwrap();
        let _ = second.sample(&mut recorder).unwrap();
    }
}

#[test]
fn both_tracks_hold_the_same_input_at_every_round() {
    let mut recorder = Recorder::default();
    let params = scenario(true, 5);
    let mut state = start(&params, &mut recorder);
    assert_eq!(state.naive_state.input.len(), 11);
    for round in 1..5 {
        assert_eq!(state.naive_state.input, state.dcg_state.input);
        assert!(state.sample(&mut recorder).unwrap().is_some());
        assert_eq!(state.naive_state.input.len(), 11 + round);
    }
    assert_eq!(state.naive_state.input, state.dcg_state.input);
}

#[test]
fn the_first_round_generates_and_edits_from_the_seeded_source() {
    let mut recorder = Recorder::default();
    let params = scenario(true, 2);
    let state = start(&params, &mut recorder);
    let gp = params.sample_params.generate_params;
    let mut for_generation = rng_from_seeds(&params.sample_params.input_seeds);
    let mut for_edit = rng_from_seeds(&params.sample_params.input_seeds);
    let generated = Uniform::generate(&mut for_generation, &gp).unwrap();
    let edited = Uniform::edit(generated, &mut for_edit, &gp).unwrap();
    assert_eq!(state.naive_state.input, edited);
    assert_eq!(state.dcg_state.input, edited);
    assert_eq!(draws(&state.rng), draws(&for_edit));
}

#[test]
fn a_later_round_edits_the_input_it_computed_on() {
    let mut recorder = Recorder::default();
    let params = scenario(true, 3);
    let mut state = start(&params, &mut recorder);
    let gp = params.sample_params.generate_params;
    let before = state.naive_state.input.clone();
    let mut source = *state.rng;
    let expected = Uniform::edit(before, &mut source, &gp).unwrap();
    assert!(state.sample(&mut recorder).unwrap().is_some());
    assert_eq!(state.naive_state.input, expected);
    assert_eq!(state.dcg_state.input, expected);
    assert_eq!(draws(&state.rng), draws(&source));
}

#[test]
fn a_computation_that_depends_on_the_engine_is_found_out() {
    let mut recorder = Recorder::default();
    let params = scenario(true, 3);
    let experiment = TestComputer::<Vec<usize>, Vec<usize>, Uniform, EngineDependent>::new(
        adapton::engine::name_of_str("engine-dependent"),
    );
    let results = experiment.run(&params, &mut recorder).unwrap();
    assert_eq!(results.samples.len(), 3);
    assert!(results
        .samples
        .iter()
        .any(|sample| sample.output_valid == Some(false)));
    for sample in results.samples.iter() {
        assert_eq!(sample.output_valid, Some(false));
    }
}

#[test]
fn a_strategy_without_an_implementation_fails_the_experiment() {
    let mut recorder = Recorder::default();
    let params = scenario(true, 3);
    let outcome = get_sample_gen::<Vec<usize>, Vec<usize>, Frozen, Identity>(&params, &mut recorder);
    assert!(matches!(outcome, Err(LabError::StrategyUnimplemented)));
    let experiment = TestComputer::<Vec<usize>, Vec<usize>, Frozen, Identity>::new(
        adapton::engine::name_of_str("frozen"),
    );
    assert!(matches!(
        experiment.run(&params, &mut recorder),
        Err(LabError::StrategyUnimplemented)
    ));
    assert!(adapton::engine::manage::engine_is_naive());
}

#[test]
fn a_naive_engine_is_left_active_between_rounds() {
    let mut recorder = Recorder::default();
    let params = scenario(true, 3);
    let mut state = start(&params, &mut recorder);
    assert!(adapton::engine::manage::engine_is_naive());
    assert!(matches!(
        state.dcg_state.engine,
        adapton::engine::Engine::DCG(_)
    ));
    assert!(matches!(
        state.naive_state.engine,
        adapton::engine::Engine::Naive
    ));
    assert!(state.sample(&mut recorder).unwrap().is_some());
    assert!(adapton::engine::manage::engine_is_naive());
    assert!(matches!(
        state.dcg_state.engine,
        adapton::engine::Engine::DCG(_)
    ));
}

#[test]
fn a_track_without_an_incremental_engine_is_a_mismatch() {
    let mut recorder = Recorder::default();
    let params = scenario(true, 3);
    let mut state = start(&params, &mut recorder);
    state.dcg_state.engine = adapton::engine::Engine::Naive;
    let input = state.naive_state.input.clone();
    assert!(matches!(state.sample(&mut recorder), Err(LabError::EngineMismatch)));
    assert_eq!(state.samples.len(), 1);
    assert_eq!(state.change_batch_num, 1);
    assert_eq!(state.naive_state.input, input);
    assert_eq!(state.dcg_state.input, input);
}

#[test]
fn one_track_round_on_a_given_input_computes_then_edits() {
    let mut recorder = Recorder::default();
    let _ = adapton::engine::manage::init_naive();
    let sample_params: SampleParams = labexp_params_defaults().sample_params;
    let mut rng = rng_from_seeds(&vec![7, 8]);
    let mut expected_rng = rng;
    let given = vec![5, 6];
    let (output, edited, _) = get_engine_sample::<Vec<usize>, Vec<usize>, Uniform, Identity>(
        &mut recorder,
        &mut rng,
        &sample_params,
        Some(given.clone()),
    )
    .unwrap();
    let expected =
        Uniform::edit(given.clone(), &mut expected_rng, &sample_params.generate_params).unwrap();
    assert_eq!(output, given);
    assert_eq!(edited, expected);
    assert_eq!(edited.len(), 3);
    assert_eq!(draws(&rng), draws(&expected_rng));
}

#[test]
fn one_track_round_without_an_input_generates_from_a_copy_of_the_source() {
    let mut recorder = Recorder::default();
    let _ = adapton::engine::manage::init_naive();
    let sample_params: SampleParams = labexp_params_defaults().sample_params;
    let gp = sample_params.generate_params;
    let mut rng = rng_from_seeds(&vec![7, 8]);
    let mut for_generation = rng;
    let mut for_edit = rng;
    let (output, edited, _) = get_engine_sample::<Vec<usize>, Vec<usize>, Uniform, Identity>(
        &mut recorder,
        &mut rng,
        &sample_params,
        None,
    )
    .unwrap();
    let generated = Uniform::generate(&mut for_generation, &gp).unwrap();
    assert_eq!(output, generated);
    assert_eq!(output.len(), 10);
    assert_eq!(edited, Uniform::edit(generated, &mut for_edit, &gp).unwrap());
    assert_eq!(draws(&rng), draws(&for_edit));
}

#[test]
fn one_track_round_leaves_the_source_alone_when_a_strategy_fails() {
    let mut recorder = Recorder::default();
    let _ = adapton::engine::manage::init_naive();
    let sample_params: SampleParams = labexp_params_defaults().sample_params;
    let mut rng = rng_from_seeds(&vec![7, 8]);
    let before = draws(&rng);
    let outcome = get_engine_sample::<Vec<usize>, Vec<usize>, Frozen, Identity>(
        &mut recorder,
        &mut rng,
        &sample_params,
        None,
    );
    assert!(matches!(outcome, Err(LabError::StrategyUnimplemented)));
    assert_eq!(draws(&rng), before);
}

#[test]
fn seeds_decide_the_random_source() {
    let a = rng_from_seeds(&vec![0]);
    let b = rng_from_seeds(&vec![0]);
    let c = rng_from_seeds(&vec![1]);
    let d = rng_from_seeds(&vec![0, 1]);
    assert_eq!(draws(&a), draws(&b));
    assert_ne!(draws(&a), draws(&c));
    assert_ne!(draws(&a), draws(&d));
    assert_ne!(draws(&c), draws(&d));
}

#[test]
fn the_verdict_is_there_exactly_when_validation_is_on() {
    assert_eq!(output_validity(true, &vec![1, 2], &vec![1, 2]), Some(true));
    assert_eq!(output_validity(true, &vec![1, 2], &vec![2, 1]), Some(false));
    assert_eq!(output_validity(false, &vec![1, 2], &vec![1, 2]), None);
    assert_eq!(output_validity(false, &vec![1, 2], &vec![2, 1]), None);
}

#[test]
fn a_sample_carries_its_round_and_its_parameters() {
    let sample_params: SampleParams = scenario(false, 4).sample_params;
    let sample = assemble_sample(&sample_params, 3, empty_sample(), empty_sample(), Some(false));
    assert_eq!(sample.batch_name, 3);
    assert_eq!(sample.params, sample_params);
    assert_eq!(sample.output_valid, Some(false));
    assert_eq!(sample.dcg_sample.batch_edit_input.time_ns, 3);
    assert_eq!(sample.naive_sample.compute_output.time_ns, 2);
    let copy = sample.clone();
    assert_eq!(copy.batch_name, 3);
    assert_eq!(copy.params, sample_params);
    assert_eq!(copy.output_valid, Some(false));
    assert_eq!(copy.naive_sample.generate_input.time_ns, 1);
}

#[test]
fn the_first_state_holds_what_the_two_runs_returned() {
    let params = scenario(true, 4);
    let rng = rng_from_seeds(&vec![5]);
    let state: Trivial = initial_state(
        &params,
        rng,
        (vec![1, 2], vec![9, 1, 2], empty_sample()),
        (vec![1, 2], vec![8, 1, 2], empty_sample()),
        adapton::engine::Engine::Naive,
    );
    assert_eq!(state.params, params);
    assert_eq!(state.change_batch_num, 1);
    assert_eq!(draws(&state.rng), draws(&rng));
    assert_eq!(state.naive_state.input, vec![9, 1, 2]);
    assert_eq!(state.dcg_state.input, vec![8, 1, 2]);
    assert_eq!(state.samples.len(), 1);
    assert_eq!(state.samples[0].batch_name, 0);
    assert_eq!(state.samples[0].params, params.sample_params);
    assert_eq!(state.samples[0].output_valid, Some(true));
    assert_eq!(state.samples[0].naive_sample.batch_edit_input.time_ns, 3);
}

#[test]
fn the_first_state_records_outputs_that_differ() {
    let state: Trivial = initial_state(
        &scenario(true, 4),
        rng_from_seeds(&vec![5]),
        (vec![1, 2], vec![9, 1, 2], empty_sample()),
        (vec![2, 1], vec![9, 1, 2], empty_sample()),
        adapton::engine::Engine::Naive,
    );
    assert_eq!(state.samples[0].output_valid, Some(false));
    let unchecked: Trivial = initial_state(
        &scenario(false, 4),
        rng_from_seeds(&vec![5]),
        (vec![1, 2], vec![9, 1, 2], empty_sample()),
        (vec![2, 1], vec![9, 1, 2], empty_sample()),
        adapton::engine::Engine::Naive,
    );
    assert_eq!(unchecked.samples[0].output_valid, None);
}

fn timed(generate: u64, compute: u64, edit: u64) -> EngineSample {
    EngineSample {
        generate_input: phase_metrics(0, generate, Vec::new()),
        compute_output: phase_metrics(0, compute, Vec::new()),
        batch_edit_input: phase_metrics(0, edit, Vec::new()),
    }
}

#[test]
fn a_step_takes_what_the_two_runs_returned() {
    let params = scenario(true, 4);
    let mut state: Trivial = initial_state(
        &params,
        rng_from_seeds(&vec![5]),
        (vec![1], vec![9, 1], empty_sample()),
        (vec![1], vec![9, 1], empty_sample()),
        adapton::engine::Engine::Naive,
    );
    let rng = rng_from_seeds(&vec![6]);
    let sample = next_state(
        &mut state,
        rng,
        (vec![9, 1], vec![7, 9, 1], timed(1, 2, 3)),
        (vec![9, 1], vec![8, 9, 1], timed(4, 5, 6)),
    );
    assert_eq!(state.params, params);
    assert_eq!(state.change_batch_num, 2);
    assert_eq!(draws(&state.rng), draws(&rng));
    assert_eq!(state.naive_state.input, vec![7, 9, 1]);
    assert_eq!(state.dcg_state.input, vec![8, 9, 1]);
    assert_eq!(state.samples.len(), 2);
    assert_eq!(state.samples[0].batch_name, 0);
    assert_eq!(sample.batch_name, 1);
    assert_eq!(sample.params, params.sample_params);
    assert_eq!(sample.output_valid, Some(true));
    let stored = &state.samples[1];
    assert_eq!(stored.batch_name, 1);
    assert_eq!(stored.output_valid, Some(true));
    assert_eq!(stored.naive_sample.generate_input.time_ns, 1);
    assert_eq!(stored.naive_sample.compute_output.time_ns, 2);
    assert_eq!(stored.naive_sample.batch_edit_input.time_ns, 3);
    assert_eq!(stored.dcg_sample.generate_input.time_ns, 4);
    assert_eq!(stored.dcg_sample.compute_output.time_ns, 5);
    assert_eq!(stored.dcg_sample.batch_edit_input.time_ns, 6);
    assert_eq!(sample.naive_sample.compute_output.time_ns, 2);
    assert_eq!(sample.dcg_sample.batch_edit_input.time_ns, 6);
}

#[test]
fn a_step_records_outputs_that_differ() {
    let mut state: Trivial = initial_state(
        &scenario(true, 4),
        rng_from_seeds(&vec![5]),
        (vec![1], vec![9, 1], empty_sample()),
        (vec![1], vec![9, 1], empty_sample()),
        adapton::engine::Engine::Naive,
    );
    let sample = next_state(
        &mut state,
        rng_from_seeds(&vec![6]),
        (vec![9, 1], vec![7, 9, 1], empty_sample()),
        (vec![1, 9], vec![7, 9, 1], empty_sample()),
    );
    assert_eq!(sample.output_valid, Some(false));
    assert_eq!(state.samples[1].output_valid, Some(false));
    assert_eq!(state.samples[0].output_valid, Some(true));
    let mut unchecked: Trivial = initial_state(
        &scenario(false, 4),
        rng_from_seeds(&vec![5]),
        (vec![1], vec![9, 1], empty_sample()),
        (vec![1], vec![9, 1], empty_sample()),
        adapton::engine::Engine::Naive,
    );
    let sample = next_state(
        &mut unchecked,
        rng_from_seeds(&vec![6]),
        (vec![9, 1], vec![7, 9, 1], empty_sample()),
        (vec![1, 9], vec![7, 9, 1], empty_sample()),
    );
    assert_eq!(sample.output_valid, None);
}

#[test]
fn a_round_stores_the_measurements_that_it_returns() {
    let mut recorder = Recorder::default();
    let params = scenario(true, 3);
    let mut state = start(&params, &mut recorder);
    let sample = state.sample(&mut recorder).unwrap().unwrap();
    let stored = state.samples.last().unwrap();
    assert_eq!(
        stored.naive_sample.generate_input.time_ns,
        sample.naive_sample.generate_input.time_ns
    );
    assert_eq!(
        stored.dcg_sample.compute_output.time_ns,
        sample.dcg_sample.compute_output.time_ns
    );
    assert_eq!(
        stored.dcg_sample.batch_edit_input.engine_cnt.effects.len(),
        sample.dcg_sample.batch_edit_input.engine_cnt.effects.len()
    );
}
