//! Measuring one phase of a round: how long it took, and what the active
//! engine did meanwhile.
//!
//! The engine library keeps at most one recording of effects open on a
//! thread, and panics when a second one is opened or when none is open to be
//! closed. The right to record is therefore a value, the [`Recorder`]: a
//! measurement borrows it for as long as the recording is open, so the work
//! that is measured cannot measure with it in turn.

use vstd::prelude::*;
use std::marker::PhantomData;
use adapton::reflect::trace::Trace;

verus! {

/// `time::precise_time_ns` reads a high-resolution clock, in nanoseconds
/// since an epoch that is not specified. Nothing is claimed of the reading.
pub assume_specification[ time::precise_time_ns ]() -> (now: u64)
;

/// `adapton::reflect::trace::Trace`: one effect that the engine recorded,
/// with the effects nested in it. Opaque here.
#[verifier::external_type_specification]
#[verifier::external_body]
pub struct ExTrace(adapton::reflect::trace::Trace);

/// `<adapton::reflect::trace::Trace as Clone>::clone`, which the engine
/// library derives, as it does for every type that an effect holds: the
/// clone is the effect cloned.
pub assume_specification[ <Trace as Clone>::clone ](effect: &Trace) -> (copy: Trace)
    ensures
        copy == *effect,
;

/// Stands for the thread's recording while it is closed.
#[derive(Default)]
struct Idle {
    seal: (),
}

/// Stands for the thread's recording while it is open, and keeps the
/// [`Idle`] that it was opened from borrowed.
struct Open<'a> {
    idle: PhantomData<&'a mut Idle>,
}

/// The right to record the engine's effects on the calling thread.
///
/// A recorder is made with `Recorder::default()`, once for a thread, while
/// no recording is open there and outside any work that is measured. Whoever
/// makes it promises so, and nothing checks that promise; verified code has
/// no way to make one.
#[derive(Default)]
pub struct Recorder {
    idle: Idle,
}

/// Calls `adapton::engine::reflect_dcg::dcg_reflect_begin`, which opens a
/// recording of the engine's effects on the calling thread and panics when
/// one is open already. The `Open` that the call gives keeps the recorder's
/// `Idle` borrowed, so the call cannot be made again before the recording is
/// closed. Nothing is claimed of the result.
#[verifier::external_body]
fn open_recording<'a>(idle: &'a mut Idle) -> (open: Open<'a>) {
    adapton::engine::reflect_dcg::dcg_reflect_begin();
    Open { idle: PhantomData }
}

/// Calls `adapton::engine::reflect_dcg::dcg_reflect_end`, which closes the
/// thread's recording and returns the effects recorded, outermost first. It
/// panics when no recording is open; the call takes the `Open` that
/// [`open_recording`] gave, and each `Open` is taken once. It also panics
/// inside an effect, that is inside a computation that the engine library
/// runs, which no function of this crate does. Nothing is claimed of the
/// effects.
#[verifier::external_body]
fn close_recording<'a>(open: Open<'a>) -> (effects: Vec<Trace>) {
    adapton::engine::reflect_dcg::dcg_reflect_end()
}

/// What the active engine did during one phase: the effects it recorded,
/// outermost first.
#[derive(Debug)]
pub struct Cnt {
    pub effects: Vec<Trace>,
}

impl View for Cnt {
    type V = Seq<Trace>;

    open spec fn view(&self) -> Seq<Trace> {
        self.effects@
    }
}

impl Clone for Cnt {
    fn clone(&self) -> (copy: Self)
        ensures
            copy@ == self@,
    {
        let effects = self.effects.clone();
        assert(effects@ =~= self.effects@);
        Cnt { effects }
    }
}

/// Cost of one phase under one engine.
#[derive(Debug)]
pub struct EngineMetrics {
    /// Time that the phase took on the clock, in nanoseconds.
    pub time_ns: u64,
    /// What the engine did during the phase.
    pub engine_cnt: Cnt,
}

/// The mathematical value of an [`EngineMetrics`].
pub struct EngineMetricsView {
    pub time_ns: u64,
    pub engine_cnt: Seq<Trace>,
}

impl View for EngineMetrics {
    type V = EngineMetricsView;

    open spec fn view(&self) -> EngineMetricsView {
        EngineMetricsView { time_ns: self.time_ns, engine_cnt: self.engine_cnt@ }
    }
}

impl Clone for EngineMetrics {
    fn clone(&self) -> (copy: Self)
        ensures
            copy@ == self@,
    {
        EngineMetrics { time_ns: self.time_ns, engine_cnt: self.engine_cnt.clone() }
    }
}

/// Costs of the three phases of one round under one engine.
#[derive(Debug)]
pub struct EngineSample {
    pub generate_input: EngineMetrics,
    pub compute_output: EngineMetrics,
    pub batch_edit_input: EngineMetrics,
}

/// The mathematical value of an [`EngineSample`].
pub struct EngineSampleView {
    pub generate_input: EngineMetricsView,
    pub compute_output: EngineMetricsView,
    pub batch_edit_input: EngineMetricsView,
}

impl View for EngineSample {
    type V = EngineSampleView;

    open spec fn view(&self) -> EngineSampleView {
        EngineSampleView {
            generate_input: self.generate_input@,
            compute_output: self.compute_output@,
            batch_edit_input: self.batch_edit_input@,
        }
    }
}

impl Clone for EngineSample {
    fn clone(&self) -> (copy: Self)
        ensures
            copy@ == self@,
    {
        EngineSample {
            generate_input: self.generate_input.clone(),
            compute_output: self.compute_output.clone(),
            batch_edit_input: self.batch_edit_input.clone(),
        }
    }
}

/// Puts the measurements of the three phases of one round together, each in
/// the field of its phase.
pub fn engine_sample_of(
    generate_input: EngineMetrics,
    compute_output: EngineMetrics,
    batch_edit_input: EngineMetrics,
) -> (sample: EngineSample)
    ensures
        sample.generate_input == generate_input,
        sample.compute_output == compute_output,
        sample.batch_edit_input == batch_edit_input,
{
    EngineSample { generate_input, compute_output, batch_edit_input }
}

/// The nanoseconds between two readings of the clock; none when the second
/// reading is the earlier one.
pub open spec fn elapsed(start: u64, end: u64) -> u64 {
    if start <= end {
        (end - start) as u64
    } else {
        0
    }
}

/// Computes [`elapsed`].
pub fn elapsed_ns(start: u64, end: u64) -> (ns: u64)
    ensures
        ns == elapsed(start, end),
{
    if start <= end {
        end - start
    } else {
        0
    }
}

/// Puts the two readings and the recorded effects of one phase together.
pub fn phase_metrics(time_start: u64, time_end: u64, effects: Vec<Trace>) -> (metrics:
    EngineMetrics)
    ensures
        metrics.time_ns == elapsed(time_start, time_end),
        metrics.engine_cnt.effects == effects,
{
    EngineMetrics { time_ns: elapsed_ns(time_start, time_end), engine_cnt: Cnt { effects } }
}

/// Runs `thunk` once, between two readings of the clock and inside one
/// recording of the active engine's effects.
///
/// The value returned first is the one that `thunk` computed. The metrics
/// are [`phase_metrics`] of the two readings and the recording; what those
/// were is known only when the program runs. The recorder is borrowed until
/// the recording is closed.
pub fn get_engine_metrics<X, F: FnOnce() -> X>(recorder: &mut Recorder, thunk: F) -> (r: (
    X,
    EngineMetrics,
))
    requires
        thunk.requires(()),
    ensures
        thunk.ensures((), r.0),
{
    let time_start = time::precise_time_ns();
    let open = open_recording(&mut recorder.idle);
    let x = thunk();
    let effects = close_recording(open);
    let time_end = time::precise_time_ns();
    (x, phase_metrics(time_start, time_end, effects))
}

} // verus!
