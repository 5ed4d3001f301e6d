//! The engine switch: which engine the calling thread computes under.
//!
//! The active engine is a register that the engine library keeps per thread.
//! Nothing here models that register, so no call below promises what a later
//! call will find: the harness selects an engine, asks which kind is active,
//! and stops with [`LabError::EngineMismatch`](crate::error::LabError) when
//! the answer is not the one it selected.
//!
//! While the engine library runs a computation of its own it holds the
//! register, and selecting an engine then panics. No function of this crate
//! runs such a computation; an experiment is started from outside one.

use vstd::prelude::*;
use adapton::engine::Engine;

verus! {

/// `adapton::engine::Engine`: an engine, active or set aside. Opaque here;
/// the harness only moves engines in and out of the thread's register.
#[verifier::external_type_specification]
#[verifier::external_body]
pub struct ExEngine(adapton::engine::Engine);

/// `adapton::engine::manage::init_naive` makes a naive engine the active one
/// and returns the engine that was active. Nothing is claimed of the engine
/// returned. It panics when the register is held, as the module says.
pub assume_specification[ adapton::engine::manage::init_naive ]() -> (previous: Engine)
;

/// `adapton::engine::manage::init_dcg` makes a fresh incremental engine the
/// active one and returns the engine that was active. Nothing is claimed of
/// the engine returned. It panics when the register is held, as the module
/// says.
pub assume_specification[ adapton::engine::manage::init_dcg ]() -> (previous: Engine)
;

/// `adapton::engine::manage::use_engine` makes `engine` the active one and
/// returns the engine that was active. Nothing is claimed of the engine
/// returned. It panics when the register is held, as the module says.
pub assume_specification[ adapton::engine::manage::use_engine ](engine: Engine) -> (previous:
    Engine)
;

/// `adapton::engine::manage::engine_is_naive` tells whether the active engine
/// is a naive one. The answer depends on the thread's register, so nothing is
/// claimed of it.
pub assume_specification[ adapton::engine::manage::engine_is_naive ]() -> (naive: bool)
;

/// `adapton::engine::manage::engine_is_dcg` tells whether the active engine
/// is an incremental one. The answer depends on the thread's register, so
/// nothing is claimed of it.
pub assume_specification[ adapton::engine::manage::engine_is_dcg ]() -> (incremental: bool)
;

/// Builds `adapton::engine::Engine::Naive`, the engine without state. Nothing
/// is claimed of it.
#[verifier::external_body]
pub(crate) fn naive_engine() -> (engine: Engine) {
    Engine::Naive
}

} // verus!
