//! The decision core of a single-worker inference engine.
//!
//! Callers submit requests without blocking and poll for completed responses
//! later; one worker runs a stateful model on one request at a time, in
//! submission order. This crate holds everything the engine decides: the
//! request and response queues, the id counter, the busy/idle flag, the
//! worker's next step and the engine's shutdown. The thread that runs the
//! model, and the locking around this core, belong to the embedding program.
use vstd::prelude::*;

pub mod engine;
pub mod laws;
pub mod model;
pub mod state;

pub use engine::{
    EngineModel, InferenceJob, InfernumEngine, InfernumEngineRequest, InfernumEngineResponse,
    InfernumEngineResult, WorkerAction,
};
pub use laws::EngineOp;
pub use model::{InfernumModel, InfernumModelResponse, RequestMetadata};
pub use state::InfernumEngineState;

verus! {

} // verus!
