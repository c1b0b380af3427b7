use vstd::prelude::*;

verus! {

/// Coarse busy/idle flag of an engine: `Processing` while the worker holds a
/// request that the model is running, `Idle` otherwise.
#[derive(Clone, Copy, Debug, PartialEq, Eq, Structural)]
pub enum InfernumEngineState {
    /// The engine is idle and ready to accept new inference requests.
    Idle,
    /// The engine is currently processing an inference request.
    Processing,
}

/// The name of a state, as shown to users.
pub open spec fn state_name(s: InfernumEngineState) -> Seq<char> {
    match s {
        InfernumEngineState::Idle => "idle"@,
        InfernumEngineState::Processing => "processing"@,
    }
}

impl InfernumEngineState {
    /// Returns the state as a string representation.
    pub fn as_str(&self) -> (r: &'static str)
        ensures
            r@ == state_name(*self),
    {
        match self {
            InfernumEngineState::Idle => "idle",
            InfernumEngineState::Processing => "processing",
        }
    }
}

} // verus!
