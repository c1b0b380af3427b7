use vstd::prelude::*;

verus! {

/// A model that the engine drives: its own request, response and error types,
/// and one blocking, fallible inference call that may change the model.
///
/// The engine's worker owns the model alone, so `run` is never called
/// concurrently.
pub trait InfernumModel {
    /// The request type that the model accepts for inference.
    type Request;
    /// The response type that the model returns after inference.
    type Response;
    /// The error type that can be returned during inference. The engine only
    /// passes it on, so it asks nothing of it but to cross threads.
    type Error: Send + Sync + 'static;

    /// Runs inference on the given request and returns a response or error.
    fn run(&mut self, request: Self::Request) -> Result<Self::Response, Self::Error>;
}

/// A lightweight summary of a request (a prompt, say), kept with the response
/// in place of the request's heavy payload, which the model consumes.
pub trait RequestMetadata {
    /// The lightweight metadata type that represents the request.
    type Metadata: Send + 'static;

    /// Extracts lightweight metadata from the request without copying its
    /// heavy parts.
    fn metadata(&self) -> Self::Metadata;
}

/// A model response that is plain text.
pub struct InfernumModelResponse {
    pub response: String,
}

} // verus!
