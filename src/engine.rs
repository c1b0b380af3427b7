use vstd::prelude::*;
use std::collections::VecDeque;
use std::time::{Duration, Instant};

use crate::model::RequestMetadata;
use crate::state::InfernumEngineState;

verus! {

/// Relies on std::time::Instant only as a value that is stored and handed
/// back; the engine never reads or compares one.
#[verifier::external_type_specification]
#[verifier::external_body]
pub struct ExInstant(std::time::Instant);

/// A request as queued by the engine, with the id the engine gave it.
pub struct InfernumEngineRequest<Req> {
    /// Identifier for this inference request; ids wrap around after 255.
    pub id: u8,
    /// The actual request data to be processed by the model.
    pub request: Req,
}

/// A completed inference: the model's response and its telemetry.
pub struct InfernumEngineResponse<Metadata, Res> {
    /// Identifier of the request that this response answers.
    pub id: u8,
    /// When the model call started.
    pub start_time: Instant,
    /// How long the model call took.
    pub duration: Duration,
    /// Lightweight metadata extracted from the request it answers.
    pub request_metadata: Metadata,
    /// The actual response from the model.
    pub response: Res,
}

/// What a poll of the engine returns.
pub enum InfernumEngineResult<Metadata, Res> {
    /// The oldest completed inference.
    Success(InfernumEngineResponse<Metadata, Res>),
    /// No result available yet, with current engine state.
    Empty(InfernumEngineState),
    /// The worker has exited and no more results will come.
    Error(String),
}

/// A request that the worker has taken and is running: what the response
/// will need once the model returns.
pub struct InferenceJob<Metadata> {
    /// Id of the request being run.
    pub id: u8,
    /// Metadata extracted from the request before the model consumed it.
    pub request_metadata: Metadata,
}

/// What the worker is to do next.
pub enum WorkerAction<Req, Metadata> {
    /// Run the model on this request, then report the outcome for this job.
    Run(InferenceJob<Metadata>, Req),
    /// Nothing is queued yet: wait for a submission or for shutdown.
    Wait,
    /// The queue is closed and drained, or the worker has failed: exit.
    Exit,
}

/// The message carried by a poll after the worker has exited.
pub open spec fn disconnected_message() -> Seq<char> {
    "Response channel disconnected"@
}

/// The id that follows `id`, wrapping around after 255.
pub open spec fn id_after(id: u8) -> u8 {
    ((id + 1) % 256) as u8
}

/// An engine as mathematical values.
pub struct EngineModel<Req, Meta, Res> {
    /// The busy/idle flag.
    pub state: InfernumEngineState,
    /// Submitted requests that the worker has not taken yet, oldest first.
    pub pending: Seq<InfernumEngineRequest<Req>>,
    /// Completed inferences that no poll has returned yet, oldest first.
    pub responses: Seq<InfernumEngineResponse<Meta, Res>>,
    /// The id that the next accepted submission gets.
    pub next_id: u8,
    /// Whether submissions are still taken (no stop yet).
    pub accepting: bool,
    /// Whether the worker is still running (it has neither failed nor exited).
    pub worker_running: bool,
}

impl<Req, Meta, Res> EngineModel<Req, Meta, Res> {
    /// A new engine: idle, nothing queued, ids from 0, worker running.
    pub open spec fn initial() -> Self {
        EngineModel {
            state: InfernumEngineState::Idle,
            pending: Seq::empty(),
            responses: Seq::empty(),
            next_id: 0,
            accepting: true,
            worker_running: true,
        }
    }

    /// After a submission: once stopped, nothing changes; else the request
    /// takes the next id, and is queued if the worker can still take it.
    pub open spec fn scheduled(self, request: Req) -> Self {
        if !self.accepting {
            self
        } else if self.worker_running {
            EngineModel {
                pending: self.pending.push(InfernumEngineRequest { id: self.next_id, request }),
                next_id: id_after(self.next_id),
                ..self
            }
        } else {
            EngineModel { next_id: id_after(self.next_id), ..self }
        }
    }

    /// After a stop: submissions are no longer taken.
    pub open spec fn stopped(self) -> Self {
        EngineModel { accepting: false, ..self }
    }

    /// After a poll: the oldest completed inference, if any, is gone.
    pub open spec fn polled(self) -> Self {
        if self.responses.len() > 0 {
            EngineModel { responses: self.responses.drop_first(), ..self }
        } else {
            self
        }
    }

    /// Whether `r` is what a poll returns: the oldest completed inference;
    /// else, while the worker runs, `Empty` with the state; else the error.
    pub open spec fn poll_gives(self, r: InfernumEngineResult<Meta, Res>) -> bool {
        if self.responses.len() > 0 {
            r == InfernumEngineResult::Success(self.responses[0])
        } else if self.worker_running {
            r == InfernumEngineResult::<Meta, Res>::Empty(self.state)
        } else {
            r matches InfernumEngineResult::Error(msg) && msg@ == disconnected_message()
        }
    }

    /// After the worker asks for work: the oldest queued request is taken and
    /// the state is `Processing`; with nothing queued after a stop the worker
    /// exits; otherwise nothing changes.
    pub open spec fn taken(self) -> Self {
        if !self.worker_running {
            self
        } else if self.pending.len() > 0 {
            EngineModel {
                state: InfernumEngineState::Processing,
                pending: self.pending.drop_first(),
                ..self
            }
        } else if !self.accepting {
            EngineModel { worker_running: false, ..self }
        } else {
            self
        }
    }

    /// Whether `a` is what the worker is told when it asks for work, for some
    /// metadata of the request it is handed.
    pub open spec fn take_gives(self, a: WorkerAction<Req, Meta>) -> bool {
        if !self.worker_running {
            a is Exit
        } else if self.pending.len() > 0 {
            a matches WorkerAction::Run(job, request) && job.id == self.pending[0].id
                && request == self.pending[0].request
        } else if !self.accepting {
            a is Exit
        } else {
            a is Wait
        }
    }

    /// The response that a job yields when the model returns `response`.
    pub open spec fn response_of(
        job: InferenceJob<Meta>,
        response: Res,
        start_time: Instant,
        duration: Duration,
    ) -> InfernumEngineResponse<Meta, Res> {
        InfernumEngineResponse {
            id: job.id,
            start_time,
            duration,
            request_metadata: job.request_metadata,
            response,
        }
    }

    /// After the model returned for a job: the response is queued behind the
    /// others and the state is `Idle` again (nothing, once the worker exited).
    pub open spec fn completed(
        self,
        job: InferenceJob<Meta>,
        response: Res,
        start_time: Instant,
        duration: Duration,
    ) -> Self {
        if self.worker_running {
            EngineModel {
                state: InfernumEngineState::Idle,
                responses: self.responses.push(
                    Self::response_of(job, response, start_time, duration),
                ),
                ..self
            }
        } else {
            self
        }
    }

    /// After the model failed: the worker is gone and the requests still
    /// queued are dropped; the state is left as it was.
    pub open spec fn failed(self) -> Self {
        EngineModel { worker_running: false, pending: Seq::empty(), ..self }
    }
}

/// The decision core of an inference engine: the queue of submissions, the
/// queue of completed inferences, the id counter, the busy/idle flag and the
/// lifecycle of the single worker that runs the model.
///
/// The engine never calls the model. The worker asks `take_next_request`
/// for work, runs the model on the request it is handed, and reports the
/// outcome with `complete_success` or `complete_failure`; callers submit with
/// `schedule_inference`, poll with `try_poll_response` and shut down with
/// `stop`.
pub struct InfernumEngine<Req: RequestMetadata, Res> {
    state: InfernumEngineState,
    pending: VecDeque<InfernumEngineRequest<Req>>,
    responses: VecDeque<InfernumEngineResponse<Req::Metadata, Res>>,
    id_counter: u8,
    accepting: bool,
    worker_running: bool,
}

impl<Req: RequestMetadata, Res> View for InfernumEngine<Req, Res> {
    type V = EngineModel<Req, Req::Metadata, Res>;

    closed spec fn view(&self) -> Self::V {
        EngineModel {
            state: self.state,
            pending: self.pending@,
            responses: self.responses@,
            next_id: self.id_counter,
            accepting: self.accepting,
            worker_running: self.worker_running,
        }
    }
}

impl<Req: RequestMetadata, Res> InfernumEngine<Req, Res> {
    /// Creates an idle engine whose worker is running, with both queues empty
    /// and ids counted from 0.
    pub fn new() -> (r: Self)
        ensures
            r@ == EngineModel::<Req, Req::Metadata, Res>::initial(),
    {
        InfernumEngine {
            state: InfernumEngineState::Idle,
            pending: VecDeque::new(),
            responses: VecDeque::new(),
            id_counter: 0,
            accepting: true,
            worker_running: true,
        }
    }

    /// Returns the current state of the inference engine.
    pub fn state(&self) -> (r: InfernumEngineState)
        ensures
            r == self@.state,
    {
        self.state
    }

    /// Takes the oldest completed inference without blocking; with none
    /// queued, returns `Empty` with the current state while the worker runs,
    /// and an error once it has exited.
    pub fn try_poll_response(&mut self) -> (r: InfernumEngineResult<Req::Metadata, Res>)
        ensures
            old(self)@.poll_gives(r),
            final(self)@ == old(self)@.polled(),
    {
        match self.responses.pop_front() {
            Some(response) => InfernumEngineResult::Success(response),
            None => {
                if self.worker_running {
                    InfernumEngineResult::Empty(self.state)
                } else {
                    InfernumEngineResult::Error("Response channel disconnected".to_string())
                }
            },
        }
    }

    /// Submits a request. Until `stop`, it takes the next id (wrapping after
    /// 255) and is queued for the worker; once the worker has failed it is
    /// dropped. After `stop` the call does nothing.
    pub fn schedule_inference(&mut self, request: Req)
        ensures
            final(self)@ == old(self)@.scheduled(request),
    {
        if self.accepting {
            let id = self.id_counter;
            self.id_counter = if id == 255 { 0 } else { id + 1 };
            if self.worker_running {
                self.pending.push_back(InfernumEngineRequest { id, request });
            }
        }
    }

    /// Stops taking submissions. The worker still runs what was queued
    /// before, then exits. Calling it again does nothing more.
    pub fn stop(&mut self)
        ensures
            final(self)@ == old(self)@.stopped(),
    {
        self.accepting = false;
    }

    /// The worker asks for work. It is handed the oldest queued request, with
    /// its id and metadata, and the state becomes `Processing`; with nothing
    /// queued it is told to wait, or to exit once the engine is stopped or
    /// the worker has failed.
    pub fn take_next_request(&mut self) -> (r: WorkerAction<Req, Req::Metadata>)
        ensures
            old(self)@.take_gives(r),
            final(self)@ == old(self)@.taken(),
    {
        if !self.worker_running {
            return WorkerAction::Exit;
        }
        match self.pending.pop_front() {
            Some(next) => {
                let request_metadata = next.request.metadata();
                self.state = InfernumEngineState::Processing;
                WorkerAction::Run(InferenceJob { id: next.id, request_metadata }, next.request)
            },
            None => {
                if self.accepting {
                    WorkerAction::Wait
                } else {
                    self.worker_running = false;
                    WorkerAction::Exit
                }
            },
        }
    }

    /// The model returned `response` for `job`, having started at
    /// `start_time` and taken `duration`: the response is queued for polling
    /// and the state is `Idle` again.
    pub fn complete_success(
        &mut self,
        job: InferenceJob<Req::Metadata>,
        response: Res,
        start_time: Instant,
        duration: Duration,
    )
        ensures
            final(self)@ == old(self)@.completed(job, response, start_time, duration),
    {
        if self.worker_running {
            self.responses.push_back(
                InfernumEngineResponse {
                    id: job.id,
                    start_time,
                    duration,
                    request_metadata: job.request_metadata,
                    response,
                },
            );
            self.state = InfernumEngineState::Idle;
        }
    }

    /// The model failed: the worker exits for good, the requests still queued
    /// are dropped without a response, and the state is left as it was.
    pub fn complete_failure(&mut self)
        ensures
            final(self)@ == old(self)@.failed(),
    {
        self.worker_running = false;
        self.pending = VecDeque::new();
    }
}

} // verus!
