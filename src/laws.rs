use vstd::prelude::*;
use std::time::{Duration, Instant};

use crate::engine::{
    EngineModel, InferenceJob, InfernumEngineRequest, InfernumEngineResponse,
    InfernumEngineResult, WorkerAction,
};
use crate::state::InfernumEngineState;

verus! {

/// One call on an engine, by a caller or by the worker.
pub enum EngineOp<Req, Meta, Res> {
    /// `schedule_inference` with this request.
    Schedule(Req),
    /// `try_poll_response`.
    Poll,
    /// `stop`.
    Stop,
    /// `take_next_request`, by the worker.
    Take,
    /// `complete_success`, by the worker.
    Complete(InferenceJob<Meta>, Res, Instant, Duration),
    /// `complete_failure`, by the worker.
    Fail,
}

/// What the model produced for one request: the metadata the worker
/// extracted, the response, when the call started and how long it took.
pub type Outcome<Meta, Res> = (Meta, Res, Instant, Duration);

/// The id that the `i`-th submission to a new engine gets.
pub open spec fn nth_id(i: int) -> u8 {
    (i % 256) as u8
}

impl<Req, Meta, Res> EngineModel<Req, Meta, Res> {
    /// The engine after one call.
    pub open spec fn step(self, op: EngineOp<Req, Meta, Res>) -> Self {
        match op {
            EngineOp::Schedule(request) => self.scheduled(request),
            EngineOp::Poll => self.polled(),
            EngineOp::Stop => self.stopped(),
            EngineOp::Take => self.taken(),
            EngineOp::Complete(job, response, start_time, duration) => self.completed(
                job,
                response,
                start_time,
                duration,
            ),
            EngineOp::Fail => self.failed(),
        }
    }

    /// The engine after a sequence of calls, in order.
    pub open spec fn run_ops(self, ops: Seq<EngineOp<Req, Meta, Res>>) -> Self
        decreases ops.len(),
    {
        if ops.len() == 0 {
            self
        } else {
            self.run_ops(ops.drop_last()).step(ops.last())
        }
    }

    /// The engine after submitting each of `requests`, in order.
    pub open spec fn scheduled_all(self, requests: Seq<Req>) -> Self
        decreases requests.len(),
    {
        if requests.len() == 0 {
            self
        } else {
            self.scheduled_all(requests.drop_last()).scheduled(requests.last())
        }
    }

    /// The engine after the worker took the oldest queued request and the
    /// model returned `out` for it.
    pub open spec fn served_one(self, out: Outcome<Meta, Res>) -> Self {
        self.taken().completed(
            InferenceJob { id: self.pending[0].id, request_metadata: out.0 },
            out.1,
            out.2,
            out.3,
        )
    }

    /// The engine after the worker served one queued request for each of
    /// `outs`, in order.
    pub open spec fn served(self, outs: Seq<Outcome<Meta, Res>>) -> Self
        decreases outs.len(),
    {
        if outs.len() == 0 {
            self
        } else {
            self.served(outs.drop_last()).served_one(outs.last())
        }
    }

    /// The engine after `k` polls.
    pub open spec fn polled_times(self, k: nat) -> Self
        decreases k,
    {
        if k == 0 {
            self
        } else {
            self.polled_times((k - 1) as nat).polled()
        }
    }
}

proof fn lemma_scheduled_all_initial<Req, Meta, Res>(requests: Seq<Req>)
    ensures
        ({
            let m = EngineModel::<Req, Meta, Res>::initial().scheduled_all(requests);
            &&& m.pending.len() == requests.len()
            &&& forall|i: int|
                0 <= i < requests.len() ==> #[trigger] m.pending[i] == InfernumEngineRequest {
                    id: nth_id(i),
                    request: requests[i],
                }
            &&& m.next_id == nth_id(requests.len() as int)
            &&& m.responses.len() == 0
            &&& m.state == InfernumEngineState::Idle
            &&& m.accepting
            &&& m.worker_running
        }),
    decreases requests.len(),
{
    if requests.len() > 0 {
        lemma_scheduled_all_initial::<Req, Meta, Res>(requests.drop_last());
        let prev = EngineModel::<Req, Meta, Res>::initial().scheduled_all(requests.drop_last());
        assert(nth_id(requests.len() as int) == ((prev.next_id + 1) % 256) as u8);
    }
}

proof fn lemma_served<Req, Meta, Res>(m0: EngineModel<Req, Meta, Res>, outs: Seq<Outcome<Meta, Res>>)
    requires
        m0.worker_running,
        outs.len() <= m0.pending.len(),
    ensures
        ({
            let m = m0.served(outs);
            &&& m.pending == m0.pending.skip(outs.len() as int)
            &&& m.responses.len() == m0.responses.len() + outs.len()
            &&& m.responses.take(m0.responses.len() as int) == m0.responses
            &&& forall|i: int|
                0 <= i < outs.len() ==> #[trigger] m.responses[m0.responses.len() + i]
                    == EngineModel::<Req, Meta, Res>::response_of(
                    InferenceJob { id: m0.pending[i].id, request_metadata: outs[i].0 },
                    outs[i].1,
                    outs[i].2,
                    outs[i].3,
                )
            &&& outs.len() > 0 ==> m.state == InfernumEngineState::Idle
            &&& outs.len() == 0 ==> m.state == m0.state
            &&& m.next_id == m0.next_id
            &&& m.accepting == m0.accepting
            &&& m.worker_running
        }),
    decreases outs.len(),
{
    if outs.len() > 0 {
        let k = outs.len() - 1;
        lemma_served(m0, outs.drop_last());
        let prev = m0.served(outs.drop_last());
        assert(prev.pending[0] == m0.pending[k]);
        let m = m0.served(outs);
        assert(m.pending =~= m0.pending.skip(outs.len() as int));
        assert(m.responses.take(m0.responses.len() as int) =~= m0.responses) by {
            assert(prev.responses.take(m0.responses.len() as int) =~= m0.responses);
        }
        assert forall|i: int| 0 <= i < outs.len() implies #[trigger] m.responses[m0.responses.len() + i]
            == EngineModel::<Req, Meta, Res>::response_of(
            InferenceJob { id: m0.pending[i].id, request_metadata: outs[i].0 },
            outs[i].1,
            outs[i].2,
            outs[i].3,
        ) by {
            if i < k {
                assert(outs.drop_last()[i] == outs[i]);
                assert(prev.responses[m0.responses.len() + i] == m.responses[m0.responses.len()
                    + i]);
            }
        }
    }
}

proof fn lemma_polled_times<Req, Meta, Res>(m: EngineModel<Req, Meta, Res>, k: nat)
    requires
        k <= m.responses.len(),
    ensures
        m.polled_times(k) == (EngineModel { responses: m.responses.skip(k as int), ..m }),
    decreases k,
{
    if k > 0 {
        lemma_polled_times(m, (k - 1) as nat);
        assert(m.responses.skip(k - 1).drop_first() =~= m.responses.skip(k as int));
    } else {
        assert(m.responses.skip(0) =~= m.responses);
    }
}

/// Submitting `requests` to a new engine and letting the worker serve them all
/// with success yields one response per request, in the order of submission:
/// the `i`-th request is the `i`-th one handed to the model, its response
/// carries the `i`-th id, and successive polls return the responses in that
/// order. Afterwards the engine is idle with nothing queued, and a further
/// poll returns `Empty(Idle)`.
pub proof fn lemma_responses_in_submission_order<Req, Meta, Res>(
    requests: Seq<Req>,
    outs: Seq<Outcome<Meta, Res>>,
)
    requires
        outs.len() == requests.len(),
    ensures
        ({
            let queued = EngineModel::<Req, Meta, Res>::initial().scheduled_all(requests);
            let done = queued.served(outs);
            &&& forall|i: int, a: WorkerAction<Req, Meta>|
                0 <= i < requests.len() && #[trigger] queued.served(outs.take(i)).take_gives(a)
                    ==> (a matches WorkerAction::Run(job, request) && job.id == nth_id(i)
                    && request == requests[i])
            &&& done.responses.len() == requests.len()
            &&& forall|i: int|
                0 <= i < requests.len() ==> #[trigger] done.responses[i] == InfernumEngineResponse {
                    id: nth_id(i),
                    start_time: outs[i].2,
                    duration: outs[i].3,
                    request_metadata: outs[i].0,
                    response: outs[i].1,
                }
            &&& forall|i: int|
                0 <= i < requests.len() ==> #[trigger] done.polled_times(i as nat).poll_gives(
                    InfernumEngineResult::Success(done.responses[i]),
                )
            &&& done.pending.len() == 0
            &&& done.state == InfernumEngineState::Idle
            &&& done.polled_times(requests.len()).poll_gives(
                InfernumEngineResult::Empty(InfernumEngineState::Idle),
            )
        }),
{
    let queued = EngineModel::<Req, Meta, Res>::initial().scheduled_all(requests);
    lemma_scheduled_all_initial::<Req, Meta, Res>(requests);
    lemma_served(queued, outs);
    let done = queued.served(outs);
    assert(done.responses.len() == requests.len());
    assert forall|i: int, a: WorkerAction<Req, Meta>|
        0 <= i < requests.len() && #[trigger] queued.served(outs.take(i)).take_gives(a) implies (a matches WorkerAction::Run(job, request) && job.id == nth_id(i)
        && request == requests[i]) by {
        lemma_served(queued, outs.take(i));
        assert(queued.served(outs.take(i)).pending[0] == queued.pending[i]);
    }
    assert forall|i: int| 0 <= i < requests.len() implies #[trigger] done.responses[i]
        == InfernumEngineResponse {
        id: nth_id(i),
        start_time: outs[i].2,
        duration: outs[i].3,
        request_metadata: outs[i].0,
        response: outs[i].1,
    } by {
        assert(done.responses[0 + i] == done.responses[i]);
    }
    assert forall|i: int| 0 <= i < requests.len() implies #[trigger] done.polled_times(
        i as nat,
    ).poll_gives(InfernumEngineResult::Success(done.responses[i])) by {
        lemma_polled_times(done, i as nat);
    }
    lemma_polled_times(done, requests.len());
    if requests.len() == 0 {
        assert(done == queued);
    }
}

/// A new engine that nothing was submitted to answers a poll with
/// `Empty(Idle)`, and its state is `Idle`.
pub proof fn lemma_new_engine_polls_empty_idle<Req, Meta, Res>(r: InfernumEngineResult<Meta, Res>)
    ensures
        EngineModel::<Req, Meta, Res>::initial().state == InfernumEngineState::Idle,
        EngineModel::<Req, Meta, Res>::initial().poll_gives(r) <==> r
            == InfernumEngineResult::<Meta, Res>::Empty(InfernumEngineState::Idle),
{
}

/// Once the worker has taken a request, the state is `Processing` until the
/// outcome of the model call is reported: submissions, polls, a stop and
/// further requests for work leave it so, and a poll that finds no response
/// returns `Empty(Processing)`.
pub proof fn lemma_processing_until_reported<Req, Meta, Res>(
    m: EngineModel<Req, Meta, Res>,
    ops: Seq<EngineOp<Req, Meta, Res>>,
)
    requires
        m.worker_running,
        m.pending.len() > 0,
        forall|i: int|
            0 <= i < ops.len() ==> !(#[trigger] ops[i] is Complete) && !(ops[i] is Fail),
    ensures
        m.taken().run_ops(ops).state == InfernumEngineState::Processing,
        m.responses.len() == 0 ==> m.taken().run_ops(ops).responses.len() == 0,
        m.responses.len() == 0 && m.taken().run_ops(ops).worker_running ==> m.taken().run_ops(
            ops,
        ).poll_gives(InfernumEngineResult::Empty(InfernumEngineState::Processing)),
    decreases ops.len(),
{
    if ops.len() > 0 {
        let prefix = ops.drop_last();
        assert forall|i: int| 0 <= i < prefix.len() implies !(#[trigger] prefix[i] is Complete)
            && !(prefix[i] is Fail) by {
            assert(prefix[i] == ops[i]);
        }
        lemma_processing_until_reported(m, prefix);
        assert(!(ops[ops.len() - 1] is Complete) && !(ops[ops.len() - 1] is Fail));
    }
}

/// Once the worker has exited and every response has been polled, every
/// later poll, whatever calls come between, returns the error, never a
/// response and never `Empty`.
pub proof fn lemma_disconnected_for_good<Req, Meta, Res>(
    m: EngineModel<Req, Meta, Res>,
    ops: Seq<EngineOp<Req, Meta, Res>>,
    r: InfernumEngineResult<Meta, Res>,
)
    requires
        !m.worker_running,
        m.responses.len() == 0,
    ensures
        !m.run_ops(ops).worker_running,
        m.run_ops(ops).responses.len() == 0,
        m.run_ops(ops).poll_gives(r) ==> (r matches InfernumEngineResult::Error(msg) && msg@
            == crate::engine::disconnected_message()),
    decreases ops.len(),
{
    if ops.len() > 0 {
        lemma_disconnected_for_good(m, ops.drop_last(), r);
    }
}

/// The worker exits when the model fails, and after a stop once nothing is
/// queued; while requests are still queued a stop does not end it: it is
/// handed the oldest of them.
pub proof fn lemma_worker_exits_after_drain<Req, Meta, Res>(
    m: EngineModel<Req, Meta, Res>,
    a: WorkerAction<Req, Meta>,
)
    ensures
        !m.failed().worker_running,
        m.pending.len() == 0 ==> !m.stopped().taken().worker_running,
        m.worker_running && m.pending.len() > 0 ==> m.stopped().taken().worker_running,
        m.worker_running && m.pending.len() > 0 && m.stopped().take_gives(a) ==> (a matches WorkerAction::Run(
            job,
            request,
        ) && job.id == m.pending[0].id && request == m.pending[0].request),
{
}

} // verus!
