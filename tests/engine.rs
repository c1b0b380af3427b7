use kornia_infernum::{
    InfernumEngine, InfernumEngineResult, InfernumEngineState, RequestMetadata, WorkerAction,
};
use std::time::{Duration, Instant};

struct PromptRequest {
    prompt: String,
    image: Vec<u8>,
}

impl RequestMetadata for PromptRequest {
    type Metadata = String;

    fn metadata(&self) -> String {
        self.prompt.clone()
    }
}

fn request(prompt: &str) -> PromptRequest {
    PromptRequest { prompt: prompt.to_string(), image: vec![1, 2, 3] }
}

type Engine = InfernumEngine<PromptRequest, String>;

/// Runs one queued request through a model that answers with the upper-cased
/// prompt; returns the id of the job it ran.
fn serve_one(engine: &mut Engine) -> u8 {
    match engine.take_next_request() {
        WorkerAction::Run(job, req) => {
            assert_eq!(req.image, vec![1, 2, 3]);
            let id = job.id;
            let start = Instant::now();
            let answer = req.prompt.to_uppercase();
            engine.complete_success(job, answer, start, start.elapsed());
            id
        }
        WorkerAction::Wait => panic!("expected a request, got Wait"),
        WorkerAction::Exit => panic!("expected a request, got Exit"),
    }
}

fn expect_success(engine: &mut Engine) -> (u8, String, String) {
    match engine.try_poll_response() {
        InfernumEngineResult::Success(r) => (r.id, r.request_metadata, r.response),
        InfernumEngineResult::Empty(s) => panic!("expected a response, got Empty({})", s.as_str()),
        InfernumEngineResult::Error(e) => panic!("expected a response, got Error({})", e),
    }
}

#[test]
fn state_names() {
    assert_eq!(InfernumEngineState::Idle.as_str(), "idle");
    assert_eq!(InfernumEngineState::Processing.as_str(), "processing");
}

#[test]
fn new_engine_is_idle_and_polls_empty_idle() {
    let mut engine = Engine::new();
    assert_eq!(engine.state(), InfernumEngineState::Idle);
    for _ in 0..3 {
        assert!(matches!(
            engine.try_poll_response(),
            InfernumEngineResult::Empty(InfernumEngineState::Idle)
        ));
    }
    assert!(matches!(engine.take_next_request(), WorkerAction::Wait));
}

#[test]
fn single_request_processing_then_success() {
    let mut engine = Engine::new();
    engine.schedule_inference(request("p1"));
    let (job, req) = match engine.take_next_request() {
        WorkerAction::Run(job, req) => (job, req),
        _ => panic!("expected a request"),
    };
    assert_eq!(job.id, 0);
    assert_eq!(job.request_metadata, "p1");
    assert_eq!(engine.state(), InfernumEngineState::Processing);
    assert!(matches!(
        engine.try_poll_response(),
        InfernumEngineResult::Empty(InfernumEngineState::Processing)
    ));
    drop(req);
    let start = Instant::now();
    let duration = Duration::from_millis(25);
    engine.complete_success(job, "A".to_string(), start, duration);
    assert_eq!(engine.state(), InfernumEngineState::Idle);
    match engine.try_poll_response() {
        InfernumEngineResult::Success(r) => {
            assert_eq!(r.id, 0);
            assert_eq!(r.request_metadata, "p1");
            assert_eq!(r.response, "A");
            assert_eq!(r.start_time, start);
            assert_eq!(r.duration, duration);
        }
        _ => panic!("expected a response"),
    }
    assert!(matches!(
        engine.try_poll_response(),
        InfernumEngineResult::Empty(InfernumEngineState::Idle)
    ));
}

#[test]
fn failing_model_gives_channel_error_on_every_poll() {
    let mut engine = Engine::new();
    engine.schedule_inference(request("q1"));
    engine.schedule_inference(request("q2"));
    assert!(matches!(engine.take_next_request(), WorkerAction::Run(_, _)));
    engine.complete_failure();
    assert_eq!(engine.state(), InfernumEngineState::Processing);
    for _ in 0..5 {
        match engine.try_poll_response() {
            InfernumEngineResult::Error(e) => assert_eq!(e, "Response channel disconnected"),
            _ => panic!("expected the disconnection error"),
        }
    }
    // the queued request was dropped with the worker
    assert!(matches!(engine.take_next_request(), WorkerAction::Exit));
    engine.schedule_inference(request("q3"));
    assert!(matches!(engine.take_next_request(), WorkerAction::Exit));
    assert!(matches!(engine.try_poll_response(), InfernumEngineResult::Error(_)));
}

#[test]
fn three_requests_come_back_in_order() {
    let mut engine = Engine::new();
    engine.schedule_inference(request("first"));
    engine.schedule_inference(request("second"));
    engine.schedule_inference(request("third"));
    assert_eq!(serve_one(&mut engine), 0);
    assert_eq!(serve_one(&mut engine), 1);
    assert_eq!(serve_one(&mut engine), 2);
    assert_eq!(expect_success(&mut engine), (0, "first".to_string(), "FIRST".to_string()));
    assert_eq!(expect_success(&mut engine), (1, "second".to_string(), "SECOND".to_string()));
    assert_eq!(expect_success(&mut engine), (2, "third".to_string(), "THIRD".to_string()));
    assert!(matches!(
        engine.try_poll_response(),
        InfernumEngineResult::Empty(InfernumEngineState::Idle)
    ));
}

#[test]
fn interleaved_submissions_keep_order() {
    let mut engine = Engine::new();
    let prompts = ["a", "b", "c", "d", "e"];
    engine.schedule_inference(request(prompts[0]));
    engine.schedule_inference(request(prompts[1]));
    assert_eq!(serve_one(&mut engine), 0);
    engine.schedule_inference(request(prompts[2]));
    assert_eq!(expect_success(&mut engine).1, "a");
    assert_eq!(serve_one(&mut engine), 1);
    engine.schedule_inference(request(prompts[3]));
    engine.schedule_inference(request(prompts[4]));
    assert_eq!(serve_one(&mut engine), 2);
    assert_eq!(serve_one(&mut engine), 3);
    assert_eq!(serve_one(&mut engine), 4);
    assert!(matches!(engine.take_next_request(), WorkerAction::Wait));
    for (i, p) in prompts.iter().enumerate().skip(1) {
        let (id, meta, resp) = expect_success(&mut engine);
        assert_eq!(id as usize, i);
        assert_eq!(meta, *p);
        assert_eq!(resp, p.to_uppercase());
    }
    assert_eq!(engine.state(), InfernumEngineState::Idle);
}

#[test]
fn ids_wrap_after_255() {
    let mut engine = Engine::new();
    for i in 0..258 {
        engine.schedule_inference(request(&format!("r{}", i)));
    }
    for i in 0..258usize {
        assert_eq!(serve_one(&mut engine) as usize, i % 256);
    }
    for i in 0..258usize {
        let (id, meta, _) = expect_success(&mut engine);
        assert_eq!(id as usize, i % 256);
        assert_eq!(meta, format!("r{}", i));
    }
}

#[test]
fn stop_drains_queue_then_worker_exits() {
    let mut engine = Engine::new();
    engine.schedule_inference(request("x"));
    engine.schedule_inference(request("y"));
    engine.stop();
    engine.schedule_inference(request("ignored"));
    // still draining: the worker has not exited
    assert!(matches!(
        engine.try_poll_response(),
        InfernumEngineResult::Empty(InfernumEngineState::Idle)
    ));
    assert_eq!(serve_one(&mut engine), 0);
    assert_eq!(serve_one(&mut engine), 1);
    assert!(matches!(engine.take_next_request(), WorkerAction::Exit));
    engine.stop();
    // buffered responses come out before the error
    assert_eq!(expect_success(&mut engine).1, "x");
    assert_eq!(expect_success(&mut engine).1, "y");
    for _ in 0..3 {
        assert!(matches!(engine.try_poll_response(), InfernumEngineResult::Error(_)));
    }
}

#[test]
fn stop_on_idle_engine_exits_at_once() {
    let mut engine = Engine::new();
    engine.stop();
    engine.stop();
    engine.schedule_inference(request("late"));
    assert!(matches!(engine.take_next_request(), WorkerAction::Exit));
    assert!(matches!(engine.take_next_request(), WorkerAction::Exit));
    assert!(matches!(engine.try_poll_response(), InfernumEngineResult::Error(_)));
}

#[test]
fn completion_after_exit_is_ignored() {
    let mut engine = Engine::new();
    engine.schedule_inference(request("p"));
    let job = match engine.take_next_request() {
        WorkerAction::Run(job, _) => job,
        _ => panic!("expected a request"),
    };
    engine.complete_failure();
    let start = Instant::now();
    engine.complete_success(job, "late".to_string(), start, Duration::from_secs(1));
    assert!(matches!(engine.try_poll_response(), InfernumEngineResult::Error(_)));
}
