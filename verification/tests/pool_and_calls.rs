use rong_core::function::{CallGate, CallRefusal};
use rong_core::parameter::{check_arg_count, combine_requirements, ParamRequirement};
use rong_core::pinned::{finish_try_spawn, worker_index_for_hash, PinnedSpawnError, SendOutcome};
use rong_core::promise::{attach_after_drain, attach_now, PromiseHandlerRegistration, PromiseSettlement};
use rong_core::rong::{acquire_worker, claim_free_worker, check_pool_settings, free_workers_count, worker_name,
    RongBuildError, RongBuilder, WorkerState};
use rong_core::shared::{ensure_sync_bridge_allowed, reserve_first_idle, settle_task, InflightCounter, TaskOutcome,
    WorkerLoop};
use rong_core::error::RongJSError;

#[test]
fn builder_defaults_and_validation() {
    let b: RongBuilder<()> = RongBuilder::new();
    assert_eq!(b.worker_count(), 1);
    assert_eq!(b.task_capacity(), 100);
    assert_eq!(b.message_capacity(), 512);
    assert!(b.validate().is_ok());
    let b = b.workers(0);
    assert!(matches!(b.validate(), Err(RongBuildError::InvalidWorkers)));
    let b = b.workers(2).task_queue_capacity(0);
    assert!(matches!(b.validate(), Err(RongBuildError::InvalidTaskQueueCapacity)));
    let b = b.task_queue_capacity(3).message_queue_capacity(0);
    assert!(matches!(b.validate(), Err(RongBuildError::InvalidMessageQueueCapacity)));
    assert!(matches!(check_pool_settings(0, 0, 0), Err(RongBuildError::InvalidWorkers)));
}

#[test]
fn build_error_texts() {
    assert_eq!(RongBuildError::InvalidWorkers.message(), "workers must be greater than 0");
    let e = RongBuildError::WorkerStart { worker_id: 3, reason: "no runtime".to_string() };
    assert_eq!(e.message(), "worker 3 failed to start: no runtime");
    let js = RongBuildError::InvalidMessageQueueCapacity.into_js_error();
    assert_eq!(js.as_host_error().unwrap().message, "message queue capacity must be greater than 0");
}

#[test]
fn first_free_worker_is_claimed() {
    let mut states = vec![WorkerState::Busy, WorkerState::Free, WorkerState::Free];
    assert_eq!(free_workers_count(&states), 2);
    assert_eq!(claim_free_worker(&mut states), Some(1));
    assert_eq!(states, vec![WorkerState::Busy, WorkerState::Busy, WorkerState::Free]);
    assert_eq!(free_workers_count(&states), 1);
    assert_eq!(acquire_worker(&mut states).unwrap(), 2);
    let err = acquire_worker(&mut states).unwrap_err();
    assert_eq!(err.as_host_error().unwrap().message, "No free worker available");
    assert_eq!(worker_name(&None, 4), "worker-4");
    assert_eq!(worker_name(&Some("main".to_string()), 4), "main");
}

#[test]
fn inflight_counter_reports_idle_once() {
    let mut c = InflightCounter::new();
    assert!(c.reserve_if_idle());
    assert!(!c.reserve_if_idle());
    assert_eq!(c.increment(), 1);
    assert_eq!(c.pending(), 2);
    assert!(!c.decrement());
    assert!(c.decrement());
    assert_eq!(c.pending(), 0);
}

#[test]
fn first_idle_worker_is_reserved() {
    let mut counters = vec![InflightCounter::new(), InflightCounter::new()];
    assert_eq!(reserve_first_idle(&mut counters), Some(0));
    assert_eq!(reserve_first_idle(&mut counters), Some(1));
    assert_eq!(reserve_first_idle(&mut counters), None);
    assert_eq!(rong_core::shared::free_workers_count(&counters), 0);
}

#[test]
fn worker_loop_decisions() {
    let mut l = WorkerLoop::new();
    assert!(l.accepts_task());
    l.on_task_started();
    assert!(!l.accepts_task());
    assert!(l.awaits_task());
    assert!(l.on_terminate());
    assert!(!l.should_exit());
    l.on_task_finished();
    assert!(l.should_exit());
    assert!(!l.accepts_task());
    let mut idle = WorkerLoop::new();
    idle.on_queue_closed();
    assert!(idle.should_exit());
}

#[test]
fn task_settlement() {
    let ok: Result<u8, RongJSError> = settle_task(TaskOutcome::Completed(Ok(5)), "User task panicked or runtime dropped: ");
    assert_eq!(ok.unwrap(), 5);
    let aborted = settle_task::<u8>(TaskOutcome::Aborted, "x").unwrap_err();
    assert_eq!(aborted.as_host_error().unwrap().name, "AbortError");
    let failed = settle_task::<u8>(TaskOutcome::Failed("oops".to_string()), "Pinned task panicked or runtime dropped: ")
        .unwrap_err();
    assert_eq!(failed.as_host_error().unwrap().message, "Pinned task panicked or runtime dropped: oops");
}

#[test]
fn sync_bridge_rules() {
    assert!(ensure_sync_bridge_allowed("Rong::call_blocking", false, false).is_ok());
    let e = ensure_sync_bridge_allowed("Rong::call_blocking", true, true).unwrap_err();
    assert_eq!(e.as_host_error().unwrap().message, "Rong::call_blocking cannot run from inside a Rong worker thread");
    let e = ensure_sync_bridge_allowed("Worker::call_blocking", false, true).unwrap_err();
    assert_eq!(
        e.as_host_error().unwrap().message,
        "Worker::call_blocking cannot run from inside an active Tokio runtime; use .await instead"
    );
}

#[test]
fn pinned_rules() {
    assert_eq!(worker_index_for_hash(10, 3), 1);
    assert_eq!(worker_index_for_hash(u64::MAX, 1), 0);
    let mut c = InflightCounter::new();
    let before = c.increment();
    let full = finish_try_spawn(2, &mut c, before, SendOutcome::Full).unwrap_err();
    assert!(matches!(full, PinnedSpawnError::QueueFull { worker_id: 2, depth: 0 }));
    assert_eq!(full.message(), "pinned worker 2 queue is full at depth 0");
    assert_eq!(c.pending(), 0);
    let before = c.increment();
    let stopped = finish_try_spawn(1, &mut c, before, SendOutcome::Closed).unwrap_err();
    assert_eq!(stopped.message(), "pinned worker 1 stopped");
    let before = c.increment();
    assert!(finish_try_spawn(1, &mut c, before, SendOutcome::Sent).is_ok());
    assert_eq!(c.pending(), 1);
}

#[test]
fn call_gate_rules() {
    let mut once = CallGate::new_once(1);
    assert_eq!(once.parameter_required_count(), 1);
    assert!(matches!(once.decide(0), Err(CallRefusal::TooFewArgs)));
    assert!(once.decide(1).is_ok());
    assert!(matches!(once.decide(3), Err(CallRefusal::AlreadyCalled)));
    let err = once.check(1).unwrap_err();
    assert_eq!(err.as_host_error().unwrap().message, "OnceFn had been called");
    let mut many = CallGate::new(2);
    assert!(many.check(2).is_ok());
    assert!(many.check(5).is_ok());
    let e = many.check(1).unwrap_err();
    assert_eq!(e.as_host_error().unwrap().message, "2 arguments required, but 1 found");
    assert!(check_arg_count(0, 0).is_ok());
}

#[test]
fn parameter_requirements_add_up() {
    let r = combine_requirements(ParamRequirement::single(), ParamRequirement::optional());
    assert_eq!(r.required_count(), 1);
    assert!(!r.is_exhaustive());
    let r = combine_requirements(ParamRequirement::single(), ParamRequirement::single());
    assert_eq!(r.required_count(), 2);
    assert!(r.is_exhaustive());
    assert_eq!(ParamRequirement::none().required_count(), 0);
}

#[test]
fn promise_settlement_first_wins() {
    let mut s: PromiseSettlement<u8, u32> = PromiseSettlement::new(1);
    assert!(s.is_pending());
    assert_eq!(s.poll(2).map(|r| r.is_ok()), None);
    assert_eq!(s.settle(Ok(7)), Some(2));
    assert_eq!(s.settle(Ok(8)), None);
    assert_eq!(s.poll(3).unwrap().unwrap(), 7);
    assert!(s.poll(4).is_none());
    assert!(attach_now(PromiseHandlerRegistration::JavaScriptOnly));
    assert!(!attach_now(PromiseHandlerRegistration::NativeOnly));
    assert!(attach_after_drain(PromiseHandlerRegistration::NativeWithJavaScriptFallbackIfPending, true));
    assert!(!attach_after_drain(PromiseHandlerRegistration::NativeWithJavaScriptFallbackIfPending, false));
    assert!(!attach_after_drain(PromiseHandlerRegistration::NativeOnly, true));
}
