//! Worker pools: configuration, worker states and the choice of a free worker.
//!
//! The threads, channels and runtimes of a pool live with the application;
//! this module holds the rules they follow.

use vstd::prelude::*;
use std::marker::PhantomData;
use crate::error::{is_plain_error, HostError, JSResult, RongJSError, E_INTERNAL, E_INVALID_STATE};
use crate::text::{concat3, decimal, decimal_string};

verus! {

/// The state of a worker of a pool.
#[derive(Clone, Copy, Debug, PartialEq, Eq, Structural)]
pub enum WorkerState {
    /// Idle and ready to take a task.
    Free,
    /// Running a task.
    Busy,
}

/// A message for the function running on a worker.
pub enum WorkerMessage {
    String(String),
    Usize(usize),
    /// Any other message, serialised by its sender.
    Custom(Vec<u8>),
}

/// The identity and state of a worker.
pub struct WorkerInfo {
    pub id: usize,
    pub name: String,
    pub state: WorkerState,
}

/// Why a pool could not be built.
#[derive(Debug)]
pub enum RongBuildError {
    InvalidWorkers,
    InvalidTaskQueueCapacity,
    InvalidMessageQueueCapacity,
    WorkerStart { worker_id: usize, reason: String },
}

/// The text of a build error.
pub open spec fn build_error_text(e: RongBuildError) -> Seq<char> {
    match e {
        RongBuildError::InvalidWorkers => "workers must be greater than 0"@,
        RongBuildError::InvalidTaskQueueCapacity => "task queue capacity must be greater than 0"@,
        RongBuildError::InvalidMessageQueueCapacity => "message queue capacity must be greater than 0"@,
        RongBuildError::WorkerStart { worker_id, reason } => "worker "@ + decimal(worker_id as nat)
            + " failed to start: "@ + reason@,
    }
}

impl RongBuildError {
    /// The text of the error.
    pub fn message(&self) -> (r: String)
        ensures
            r@ == build_error_text(*self),
    {
        match self {
            RongBuildError::InvalidWorkers => String::from_str("workers must be greater than 0"),
            RongBuildError::InvalidTaskQueueCapacity => String::from_str("task queue capacity must be greater than 0"),
            RongBuildError::InvalidMessageQueueCapacity => String::from_str(
                "message queue capacity must be greater than 0",
            ),
            RongBuildError::WorkerStart { worker_id, reason } => {
                let id = decimal_string(*worker_id as u64);
                let mut t = concat3("worker ", id.as_str(), " failed to start: ");
                t.append(reason.as_str());
                t
            },
        }
    }
}

impl RongBuildError {
    /// The library error for a failed build: an internal error with the text.
    pub fn into_js_error(self) -> (r: RongJSError)
        ensures
            is_plain_error(r, "Error"@, E_INTERNAL@, build_error_text(self)),
    {
        let message = self.message();
        RongJSError::host_error(HostError::new(E_INTERNAL, message.as_str()))
    }
}

/// A builder of worker pools: how many workers, and the capacity of each
/// worker's task and message queues.
pub struct RongBuilder<E> {
    workers: usize,
    task_queue_capacity: usize,
    message_queue_capacity: usize,
    _marker: PhantomData<E>,
}

/// The first setting a pool cannot be built with, in the order they are checked.
pub open spec fn build_check_spec(workers: usize, task_queue_capacity: usize, message_queue_capacity: usize)
    -> Option<RongBuildError> {
    if workers == 0 {
        Some(RongBuildError::InvalidWorkers)
    } else if task_queue_capacity == 0 {
        Some(RongBuildError::InvalidTaskQueueCapacity)
    } else if message_queue_capacity == 0 {
        Some(RongBuildError::InvalidMessageQueueCapacity)
    } else {
        None
    }
}

impl<E> RongBuilder<E> {
    pub closed spec fn spec_workers(&self) -> usize {
        self.workers
    }

    pub closed spec fn spec_task_queue_capacity(&self) -> usize {
        self.task_queue_capacity
    }

    pub closed spec fn spec_message_queue_capacity(&self) -> usize {
        self.message_queue_capacity
    }

    /// One worker, 100 queued tasks and 512 queued messages per worker.
    pub fn new() -> (r: Self)
        ensures
            r.spec_workers() == 1,
            r.spec_task_queue_capacity() == 100,
            r.spec_message_queue_capacity() == 512,
    {
        RongBuilder { workers: 1, task_queue_capacity: 100, message_queue_capacity: 512, _marker: PhantomData }
    }

    /// Sets the number of workers.
    pub fn workers(self, count: usize) -> (r: Self)
        ensures
            r.spec_workers() == count,
            r.spec_task_queue_capacity() == self.spec_task_queue_capacity(),
            r.spec_message_queue_capacity() == self.spec_message_queue_capacity(),
    {
        RongBuilder { workers: count, ..self }
    }

    /// Sets how many tasks may wait on each worker.
    pub fn task_queue_capacity(self, size: usize) -> (r: Self)
        ensures
            r.spec_workers() == self.spec_workers(),
            r.spec_task_queue_capacity() == size,
            r.spec_message_queue_capacity() == self.spec_message_queue_capacity(),
    {
        RongBuilder { task_queue_capacity: size, ..self }
    }

    /// Sets how many messages may wait for each worker's running task.
    pub fn message_queue_capacity(self, size: usize) -> (r: Self)
        ensures
            r.spec_workers() == self.spec_workers(),
            r.spec_task_queue_capacity() == self.spec_task_queue_capacity(),
            r.spec_message_queue_capacity() == size,
    {
        RongBuilder { message_queue_capacity: size, ..self }
    }

    pub fn worker_count(&self) -> (r: usize)
        ensures
            r == self.spec_workers(),
    {
        self.workers
    }

    pub fn task_capacity(&self) -> (r: usize)
        ensures
            r == self.spec_task_queue_capacity(),
    {
        self.task_queue_capacity
    }

    pub fn message_capacity(&self) -> (r: usize)
        ensures
            r == self.spec_message_queue_capacity(),
    {
        self.message_queue_capacity
    }

    /// Checks the settings before any worker starts: the number of workers
    /// and both capacities must be positive, checked in that order.
    pub fn validate(&self) -> (r: Result<(), RongBuildError>)
        ensures
            match build_check_spec(self.spec_workers(), self.spec_task_queue_capacity(),
                self.spec_message_queue_capacity()) {
                None => r is Ok,
                Some(e) => r == Err::<(), RongBuildError>(e),
            },
    {
        check_pool_settings(self.workers, self.task_queue_capacity, self.message_queue_capacity)
    }
}

/// The rule a pool's settings must meet, shared by the shared and the pinned pools.
pub fn check_pool_settings(workers: usize, task_queue_capacity: usize, message_queue_capacity: usize)
    -> (r: Result<(), RongBuildError>)
    ensures
        match build_check_spec(workers, task_queue_capacity, message_queue_capacity) {
            None => r is Ok,
            Some(e) => r == Err::<(), RongBuildError>(e),
        },
{
    if workers == 0 {
        Err(RongBuildError::InvalidWorkers)
    } else if task_queue_capacity == 0 {
        Err(RongBuildError::InvalidTaskQueueCapacity)
    } else if message_queue_capacity == 0 {
        Err(RongBuildError::InvalidMessageQueueCapacity)
    } else {
        Ok(())
    }
}

/// The number of free workers.
pub open spec fn free_count(states: Seq<WorkerState>) -> nat
    decreases states.len(),
{
    if states.len() == 0 {
        0
    } else {
        free_count(states.drop_last()) + if states.last() == WorkerState::Free { 1nat } else { 0nat }
    }
}

/// Claims the first free worker, in pool order: it becomes busy and its
/// index is returned; `None` when every worker is busy.
pub fn claim_free_worker(states: &mut Vec<WorkerState>) -> (r: Option<usize>)
    ensures
        final(states)@.len() == old(states)@.len(),
        r is None ==> final(states)@ == old(states)@ && forall|i: int| 0 <= i < old(states)@.len()
            ==> old(states)@[i] == WorkerState::Busy,
        r matches Some(i) ==> i < old(states)@.len() && old(states)@[i as int] == WorkerState::Free
            && (forall|j: int| 0 <= j < i ==> old(states)@[j] == WorkerState::Busy)
            && final(states)@ == old(states)@.update(i as int, WorkerState::Busy),
{
    let mut i: usize = 0;
    while i < states.len()
        invariant
            i <= states@.len(),
            states@ == old(states)@,
            forall|j: int| 0 <= j < i ==> states@[j] == WorkerState::Busy,
        decreases states@.len() - i,
    {
        if states[i] == WorkerState::Free {
            states.set(i, WorkerState::Busy);
            return Some(i);
        }
        i = i + 1;
    }
    None
}

/// Claims a free worker, or fails with the error of a pool whose workers
/// are all busy.
pub fn acquire_worker(states: &mut Vec<WorkerState>) -> (r: JSResult<usize>)
    ensures
        final(states)@.len() == old(states)@.len(),
        r is Err ==> final(states)@ == old(states)@ && (forall|i: int| 0 <= i < old(states)@.len()
            ==> old(states)@[i] == WorkerState::Busy) && (r matches Err(e) && is_plain_error(e, "Error"@,
            E_INVALID_STATE@, "No free worker available"@)),
        r matches Ok(i) ==> i < old(states)@.len() && old(states)@[i as int] == WorkerState::Free
            && (forall|j: int| 0 <= j < i ==> old(states)@[j] == WorkerState::Busy)
            && final(states)@ == old(states)@.update(i as int, WorkerState::Busy),
{
    match claim_free_worker(states) {
        Some(i) => Ok(i),
        None => Err(RongJSError::host_error(HostError::new(E_INVALID_STATE, "No free worker available"))),
    }
}

/// Counts the free workers.
pub fn free_workers_count(states: &Vec<WorkerState>) -> (r: usize)
    ensures
        r == free_count(states@),
{
    let mut n: usize = 0;
    let mut i: usize = 0;
    while i < states.len()
        invariant
            i <= states@.len(),
            n == free_count(states@.subrange(0, i as int)),
            n <= i,
        decreases states@.len() - i,
    {
        assert(states@.subrange(0, i as int + 1).drop_last() =~= states@.subrange(0, i as int));
        if states[i] == WorkerState::Free {
            n = n + 1;
        }
        i = i + 1;
    }
    assert(states@.subrange(0, states@.len() as int) =~= states@);
    n
}

/// A worker's name: the one it was given, else `worker-<id>`.
pub fn worker_name(name: &Option<String>, id: usize) -> (r: String)
    ensures
        match name {
            Some(n) => r@ == n@,
            None => r@ == "worker-"@ + decimal(id as nat),
        },
{
    match name {
        Some(n) => n.clone(),
        None => {
            let digits = decimal_string(id as u64);
            let mut s = String::from_str("worker-");
            s.append(digits.as_str());
            s
        },
    }
}

/// Refuses to wait for a worker from inside a worker thread, where the wait
/// could never end.
pub fn check_not_reentrant(inside_worker: bool) -> (r: JSResult<()>)
    ensures
        inside_worker <==> r is Err,
        inside_worker ==> (r matches Err(e) && is_plain_error(e, "Error"@, E_INTERNAL@,
            "get_worker_wait() called from inside a worker thread (reentrant block_on); this would deadlock"@)),
{
    if inside_worker {
        Err(RongJSError::host_error(HostError::new(
            E_INTERNAL,
            "get_worker_wait() called from inside a worker thread (reentrant block_on); this would deadlock",
        )))
    } else {
        Ok(())
    }
}

/// What the worker does with a posted message.
#[derive(Clone, Copy, Debug, PartialEq, Eq, Structural)]
pub enum MessageAction {
    /// Hand it to the running task.
    Deliver,
    /// Drop it: no task is running.
    Drop,
}

/// The state of a pool worker's loop: whether it was told to stop, whether
/// a task runs, and the state the pool sees. A running task can receive
/// messages; the loop takes one task at a time.
pub struct WorkerLoopState {
    should_terminate: bool,
    running: bool,
    state: WorkerState,
}

impl WorkerLoopState {
    pub closed spec fn spec_should_terminate(&self) -> bool {
        self.should_terminate
    }

    pub closed spec fn spec_running(&self) -> bool {
        self.running
    }

    pub closed spec fn spec_state(&self) -> WorkerState {
        self.state
    }

    /// The worker is busy exactly while a task runs.
    pub open spec fn consistent(&self) -> bool {
        (self.spec_state() == WorkerState::Busy) == self.spec_running()
    }

    /// A fresh loop: free, no task.
    pub fn new() -> (r: Self)
        ensures
            !r.spec_should_terminate(),
            !r.spec_running(),
            r.spec_state() == WorkerState::Free,
            r.consistent(),
    {
        WorkerLoopState { should_terminate: false, running: false, state: WorkerState::Free }
    }

    /// Whether the loop goes on.
    pub fn keeps_running(&self) -> (r: bool)
        ensures
            r == !self.spec_should_terminate(),
    {
        !self.should_terminate
    }

    /// Whether a new task is taken: none runs and no stop was asked for.
    pub fn accepts_task(&self) -> (r: bool)
        ensures
            r == (!self.spec_running() && !self.spec_should_terminate()),
    {
        !self.running && !self.should_terminate
    }

    /// What becomes of a message posted to the worker: the running task gets
    /// it; with no task running it is dropped.
    pub fn on_message(&self) -> (r: MessageAction)
        ensures
            self.spec_running() ==> r == MessageAction::Deliver,
            !self.spec_running() ==> r == MessageAction::Drop,
    {
        if self.running { MessageAction::Deliver } else { MessageAction::Drop }
    }

    /// Whether a message for the running task is taken.
    pub fn accepts_message(&self) -> (r: bool)
        ensures
            r == self.spec_running(),
    {
        self.running
    }

    /// The worker was told to stop: the loop ends, and `true` when a running
    /// task must be aborted.
    pub fn on_terminate(&mut self) -> (abort: bool)
        ensures
            final(self).spec_should_terminate(),
            final(self).spec_running() == old(self).spec_running(),
            final(self).spec_state() == old(self).spec_state(),
            abort == old(self).spec_running(),
    {
        self.should_terminate = true;
        self.running
    }

    /// A task arrived: the worker is busy with it.
    pub fn on_task_started(&mut self)
        requires
            !old(self).spec_running(),
            !old(self).spec_should_terminate(),
        ensures
            final(self).spec_running(),
            final(self).spec_state() == WorkerState::Busy,
            !final(self).spec_should_terminate(),
            final(self).consistent(),
    {
        self.running = true;
        self.state = WorkerState::Busy;
    }

    /// The task queue was closed: the loop ends.
    pub fn on_queue_closed(&mut self)
        ensures
            final(self).spec_should_terminate(),
            final(self).spec_running() == old(self).spec_running(),
            final(self).spec_state() == old(self).spec_state(),
    {
        self.should_terminate = true;
    }

    /// The running task ended: the worker is free again, and its waiters are woken.
    pub fn on_task_finished(&mut self)
        requires
            old(self).spec_running(),
        ensures
            !final(self).spec_running(),
            final(self).spec_state() == WorkerState::Free,
            final(self).spec_should_terminate() == old(self).spec_should_terminate(),
            final(self).consistent(),
    {
        self.running = false;
        self.state = WorkerState::Free;
    }

    /// The loop ended: any task left is dropped and the worker is free.
    pub fn on_exit(&mut self)
        ensures
            !final(self).spec_running(),
            final(self).spec_state() == WorkerState::Free,
            final(self).spec_should_terminate() == old(self).spec_should_terminate(),
            final(self).consistent(),
    {
        self.running = false;
        self.state = WorkerState::Free;
    }

    /// The state the pool sees.
    pub fn state(&self) -> (r: WorkerState)
        ensures
            r == self.spec_state(),
    {
        self.state
    }
}

/// A pool can be built exactly when it has a worker and both of its queues
/// can hold something.
pub proof fn law_build_accepts_exactly_positive(workers: usize, task_queue_capacity: usize,
    message_queue_capacity: usize)
    ensures
        build_check_spec(workers, task_queue_capacity, message_queue_capacity) is None
            <==> (workers > 0 && task_queue_capacity > 0 && message_queue_capacity > 0),
{
}

/// Claiming a free worker leaves one free worker fewer.
pub proof fn law_claim_takes_one_free(states: Seq<WorkerState>, i: int)
    requires
        0 <= i < states.len(),
        states[i] == WorkerState::Free,
    ensures
        free_count(states.update(i, WorkerState::Busy)) + 1 == free_count(states),
    decreases states.len(),
{
    let u = states.update(i, WorkerState::Busy);
    if i == states.len() - 1 {
        assert(u.drop_last() =~= states.drop_last());
    } else {
        law_claim_takes_one_free(states.drop_last(), i);
        assert(u.drop_last() =~= states.drop_last().update(i, WorkerState::Busy));
    }
}

/// The number of free workers never exceeds the pool's size.
pub proof fn law_free_count_bounded(states: Seq<WorkerState>)
    ensures
        free_count(states) <= states.len(),
    decreases states.len(),
{
    if states.len() > 0 {
        law_free_count_bounded(states.drop_last());
    }
}

} // verus!
