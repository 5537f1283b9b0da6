//! The rules of the shared pool's workers: how tasks in flight are counted,
//! how a worker's loop reacts to what happens to it, and how a task's end
//! becomes its result.

use vstd::prelude::*;
use crate::error::{is_plain_error, HostError, JSResult, RongJSError, E_ABORT, E_INTERNAL, E_NOT_FOUND};
use crate::text::{concat3, decimal, decimal_string};

verus! {

/// Whether a worker has tasks in flight.
#[derive(Clone, Copy, Debug, PartialEq, Eq, Structural)]
pub enum WorkerState {
    Idle,
    Busy,
}

/// A message for a running task.
pub enum TaskMessage {
    String(String),
    Usize(usize),
    /// Any other message, serialised by its sender.
    Custom(Vec<u8>),
}

/// The number of tasks a worker has accepted and not yet finished: queued
/// or running.
pub struct InflightCounter {
    count: usize,
}

impl InflightCounter {
    pub closed spec fn spec_count(&self) -> nat {
        self.count as nat
    }

    /// No task in flight.
    pub fn new() -> (r: Self)
        ensures
            r.spec_count() == 0,
    {
        InflightCounter { count: 0 }
    }

    /// The number of tasks in flight.
    pub fn pending(&self) -> (r: usize)
        ensures
            r == self.spec_count(),
    {
        self.count
    }

    /// Idle exactly when no task is in flight.
    pub fn state(&self) -> (r: WorkerState)
        ensures
            (r == WorkerState::Idle) == (self.spec_count() == 0),
    {
        if self.count == 0 { WorkerState::Idle } else { WorkerState::Busy }
    }

    /// Takes the worker for one task when it is idle: the count goes from 0
    /// to 1 and `true` is returned; otherwise nothing changes.
    pub fn reserve_if_idle(&mut self) -> (r: bool)
        ensures
            r == (old(self).spec_count() == 0),
            r ==> final(self).spec_count() == 1,
            !r ==> final(self).spec_count() == old(self).spec_count(),
    {
        if self.count == 0 {
            self.count = 1;
            true
        } else {
            false
        }
    }

    /// Counts one more task; the value before is returned.
    pub fn increment(&mut self) -> (r: usize)
        requires
            old(self).spec_count() < usize::MAX,
        ensures
            r == old(self).spec_count(),
            final(self).spec_count() == old(self).spec_count() + 1,
    {
        let before = self.count;
        self.count = before + 1;
        before
    }

    /// Counts one task as finished; `true` when the worker became idle, the
    /// moment its waiters are woken.
    pub fn decrement(&mut self) -> (r: bool)
        requires
            old(self).spec_count() > 0,
        ensures
            final(self).spec_count() == old(self).spec_count() - 1,
            r == (old(self).spec_count() == 1),
    {
        let before = self.count;
        self.count = before - 1;
        before == 1
    }
}

/// The first idle worker in pool order, which is reserved; `None` when all
/// are busy and the caller must wait for one to become idle.
pub fn reserve_first_idle(counters: &mut Vec<InflightCounter>) -> (r: Option<usize>)
    ensures
        final(counters)@.len() == old(counters)@.len(),
        r is None ==> (forall|i: int| 0 <= i < old(counters)@.len() ==> #[trigger] old(counters)@[i].spec_count() > 0)
            && forall|i: int| 0 <= i < old(counters)@.len() ==> #[trigger] final(counters)@[i].spec_count()
                == old(counters)@[i].spec_count(),
        r matches Some(i) ==> i < old(counters)@.len() && old(counters)@[i as int].spec_count() == 0
            && (forall|j: int| 0 <= j < i ==> #[trigger] old(counters)@[j].spec_count() > 0)
            && final(counters)@[i as int].spec_count() == 1
            && forall|j: int| 0 <= j < old(counters)@.len() && j != i ==> #[trigger] final(counters)@[j].spec_count()
                == old(counters)@[j].spec_count(),
{
    let mut i: usize = 0;
    while i < counters.len()
        invariant
            i <= counters@.len(),
            counters@ == old(counters)@,
            forall|j: int| 0 <= j < i ==> #[trigger] counters@[j].spec_count() > 0,
        decreases counters@.len() - i,
    {
        if counters[i].pending() == 0 {
            counters.set(i, InflightCounter { count: 1 });
            return Some(i);
        }
        i = i + 1;
    }
    None
}

/// The number of idle workers.
pub open spec fn idle_count(counters: Seq<InflightCounter>) -> nat
    decreases counters.len(),
{
    if counters.len() == 0 {
        0
    } else {
        idle_count(counters.drop_last()) + if counters.last().spec_count() == 0 { 1nat } else { 0nat }
    }
}

/// Counts the idle workers.
pub fn free_workers_count(counters: &Vec<InflightCounter>) -> (r: usize)
    ensures
        r == idle_count(counters@),
{
    let mut n: usize = 0;
    let mut i: usize = 0;
    while i < counters.len()
        invariant
            i <= counters@.len(),
            n == idle_count(counters@.subrange(0, i as int)),
            n <= i,
        decreases counters@.len() - i,
    {
        assert(counters@.subrange(0, i as int + 1).drop_last() =~= counters@.subrange(0, i as int));
        if counters[i].pending() == 0 {
            n = n + 1;
        }
        i = i + 1;
    }
    assert(counters@.subrange(0, counters@.len() as int) =~= counters@);
    n
}

/// The name of a shared worker: `worker-<id>`.
pub fn worker_name(id: usize) -> (r: String)
    ensures
        r@ == "worker-"@ + decimal(id as nat),
{
    let digits = decimal_string(id as u64);
    let mut s = String::from_str("worker-");
    s.append(digits.as_str());
    s
}

/// A worker of the pool by index, or the not-found error naming it.
pub fn check_worker_index(id: usize, count: usize) -> (r: JSResult<usize>)
    ensures
        id < count ==> r == Ok::<usize, RongJSError>(id),
        id >= count ==> (r matches Err(e) && is_plain_error(e, "Error"@, E_NOT_FOUND@, "Worker "@
            + decimal(id as nat) + " not found"@)),
{
    if id < count {
        Ok(id)
    } else {
        let digits = decimal_string(id as u64);
        let message = concat3("Worker ", digits.as_str(), " not found");
        Err(RongJSError::host_error(HostError::new(E_NOT_FOUND, message.as_str())))
    }
}

/// Whether a blocking call may wait here: not on a worker thread, whose
/// work it would stall, and not inside a running async runtime.
pub fn ensure_sync_bridge_allowed(api_name: &str, in_worker_thread: bool, in_async_runtime: bool) -> (r: JSResult<()>)
    ensures
        (!in_worker_thread && !in_async_runtime) <==> r is Ok,
        in_worker_thread ==> (r matches Err(e) && is_plain_error(e, "Error"@, E_INTERNAL@, api_name@
            + " cannot run from inside a Rong worker thread"@)),
        !in_worker_thread && in_async_runtime ==> (r matches Err(e) && is_plain_error(e, "Error"@, E_INTERNAL@,
            api_name@ + " cannot run from inside an active Tokio runtime; use .await instead"@)),
{
    if in_worker_thread {
        let mut m = String::from_str(api_name);
        m.append(" cannot run from inside a Rong worker thread");
        return Err(RongJSError::host_error(HostError::new(E_INTERNAL, m.as_str())));
    }
    if in_async_runtime {
        let mut m = String::from_str(api_name);
        m.append(" cannot run from inside an active Tokio runtime; use .await instead");
        return Err(RongJSError::host_error(HostError::new(E_INTERNAL, m.as_str())));
    }
    Ok(())
}

/// How a task's future ended.
pub enum TaskOutcome<R> {
    /// It ran to its end with this result.
    Completed(JSResult<R>),
    /// It was aborted before its end.
    Aborted,
    /// It panicked, or its runtime went away; the text describes it.
    Failed(String),
}

/// The result a task's caller receives: a completed task's own result, the
/// `AbortError` for an aborted one, and an internal error, whose message
/// starts with `prefix`, for one that failed.
pub fn settle_task<R>(outcome: TaskOutcome<R>, prefix: &str) -> (r: JSResult<R>)
    ensures
        outcome matches TaskOutcome::Completed(res) ==> r == res,
        outcome is Aborted ==> (r matches Err(e) && e.host() matches Some(h) && h.name@ == "AbortError"@
            && h.code@ == E_ABORT@ && h.message@ == "Operation aborted"@ && h.data is None),
        outcome matches TaskOutcome::Failed(text) ==> (r matches Err(e) && is_plain_error(e, "Error"@,
            E_INTERNAL@, prefix@ + text@)),
{
    match outcome {
        TaskOutcome::Completed(res) => res,
        TaskOutcome::Aborted => Err(RongJSError::host_error(HostError::aborted(None))),
        TaskOutcome::Failed(text) => {
            let mut m = String::from_str(prefix);
            m.append(text.as_str());
            Err(RongJSError::host_error(HostError::new(E_INTERNAL, m.as_str())))
        },
    }
}

/// The state of a worker's loop: whether it is shutting down, and whether a
/// task is running. The loop takes one task at a time.
pub struct WorkerLoop {
    shutting_down: bool,
    running: bool,
}

impl WorkerLoop {
    pub closed spec fn spec_shutting_down(&self) -> bool {
        self.shutting_down
    }

    pub closed spec fn spec_running(&self) -> bool {
        self.running
    }

    /// A loop that has just started: no task, not shutting down.
    pub fn new() -> (r: Self)
        ensures
            !r.spec_shutting_down(),
            !r.spec_running(),
    {
        WorkerLoop { shutting_down: false, running: false }
    }

    /// Whether the loop listens for termination: until it shuts down.
    pub fn listens_for_terminate(&self) -> (r: bool)
        ensures
            r == !self.spec_shutting_down(),
    {
        !self.shutting_down
    }

    /// Whether the loop takes a new task: only when none runs and it is not
    /// shutting down.
    pub fn accepts_task(&self) -> (r: bool)
        ensures
            r == (!self.spec_running() && !self.spec_shutting_down()),
    {
        !self.running && !self.shutting_down
    }

    /// Whether the loop waits for a running task to end.
    pub fn awaits_task(&self) -> (r: bool)
        ensures
            r == self.spec_running(),
    {
        self.running
    }

    /// Termination was asked for: the loop shuts down; `true` when a running
    /// task must be aborted.
    pub fn on_terminate(&mut self) -> (abort: bool)
        ensures
            final(self).spec_shutting_down(),
            final(self).spec_running() == old(self).spec_running(),
            abort == old(self).spec_running(),
    {
        self.shutting_down = true;
        self.running
    }

    /// A task arrived and starts running.
    pub fn on_task_started(&mut self)
        requires
            !old(self).spec_running(),
            !old(self).spec_shutting_down(),
        ensures
            final(self).spec_running(),
            !final(self).spec_shutting_down(),
    {
        self.running = true;
    }

    /// The task queue was closed: no task will come any more.
    pub fn on_queue_closed(&mut self)
        ensures
            final(self).spec_shutting_down(),
            final(self).spec_running() == old(self).spec_running(),
    {
        self.shutting_down = true;
    }

    /// The running task ended.
    pub fn on_task_finished(&mut self)
        requires
            old(self).spec_running(),
        ensures
            !final(self).spec_running(),
            final(self).spec_shutting_down() == old(self).spec_shutting_down(),
    {
        self.running = false;
    }

    /// The loop ends once it shuts down and no task runs; the tasks still
    /// queued are then answered with `AbortError`.
    pub fn should_exit(&self) -> (r: bool)
        ensures
            r == (self.spec_shutting_down() && !self.spec_running()),
    {
        self.shutting_down && !self.running
    }
}

/// Reserving an idle worker leaves one idle worker fewer.
pub proof fn law_reserve_takes_one_idle(before: Seq<InflightCounter>, after: Seq<InflightCounter>, i: int)
    requires
        0 <= i < before.len(),
        before.len() == after.len(),
        before[i].spec_count() == 0,
        after[i].spec_count() == 1,
        forall|j: int| 0 <= j < before.len() && j != i ==> #[trigger] after[j].spec_count() == before[j].spec_count(),
    ensures
        idle_count(after) + 1 == idle_count(before),
    decreases before.len(),
{
    if i == before.len() - 1 {
        lemma_idle_count_same(before.drop_last(), after.drop_last());
    } else {
        law_reserve_takes_one_idle(before.drop_last(), after.drop_last(), i);
    }
}

/// Two pools whose workers have equally many tasks in flight have equally
/// many idle workers.
proof fn lemma_idle_count_same(a: Seq<InflightCounter>, b: Seq<InflightCounter>)
    requires
        a.len() == b.len(),
        forall|j: int| 0 <= j < a.len() ==> #[trigger] a[j].spec_count() == b[j].spec_count(),
    ensures
        idle_count(a) == idle_count(b),
    decreases a.len(),
{
    if a.len() > 0 {
        lemma_idle_count_same(a.drop_last(), b.drop_last());
    }
}

} // verus!
