//! The rules of the pinned pool: every key is served by one fixed worker,
//! and a task that cannot be queued at once is refused with the reason.

use vstd::prelude::*;
use crate::shared::InflightCounter;
use crate::text::{concat3, decimal, decimal_string};

verus! {

/// Why a task could not be queued on a pinned worker.
#[derive(Debug)]
pub enum PinnedSpawnError {
    /// The worker's queue is full; `depth` tasks were in flight.
    QueueFull { worker_id: usize, depth: usize },
    /// The worker no longer takes tasks.
    WorkerStopped { worker_id: usize },
}

/// The text of a spawn error.
pub open spec fn spawn_error_text(e: PinnedSpawnError) -> Seq<char> {
    match e {
        PinnedSpawnError::QueueFull { worker_id, depth } => "pinned worker "@ + decimal(worker_id as nat)
            + " queue is full at depth "@ + decimal(depth as nat),
        PinnedSpawnError::WorkerStopped { worker_id } => "pinned worker "@ + decimal(worker_id as nat)
            + " stopped"@,
    }
}

impl PinnedSpawnError {
    /// The text of the error.
    pub fn message(&self) -> (r: String)
        ensures
            r@ == spawn_error_text(*self),
    {
        match self {
            PinnedSpawnError::QueueFull { worker_id, depth } => {
                let id = decimal_string(*worker_id as u64);
                let d = decimal_string(*depth as u64);
                let mut t = concat3("pinned worker ", id.as_str(), " queue is full at depth ");
                t.append(d.as_str());
                t
            },
            PinnedSpawnError::WorkerStopped { worker_id } => {
                let id = decimal_string(*worker_id as u64);
                concat3("pinned worker ", id.as_str(), " stopped")
            },
        }
    }
}

/// The worker that serves a key with the given hash: the hash, as a machine
/// word, modulo the number of workers.
pub fn worker_index_for_hash(hash: u64, worker_count: usize) -> (r: usize)
    requires
        worker_count > 0,
    ensures
        r == (hash as usize) % worker_count,
        r < worker_count,
{
    let h: usize = #[verifier::truncate] (hash as usize);
    h % worker_count
}

/// What happened when a task was offered to a worker's queue.
#[derive(Clone, Copy, Debug, PartialEq, Eq, Structural)]
pub enum SendOutcome {
    Sent,
    Full,
    Closed,
}

/// Settles a task offered without waiting. The task was counted in flight
/// before the offer, when `pending_before` tasks were in flight; a refused
/// task is counted out again and the error says why.
pub fn finish_try_spawn(worker_id: usize, counter: &mut InflightCounter, pending_before: usize, outcome: SendOutcome)
    -> (r: Result<(), PinnedSpawnError>)
    requires
        old(counter).spec_count() > 0,
    ensures
        outcome == SendOutcome::Sent ==> r is Ok && final(counter).spec_count() == old(counter).spec_count(),
        outcome == SendOutcome::Full ==> final(counter).spec_count() == old(counter).spec_count() - 1
            && (r matches Err(PinnedSpawnError::QueueFull { worker_id: w, depth: d }) && w == worker_id
            && d == pending_before),
        outcome == SendOutcome::Closed ==> final(counter).spec_count() == old(counter).spec_count() - 1
            && (r matches Err(PinnedSpawnError::WorkerStopped { worker_id: w }) && w == worker_id),
{
    match outcome {
        SendOutcome::Sent => Ok(()),
        SendOutcome::Full => {
            let _ = counter.decrement();
            Err(PinnedSpawnError::QueueFull { worker_id, depth: pending_before })
        },
        SendOutcome::Closed => {
            let _ = counter.decrement();
            Err(PinnedSpawnError::WorkerStopped { worker_id })
        },
    }
}

} // verus!
