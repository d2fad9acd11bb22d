//! The process-wide shared state: relaxed atomic counters, per-worker status
//! and heartbeat slots, and two tunables. No locks.
use vstd::prelude::*;

use std::sync::atomic::{AtomicU64, AtomicU8, Ordering};

use crate::task::AttackResult;

verus! {

/// A heartbeat older than this many seconds marks its worker as dead.
pub const STALE_AFTER_S: u64 = 5;

#[derive(Clone, Copy, Debug, PartialEq, Eq, Structural)]
pub enum WorkerStatus {
    Idle,
    Handshaking,
    Sending,
    Blocked,
    Dead,
}

pub open spec fn status_code(s: WorkerStatus) -> u8 {
    match s {
        WorkerStatus::Idle => 0,
        WorkerStatus::Handshaking => 1,
        WorkerStatus::Sending => 2,
        WorkerStatus::Blocked => 3,
        WorkerStatus::Dead => 4,
    }
}

pub open spec fn status_of_code(c: u8) -> Option<WorkerStatus> {
    if c == 0 {
        Some(WorkerStatus::Idle)
    } else if c == 1 {
        Some(WorkerStatus::Handshaking)
    } else if c == 2 {
        Some(WorkerStatus::Sending)
    } else if c == 3 {
        Some(WorkerStatus::Blocked)
    } else if c == 4 {
        Some(WorkerStatus::Dead)
    } else {
        None
    }
}

/// Decoding an encoded status gives the status back.
pub proof fn lemma_status_code_round_trip(s: WorkerStatus)
    ensures
        status_of_code(status_code(s)) == Some(s),
{
}

/// The moves a worker's status may make: `Idle`, then optionally
/// `Handshaking`, then `Sending`, optionally `Blocked`, back to `Idle`; any
/// live status may become `Dead`, and `Dead` is final.
pub open spec fn may_follow(from: WorkerStatus, to: WorkerStatus) -> bool {
    match from {
        WorkerStatus::Dead => to is Dead,
        WorkerStatus::Idle => to is Handshaking || to is Sending || to is Dead || to is Idle,
        WorkerStatus::Handshaking => to is Sending || to is Dead,
        WorkerStatus::Sending => to is Blocked || to is Idle || to is Dead,
        WorkerStatus::Blocked => to is Idle || to is Dead,
    }
}

impl WorkerStatus {
    pub fn code(&self) -> (r: u8)
        ensures
            r == status_code(*self),
    {
        match self {
            WorkerStatus::Idle => 0,
            WorkerStatus::Handshaking => 1,
            WorkerStatus::Sending => 2,
            WorkerStatus::Blocked => 3,
            WorkerStatus::Dead => 4,
        }
    }

    pub fn from_code(c: u8) -> (r: Option<WorkerStatus>)
        ensures
            r == status_of_code(c),
    {
        if c == 0 {
            Some(WorkerStatus::Idle)
        } else if c == 1 {
            Some(WorkerStatus::Handshaking)
        } else if c == 2 {
            Some(WorkerStatus::Sending)
        } else if c == 3 {
            Some(WorkerStatus::Blocked)
        } else if c == 4 {
            Some(WorkerStatus::Dead)
        } else {
            None
        }
    }

    pub fn may_become(&self, next: WorkerStatus) -> (r: bool)
        ensures
            r == may_follow(*self, next),
    {
        match self {
            WorkerStatus::Dead => next == WorkerStatus::Dead,
            WorkerStatus::Idle => next != WorkerStatus::Blocked,
            WorkerStatus::Handshaking => next == WorkerStatus::Sending || next
                == WorkerStatus::Dead,
            WorkerStatus::Sending => next != WorkerStatus::Handshaking && next
                != WorkerStatus::Sending,
            WorkerStatus::Blocked => next == WorkerStatus::Idle || next == WorkerStatus::Dead,
        }
    }
}

pub open spec fn is_stale(heartbeat_s: u64, now_s: u64) -> bool {
    now_s > heartbeat_s + STALE_AFTER_S
}

/// What an observer shows for a worker: dead once its heartbeat is stale.
pub open spec fn observed(status: WorkerStatus, heartbeat_s: u64, now_s: u64) -> WorkerStatus {
    if is_stale(heartbeat_s, now_s) {
        WorkerStatus::Dead
    } else {
        status
    }
}

pub fn observed_status(status: WorkerStatus, heartbeat_s: u64, now_s: u64) -> (r: WorkerStatus)
    ensures
        r == observed(status, heartbeat_s, now_s),
{
    if now_s > heartbeat_s && now_s - heartbeat_s > STALE_AFTER_S {
        WorkerStatus::Dead
    } else {
        status
    }
}

/// How much the shared counters move for one finished task.
#[derive(Clone, Copy, Debug, PartialEq, Eq, Structural)]
pub struct CounterDelta {
    pub requests: u64,
    pub bytes: u64,
    pub errors: u64,
}

/// A completed task adds one request and its size in bytes; a failed one adds
/// one error and nothing else.
pub open spec fn delta_for(outcome: Option<AttackResult>) -> CounterDelta {
    match outcome {
        Some(r) => CounterDelta { requests: 1, bytes: r.size_bytes as u64, errors: 0 },
        None => CounterDelta { requests: 0, bytes: 0, errors: 1 },
    }
}

pub fn completion_delta(outcome: Option<AttackResult>) -> (r: CounterDelta)
    ensures
        r == delta_for(outcome),
        outcome is Some ==> r.requests == 1 && r.bytes == outcome->0.size_bytes && r.errors == 0,
        outcome is None ==> r.requests == 0 && r.bytes == 0 && r.errors == 1,
{
    match outcome {
        Some(res) => CounterDelta { requests: 1, bytes: res.size_bytes as u64, errors: 0 },
        None => CounterDelta { requests: 0, bytes: 0, errors: 1 },
    }
}

/// Shared counters, worker slots and tunables, all relaxed atomics.
pub struct SharedState {
    total_requests: AtomicU64,
    total_bytes: AtomicU64,
    error_count: AtomicU64,
    worker_statuses: Vec<AtomicU8>,
    worker_heartbeats: Vec<AtomicU64>,
    target_rps: AtomicU64,
    jitter_permille: AtomicU64,
}

impl SharedState {
    #[verifier::type_invariant]
    spec fn slots_match(self) -> bool {
        self.worker_statuses@.len() == self.worker_heartbeats@.len()
    }

    /// The number of worker slots, fixed at construction.
    pub closed spec fn slot_count(self) -> nat {
        self.worker_statuses@.len()
    }

    pub fn new(num_workers: usize) -> (r: SharedState)
        ensures
            r.slot_count() == num_workers,
    {
        let mut worker_statuses: Vec<AtomicU8> = Vec::new();
        let mut worker_heartbeats: Vec<AtomicU64> = Vec::new();
        let mut i: usize = 0;
        while i < num_workers
            invariant
                i <= num_workers,
                worker_statuses@.len() == i,
                worker_heartbeats@.len() == i,
            decreases num_workers - i,
        {
            worker_statuses.push(AtomicU8::new(0));
            worker_heartbeats.push(AtomicU64::new(0));
            i = i + 1;
        }
        SharedState {
            total_requests: AtomicU64::new(0),
            total_bytes: AtomicU64::new(0),
            error_count: AtomicU64::new(0),
            worker_statuses,
            worker_heartbeats,
            target_rps: AtomicU64::new(0),
            jitter_permille: AtomicU64::new(0),
        }
    }

    pub fn num_workers(&self) -> (r: usize)
        ensures
            r == self.slot_count(),
    {
        self.worker_statuses.len()
    }

    /// Applies a delta: one `fetch_add` on each counter.
    pub fn apply(&self, delta: CounterDelta) {
        self.total_requests.fetch_add(delta.requests, Ordering::Relaxed);
        self.total_bytes.fetch_add(delta.bytes, Ordering::Relaxed);
        self.error_count.fetch_add(delta.errors, Ordering::Relaxed);
    }

    /// Records a finished task and returns the delta that was applied.
    pub fn record_outcome(&self, outcome: Option<AttackResult>) -> (r: CounterDelta)
        ensures
            r == delta_for(outcome),
    {
        let delta = completion_delta(outcome);
        self.apply(delta);
        delta
    }

    pub fn set_status(&self, worker: usize, status: WorkerStatus)
        requires
            worker < self.slot_count(),
    {
        self.worker_statuses[worker].store(status.code(), Ordering::Relaxed);
    }

    pub fn status(&self, worker: usize) -> (r: Option<WorkerStatus>)
        requires
            worker < self.slot_count(),
    {
        WorkerStatus::from_code(self.worker_statuses[worker].load(Ordering::Relaxed))
    }

    pub fn beat(&self, worker: usize, now_s: u64)
        requires
            worker < self.slot_count(),
    {
        proof {
            use_type_invariant(self);
        }
        self.worker_heartbeats[worker].store(now_s, Ordering::Relaxed);
    }

    pub fn heartbeat(&self, worker: usize) -> u64
        requires
            worker < self.slot_count(),
    {
        proof {
            use_type_invariant(self);
        }
        self.worker_heartbeats[worker].load(Ordering::Relaxed)
    }

    /// What an observer at `now_s` shows for a worker.
    pub fn observe(&self, worker: usize, now_s: u64) -> (r: WorkerStatus)
        requires
            worker < self.slot_count(),
    {
        let status = match self.status(worker) {
            Some(s) => s,
            None => WorkerStatus::Dead,
        };
        observed_status(status, self.heartbeat(worker), now_s)
    }

    pub fn total_requests(&self) -> u64 {
        self.total_requests.load(Ordering::Relaxed)
    }

    pub fn total_bytes(&self) -> u64 {
        self.total_bytes.load(Ordering::Relaxed)
    }

    pub fn error_count(&self) -> u64 {
        self.error_count.load(Ordering::Relaxed)
    }

    pub fn target_rps(&self) -> u64 {
        self.target_rps.load(Ordering::Relaxed)
    }

    pub fn set_target_rps(&self, rps: u64) {
        self.target_rps.store(rps, Ordering::Relaxed);
    }

    pub fn jitter_permille(&self) -> u64 {
        self.jitter_permille.load(Ordering::Relaxed)
    }

    pub fn set_jitter_permille(&self, permille: u64) {
        self.jitter_permille.store(permille, Ordering::Relaxed);
    }
}

} // verus!
