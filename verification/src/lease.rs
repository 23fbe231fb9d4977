//! Decisions of the leadership coordinator: which event a lease attempt
//! amounts to, and how often to contend for the lease.

use vstd::prelude::*;
use crate::state::JustOneInitState;

verus! {

/// What one attempt to acquire or renew the lease came to.
#[derive(Debug, Eq, PartialEq, Clone, Copy, Structural)]
pub enum LeaseAttempt {
    /// The lease backend answered.
    Answered {
        /// Whether the backend says that this holder has the lease.
        acquired_lease: bool,
        /// Whether the answer came with the lease itself.
        lease_present: bool,
    },
    /// The backend could not be reached, or reported an error.
    Failed,
}

/// The event to emit after a lease attempt, and whether to log a warning.
#[derive(Debug, Eq, PartialEq, Clone, Copy, Structural)]
pub struct LeaseVerdict {
    /// The event for the orchestrator.
    pub event: JustOneInitState,
    /// Whether the attempt failed and deserves a warning.
    pub warn: bool,
}

/// Whether the attempt shows for certain that this holder has the lease.
pub open spec fn holds_lease(attempt: LeaseAttempt) -> bool {
    attempt matches LeaseAttempt::Answered { acquired_lease, lease_present } && acquired_lease
        && lease_present
}

/// Turns a lease attempt into the event for the orchestrator. Only an answer
/// that grants the lease and carries it makes a leader. Anything uncertain,
/// a failure included, makes a follower; a failure also asks for a warning,
/// and the next tick tries again.
pub fn lease_event(attempt: LeaseAttempt) -> (r: LeaseVerdict)
    ensures
        holds_lease(attempt) ==> r.event == JustOneInitState::BecameLeader,
        !holds_lease(attempt) ==> r.event == JustOneInitState::BecameFollower,
        r.warn == (attempt is Failed),
{
    match attempt {
        LeaseAttempt::Answered { acquired_lease: true, lease_present: true } => LeaseVerdict {
            event: JustOneInitState::BecameLeader,
            warn: false,
        },
        LeaseAttempt::Answered { .. } => LeaseVerdict {
            event: JustOneInitState::BecameFollower,
            warn: false,
        },
        LeaseAttempt::Failed => LeaseVerdict { event: JustOneInitState::BecameFollower, warn: true },
    }
}

/// Nanoseconds in one second.
pub const NANOS_PER_SEC: u32 = 1_000_000_000;

/// A span of time: whole seconds and the nanoseconds beyond them.
#[derive(Debug, Eq, PartialEq, Clone, Copy, Structural)]
pub struct Interval {
    /// Whole seconds.
    pub secs: u64,
    /// Nanoseconds beyond the whole seconds, below one second.
    pub nanos: u32,
}

impl Interval {
    /// The whole span in nanoseconds.
    pub open spec fn total_nanos(self) -> int {
        self.secs * NANOS_PER_SEC + self.nanos
    }
}

/// A third of `lease_ttl_secs` seconds, in nanoseconds, rounded down.
pub open spec fn renew_nanos(lease_ttl_secs: u64) -> int {
    lease_ttl_secs * NANOS_PER_SEC / 3
}

/// How long to wait between two attempts to renew a lease that lives for
/// `lease_ttl_secs` seconds: a third of that, to the nanosecond, rounded
/// down. Three such waits fit into the lease's lifetime, so one missed
/// attempt does not lose the lease.
pub fn renew_interval(lease_ttl_secs: u64) -> (r: Interval)
    ensures
        r.total_nanos() == renew_nanos(lease_ttl_secs),
        r.nanos < NANOS_PER_SEC,
        3 * r.total_nanos() <= lease_ttl_secs * NANOS_PER_SEC,
{
    let secs: u64 = lease_ttl_secs / 3;
    let rest: u64 = lease_ttl_secs % 3;
    let nanos: u64 = rest * 1_000_000_000 / 3;
    assert(nanos < 1_000_000_000);
    Interval { secs, nanos: nanos as u32 }
}

} // verus!
