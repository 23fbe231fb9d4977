//! The events the orchestrator consumes and the leadership it tracks.

use vstd::prelude::*;

verus! {

/// Events that the actor handles.
#[derive(Debug, Eq, PartialEq, Clone, Copy, Structural)]
pub enum JustOneInitState {
    /// Actor is leader and should run process
    BecameLeader,
    /// Actor is shutting down
    BeganShutdown,
    /// Actor is follower and should not run process
    BecameFollower,
}

impl JustOneInitState {
    /// The event's name, as it is displayed.
    pub open spec fn name(self) -> Seq<char> {
        match self {
            JustOneInitState::BecameLeader => "BecameLeader"@,
            JustOneInitState::BeganShutdown => "BeganShutdown"@,
            JustOneInitState::BecameFollower => "BecameFollower"@,
        }
    }

    /// Whether the event reports a change of leadership, as opposed to a
    /// request to shut down.
    pub open spec fn is_leadership_event(self) -> bool {
        self != JustOneInitState::BeganShutdown
    }

    /// The event's name as an owned string.
    pub fn to_string(&self) -> (s: String)
        ensures
            s@ == self.name(),
    {
        match self {
            JustOneInitState::BecameLeader => "BecameLeader".to_owned(),
            JustOneInitState::BeganShutdown => "BeganShutdown".to_owned(),
            JustOneInitState::BecameFollower => "BecameFollower".to_owned(),
        }
    }
}

/// This instance's current belief about whether it holds the lease.
#[derive(Debug, Eq, PartialEq, Clone, Copy, Structural)]
pub enum LeadershipState {
    /// The lease is held: the managed process should run.
    Leader,
    /// The lease is not held, or nothing certain is known about it.
    Follower,
}

impl LeadershipState {
    /// The lower-case label used in status reports.
    pub open spec fn label(self) -> Seq<char> {
        match self {
            LeadershipState::Leader => "leader"@,
            LeadershipState::Follower => "follower"@,
        }
    }

    /// The label as an owned string.
    pub fn to_string(&self) -> (s: String)
        ensures
            s@ == self.label(),
    {
        match self {
            LeadershipState::Leader => "leader".to_owned(),
            LeadershipState::Follower => "follower".to_owned(),
        }
    }
}

/// What outside observers may see of the orchestrator: its leadership, and
/// whether it has begun to shut down.
#[derive(Debug, Eq, PartialEq, Clone, Copy, Structural)]
pub struct Status {
    /// The leadership most recently taken over from an event.
    pub leadership: LeadershipState,
    /// Whether shutdown has begun or the run is over.
    pub shutting_down: bool,
}

} // verus!
