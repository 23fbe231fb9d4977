//! What the orchestrator guarantees over whole runs.
//!
//! The statements here are about a cooperative driver: one that carries out
//! each action before it hands over the next event, whose launches succeed,
//! and whose process exits only when it is stopped. [`handled`] is one event
//! under such a driver, [`ran`] a sequence of them.

use vstd::prelude::*;
use crate::orchestrator::{exit_outcome, Action, Input, OrchestratorView, Outcome, Phase};
use crate::process_launcher::{ProcessError, ProcessView};
use crate::state::JustOneInitState;

verus! {

/// The state after a cooperative driver has handled `event` to the end: a
/// launch that is asked for succeeds, and a process that is stopped exits
/// with `exit_success`.
pub open spec fn handled(
    state: OrchestratorView,
    event: JustOneInitState,
    exit_success: bool,
) -> OrchestratorView {
    let (taken, action) = state.next(Input::Event(event));
    match action {
        Action::Spawn => taken.after(Input::Launched(true)),
        Action::Stop => taken.after(Input::Stopped(Some(exit_success))),
        _ => taken,
    }
}

/// Whether the process stopped while handling the event at index `index`
/// exits successfully. Where `exits` says nothing of it, it does not, as a
/// process that is killed.
pub open spec fn exit_at(exits: Seq<bool>, index: int) -> bool {
    0 <= index < exits.len() && exits[index]
}

/// The state after a cooperative driver has handled `events` in order. The
/// process stopped while handling the event at index `i` exits as
/// [`exit_at`] says of `i`.
pub open spec fn ran(
    state: OrchestratorView,
    events: Seq<JustOneInitState>,
    exits: Seq<bool>,
) -> OrchestratorView
    decreases events.len(),
{
    if events.len() == 0 {
        state
    } else {
        handled(
            ran(state, events.drop_last(), exits),
            events.last(),
            exit_at(exits, events.len() - 1),
        )
    }
}

/// How many launches the orchestrator asks for while `events` are handled.
pub open spec fn launches(
    state: OrchestratorView,
    events: Seq<JustOneInitState>,
    exits: Seq<bool>,
) -> nat
    decreases events.len(),
{
    if events.len() == 0 {
        0
    } else {
        let before = ran(state, events.drop_last(), exits);
        let asked: nat = if before.next(Input::Event(events.last())).1 is Spawn {
            1
        } else {
            0
        };
        launches(state, events.drop_last(), exits) + asked
    }
}

/// How many stops the orchestrator asks for while `events` are handled.
pub open spec fn stops(
    state: OrchestratorView,
    events: Seq<JustOneInitState>,
    exits: Seq<bool>,
) -> nat
    decreases events.len(),
{
    if events.len() == 0 {
        0
    } else {
        let before = ran(state, events.drop_last(), exits);
        let asked: nat = if before.next(Input::Event(events.last())).1 is Stop {
            1
        } else {
            0
        };
        stops(state, events.drop_last(), exits) + asked
    }
}

/// How many leader periods `events` hold: the number of `BecameLeader` events
/// that do not directly follow another one.
pub open spec fn leader_periods(events: Seq<JustOneInitState>) -> nat
    decreases events.len(),
{
    if events.len() == 0 {
        0
    } else {
        let begins: nat = if events.last() == JustOneInitState::BecameLeader && (events.len() == 1
            || events[events.len() - 2] != JustOneInitState::BecameLeader) {
            1
        } else {
            0
        };
        leader_periods(events.drop_last()) + begins
    }
}

/// Whether the process runs exactly when it should, and nothing is pending.
spec fn at_rest(state: OrchestratorView) -> bool {
    &&& state.process.wf()
    &&& state.process.launch is Ok
    &&& !(state.phase is ShuttingDown)
    &&& state.process.is_running() <==> state.wants_process()
}

proof fn lemma_handled_at_rest(state: OrchestratorView, event: JustOneInitState, exit_success: bool)
    requires
        at_rest(state),
    ensures
        at_rest(handled(state, event, exit_success)),
        state.phase is Active ==> {
            let handled = handled(state, event, exit_success);
            &&& handled.phase is Active <==> event != JustOneInitState::BeganShutdown
            &&& event == JustOneInitState::BecameLeader ==> handled.leadership is Leader
            &&& event == JustOneInitState::BecameFollower ==> handled.leadership is Follower
        },
        !(state.phase is Active) ==> handled(state, event, exit_success) == state,
{
}

proof fn lemma_ran_at_rest(
    state: OrchestratorView,
    events: Seq<JustOneInitState>,
    exits: Seq<bool>,
)
    requires
        at_rest(state),
        state.phase is Active,
    ensures
        at_rest(ran(state, events, exits)),
        ran(state, events, exits).phase is Active <==> !events.contains(
            JustOneInitState::BeganShutdown,
        ),
        events.len() > 0 && ran(state, events, exits).phase is Active ==> (ran(
            state,
            events,
            exits,
        ).leadership is Leader <==> events.last() == JustOneInitState::BecameLeader),
        events.len() == 0 ==> ran(state, events, exits) == state,
    decreases events.len(),
{
    if events.len() > 0 {
        let earlier = events.drop_last();
        lemma_ran_at_rest(state, earlier, exits);
        lemma_handled_at_rest(
            ran(state, earlier, exits),
            events.last(),
            exit_at(exits, events.len() - 1),
        );
        assert(forall|i: int| 0 <= i < earlier.len() ==> earlier[i] == events[i]);
    }
}

/// Under a cooperative driver the process is running exactly when the most
/// recent event was `BecameLeader` and no shutdown was requested, whatever
/// the sequence of events. This holds for a run that begins as a follower
/// without a process, with a command line that can be launched.
pub proof fn law_running_iff_leading(
    process: ProcessView,
    events: Seq<JustOneInitState>,
    exits: Seq<bool>,
)
    requires
        process.wf(),
        process.launch is Ok,
        !process.is_running(),
    ensures
        ran(OrchestratorView::initial(process), events, exits).process.is_running() <==> (
        events.len() > 0 && events.last() == JustOneInitState::BecameLeader && !events.contains(
            JustOneInitState::BeganShutdown,
        )),
{
    lemma_ran_at_rest(OrchestratorView::initial(process), events, exits);
}

/// Becoming leader twice is the same as becoming leader once: the second
/// event asks for no launch and changes nothing.
pub proof fn law_start_is_idempotent(state: OrchestratorView, first_exit: bool, second_exit: bool)
    ensures
        ({
            let leading = handled(state, JustOneInitState::BecameLeader, first_exit);
            &&& !(leading.next(Input::Event(JustOneInitState::BecameLeader)).1 is Spawn)
            &&& handled(leading, JustOneInitState::BecameLeader, second_exit) == leading
        }),
{
}

/// Becoming follower twice is the same as becoming follower once: the second
/// event asks for no stop, reports no error, and changes nothing.
pub proof fn law_stop_is_idempotent(state: OrchestratorView, first_exit: bool, second_exit: bool)
    ensures
        ({
            let following = handled(state, JustOneInitState::BecameFollower, first_exit);
            let again = following.next(Input::Event(JustOneInitState::BecameFollower));
            &&& !(again.1 is Stop)
            &&& following.phase is Active ==> again.1 is Wait
            &&& handled(following, JustOneInitState::BecameFollower, second_exit) == following
        }),
{
}

/// A shutdown request stops the process before anything else. While the
/// process runs, the request asks for the stop alone. Only the report on that
/// stop ends the run, and then the process no longer runs, unless the signal
/// could not be delivered. Without a running process the run ends at once,
/// and the last exit decides the outcome. Either way the lease is released
/// exactly if this instance was leader when shutdown began.
pub proof fn law_shutdown_stops_before_step_down(state: OrchestratorView, stopped: Option<bool>)
    requires
        !(state.phase is Finished),
    ensures
        ({
            let (begun, first) = state.next(Input::Event(JustOneInitState::BeganShutdown));
            let (ended, last) = begun.next(Input::Stopped(stopped));
            if state.process.is_running() {
                &&& first == Action::Stop
                &&& begun.phase is ShuttingDown
                &&& begun.leadership == state.leadership
                &&& begun.process == state.process
                &&& last matches Action::Finish { step_down, outcome }
                &&& step_down == (state.leadership is Leader)
                &&& stopped matches Some(success) ==> !ended.process.is_running() && outcome
                    == exit_outcome(Some(success))
                &&& stopped is None ==> outcome == Outcome::Fatal(ProcessError::Termination)
            } else {
                &&& first matches Action::Finish { step_down, outcome }
                &&& step_down == (state.leadership is Leader)
                &&& outcome == exit_outcome(state.process.unread_exit)
            }
        }),
{
}

/// Whenever a step ends the run and asks to release the lease, the process
/// is not running, except where stopping it was tried and the signal could
/// not be delivered.
pub proof fn law_step_down_follows_stop(state: OrchestratorView, input: Input)
    requires
        !(state.phase is Finished),
    ensures
        ({
            let (after, action) = state.next(input);
            action matches Action::Finish { step_down, outcome } ==> (step_down ==> (
            !after.process.is_running() || outcome == Outcome::Fatal(
                ProcessError::Termination,
            )))
        }),
{
}

/// The lease is only ever released by a leader: a step that ends the run
/// asks to release it only if this instance was leader before the step, and
/// still is after it.
pub proof fn law_step_down_only_as_leader(state: OrchestratorView, input: Input)
    requires
        !(state.phase is Finished),
    ensures
        ({
            let (after, action) = state.next(input);
            action matches Action::Finish { step_down, .. } ==> (step_down ==> state.leadership
                is Leader && after.leadership is Leader)
        }),
{
}

/// When a poll sees that the process has exited while this instance is
/// leader, the run ends without any shutdown request: the lease is released,
/// and the outcome is a failure exactly if the exit was not a success.
pub proof fn law_exit_while_leader_ends_run(state: OrchestratorView, success: bool)
    requires
        state.phase is Active,
        state.leadership is Leader,
        state.process.is_running(),
    ensures
        ({
            let (after, action) = state.next(Input::Tick(Some(success)));
            &&& action matches Action::Finish { step_down, outcome }
            &&& step_down
            &&& outcome.is_failure() <==> !success
            &&& outcome == exit_outcome(Some(success))
            &&& !after.process.is_running()
        }),
{
}

/// An instance that only ever hears `BecameFollower` never launches
/// anything, and a shutdown request then ends the run at once: nothing to
/// stop, no lease to release, success.
pub proof fn law_never_leader_ends_cleanly(
    process: ProcessView,
    events: Seq<JustOneInitState>,
    exits: Seq<bool>,
)
    requires
        process.wf(),
        process.lifecycle is NotStarted,
        forall|i: int| 0 <= i < events.len() ==> events[i] == JustOneInitState::BecameFollower,
    ensures
        ran(OrchestratorView::initial(process), events, exits) == OrchestratorView::initial(
            process,
        ),
        launches(OrchestratorView::initial(process), events, exits) == 0,
        OrchestratorView::initial(process).next(Input::Event(JustOneInitState::BeganShutdown)).1
            == (Action::Finish { step_down: false, outcome: Outcome::Success }),
    decreases events.len(),
{
    if events.len() > 0 {
        law_never_leader_ends_cleanly(process, events.drop_last(), exits);
    }
}

/// A launch that fails ends the run at once with a failure, without a stop
/// and without releasing the lease.
pub proof fn law_failed_launch_is_fatal(state: OrchestratorView)
    requires
        !(state.phase is Finished),
    ensures
        state.next(Input::Launched(false)).1 == (Action::Finish {
            step_down: false,
            outcome: Outcome::Fatal(ProcessError::Launch),
        }),
        state.next(Input::Launched(false)).0.process == state.process,
{
}

/// While active, the leadership is that of the most recent leadership
/// event, and it is already in place when the step answers: observers see
/// the new leadership before the driver acts on the process.
pub proof fn law_leadership_follows_events(state: OrchestratorView, event: JustOneInitState)
    requires
        state.phase is Active,
        event.is_leadership_event(),
    ensures
        state.after(Input::Event(event)).leadership is Leader <==> event
            == JustOneInitState::BecameLeader,
        state.after(Input::Event(event)).status().leadership == state.after(
            Input::Event(event),
        ).leadership,
        state.after(Input::Event(event)).process == state.process,
{
}

/// Observers never see a leader that neither has a process nor is about to
/// get one, and never a run that is ending as one that goes on: after every
/// step, a status of leader and not shutting down means that the process
/// runs or its launch is asked for, and an end is only announced when the
/// status says that shutdown has begun.
pub proof fn law_status_is_never_stale(state: OrchestratorView, input: Input)
    ensures
        ({
            let (after, action) = state.next(input);
            &&& after.status().leadership is Leader && !after.status().shutting_down ==> (
            after.process.is_running() || action is Spawn)
            &&& action is Finish ==> after.status().shutting_down
        }),
{
}

/// A finished run stays finished: whatever is reported, the state does not
/// change and the same end is announced.
pub proof fn law_finished_is_final(state: OrchestratorView, input: Input)
    requires
        state.phase is Finished,
    ensures
        state.next(input).0 == state,
        state.next(input).1 == (Action::Finish {
            step_down: state.phase->step_down,
            outcome: state.phase->outcome,
        }),
{
}

/// Every step leaves the orchestrator well formed.
pub proof fn law_steps_keep_well_formed(state: OrchestratorView, input: Input)
    requires
        state.process.wf(),
    ensures
        state.after(input).wf(),
{
}

/// Over any sequence of leadership events, a cooperative driver is asked for
/// exactly one launch per leader period and one stop per leader period that
/// has ended. So no process is ever left behind: the launches exceed the
/// stops by one while a process runs, and equal them otherwise.
pub proof fn law_one_process_per_leader_period(
    process: ProcessView,
    events: Seq<JustOneInitState>,
    exits: Seq<bool>,
)
    requires
        process.wf(),
        process.launch is Ok,
        !process.is_running(),
        forall|i: int| 0 <= i < events.len() ==> events[i] != JustOneInitState::BeganShutdown,
    ensures
        ({
            let start = OrchestratorView::initial(process);
            let running: nat = if ran(start, events, exits).process.is_running() {
                1
            } else {
                0
            };
            &&& launches(start, events, exits) == leader_periods(events)
            &&& stops(start, events, exits) + running == leader_periods(events)
        }),
    decreases events.len(),
{
    let start = OrchestratorView::initial(process);
    if events.len() > 0 {
        let earlier = events.drop_last();
        law_one_process_per_leader_period(process, earlier, exits);
        lemma_ran_at_rest(start, earlier, exits);
    }
}

} // verus!
