//! The event-driven state machine that starts, stops and watches the
//! supervised process according to leadership, and sequences shutdown.
//!
//! The orchestrator performs no I/O. A driver hands it one [`Input`] at a
//! time: an event from the queue, a tick with what a poll of the process saw,
//! or the result of an action it asked for. Each step answers with the
//! [`Action`] that the driver owes next. Whatever the driver reports, the
//! answer follows from the new state alone: a process that should run and
//! does not is launched, one that runs and should not is stopped.

use vstd::prelude::*;
use crate::process_launcher::{Launch, ProcessError, ProcessManager, ProcessView};
use crate::state::{JustOneInitState, LeadershipState, Status};

verus! {

/// How many events the queue between the producers and the orchestrator
/// holds before a producer has to wait.
pub const EVENT_QUEUE_CAPACITY: usize = 10;

/// How a run ended.
#[derive(Debug, Eq, PartialEq, Clone, Copy, Structural)]
pub enum Outcome {
    /// Clean shutdown: the process never ran, or its last exit was a success.
    Success,
    /// The supervised process's last exit was not a success.
    ProcessFailed,
    /// The process could not be launched or stopped.
    Fatal(ProcessError),
}

impl Outcome {
    /// Whether the orchestrator itself has to terminate with a failure.
    pub open spec fn is_failure(self) -> bool {
        self != Outcome::Success
    }

    /// Whether the orchestrator itself has to terminate with a failure.
    pub fn failed(&self) -> (r: bool)
        ensures
            r == self.is_failure(),
    {
        match self {
            Outcome::Success => false,
            _ => true,
        }
    }
}

/// The outcome that the last unread exit of the process stands for.
pub open spec fn exit_outcome(unread_exit: Option<bool>) -> Outcome {
    if unread_exit == Some(false) {
        Outcome::ProcessFailed
    } else {
        Outcome::Success
    }
}

/// Where the orchestrator stands between start and end of a run.
#[derive(Debug, Eq, PartialEq, Clone, Copy, Structural)]
pub enum Phase {
    /// Following leadership events.
    Active,
    /// Shutdown has begun and the process is still to be stopped.
    ShuttingDown,
    /// The run is over.
    Finished {
        /// Whether the lease is to be released before leaving.
        step_down: bool,
        /// How the run ended.
        outcome: Outcome,
    },
}

/// What the driver reports to the orchestrator.
#[derive(Debug, Eq, PartialEq, Clone, Copy, Structural)]
pub enum Input {
    /// An event taken from the queue.
    Event(JustOneInitState),
    /// No event arrived within the renewal interval. The driver has polled
    /// the process: `None` while it is alive or absent, else whether it
    /// exited successfully.
    Tick(Option<bool>),
    /// The launch that was asked for succeeded, or failed.
    Launched(bool),
    /// The stop that was asked for is done: the process has exited,
    /// successfully or not, or (`None`) the signal could not be delivered.
    Stopped(Option<bool>),
}

/// What the orchestrator asks the driver to do next.
#[derive(Debug, Eq, PartialEq, Clone, Copy, Structural)]
pub enum Action {
    /// Nothing: wait for the next event or tick.
    Wait,
    /// Launch the process and report [`Input::Launched`].
    Spawn,
    /// Send the process the termination signal, wait for it to exit, and
    /// report [`Input::Stopped`].
    Stop,
    /// Release the lease if `step_down` says so, cancel all background
    /// tasks, and terminate with `outcome`.
    Finish {
        /// Whether to release the lease first.
        step_down: bool,
        /// How the run ended.
        outcome: Outcome,
    },
}

/// The mathematical content of an [`Orchestrator`].
pub struct OrchestratorView {
    /// The leadership most recently taken over from an event.
    pub leadership: LeadershipState,
    /// Where the run stands.
    pub phase: Phase,
    /// The supervised process.
    pub process: ProcessView,
}

impl OrchestratorView {
    /// The orchestrator at the start of a run: a follower, active.
    pub open spec fn initial(process: ProcessView) -> OrchestratorView {
        OrchestratorView { leadership: LeadershipState::Follower, phase: Phase::Active, process }
    }

    /// What outside observers see.
    pub open spec fn status(self) -> Status {
        Status { leadership: self.leadership, shutting_down: !(self.phase is Active) }
    }

    /// Whether the process should be running: only while active and leader.
    pub open spec fn wants_process(self) -> bool {
        self.phase is Active && self.leadership is Leader
    }

    /// Takes in what the driver reports, before anything is decided. A
    /// finished run takes in nothing. Leadership events count only while
    /// active. An exit seen by a poll while the process should be running
    /// begins shutdown, as a shutdown event does. A failed launch and a
    /// signal that could not be delivered end the run at once; only during
    /// shutdown is the lease still released.
    pub open spec fn absorb(self, input: Input) -> OrchestratorView {
        if self.phase is Finished {
            self
        } else {
            match input {
                Input::Event(JustOneInitState::BecameLeader) => if self.phase is Active {
                    OrchestratorView { leadership: LeadershipState::Leader, ..self }
                } else {
                    self
                },
                Input::Event(JustOneInitState::BecameFollower) => if self.phase is Active {
                    OrchestratorView { leadership: LeadershipState::Follower, ..self }
                } else {
                    self
                },
                Input::Event(JustOneInitState::BeganShutdown) => OrchestratorView {
                    phase: Phase::ShuttingDown,
                    ..self
                },
                Input::Tick(observed_exit) => {
                    let process = self.process.observed(observed_exit);
                    if self.wants_process() && self.process.is_running() && !process.is_running() {
                        OrchestratorView { phase: Phase::ShuttingDown, process, ..self }
                    } else {
                        OrchestratorView { process, ..self }
                    }
                },
                Input::Launched(true) => OrchestratorView {
                    process: self.process.started(),
                    ..self
                },
                Input::Launched(false) => OrchestratorView {
                    phase: Phase::Finished {
                        step_down: false,
                        outcome: Outcome::Fatal(ProcessError::Launch),
                    },
                    ..self
                },
                Input::Stopped(Some(success)) => OrchestratorView {
                    process: self.process.exited(success),
                    ..self
                },
                Input::Stopped(None) => OrchestratorView {
                    phase: Phase::Finished {
                        step_down: self.phase is ShuttingDown && self.leadership is Leader,
                        outcome: Outcome::Fatal(ProcessError::Termination),
                    },
                    ..self
                },
            }
        }
    }

    /// Draws the conclusions that need no further action. A shutdown whose
    /// process no longer runs is finished: the lease is released if this
    /// instance is leader, and the last exit of the process is read and
    /// decides the outcome. A leader whose command line cannot be launched
    /// has failed for good.
    pub open spec fn settle(self) -> OrchestratorView {
        match self.phase {
            Phase::Finished { .. } => self,
            Phase::ShuttingDown => if self.process.is_running() {
                self
            } else {
                OrchestratorView {
                    phase: Phase::Finished {
                        step_down: self.leadership is Leader,
                        outcome: exit_outcome(self.process.unread_exit),
                    },
                    process: self.process.consumed(),
                    ..self
                }
            },
            Phase::Active => if self.leadership is Leader && !self.process.is_running()
                && self.process.launch is Err {
                OrchestratorView {
                    phase: Phase::Finished {
                        step_down: false,
                        outcome: Outcome::Fatal(self.process.launch->Err_0),
                    },
                    ..self
                }
            } else {
                self
            },
        }
    }

    /// What the driver owes in this state.
    pub open spec fn owed(self) -> Action {
        match self.phase {
            Phase::Finished { step_down, outcome } => Action::Finish { step_down, outcome },
            Phase::ShuttingDown => if self.process.is_running() {
                Action::Stop
            } else {
                Action::Wait
            },
            Phase::Active => if self.leadership is Leader && !self.process.is_running() {
                Action::Spawn
            } else if self.leadership is Follower && self.process.is_running() {
                Action::Stop
            } else {
                Action::Wait
            },
        }
    }

    /// Whether nothing is left to conclude: a shutdown still has a process to
    /// stop, and a leader without a process has something to launch.
    pub open spec fn settled(self) -> bool {
        &&& self.phase is ShuttingDown ==> self.process.is_running()
        &&& self.wants_process() && !self.process.is_running() ==> self.process.launch is Ok
    }

    /// What holds of every orchestrator between two steps.
    pub open spec fn wf(self) -> bool {
        self.process.wf() && self.settled()
    }

    /// The state after `input`.
    pub open spec fn after(self, input: Input) -> OrchestratorView {
        self.absorb(input).settle()
    }

    /// One step: the state after `input`, and what the driver owes then.
    pub open spec fn next(self, input: Input) -> (OrchestratorView, Action) {
        (self.after(input), self.after(input).owed())
    }
}

/// The authoritative actor: the only writer of leadership and of the
/// process's lifecycle.
#[derive(Debug)]
pub struct Orchestrator {
    leadership: LeadershipState,
    phase: Phase,
    process: ProcessManager,
}

impl View for Orchestrator {
    type V = OrchestratorView;

    closed spec fn view(&self) -> OrchestratorView {
        OrchestratorView { leadership: self.leadership, phase: self.phase, process: self.process@ }
    }
}

impl Orchestrator {
    /// An orchestrator for `process` at the start of a run: a follower,
    /// active.
    pub fn new(process: ProcessManager) -> (r: Self)
        ensures
            r@ == OrchestratorView::initial(process@),
            r@.wf(),
    {
        proof {
            use_type_invariant(&process);
        }
        Orchestrator { leadership: LeadershipState::Follower, phase: Phase::Active, process }
    }

    /// The leadership most recently taken over from an event.
    pub fn leadership(&self) -> (r: LeadershipState)
        ensures
            r == self@.leadership,
    {
        self.leadership
    }

    /// Where the run stands.
    pub fn phase(&self) -> (r: Phase)
        ensures
            r == self@.phase,
    {
        self.phase
    }

    /// The supervised process.
    pub fn process(&self) -> (r: &ProcessManager)
        ensures
            r@ == self@.process,
    {
        &self.process
    }

    /// Gives the supervised process back, ending the orchestrator.
    pub fn into_process(self) -> (r: ProcessManager)
        ensures
            r@ == self@.process,
    {
        self.process
    }

    /// What outside observers may see. The driver publishes it after each
    /// step, before it carries out the action.
    pub fn status(&self) -> (r: Status)
        ensures
            r == self@.status(),
    {
        let shutting_down = match self.phase {
            Phase::Active => false,
            _ => true,
        };
        Status { leadership: self.leadership, shutting_down }
    }

    /// What to launch when the orchestrator asks for [`Action::Spawn`].
    /// `None` where the command line allows no launch.
    pub fn launch(&self) -> (r: Option<&Launch>)
        ensures
            match r {
                Some(launch) => self@.process.launch == Ok::<_, ProcessError>(launch@),
                None => self@.process.launch is Err,
            },
    {
        self.process.launch()
    }

    fn absorb(&mut self, input: Input)
        ensures
            final(self)@ == old(self)@.absorb(input),
    {
        if let Phase::Finished { .. } = self.phase {
            return ;
        }
        let active = match self.phase {
            Phase::Active => true,
            _ => false,
        };
        let leader = match self.leadership {
            LeadershipState::Leader => true,
            LeadershipState::Follower => false,
        };
        match input {
            Input::Event(JustOneInitState::BecameLeader) => {
                if active {
                    self.leadership = LeadershipState::Leader;
                }
            },
            Input::Event(JustOneInitState::BecameFollower) => {
                if active {
                    self.leadership = LeadershipState::Follower;
                }
            },
            Input::Event(JustOneInitState::BeganShutdown) => {
                self.phase = Phase::ShuttingDown;
            },
            Input::Tick(observed_exit) => {
                let was_running = self.process.is_running();
                let running = self.process.check_if_running(observed_exit);
                if active && leader && was_running && !running {
                    self.phase = Phase::ShuttingDown;
                }
            },
            Input::Launched(true) => {
                self.process.started();
            },
            Input::Launched(false) => {
                self.phase = Phase::Finished {
                    step_down: false,
                    outcome: Outcome::Fatal(ProcessError::Launch),
                };
            },
            Input::Stopped(Some(success)) => {
                self.process.stopped(success);
            },
            Input::Stopped(None) => {
                self.phase = Phase::Finished {
                    step_down: !active && leader,
                    outcome: Outcome::Fatal(ProcessError::Termination),
                };
            },
        }
    }

    fn settle(&mut self)
        ensures
            final(self)@ == old(self)@.settle(),
    {
        let leader = match self.leadership {
            LeadershipState::Leader => true,
            LeadershipState::Follower => false,
        };
        match self.phase {
            Phase::Finished { .. } => {},
            Phase::ShuttingDown => {
                if !self.process.is_running() {
                    let outcome = match self.process.check_if_exit_successful() {
                        Some(false) => Outcome::ProcessFailed,
                        _ => Outcome::Success,
                    };
                    self.phase = Phase::Finished { step_down: leader, outcome };
                }
            },
            Phase::Active => {
                if leader && !self.process.is_running() {
                    if let Err(error) = self.process.start() {
                        self.phase = Phase::Finished {
                            step_down: false,
                            outcome: Outcome::Fatal(error),
                        };
                    }
                }
            },
        }
    }

    fn owed(&self) -> (action: Action)
        ensures
            action == self@.owed(),
    {
        let running = self.process.is_running();
        match self.phase {
            Phase::Finished { step_down, outcome } => Action::Finish { step_down, outcome },
            Phase::ShuttingDown => if running {
                Action::Stop
            } else {
                Action::Wait
            },
            Phase::Active => match self.leadership {
                LeadershipState::Leader => if running {
                    Action::Wait
                } else {
                    Action::Spawn
                },
                LeadershipState::Follower => if running {
                    Action::Stop
                } else {
                    Action::Wait
                },
            },
        }
    }

    /// Takes in one input and answers with what the driver owes next.
    pub fn step(&mut self, input: Input) -> (action: Action)
        ensures
            (final(self)@, action) == old(self)@.next(input),
            final(self)@.wf(),
            action is Spawn ==> !final(self)@.process.is_running() && final(self)@.process.launch
                is Ok,
            action is Stop ==> final(self)@.process.is_running(),
    {
        self.absorb(input);
        self.settle();
        proof {
            use_type_invariant(&self.process);
        }
        self.owed()
    }
}

} // verus!
