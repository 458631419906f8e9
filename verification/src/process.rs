//! The supervised child: a restart-forever wrapper around an external
//! command, tied to a cancellation token.
//!
//! The protocol is a small state machine, verified here: spawn the child
//! and record its pid; wait for the child to exit or the token to fire; on
//! exit zero the pid and wait out the restart delay (or the token); on
//! cancellation kill the child and stop.  The caller owns the spawning,
//! waiting and killing and drives [`Supervisor::step`] with what happened;
//! dropping its handle cancels the token, so dropping and cancelling take
//! the same transition.

use vstd::prelude::*;
use vstd::string::StringExecFns;

verus! {

/// How to run the supervised command: its name, arguments, and the delay
/// before a restart, in milliseconds.
pub struct AlwaysCommandOptions {
    pub name: String,
    pub args: Vec<String>,
    pub restart_delay_ms: u64,
}

impl Default for AlwaysCommandOptions {
    /// An empty command with the default restart delay of 500 ms.
    fn default() -> (r: AlwaysCommandOptions)
        ensures
            r.name@ == Seq::<char>::empty(),
            r.args@ == Seq::<String>::empty(),
            r.restart_delay_ms == 500,
    {
        AlwaysCommandOptions { name: String::new(), args: Vec::new(), restart_delay_ms: 500 }
    }
}

/// The shared status slot: the pid of the running child, or 0 when none
/// runs.
#[derive(Clone, Copy, Debug, PartialEq, Eq, Structural)]
pub struct RunningStatus {
    pub pid: u32,
}

impl Default for RunningStatus {
    /// No child runs.
    fn default() -> (r: RunningStatus)
        ensures
            r.pid == 0,
    {
        RunningStatus { pid: 0 }
    }
}

/// Where the restart loop stands.
#[derive(Clone, Copy, Debug, PartialEq, Eq, Structural)]
pub enum SupervisorPhase {
    /// About to spawn (the loop's top, cancellation not seen).
    Launching,
    /// A child was spawned and is being awaited.
    Running,
    /// The child exited; the restart delay is being awaited.
    RestartWait,
    /// Cancelled; the loop is over.
    Stopped,
}

/// What the caller observed while performing the current phase's wait.
#[derive(Clone, Copy, Debug, PartialEq, Eq, Structural)]
pub enum SupervisorEvent {
    /// The cancellation token fired (or the handle was dropped, which
    /// cancels it).
    CancelObserved,
    /// The command was spawned; its OS pid (0 if the OS reported none).
    ChildSpawned(u32),
    /// The child exited, with any status.
    ChildExited,
    /// The restart delay elapsed.
    RestartDelayElapsed,
}

/// What the caller must do next.
#[derive(Clone, Copy, Debug, PartialEq, Eq, Structural)]
pub enum SupervisorAction {
    /// Spawn the command (stdin detached, kill-on-drop) and report
    /// `ChildSpawned`.
    SpawnChild,
    /// Wait for the child to exit or the token to fire.
    AwaitChildOrCancel,
    /// Wait for the restart delay or the token.
    AwaitDelayOrCancel,
    /// Terminate the child, then stop the loop.
    KillChildAndStop,
    /// Stop the loop.
    Stop,
}

/// The supervisor's state: its phase and the shared status slot.
#[derive(Clone, Copy, Debug, PartialEq, Eq, Structural)]
pub struct Supervisor {
    pub phase: SupervisorPhase,
    pub status: RunningStatus,
}

/// The state after handling `ev` in state `s`.
pub open spec fn supervisor_next(s: Supervisor, ev: SupervisorEvent) -> Supervisor {
    match ev {
        SupervisorEvent::CancelObserved => Supervisor {
            phase: SupervisorPhase::Stopped,
            status: RunningStatus { pid: 0 },
        },
        SupervisorEvent::ChildSpawned(pid) => if s.phase == SupervisorPhase::Launching {
            Supervisor { phase: SupervisorPhase::Running, status: RunningStatus { pid } }
        } else {
            s
        },
        SupervisorEvent::ChildExited => if s.phase == SupervisorPhase::Running {
            Supervisor { phase: SupervisorPhase::RestartWait, status: RunningStatus { pid: 0 } }
        } else {
            s
        },
        SupervisorEvent::RestartDelayElapsed => if s.phase == SupervisorPhase::RestartWait {
            Supervisor { phase: SupervisorPhase::Launching, status: s.status }
        } else {
            s
        },
    }
}

/// The action owed after handling `ev` in state `s`.
pub open spec fn supervisor_action(s: Supervisor, ev: SupervisorEvent) -> SupervisorAction {
    match ev {
        SupervisorEvent::CancelObserved => if s.phase == SupervisorPhase::Running {
            SupervisorAction::KillChildAndStop
        } else {
            SupervisorAction::Stop
        },
        SupervisorEvent::ChildSpawned(_) => if s.phase == SupervisorPhase::Launching {
            SupervisorAction::AwaitChildOrCancel
        } else {
            SupervisorAction::Stop
        },
        SupervisorEvent::ChildExited => if s.phase == SupervisorPhase::Running {
            SupervisorAction::AwaitDelayOrCancel
        } else {
            SupervisorAction::Stop
        },
        SupervisorEvent::RestartDelayElapsed => if s.phase == SupervisorPhase::RestartWait {
            SupervisorAction::SpawnChild
        } else {
            SupervisorAction::Stop
        },
    }
}

impl Supervisor {
    /// The status slot names a child only while one is awaited.
    pub open spec fn wf(self) -> bool {
        self.phase != SupervisorPhase::Running ==> self.status.pid == 0
    }

    /// The starting state: about to spawn, no child recorded.
    pub fn new() -> (s: Supervisor)
        ensures
            s.phase == SupervisorPhase::Launching,
            s.status.pid == 0,
            s.wf(),
    {
        Supervisor { phase: SupervisorPhase::Launching, status: RunningStatus { pid: 0 } }
    }

    /// Handles one observation and says what to do next.
    pub fn step(&mut self, ev: SupervisorEvent) -> (a: SupervisorAction)
        requires
            old(self).wf(),
        ensures
            *final(self) == supervisor_next(*old(self), ev),
            a == supervisor_action(*old(self), ev),
            final(self).wf(),
    {
        match ev {
            SupervisorEvent::CancelObserved => {
                let was_running = self.phase == SupervisorPhase::Running;
                self.phase = SupervisorPhase::Stopped;
                self.status.pid = 0;
                if was_running {
                    SupervisorAction::KillChildAndStop
                } else {
                    SupervisorAction::Stop
                }
            },
            SupervisorEvent::ChildSpawned(pid) => {
                if self.phase == SupervisorPhase::Launching {
                    self.phase = SupervisorPhase::Running;
                    self.status.pid = pid;
                    SupervisorAction::AwaitChildOrCancel
                } else {
                    SupervisorAction::Stop
                }
            },
            SupervisorEvent::ChildExited => {
                if self.phase == SupervisorPhase::Running {
                    self.phase = SupervisorPhase::RestartWait;
                    self.status.pid = 0;
                    SupervisorAction::AwaitDelayOrCancel
                } else {
                    SupervisorAction::Stop
                }
            },
            SupervisorEvent::RestartDelayElapsed => {
                if self.phase == SupervisorPhase::RestartWait {
                    self.phase = SupervisorPhase::Launching;
                    SupervisorAction::SpawnChild
                } else {
                    SupervisorAction::Stop
                }
            },
        }
    }
}

/// After a spawn is reported, the status slot holds exactly the reported
/// pid, and the child is awaited.
pub proof fn lemma_spawn_records_pid(s: Supervisor, pid: u32)
    requires
        s.phase == SupervisorPhase::Launching,
    ensures
        supervisor_next(s, SupervisorEvent::ChildSpawned(pid)).status.pid == pid,
        supervisor_next(s, SupervisorEvent::ChildSpawned(pid)).phase == SupervisorPhase::Running,
        supervisor_action(s, SupervisorEvent::ChildSpawned(pid))
            == SupervisorAction::AwaitChildOrCancel,
{
}

/// Cancellation is terminal from every state, zeroes the status slot, and
/// kills the child exactly when one was being awaited.  Dropping the handle
/// cancels the shared token, so a drop takes this same transition: drop and
/// cancel are indistinguishable in the model.
pub proof fn lemma_cancel_is_terminal(s: Supervisor)
    ensures
        supervisor_next(s, SupervisorEvent::CancelObserved).phase == SupervisorPhase::Stopped,
        supervisor_next(s, SupervisorEvent::CancelObserved).status.pid == 0,
        s.phase == SupervisorPhase::Running ==> supervisor_action(
            s,
            SupervisorEvent::CancelObserved,
        ) == SupervisorAction::KillChildAndStop,
        s.phase != SupervisorPhase::Running ==> supervisor_action(
            s,
            SupervisorEvent::CancelObserved,
        ) == SupervisorAction::Stop,
{
}

/// When a running child dies and the delay passes without cancellation,
/// the machine spawns again, and the next spawn's pid fills the slot: the
/// child is restarted.
pub proof fn lemma_restart_after_exit(s: Supervisor, new_pid: u32)
    requires
        s.phase == SupervisorPhase::Running,
    ensures
        ({
            let after_exit = supervisor_next(s, SupervisorEvent::ChildExited);
            let after_delay = supervisor_next(after_exit, SupervisorEvent::RestartDelayElapsed);
            let after_spawn = supervisor_next(after_delay, SupervisorEvent::ChildSpawned(new_pid));
            &&& after_exit.status.pid == 0
            &&& supervisor_action(s, SupervisorEvent::ChildExited)
                == SupervisorAction::AwaitDelayOrCancel
            &&& supervisor_action(after_exit, SupervisorEvent::RestartDelayElapsed)
                == SupervisorAction::SpawnChild
            &&& after_spawn.phase == SupervisorPhase::Running
            &&& after_spawn.status.pid == new_pid
        }),
{
}

} // verus!
