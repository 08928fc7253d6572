//! The launch of the application runtime as a state machine.
//!
//! The entry point asks the runtime to start exactly once. A healthy start moves
//! the shell from `NotStarted` to `Running`, where it stays for the life of the
//! process; a start that fails moves it to `Aborted`, which ends the process with
//! a fixed diagnostic. No other transition exists.

use vstd::prelude::*;

verus! {

/// Where the launch of the runtime stands.
#[derive(Clone, Copy, Debug, PartialEq, Eq, Structural)]
pub enum Phase {
    NotStarted,
    Running,
    Aborted,
}

/// What the runtime reports when it is asked to start.
#[derive(Clone, Copy, Debug, PartialEq, Eq, Structural)]
pub enum RunEvent {
    /// The runtime initialised and entered its event loop.
    Started,
    /// The runtime could not initialise or start.
    StartFailed,
}

/// What the entry point must do on entering a phase.
#[derive(Clone, Copy, Debug, PartialEq, Eq, Structural)]
pub enum Action {
    /// Leave control to the runtime's blocking event loop.
    StayAlive,
    /// End the process at once, with the diagnostic of `abort_message`.
    Abort,
}

/// The phase that `event` leads to from `phase`, or `None` where no transition
/// exists.
pub open spec fn next_phase(phase: Phase, event: RunEvent) -> Option<Phase> {
    match (phase, event) {
        (Phase::NotStarted, RunEvent::Started) => Some(Phase::Running),
        (Phase::NotStarted, RunEvent::StartFailed) => Some(Phase::Aborted),
        _ => None,
    }
}

/// The action owed on entering `phase`.
pub open spec fn action_of(phase: Phase) -> Option<Action> {
    match phase {
        Phase::NotStarted => None,
        Phase::Running => Some(Action::StayAlive),
        Phase::Aborted => Some(Action::Abort),
    }
}

/// The diagnostic that a failed start ends the process with.
pub open spec fn abort_text() -> Seq<char> {
    "error while running tauri application"@
}

/// Returns the fixed diagnostic that accompanies a fatal start-up failure.
pub fn abort_message() -> (r: String)
    ensures
        r@ == abort_text(),
{
    "error while running tauri application".to_owned()
}

/// The launch state of the application shell.
pub struct Bootstrap {
    phase: Phase,
}

impl View for Bootstrap {
    type V = Phase;

    closed spec fn view(&self) -> Phase {
        self.phase
    }
}

impl Bootstrap {
    /// A shell whose runtime has not been asked to start yet.
    pub fn new() -> (r: Self)
        ensures
            r@ == Phase::NotStarted,
    {
        Bootstrap { phase: Phase::NotStarted }
    }

    /// The current phase.
    pub fn phase(&self) -> (r: Phase)
        ensures
            r == self@,
    {
        self.phase
    }

    /// Applies what the runtime reported. Where a transition exists the shell
    /// takes it and returns the action owed in the new phase; otherwise the
    /// shell is left as it was and `None` comes back.
    pub fn on_event(&mut self, event: RunEvent) -> (r: Option<Action>)
        ensures
            next_phase(old(self)@, event) matches Some(p) ==> final(self)@ == p && r == action_of(p),
            next_phase(old(self)@, event) is None ==> final(self)@ == old(self)@ && r is None,
    {
        match (self.phase, event) {
            (Phase::NotStarted, RunEvent::Started) => {
                self.phase = Phase::Running;
                Some(Action::StayAlive)
            },
            (Phase::NotStarted, RunEvent::StartFailed) => {
                self.phase = Phase::Aborted;
                Some(Action::Abort)
            },
            _ => None,
        }
    }
}

/// A healthy start keeps the process alive: the shell moves from `NotStarted`
/// to `Running`, is told to stay in the runtime's event loop, and no later
/// report moves it out of `Running`, so it neither returns nor aborts.
pub proof fn lemma_healthy_start_stays_alive(later: RunEvent)
    ensures
        next_phase(Phase::NotStarted, RunEvent::Started) == Some(Phase::Running),
        action_of(Phase::Running) == Some(Action::StayAlive),
        next_phase(Phase::Running, later) is None,
{
}

/// A start that fails ends the process: the shell moves from `NotStarted` to
/// `Aborted`, is told to abort with the fixed diagnostic, and no later report
/// moves it out of `Aborted`.
pub proof fn lemma_failed_start_aborts(later: RunEvent)
    ensures
        next_phase(Phase::NotStarted, RunEvent::StartFailed) == Some(Phase::Aborted),
        action_of(Phase::Aborted) == Some(Action::Abort),
        next_phase(Phase::Aborted, later) is None,
        abort_text() == "error while running tauri application"@,
{
}

} // verus!
