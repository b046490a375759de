use crate::profile::BuildProfile;
use vstd::prelude::*;

verus! {

/// Where startup stands. `Terminated` is final: a failed startup never
/// resumes. A run loop that fails, at whatever point before termination,
/// ends the process.
#[derive(PartialEq, Eq, Structural, Clone, Copy, Debug)]
pub enum StartupPhase {
    NotStarted,
    AttachingLogging,
    StartingRunLoop,
    Running,
    Terminated,
}

/// What the host reports back to the startup sequence.
#[derive(PartialEq, Eq, Structural, Clone, Copy, Debug)]
pub enum StartupEvent {
    Begin,
    LoggingAttached,
    LoggingFailed,
    RunLoopStarted,
    RunLoopFailed,
}

/// Why startup could not complete. Both are unrecoverable.
#[derive(PartialEq, Eq, Structural, Clone, Copy, Debug)]
pub enum StartupError {
    LoggingAttachFailed,
    RunLoopFailed,
}

impl StartupError {
    pub open spec fn spec_description(self) -> Seq<char> {
        match self {
            StartupError::LoggingAttachFailed => "error while attaching the logging plugin"@,
            StartupError::RunLoopFailed => "error while running tauri application"@,
        }
    }

    /// The message the process ends with.
    pub fn description(&self) -> (r: String)
        ensures
            r@ == self.spec_description(),
    {
        match self {
            StartupError::LoggingAttachFailed => {
                String::from_str("error while attaching the logging plugin")
            },
            StartupError::RunLoopFailed => String::from_str("error while running tauri application"),
        }
    }
}

/// What the host is to do next.
#[derive(PartialEq, Eq, Structural, Clone, Copy, Debug)]
pub enum StartupAction {
    /// Attach the logging plugin (minimum level: informational).
    AttachLogging,
    /// Hand the thread to the application's run loop.
    StartRunLoop,
    /// End the process with a fatal error.
    Terminate(StartupError),
    /// Nothing to do: the event does not apply to the current phase.
    Ignore,
}

/// The transition table of startup: from `phase`, on `event`, the next phase
/// and the action asked of the host.
pub open spec fn startup_step(
    profile: BuildProfile,
    phase: StartupPhase,
    event: StartupEvent,
) -> (StartupPhase, StartupAction) {
    match (phase, event) {
        (StartupPhase::NotStarted, StartupEvent::Begin) => if profile.is_debug() {
            (StartupPhase::AttachingLogging, StartupAction::AttachLogging)
        } else {
            (StartupPhase::StartingRunLoop, StartupAction::StartRunLoop)
        },
        (StartupPhase::AttachingLogging, StartupEvent::LoggingAttached) => (
            StartupPhase::StartingRunLoop,
            StartupAction::StartRunLoop,
        ),
        (StartupPhase::AttachingLogging, StartupEvent::LoggingFailed) => (
            StartupPhase::Terminated,
            StartupAction::Terminate(StartupError::LoggingAttachFailed),
        ),
        (StartupPhase::StartingRunLoop, StartupEvent::RunLoopStarted) => (
            StartupPhase::Running,
            StartupAction::Ignore,
        ),
        (StartupPhase::Terminated, _) => (phase, StartupAction::Ignore),
        (_, StartupEvent::RunLoopFailed) => (
            StartupPhase::Terminated,
            StartupAction::Terminate(StartupError::RunLoopFailed),
        ),
        _ => (phase, StartupAction::Ignore),
    }
}

/// The phase reached and the actions asked for, in order, when `events`
/// arrive one by one from `NotStarted`.
pub open spec fn startup_trace(profile: BuildProfile, events: Seq<StartupEvent>) -> (
    StartupPhase,
    Seq<StartupAction>,
)
    decreases events.len(),
{
    if events.len() == 0 {
        (StartupPhase::NotStarted, Seq::empty())
    } else {
        let (phase, actions) = startup_trace(profile, events.drop_last());
        let (next, action) = startup_step(profile, phase, events.last());
        (next, actions.push(action))
    }
}

/// How many of `actions` ask for the logging plugin to be attached.
pub open spec fn attach_count(actions: Seq<StartupAction>) -> nat
    decreases actions.len(),
{
    if actions.len() == 0 {
        0
    } else {
        attach_count(actions.drop_last()) + if actions.last() is AttachLogging {
            1nat
        } else {
            0nat
        }
    }
}

/// The startup sequence of one process.
pub struct Startup {
    profile: BuildProfile,
    phase: StartupPhase,
}

impl View for Startup {
    type V = (BuildProfile, StartupPhase);

    closed spec fn view(&self) -> (BuildProfile, StartupPhase) {
        (self.profile, self.phase)
    }
}

impl Startup {
    /// A sequence that has not begun, for a shell built in `profile`.
    pub fn new(profile: BuildProfile) -> (r: Startup)
        ensures
            r@ == (profile, StartupPhase::NotStarted),
    {
        Startup { profile, phase: StartupPhase::NotStarted }
    }

    pub fn profile(&self) -> (r: BuildProfile)
        ensures
            r == self@.0,
    {
        self.profile
    }

    pub fn phase(&self) -> (r: StartupPhase)
        ensures
            r == self@.1,
    {
        self.phase
    }

    /// Takes in what the host reported and returns what it is to do next.
    pub fn handle(&mut self, event: StartupEvent) -> (r: StartupAction)
        ensures
            final(self)@.0 == old(self)@.0,
            (final(self)@.1, r) == startup_step(old(self)@.0, old(self)@.1, event),
    {
        let (next, action) = match (self.phase, event) {
            (StartupPhase::NotStarted, StartupEvent::Begin) => if self.profile.is_debug() {
                (StartupPhase::AttachingLogging, StartupAction::AttachLogging)
            } else {
                (StartupPhase::StartingRunLoop, StartupAction::StartRunLoop)
            },
            (StartupPhase::AttachingLogging, StartupEvent::LoggingAttached) => (
                StartupPhase::StartingRunLoop,
                StartupAction::StartRunLoop,
            ),
            (StartupPhase::AttachingLogging, StartupEvent::LoggingFailed) => (
                StartupPhase::Terminated,
                StartupAction::Terminate(StartupError::LoggingAttachFailed),
            ),
            (StartupPhase::StartingRunLoop, StartupEvent::RunLoopStarted) => (
                StartupPhase::Running,
                StartupAction::Ignore,
            ),
            (StartupPhase::Terminated, _) => (StartupPhase::Terminated, StartupAction::Ignore),
            (_, StartupEvent::RunLoopFailed) => (
                StartupPhase::Terminated,
                StartupAction::Terminate(StartupError::RunLoopFailed),
            ),
            (phase, _) => (phase, StartupAction::Ignore),
        };
        self.phase = next;
        action
    }
}

/// Over any sequence of host reports, the logging plugin is asked for at
/// most once. A release build never asks for it. A debug build has asked for
/// it exactly once whenever startup has begun and not been terminated, so in
/// particular once the run loop is running.
pub proof fn lemma_logging_attached_once(profile: BuildProfile, events: Seq<StartupEvent>)
    ensures
        startup_trace(profile, events).1.len() == events.len(),
        attach_count(startup_trace(profile, events).1) <= 1,
        !profile.is_debug() ==> attach_count(startup_trace(profile, events).1) == 0,
        startup_trace(profile, events).0 == StartupPhase::NotStarted ==> attach_count(
            startup_trace(profile, events).1,
        ) == 0,
        profile.is_debug() && startup_trace(profile, events).0 != StartupPhase::NotStarted
            && startup_trace(profile, events).0 != StartupPhase::Terminated ==> attach_count(
            startup_trace(profile, events).1,
        ) == 1,
    decreases events.len(),
{
    if events.len() > 0 {
        lemma_logging_attached_once(profile, events.drop_last());
        let (phase, actions) = startup_trace(profile, events.drop_last());
        let (next, action) = startup_step(profile, phase, events.last());
        assert(actions.push(action).drop_last() =~= actions);
    }
}

/// A failure reported while attaching logging, or a run-loop failure at any
/// point before termination, ends startup with that error; a terminated
/// startup stays terminated and asks for nothing more, whatever is reported
/// after it.
pub proof fn lemma_startup_failure_is_fatal(
    profile: BuildProfile,
    events: Seq<StartupEvent>,
    more: Seq<StartupEvent>,
)
    ensures
        startup_step(profile, StartupPhase::AttachingLogging, StartupEvent::LoggingFailed) == (
            StartupPhase::Terminated,
            StartupAction::Terminate(StartupError::LoggingAttachFailed),
        ),
        forall|phase: StartupPhase|
            phase != StartupPhase::Terminated ==> #[trigger] startup_step(
                profile,
                phase,
                StartupEvent::RunLoopFailed,
            ) == (StartupPhase::Terminated, StartupAction::Terminate(StartupError::RunLoopFailed)),
        startup_trace(profile, events).0 == StartupPhase::Terminated ==> {
            &&& startup_trace(profile, events + more).0 == StartupPhase::Terminated
            &&& forall|i: int|
                events.len() <= i < events.len() + more.len() ==> startup_trace(
                    profile,
                    events + more,
                ).1[i] == StartupAction::Ignore
        },
    decreases more.len(),
{
    lemma_logging_attached_once(profile, events + more);
    if more.len() > 0 {
        let shorter = more.drop_last();
        lemma_startup_failure_is_fatal(profile, events, shorter);
        lemma_logging_attached_once(profile, events + shorter);
        assert((events + more).drop_last() =~= events + shorter);
        assert((events + more).last() == more.last());
    } else {
        assert(events + more =~= events);
    }
}

} // verus!
