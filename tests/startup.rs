use devtools_shell::{BuildProfile, Startup, StartupAction, StartupError, StartupEvent, StartupPhase};

#[test]
fn debug_startup_attaches_logging_once() {
    let mut s = Startup::new(BuildProfile::Debug);
    assert_eq!(s.phase(), StartupPhase::NotStarted);
    let mut attaches = 0;
    let events = [
        StartupEvent::Begin,
        StartupEvent::Begin,
        StartupEvent::LoggingAttached,
        StartupEvent::RunLoopStarted,
    ];
    let mut actions = Vec::new();
    for e in events {
        let a = s.handle(e);
        if a == StartupAction::AttachLogging {
            attaches += 1;
        }
        actions.push(a);
    }
    assert_eq!(attaches, 1);
    assert_eq!(
        actions,
        vec![
            StartupAction::AttachLogging,
            StartupAction::Ignore,
            StartupAction::StartRunLoop,
            StartupAction::Ignore,
        ]
    );
    assert_eq!(s.phase(), StartupPhase::Running);
    assert_eq!(s.profile(), BuildProfile::Debug);
}

#[test]
fn release_startup_never_attaches_logging() {
    let mut s = Startup::new(BuildProfile::Release);
    assert_eq!(s.handle(StartupEvent::Begin), StartupAction::StartRunLoop);
    assert_eq!(s.phase(), StartupPhase::StartingRunLoop);
    assert_eq!(s.handle(StartupEvent::LoggingAttached), StartupAction::Ignore);
    assert_eq!(s.handle(StartupEvent::RunLoopStarted), StartupAction::Ignore);
    assert_eq!(s.phase(), StartupPhase::Running);
}

#[test]
fn logging_failure_terminates() {
    let mut s = Startup::new(BuildProfile::Debug);
    assert_eq!(s.handle(StartupEvent::Begin), StartupAction::AttachLogging);
    assert_eq!(
        s.handle(StartupEvent::LoggingFailed),
        StartupAction::Terminate(StartupError::LoggingAttachFailed)
    );
    assert_eq!(s.phase(), StartupPhase::Terminated);
    assert_eq!(s.handle(StartupEvent::RunLoopStarted), StartupAction::Ignore);
    assert_eq!(s.handle(StartupEvent::Begin), StartupAction::Ignore);
    assert_eq!(s.phase(), StartupPhase::Terminated);
}

#[test]
fn run_loop_failure_terminates() {
    let mut s = Startup::new(BuildProfile::Release);
    s.handle(StartupEvent::Begin);
    assert_eq!(
        s.handle(StartupEvent::RunLoopFailed),
        StartupAction::Terminate(StartupError::RunLoopFailed)
    );
    assert_eq!(s.phase(), StartupPhase::Terminated);
    assert_eq!(s.handle(StartupEvent::RunLoopStarted), StartupAction::Ignore);
    assert_eq!(s.phase(), StartupPhase::Terminated);
}

#[test]
fn events_before_begin_are_ignored() {
    let mut s = Startup::new(BuildProfile::Debug);
    assert_eq!(s.handle(StartupEvent::RunLoopStarted), StartupAction::Ignore);
    assert_eq!(s.handle(StartupEvent::LoggingFailed), StartupAction::Ignore);
    assert_eq!(s.phase(), StartupPhase::NotStarted);
}

#[test]
fn startup_error_descriptions() {
    assert_eq!(
        StartupError::RunLoopFailed.description(),
        "error while running tauri application"
    );
    assert_eq!(
        StartupError::LoggingAttachFailed.description(),
        "error while attaching the logging plugin"
    );
}

#[test]
fn run_loop_failure_before_setup_terminates() {
    let mut s = Startup::new(BuildProfile::Debug);
    assert_eq!(
        s.handle(StartupEvent::RunLoopFailed),
        StartupAction::Terminate(StartupError::RunLoopFailed)
    );
    assert_eq!(s.phase(), StartupPhase::Terminated);
    assert_eq!(s.handle(StartupEvent::Begin), StartupAction::Ignore);
}
