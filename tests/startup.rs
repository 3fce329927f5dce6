use achievement_bridge::backend::BuildMode;
use achievement_bridge::startup::{advance, next_action, StartupAction, StartupState};

fn run(mode: BuildMode, outcomes: &[bool]) -> (StartupState, Vec<StartupAction>) {
    let mut state = StartupState::Uninitialized;
    let mut actions = Vec::new();
    for &ok in outcomes {
        actions.push(next_action(state, mode));
        state = advance(state, mode, ok);
    }
    (state, actions)
}

const DEBUG: BuildMode = BuildMode { debug: true, live: false };
const RELEASE: BuildMode = BuildMode { debug: false, live: false };

#[test]
fn debug_startup_attaches_logging_then_runs() {
    let (state, actions) = run(DEBUG, &[true, true, true, true]);
    assert_eq!(state, StartupState::Running);
    assert_eq!(
        actions,
        vec![
            StartupAction::RegisterCommands,
            StartupAction::AttachLogging,
            StartupAction::EnterRunLoop,
            StartupAction::Finished,
        ]
    );
}

#[test]
fn debug_logging_failure_aborts() {
    let (state, _) = run(DEBUG, &[true, false, true, true, true]);
    assert_eq!(state, StartupState::Aborted);
    assert_eq!(next_action(state, DEBUG), StartupAction::Finished);
}

#[test]
fn release_startup_never_attaches_logging() {
    let (state, actions) = run(RELEASE, &[true, true, true]);
    assert_eq!(state, StartupState::Running);
    assert!(!actions.contains(&StartupAction::AttachLogging));
    assert_eq!(actions, vec![StartupAction::RegisterCommands, StartupAction::EnterRunLoop, StartupAction::Finished]);
}

#[test]
fn failed_registration_aborts() {
    let (state, _) = run(RELEASE, &[false, true]);
    assert_eq!(state, StartupState::Aborted);
}
