use vstd::prelude::*;
use crate::backend::BuildMode;

verus! {

/// Where application startup stands. It only moves forward.
#[derive(Clone, Copy, Debug, PartialEq, Eq, Structural)]
pub enum StartupState {
    Uninitialized,
    CommandsRegistered,
    LoggingAttached,
    Running,
    /// A step failed; the process must not enter its run loop.
    Aborted,
}

/// What the host must do next to move startup forward.
#[derive(Clone, Copy, Debug, PartialEq, Eq, Structural)]
pub enum StartupAction {
    RegisterCommands,
    /// Attach diagnostic logging at the minimum level `Info`.
    AttachLogging,
    EnterRunLoop,
    /// Startup is over, one way or the other.
    Finished,
}

/// The action that startup asks for in `state`: logging is attached in
/// debug builds only.
pub open spec fn spec_next_action(state: StartupState, mode: BuildMode) -> StartupAction {
    match state {
        StartupState::Uninitialized => StartupAction::RegisterCommands,
        StartupState::CommandsRegistered => if mode.debug {
            StartupAction::AttachLogging
        } else {
            StartupAction::EnterRunLoop
        },
        StartupState::LoggingAttached => StartupAction::EnterRunLoop,
        StartupState::Running => StartupAction::Finished,
        StartupState::Aborted => StartupAction::Finished,
    }
}

/// The state once the action that `state` asks for has been performed,
/// successfully when `ok`.
pub open spec fn spec_advance(state: StartupState, mode: BuildMode, ok: bool) -> StartupState {
    match spec_next_action(state, mode) {
        StartupAction::Finished => state,
        StartupAction::RegisterCommands => if ok {
            StartupState::CommandsRegistered
        } else {
            StartupState::Aborted
        },
        StartupAction::AttachLogging => if ok {
            StartupState::LoggingAttached
        } else {
            StartupState::Aborted
        },
        StartupAction::EnterRunLoop => if ok {
            StartupState::Running
        } else {
            StartupState::Aborted
        },
    }
}

/// The state reached from `state` when the actions asked for have the
/// outcomes `outcomes`, in turn.
pub open spec fn run_startup(state: StartupState, mode: BuildMode, outcomes: Seq<bool>) -> StartupState
    decreases outcomes.len(),
{
    if outcomes.len() == 0 {
        state
    } else {
        run_startup(spec_advance(state, mode, outcomes[0]), mode, outcomes.drop_first())
    }
}

proof fn lemma_run_concat(state: StartupState, mode: BuildMode, a: Seq<bool>, b: Seq<bool>)
    ensures
        run_startup(state, mode, a + b) == run_startup(run_startup(state, mode, a), mode, b),
    decreases a.len(),
{
    if a.len() > 0 {
        assert((a + b).drop_first() =~= a.drop_first() + b);
        lemma_run_concat(spec_advance(state, mode, a[0]), mode, a.drop_first(), b);
    }
}

proof fn lemma_aborted_stays(mode: BuildMode, outcomes: Seq<bool>)
    ensures
        run_startup(StartupState::Aborted, mode, outcomes) == StartupState::Aborted,
    decreases outcomes.len(),
{
    if outcomes.len() > 0 {
        lemma_aborted_stays(mode, outcomes.drop_first());
    }
}

/// In a debug build, once the commands are registered, a failure to attach
/// logging means startup never reaches `Running`, whatever follows.
pub proof fn lemma_logging_failure_blocks_running(
    mode: BuildMode,
    before: Seq<bool>,
    after: Seq<bool>,
)
    requires
        mode.debug,
        run_startup(StartupState::Uninitialized, mode, before) == StartupState::CommandsRegistered,
    ensures
        run_startup(StartupState::Uninitialized, mode, before + seq![false] + after)
            != StartupState::Running,
{
    lemma_run_concat(StartupState::Uninitialized, mode, before + seq![false], after);
    lemma_run_concat(StartupState::Uninitialized, mode, before, seq![false]);
    let one = seq![false];
    assert(one[0] == false);
    assert(one.drop_first() =~= Seq::<bool>::empty());
    assert(spec_advance(StartupState::CommandsRegistered, mode, false) == StartupState::Aborted);
    assert(run_startup(StartupState::Aborted, mode, one.drop_first()) == StartupState::Aborted);
    assert(run_startup(StartupState::CommandsRegistered, mode, one) == StartupState::Aborted);
    lemma_aborted_stays(mode, after);
}

proof fn lemma_release_skips_logging_state(state: StartupState, mode: BuildMode, outcomes: Seq<bool>)
    requires
        !mode.debug,
        state != StartupState::LoggingAttached,
    ensures
        run_startup(state, mode, outcomes) != StartupState::LoggingAttached,
    decreases outcomes.len(),
{
    if outcomes.len() > 0 {
        lemma_release_skips_logging_state(
            spec_advance(state, mode, outcomes[0]),
            mode,
            outcomes.drop_first(),
        );
    }
}

/// In a release build, no state that startup reaches asks to attach
/// logging.
pub proof fn lemma_release_never_attaches_logging(mode: BuildMode, outcomes: Seq<bool>)
    requires
        !mode.debug,
    ensures
        spec_next_action(run_startup(StartupState::Uninitialized, mode, outcomes), mode)
            != StartupAction::AttachLogging,
{
    lemma_release_skips_logging_state(StartupState::Uninitialized, mode, outcomes);
}

/// The action that the host must perform in `state`.
pub fn next_action(state: StartupState, mode: BuildMode) -> (r: StartupAction)
    ensures
        r == spec_next_action(state, mode),
{
    match state {
        StartupState::Uninitialized => StartupAction::RegisterCommands,
        StartupState::CommandsRegistered => if mode.debug {
            StartupAction::AttachLogging
        } else {
            StartupAction::EnterRunLoop
        },
        StartupState::LoggingAttached => StartupAction::EnterRunLoop,
        StartupState::Running => StartupAction::Finished,
        StartupState::Aborted => StartupAction::Finished,
    }
}

/// The state after the host performed `next_action(state, mode)`, with
/// success when `ok`. A failure aborts startup.
pub fn advance(state: StartupState, mode: BuildMode, ok: bool) -> (r: StartupState)
    ensures
        r == spec_advance(state, mode, ok),
{
    match next_action(state, mode) {
        StartupAction::Finished => state,
        StartupAction::RegisterCommands => if ok {
            StartupState::CommandsRegistered
        } else {
            StartupState::Aborted
        },
        StartupAction::AttachLogging => if ok {
            StartupState::LoggingAttached
        } else {
            StartupState::Aborted
        },
        StartupAction::EnterRunLoop => if ok {
            StartupState::Running
        } else {
            StartupState::Aborted
        },
    }
}

} // verus!
