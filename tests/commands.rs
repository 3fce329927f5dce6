use achievement_bridge::backend::{Backend, BuildMode, LiveBackend, UnlockError, UnlockLog};
use achievement_bridge::commands::{steam_get_unlocked, steam_is_available, steam_unlock_achievement};

#[derive(Default)]
struct Recorder {
    seen: Vec<String>,
}

impl UnlockLog for Recorder {
    fn unlock_requested(&mut self, achievement_id: &str) {
        self.seen.push(achievement_id.to_string());
    }
}

fn stub() -> Backend {
    Backend::select(BuildMode { debug: false, live: false })
}

fn live_with(ids: &[&str]) -> Backend {
    Backend::Live(LiveBackend::with_session(ids.iter().map(|s| s.to_string()).collect()))
}

#[test]
fn stub_is_not_available() {
    let b = stub();
    assert!(!steam_is_available(&b));
}

#[test]
fn stub_unlock_succeeds_and_lists_nothing() {
    let mut b = stub();
    let mut log = Recorder::default();
    assert_eq!(steam_unlock_achievement(&mut b, "ACH_FIRST_WIN".to_string(), &mut log), Ok(()));
    assert!(steam_get_unlocked(&b).is_empty());
    assert_eq!(log.seen, vec!["ACH_FIRST_WIN".to_string()]);
}

#[test]
fn stub_get_unlocked_is_empty() {
    let b = stub();
    assert_eq!(steam_get_unlocked(&b), Vec::<String>::new());
}

#[test]
fn stub_unlock_twice_succeeds() {
    let mut b = stub();
    let mut log = Recorder::default();
    for id in ["ACH_A", "", "ach_a"] {
        assert_eq!(b.unlock(&id.to_string(), &mut log), Ok(()));
        assert_eq!(b.unlock(&id.to_string(), &mut log), Ok(()));
    }
    assert!(b.list_unlocked().is_empty());
}

#[test]
fn live_unlock_then_list() {
    let mut b = live_with(&["ACH_X", "ACH_Y"]);
    let mut log = Recorder::default();
    assert!(steam_is_available(&b));
    assert_eq!(steam_unlock_achievement(&mut b, "ACH_X".to_string(), &mut log), Ok(()));
    assert_eq!(steam_get_unlocked(&b), vec!["ACH_X".to_string()]);
    assert!(log.seen.is_empty());
}

#[test]
fn live_without_session_is_unavailable() {
    let mut b = Backend::select(BuildMode { debug: true, live: true });
    let mut log = Recorder::default();
    assert!(!steam_is_available(&b));
    assert_eq!(b.unlock(&"ACH_X".to_string(), &mut log), Err(UnlockError::Unavailable));
    assert_eq!(
        steam_unlock_achievement(&mut b, "ACH_X".to_string(), &mut log),
        Err("Unavailable: no achievement session to unlock ACH_X".to_string())
    );
    assert!(steam_get_unlocked(&b).is_empty());
}

#[test]
fn live_unknown_id_is_rejected() {
    let mut b = live_with(&["ACH_X"]);
    let mut log = Recorder::default();
    assert_eq!(b.unlock(&"ACH_Z".to_string(), &mut log), Err(UnlockError::Rejected));
    assert_eq!(
        steam_unlock_achievement(&mut b, "ach_x".to_string(), &mut log),
        Err("Rejected: the achievement service refused ach_x".to_string())
    );
    assert!(steam_get_unlocked(&b).is_empty());
}

#[test]
fn live_repeated_unlock_is_idempotent() {
    let mut b = live_with(&["ACH_X", "ACH_Y", "ACH_Z"]);
    let mut log = Recorder::default();
    for id in ["ACH_Y", "ACH_X", "ACH_Y", "ACH_Q", "ACH_X"] {
        let _ = b.unlock(&id.to_string(), &mut log);
    }
    assert_eq!(b.list_unlocked(), vec!["ACH_Y".to_string(), "ACH_X".to_string()]);
}

#[test]
fn live_list_is_a_snapshot() {
    let mut b = live_with(&["ACH_X"]);
    let mut log = Recorder::default();
    assert_eq!(b.unlock(&"ACH_X".to_string(), &mut log), Ok(()));
    let mut snapshot = b.list_unlocked();
    snapshot.push("ACH_FAKE".to_string());
    assert_eq!(b.list_unlocked(), vec!["ACH_X".to_string()]);
}

#[test]
fn error_messages_name_their_kind() {
    assert_eq!(
        UnlockError::Unavailable.message("A"),
        "Unavailable: no achievement session to unlock A".to_string()
    );
    assert_eq!(UnlockError::Rejected.message("B"), "Rejected: the achievement service refused B".to_string());
}
