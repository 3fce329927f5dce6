use vstd::prelude::*;
use crate::backend::{Backend, UnlockError, UnlockLog, views};

verus! {

/// The text that a caller receives for `e` when unlocking `id` failed:
/// the kind of failure, then the context.
pub open spec fn error_text(e: UnlockError, id: Seq<char>) -> Seq<char> {
    match e {
        UnlockError::Unavailable => "Unavailable: no achievement session to unlock "@ + id,
        UnlockError::Rejected => "Rejected: the achievement service refused "@ + id,
    }
}

impl UnlockError {
    /// The message for this error when unlocking `achievement_id` failed.
    pub fn message(&self, achievement_id: &str) -> (r: String)
        ensures
            r@ == error_text(*self, achievement_id@),
    {
        let head = match self {
            UnlockError::Unavailable => "Unavailable: no achievement session to unlock ",
            UnlockError::Rejected => "Rejected: the achievement service refused ",
        };
        String::from_str(head).concat(achievement_id)
    }
}

/// The command result of an unlock whose backend outcome is `res`.
pub open spec fn command_result(res: Result<(), UnlockError>, id: Seq<char>) -> Result<
    (),
    Seq<char>,
> {
    match res {
        Ok(()) => Ok(()),
        Err(e) => Err(error_text(e, id)),
    }
}

/// Command: whether the live achievement service is usable. Never fails.
pub fn steam_is_available(backend: &Backend) -> (r: bool)
    ensures
        r == backend@.available(),
{
    backend.is_available()
}

/// Command: unlock `achievement_id`, forwarded as given. A failure comes
/// back as text naming its kind.
pub fn steam_unlock_achievement<L: UnlockLog>(
    backend: &mut Backend,
    achievement_id: String,
    log: &mut L,
) -> (r: Result<(), String>)
    ensures
        final(backend)@ == old(backend)@.after_unlock(achievement_id@),
        command_result(old(backend)@.unlock_result(achievement_id@), achievement_id@) == match r {
            Ok(()) => Ok::<(), Seq<char>>(()),
            Err(s) => Err(s@),
        },
{
    match backend.unlock(&achievement_id, log) {
        Ok(()) => Ok(()),
        Err(e) => Err(e.message(achievement_id.as_str())),
    }
}

/// Command: the unlocked ids. Never fails; empty for the stub.
pub fn steam_get_unlocked(backend: &Backend) -> (r: Vec<String>)
    ensures
        views(r@) == backend@.listed(),
{
    backend.list_unlocked()
}

} // verus!
