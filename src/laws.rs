//! Properties of a synchronisation, proved over the session's transitions.
use vstd::prelude::*;

use crate::error::{BadParam, SyncError};
use crate::freshness::is_fresh_spec;
use crate::params::{is_secure_url_spec, LockPolicy};
use crate::session::{
    next_spec, start_spec, Action, Event, LockFailure, ParentState, Phase, SessionState, TargetState,
};

verus! {

/// The action works on the target path or on the repository in it.
pub open spec fn touches_target(a: Action) -> bool {
    match a {
        Action::InspectTarget | Action::RemoveEmptyDir | Action::Discover | Action::Clone
        | Action::Fetch | Action::UpdateHead(_) | Action::ReadHead | Action::ResetWorktree => true,
        _ => false,
    }
}

/// A URL without the secure scheme ends the session at once with a parameter
/// error, holding no lock; nothing is asked of the filesystem then or after.
pub proof fn insecure_url_touches_nothing(
    url: String,
    ensure_fresh: bool,
    lock_timeout_ms: u64,
    e: Event,
)
    requires
        !is_secure_url_spec(url@),
    ensures
        start_spec(url, ensure_fresh, lock_timeout_ms).1 == (Action::Finish {
            release_lock: false,
            outcome: Err(SyncError::BadParam(BadParam::InsecureUrl)),
        }),
        next_spec(start_spec(url, ensure_fresh, lock_timeout_ms).0, e) == (
            start_spec(url, ensure_fresh, lock_timeout_ms).0,
            Action::Halt,
        ),
{
}

/// An empty directory at the target path is removed, after which the session
/// goes on exactly as if nothing had been there.
pub proof fn empty_dir_removed_then_as_absent(s: SessionState)
    requires
        s.phase == Phase::InspectingTarget,
    ensures
        next_spec(s, Event::TargetFound(TargetState::EmptyDir)).1 == Action::RemoveEmptyDir,
        next_spec(
            next_spec(s, Event::TargetFound(TargetState::EmptyDir)).0,
            Event::EmptyDirRemoved,
        ) == next_spec(s, Event::TargetFound(TargetState::Absent)),
{
}

/// With a zero lock timeout the lock is asked for without any wait, and a lock
/// held by someone else ends the session at once with a lock timeout.
pub proof fn zero_timeout_fails_immediately(
    url: String,
    ensure_fresh: bool,
    resource_path: String,
)
    requires
        is_secure_url_spec(url@),
    ensures
        next_spec(start_spec(url, ensure_fresh, 0).0, Event::ParentFound(ParentState::Present)).1
            == Action::AcquireLock(LockPolicy::Immediately),
        next_spec(
            next_spec(
                start_spec(url, ensure_fresh, 0).0,
                Event::ParentFound(ParentState::Present),
            ).0,
            Event::LockRefused(LockFailure::PermanentlyLocked { resource_path }),
        ).1 == (Action::Finish {
            release_lock: false,
            outcome: Err(SyncError::LockTimeout { resource_path, waited_secs: 0 }),
        }),
{
}

/// Once the commit at `HEAD` has been read and the working tree reset to it, a
/// stale commit ends the session with a stale-checkout error where freshness is
/// required, while the same state succeeds where it is not.
pub proof fn freshness_checked_only_when_required(s: SessionState, timestamp: i64, now: i64)
    requires
        s.phase == Phase::ReadingHead,
        !is_fresh_spec(timestamp, now),
    ensures
        next_spec(s, Event::HeadRead { timestamp, now }).1 == Action::ResetWorktree,
        next_spec(
            (SessionState { ensure_fresh: true, ..next_spec(s, Event::HeadRead { timestamp, now }).0 }),
            Event::WorktreeReset,
        ).1 == (Action::Finish { release_lock: true, outcome: Err(SyncError::Stale { timestamp }) }),
        next_spec(
            (SessionState { ensure_fresh: false, ..next_spec(s, Event::HeadRead { timestamp, now }).0 }),
            Event::WorktreeReset,
        ).1 == (Action::Finish { release_lock: true, outcome: Ok(()) }),
{
}

/// The lock is released exactly once: a step out of a phase that holds it
/// either stays in such a phase or finishes with a release; a step out of a
/// phase without it never releases; a finish leaves the session done.
pub proof fn lock_released_exactly_once(s: SessionState, e: Event)
    ensures
        s.phase.holds_lock() ==> (next_spec(s, e).0.phase.holds_lock() || next_spec(
            s,
            e,
        ).1 matches Action::Finish { release_lock: true, .. }),
        !s.phase.holds_lock() ==> !(next_spec(s, e).1 matches Action::Finish {
            release_lock: true,
            ..
        }),
        next_spec(s, e).1 is Finish ==> next_spec(s, e).0.phase == Phase::Done,
        next_spec(s, e).0.phase == Phase::Done ==> !next_spec(s, e).0.phase.holds_lock(),
{
}

/// Nothing under the target path is inspected, removed, opened, cloned into,
/// updated or checked out unless the lock is held.
pub proof fn target_work_only_under_lock(s: SessionState, e: Event)
    ensures
        touches_target(next_spec(s, e).1) ==> next_spec(s, e).0.phase.holds_lock(),
{
}

/// A session succeeds only once the working tree has been reset to the commit
/// at `HEAD`; that reset comes only after the commit was read, and the read only
/// after a clone, or after a fetch and the update of `HEAD`.
pub proof fn success_only_after_worktree_reset(s: SessionState, e: Event)
    ensures
        next_spec(s, e).1 matches Action::Finish { outcome: Ok(_), .. } ==> s.phase
            is ResettingWorktree && e is WorktreeReset,
        next_spec(s, e).0.phase is ResettingWorktree ==> s.phase == Phase::ReadingHead
            && e is HeadRead,
        next_spec(s, e).0.phase == Phase::ReadingHead && s.phase != Phase::ReadingHead ==> (
        s.phase == Phase::Cloning || s.phase == Phase::UpdatingHead),
{
}

/// After a fetch, the update always points `HEAD`, or the branch that it names,
/// at the commit that was just fetched.
pub proof fn head_follows_fetched_commit(s: SessionState, remote_head: Vec<u8>, head: crate::reconcile::HeadKind)
    requires
        s.phase == Phase::Fetching,
    ensures
        next_spec(s, Event::Fetched { remote_head, head }).1 matches Action::UpdateHead(edit)
            && edit.new_id == remote_head,
{
}

} // verus!
