//! The synchronisation as a state machine.
//!
//! A [`Session`] starts from the parameters and then, for each outcome that the
//! caller reports, says what to do next. The lock is taken after the parent
//! directory exists and before anything under the target path is touched; once
//! taken, it is released by the single [`Action::Finish`] that ends the session.
use vstd::prelude::*;

use crate::error::{BadParam, Step, SyncError};
use crate::freshness::{is_fresh, is_fresh_spec};
use crate::params::{is_secure_url, is_secure_url_spec, lock_policy, lock_policy_spec, LockPolicy};
use crate::reconcile::{head_update_spec, plan_head_update, HeadKind, RefEdit};

verus! {

/// Where a session stands.
#[derive(Clone, Copy, Debug, PartialEq, Eq, Structural)]
pub enum Phase {
    InspectingParent,
    CreatingParent,
    Locking,
    InspectingTarget,
    RemovingEmptyDir,
    Discovering,
    Cloning,
    Fetching,
    UpdatingHead,
    ReadingHead,
    /// The commit at `HEAD`, made at `timestamp` and read at time `now`, is
    /// being checked out into the working tree.
    ResettingWorktree { timestamp: i64, now: i64 },
    Done,
}

impl Phase {
    /// The lock is held in this phase.
    pub open spec fn holds_lock(self) -> bool {
        match self {
            Phase::InspectingTarget | Phase::RemovingEmptyDir | Phase::Discovering
            | Phase::Cloning | Phase::Fetching | Phase::UpdatingHead | Phase::ReadingHead
            | Phase::ResettingWorktree { .. } => true,
            _ => false,
        }
    }

    /// The step that runs in this phase.
    pub open spec fn step_spec(self) -> Step {
        match self {
            Phase::InspectingParent => Step::PrepareParent,
            Phase::CreatingParent => Step::PrepareParent,
            Phase::Locking => Step::AcquireLock,
            Phase::InspectingTarget => Step::InspectTarget,
            Phase::RemovingEmptyDir => Step::RemoveEmptyDir,
            Phase::Discovering => Step::Discover,
            Phase::Cloning => Step::Clone,
            Phase::Fetching => Step::Fetch,
            Phase::UpdatingHead => Step::UpdateHead,
            Phase::ReadingHead => Step::ReadHead,
            Phase::ResettingWorktree { .. } => Step::ResetWorktree,
            Phase::Done => Step::Finished,
        }
    }

    /// The step of this phase works on the filesystem rather than through the
    /// version-control engine.
    pub open spec fn is_filesystem_spec(self) -> bool {
        match self {
            Phase::InspectingParent | Phase::CreatingParent | Phase::InspectingTarget
            | Phase::RemovingEmptyDir => true,
            _ => false,
        }
    }

    pub fn holds_lock_exec(self) -> (r: bool)
        ensures
            r == self.holds_lock(),
    {
        match self {
            Phase::InspectingTarget | Phase::RemovingEmptyDir | Phase::Discovering
            | Phase::Cloning | Phase::Fetching | Phase::UpdatingHead | Phase::ReadingHead
            | Phase::ResettingWorktree { .. } => true,
            _ => false,
        }
    }

    pub fn step(self) -> (r: Step)
        ensures
            r == self.step_spec(),
    {
        match self {
            Phase::InspectingParent => Step::PrepareParent,
            Phase::CreatingParent => Step::PrepareParent,
            Phase::Locking => Step::AcquireLock,
            Phase::InspectingTarget => Step::InspectTarget,
            Phase::RemovingEmptyDir => Step::RemoveEmptyDir,
            Phase::Discovering => Step::Discover,
            Phase::Cloning => Step::Clone,
            Phase::Fetching => Step::Fetch,
            Phase::UpdatingHead => Step::UpdateHead,
            Phase::ReadingHead => Step::ReadHead,
            Phase::ResettingWorktree { .. } => Step::ResetWorktree,
            Phase::Done => Step::Finished,
        }
    }

    pub fn is_filesystem(self) -> (r: bool)
        ensures
            r == self.is_filesystem_spec(),
    {
        match self {
            Phase::InspectingParent | Phase::CreatingParent | Phase::InspectingTarget
            | Phase::RemovingEmptyDir => true,
            _ => false,
        }
    }
}

/// What the parent directory of the target path is.
#[derive(Clone, Copy, Debug, PartialEq, Eq, Structural)]
pub enum ParentState {
    /// The target path has no parent.
    NoParent,
    /// The parent is not a directory yet.
    Missing,
    /// The parent is a directory.
    Present,
}

/// What the target path is, once the lock is held.
#[derive(Clone, Copy, Debug, PartialEq, Eq, Structural)]
pub enum TargetState {
    /// Nothing is there, or something that is not a directory.
    Absent,
    /// An empty directory, left perhaps by an interrupted clone.
    EmptyDir,
    /// A directory with entries.
    Occupied,
}

/// Why the lock could not be taken.
#[derive(Debug)]
pub enum LockFailure {
    /// The lock file could not be written.
    Io(String),
    /// Someone else held the lock for the whole wait.
    PermanentlyLocked { resource_path: String },
}

/// The outcome of the action that a session asked for.
#[derive(Debug)]
pub enum Event {
    ParentFound(ParentState),
    ParentCreated,
    LockAcquired,
    LockRefused(LockFailure),
    TargetFound(TargetState),
    EmptyDirRemoved,
    /// A repository was looked for at the target path; `origin_url` is the URL
    /// of its `origin` remote, or `None` where no repository opened or it has no
    /// such remote.
    Discovered { origin_url: Option<String> },
    /// A fresh clone was fetched, checked out, and its fetch head written.
    Cloned,
    /// The existing checkout fetched `remote_head` from its remote; `head` is
    /// what the local `HEAD` is.
    Fetched { remote_head: Vec<u8>, head: HeadKind },
    HeadUpdated,
    /// The commit at `HEAD` was read; it was made at `timestamp`,
    /// and the time is `now` (seconds since the epoch).
    HeadRead { timestamp: i64, now: i64 },
    /// The working tree and the index now hold the tree of the commit at `HEAD`.
    WorktreeReset,
    /// The running step failed, for the reason in the text.
    Failed(String),
    /// The caller was asked to stop.
    Interrupted,
}

/// What the caller is to do next.
#[derive(Debug)]
pub enum Action {
    /// Find out what the parent directory of the target path is.
    InspectParent,
    /// Create the parent directory and those above it.
    CreateParent,
    /// Take the lock beside the target path with this policy.
    AcquireLock(LockPolicy),
    /// Find out what the target path is.
    InspectTarget,
    /// Remove the empty directory at the target path.
    RemoveEmptyDir,
    /// Open the repository at the target path and read its `origin` URL.
    Discover,
    /// Clone the remote into the target path, check it out, write its fetch head.
    Clone,
    /// Fetch the `origin` remote of the existing checkout.
    Fetch,
    /// Write this reference update.
    UpdateHead(RefEdit),
    /// Read the commit at `HEAD` and report its time and the time now.
    ReadHead,
    /// Check the tree of the commit at `HEAD` out into the working tree, and
    /// write the index to match.
    ResetWorktree,
    /// The session is over: release the lock where `release_lock` says so, and
    /// hand `outcome` to the caller.
    Finish { release_lock: bool, outcome: Result<(), SyncError> },
    /// Nothing is left to do.
    Halt,
}

/// What a session knows: its parameters and where it stands.
#[derive(Debug)]
pub struct SessionState {
    pub url: String,
    pub ensure_fresh: bool,
    pub lock_timeout_ms: u64,
    pub phase: Phase,
}

/// A synchronisation of one remote URL into one target path. Its state moves
/// only through [`Session::start`] and [`Session::step`].
#[derive(Debug)]
pub struct Session {
    state: SessionState,
}

impl View for Session {
    type V = SessionState;

    closed spec fn view(&self) -> SessionState {
        self.state
    }
}

/// An existing checkout is reused only when its `origin` URL is `url` exactly.
pub open spec fn is_reusable_spec(origin_url: Option<String>, url: String) -> bool {
    match origin_url {
        Some(o) => o@ == url@,
        None => false,
    }
}

/// Whether a checkout whose `origin` URL is `origin_url` can be reused for `url`.
pub fn is_reusable(origin_url: &Option<String>, url: &String) -> (r: bool)
    ensures
        r == is_reusable_spec(*origin_url, *url),
{
    match origin_url {
        Some(o) => *o == *url,
        None => false,
    }
}

/// The error for a lock that could not be taken within `timeout_ms`.
pub open spec fn lock_error_spec(f: LockFailure, timeout_ms: u64) -> SyncError {
    match f {
        LockFailure::Io(detail) => SyncError::Repo { step: Step::AcquireLock, detail },
        LockFailure::PermanentlyLocked { resource_path } => SyncError::LockTimeout {
            resource_path,
            waited_secs: timeout_ms / 1000,
        },
    }
}

/// Maps a lock failure to the error that ends the session.
pub fn lock_error(f: LockFailure, timeout_ms: u64) -> (r: SyncError)
    ensures
        r == lock_error_spec(f, timeout_ms),
{
    match f {
        LockFailure::Io(detail) => SyncError::Repo { step: Step::AcquireLock, detail },
        LockFailure::PermanentlyLocked { resource_path } => SyncError::LockTimeout {
            resource_path,
            waited_secs: timeout_ms / 1000,
        },
    }
}

/// The error for a failure reported while in `phase`: an I/O error for a
/// filesystem step, else a repository error, each naming the step.
pub open spec fn failure_error_spec(phase: Phase, detail: String) -> SyncError {
    if phase.is_filesystem_spec() {
        SyncError::Io { step: phase.step_spec(), detail }
    } else {
        SyncError::Repo { step: phase.step_spec(), detail }
    }
}

/// The session after `s` ends with `outcome`.
pub open spec fn finish_spec(s: SessionState, outcome: Result<(), SyncError>) -> (SessionState, Action) {
    (
        SessionState { phase: Phase::Done, ..s },
        Action::Finish { release_lock: s.phase.holds_lock(), outcome },
    )
}

/// The session after `s` moves to `phase` and asks for `action`.
pub open spec fn move_spec(s: SessionState, phase: Phase, action: Action) -> (SessionState, Action) {
    (SessionState { phase, ..s }, action)
}

/// How a session begins.
pub open spec fn start_spec(url: String, ensure_fresh: bool, lock_timeout_ms: u64) -> (
    SessionState,
    Action,
) {
    if is_secure_url_spec(url@) {
        (
            SessionState { url, ensure_fresh, lock_timeout_ms, phase: Phase::InspectingParent },
            Action::InspectParent,
        )
    } else {
        (
            SessionState { url, ensure_fresh, lock_timeout_ms, phase: Phase::Done },
            Action::Finish {
                release_lock: false,
                outcome: Err(SyncError::BadParam(BadParam::InsecureUrl)),
            },
        )
    }
}

/// The outcome `e` of the step that runs in a live session `s`, when it is the
/// outcome that this step has.
pub open spec fn advance_spec(s: SessionState, e: Event) -> (SessionState, Action) {
    match (s.phase, e) {
        (Phase::InspectingParent, Event::ParentFound(ParentState::NoParent)) => finish_spec(
            s,
            Err(SyncError::BadParam(BadParam::NoParentDirectory)),
        ),
        (Phase::InspectingParent, Event::ParentFound(ParentState::Missing)) => move_spec(
            s,
            Phase::CreatingParent,
            Action::CreateParent,
        ),
        (Phase::InspectingParent, Event::ParentFound(ParentState::Present)) => move_spec(
            s,
            Phase::Locking,
            Action::AcquireLock(lock_policy_spec(s.lock_timeout_ms)),
        ),
        (Phase::CreatingParent, Event::ParentCreated) => move_spec(
            s,
            Phase::Locking,
            Action::AcquireLock(lock_policy_spec(s.lock_timeout_ms)),
        ),
        (Phase::Locking, Event::LockAcquired) => move_spec(
            s,
            Phase::InspectingTarget,
            Action::InspectTarget,
        ),
        (Phase::Locking, Event::LockRefused(f)) => finish_spec(
            s,
            Err(lock_error_spec(f, s.lock_timeout_ms)),
        ),
        (Phase::InspectingTarget, Event::TargetFound(TargetState::EmptyDir)) => move_spec(
            s,
            Phase::RemovingEmptyDir,
            Action::RemoveEmptyDir,
        ),
        (Phase::InspectingTarget, Event::TargetFound(_)) => move_spec(
            s,
            Phase::Discovering,
            Action::Discover,
        ),
        (Phase::RemovingEmptyDir, Event::EmptyDirRemoved) => move_spec(
            s,
            Phase::Discovering,
            Action::Discover,
        ),
        (Phase::Discovering, Event::Discovered { origin_url }) => if is_reusable_spec(
            origin_url,
            s.url,
        ) {
            move_spec(s, Phase::Fetching, Action::Fetch)
        } else {
            move_spec(s, Phase::Cloning, Action::Clone)
        },
        (Phase::Cloning, Event::Cloned) => move_spec(s, Phase::ReadingHead, Action::ReadHead),
        (Phase::Fetching, Event::Fetched { remote_head, head }) => move_spec(
            s,
            Phase::UpdatingHead,
            Action::UpdateHead(head_update_spec(head, remote_head)),
        ),
        (Phase::UpdatingHead, Event::HeadUpdated) => move_spec(
            s,
            Phase::ReadingHead,
            Action::ReadHead,
        ),
        (Phase::ReadingHead, Event::HeadRead { timestamp, now }) => move_spec(
            s,
            Phase::ResettingWorktree { timestamp, now },
            Action::ResetWorktree,
        ),
        (Phase::ResettingWorktree { timestamp, now }, Event::WorktreeReset) => if s.ensure_fresh
            && !is_fresh_spec(timestamp, now) {
            finish_spec(s, Err(SyncError::Stale { timestamp }))
        } else {
            finish_spec(s, Ok(()))
        },
        _ => finish_spec(s, Err(SyncError::OutOfOrder { step: s.phase.step_spec() })),
    }
}

/// The session and action after outcome `e` is reported to `s`.
pub open spec fn next_spec(s: SessionState, e: Event) -> (SessionState, Action) {
    if s.phase == Phase::Done {
        (s, Action::Halt)
    } else {
        match e {
            Event::Interrupted => finish_spec(
                s,
                Err(SyncError::Interrupted { step: s.phase.step_spec() }),
            ),
            Event::Failed(detail) => finish_spec(s, Err(failure_error_spec(s.phase, detail))),
            _ => advance_spec(s, e),
        }
    }
}

impl Session {
    /// Begins a synchronisation of `url`. An insecure URL ends it at once, with
    /// nothing touched; otherwise the first step is to inspect the parent of
    /// the target path.
    pub fn start(url: String, ensure_fresh: bool, lock_timeout_ms: u64) -> (r: (Session, Action))
        ensures
            (r.0@, r.1) == start_spec(url, ensure_fresh, lock_timeout_ms),
    {
        if is_secure_url(url.as_str()) {
            let state = SessionState {
                url,
                ensure_fresh,
                lock_timeout_ms,
                phase: Phase::InspectingParent,
            };
            (Session { state }, Action::InspectParent)
        } else {
            (
                Session {
                    state: SessionState { url, ensure_fresh, lock_timeout_ms, phase: Phase::Done },
                },
                Action::Finish {
                    release_lock: false,
                    outcome: Err(SyncError::BadParam(BadParam::InsecureUrl)),
                },
            )
        }
    }

    /// The URL being synchronised.
    pub fn url(&self) -> (r: &String)
        ensures
            *r == self@.url,
    {
        &self.state.url
    }

    /// Whether a stale checkout is an error.
    pub fn ensure_fresh(&self) -> (r: bool)
        ensures
            r == self@.ensure_fresh,
    {
        self.state.ensure_fresh
    }

    /// The longest wait for the lock, in milliseconds.
    pub fn lock_timeout_ms(&self) -> (r: u64)
        ensures
            r == self@.lock_timeout_ms,
    {
        self.state.lock_timeout_ms
    }

    /// Where the session stands.
    pub fn phase(&self) -> (r: Phase)
        ensures
            r == self@.phase,
    {
        self.state.phase
    }

    fn finish(&mut self, outcome: Result<(), SyncError>) -> (r: Action)
        ensures
            (final(self)@, r) == finish_spec(old(self)@, outcome),
    {
        let release_lock = self.state.phase.holds_lock_exec();
        self.state.phase = Phase::Done;
        Action::Finish { release_lock, outcome }
    }

    fn advance(&mut self, e: Event) -> (r: Action)
        requires
            old(self)@.phase != Phase::Done,
        ensures
            (final(self)@, r) == advance_spec(old(self)@, e),
    {
        match (self.state.phase, e) {
            (Phase::InspectingParent, Event::ParentFound(ParentState::NoParent)) => self.finish(
                Err(SyncError::BadParam(BadParam::NoParentDirectory)),
            ),
            (Phase::InspectingParent, Event::ParentFound(ParentState::Missing)) => {
                self.state.phase = Phase::CreatingParent;
                Action::CreateParent
            },
            (Phase::InspectingParent, Event::ParentFound(ParentState::Present)) => {
                self.state.phase = Phase::Locking;
                Action::AcquireLock(lock_policy(self.state.lock_timeout_ms))
            },
            (Phase::CreatingParent, Event::ParentCreated) => {
                self.state.phase = Phase::Locking;
                Action::AcquireLock(lock_policy(self.state.lock_timeout_ms))
            },
            (Phase::Locking, Event::LockAcquired) => {
                self.state.phase = Phase::InspectingTarget;
                Action::InspectTarget
            },
            (Phase::Locking, Event::LockRefused(f)) => {
                let err = lock_error(f, self.state.lock_timeout_ms);
                self.finish(Err(err))
            },
            (Phase::InspectingTarget, Event::TargetFound(TargetState::EmptyDir)) => {
                self.state.phase = Phase::RemovingEmptyDir;
                Action::RemoveEmptyDir
            },
            (Phase::InspectingTarget, Event::TargetFound(_)) => {
                self.state.phase = Phase::Discovering;
                Action::Discover
            },
            (Phase::RemovingEmptyDir, Event::EmptyDirRemoved) => {
                self.state.phase = Phase::Discovering;
                Action::Discover
            },
            (Phase::Discovering, Event::Discovered { origin_url }) => {
                if is_reusable(&origin_url, &self.state.url) {
                    self.state.phase = Phase::Fetching;
                    Action::Fetch
                } else {
                    self.state.phase = Phase::Cloning;
                    Action::Clone
                }
            },
            (Phase::Cloning, Event::Cloned) => {
                self.state.phase = Phase::ReadingHead;
                Action::ReadHead
            },
            (Phase::Fetching, Event::Fetched { remote_head, head }) => {
                self.state.phase = Phase::UpdatingHead;
                Action::UpdateHead(plan_head_update(head, remote_head))
            },
            (Phase::UpdatingHead, Event::HeadUpdated) => {
                self.state.phase = Phase::ReadingHead;
                Action::ReadHead
            },
            (Phase::ReadingHead, Event::HeadRead { timestamp, now }) => {
                self.state.phase = Phase::ResettingWorktree { timestamp, now };
                Action::ResetWorktree
            },
            (Phase::ResettingWorktree { timestamp, now }, Event::WorktreeReset) => {
                if self.state.ensure_fresh && !is_fresh(timestamp, now) {
                    self.finish(Err(SyncError::Stale { timestamp }))
                } else {
                    self.finish(Ok(()))
                }
            },
            _ => {
                let step = self.state.phase.step();
                self.finish(Err(SyncError::OutOfOrder { step }))
            },
        }
    }

    /// Reports the outcome `e` of the last action and returns the next one.
    /// A failure or an interruption ends a live session with an error that
    /// names the running step; an outcome that the running step cannot have
    /// ends it too. A finished session stays finished and asks for nothing.
    pub fn step(&mut self, e: Event) -> (r: Action)
        ensures
            (final(self)@, r) == next_spec(old(self)@, e),
    {
        if self.state.phase == Phase::Done {
            return Action::Halt;
        }
        match e {
            Event::Interrupted => {
                let step = self.state.phase.step();
                self.finish(Err(SyncError::Interrupted { step }))
            },
            Event::Failed(detail) => {
                let err = if self.state.phase.is_filesystem() {
                    SyncError::Io { step: self.state.phase.step(), detail }
                } else {
                    SyncError::Repo { step: self.state.phase.step(), detail }
                };
                self.finish(Err(err))
            },
            _ => self.advance(e),
        }
    }
}

} // verus!
