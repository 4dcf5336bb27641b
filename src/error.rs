//! Errors of a synchronisation.
use vstd::prelude::*;

verus! {

/// The step of a synchronisation that was running when something went wrong.
#[derive(Clone, Copy, Debug, PartialEq, Eq, Structural)]
pub enum Step {
    PrepareParent,
    AcquireLock,
    InspectTarget,
    RemoveEmptyDir,
    Discover,
    Clone,
    Fetch,
    UpdateHead,
    ReadHead,
    ResetWorktree,
    Finished,
}

/// Why the parameters of a synchronisation were refused.
#[derive(Clone, Copy, Debug, PartialEq, Eq, Structural)]
pub enum BadParam {
    /// The remote URL does not use the secure scheme.
    InsecureUrl,
    /// The target path has no parent directory.
    NoParentDirectory,
}

/// The broad kind of an error, as callers tell them apart.
#[derive(Clone, Copy, Debug, PartialEq, Eq, Structural)]
pub enum ErrorKind {
    BadParam,
    LockTimeout,
    Io,
    Repo,
    Interrupted,
}

/// An error that ends a synchronisation.
#[derive(Debug)]
pub enum SyncError {
    /// The parameters were refused before anything was touched.
    BadParam(BadParam),
    /// The lock was still held by someone else when the wait ran out.
    LockTimeout { resource_path: String, waited_secs: u64 },
    /// A filesystem step failed.
    Io { step: Step, detail: String },
    /// A step of the version-control engine failed.
    Repo { step: Step, detail: String },
    /// The checkout was synchronised, but its latest commit is too old.
    Stale { timestamp: i64 },
    /// The caller asked for the work to stop.
    Interrupted { step: Step },
    /// The caller reported an outcome that the running step cannot have.
    OutOfOrder { step: Step },
}

/// The kind of each error; a stale checkout counts as a repository failure.
pub open spec fn kind_of(e: SyncError) -> ErrorKind {
    match e {
        SyncError::BadParam(_) => ErrorKind::BadParam,
        SyncError::LockTimeout { .. } => ErrorKind::LockTimeout,
        SyncError::Io { .. } => ErrorKind::Io,
        SyncError::Repo { .. } => ErrorKind::Repo,
        SyncError::Stale { .. } => ErrorKind::Repo,
        SyncError::Interrupted { .. } => ErrorKind::Interrupted,
        SyncError::OutOfOrder { .. } => ErrorKind::Repo,
    }
}

impl SyncError {
    pub fn kind(&self) -> (r: ErrorKind)
        ensures
            r == kind_of(*self),
    {
        match self {
            SyncError::BadParam(_) => ErrorKind::BadParam,
            SyncError::LockTimeout { .. } => ErrorKind::LockTimeout,
            SyncError::Io { .. } => ErrorKind::Io,
            SyncError::Repo { .. } => ErrorKind::Repo,
            SyncError::Stale { .. } => ErrorKind::Repo,
            SyncError::Interrupted { .. } => ErrorKind::Interrupted,
            SyncError::OutOfOrder { .. } => ErrorKind::Repo,
        }
    }
}

} // verus!
