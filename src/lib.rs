//! Synchronisation of a local checkout of a remote advisory database.
//!
//! The library holds the decisions of a synchronisation: which step comes next,
//! when an existing checkout can be reused, how `HEAD` is brought up to date,
//! when a checkout is too old, and which error a failure becomes. The steps
//! themselves (the lock file, the disk, the network) are performed by the caller,
//! who hands each outcome back as an [`session::Event`].
pub mod error;
pub mod freshness;
pub mod laws;
pub mod params;
pub mod reconcile;
pub mod session;
