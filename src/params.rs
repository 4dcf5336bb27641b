//! Parameters of a synchronisation: the remote URL and the lock policy.
use vstd::prelude::*;

verus! {

/// The scheme prefix that every remote URL must start with.
pub open spec fn secure_prefix() -> Seq<char> {
    seq!['h', 't', 't', 'p', 's', ':', '/', '/']
}

/// `url` starts with the secure scheme prefix.
pub open spec fn is_secure_url_spec(url: Seq<char>) -> bool {
    url.len() >= secure_prefix().len() && url.subrange(0, secure_prefix().len() as int)
        == secure_prefix()
}

/// Whether `url` starts with the secure scheme prefix.
pub fn is_secure_url(url: &str) -> (r: bool)
    ensures
        r == is_secure_url_spec(url@),
{
    let prefix: Vec<char> = vec!['h', 't', 't', 'p', 's', ':', '/', '/'];
    assert(prefix@ == secure_prefix());
    let n = url.unicode_len();
    if n < prefix.len() {
        return false;
    }
    let mut i: usize = 0;
    while i < prefix.len()
        invariant
            prefix@ == secure_prefix(),
            n == url@.len(),
            prefix.len() <= n,
            i <= prefix.len(),
            forall|j: int| 0 <= j < i ==> url@[j] == prefix@[j],
        decreases prefix.len() - i,
    {
        if url.get_char(i) != prefix[i] {
            assert(url@.subrange(0, 8)[i as int] != secure_prefix()[i as int]);
            return false;
        }
        i = i + 1;
    }
    assert(url@.subrange(0, 8) =~= secure_prefix());
    true
}

/// How long to wait for the lock by default: five minutes, in milliseconds.
pub const DEFAULT_LOCK_TIMEOUT_MS: u64 = 300_000;

/// Extension that turns the target path into the path of its lock file.
pub const LOCK_EXTENSION: &'static str = "rustsec";

/// Refspec that maps the remote's `HEAD` to the local remote-tracking ref.
pub const REF_SPEC: &'static str = "+HEAD:refs/remotes/origin/HEAD";

/// Name of the remote that a checkout tracks.
pub const REMOTE_NAME: &'static str = "origin";

/// URL of the canonical advisory database.
pub const DEFAULT_URL: &'static str = "https://github.com/RustSec/advisory-db.git";

/// Directory, under the package manager's home, that holds the default checkout.
pub const ADVISORY_DB_DIRECTORY: &'static str = "advisory-db";

/// How a lock held by someone else is waited for.
#[derive(Clone, Copy, Debug, PartialEq, Eq, Structural)]
pub enum LockPolicy {
    /// Give up at once.
    Immediately,
    /// Retry with growing pauses for up to this many milliseconds.
    AfterDurationWithBackoff(u64),
}

/// The policy for a wait of `timeout_ms`: none at all for zero.
pub open spec fn lock_policy_spec(timeout_ms: u64) -> LockPolicy {
    if timeout_ms == 0 {
        LockPolicy::Immediately
    } else {
        LockPolicy::AfterDurationWithBackoff(timeout_ms)
    }
}

/// The lock policy for a wait of at most `timeout_ms` milliseconds.
pub fn lock_policy(timeout_ms: u64) -> (r: LockPolicy)
    ensures
        r == lock_policy_spec(timeout_ms),
{
    if timeout_ms == 0 {
        LockPolicy::Immediately
    } else {
        LockPolicy::AfterDurationWithBackoff(timeout_ms)
    }
}

} // verus!
