use advisory_sync::error::{BadParam, ErrorKind, Step, SyncError};
use advisory_sync::freshness::{is_fresh, STALE_AFTER_SECS};
use advisory_sync::params::{is_secure_url, lock_policy, LockPolicy, DEFAULT_URL};
use advisory_sync::reconcile::{plan_head_update, EditTarget, HeadKind, PreviousValue};
use advisory_sync::session::{
    is_reusable, Action, Event, LockFailure, ParentState, Phase, Session, TargetState,
};

const URL: &str = "https://github.com/RustSec/advisory-db.git";
const NOW: i64 = 1_700_000_000;

fn started(url: &str, ensure_fresh: bool, lock_timeout_ms: u64) -> Session {
    let (s, a) = Session::start(url.to_string(), ensure_fresh, lock_timeout_ms);
    assert!(matches!(a, Action::InspectParent));
    s
}

/// A session that holds the lock and is about to look for a repository.
fn discovering(ensure_fresh: bool) -> Session {
    let mut s = started(URL, ensure_fresh, 5_000);
    s.step(Event::ParentFound(ParentState::Present));
    assert!(matches!(s.step(Event::LockAcquired), Action::InspectTarget));
    assert!(matches!(s.step(Event::TargetFound(TargetState::Occupied)), Action::Discover));
    s
}

#[test]
fn secure_scheme_is_recognised() {
    assert!(is_secure_url("https://example.com/db.git"));
    assert!(is_secure_url("https://"));
    assert!(is_secure_url(DEFAULT_URL));
    assert!(!is_secure_url("http://example.com/db.git"));
    assert!(!is_secure_url("HTTPS://example.com"));
    assert!(!is_secure_url("https:/"));
    assert!(!is_secure_url(""));
    assert!(!is_secure_url("git@github.com:RustSec/advisory-db.git"));
}

#[test]
fn insecure_url_fails_before_anything_is_touched() {
    let (mut s, a) = Session::start("http://github.com/RustSec/advisory-db.git".to_string(), true, 0);
    assert!(matches!(
        a,
        Action::Finish { release_lock: false, outcome: Err(SyncError::BadParam(BadParam::InsecureUrl)) }
    ));
    assert_eq!(s.phase(), Phase::Done);
    assert!(matches!(s.step(Event::ParentFound(ParentState::Present)), Action::Halt));
    assert!(matches!(s.step(Event::LockAcquired), Action::Halt));
    assert_eq!(s.phase(), Phase::Done);
}

#[test]
fn path_without_parent_is_a_bad_parameter() {
    let mut s = started(URL, false, 0);
    let a = s.step(Event::ParentFound(ParentState::NoParent));
    assert!(matches!(
        a,
        Action::Finish {
            release_lock: false,
            outcome: Err(SyncError::BadParam(BadParam::NoParentDirectory))
        }
    ));
}

#[test]
fn lock_policy_follows_the_timeout() {
    assert_eq!(lock_policy(0), LockPolicy::Immediately);
    assert_eq!(lock_policy(1), LockPolicy::AfterDurationWithBackoff(1));
    assert_eq!(lock_policy(300_000), LockPolicy::AfterDurationWithBackoff(300_000));
}

#[test]
fn zero_timeout_on_held_lock_fails_immediately() {
    let mut s = started(URL, true, 0);
    let a = s.step(Event::ParentFound(ParentState::Present));
    assert!(matches!(a, Action::AcquireLock(LockPolicy::Immediately)));
    let a = s.step(Event::LockRefused(LockFailure::PermanentlyLocked {
        resource_path: "/tmp/db.rustsec".to_string(),
    }));
    match a {
        Action::Finish {
            release_lock: false,
            outcome: Err(SyncError::LockTimeout { resource_path, waited_secs }),
        } => {
            assert_eq!(resource_path, "/tmp/db.rustsec");
            assert_eq!(waited_secs, 0);
        }
        other => panic!("unexpected action {:?}", other),
    }
}

#[test]
fn lock_timeout_reports_the_wait_in_seconds() {
    let mut s = started(URL, true, 300_000);
    s.step(Event::ParentFound(ParentState::Missing));
    let a = s.step(Event::ParentCreated);
    assert!(matches!(a, Action::AcquireLock(LockPolicy::AfterDurationWithBackoff(300_000))));
    let a = s.step(Event::LockRefused(LockFailure::PermanentlyLocked { resource_path: "p".to_string() }));
    match a {
        Action::Finish { outcome: Err(e), .. } => {
            assert_eq!(e.kind(), ErrorKind::LockTimeout);
            assert!(matches!(e, SyncError::LockTimeout { waited_secs: 300, .. }));
        }
        other => panic!("unexpected action {:?}", other),
    }
}

#[test]
fn lock_file_error_is_a_repository_error() {
    let mut s = started(URL, true, 10);
    s.step(Event::ParentFound(ParentState::Present));
    let a = s.step(Event::LockRefused(LockFailure::Io("denied".to_string())));
    match a {
        Action::Finish { release_lock: false, outcome: Err(SyncError::Repo { step, detail }) } => {
            assert_eq!(step, Step::AcquireLock);
            assert_eq!(detail, "denied");
        }
        other => panic!("unexpected action {:?}", other),
    }
}

#[test]
fn empty_directory_is_removed_then_cloned_into() {
    let mut s = started(URL, true, 5_000);
    assert!(matches!(s.step(Event::ParentFound(ParentState::Missing)), Action::CreateParent));
    assert!(matches!(
        s.step(Event::ParentCreated),
        Action::AcquireLock(LockPolicy::AfterDurationWithBackoff(5_000))
    ));
    assert!(matches!(s.step(Event::LockAcquired), Action::InspectTarget));
    assert!(matches!(s.step(Event::TargetFound(TargetState::EmptyDir)), Action::RemoveEmptyDir));
    assert!(matches!(s.step(Event::EmptyDirRemoved), Action::Discover));
    assert!(matches!(s.step(Event::Discovered { origin_url: None }), Action::Clone));
    assert!(matches!(s.step(Event::Cloned), Action::ReadHead));
    let a = s.step(Event::HeadRead { timestamp: NOW - 60, now: NOW });
    assert!(matches!(a, Action::ResetWorktree));
    assert_eq!(s.phase(), Phase::ResettingWorktree { timestamp: NOW - 60, now: NOW });
    let a = s.step(Event::WorktreeReset);
    assert!(matches!(a, Action::Finish { release_lock: true, outcome: Ok(()) }));
    assert_eq!(s.phase(), Phase::Done);
}

#[test]
fn absent_target_goes_straight_to_discovery() {
    let mut s = started(URL, true, 5_000);
    s.step(Event::ParentFound(ParentState::Present));
    s.step(Event::LockAcquired);
    assert!(matches!(s.step(Event::TargetFound(TargetState::Absent)), Action::Discover));
}

#[test]
fn matching_origin_is_fetched_and_branch_moved() {
    let mut s = discovering(true);
    let a = s.step(Event::Discovered { origin_url: Some(URL.to_string()) });
    assert!(matches!(a, Action::Fetch));
    let a = s.step(Event::Fetched {
        remote_head: vec![0xab, 0xcd],
        head: HeadKind::Symbolic { target: Some("refs/heads/main".to_string()) },
    });
    match a {
        Action::UpdateHead(edit) => {
            assert!(matches!(edit.target, EditTarget::Branch(ref n) if n == "refs/heads/main"));
            assert_eq!(edit.expected, PreviousValue::MustExist);
            assert_eq!(edit.new_id, vec![0xab, 0xcd]);
        }
        other => panic!("unexpected action {:?}", other),
    }
    assert!(matches!(s.step(Event::HeadUpdated), Action::ReadHead));
    assert!(matches!(s.step(Event::HeadRead { timestamp: NOW, now: NOW }), Action::ResetWorktree));
    let a = s.step(Event::WorktreeReset);
    assert!(matches!(a, Action::Finish { release_lock: true, outcome: Ok(()) }));
}

#[test]
fn other_origin_is_cloned_afresh() {
    let mut s = discovering(true);
    let a = s.step(Event::Discovered { origin_url: Some("https://example.com/fork.git".to_string()) });
    assert!(matches!(a, Action::Clone));
    assert!(!is_reusable(&Some(format!("{}/", URL)), &URL.to_string()));
    assert!(is_reusable(&Some(URL.to_string()), &URL.to_string()));
    assert!(!is_reusable(&None, &URL.to_string()));
}

#[test]
fn detached_or_unborn_head_is_set_directly() {
    for head in [HeadKind::Detached, HeadKind::Unborn, HeadKind::Symbolic { target: None }] {
        let edit = plan_head_update(head, vec![1, 2, 3]);
        assert!(matches!(edit.target, EditTarget::Head));
        assert_eq!(edit.expected, PreviousValue::Any);
        assert_eq!(edit.new_id, vec![1, 2, 3]);
    }
}

#[test]
fn stale_commit_fails_only_when_freshness_is_required() {
    let old = NOW - STALE_AFTER_SECS - 1;
    for ensure_fresh in [true, false] {
        let mut s = discovering(ensure_fresh);
        s.step(Event::Discovered { origin_url: None });
        s.step(Event::Cloned);
        let a = s.step(Event::HeadRead { timestamp: old, now: NOW });
        assert!(matches!(a, Action::ResetWorktree));
        let a = s.step(Event::WorktreeReset);
        if ensure_fresh {
            match a {
                Action::Finish { release_lock: true, outcome: Err(e) } => {
                    assert_eq!(e.kind(), ErrorKind::Repo);
                    assert!(matches!(e, SyncError::Stale { timestamp } if timestamp == old));
                }
                other => panic!("unexpected action {:?}", other),
            }
        } else {
            assert!(matches!(a, Action::Finish { release_lock: true, outcome: Ok(()) }));
        }
    }
}

#[test]
fn freshness_threshold_is_exact() {
    assert_eq!(STALE_AFTER_SECS, 90 * 24 * 60 * 60);
    assert!(!is_fresh(NOW - STALE_AFTER_SECS, NOW));
    assert!(is_fresh(NOW - STALE_AFTER_SECS + 1, NOW));
    assert!(is_fresh(NOW, NOW));
    assert!(is_fresh(NOW + 10, NOW));
    assert!(is_fresh(i64::MIN, i64::MIN));
    assert!(!is_fresh(i64::MIN, i64::MAX));
    assert!(is_fresh(i64::MAX, i64::MIN));
}

#[test]
fn failures_name_the_running_step() {
    let mut s = started(URL, true, 5_000);
    s.step(Event::ParentFound(ParentState::Missing));
    match s.step(Event::Failed("read-only".to_string())) {
        Action::Finish { release_lock: false, outcome: Err(SyncError::Io { step, detail }) } => {
            assert_eq!(step, Step::PrepareParent);
            assert_eq!(detail, "read-only");
        }
        other => panic!("unexpected action {:?}", other),
    }

    let mut s = discovering(true);
    s.step(Event::Discovered { origin_url: Some(URL.to_string()) });
    match s.step(Event::Failed("connection reset".to_string())) {
        Action::Finish { release_lock: true, outcome: Err(SyncError::Repo { step, detail }) } => {
            assert_eq!(step, Step::Fetch);
            assert_eq!(detail, "connection reset");
        }
        other => panic!("unexpected action {:?}", other),
    }
    assert!(matches!(s.step(Event::Cloned), Action::Halt));
}

#[test]
fn interruption_releases_the_lock() {
    let mut s = discovering(true);
    s.step(Event::Discovered { origin_url: None });
    let a = s.step(Event::Interrupted);
    match a {
        Action::Finish { release_lock: true, outcome: Err(e) } => {
            assert_eq!(e.kind(), ErrorKind::Interrupted);
            assert!(matches!(e, SyncError::Interrupted { step: Step::Clone }));
        }
        other => panic!("unexpected action {:?}", other),
    }

    let mut s = started(URL, true, 0);
    let a = s.step(Event::Interrupted);
    assert!(matches!(
        a,
        Action::Finish {
            release_lock: false,
            outcome: Err(SyncError::Interrupted { step: Step::PrepareParent })
        }
    ));
}

#[test]
fn outcome_out_of_order_ends_the_session() {
    let mut s = started(URL, true, 0);
    let a = s.step(Event::LockAcquired);
    match a {
        Action::Finish { release_lock: false, outcome: Err(e) } => {
            assert!(matches!(e, SyncError::OutOfOrder { step: Step::PrepareParent }));
            assert_eq!(e.kind(), ErrorKind::Repo);
        }
        other => panic!("unexpected action {:?}", other),
    }
    let mut s = discovering(true);
    let a = s.step(Event::HeadUpdated);
    assert!(matches!(
        a,
        Action::Finish { release_lock: true, outcome: Err(SyncError::OutOfOrder { step: Step::Discover }) }
    ));
}

#[test]
fn fetched_checkout_is_reset_before_it_is_judged() {
    let mut s = discovering(true);
    s.step(Event::Discovered { origin_url: Some(URL.to_string()) });
    s.step(Event::Fetched { remote_head: vec![7; 20], head: HeadKind::Detached });
    assert!(matches!(s.step(Event::HeadUpdated), Action::ReadHead));
    let a = s.step(Event::HeadRead { timestamp: 0, now: NOW });
    assert!(matches!(a, Action::ResetWorktree));
    match s.step(Event::Failed("checkout failed".to_string())) {
        Action::Finish { release_lock: true, outcome: Err(SyncError::Repo { step, detail }) } => {
            assert_eq!(step, Step::ResetWorktree);
            assert_eq!(detail, "checkout failed");
        }
        other => panic!("unexpected action {:?}", other),
    }
}

#[test]
fn session_reports_its_parameters() {
    let s = started(URL, false, 1_234);
    assert_eq!(s.url(), URL);
    assert!(!s.ensure_fresh());
    assert_eq!(s.lock_timeout_ms(), 1_234);
    assert_eq!(s.phase(), Phase::InspectingParent);
}
