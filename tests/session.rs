use mirror_sync::change_set::{ChangeSet, DeltaEntry};
use mirror_sync::mirror::{
    classify_clone_error, Action, CloneOutcome, Event, Operation, StoreError, SyncMode, SyncPhase, CLASS_INVALID,
    CODE_EXISTS, CODE_INVALID_SPEC, CODE_NOT_FOUND,
};
use mirror_sync::revision::Revision;
use mirror_sync::session::{interpret_lookup, interpret_lookup_error, RunReport, Session, SyncError};

fn rev(b: u8) -> Revision {
    Revision::from_bytes([b; 20])
}

fn already_there() -> StoreError {
    StoreError { code: CODE_EXISTS, class: CLASS_INVALID }
}

fn report(s: Session) -> RunReport {
    match s.into_outcome() {
        Some(Ok(r)) => r,
        other => panic!("expected a finished run, got {:?}", other),
    }
}

fn error(s: Session) -> SyncError {
    match s.into_outcome() {
        Some(Err(e)) => e,
        other => panic!("expected a failed run, got {:?}", other),
    }
}

/// Drives a second run against an existing mirror up to the synced state.
fn update_run(checkpoint: Option<&str>, head: Revision) -> (Session, Action) {
    let (mut s, a) = Session::start(checkpoint.map(|t| t.to_string()));
    assert_eq!(a, Action::Clone);
    assert_eq!(s.step(Event::Failed(already_there())), Action::Open);
    assert_eq!(s.step(Event::Opened), Action::FetchOrigin);
    assert_eq!(s.step(Event::Fetched), Action::Disconnect);
    assert_eq!(s.step(Event::Disconnected), Action::ResolveFetchHead);
    assert_eq!(s.step(Event::FetchHead(head)), Action::ResetHard(head));
    let a = s.step(Event::ResetDone);
    (s, a)
}

#[test]
fn already_exists_signal_is_recognised() {
    assert_eq!(classify_clone_error(already_there()), CloneOutcome::AlreadyPresent);
    let other_class = StoreError { code: CODE_EXISTS, class: 2 };
    assert_eq!(classify_clone_error(other_class), CloneOutcome::Failed(other_class));
    let network = StoreError { code: -1, class: 12 };
    assert_eq!(classify_clone_error(network), CloneOutcome::Failed(network));
}

#[test]
fn fresh_path_is_cloned_and_full() {
    let (mut s, a) = Session::start(None);
    assert_eq!(a, Action::Clone);
    assert!(!s.is_finished());
    assert_eq!(s.step(Event::Cloned(rev(1))), Action::Finish);
    assert!(s.is_finished());
    let r = report(s);
    assert_eq!(r.mode, SyncMode::Cloned);
    assert_eq!(r.head, rev(1));
    assert!(r.changes.is_full());
}

#[test]
fn second_sync_takes_update_branch_with_same_head() {
    let (mut first, _) = Session::start(None);
    assert_eq!(first.step(Event::Cloned(rev(9))), Action::Finish);
    let first = report(first);

    let (second, a) = update_run(None, rev(9));
    assert_eq!(a, Action::Finish);
    let second = report(second);
    assert_eq!(first.mode, SyncMode::Cloned);
    assert_eq!(second.mode, SyncMode::Updated);
    assert_eq!(second.head, first.head);
}

#[test]
fn sync_phase_never_clones_after_exists() {
    let (mut p, a) = SyncPhase::start();
    assert_eq!(a, Action::Clone);
    assert_eq!(p.step(&Event::Failed(already_there())), Action::Open);
    assert_eq!(p.step(&Event::Cloned(rev(1))), Action::Abort);
    assert!(matches!(p, SyncPhase::Failed(f) if f.op == Operation::Open && f.cause.is_none()));
}

#[test]
fn checkpoint_is_diffed_against_head() {
    let (mut s, a) = update_run(Some("c1"), rev(2));
    assert_eq!(a, Action::ResolveCheckpoint("c1".to_string()));
    assert_eq!(s.step(Event::Resolved(Some(rev(1)))), Action::DiffTrees { from: rev(1), to: rev(2) });
    let deltas = vec![
        DeltaEntry { old_path: Some("a.txt".to_string()), new_path: Some("a.txt".to_string()) },
        DeltaEntry { old_path: None, new_path: Some("c.txt".to_string()) },
    ];
    assert_eq!(s.step(Event::Diffed(deltas)), Action::Finish);
    let r = report(s);
    assert_eq!(r.head, rev(2));
    match r.changes {
        ChangeSet::Incremental(mut v) => {
            v.sort();
            assert_eq!(v, vec!["a.txt".to_string(), "c.txt".to_string()]);
        }
        ChangeSet::Full => panic!("expected an incremental change set"),
    }
}

#[test]
fn unknown_checkpoint_aborts_run() {
    let (mut s, a) = update_run(Some("deadbeef"), rev(2));
    assert_eq!(a, Action::ResolveCheckpoint("deadbeef".to_string()));
    assert_eq!(s.step(Event::Resolved(None)), Action::Abort);
    // nothing more is asked of the mirror
    assert_eq!(s.step(Event::ResetDone), Action::Abort);
    match error(s) {
        SyncError::RevisionNotFound(t) => assert_eq!(t, "deadbeef"),
        other => panic!("expected RevisionNotFound, got {:?}", other),
    }
}

#[test]
fn lookup_without_result_is_revision_not_found() {
    let token = "deadbeef".to_string();
    assert!(matches!(interpret_lookup(&token, None), Err(SyncError::RevisionNotFound(t)) if t == "deadbeef"));
    assert!(matches!(interpret_lookup(&token, Some(rev(4))), Ok(r) if r == rev(4)));
}

#[test]
fn unchanged_remote_rerun_is_empty_incremental() {
    let head = rev(5);
    let (mut s, a) = update_run(Some("0505050505050505050505050505050505050505"), head);
    assert!(matches!(a, Action::ResolveCheckpoint(_)));
    assert_eq!(s.step(Event::Resolved(Some(head))), Action::DiffTrees { from: head, to: head });
    assert_eq!(s.step(Event::Diffed(Vec::new())), Action::Finish);
    let r = report(s);
    assert_eq!(r.head, head);
    assert!(!r.changes.is_full());
    assert_eq!(r.changes.len(), Some(0));
}

#[test]
fn other_clone_failure_is_fatal() {
    let (mut s, _) = Session::start(Some("c1".to_string()));
    let err = StoreError { code: -1, class: 34 };
    assert_eq!(s.step(Event::Failed(err)), Action::Abort);
    assert!(matches!(error(s), SyncError::Store { op: Operation::Clone, error } if error == err));
}

#[test]
fn fetch_failure_is_fatal() {
    let (mut s, _) = Session::start(None);
    assert_eq!(s.step(Event::Failed(already_there())), Action::Open);
    assert_eq!(s.step(Event::Opened), Action::FetchOrigin);
    let err = StoreError { code: -1, class: 12 };
    assert_eq!(s.step(Event::Failed(err)), Action::Abort);
    assert!(matches!(error(s), SyncError::Store { op: Operation::Fetch, error } if error == err));
}

#[test]
fn diff_failure_is_fatal() {
    let (mut s, _) = update_run(Some("c1"), rev(2));
    assert!(matches!(s.step(Event::Resolved(Some(rev(1)))), Action::DiffTrees { .. }));
    let err = StoreError { code: -3, class: 9 };
    assert_eq!(s.step(Event::Failed(err)), Action::Abort);
    assert!(matches!(error(s), SyncError::Store { op: Operation::Diff, .. }));
}

#[test]
fn out_of_turn_answer_is_unexpected() {
    let (mut s, _) = Session::start(None);
    assert_eq!(s.step(Event::ResetDone), Action::Abort);
    assert!(matches!(error(s), SyncError::UnexpectedEvent { op: Operation::Clone }));
}

#[test]
fn unfinished_run_has_no_outcome() {
    let (s, _) = Session::start(None);
    assert!(s.into_outcome().is_none());
}

#[test]
fn lookup_not_found_error_is_revision_not_found() {
    let (mut s, _) = update_run(Some("deadbeef"), rev(2));
    assert_eq!(s.step(Event::Failed(StoreError { code: CODE_NOT_FOUND, class: 9 })), Action::Abort);
    assert!(matches!(error(s), SyncError::RevisionNotFound(t) if t == "deadbeef"));
}

#[test]
fn lookup_errors_are_classified() {
    let token = "x^{".to_string();
    let invalid = StoreError { code: CODE_INVALID_SPEC, class: 3 };
    assert!(matches!(interpret_lookup_error(&token, invalid), SyncError::RevisionNotFound(t) if t == "x^{"));
    let odb = StoreError { code: -1, class: 9 };
    assert!(matches!(
        interpret_lookup_error(&token, odb),
        SyncError::Store { op: Operation::ResolveCheckpoint, error } if error == odb
    ));
}
