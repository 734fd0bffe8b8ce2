use folder_cleaner::fs_utils::error::{
    not_a_directory, not_found, FailedToRemove, OsError, OsErrorKind,
};
use folder_cleaner::fs_utils::{remove, remove_with, RemoveStep};

#[test]
fn removing_a_missing_path_succeeds() {
    let gone = OsError { kind: OsErrorKind::NotFound, code: Some(2) };
    assert_eq!(remove_with("gone.txt", Err(gone)), Ok(()));
    assert_eq!(remove("gone.txt", Err(gone)), RemoveStep::Done(Ok(())));
}

#[test]
fn a_successful_attempt_is_done() {
    assert_eq!(remove_with("dir", Ok(())), Ok(()));
    assert_eq!(remove("dir", Ok(())), RemoveStep::Done(Ok(())));
}

#[test]
fn a_plain_file_redirects_the_removal() {
    let nad = OsError { kind: OsErrorKind::Other, code: Some(267) };
    assert_eq!(remove("a.lnk", Err(nad)), RemoveStep::RetryAsFile);
    // the file attempt is then settled on its own
    assert_eq!(remove_with("a.lnk", Ok(())), Ok(()));
    let gone = OsError { kind: OsErrorKind::NotFound, code: None };
    assert_eq!(remove_with("a.lnk", Err(gone)), Ok(()));
}

#[test]
fn an_operational_failure_is_reported_with_path_and_cause() {
    let locked = OsError { kind: OsErrorKind::Other, code: Some(5) };
    let r = remove("locked.txt", Err(locked));
    match r {
        RemoveStep::Done(Err(f)) => {
            assert_eq!(f.path(), "locked.txt");
            assert_eq!(f.io_source(), &locked);
        }
        other => panic!("expected a reported failure, got {:?}", other),
    }
    let r2 = remove_with("locked.txt", Err(locked));
    assert_eq!(r2, Err(FailedToRemove::new("locked.txt", locked)));
}

#[test]
fn an_absent_target_wins_over_its_code() {
    // a "not found" error is success even when it carries the
    // not-a-directory code
    let odd = OsError { kind: OsErrorKind::NotFound, code: Some(267) };
    assert_eq!(remove("x", Err(odd)), RemoveStep::Done(Ok(())));
}

#[test]
fn error_predicates_read_the_error() {
    let gone = OsError { kind: OsErrorKind::NotFound, code: None };
    let nad = OsError { kind: OsErrorKind::Other, code: Some(267) };
    let locked = OsError { kind: OsErrorKind::Other, code: Some(5) };
    assert!(not_found(&gone));
    assert!(!not_found(&nad));
    assert!(not_a_directory(&nad));
    assert!(!not_a_directory(&gone));
    assert!(!not_a_directory(&locked));
}

#[test]
fn failed_to_remove_carries_what_it_was_given() {
    let cause = OsError { kind: OsErrorKind::Other, code: Some(13) };
    let f = FailedToRemove::new("dir/entry", cause);
    assert_eq!(f.path(), "dir/entry");
    assert_eq!(f.io_source(), &cause);
}
