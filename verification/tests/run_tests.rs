use bacify::digest::digest_of;
use bacify::path::{resolve_counterpart, PathError};
use bacify::run::{BackupVerifier, Plan};
use bacify::run_result::RunResult;
use bacify::snapshot::SnapshotInfo;
use bacify::timestamp::Timestamp;
use bacify::verdict::{Counterpart, FileRecord, Inspection, Verdict};

fn at(secs: i64) -> Timestamp {
    Timestamp::from_parts(secs, 0)
}

fn started_run(backup_time: Timestamp) -> BackupVerifier {
    let mut verifier = BackupVerifier::new(false, None, at(0));
    verifier.adopt(SnapshotInfo {
        id: "4bba301e".to_string(),
        creation_time: backup_time,
        source_dir: "/home/user".to_string(),
    });
    verifier.config.backup_root = "/tmp/bacify-x".to_string();
    verifier
}

fn record(verifier: &BackupVerifier, path: &str, created: Timestamp, modified: Timestamp) -> FileRecord {
    let counterpart_path = match verifier.config.plan(path) {
        Ok(Plan::Compare { counterpart_path }) => counterpart_path,
        other => panic!("no counterpart: {:?}", other),
    };
    FileRecord {
        live_path: path.to_string(),
        live_modified: modified,
        live_created: created,
        counterpart_path,
    }
}

fn sorted(mut paths: Vec<String>) -> Vec<String> {
    paths.sort();
    paths
}

#[test]
fn scenario_identical_file_succeeds() {
    let mut verifier = started_run(at(1000));
    let file = record(&verifier, "/home/user/a.txt", at(10), at(20));
    assert_eq!(file.counterpart_path, "/tmp/bacify-x/home/user/a.txt");
    let next = verifier.verify_source_file(&file, Counterpart::Present { modified: at(20) });
    assert_eq!(next, Inspection::CompareContent);
    let verdict = verifier.verify_content(&file, &digest_of(b"bytes"), &digest_of(b"bytes"));
    assert_eq!(verdict, Verdict::Matched);
    assert!(verifier.result.is_clean());
    assert!(verifier.verdict().is_ok());
}

#[test]
fn scenario_missing_file_fails() {
    let mut verifier = started_run(at(1000));
    let file = record(&verifier, "/home/user/a.txt", at(10), at(20));
    let next = verifier.verify_source_file(&file, Counterpart::Absent);
    assert_eq!(next, Inspection::Settled(Verdict::Missing));
    let failure = verifier.verdict().unwrap_err();
    assert_eq!(failure.missing, vec!["/home/user/a.txt".to_string()]);
    assert!(failure.corrupt.is_empty());
    assert_eq!(failure.message(), "Verification failed");
}

#[test]
fn scenario_corrupt_file_fails() {
    let mut verifier = started_run(at(1000));
    let file = record(&verifier, "/home/user/a.txt", at(10), at(20));
    let next = verifier.verify_source_file(&file, Counterpart::Present { modified: at(20) });
    assert_eq!(next, Inspection::CompareContent);
    assert!(verifier.verdict().is_ok());
    let verdict = verifier.verify_content(&file, &digest_of(b"bytes"), &digest_of(b"bytez"));
    assert_eq!(verdict, Verdict::Corrupt);
    let failure = verifier.verdict().unwrap_err();
    assert!(failure.missing.is_empty());
    assert_eq!(failure.corrupt, vec!["/home/user/a.txt".to_string()]);
}

#[test]
fn scenario_new_file_is_skipped() {
    let mut verifier = started_run(at(1000));
    let file = record(&verifier, "/home/user/new.txt", at(1001), at(1001));
    let next = verifier.verify_source_file(&file, Counterpart::Absent);
    assert_eq!(next, Inspection::Settled(Verdict::Skipped));
    assert!(verifier.verdict().is_ok());
    assert!(verifier.result.is_clean());
}

#[test]
fn differing_times_never_fail_the_run() {
    let mut verifier = started_run(at(1000));
    let file = record(&verifier, "/home/user/a.txt", at(10), at(20));
    let next = verifier.verify_source_file(&file, Counterpart::Present { modified: at(21) });
    assert_eq!(next, Inspection::Settled(Verdict::Matched));
    assert!(verifier.verdict().is_ok());
}

#[test]
fn excluded_file_is_not_compared() {
    let mut verifier = started_run(at(1000));
    verifier.config.exclude_patterns.push("/home/user/.cache".to_string());
    assert!(matches!(verifier.config.plan("/home/user/.cache/x"), Ok(Plan::Skip)));
    assert!(matches!(verifier.config.plan("/home/user/.cachet"), Ok(Plan::Compare { .. })));
}

#[test]
fn relative_mode_strips_the_source_root() {
    let mut verifier = started_run(at(1000));
    verifier.config.use_relative_paths = true;
    assert_eq!(
        verifier.config.counterpart("/home/user/docs/a.txt"),
        Ok("/tmp/bacify-x/docs/a.txt".to_string())
    );
    assert_eq!(
        verifier.config.counterpart("/home/other/a.txt"),
        Err(PathError::NotUnderSourceRoot)
    );
    assert_eq!(
        verifier.config.counterpart("/home/username/a.txt"),
        Err(PathError::NotUnderSourceRoot)
    );
    assert!(matches!(
        verifier.config.plan("/home/other/a.txt"),
        Err(PathError::NotUnderSourceRoot)
    ));
}

#[test]
fn absolute_mode_strips_one_leading_root() {
    assert_eq!(
        resolve_counterpart("/home/user/a.txt", "/home/user", "/tmp/r", false),
        Ok("/tmp/r/home/user/a.txt".to_string())
    );
    assert_eq!(
        resolve_counterpart("home/user/a.txt", "/home/user", "/tmp/r", false),
        Ok("/tmp/r/home/user/a.txt".to_string())
    );
    assert_eq!(
        resolve_counterpart("/elsewhere/a.txt", "/home/user", "/tmp/r", false),
        Ok("/tmp/r/elsewhere/a.txt".to_string())
    );
    assert_eq!(
        resolve_counterpart("/home/user/a.txt", "/home/user", "/tmp/r", true),
        Ok("/tmp/r/a.txt".to_string())
    );
}

#[test]
fn new_verifier_is_empty() {
    let verifier = BackupVerifier::new(true, Some(3600), at(42));
    assert!(verifier.config.use_relative_paths);
    assert_eq!(verifier.max_age, Some(3600));
    assert_eq!(verifier.config.backup_creation_time, at(42));
    assert_eq!(verifier.config.source_root, "");
    assert_eq!(verifier.config.backup_root, "");
    assert_eq!(verifier.id, "");
    assert!(verifier.config.exclude_patterns.is_empty());
    assert!(verifier.verdict().is_ok());
}

#[test]
fn adopt_takes_the_snapshot_over() {
    let verifier = started_run(at(1000));
    assert_eq!(verifier.id, "4bba301e");
    assert_eq!(verifier.config.source_root, "/home/user");
    assert_eq!(verifier.config.backup_creation_time, at(1000));
    assert!(!verifier.config.use_relative_paths);
}

#[test]
fn accumulation_is_order_independent() {
    let events = vec![
        ("/a".to_string(), Verdict::Missing),
        ("/b".to_string(), Verdict::Corrupt),
        ("/c".to_string(), Verdict::Matched),
        ("/d".to_string(), Verdict::Skipped),
        ("/e".to_string(), Verdict::Missing),
        ("/f".to_string(), Verdict::Excluded),
    ];
    let orders: [[usize; 6]; 4] =
        [[0, 1, 2, 3, 4, 5], [5, 4, 3, 2, 1, 0], [4, 1, 0, 5, 2, 3], [1, 0, 3, 2, 5, 4]];
    for order in orders {
        let permuted: Vec<(String, Verdict)> = order.iter().map(|&i| events[i].clone()).collect();
        let failure = RunResult::collect(&permuted).report().unwrap_err();
        assert_eq!(sorted(failure.missing), vec!["/a".to_string(), "/e".to_string()]);
        assert_eq!(sorted(failure.corrupt), vec!["/b".to_string()]);
    }
}

#[test]
fn a_path_is_filed_once() {
    let mut result = RunResult::new();
    result.record("/a".to_string(), Verdict::Missing);
    result.record("/a".to_string(), Verdict::Missing);
    result.record("/a".to_string(), Verdict::Corrupt);
    result.record("/b".to_string(), Verdict::Corrupt);
    result.record("/b".to_string(), Verdict::Missing);
    result.record("/c".to_string(), Verdict::Matched);
    assert!(result.is_missing(&"/a".to_string()));
    assert!(!result.is_corrupt(&"/a".to_string()));
    assert!(result.is_corrupt(&"/b".to_string()));
    assert!(!result.is_missing(&"/b".to_string()));
    assert!(!result.is_missing(&"/c".to_string()));
    let failure = result.report().unwrap_err();
    assert_eq!(failure.missing, vec!["/a".to_string()]);
    assert_eq!(failure.corrupt, vec!["/b".to_string()]);
}

#[test]
fn only_failures_are_accumulated() {
    let mut result = RunResult::new();
    result.record("/a".to_string(), Verdict::Matched);
    result.record("/b".to_string(), Verdict::Skipped);
    result.record("/c".to_string(), Verdict::Excluded);
    assert!(result.is_clean());
    assert!(result.report().is_ok());
}

#[test]
fn merge_unites_partial_results() {
    let first = vec![("/a".to_string(), Verdict::Missing), ("/b".to_string(), Verdict::Corrupt)];
    let second = vec![
        ("/c".to_string(), Verdict::Missing),
        ("/d".to_string(), Verdict::Corrupt),
        ("/a".to_string(), Verdict::Missing),
    ];
    let mut left = RunResult::collect(&first);
    left.merge(&RunResult::collect(&second));
    let mut right = RunResult::collect(&second);
    right.merge(&RunResult::collect(&first));
    let left = left.report().unwrap_err();
    let right = right.report().unwrap_err();
    assert_eq!(sorted(left.missing), vec!["/a".to_string(), "/c".to_string()]);
    assert_eq!(sorted(left.corrupt), vec!["/b".to_string(), "/d".to_string()]);
    assert_eq!(sorted(right.missing), vec!["/a".to_string(), "/c".to_string()]);
    assert_eq!(sorted(right.corrupt), vec!["/b".to_string(), "/d".to_string()]);
}

#[test]
fn merge_with_an_empty_result_changes_nothing() {
    let mut result = RunResult::collect(&vec![("/a".to_string(), Verdict::Corrupt)]);
    result.merge(&RunResult::new());
    let failure = result.report().unwrap_err();
    assert!(failure.missing.is_empty());
    assert_eq!(failure.corrupt, vec!["/a".to_string()]);
}
