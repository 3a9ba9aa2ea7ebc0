use bacify::run::BackupVerifier;
use bacify::snapshot::{check_age, parse_backup_time, read_snapshot, snapshot_from_fields, ConfigError};
use bacify::timestamp::Timestamp;

fn at(secs: i64) -> Timestamp {
    Timestamp::from_parts(secs, 0)
}

#[test]
fn reads_the_latest_snapshot() {
    let text = br#"[{"time":"2024-01-02T03:04:05.25Z","tree":"9f1e","paths":["/home/user","/etc"],"hostname":"box","id":"4bba301e"},{"time":"2020-01-01T00:00:00Z","paths":["/old"],"id":"older"}]"#;
    let info = read_snapshot(text).unwrap();
    assert_eq!(info.id, "4bba301e");
    assert_eq!(info.source_dir, "/home/user");
    assert_eq!(info.creation_time, Timestamp::from_parts(1704164645, 250_000_000));
}

#[test]
fn empty_output_means_no_snapshots() {
    let error = read_snapshot(b"").unwrap_err();
    assert!(matches!(error, ConfigError::NoSnapshots));
    assert_eq!(
        error.message(),
        "Couldn't find any snapshots. Did you set RESTIC_REPOSITORY and RESTIC_PASSWORD? Is restic installed?"
    );
}

#[test]
fn malformed_json_is_refused() {
    let error = read_snapshot(b"[{\"time\": ").unwrap_err();
    assert!(matches!(error, ConfigError::MalformedMetadata(_)));
    assert!(!error.message().is_empty());
}

#[test]
fn empty_listing_holds_no_snapshot() {
    let error = read_snapshot(b"[]").unwrap_err();
    assert!(matches!(error, ConfigError::NoSnapshotData));
    assert_eq!(error.message(), "No snapshot data available");
    assert!(matches!(read_snapshot(b"{}"), Err(ConfigError::NoSnapshotData)));
    assert!(matches!(read_snapshot(b"null"), Err(ConfigError::NoSnapshotData)));
}

#[test]
fn wanting_time_is_reported_first() {
    let error = read_snapshot(br#"[{"paths":["/home/user"]}]"#).unwrap_err();
    assert!(matches!(error, ConfigError::InvalidTime));
    assert_eq!(error.message(), "Invalid snapshot time");
    let error = read_snapshot(br#"[{"time":"yesterday","id":"x","paths":["/p"]}]"#).unwrap_err();
    assert!(matches!(error, ConfigError::InvalidTime));
    let error = read_snapshot(br#"[{"time":17,"id":"x","paths":["/p"]}]"#).unwrap_err();
    assert!(matches!(error, ConfigError::InvalidTime));
}

#[test]
fn wanting_id_is_reported() {
    let error = read_snapshot(br#"[{"time":"2024-01-02T03:04:05Z","paths":["/p"]}]"#).unwrap_err();
    assert!(matches!(error, ConfigError::InvalidId));
    assert_eq!(error.message(), "Invalid snapshot id");
    let error =
        read_snapshot(br#"[{"time":"2024-01-02T03:04:05Z","id":5,"paths":["/p"]}]"#).unwrap_err();
    assert!(matches!(error, ConfigError::InvalidId));
}

#[test]
fn wanting_path_is_reported() {
    let error = read_snapshot(br#"[{"time":"2024-01-02T03:04:05Z","id":"x"}]"#).unwrap_err();
    assert!(matches!(error, ConfigError::InvalidSourceDirectory));
    assert_eq!(error.message(), "Invalid source directory");
    let error =
        read_snapshot(br#"[{"time":"2024-01-02T03:04:05Z","id":"x","paths":[]}]"#).unwrap_err();
    assert!(matches!(error, ConfigError::InvalidSourceDirectory));
    let error =
        read_snapshot(br#"[{"time":"2024-01-02T03:04:05Z","id":"x","paths":"/p"}]"#).unwrap_err();
    assert!(matches!(error, ConfigError::InvalidSourceDirectory));
}

#[test]
fn fields_assemble_in_order() {
    assert!(matches!(snapshot_from_fields(None, None, None), Err(ConfigError::InvalidTime)));
    assert!(matches!(
        snapshot_from_fields(Some((1, 2)), None, None),
        Err(ConfigError::InvalidId)
    ));
    assert!(matches!(
        snapshot_from_fields(Some((1, 2)), Some("id".to_string()), None),
        Err(ConfigError::InvalidSourceDirectory)
    ));
    assert!(matches!(
        snapshot_from_fields(None, Some("id".to_string()), Some("/p".to_string())),
        Err(ConfigError::InvalidTime)
    ));
    let info =
        snapshot_from_fields(Some((1, 2)), Some("id".to_string()), Some("/p".to_string())).unwrap();
    assert_eq!(info.id, "id");
    assert_eq!(info.source_dir, "/p");
    assert_eq!(info.creation_time, Timestamp::from_parts(1, 2));
}

#[test]
fn backup_time_is_read_with_its_offset() {
    assert_eq!(parse_backup_time("1996-12-19T16:39:57-08:00"), Some(at(851042397)));
    assert_eq!(parse_backup_time("1996-12-20T00:39:57Z"), Some(at(851042397)));
    assert_eq!(
        parse_backup_time("2024-01-02T03:04:05.123456789+00:00"),
        Some(Timestamp::from_parts(1704164645, 123_456_789))
    );
    assert_eq!(parse_backup_time("1969-12-31T23:59:59Z"), Some(at(-1)));
    assert_eq!(parse_backup_time("2024-01-02 03:04"), None);
    assert_eq!(parse_backup_time(""), None);
}

#[test]
fn leap_second_carries_into_the_next_second() {
    assert_eq!(parse_backup_time("2016-12-31T23:59:60Z"), Some(at(1483228800)));
}

#[test]
fn without_a_limit_any_age_passes() {
    assert!(check_age(at(1_000_000_000), at(0), None).is_ok());
}

#[test]
fn age_is_counted_in_whole_seconds() {
    let backup = at(1000);
    assert!(check_age(at(1010), backup, Some(10)).is_ok());
    assert!(check_age(Timestamp::from_parts(1010, 999_999_999), backup, Some(10)).is_ok());
    let error = check_age(at(1011), backup, Some(10)).unwrap_err();
    assert!(matches!(error, ConfigError::BackupTooOld));
    assert_eq!(error.message(), "Backup is too old");
    assert!(check_age(at(1000), backup, Some(0)).is_ok());
    assert!(check_age(at(900), backup, Some(0)).is_ok());
    assert!(matches!(check_age(at(1001), backup, Some(0)), Err(ConfigError::BackupTooOld)));
}

#[test]
fn limit_out_of_range_is_refused() {
    let error = check_age(at(10), at(0), Some(u64::MAX)).unwrap_err();
    assert!(matches!(error, ConfigError::MaxAgeOutOfRange));
    assert_eq!(error.message(), "out of range integral type conversion attempted");
    let limit = (i64::MAX as u64) + 1;
    assert!(matches!(check_age(at(10), at(0), Some(limit)), Err(ConfigError::MaxAgeOutOfRange)));
    assert!(check_age(at(10), at(0), Some(i64::MAX as u64)).is_ok());
}

#[test]
fn verifier_checks_age_against_its_backup_time() {
    let verifier = BackupVerifier::new(false, Some(60), at(1000));
    assert!(verifier.check_age(at(1060)).is_ok());
    assert!(matches!(verifier.check_age(at(1061)), Err(ConfigError::BackupTooOld)));
}
