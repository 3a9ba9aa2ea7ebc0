//! The metadata of the snapshot under verification, as the backup tool
//! prints it: a JSON array of snapshots, the latest first.
use vstd::prelude::*;
use vstd::string::StringExecFns;
use crate::timestamp::Timestamp;

verus! {

/// What is known of the snapshot under verification.
#[derive(Debug)]
pub struct SnapshotInfo {
    /// The snapshot's identifier.
    pub id: String,
    /// When the snapshot was made.
    pub creation_time: Timestamp,
    /// The first of the paths that were backed up: the source root.
    pub source_dir: String,
}

/// Why no verification could start.
#[derive(Debug)]
pub enum ConfigError {
    /// The backup tool printed nothing.
    NoSnapshots,
    /// The metadata is not well-formed JSON; the parser's words are kept.
    MalformedMetadata(String),
    /// The metadata lists no snapshot.
    NoSnapshotData,
    /// The snapshot's time is absent or no RFC 3339 date and time.
    InvalidTime,
    /// The snapshot's identifier is absent or not a string.
    InvalidId,
    /// The snapshot's first path is absent or not a string.
    InvalidSourceDirectory,
    /// The greatest age allowed does not fit the range of ages.
    MaxAgeOutOfRange,
    /// The snapshot is older than allowed.
    BackupTooOld,
}

/// `serde_json::Value`, carried through as it is: nothing is known of a
/// value but what the lookups below say.
#[verifier::external_type_specification]
#[verifier::external_body]
pub struct ExJsonValue(serde_json::Value);

/// `serde_json::Error`, carried through as it is.
#[verifier::external_type_specification]
#[verifier::external_body]
pub struct ExJsonError(serde_json::Error);

/// The JSON value that a text denotes, where it is well-formed JSON.
pub uninterp spec fn json_parsed(text: Seq<u8>) -> Option<serde_json::Value>;

/// The element of a JSON array at an index; none for another kind of value
/// or an index out of range.
pub uninterp spec fn json_element(value: serde_json::Value, index: int) -> Option<
    serde_json::Value,
>;

/// The member of a JSON object under a key; none for another kind of value
/// or an absent key.
pub uninterp spec fn json_member(value: serde_json::Value, key: Seq<char>) -> Option<
    serde_json::Value,
>;

/// The text of a JSON string; none for another kind of value.
pub uninterp spec fn json_text(value: serde_json::Value) -> Option<Seq<char>>;

/// The instant that an RFC 3339 date and time denotes, as whole seconds from
/// the Unix epoch and the nanoseconds past them; none where the text is no
/// such date and time.
pub uninterp spec fn rfc3339_parts(text: Seq<char>) -> Option<(i64, u32)>;

/// `serde_json::from_slice`, read as a `Value`: the value that the text
/// denotes, or the parser's error where the text is not well-formed.
#[verifier::external_body]
fn json_from_slice(text: &[u8]) -> (parsed: Result<serde_json::Value, serde_json::Error>)
    ensures
        match parsed {
            Ok(value) => json_parsed(text@) == Some(value),
            Err(_) => json_parsed(text@) is None,
        },
{
    serde_json::from_slice::<serde_json::Value>(text)
}

/// `serde_json::Value::get` with a number: the array's element there.
#[verifier::external_body]
fn json_get_index<'a>(value: &'a serde_json::Value, index: usize) -> (element: Option<
    &'a serde_json::Value,
>)
    ensures
        match element {
            Some(found) => json_element(*value, index as int) == Some(*found),
            None => json_element(*value, index as int) is None,
        },
{
    value.get(index)
}

/// `serde_json::Value::get` with a key: the object's member under it.
#[verifier::external_body]
fn json_get_key<'a>(value: &'a serde_json::Value, key: &str) -> (member: Option<
    &'a serde_json::Value,
>)
    ensures
        match member {
            Some(found) => json_member(*value, key@) == Some(*found),
            None => json_member(*value, key@) is None,
        },
{
    value.get(key)
}

/// `serde_json::Value::as_str`: the text of a string value.
#[verifier::external_body]
fn json_as_str(value: &serde_json::Value) -> (text: Option<String>)
    ensures
        match text {
            Some(found) => json_text(*value) == Some(found@),
            None => json_text(*value) is None,
        },
{
    value.as_str().map(String::from)
}

/// The `Display` text of a `serde_json::Error`.
#[verifier::external_body]
fn json_error_text(error: &serde_json::Error) -> (text: String) {
    error.to_string()
}

/// `chrono::DateTime::parse_from_rfc3339`, with the parsed time read off by
/// `timestamp` and `timestamp_subsec_nanos`. During a leap second the
/// nanoseconds run from one full second up to two.
#[verifier::external_body]
fn parse_rfc3339(text: &str) -> (parts: Option<(i64, u32)>)
    ensures
        parts == rfc3339_parts(text@),
{
    match chrono::DateTime::parse_from_rfc3339(text) {
        Ok(time) => Some((time.timestamp(), time.timestamp_subsec_nanos())),
        Err(_) => None,
    }
}

/// The text under a key of a JSON object; none where the member is absent
/// or is no string.
pub open spec fn member_text(value: serde_json::Value, key: Seq<char>) -> Option<Seq<char>> {
    match json_member(value, key) {
        Some(member) => json_text(member),
        None => None,
    }
}

/// The first of a snapshot's paths, where it is there and is a string.
pub open spec fn first_path(snapshot: serde_json::Value) -> Option<Seq<char>> {
    match json_member(snapshot, "paths"@) {
        Some(paths) => match json_element(paths, 0) {
            Some(first) => json_text(first),
            None => None,
        },
        None => None,
    }
}

/// The parts of a snapshot's time, where it is there and is an RFC 3339
/// date and time.
pub open spec fn creation_parts(snapshot: serde_json::Value) -> Option<(i64, u32)> {
    match member_text(snapshot, "time"@) {
        Some(text) => rfc3339_parts(text),
        None => None,
    }
}

/// Whether `outcome` is what the three fields of a snapshot amount to.
///
/// The time is looked at first, then the identifier, then the path: the
/// first that is wanting names the error. With all three the snapshot is
/// made of them, its time the instant that the parts denote.
pub open spec fn assembles_to(
    time: Option<(i64, u32)>,
    id: Option<Seq<char>>,
    source_dir: Option<Seq<char>>,
    outcome: Result<SnapshotInfo, ConfigError>,
) -> bool {
    match (time, id, source_dir) {
        (None, _, _) => outcome matches Err(ConfigError::InvalidTime),
        (Some(_), None, _) => outcome matches Err(ConfigError::InvalidId),
        (Some(_), Some(_), None) => outcome matches Err(ConfigError::InvalidSourceDirectory),
        (Some(parts), Some(name), Some(root)) => {
            &&& outcome matches Ok(info)
            &&& info.id@ == name
            &&& info.source_dir@ == root
            &&& info.creation_time.instant() == parts.0 * 1_000_000_000 + parts.1
        },
    }
}

/// Whether `outcome` is what a metadata text amounts to.
///
/// An empty text means that no snapshot was found; a text that is not JSON
/// is malformed; a value without a first element holds no snapshot. The
/// first element is the snapshot, read field by field.
pub open spec fn reads_as(text: Seq<u8>, outcome: Result<SnapshotInfo, ConfigError>) -> bool {
    if text.len() == 0 {
        outcome matches Err(ConfigError::NoSnapshots)
    } else {
        match json_parsed(text) {
            None => outcome matches Err(ConfigError::MalformedMetadata(_)),
            Some(listing) => match json_element(listing, 0) {
                None => outcome matches Err(ConfigError::NoSnapshotData),
                Some(snapshot) => assembles_to(
                    creation_parts(snapshot),
                    member_text(snapshot, "id"@),
                    first_path(snapshot),
                    outcome,
                ),
            },
        }
    }
}

/// Makes a snapshot of its three fields, each as far as it could be read.
pub fn snapshot_from_fields(
    time: Option<(i64, u32)>,
    id: Option<String>,
    source_dir: Option<String>,
) -> (outcome: Result<SnapshotInfo, ConfigError>)
    ensures
        assembles_to(
            time,
            match id {
                Some(text) => Some(text@),
                None => None,
            },
            match source_dir {
                Some(text) => Some(text@),
                None => None,
            },
            outcome,
        ),
{
    let (secs, nanos) = match time {
        Some(parts) => parts,
        None => {
            return Err(ConfigError::InvalidTime);
        },
    };
    let id = match id {
        Some(text) => text,
        None => {
            return Err(ConfigError::InvalidId);
        },
    };
    let source_dir = match source_dir {
        Some(text) => text,
        None => {
            return Err(ConfigError::InvalidSourceDirectory);
        },
    };
    Ok(SnapshotInfo { id, creation_time: Timestamp::from_parts(secs, nanos), source_dir })
}

fn read_member_text(value: &serde_json::Value, key: &str) -> (text: Option<String>)
    ensures
        match text {
            Some(found) => member_text(*value, key@) == Some(found@),
            None => member_text(*value, key@) is None,
        },
{
    match json_get_key(value, key) {
        Some(member) => json_as_str(member),
        None => None,
    }
}

fn read_first_path(snapshot: &serde_json::Value) -> (text: Option<String>)
    ensures
        match text {
            Some(found) => first_path(*snapshot) == Some(found@),
            None => first_path(*snapshot) is None,
        },
{
    match json_get_key(snapshot, "paths") {
        Some(paths) => match json_get_index(paths, 0) {
            Some(first) => json_as_str(first),
            None => None,
        },
        None => None,
    }
}

/// Reads the latest snapshot off the metadata that the backup tool printed.
pub fn read_snapshot(text: &[u8]) -> (outcome: Result<SnapshotInfo, ConfigError>)
    ensures
        reads_as(text@, outcome),
{
    if text.len() == 0 {
        return Err(ConfigError::NoSnapshots);
    }
    let listing = match json_from_slice(text) {
        Ok(value) => value,
        Err(error) => {
            return Err(ConfigError::MalformedMetadata(json_error_text(&error)));
        },
    };
    let snapshot = match json_get_index(&listing, 0) {
        Some(first) => first,
        None => {
            return Err(ConfigError::NoSnapshotData);
        },
    };
    let time = match read_member_text(snapshot, "time") {
        Some(written) => parse_rfc3339(written.as_str()),
        None => None,
    };
    let id = read_member_text(snapshot, "id");
    let source_dir = read_first_path(snapshot);
    snapshot_from_fields(time, id, source_dir)
}

/// Reads a snapshot's time off its RFC 3339 text.
pub fn parse_backup_time(text: &str) -> (time: Option<Timestamp>)
    ensures
        match rfc3339_parts(text@) {
            Some(parts) => time matches Some(found) && found.instant() == parts.0 * 1_000_000_000
                + parts.1,
            None => time is None,
        },
{
    match parse_rfc3339(text) {
        Some((secs, nanos)) => Some(Timestamp::from_parts(secs, nanos)),
        None => None,
    }
}

/// The whole seconds that lie between the backup and now, counted towards
/// zero.
pub open spec fn age_in_seconds(now: Timestamp, backup_time: Timestamp) -> int {
    let span = now.instant() - backup_time.instant();
    if span >= 0 {
        span / 1_000_000_000
    } else {
        -((-span) / 1_000_000_000)
    }
}

/// Whether `outcome` is what the age check amounts to: without a limit the
/// backup passes; a limit beyond the range of ages is refused; within it,
/// the backup is too old exactly when its age in whole seconds exceeds the
/// limit.
pub open spec fn age_check(
    now: Timestamp,
    backup_time: Timestamp,
    max_age: Option<u64>,
    outcome: Result<(), ConfigError>,
) -> bool {
    match max_age {
        None => outcome is Ok,
        Some(limit) => if limit > i64::MAX {
            outcome matches Err(ConfigError::MaxAgeOutOfRange)
        } else if age_in_seconds(now, backup_time) > limit {
            outcome matches Err(ConfigError::BackupTooOld)
        } else {
            outcome is Ok
        },
    }
}

/// Checks that the backup is no older than allowed.
pub fn check_age(now: Timestamp, backup_time: Timestamp, max_age: Option<u64>) -> (outcome: Result<
    (),
    ConfigError,
>)
    ensures
        age_check(now, backup_time, max_age, outcome),
{
    match max_age {
        None => Ok(()),
        Some(limit) => {
            if limit > 0x7fff_ffff_ffff_ffff {
                Err(ConfigError::MaxAgeOutOfRange)
            } else if now.later_by_more_than(&backup_time, limit) {
                Err(ConfigError::BackupTooOld)
            } else {
                Ok(())
            }
        },
    }
}

impl ConfigError {
    /// The words that tell an operator what went wrong.
    pub fn message(&self) -> (text: String)
        ensures
            match *self {
                ConfigError::NoSnapshots => text@
                    == "Couldn't find any snapshots. Did you set RESTIC_REPOSITORY and RESTIC_PASSWORD? Is restic installed?"@,
                ConfigError::MalformedMetadata(words) => text@ == words@,
                ConfigError::NoSnapshotData => text@ == "No snapshot data available"@,
                ConfigError::InvalidTime => text@ == "Invalid snapshot time"@,
                ConfigError::InvalidId => text@ == "Invalid snapshot id"@,
                ConfigError::InvalidSourceDirectory => text@ == "Invalid source directory"@,
                ConfigError::MaxAgeOutOfRange => text@
                    == "out of range integral type conversion attempted"@,
                ConfigError::BackupTooOld => text@ == "Backup is too old"@,
            },
    {
        match self {
            ConfigError::NoSnapshots => String::from_str(
                "Couldn't find any snapshots. Did you set RESTIC_REPOSITORY and RESTIC_PASSWORD? Is restic installed?",
            ),
            ConfigError::MalformedMetadata(words) => words.clone(),
            ConfigError::NoSnapshotData => String::from_str("No snapshot data available"),
            ConfigError::InvalidTime => String::from_str("Invalid snapshot time"),
            ConfigError::InvalidId => String::from_str("Invalid snapshot id"),
            ConfigError::InvalidSourceDirectory => String::from_str("Invalid source directory"),
            ConfigError::MaxAgeOutOfRange => String::from_str(
                "out of range integral type conversion attempted",
            ),
            ConfigError::BackupTooOld => String::from_str("Backup is too old"),
        }
    }
}

} // verus!
