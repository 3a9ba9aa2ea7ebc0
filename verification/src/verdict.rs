//! The per-file decision: is a live file correctly held by the backup?
//!
//! The decision rests on two signals, taken in order. Modification times are
//! compared first; contents are compared, by digest, only for a file whose
//! counterpart carries the very same modification time.
use vstd::prelude::*;
use crate::digest::Digest;
use crate::digest::same_digest;
use crate::digest::sha256_of;
use crate::timestamp::Timestamp;

verus! {

/// What the comparison concluded about one live file.
#[derive(Clone, Copy, Debug, PartialEq, Eq, Structural)]
pub enum Verdict {
    /// The backup holds the file, as far as the policy looks.
    Matched,
    /// The counterpart has the same modification time but other content.
    Corrupt,
    /// The file existed when the backup was made, and the backup lacks it.
    Missing,
    /// The file was created after the backup was made; its absence is expected.
    Skipped,
    /// The file lies under an exclude pattern and was not looked at.
    Excluded,
}

/// A live file as the walk found it, with the place of its counterpart.
#[derive(Debug)]
pub struct FileRecord {
    pub live_path: String,
    pub live_modified: Timestamp,
    pub live_created: Timestamp,
    pub counterpart_path: String,
}

/// What was found at the counterpart's place in the restored tree.
#[derive(Clone, Copy, Debug, PartialEq, Eq, Structural)]
pub enum Counterpart {
    /// No regular file is there.
    Absent,
    /// A regular file is there, last modified at the given time.
    Present { modified: Timestamp },
}

/// The outcome of looking at times alone.
#[derive(Clone, Copy, Debug, PartialEq, Eq, Structural)]
pub enum Inspection {
    /// The times settle the verdict; no content is read.
    Settled(Verdict),
    /// Both files carry the same modification time: their contents decide.
    CompareContent,
}

/// The verdict for a file without a counterpart: missing when it was created
/// no later than the backup, skipped as too new otherwise.
pub open spec fn absent_verdict(live_created: Timestamp, backup_time: Timestamp) -> Verdict {
    if live_created.instant() <= backup_time.instant() {
        Verdict::Missing
    } else {
        Verdict::Skipped
    }
}

/// The verdict for two files with the same modification time.
pub open spec fn content_verdict(live: Seq<u8>, counterpart: Seq<u8>) -> Verdict {
    if live == counterpart {
        Verdict::Matched
    } else {
        Verdict::Corrupt
    }
}

/// The whole decision procedure, over everything that can be observed of a
/// file: its times, its counterpart, and the digests of both contents.
///
/// The digests are consulted only where the counterpart is present with the
/// live file's own modification time.
pub open spec fn verdict_of(
    live_created: Timestamp,
    live_modified: Timestamp,
    counterpart: Counterpart,
    backup_time: Timestamp,
    live_digest: Seq<u8>,
    counterpart_digest: Seq<u8>,
) -> Verdict {
    match counterpart {
        Counterpart::Absent => absent_verdict(live_created, backup_time),
        Counterpart::Present { modified } => if modified == live_modified {
            content_verdict(live_digest, counterpart_digest)
        } else {
            Verdict::Matched
        },
    }
}

/// Whether the digests have a say in the verdict.
pub open spec fn content_decides(live_modified: Timestamp, counterpart: Counterpart) -> bool {
    counterpart == (Counterpart::Present { modified: live_modified })
}

/// Decides as far as times alone allow.
///
/// Returns `CompareContent` exactly when the counterpart is present with the
/// live file's modification time; otherwise the verdict is settled and equals
/// `verdict_of` whatever the contents are.
pub fn inspect(record: &FileRecord, counterpart: Counterpart, backup_time: Timestamp) -> (next:
    Inspection)
    ensures
        content_decides(record.live_modified, counterpart) <==> next == Inspection::CompareContent,
        !content_decides(record.live_modified, counterpart) ==> forall|a: Seq<u8>, b: Seq<u8>|
            next == Inspection::Settled(
                #[trigger] verdict_of(
                    record.live_created,
                    record.live_modified,
                    counterpart,
                    backup_time,
                    a,
                    b,
                ),
            ),
{
    match counterpart {
        Counterpart::Absent => {
            if record.live_created.at_or_before(&backup_time) {
                Inspection::Settled(Verdict::Missing)
            } else {
                Inspection::Settled(Verdict::Skipped)
            }
        },
        Counterpart::Present { modified } => {
            if record.live_modified.same_instant(&modified) {
                Inspection::CompareContent
            } else {
                Inspection::Settled(Verdict::Matched)
            }
        },
    }
}

/// Decides between two files of the same modification time by their digests.
pub fn compare_content(live: &Digest, counterpart: &Digest) -> (verdict: Verdict)
    ensures
        verdict == content_verdict(live@, counterpart@),
{
    if same_digest(live, counterpart) {
        Verdict::Matched
    } else {
        Verdict::Corrupt
    }
}

/// Classifies a file of which everything has been observed.
pub fn classify(
    record: &FileRecord,
    counterpart: Counterpart,
    backup_time: Timestamp,
    live_digest: &Digest,
    counterpart_digest: &Digest,
) -> (verdict: Verdict)
    ensures
        verdict == verdict_of(
            record.live_created,
            record.live_modified,
            counterpart,
            backup_time,
            live_digest@,
            counterpart_digest@,
        ),
{
    match inspect(record, counterpart, backup_time) {
        Inspection::Settled(verdict) => verdict,
        Inspection::CompareContent => compare_content(live_digest, counterpart_digest),
    }
}

/// Whether a verdict counts against the backup.
pub open spec fn is_failure(verdict: Verdict) -> bool {
    verdict == Verdict::Missing || verdict == Verdict::Corrupt
}

/// A file present in both trees with the same modification time and the same
/// content is matched.
pub proof fn matched_on_equal_times_and_content(
    live_created: Timestamp,
    modified: Timestamp,
    backup_time: Timestamp,
    live_content: Seq<u8>,
    counterpart_content: Seq<u8>,
)
    requires
        live_content == counterpart_content,
    ensures
        verdict_of(
            live_created,
            modified,
            Counterpart::Present { modified },
            backup_time,
            sha256_of(live_content),
            sha256_of(counterpart_content),
        ) == Verdict::Matched,
{
}

/// A file present in both trees with the same modification time and differing
/// content digests is corrupt.
pub proof fn corrupt_on_equal_times_and_differing_digests(
    live_created: Timestamp,
    modified: Timestamp,
    backup_time: Timestamp,
    live_digest: Seq<u8>,
    counterpart_digest: Seq<u8>,
)
    requires
        live_digest != counterpart_digest,
    ensures
        verdict_of(
            live_created,
            modified,
            Counterpart::Present { modified },
            backup_time,
            live_digest,
            counterpart_digest,
        ) == Verdict::Corrupt,
{
}

/// A file present in both trees with differing modification times is matched,
/// whatever the contents are.
pub proof fn matched_on_differing_times(
    live_created: Timestamp,
    live_modified: Timestamp,
    counterpart_modified: Timestamp,
    backup_time: Timestamp,
    live_digest: Seq<u8>,
    counterpart_digest: Seq<u8>,
)
    requires
        live_modified.instant() != counterpart_modified.instant(),
    ensures
        verdict_of(
            live_created,
            live_modified,
            Counterpart::Present { modified: counterpart_modified },
            backup_time,
            live_digest,
            counterpart_digest,
        ) == Verdict::Matched,
{
}

/// A file absent from the backup and created no later than the backup is
/// missing.
pub proof fn missing_when_absent_and_old(
    live_created: Timestamp,
    live_modified: Timestamp,
    backup_time: Timestamp,
    live_digest: Seq<u8>,
    counterpart_digest: Seq<u8>,
)
    requires
        live_created.instant() <= backup_time.instant(),
    ensures
        verdict_of(
            live_created,
            live_modified,
            Counterpart::Absent,
            backup_time,
            live_digest,
            counterpart_digest,
        ) == Verdict::Missing,
{
}

/// A file absent from the backup and created after the backup is skipped, and
/// a skipped file never counts against the backup.
pub proof fn skipped_when_absent_and_new(
    live_created: Timestamp,
    live_modified: Timestamp,
    backup_time: Timestamp,
    live_digest: Seq<u8>,
    counterpart_digest: Seq<u8>,
)
    requires
        live_created.instant() > backup_time.instant(),
    ensures
        verdict_of(
            live_created,
            live_modified,
            Counterpart::Absent,
            backup_time,
            live_digest,
            counterpart_digest,
        ) == Verdict::Skipped,
        !is_failure(Verdict::Skipped),
{
}

} // verus!
