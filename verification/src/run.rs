//! One verification run: its configuration, the files it has judged, and
//! the outcome.
//!
//! The run itself is driven from outside, since it reads the filesystem:
//! the driver walks the source tree and, for each regular file, asks where
//! the counterpart lies, looks both files up, and hands over what it found.
use vstd::prelude::*;
use crate::digest::Digest;
use crate::exclude::is_excluded;
use crate::path::counterpart_of;
use crate::path::lies_under;
use crate::path::PathError;
use crate::run_result::empty_tally;
use crate::run_result::filed;
use crate::run_result::RunResult;
use crate::run_result::VerificationFailure;
use crate::snapshot::age_check;
use crate::snapshot::ConfigError;
use crate::snapshot::SnapshotInfo;
use crate::timestamp::Timestamp;
use crate::verdict::content_decides;
use crate::verdict::content_verdict;
use crate::verdict::verdict_of;
use crate::verdict::Counterpart;
use crate::verdict::FileRecord;
use crate::verdict::Inspection;
use crate::verdict::Verdict;

verus! {

/// What a run is configured with. It stays as it is for the whole run.
#[derive(Debug)]
pub struct VerificationConfig {
    /// The root of the live tree.
    pub source_root: String,
    /// The root of the restored tree.
    pub backup_root: String,
    /// When the backup was made.
    pub backup_creation_time: Timestamp,
    /// Whether the backup holds paths relative to the source root.
    pub use_relative_paths: bool,
    /// The exclude patterns, in configuration order.
    pub exclude_patterns: Vec<String>,
}

/// Where the walk goes next with a file it has found.
#[derive(Debug)]
pub enum Plan {
    /// The file is excluded: it is not looked at.
    Skip,
    /// The file is to be compared with the counterpart at this path.
    Compare { counterpart_path: String },
}

impl VerificationConfig {
    /// Whether the path is out of scope for this run.
    pub fn excluded(&self, file: &str) -> (hit: bool)
        ensures
            hit == is_excluded(file@, self.exclude_patterns.deep_view()),
    {
        crate::exclude::excluded(file, &self.exclude_patterns)
    }

    /// Where the counterpart of a live file lies in the restored tree.
    pub fn counterpart(&self, file: &str) -> (found: Result<String, PathError>)
        ensures
            match counterpart_of(
                file@,
                self.source_root@,
                self.backup_root@,
                self.use_relative_paths,
            ) {
                Some(place) => found matches Ok(path) && path@ == place,
                None => found == Err::<String, PathError>(PathError::NotUnderSourceRoot),
            },
            found is Err <==> self.use_relative_paths && !lies_under(file@, self.source_root@),
    {
        crate::path::resolve_counterpart(
            file,
            self.source_root.as_str(),
            self.backup_root.as_str(),
            self.use_relative_paths,
        )
    }

    /// Decides what to do with a file that the walk has found: nothing, if
    /// it is excluded; else compare it with its counterpart.
    pub fn plan(&self, file: &str) -> (next: Result<Plan, PathError>)
        ensures
            is_excluded(file@, self.exclude_patterns.deep_view()) ==> next matches Ok(Plan::Skip),
            !is_excluded(file@, self.exclude_patterns.deep_view()) ==> match counterpart_of(
                file@,
                self.source_root@,
                self.backup_root@,
                self.use_relative_paths,
            ) {
                Some(place) => next matches Ok(Plan::Compare { counterpart_path })
                    && counterpart_path@ == place,
                None => next == Err::<Plan, PathError>(PathError::NotUnderSourceRoot),
            },
    {
        if self.excluded(file) {
            Ok(Plan::Skip)
        } else {
            match self.counterpart(file) {
                Ok(counterpart_path) => Ok(Plan::Compare { counterpart_path }),
                Err(error) => Err(error),
            }
        }
    }
}

/// A verification run in progress.
pub struct BackupVerifier {
    /// The configuration of the run.
    pub config: VerificationConfig,
    /// The identifier of the snapshot under verification.
    pub id: String,
    /// The greatest age allowed of the backup, in seconds, if any.
    pub max_age: Option<u64>,
    /// The paths that have failed so far.
    pub result: RunResult,
}

impl BackupVerifier {
    /// Validity: the accumulated result is valid.
    pub open spec fn wf(&self) -> bool {
        self.result.wf()
    }

    /// The paths filed so far.
    pub open spec fn tally(&self) -> crate::run_result::Tally {
        self.result@
    }

    /// A run that knows no snapshot yet and has judged nothing. Until a
    /// snapshot is adopted the backup counts as made `now`, and the roots,
    /// the identifier and the exclude list are empty.
    pub fn new(relative_path: bool, max_age: Option<u64>, now: Timestamp) -> (verifier:
        BackupVerifier)
        ensures
            verifier.wf(),
            verifier.tally() == empty_tally(),
            verifier.config.use_relative_paths == relative_path,
            verifier.config.backup_creation_time == now,
            verifier.config.source_root@ == Seq::<char>::empty(),
            verifier.config.backup_root@ == Seq::<char>::empty(),
            verifier.config.exclude_patterns@ == Seq::<String>::empty(),
            verifier.id@ == Seq::<char>::empty(),
            verifier.max_age == max_age,
    {
        BackupVerifier {
            config: VerificationConfig {
                source_root: String::new(),
                backup_root: String::new(),
                backup_creation_time: now,
                use_relative_paths: relative_path,
                exclude_patterns: Vec::new(),
            },
            id: String::new(),
            max_age,
            result: RunResult::new(),
        }
    }

    /// Takes the snapshot's identifier, time and source root into the run.
    pub fn adopt(&mut self, snapshot: SnapshotInfo)
        ensures
            final(self).wf() == old(self).wf(),
            final(self).tally() == old(self).tally(),
            final(self).id == snapshot.id,
            final(self).max_age == old(self).max_age,
            final(self).config.source_root == snapshot.source_dir,
            final(self).config.backup_creation_time == snapshot.creation_time,
            final(self).config.backup_root == old(self).config.backup_root,
            final(self).config.use_relative_paths == old(self).config.use_relative_paths,
            final(self).config.exclude_patterns == old(self).config.exclude_patterns,
    {
        self.id = snapshot.id;
        self.config.source_root = snapshot.source_dir;
        self.config.backup_creation_time = snapshot.creation_time;
    }

    /// Checks that the backup is no older than the run allows.
    pub fn check_age(&self, now: Timestamp) -> (outcome: Result<(), ConfigError>)
        ensures
            age_check(now, self.config.backup_creation_time, self.max_age, outcome),
    {
        crate::snapshot::check_age(now, self.config.backup_creation_time, self.max_age)
    }

    /// Whether the path is out of scope for this run.
    pub fn excluded(&self, file: &str) -> (hit: bool)
        ensures
            hit == is_excluded(file@, self.config.exclude_patterns.deep_view()),
    {
        self.config.excluded(file)
    }

    /// Judges a live file by the times of it and of its counterpart, and
    /// files the verdict where the times settle it.
    ///
    /// Where both files carry the same modification time nothing is filed
    /// yet: the contents decide, through `verify_content`.
    pub fn verify_source_file(&mut self, record: &FileRecord, counterpart: Counterpart) -> (next:
        Inspection)
        requires
            old(self).wf(),
        ensures
            final(self).wf(),
            final(self).config == old(self).config,
            final(self).id == old(self).id,
            final(self).max_age == old(self).max_age,
            content_decides(record.live_modified, counterpart) <==> next
                == Inspection::CompareContent,
            next == Inspection::CompareContent ==> final(self).tally() == old(self).tally(),
            !content_decides(record.live_modified, counterpart) ==> forall|a: Seq<u8>, b: Seq<u8>|
                {
                    let verdict = #[trigger] verdict_of(
                        record.live_created,
                        record.live_modified,
                        counterpart,
                        old(self).config.backup_creation_time,
                        a,
                        b,
                    );
                    &&& next == Inspection::Settled(verdict)
                    &&& final(self).tally() == filed(
                        old(self).tally(),
                        record.live_path@,
                        verdict,
                    )
                },
    {
        let next = crate::verdict::inspect(record, counterpart, self.config.backup_creation_time);
        match next {
            Inspection::Settled(verdict) => {
                self.result.record(record.live_path.clone(), verdict);
            },
            Inspection::CompareContent => {},
        }
        next
    }

    /// Judges a live file whose counterpart carries the same modification
    /// time by the digests of both contents, and files the verdict.
    pub fn verify_content(
        &mut self,
        record: &FileRecord,
        live_digest: &Digest,
        counterpart_digest: &Digest,
    ) -> (verdict: Verdict)
        requires
            old(self).wf(),
        ensures
            final(self).wf(),
            final(self).config == old(self).config,
            final(self).id == old(self).id,
            final(self).max_age == old(self).max_age,
            verdict == content_verdict(live_digest@, counterpart_digest@),
            final(self).tally() == filed(old(self).tally(), record.live_path@, verdict),
    {
        let verdict = crate::verdict::compare_content(live_digest, counterpart_digest);
        self.result.record(record.live_path.clone(), verdict);
        verdict
    }

    /// The outcome of the run: success exactly when no file is missing and
    /// none is corrupt; else the one failure that lists them all.
    pub fn verdict(&self) -> (outcome: Result<(), VerificationFailure>)
        requires
            self.wf(),
        ensures
            outcome is Ok <==> self.tally() == empty_tally(),
            outcome matches Err(failure) ==> failure.lists(self.tally()),
    {
        self.result.report()
    }
}

} // verus!
