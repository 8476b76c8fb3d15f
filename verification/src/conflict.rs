//! Deciding, per resource, whether to download and what outcome to report
//! when a local file and its remote counterpart disagree on freshness.

use crate::decimal::date_str;
use crate::decimal::date_to_dec;
use crate::paths::split_dir_name;
use crate::paths::split_stem_ext;
use crate::rename::candidate_of;
use crate::rename::find_rename_path;
use crate::strutil::contains_string;
use crate::times::datable;
use crate::times::local_date_of_millis;
use crate::Error;
use vstd::prelude::*;
use vstd::string::StringExecFns;

verus! {

/// Batch-wide policy governing behaviour when a locally-cached file is
/// older than its remote counterpart.
#[derive(Clone, Copy, Debug, PartialEq, Eq, Structural)]
pub enum OverwriteMode {
    Skip,
    Overwrite,
    Rename,
}

/// Per-resource outcome: both the download decision and the user-facing
/// report.  Exactly one is produced per resource per invocation.
#[derive(Debug)]
pub enum OverwriteResult {
    NewFile,
    AlreadyHave,
    Skipped,
    Overwritten,
    Renamed { renamed_path: String },
}

/// What probing the local destination for existence and modification time
/// found.  Inability to read metadata for a reason other than "not found"
/// is reported, never treated as absence.
#[derive(Clone, Copy, Debug, PartialEq, Eq, Structural)]
pub enum FileProbe {
    /// Nothing exists at the destination path.
    Absent,
    /// A file exists; its modification time in milliseconds since the
    /// Unix epoch.
    ModifiedAt(i64),
    /// Metadata could not be read: permission denied.
    PermissionDenied,
    /// Metadata could not be read for an unexpected reason.
    Unreadable,
    /// Metadata carries no modification time.
    NoModTime,
}

/// The outcome kinds a decision can take, without the renamed path.
#[derive(Clone, Copy, Debug, PartialEq, Eq, Structural)]
pub enum Decision {
    NewFile,
    AlreadyHave,
    Skipped,
    Overwritten,
    Renamed,
}

/// The decision table: given whether a local file exists (and its
/// modification time), the remote modification time, and the mode, whether
/// to download and which outcome to report.
pub open spec fn conflict_decision(local: Option<int>, remote: int, mode: OverwriteMode) -> (
    bool,
    Decision,
) {
    match local {
        None => (true, Decision::NewFile),
        Some(t) => if remote <= t {
            (false, Decision::AlreadyHave)
        } else {
            match mode {
                OverwriteMode::Skip => (false, Decision::Skipped),
                OverwriteMode::Overwrite => (true, Decision::Overwritten),
                OverwriteMode::Rename => (true, Decision::Renamed),
            }
        },
    }
}

/// The outcome kind an `OverwriteResult` reports.
pub open spec fn decision_of(r: OverwriteResult) -> Decision {
    match r {
        OverwriteResult::NewFile => Decision::NewFile,
        OverwriteResult::AlreadyHave => Decision::AlreadyHave,
        OverwriteResult::Skipped => Decision::Skipped,
        OverwriteResult::Overwritten => Decision::Overwritten,
        OverwriteResult::Renamed { .. } => Decision::Renamed,
    }
}

/// How a destination path decomposes into directory, stem and extension.
pub open spec fn rebuilt_from(
    path: Seq<char>,
    dir: Seq<char>,
    stem: Seq<char>,
    ext: Option<Seq<char>>,
) -> bool {
    match ext {
        Some(e) => path == dir + stem + seq!['.'] + e,
        None => path == dir + stem,
    }
}

/// What holds of the path a stale local file is moved to: it collides with
/// none of the paths already present, and it is the original path's stem
/// with the dated rename marker, the first numeric suffix whose candidate
/// is free, and the original extension.
pub open spec fn renamed_path_ok(
    path: Seq<char>,
    existing: Seq<String>,
    renamed: Seq<char>,
) -> bool {
    &&& !contains_string(existing, renamed)
    &&& exists|dir: Seq<char>, stem: Seq<char>, ext: Option<Seq<char>>|
        #[trigger] rebuilt_from(path, dir, stem, ext) && exists|y: int, m: nat, d: nat, i: nat|
            renamed == candidate_of(dir + stem + "_autorename_"@ + date_str(y, m, d), ext, i)
                && (forall|j: nat|
                j < i ==> contains_string(
                    existing,
                    candidate_of(dir + stem + "_autorename_"@ + date_str(y, m, d), ext, j),
                ))
}

/// Decide what to do for one resource: whether its content must be
/// downloaded and which outcome to report, given the probe of its local
/// destination, its remote modification time, and the batch mode.  In
/// `Rename` mode, the stale local file's collision-free new path is
/// computed against the names in `existing`.
pub fn prepare_path(
    path: &str,
    remote_last_updated: i64,
    probe: FileProbe,
    mode: OverwriteMode,
    existing: &Vec<String>,
) -> (r: Result<(bool, OverwriteResult), Error>)
    requires
        existing@.len() < usize::MAX,
        (match probe {
            FileProbe::ModifiedAt(t) => (remote_last_updated > t && mode is Rename) ==> datable(
                t as int,
            ),
            _ => true,
        }),
    ensures
        probe is Absent ==> (r matches Ok(d) && d.0 == true && d.1 is NewFile),
        probe is PermissionDenied ==> (r matches Err(e) && e@
            == "Permission denied when retrieving file metadata"@),
        probe is Unreadable ==> (r matches Err(e) && e@ == "Unable to retrieve file metadata"@),
        probe is NoModTime ==> (r matches Err(e) && e@
            == "File system does not support last modified time"@),
        probe matches FileProbe::ModifiedAt(t) ==> (r matches Ok(d) && d.0 == conflict_decision(
            Some(t as int),
            remote_last_updated as int,
            mode,
        ).0 && decision_of(d.1) == conflict_decision(
            Some(t as int),
            remote_last_updated as int,
            mode,
        ).1),
        (match r {
            Ok(d) => match d.1 {
                OverwriteResult::Renamed { renamed_path } => renamed_path_ok(
                    path@,
                    existing@,
                    renamed_path@,
                ),
                _ => true,
            },
            _ => true,
        }),
{
    match probe {
        FileProbe::Absent => Ok((true, OverwriteResult::NewFile)),
        FileProbe::PermissionDenied => Err("Permission denied when retrieving file metadata"),
        FileProbe::Unreadable => Err("Unable to retrieve file metadata"),
        FileProbe::NoModTime => Err("File system does not support last modified time"),
        FileProbe::ModifiedAt(old_time) => {
            if remote_last_updated <= old_time {
                Ok((false, OverwriteResult::AlreadyHave))
            } else {
                match mode {
                    OverwriteMode::Skip => Ok((false, OverwriteResult::Skipped)),
                    OverwriteMode::Overwrite => Ok((true, OverwriteResult::Overwritten)),
                    OverwriteMode::Rename => {
                        let (dir, name) = split_dir_name(path);
                        let (stem, ext) = split_stem_ext(name.as_str());
                        let date = match local_date_of_millis(old_time) {
                            Some(date) => date,
                            None => {
                                proof {
                                    assert(false);
                                }
                                return Err("Unable to retrieve file metadata");
                            },
                        };
                        let ghost dirv = dir@;
                        let ghost extv = ext.deep_view();
                        let ghost y = date.0 as int;
                        let ghost m = date.1 as nat;
                        let ghost d = date.2 as nat;
                        let mut base = dir;
                        base.append(stem.as_str());
                        base.append("_autorename_");
                        let date_part = date_to_dec(date.0, date.1, date.2);
                        base.append(date_part.as_str());
                        let renamed = find_rename_path(base.as_str(), &ext, existing);
                        proof {
                            assert(base@ =~= dirv + stem@ + "_autorename_"@ + date_str(y, m, d));
                            match extv {
                                Some(e) => {
                                    assert(path@ =~= dirv + stem@ + seq!['.'] + e);
                                },
                                None => {
                                    assert(path@ =~= dirv + stem@);
                                },
                            }
                            assert(rebuilt_from(path@, dirv, stem@, extv));
                            let i = choose|i: nat|
                                renamed@ == candidate_of(base@, extv, i) && (forall|j: nat|
                                    j < i ==> contains_string(
                                        existing@,
                                        candidate_of(base@, extv, j),
                                    ));
                            assert(renamed@ == candidate_of(
                                dirv + stem@ + "_autorename_"@ + date_str(y, m, d),
                                extv,
                                i,
                            ));
                            assert(renamed_path_ok(path@, existing@, renamed@));
                        }
                        Ok((true, OverwriteResult::Renamed { renamed_path: renamed }))
                    },
                }
            }
        },
    }
}

/// The conflict table, row by row: absent means a new file; a local copy at
/// least as fresh is already had; otherwise the mode alone decides between
/// skipping, overwriting, and renaming.
pub proof fn lemma_conflict_table(remote: int, t: int, mode: OverwriteMode)
    ensures
        conflict_decision(None, remote, mode) == (true, Decision::NewFile),
        t >= remote ==> conflict_decision(Some(t), remote, mode) == (false, Decision::AlreadyHave),
        t < remote && mode is Skip ==> conflict_decision(Some(t), remote, mode) == (
            false,
            Decision::Skipped,
        ),
        t < remote && mode is Overwrite ==> conflict_decision(Some(t), remote, mode) == (
            true,
            Decision::Overwritten,
        ),
        t < remote && mode is Rename ==> conflict_decision(Some(t), remote, mode) == (
            true,
            Decision::Renamed,
        ),
{
}

/// Idempotence of a second run: once the local copy is at least as fresh as
/// the remote one, every mode decides not to download and reports the file
/// as already had.
pub proof fn lemma_second_run_already_have(t: int, remote: int, mode: OverwriteMode)
    requires
        t >= remote,
    ensures
        conflict_decision(Some(t), remote, mode) == (false, Decision::AlreadyHave),
{
}

} // verus!
