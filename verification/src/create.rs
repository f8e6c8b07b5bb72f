//! The archive-creation request a drone hands to the backup tool, and
//! the stats it folds the tool's answer into.
//!
//! The tool itself is an opaque external program; invoking it stays
//! outside. This module fixes the request's policy flags and turns the
//! tool's final archive statistics into [`CreateStats`].

use byte_unit::Byte;
use vstd::prelude::*;

use crate::drone_config::BorgConfig;
use crate::report::{CreateStats, ErrorReport, ErrorReportView, State};

verus! {

/// A byte count rendered with an appropriately scaled unit.
pub uninterp spec fn human_size_of(bytes: u64) -> Seq<char>;

/// Relies on `byte_unit::Byte::get_appropriate_unit` (with decimal
/// multiples) and its display: a byte count rendered with a scaled
/// unit, a pure function of the count.
#[verifier::external_body]
fn human_size(bytes: u64) -> (r: String)
    ensures
        r@ == human_size_of(bytes),
{
    Byte::from(bytes as u128).get_appropriate_unit(false).to_string()
}

/// The log line of one progress snapshot: the three sizes with scaled
/// units, and the path currently being archived. Snapshots are logged
/// and discarded; nothing is aggregated across them.
pub open spec fn progress_line_spec(
    original_size: u64,
    compressed_size: u64,
    deduplicated_size: u64,
    path: Seq<char>,
) -> Seq<char> {
    "O: "@ + human_size_of(original_size) + ", C: "@ + human_size_of(compressed_size) + ", D: "@
        + human_size_of(deduplicated_size) + ", Path: "@ + path
}

/// Render the log line of one progress snapshot (see
/// [`progress_line_spec`]).
pub fn render_progress_line(
    original_size: u64,
    compressed_size: u64,
    deduplicated_size: u64,
    path: &str,
) -> (r: String)
    ensures
        r@ == progress_line_spec(original_size, compressed_size, deduplicated_size, path@),
{
    let mut s = "O: ".to_owned();
    let original = human_size(original_size);
    s.append(original.as_str());
    s.append(", C: ");
    let compressed = human_size(compressed_size);
    s.append(compressed.as_str());
    s.append(", D: ");
    let deduplicated = human_size(deduplicated_size);
    s.append(deduplicated.as_str());
    s.append(", Path: ");
    s.append(path);
    proof {
        assert(s@ =~= progress_line_spec(
            original_size,
            compressed_size,
            deduplicated_size,
            path@,
        ));
    }
    s
}

/// One archive-creation request: the repository and passphrase of the
/// drone, the pattern file, and the fixed policy flags.
pub struct CreateRequest {
    /// The repository specifier
    pub repository: String,
    /// The name of the archive to create
    pub archive: String,
    /// The passphrase for the repository
    pub passphrase: String,
    /// The path to the pattern file
    pub pattern_file_path: String,
    /// The remote path of the backup tool, if any
    pub remote_path: Option<String>,
    /// Whether the fixed lz4 compression scheme is used (always)
    pub compression_lz4: bool,
    /// Whether cache directories are excluded (never)
    pub exclude_caches: bool,
    /// Whether only numeric ids are stored (never)
    pub numeric_ids: bool,
    /// Whether sparse holes are detected (always)
    pub sparse: bool,
    /// Whether special files are read as-is (never)
    pub read_special: bool,
    /// Whether extended attributes are skipped (never)
    pub no_xattrs: bool,
    /// Whether ACLs are skipped (never)
    pub no_acls: bool,
    /// Whether file flags are skipped (never)
    pub no_flags: bool,
}

impl CreateRequest {
    /// The request for a drone's configuration: repository, passphrase,
    /// pattern file and remote path come from the configuration; the
    /// archive name and every policy flag are fixed.
    pub fn from_config(borg: &BorgConfig) -> (r: CreateRequest)
        ensures
            r.repository@ == borg.repository@,
            r.archive@ == "{utcnow}"@,
            r.passphrase@ == borg.passphrase@,
            r.pattern_file_path@ == borg.pattern_file_path@,
            r.remote_path == borg.remote_path,
            r.compression_lz4,
            !r.exclude_caches,
            !r.numeric_ids,
            r.sparse,
            !r.read_special,
            !r.no_xattrs,
            !r.no_acls,
            !r.no_flags,
    {
        CreateRequest {
            repository: borg.repository.clone(),
            archive: "{utcnow}".to_owned(),
            passphrase: borg.passphrase.clone(),
            pattern_file_path: borg.pattern_file_path.clone(),
            remote_path: borg.remote_path.clone(),
            compression_lz4: true,
            exclude_caches: false,
            numeric_ids: false,
            sparse: true,
            read_special: false,
            no_xattrs: false,
            no_acls: false,
            no_flags: false,
        }
    }
}

/// Fold the tool's final archive statistics and the measured duration
/// into the stats of this run. Stats exist only for a fully
/// successful create call; no partial value is ever built.
pub fn create_stats_from(
    original_size: u64,
    compressed_size: u64,
    deduplicated_size: u64,
    nfiles: u64,
    duration: u64,
) -> (r: CreateStats)
    ensures
        r == (CreateStats { original_size, compressed_size, deduplicated_size, nfiles, duration }),
{
    CreateStats { original_size, compressed_size, deduplicated_size, nfiles, duration }
}

/// The report of a failed create call: any failure of the tool —
/// not found, passphrase rejected, repository unreachable, non-zero
/// exit — is carried as its description.
pub open spec fn create_failure_report(detail: Seq<char>, e: ErrorReportView) -> bool {
    &&& e.state == State::Create
    &&& e.custom == Some(detail)
    &&& e.stdout is None
    &&& e.stderr is None
}

/// The report of a failed create call (see [`create_failure_report`]).
pub fn create_failure(detail: &str) -> (r: ErrorReport)
    ensures
        create_failure_report(detail@, r@),
{
    ErrorReport {
        state: State::Create,
        custom: Some(detail.to_owned()),
        stdout: None,
        stderr: None,
    }
}

} // verus!
