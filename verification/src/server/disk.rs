//! What the server keeps on disk for a job, and how it is cleaned up.

use crate::outside::lossy_text;
use crate::path::PathParts;
use crate::probe::{printed, ProcessOutput};
use crate::server::segment_manager::SegmentManager;
use crate::text::{strings, texts};
use vstd::prelude::*;
use vstd::string::*;

verus! {

/// The arguments with which `ffprobe` tells how long a video is.
pub open spec fn duration_args_of(file: Seq<char>) -> Seq<Seq<char>> {
    seq!["-v"@, "error"@, "-show_entries"@, "format=duration"@, file]
}

/// The arguments with which `ffprobe` tells how long `file` is.
pub fn duration_args(file: &str) -> (r: Vec<String>)
    ensures
        texts(r@) == duration_args_of(file@),
{
    let r = strings(vec!["-v", "error", "-show_entries", "format=duration", file]);
    assert(texts(r@) =~= duration_args_of(file@));
    r
}

/// What is told of a segment that cannot be read.
pub open spec fn corrupted(segment_id: Seq<char>, complaint: Seq<char>) -> Seq<char> {
    "Segment "@ + segment_id + " is corrupted: "@ + complaint
}

/// Whether a segment that was written to disk can be read, from what `ffprobe`
/// left; if not, the file is to be removed, and the words are told.
pub fn check_stored(segment_id: &str, output: &ProcessOutput) -> (r: Result<(), String>)
    ensures
        match r {
            Ok(_) => output.success,
            Err(w) => !output.success && w@ == corrupted(
                segment_id@,
                lossy_text(output.stderr@),
            ),
        },
{
    if output.success {
        return Ok(());
    }
    Err(
        "Segment ".to_owned().concat(segment_id).concat(" is corrupted: ").concat(
            printed(&output.stderr).as_str(),
        ),
    )
}

/// What is to be done next to remove a directory.
#[derive(Clone, Copy, Debug, PartialEq, Eq, Structural)]
pub enum CleanupStep {
    /// Nothing: it is gone.
    Done,
    /// Try to remove it after so many milliseconds.
    TryAfter(u64),
    /// Nothing: it cannot be removed.
    GiveUp,
}

/// The milliseconds before the first try to remove a directory.
pub const FIRST_DELAY: u64 = 100;

/// The milliseconds before the second try to remove a directory.
pub const SECOND_DELAY: u64 = 1000;

/// What is to be done after so many failed tries to remove a directory that is
/// there.
pub open spec fn after_failures(failures: nat) -> CleanupStep {
    if failures == 0 {
        CleanupStep::TryAfter(FIRST_DELAY)
    } else if failures == 1 {
        CleanupStep::TryAfter(SECOND_DELAY)
    } else {
        CleanupStep::GiveUp
    }
}

/// What is to be done to remove a directory, `present` saying whether it is
/// there, and after so many failed tries.
pub fn cleanup_step(present: bool, failures: u32) -> (r: CleanupStep)
    ensures
        r == if present {
            after_failures(failures as nat)
        } else {
            CleanupStep::Done
        },
{
    if !present {
        CleanupStep::Done
    } else if failures == 0 {
        CleanupStep::TryAfter(FIRST_DELAY)
    } else if failures == 1 {
        CleanupStep::TryAfter(SECOND_DELAY)
    } else {
        CleanupStep::GiveUp
    }
}

/// A directory is tried to be removed twice, and not again.
pub proof fn law_cleanup_tries_twice(failures: nat)
    ensures
        after_failures(failures) is TryAfter <==> failures < 2,
        failures >= 2 ==> after_failures(failures) is GiveUp,
{
}

impl SegmentManager {
    /// The directory that segments of the job are written to.
    pub fn segments_dir(&self) -> (r: PathParts)
        requires
            self.wf(),
        ensures
            r@ == self@.work_dir().push("segments"@),
    {
        self.get_work_dir().join("segments")
    }

    /// The file that a segment of the job is written to.
    pub fn segment_file(&self, segment_id: &str, format: &str) -> (r: PathParts)
        requires
            self.wf(),
        ensures
            r@ == self@.work_dir().push("segments"@).push(segment_id@ + "."@ + format@),
    {
        let name = segment_id.to_owned().concat(".").concat(format);
        self.segments_dir().join(name.as_str())
    }

    /// The file that lists what is to be combined, in the directory `work_dir`.
    pub fn concat_file(work_dir: &PathParts) -> (r: PathParts)
        ensures
            r@ == work_dir@.push("concat.txt"@),
    {
        work_dir.join("concat.txt")
    }

    /// Whether something beside the directory of the job is left of an old one:
    /// any directory but that of the job.
    pub fn is_old_job(is_directory: bool, is_work_dir: bool) -> (r: bool)
        ensures
            r == (is_directory && !is_work_dir),
    {
        is_directory && !is_work_dir
    }
}

} // verus!
