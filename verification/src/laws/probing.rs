//! Laws on what is learnt from other programs, where they are found, and what is kept on
//! disk.

use crate::error::FfmpegError;
use crate::laws::lists::is_run;
use crate::laws::texts::{
    blank, law_numbers_are_digits, law_numbers_are_read, law_trimming_finds_the_text,
};
use crate::outside::{json_text, lossy_text};
use crate::path::{
    ensure_absolute_path, file_name, is_absolute, resolve_path, PathParts,
};
use crate::probe::{
    codec_args, count_frames_args, frame_count_args, read_count, read_text, ProbeError,
    ProcessOutput,
};
use crate::server::database::{database_file, database_url};
use crate::server::disk::{check_stored, cleanup_step, duration_args, CleanupStep};
use crate::server::ffmpeg::{
    read_duration, streams_args, FfProbeService, FfmpegService, VideoInfo,
};
use crate::server::segment_manager::SegmentManager;
use crate::server::upload::{find_url, read_upload, upload_args, UploadError};
use crate::text::{
    has_part, is_white, lines, opt_text, texts, words, NumberError,
};
use crate::tools::{
    get_binary_path, get_ffmpeg_name, get_ffmpeg_path, get_ffprobe_name, get_ffprobe_path,
    tool_dirs, ToolDir,
};
use vstd::prelude::*;
use vstd::utf8::{decode_utf8, valid_utf8};

verus! {

/// Bytes spell this text, with white space around it.
pub open spec fn spell(bytes: Seq<u8>, front: Seq<char>, text: Seq<char>, back: Seq<char>) -> bool {
    &&& valid_utf8(bytes)
    &&& decode_utf8(bytes) == front + text + back
    &&& blank(front)
    &&& blank(back)
}

/// What is read is the text between the white space; bytes that spell no text are refused.
pub proof fn law_text_is_read(
    bytes: Vec<u8>,
    r: Result<String, ProbeError>,
    front: Seq<char>,
    text: Seq<char>,
    back: Seq<char>,
)
    requires
        call_ensures(read_text, (bytes,), r),
    ensures
        r is Ok <==> valid_utf8(bytes@),
        r is Err ==> r->Err_0 is NotUtf8,
        spell(bytes@, front, text, back) && (text.len() > 0 ==> !is_white(text[0]) && !is_white(
            text.last(),
        )) ==> (r matches Ok(t) && t@ == text),
{
    if text.len() > 0 ==> !is_white(text[0]) && !is_white(text.last()) {
        if blank(front) && blank(back) {
            law_trimming_finds_the_text(front, text, back);
        }
    }
}

/// A number that is spelt between white space is read as it is; one that does not fit, or
/// nothing, is none.
pub proof fn law_count_is_read(
    bytes: Vec<u8>,
    r: Result<u64, ProbeError>,
    front: Seq<char>,
    n: nat,
    back: Seq<char>,
)
    requires
        call_ensures(read_count, (bytes,), r),
    ensures
        !valid_utf8(bytes@) ==> r is Err && r->Err_0 is NotUtf8,
        spell(bytes@, front, crate::text::decimal(n), back) && n <= u64::MAX ==> (r matches Ok(m)
            && m == n),
        spell(bytes@, front, crate::text::decimal(n), back) && n > u64::MAX ==> (r matches Err(
            ProbeError::NotANumber(NumberError::TooLarge),
        )),
        spell(bytes@, front, Seq::empty(), back) ==> (r matches Err(
            ProbeError::NotANumber(NumberError::Empty),
        )),
{
    law_numbers_are_digits(n);
    law_numbers_are_read(n, Seq::empty());
    let d = crate::text::decimal(n);
    if blank(front) && blank(back) {
        law_trimming_finds_the_text(front, d, back);
        law_trimming_finds_the_text(front, Seq::empty(), back);
    }
}

/// What is asked of `ffprobe`, word for word.
pub proof fn law_questions(
    file: &str,
    count: Vec<String>,
    client_count: Vec<String>,
    codec: Vec<String>,
    streams: Vec<String>,
    duration: Vec<String>,
)
    requires
        call_ensures(count_frames_args, (file,), count),
        call_ensures(frame_count_args, (file,), client_count),
        call_ensures(codec_args, (file,), codec),
        call_ensures(streams_args, (file,), streams),
        call_ensures(duration_args, (file,), duration),
    ensures
        is_run(
            texts(count@),
            seq![
                "-v"@,
                "error"@,
                "-select_streams"@,
                "v:0"@,
                "-count_packets"@,
                "-show_entries"@,
                "stream=nb_read_packets"@,
                "-of"@,
                "csv=p=0"@,
                file@,
            ],
        ),
        is_run(
            texts(client_count@),
            seq![
                "-v"@,
                "error"@,
                "-select_streams"@,
                "v:0"@,
                "-count_packets"@,
                "-show_entries"@,
                "stream=nb_read_packets"@,
                "-of"@,
                "default=noprint_wrappers=1:nokey=1"@,
                file@,
            ],
        ),
        is_run(
            texts(codec@),
            seq![
                "-v"@,
                "error"@,
                "-select_streams"@,
                "v:0"@,
                "-show_entries"@,
                "stream=codec_name"@,
                "-of"@,
                "default=noprint_wrappers=1:nokey=1"@,
                file@,
            ],
        ),
        is_run(
            texts(streams@),
            seq!["-v"@, "quiet"@, "-print_format"@, "json"@, "-show_streams"@, file@],
        ),
        is_run(
            texts(duration@),
            seq!["-v"@, "error"@, "-show_entries"@, "format=duration"@, file@],
        ),
{
}

/// The format of a video is the text that was printed, whoever asks; a failure tells what
/// was complained of.
pub proof fn law_format_is_what_was_printed(
    output: ProcessOutput,
    text: Result<String, ProbeError>,
    a: Result<String, ProbeError>,
    b: Result<String, ProbeError>,
    c: Result<String, ProbeError>,
)
    requires
        call_ensures(read_text, (output.stdout,), text),
        call_ensures(FfmpegService::detect_format, (output,), a),
        call_ensures(FfProbeService::detect_format, (output,), b),
        call_ensures(SegmentManager::detect_format, (output,), c),
    ensures
        output.success ==> (a is Ok <==> text is Ok),
        output.success ==> (text matches Ok(t) ==> a->Ok_0@ == t@),
        output.success ==> (text matches Err(e) ==> a->Err_0@ == e@),
        !output.success ==> (a matches Err(ProbeError::Detect(w)) && w@ == lossy_text(
            output.stderr@,
        )),
        b is Ok <==> a is Ok,
        c is Ok <==> a is Ok,
        a matches Ok(t) ==> b->Ok_0@ == t@ && c->Ok_0@ == t@,
        a matches Err(e) ==> b->Err_0@ == e@ && c->Err_0@ == e@,
{
}

/// The frames of a video are as many as were printed; a failure tells what was complained
/// of.
pub proof fn law_frames_are_counted(
    output: ProcessOutput,
    count: Result<u64, ProbeError>,
    r: Result<u64, ProbeError>,
)
    requires
        call_ensures(read_count, (output.stdout,), count),
        call_ensures(FfProbeService::count_frames, (output,), r),
    ensures
        output.success ==> (r is Ok <==> count is Ok),
        output.success ==> (count matches Ok(n) ==> r->Ok_0 == n),
        output.success ==> (count matches Err(e) ==> r->Err_0@ == e@),
        !output.success ==> (r matches Err(ProbeError::Count(w)) && w@ == lossy_text(
            output.stderr@,
        )),
{
}

/// What is known of a video is the number of its frames as it was printed, and its duration
/// as its first stream tells it.
pub proof fn law_video_is_described(
    count: ProcessOutput,
    description: ProcessOutput,
    n: Result<u64, ProbeError>,
    d: Result<Option<String>, ProbeError>,
    r: Result<VideoInfo, ProbeError>,
)
    requires
        call_ensures(read_count, (count.stdout,), n),
        call_ensures(read_duration, (description.stdout,), d),
        call_ensures(FfmpegService::get_video_info, (count, description), r),
    ensures
        r is Ok <==> n is Ok && d is Ok,
        r matches Ok(info) ==> info.total_frames == n->Ok_0 && opt_text(info.duration) == opt_text(
            d->Ok_0,
        ),
        n matches Err(e) ==> r->Err_0@ == e@,
        n is Ok ==> (d matches Err(e) ==> r->Err_0@ == e@),
        !valid_utf8(description.stdout@) ==> (d matches Err(ProbeError::NotUtf8(w))),
        valid_utf8(description.stdout@) ==> match json_text(
            decode_utf8(description.stdout@),
            "streams"@,
            0,
            "duration"@,
        ) {
            Ok(told) => d matches Ok(t) && opt_text(t) == told,
            Err(w) => d matches Err(ProbeError::NotJson(v)) && v@ == w,
        },
{
}

/// An encoding that went wrong is told of with its kind and its words.
pub proof fn law_encoding_failures_are_told(e: FfmpegError, r: String)
    requires
        call_ensures(FfmpegError::message, (&e,), r),
    ensures
        e matches FfmpegError::ProcessError(w) ==> r@ == "FFmpeg process error: "@ + w@,
        e matches FfmpegError::CommandFailed(w) ==> r@ == "FFmpeg command failed: "@ + w@,
        e matches FfmpegError::InvalidParameters(w) ==> r@ == "Invalid FFmpeg parameters: "@ + w@,
        e matches FfmpegError::FileError(w) ==> r@ == "File operation failed: "@ + w@,
        e matches FfmpegError::FrameCountError(w) ==> r@ == "Frame counting error: "@ + w@,
{
}

/// What could not be learnt is told of in its own words.
pub proof fn law_probe_failures_are_told(
    e: ProbeError,
    r: String,
    number: NumberError,
    told: String,
)
    requires
        call_ensures(ProbeError::message, (&e,), r),
        call_ensures(NumberError::message, (number,), told),
    ensures
        e matches ProbeError::Detect(w) ==> r@ == "Failed to detect format: "@ + w@,
        e matches ProbeError::Count(w) ==> r@ == "Failed to count frames: "@ + w@,
        e is Verify ==> r@ == "Failed to verify segment frame count"@,
        e is FrameCount ==> r@ == "Failed to get frame count"@,
        e matches ProbeError::NotUtf8(w) ==> r@ == w@,
        e matches ProbeError::NotJson(w) ==> r@ == w@,
        e matches ProbeError::NotANumber(x) ==> (x == number ==> r@ == told@),
        number == NumberError::Empty ==> told@ == "cannot parse integer from empty string"@,
        number == NumberError::InvalidDigit ==> told@ == "invalid digit found in string"@,
        number == NumberError::TooLarge ==> told@ == "number too large to fit in target type"@,
{
}

/// A finished video is sent where it can be had, and an upload that failed is told of.
pub proof fn law_video_is_sent(file: &str, args: Vec<String>, e: UploadError, told: String)
    requires
        call_ensures(upload_args, (file,), args),
        call_ensures(UploadError::message, (e,), told),
    ensures
        is_run(
            texts(args@),
            seq!["https://bashupload.com"@, "-T"@, file@, "--max-time"@, "300"@],
        ),
        e == UploadError::Failed ==> told@ == "Upload failed"@,
        e == UploadError::NoUrl ==> told@ == "Could not find download URL in response"@,
{
}

proof fn lemma_url_in(list: Seq<Seq<char>>, from: int, i: int)
    requires
        0 <= from <= i < list.len(),
        has_part(list[i], "wget"@) && words(list[i]).len() >= 2,
        forall|j: int|
            from <= j < i ==> !(has_part(#[trigger] list[j], "wget"@) && words(list[j]).len() >= 2),
    ensures
        crate::server::upload::url_in(list, from) == Some(words(list[i])[1]),
    decreases i - from,
{
    if from < i {
        assert(!(has_part(list[from], "wget"@) && words(list[from]).len() >= 2));
        lemma_url_in(list, from + 1, i);
    }
}

proof fn lemma_no_url_in(list: Seq<Seq<char>>, from: int)
    requires
        0 <= from <= list.len(),
        forall|j: int|
            from <= j < list.len() ==> !(has_part(#[trigger] list[j], "wget"@) && words(
                list[j],
            ).len() >= 2),
    ensures
        crate::server::upload::url_in(list, from) is None,
    decreases list.len() - from,
{
    if from < list.len() {
        assert(!(has_part(list[from], "wget"@) && words(list[from]).len() >= 2));
        lemma_no_url_in(list, from + 1);
    }
}

/// Where the video can be had is the second word of the first line that names `wget` and
/// has one; without such a line it is not told.
pub proof fn law_first_address_is_found(response: &str, r: Option<String>, i: int)
    requires
        call_ensures(find_url, (response,), r),
    ensures
        0 <= i < lines(response@).len() && has_part(lines(response@)[i], "wget"@) && words(
            lines(response@)[i],
        ).len() >= 2 && (forall|j: int|
            0 <= j < i ==> !(has_part(#[trigger] lines(response@)[j], "wget"@) && words(
                lines(response@)[j],
            ).len() >= 2)) ==> opt_text(r) == Some(words(lines(response@)[i])[1]),
        (forall|j: int|
            0 <= j < lines(response@).len() ==> !(has_part(
                #[trigger] lines(response@)[j],
                "wget"@,
            ) && words(lines(response@)[j]).len() >= 2)) ==> r is None,
{
    let list = lines(response@);
    if 0 <= i < list.len() && has_part(list[i], "wget"@) && words(list[i]).len() >= 2 && (forall|
        j: int,
    |
        0 <= j < i ==> !(has_part(#[trigger] list[j], "wget"@) && words(list[j]).len() >= 2)) {
        lemma_url_in(list, 0, i);
    }
    if forall|j: int|
        0 <= j < list.len() ==> !(has_part(#[trigger] list[j], "wget"@) && words(list[j]).len()
            >= 2) {
        lemma_no_url_in(list, 0);
        assert(opt_text(r) is None);
    }
}

/// The address is looked for in what an upload that succeeded printed.
pub proof fn law_address_is_read(
    output: ProcessOutput,
    response: &str,
    found: Option<String>,
    r: Result<String, UploadError>,
)
    requires
        call_ensures(read_upload, (&output,), r),
        response@ == lossy_text(output.stdout@),
        call_ensures(find_url, (response,), found),
    ensures
        !output.success ==> (r matches Err(UploadError::Failed)),
        output.success ==> (found matches Some(url) ==> (r matches Ok(u) && u@ == url@)),
        output.success && found is None ==> (r matches Err(UploadError::NoUrl)),
{
    assert(opt_text(found) is Some <==> found is Some);
}

/// A segment on disk is in order exactly if it could be read; else what was complained of
/// is told with its name.
pub proof fn law_stored_segment_is_checked(
    segment_id: &str,
    output: ProcessOutput,
    r: Result<(), String>,
)
    requires
        call_ensures(check_stored, (segment_id, &output), r),
    ensures
        r is Ok <==> output.success,
        r matches Err(w) ==> w@ == "Segment "@ + segment_id@ + " is corrupted: "@ + lossy_text(
            output.stderr@,
        ),
{
}

/// A directory that is there is tried to be removed after a tenth of a second, once more
/// after a second, and then no more; what is left of old jobs are directories.
pub proof fn law_directories_are_removed(
    present: bool,
    failures: u32,
    r: CleanupStep,
    is_directory: bool,
    is_work_dir: bool,
    old_job: bool,
)
    requires
        call_ensures(cleanup_step, (present, failures), r),
        call_ensures(SegmentManager::is_old_job, (is_directory, is_work_dir), old_job),
    ensures
        !present <==> r is Done,
        present && failures == 0 ==> (r matches CleanupStep::TryAfter(ms) && ms == 100),
        present && failures == 1 ==> (r matches CleanupStep::TryAfter(ms) && ms == 1000),
        present && failures >= 2 ==> r is GiveUp,
        old_job <==> is_directory && !is_work_dir,
{
}

/// The server's database lies in its directory.
pub proof fn law_database_lies_in_its_directory(
    dir: PathParts,
    file: PathParts,
    path: &str,
    url: String,
)
    requires
        call_ensures(database_file, (&dir,), file),
        call_ensures(database_url, (path,), url),
    ensures
        file@ == dir@.push("server.db"@),
        url@ == "sqlite://"@ + path@ + "?mode=rwc"@,
{
}

/// The directories that may hold the programs, in the order in which they are looked at.
pub proof fn law_programs_have_their_places(exe_dir: &str, exe_parent: &str, r: Vec<PathParts>)
    requires
        call_ensures(tool_dirs, (exe_dir, exe_parent), r),
    ensures
        r@.len() == 5,
        r@[0]@ == seq![exe_dir@, "tools"@],
        r@[1]@ == seq![exe_dir@, "bin"@],
        r@[2]@ == seq![exe_parent@, "tools"@],
        r@[3]@ == seq!["tools"@],
        r@[4]@ == seq!["bin"@],
{
    let views = crate::tools::path_views(r@);
    assert(views.len() == r@.len());
    assert(views[0] == r@[0]@);
    assert(views[1] == r@[1]@);
    assert(views[2] == r@[2]@);
    assert(views[3] == r@[3]@);
    assert(views[4] == r@[4]@);
}

/// A directory is there and has both programs.
pub open spec fn has_both(d: ToolDir) -> bool {
    d.exists && d.has_ffmpeg && d.has_ffprobe
}

proof fn lemma_first_usable(dirs: Seq<Seq<Seq<char>>>, seen: Seq<ToolDir>, from: int, i: int)
    requires
        0 <= from <= i < seen.len(),
        has_both(seen[i]),
        forall|j: int| from <= j < i ==> !has_both(#[trigger] seen[j]),
    ensures
        crate::tools::first_usable(dirs, seen, from) == dirs[i],
    decreases i - from,
{
    if from < i {
        assert(!has_both(seen[from]));
        lemma_first_usable(dirs, seen, from + 1, i);
    }
}

proof fn lemma_none_usable(dirs: Seq<Seq<Seq<char>>>, seen: Seq<ToolDir>, from: int)
    requires
        0 <= from <= seen.len(),
        forall|j: int| from <= j < seen.len() ==> !has_both(#[trigger] seen[j]),
    ensures
        crate::tools::first_usable(dirs, seen, from) == seq!["."@],
    decreases seen.len() - from,
{
    if from < seen.len() {
        assert(!has_both(seen[from]));
        lemma_none_usable(dirs, seen, from + 1);
    }
}

/// The programs are taken from the first directory that is there and has both of them;
/// without one, from the current directory.
pub proof fn law_first_directory_with_both_programs(
    dirs: Vec<PathParts>,
    seen: Vec<ToolDir>,
    r: PathParts,
    i: int,
)
    requires
        dirs@.len() == seen@.len(),
        call_ensures(get_binary_path, (&dirs, &seen), r),
    ensures
        0 <= i < seen@.len() && has_both(seen@[i]) && (forall|j: int|
            0 <= j < i ==> !has_both(#[trigger] seen@[j])) ==> r@ == dirs@[i]@,
        (forall|j: int| 0 <= j < seen@.len() ==> !has_both(#[trigger] seen@[j])) ==> r@ == seq![
            "."@,
        ],
{
    let views = crate::tools::path_views(dirs@);
    if 0 <= i < seen@.len() && has_both(seen@[i]) && (forall|j: int|
        0 <= j < i ==> !has_both(#[trigger] seen@[j])) {
        lemma_first_usable(views, seen@, 0, i);
        assert(views[i] == dirs@[i]@);
    }
    if forall|j: int| 0 <= j < seen@.len() ==> !has_both(#[trigger] seen@[j]) {
        lemma_none_usable(views, seen@, 0);
    }
}

/// The programs have their names, with an extension exactly where programs have one.
pub proof fn law_programs_have_their_names(
    dir: PathParts,
    windows: bool,
    encoder: &'static str,
    prober: &'static str,
    encoder_path: PathParts,
    prober_path: PathParts,
)
    requires
        call_ensures(get_ffmpeg_name, (windows,), encoder),
        call_ensures(get_ffprobe_name, (windows,), prober),
        call_ensures(get_ffmpeg_path, (&dir, windows), encoder_path),
        call_ensures(get_ffprobe_path, (&dir, windows), prober_path),
    ensures
        windows ==> encoder@ == "ffmpeg.exe"@ && prober@ == "ffprobe.exe"@,
        !windows ==> encoder@ == "ffmpeg"@ && prober@ == "ffprobe"@,
        encoder_path@ == dir@.push(encoder@),
        prober_path@ == dir@.push(prober@),
{
}

/// An absolute path leads to itself, any other from the given directory, or without one
/// from the current one.
pub proof fn law_paths_are_resolved(
    path: &str,
    absolute: bool,
    base_dir: Option<&str>,
    current_dir: Option<&str>,
    r: PathParts,
)
    requires
        call_ensures(resolve_path, (path, absolute, base_dir, current_dir), r),
    ensures
        absolute ==> r@ == seq![path@],
        !absolute ==> (base_dir matches Some(b) ==> r@ == seq![b@, path@]),
        !absolute && base_dir is None ==> (current_dir matches Some(d) ==> r@ == seq![d@, path@]),
        !absolute && base_dir is None && current_dir is None ==> r@ == seq!["."@, path@],
{
}

/// Where paths have no drives, those are absolute that start with a slash. Where they have,
/// those that start at the root of a drive or name a share; neither a name, nor a drive
/// without its root, nor a single separator in front makes a path absolute.
pub proof fn law_absolute_paths(path: &str, plain: bool, on_drive: bool, share: int)
    requires
        call_ensures(is_absolute, (path, false), plain),
        call_ensures(is_absolute, (path, true), on_drive),
    ensures
        plain <==> path@.len() > 0 && path@[0] == '/',
        path@.len() > 1 && path@[1] == ':' && ('a' <= path@[0] <= 'z' || 'A' <= path@[0] <= 'Z')
            ==> (on_drive <==> path@.len() > 2 && (path@[2] == '/' || path@[2] == '\\')),
        3 <= share < path@.len() - 1 && separates(path@[0]) && separates(path@[1]) && separates(
            path@[share],
        ) && !separates(path@[share + 1]) && (forall|k: int|
            2 <= k < share ==> !separates(#[trigger] path@[k])) ==> on_drive,
        path@.len() == 0 ==> !on_drive,
        path@.len() > 0 && path@[0] != '/' && path@[0] != '\\' && (path@.len() == 1 || path@[1]
            != ':') ==> !on_drive,
        path@.len() > 0 && (path@[0] == '/' || path@[0] == '\\') && (path@.len() == 1 || (path@[1]
            != '/' && path@[1] != '\\' && path@[1] != '?')) ==> !on_drive,
{
    if 3 <= share < path@.len() - 1 && separates(path@[0]) && separates(path@[1]) && separates(
        path@[share],
    ) && !separates(path@[share + 1]) && (forall|k: int|
        2 <= k < share ==> !separates(#[trigger] path@[k])) {
        assert forall|k: int| 2 <= k < share implies !crate::path::is_separator(
            #[trigger] path@[k],
        ) by {
            assert(!separates(path@[k]));
        }
        assert(crate::path::share_at(path@, share));
    }
    if crate::path::names_share(path@) {
        let i = choose|i: int| crate::path::share_at(path@, i);
        assert(crate::path::is_separator(path@[1]));
    }
}

/// A character parts the components of a path where paths have drives.
pub open spec fn separates(c: char) -> bool {
    c == '/' || c == '\\'
}

/// Where paths have drives, a path from the root of one leads to itself, and a name leads
/// from the given directory or the current one.
pub proof fn law_paths_lead_from_their_drive(
    path: &str,
    base_dir: Option<&str>,
    current_dir: Option<&str>,
    r: PathParts,
    itself: PathParts,
    from_there: PathParts,
)
    requires
        call_ensures(ensure_absolute_path, (path, base_dir, current_dir, true), r),
        call_ensures(resolve_path, (path, true, base_dir, current_dir), itself),
        call_ensures(resolve_path, (path, false, base_dir, current_dir), from_there),
    ensures
        path@.len() > 2 && path@[1] == ':' && ('a' <= path@[0] <= 'z' || 'A' <= path@[0] <= 'Z')
            && separates(path@[2]) ==> r@ == itself@,
        path@.len() > 0 && !separates(path@[0]) && (path@.len() == 1 || path@[1] != ':') ==> r@
            == from_there@,
        r@ == itself@ || r@ == from_there@,
{
}

/// A path leads where it leads once it is known whether it is absolute.
pub proof fn law_paths_lead_where_they_should(
    path: &str,
    base_dir: Option<&str>,
    current_dir: Option<&str>,
    r: PathParts,
    direct: PathParts,
    absolute: bool,
)
    requires
        call_ensures(is_absolute, (path, false), absolute),
        call_ensures(ensure_absolute_path, (path, base_dir, current_dir, false), r),
        call_ensures(resolve_path, (path, absolute, base_dir, current_dir), direct),
    ensures
        r@ == direct@,
{
}

proof fn lemma_last_part(dir: Seq<char>, name: Seq<char>)
    requires
        !name.contains('/'),
        dir.len() == 0 || dir.last() == '/',
    ensures
        crate::path::last_part(dir + name) == name,
    decreases name.len(),
{
    let all = dir + name;
    if name.len() == 0 {
        assert(all =~= dir);
        assert(crate::path::last_part(all) =~= name);
    } else {
        let front = name.drop_last();
        assert forall|i: int| 0 <= i < front.len() implies front[i] != '/' by {
            assert(name[i] == front[i]);
        }
        assert(name.contains(name.last()));
        assert(all.drop_last() =~= dir + front);
        lemma_last_part(dir, front);
        assert(front.push(name.last()) =~= name);
    }
}

proof fn lemma_plain_joined(dir: Seq<char>, name: Seq<char>)
    requires
        crate::path::plain_path(dir + name),
        !name.contains('/'),
        dir.len() == 0 || dir.last() == '/',
        name.len() > 0,
        name != "."@,
        name != ".."@,
    ensures
        crate::path::final_part(dir + name) == name,
{
    lemma_last_part(dir, name);
    assert((dir + name).last() == name.last());
    assert(name.contains(name.last()));
}

proof fn lemma_slash_at_the_end(dir: Seq<char>, name: Seq<char>)
    requires
        !(dir + name).contains('\\'),
        (dir + name).len() > 1 ==> (dir + name)[1] != ':' && !((dir + name)[0] == '/' && (dir
            + name)[1] == '/'),
        !name.contains('/'),
        dir.len() == 0 || dir.last() == '/',
        name.len() > 0,
        name != "."@,
        name != ".."@,
    ensures
        crate::path::plain_path(dir + name),
        crate::path::final_part(dir + name) == name,
        crate::path::plain_path((dir + name).push('/')),
        crate::path::final_part((dir + name).push('/')) == name,
{
    let path = dir + name;
    let slashed = path.push('/');
    assert(path.contains(path[0]));
    if path.len() > 1 {
        assert(path.contains(path[1]));
    }
    assert(crate::path::plain_path(path));
    lemma_plain_joined(dir, name);
    assert(!slashed.contains('\\')) by {
        if slashed.contains('\\') {
            let i = slashed.index_of('\\');
            assert(path[i] == '\\');
            assert(path.contains(path[i]));
        }
    }
    if path.len() == 1 {
        assert(name.contains(name[0]));
        assert(path[0] == name[0]);
    }
    assert(crate::path::plain_path(slashed));
    assert(slashed.drop_last() =~= path);
    assert(crate::path::final_part(slashed) == crate::path::final_part(path));
}

/// The name of a file is what stands behind the last slash of its path, a slash at the end
/// not counting, where no other separator and no prefix is.
pub proof fn law_name_is_the_last_part(
    path: &str,
    r: String,
    dir: Seq<char>,
    name: Seq<char>,
    slashed: &str,
    s: String,
)
    requires
        call_ensures(file_name, (path,), r),
        call_ensures(file_name, (slashed,), s),
        path@ == dir + name,
        slashed@ == path@.push('/'),
        !path@.contains('\\'),
        path@.len() > 1 ==> path@[1] != ':' && !(path@[0] == '/' && path@[1] == '/'),
        dir.len() == 0 || dir.last() == '/',
        !name.contains('/'),
        name.len() > 0,
        name != "."@,
        name != ".."@,
    ensures
        r@ == name,
        s@ == name,
{
    lemma_slash_at_the_end(dir, name);
    assert(slashed@ == (dir + name).push('/'));
}

/// The frames of a segment are as many as were printed, if they could be counted.
pub proof fn law_segment_frames_are_counted(
    output: ProcessOutput,
    count: Result<u64, ProbeError>,
    r: Result<u64, ProbeError>,
)
    requires
        call_ensures(read_count, (output.stdout,), count),
        call_ensures(FfmpegService::verify_segment_frames, (output,), r),
    ensures
        output.success ==> (r is Ok <==> count is Ok),
        output.success ==> (count matches Ok(n) ==> r->Ok_0 == n),
        output.success ==> (count matches Err(e) ==> r->Err_0@ == e@),
        !output.success ==> r is Err && r->Err_0 is Verify,
{
}

/// A path is the pieces that it was joined from, in order.
pub proof fn law_paths_are_joined(
    first: &str,
    second: &str,
    path: PathParts,
    longer: PathParts,
    copy: PathParts,
)
    requires
        call_ensures(PathParts::from_text, (first,), path),
        call_ensures(PathParts::join, (&path, second), longer),
        call_ensures(<PathParts as Clone>::clone, (&longer,), copy),
    ensures
        path@ == seq![first@],
        longer@ == seq![first@, second@],
        copy@ == longer@,
        copy.parts@.len() == 2,
        copy.parts@[0]@ == first@,
        copy.parts@[1]@ == second@,
{
    assert(longer@ =~= seq![first@, second@]);
    assert(copy@.len() == copy.parts@.len());
    assert(copy@[0] == copy.parts@[0]@);
    assert(copy@[1] == copy.parts@[1]@);
}

/// A path that leads upwards has no name at its end, and one that ends in a dot behind a
/// slash has the name of what stands before.
pub proof fn law_dots_are_no_names(
    dir: Seq<char>,
    upwards: &str,
    u: String,
    plain: &str,
    p: String,
    dotted: &str,
    d: String,
)
    requires
        call_ensures(file_name, (upwards,), u),
        call_ensures(file_name, (plain,), p),
        call_ensures(file_name, (dotted,), d),
        dir.len() == 0 || dir.last() == '/',
        upwards@ == dir + ".."@,
        dotted@ == plain@ + "/."@,
        plain@.len() > 1,
        crate::path::plain_path(upwards@),
        crate::path::plain_path(plain@),
        crate::path::plain_path(dotted@),
    ensures
        u@.len() == 0,
        d@ == p@,
{
    reveal_strlit("..");
    reveal_strlit("/.");
    reveal_strlit(".");
    lemma_last_part(dir, ".."@);
    assert(upwards@.last() == '.');
    assert(crate::path::last_part(upwards@) == ".."@);
    assert(".."@.len() == 2 && "."@.len() == 1);
    assert(crate::path::final_part(upwards@) == Seq::<char>::empty());
    let slashed = plain@.push('/');
    assert(dotted@ =~= slashed + "."@);
    assert(dotted@.drop_last() =~= slashed);
    assert(slashed.drop_last() =~= plain@);
    assert(!"."@.contains('/'));
    lemma_last_part(slashed, "."@);
    assert(crate::path::final_part(dotted@) == crate::path::final_part(slashed));
    assert(crate::path::final_part(slashed) == crate::path::final_part(plain@));
}

} // verus!
