//! What the server learns of videos from what `ffprobe` left.

use crate::outside::{json_text, json_text_at, lossy_text, utf8_refusal, utf8_text};
use crate::probe::{
    count_result, printed, printed_count, printed_text, read_count, read_text, text_result,
    ProbeError, ProbeErrorView, ProcessOutput,
};
use crate::server::segment_manager::SegmentManager;
use crate::text::{opt_text, strings, texts};
use vstd::prelude::*;
use vstd::utf8::{decode_utf8, valid_utf8};

verus! {

/// Questions about videos that are asked of the `ffprobe` that comes with the
/// server.
#[derive(Clone, Copy, Debug)]
pub struct FfmpegService;

/// Questions about videos that are asked of the `ffprobe` of the system.
#[derive(Clone, Copy, Debug)]
pub struct FfProbeService;

impl Default for FfmpegService {
    fn default() -> (r: Self)
        ensures
            r == FfmpegService,
    {
        FfmpegService
    }
}

/// The format that was detected.
pub open spec fn detected_format(output: ProcessOutput) -> Result<Seq<char>, ProbeErrorView> {
    if output.success {
        printed_text(output.stdout@)
    } else {
        Err(ProbeErrorView::Detect(lossy_text(output.stderr@)))
    }
}

/// The number of frames that were counted.
pub open spec fn counted_frames(output: ProcessOutput) -> Result<nat, ProbeErrorView> {
    if output.success {
        printed_count(output.stdout@)
    } else {
        Err(ProbeErrorView::Count(lossy_text(output.stderr@)))
    }
}

/// The number of frames that were counted in a segment.
pub open spec fn verified_frames(output: ProcessOutput) -> Result<nat, ProbeErrorView> {
    if output.success {
        printed_count(output.stdout@)
    } else {
        Err(ProbeErrorView::Verify)
    }
}

/// The text of a video's duration, if it is told, in a description of the
/// video's streams.
pub open spec fn described_duration(description: Seq<u8>) -> Result<
    Option<Seq<char>>,
    ProbeErrorView,
> {
    if valid_utf8(description) {
        match json_text(decode_utf8(description), "streams"@, 0, "duration"@) {
            Ok(d) => Ok(d),
            Err(w) => Err(ProbeErrorView::NotJson(w)),
        }
    } else {
        Err(ProbeErrorView::NotUtf8(utf8_refusal(description)))
    }
}

/// What is known of a video: its duration, if it is told, and the number of its
/// frames.
#[derive(Debug)]
pub struct VideoInfo {
    pub duration: Option<String>,
    pub total_frames: u64,
}

/// The view of a `VideoInfo`.
pub struct VideoInfoView {
    pub duration: Option<Seq<char>>,
    pub total_frames: nat,
}

/// What is known of a video, from the count of its frames and the description
/// of its streams.
pub open spec fn described_video(count: Seq<u8>, description: Seq<u8>) -> Result<
    VideoInfoView,
    ProbeErrorView,
> {
    match printed_count(count) {
        Err(e) => Err(e),
        Ok(total_frames) => match described_duration(description) {
            Err(e) => Err(e),
            Ok(duration) => Ok(VideoInfoView { duration, total_frames }),
        },
    }
}

/// A result with the views of its parts.
pub open spec fn info_result(r: Result<VideoInfo, ProbeError>) -> Result<
    VideoInfoView,
    ProbeErrorView,
> {
    match r {
        Ok(i) => Ok(
            VideoInfoView {
                duration: opt_text(i.duration),
                total_frames: i.total_frames as nat,
            },
        ),
        Err(e) => Err(e@),
    }
}

/// The arguments with which `ffprobe` describes the streams of a video.
pub open spec fn streams_args_of(file: Seq<char>) -> Seq<Seq<char>> {
    seq!["-v"@, "quiet"@, "-print_format"@, "json"@, "-show_streams"@, file]
}

/// The arguments with which `ffprobe` describes the streams of `file`.
pub fn streams_args(file: &str) -> (r: Vec<String>)
    ensures
        texts(r@) == streams_args_of(file@),
{
    let r = strings(vec!["-v", "quiet", "-print_format", "json", "-show_streams", file]);
    assert(texts(r@) =~= streams_args_of(file@));
    r
}

/// The text of a video's duration, if it is told, in a description of the
/// video's streams.
pub fn read_duration(description: Vec<u8>) -> (r: Result<Option<String>, ProbeError>)
    ensures
        match r {
            Ok(d) => described_duration(description@) == Ok::<
                Option<Seq<char>>,
                ProbeErrorView,
            >(opt_text(d)),
            Err(e) => described_duration(description@) == Err::<
                Option<Seq<char>>,
                ProbeErrorView,
            >(e@),
        },
{
    match utf8_text(description) {
        Ok(text) => match json_text_at(text.as_str(), "streams", 0, "duration") {
            Ok(d) => Ok(d),
            Err(w) => Err(ProbeError::NotJson(w)),
        },
        Err(w) => Err(ProbeError::NotUtf8(w)),
    }
}

fn read_format(output: ProcessOutput) -> (r: Result<String, ProbeError>)
    ensures
        text_result(r) == detected_format(output),
{
    if !output.success {
        return Err(ProbeError::Detect(printed(&output.stderr)));
    }
    read_text(output.stdout)
}

impl FfmpegService {
    /// The format of a video.
    pub fn detect_format(output: ProcessOutput) -> (r: Result<String, ProbeError>)
        ensures
            text_result(r) == detected_format(output),
    {
        read_format(output)
    }

    /// What is known of a video, from what `ffprobe` left when it counted the
    /// frames and when it described the streams.
    pub fn get_video_info(count: ProcessOutput, description: ProcessOutput) -> (r: Result<
        VideoInfo,
        ProbeError,
    >)
        ensures
            info_result(r) == described_video(count.stdout@, description.stdout@),
    {
        let total_frames: u64 = match read_count(count.stdout) {
            Ok(n) => n,
            Err(e) => {
                return Err(e);
            },
        };
        match read_duration(description.stdout) {
            Ok(duration) => Ok(VideoInfo { duration, total_frames }),
            Err(e) => Err(e),
        }
    }

    /// The number of frames of a segment.
    pub fn verify_segment_frames(output: ProcessOutput) -> (r: Result<u64, ProbeError>)
        ensures
            count_result(r) == verified_frames(output),
    {
        if output.success {
            read_count(output.stdout)
        } else {
            Err(ProbeError::Verify)
        }
    }
}

impl FfProbeService {
    /// The number of frames of a video.
    pub fn count_frames(output: ProcessOutput) -> (r: Result<u64, ProbeError>)
        ensures
            count_result(r) == counted_frames(output),
    {
        if !output.success {
            return Err(ProbeError::Count(printed(&output.stderr)));
        }
        read_count(output.stdout)
    }

    /// The format of a video.
    pub fn detect_format(output: ProcessOutput) -> (r: Result<String, ProbeError>)
        ensures
            text_result(r) == detected_format(output),
    {
        read_format(output)
    }
}

impl SegmentManager {
    /// The format of the video that segments are cut from.
    pub fn detect_format(output: ProcessOutput) -> (r: Result<String, ProbeError>)
        ensures
            text_result(r) == detected_format(output),
    {
        FfmpegService::detect_format(output)
    }
}

} // verus!
