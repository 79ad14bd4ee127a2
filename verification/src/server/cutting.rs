//! Cutting a sample or a segment out of a video.

use crate::outside::{is_uuid, json_text, json_text_at, lossy_text, new_uuid};
use crate::path::PathParts;
use crate::probe::{
    printed, printed_count, read_count, ProbeError, ProbeErrorView, ProcessOutput,
};
use crate::server::segment_id::{name_segment, segment_name};
use crate::server::segment_manager::{
    container_of, SegmentData, SegmentDataView, SegmentManager, SegmentsView,
};
use crate::text::{decimal, number_text, same, strings, texts};
use vstd::prelude::*;
use vstd::string::*;

verus! {

/// Why nothing could be cut out of a video.
#[derive(Debug)]
pub enum CutError {
    /// What was printed of the frame rates is no JSON.
    NotJson(String),
    /// `ffmpeg` made no sample; what it complained of.
    Sample(String),
    /// `ffmpeg` made no segment; what it complained of.
    Segment(String),
    /// What was printed as a count could not be read.
    Probe(ProbeError),
    /// The segment has another number of frames than it should have.
    Mismatch { expected: u64, got: u64 },
}

/// The view of a `CutError`.
pub enum CutErrorView {
    NotJson(Seq<char>),
    Sample(Seq<char>),
    Segment(Seq<char>),
    Probe(ProbeErrorView),
    Mismatch { expected: nat, got: nat },
}

impl View for CutError {
    type V = CutErrorView;

    open spec fn view(&self) -> CutErrorView {
        match *self {
            CutError::NotJson(w) => CutErrorView::NotJson(w@),
            CutError::Sample(w) => CutErrorView::Sample(w@),
            CutError::Segment(w) => CutErrorView::Segment(w@),
            CutError::Probe(e) => CutErrorView::Probe(e@),
            CutError::Mismatch { expected, got } => CutErrorView::Mismatch {
                expected: expected as nat,
                got: got as nat,
            },
        }
    }
}

impl CutErrorView {
    /// What is told of the failure.
    pub open spec fn message(self) -> Seq<char> {
        match self {
            CutErrorView::NotJson(w) => w,
            CutErrorView::Sample(w) => "Failed to create benchmark sample: "@ + w,
            CutErrorView::Segment(w) => "Failed to create segment: "@ + w,
            CutErrorView::Probe(e) => e.message(),
            CutErrorView::Mismatch { expected, got } => "Frame count mismatch: expected "@
                + decimal(expected) + " frames but got "@ + decimal(got),
        }
    }
}

impl CutError {
    /// What is told of the failure.
    pub fn message(&self) -> (r: String)
        ensures
            r@ == self@.message(),
    {
        match self {
            CutError::NotJson(w) => w.clone(),
            CutError::Sample(w) => "Failed to create benchmark sample: ".to_owned().concat(
                w.as_str(),
            ),
            CutError::Segment(w) => "Failed to create segment: ".to_owned().concat(w.as_str()),
            CutError::Probe(e) => e.message(),
            CutError::Mismatch { expected, got } => "Frame count mismatch: expected ".to_owned().concat(
                number_text(*expected).as_str(),
            ).concat(" frames but got ").concat(number_text(*got).as_str()),
        }
    }
}

/// What is to be cut: the name it gets, the extension and the arguments of its
/// container, and the file that it is cut into.
#[derive(Debug)]
pub struct CutPlan {
    pub id: String,
    pub ext: String,
    pub options: Vec<String>,
    pub temp_file: PathParts,
}

/// `plan` cuts a piece named `id` out of a video of the named format.
pub open spec fn plans(
    s: SegmentsView,
    format: Seq<char>,
    id: Seq<char>,
    plan: CutPlan,
) -> bool {
    let container = container_of(format);
    &&& plan.id@ == id
    &&& plan.ext@ == container.ext()
    &&& texts(plan.options@) == container.options()
    &&& plan.temp_file@ == s.work_dir().push(id + "."@ + container.ext())
}

/// The name of a sample.
pub open spec fn sample_name(unique: Seq<char>) -> Seq<char> {
    "benchmark_"@ + unique
}

impl SegmentManager {
    fn plan_named(&self, format: &str, id: String) -> (r: CutPlan)
        requires
            self.wf(),
        ensures
            plans(self@, format@, id@, r),
    {
        let (ext, options) = SegmentManager::get_output_format(format);
        let file = id.clone().concat(".").concat(ext);
        CutPlan {
            id,
            ext: ext.to_owned(),
            options: strings(options),
            temp_file: self.get_work_dir().join(file.as_str()),
        }
    }

    /// The plan for a sample of a video of the named format; `unique` sets it
    /// apart from other samples.
    pub fn plan_sample_as(&self, format: &str, unique: &str) -> (r: CutPlan)
        requires
            self.wf(),
        ensures
            plans(self@, format@, sample_name(unique@), r),
    {
        self.plan_named(format, "benchmark_".to_owned().concat(unique))
    }

    /// The plan for a sample of a video of the named format.
    pub fn plan_sample(&self, format: &str) -> (r: CutPlan)
        requires
            self.wf(),
        ensures
            exists|u: Seq<char>| #[trigger] is_uuid(u) && plans(self@, format@, sample_name(u), r),
    {
        let unique = new_uuid();
        let r = self.plan_sample_as(format, unique.as_str());
        assert(is_uuid(unique@));
        r
    }

    /// The plan for the segment that starts at `start_frame` of a video of the
    /// named format; `unique` sets it apart from other segments.
    pub fn plan_segment_as(&self, format: &str, start_frame: u64, unique: &str) -> (r: CutPlan)
        requires
            self.wf(),
        ensures
            plans(self@, format@, segment_name(start_frame as nat, unique@), r),
    {
        self.plan_named(format, name_segment(start_frame, unique))
    }

    /// The plan for the segment that starts at `start_frame` of a video of the
    /// named format.
    pub fn plan_segment(&self, format: &str, start_frame: u64) -> (r: CutPlan)
        requires
            self.wf(),
        ensures
            exists|u: Seq<char>| #[trigger]
                is_uuid(u) && plans(self@, format@, segment_name(start_frame as nat, u), r),
    {
        let unique = new_uuid();
        let r = self.plan_segment_as(format, start_frame, unique.as_str());
        assert(is_uuid(unique@));
        r
    }

    /// The file into which a segment is written to be counted; `unique` sets
    /// it apart from others.
    pub fn verify_file_as(temp_dir: &PathParts, unique: &str) -> (r: PathParts)
        ensures
            r@ == temp_dir@.push("verify_"@ + unique@ + ".tmp"@),
    {
        temp_dir.join("verify_".to_owned().concat(unique).concat(".tmp").as_str())
    }

    /// The file into which a segment is written to be counted.
    pub fn verify_file(temp_dir: &PathParts) -> (r: PathParts)
        ensures
            exists|u: Seq<char>| #[trigger]
                is_uuid(u) && r@ == temp_dir@.push("verify_"@ + u + ".tmp"@),
    {
        let unique = new_uuid();
        let r = SegmentManager::verify_file_as(temp_dir, unique.as_str());
        assert(is_uuid(unique@));
        r
    }

    /// The number of frames of a segment, from what `ffprobe` left.
    pub fn verify_segment(output: ProcessOutput) -> (r: Result<u64, ProbeError>)
        ensures
            match r {
                Ok(n) => output.success && printed_count(output.stdout@) == Ok::<
                    nat,
                    ProbeErrorView,
                >(n as nat),
                Err(e) => if output.success {
                    printed_count(output.stdout@) == Err::<nat, ProbeErrorView>(e@)
                } else {
                    e@ == ProbeErrorView::Verify
                },
            },
    {
        if !output.success {
            return Err(ProbeError::Verify);
        }
        read_count(output.stdout)
    }
}

/// The arguments with which `ffmpeg` copies the first `duration` seconds.
pub open spec fn sample_args_of(
    input_file: Seq<char>,
    duration: nat,
    options: Seq<Seq<char>>,
    temp_path: Seq<char>,
) -> Seq<Seq<char>> {
    seq!["-y"@, "-i"@, input_file, "-t"@, decimal(duration), "-c"@, "copy"@] + options
        + seq![temp_path]
}

/// The arguments with which `ffmpeg` copies the first `duration` seconds.
pub fn sample_args(input_file: &str, duration: u32, options: &Vec<String>, temp_path: &str) -> (r:
    Vec<String>)
    ensures
        texts(r@) == sample_args_of(input_file@, duration as nat, texts(options@), temp_path@),
{
    let seconds = number_text(duration as u64);
    let mut args = strings(vec!["-y", "-i", input_file, "-t", seconds.as_str(), "-c", "copy"]);
    let ghost front = texts(args@);
    let mut opts = crate::text::copy_list(options);
    args.append(&mut opts);
    args.push(temp_path.to_owned());
    assert(front =~= seq![
        "-y"@,
        "-i"@,
        input_file@,
        "-t"@,
        decimal(duration as nat),
        "-c"@,
        "copy"@,
    ]);
    assert(texts(args@) =~= front + texts(options@) + seq![temp_path@]);
    args
}

/// The filter that lets the frames from `start` up to, and without, `end` pass.
pub open spec fn select_filter(start: nat, end: nat) -> Seq<char> {
    "select=between(n\\,"@ + decimal(start) + "\\,"@ + decimal((end - 1) as nat)
        + "),setpts=PTS-STARTPTS"@
}

/// The arguments with which `ffmpeg` cuts out frames.
pub open spec fn segment_args_of(
    input_file: Seq<char>,
    start: nat,
    end: nat,
    options: Seq<Seq<char>>,
    temp_path: Seq<char>,
) -> Seq<Seq<char>> {
    seq![
        "-y"@,
        "-i"@,
        input_file,
        "-vf"@,
        select_filter(start, end),
        "-vsync"@,
        "passthrough"@,
        "-an"@,
        "-sn"@,
        "-dn"@,
        "-c:v"@,
        "libx264"@,
        "-preset"@,
        "medium"@,
        "-crf"@,
        "18"@,
    ] + options + seq![temp_path]
}

/// The arguments with which `ffmpeg` cuts out the frames from `start_frame` up
/// to, and without, `end_frame`.
pub fn segment_args(
    input_file: &str,
    start_frame: u64,
    end_frame: u64,
    options: &Vec<String>,
    temp_path: &str,
) -> (r: Vec<String>)
    requires
        end_frame > 0,
    ensures
        texts(r@) == segment_args_of(
            input_file@,
            start_frame as nat,
            end_frame as nat,
            texts(options@),
            temp_path@,
        ),
{
    let filter = "select=between(n\\,".to_owned().concat(number_text(start_frame).as_str()).concat(
        "\\,",
    ).concat(number_text(end_frame - 1).as_str()).concat("),setpts=PTS-STARTPTS");
    let mut args = strings(
        vec![
            "-y",
            "-i",
            input_file,
            "-vf",
            filter.as_str(),
            "-vsync",
            "passthrough",
            "-an",
            "-sn",
            "-dn",
            "-c:v",
            "libx264",
            "-preset",
            "medium",
            "-crf",
            "18",
        ],
    );
    let ghost front = texts(args@);
    let mut opts = crate::text::copy_list(options);
    args.append(&mut opts);
    args.push(temp_path.to_owned());
    assert(texts(args@) =~= front + texts(options@) + seq![temp_path@]);
    assert(texts(args@) =~= segment_args_of(
        input_file@,
        start_frame as nat,
        end_frame as nat,
        texts(options@),
        temp_path@,
    ));
    args
}

/// The arguments with which `ffprobe` prints the frame rates of a video.
pub open spec fn rate_args_of(input_file: Seq<char>) -> Seq<Seq<char>> {
    seq![
        "-v"@,
        "error"@,
        "-select_streams"@,
        "v:0"@,
        "-show_entries"@,
        "stream=r_frame_rate,avg_frame_rate"@,
        "-of"@,
        "json"@,
        input_file,
    ]
}

/// The arguments with which `ffprobe` prints the frame rates of a video.
pub fn rate_args(input_file: &str) -> (r: Vec<String>)
    ensures
        texts(r@) == rate_args_of(input_file@),
{
    let r = strings(
        vec![
            "-v",
            "error",
            "-select_streams",
            "v:0",
            "-show_entries",
            "stream=r_frame_rate,avg_frame_rate",
            "-of",
            "json",
            input_file,
        ],
    );
    assert(texts(r@) =~= rate_args_of(input_file@));
    r
}

/// A frame rate, or the words that stand for none.
pub open spec fn rate_or_none(rate: Option<Seq<char>>) -> Seq<char> {
    match rate {
        Some(t) => t,
        None => "0/0"@,
    }
}

/// The frame rate that is used: the average one, if it is known, else the real one.
pub open spec fn rate_used(base: Option<Seq<char>>, average: Option<Seq<char>>) -> Seq<char> {
    if rate_or_none(average) != "0/0"@ {
        rate_or_none(average)
    } else {
        rate_or_none(base)
    }
}

/// The frame rate that is used: the average one, if it is known, else the real one.
pub fn choose_rate(base: Option<String>, average: Option<String>) -> (r: String)
    ensures
        r@ == rate_used(crate::text::opt_text(base), crate::text::opt_text(average)),
{
    let real_rate = match base {
        Some(t) => t,
        None => "0/0".to_owned(),
    };
    let average_rate = match average {
        Some(t) => t,
        None => "0/0".to_owned(),
    };
    if !same(average_rate.as_str(), "0/0") {
        average_rate
    } else {
        real_rate
    }
}

/// The frame rate of a video that is printed in a JSON document.
pub open spec fn printed_rate(bytes: Seq<u8>) -> Result<Seq<char>, CutErrorView> {
    let document = lossy_text(bytes);
    match json_text(document, "streams"@, 0, "r_frame_rate"@) {
        Err(e) => Err(CutErrorView::NotJson(e)),
        Ok(base) => match json_text(document, "streams"@, 0, "avg_frame_rate"@) {
            Err(e) => Err(CutErrorView::NotJson(e)),
            Ok(average) => Ok(rate_used(base, average)),
        },
    }
}

/// The frame rate of a video, from what `ffprobe` printed.
pub fn read_rate(stdout: &Vec<u8>) -> (r: Result<String, CutError>)
    ensures
        match r {
            Ok(t) => printed_rate(stdout@) == Ok::<Seq<char>, CutErrorView>(t@),
            Err(e) => printed_rate(stdout@) == Err::<Seq<char>, CutErrorView>(e@),
        },
{
    let document = printed(stdout);
    let base = match json_text_at(document.as_str(), "streams", 0, "r_frame_rate") {
        Ok(t) => t,
        Err(e) => {
            return Err(CutError::NotJson(e));
        },
    };
    let average = match json_text_at(document.as_str(), "streams", 0, "avg_frame_rate") {
        Ok(t) => t,
        Err(e) => {
            return Err(CutError::NotJson(e));
        },
    };
    Ok(choose_rate(base, average))
}

/// Whether `ffmpeg` made the sample.
pub fn check_sample(output: &ProcessOutput) -> (r: Result<(), CutError>)
    ensures
        match r {
            Ok(()) => output.success,
            Err(e) => !output.success && e@ == CutErrorView::Sample(lossy_text(output.stderr@)),
        },
{
    if output.success {
        Ok(())
    } else {
        Err(CutError::Sample(printed(&output.stderr)))
    }
}

/// Whether `ffmpeg` made the segment.
pub fn check_segment(output: &ProcessOutput) -> (r: Result<(), CutError>)
    ensures
        match r {
            Ok(()) => output.success,
            Err(e) => !output.success && e@ == CutErrorView::Segment(lossy_text(output.stderr@)),
        },
{
    if output.success {
        Ok(())
    } else {
        Err(CutError::Segment(printed(&output.stderr)))
    }
}

/// Whether a segment for the frames from `start` up to, and without, `end` has
/// the frames it should have.
pub open spec fn frames_verdict(printed: Seq<u8>, start: nat, end: nat) -> Result<
    (),
    CutErrorView,
> {
    match printed_count(printed) {
        Err(e) => Err(CutErrorView::Probe(e)),
        Ok(got) => if got == end - start {
            Ok(())
        } else {
            Err(CutErrorView::Mismatch { expected: (end - start) as nat, got })
        },
    }
}

/// Whether a segment has the frames it should have, from what `ffprobe` printed of it.
pub fn check_frames(stdout: Vec<u8>, start_frame: u64, end_frame: u64) -> (r: Result<
    (),
    CutError,
>)
    requires
        start_frame <= end_frame,
    ensures
        match r {
            Ok(()) => frames_verdict(stdout@, start_frame as nat, end_frame as nat) == Ok::<
                (),
                CutErrorView,
            >(()),
            Err(e) => frames_verdict(stdout@, start_frame as nat, end_frame as nat) == Err::<
                (),
                CutErrorView,
            >(e@),
        },
{
    match read_count(stdout) {
        Err(e) => Err(CutError::Probe(e)),
        Ok(got) => {
            let expected: u64 = end_frame - start_frame;
            if got != expected {
                Err(CutError::Mismatch { expected, got })
            } else {
                Ok(())
            }
        },
    }
}

impl CutPlan {
    /// The piece that was cut by this plan.
    pub fn finish(self, data: Vec<u8>) -> (r: SegmentData)
        ensures
            r@ == (SegmentDataView { data: data@, format: self.ext@, segment_id: self.id@ }),
    {
        SegmentData { data, format: self.ext, segment_id: self.id }
    }
}

} // verus!
