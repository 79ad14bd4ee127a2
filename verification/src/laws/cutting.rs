//! Laws on cutting samples and segments out of a video.

use crate::laws::lists::run_at;
use crate::laws::texts::{law_fields_of_two_texts, law_numbers_are_digits, law_numbers_differ};
use crate::models::measure::Fps;
use crate::outside::{json_text, lossy_text};
use crate::path::PathParts;
use crate::probe::{read_count, ProbeError, ProcessOutput};
use crate::server::cutting::{
    check_frames, check_sample, check_segment, choose_rate, rate_args, read_rate, sample_args,
    segment_args, select_filter, CutError, CutPlan,
};
use crate::server::frames::{
    divide_frames, frame_ranges, law_ranges_cover_every_frame_once, FrameRange,
};
use crate::server::segment_id::name_segment;
use crate::server::segment_manager::{SegmentData, SegmentManager};
use crate::text::{decimal, fields, has_part, opt_text, texts, trimmed};
use vstd::prelude::*;

verus! {

/// The filter lets the frames from `first` to `last`, both of them too, pass, and
/// counts their times from the first on.
pub open spec fn passes(filter: Seq<char>, first: nat, last: nat) -> bool {
    filter == "select=between(n\\,"@ + decimal(first) + "\\,"@ + decimal(last)
        + "),setpts=PTS-STARTPTS"@
}

/// The filter lets a frame pass.
pub open spec fn selects(filter: Seq<char>, f: nat) -> bool {
    exists|first: nat, last: nat| #[trigger] passes(filter, first, last) && first <= f <= last
}

proof fn lemma_digits_end(a: Seq<char>, x: Seq<char>, b: Seq<char>, y: Seq<char>)
    requires
        a + x == b + y,
        forall|i: int| 0 <= i < a.len() ==> 48 <= (#[trigger] a[i]) as int <= 57,
        forall|i: int| 0 <= i < b.len() ==> 48 <= (#[trigger] b[i]) as int <= 57,
        x.len() > 0 && !(48 <= x[0] as int <= 57),
        y.len() > 0 && !(48 <= y[0] as int <= 57),
    ensures
        a == b,
        x == y,
{
    let s = a + x;
    if a.len() < b.len() {
        assert(s[a.len() as int] == x[0]);
        assert(s[a.len() as int] == b[a.len() as int]);
    } else if b.len() < a.len() {
        assert(s[b.len() as int] == y[0]);
        assert(s[b.len() as int] == a[b.len() as int]);
    }
    assert(a =~= s.take(a.len() as int));
    assert(b =~= (b + y).take(b.len() as int));
    assert(x =~= s.skip(a.len() as int));
    assert(y =~= (b + y).skip(b.len() as int));
}

/// A filter passes one range of frames only.
pub proof fn law_filter_passes_one_range(
    filter: Seq<char>,
    first: nat,
    last: nat,
    other_first: nat,
    other_last: nat,
)
    requires
        passes(filter, first, last),
        passes(filter, other_first, other_last),
    ensures
        first == other_first,
        last == other_last,
{
    reveal_strlit("\\,");
    reveal_strlit("),setpts=PTS-STARTPTS");
    let p = "select=between(n\\,"@;
    let c = "\\,"@;
    let q = "),setpts=PTS-STARTPTS"@;
    let x = c + decimal(last) + q;
    let y = c + decimal(other_last) + q;
    assert(filter =~= p + (decimal(first) + x));
    assert(filter =~= p + (decimal(other_first) + y));
    assert(decimal(first) + x =~= filter.skip(p.len() as int));
    assert(decimal(other_first) + y =~= filter.skip(p.len() as int));
    law_numbers_are_digits(first);
    law_numbers_are_digits(other_first);
    law_numbers_are_digits(last);
    law_numbers_are_digits(other_last);
    lemma_digits_end(decimal(first), x, decimal(other_first), y);
    law_numbers_differ(first, other_first);
    assert(x =~= c + (decimal(last) + q));
    assert(y =~= c + (decimal(other_last) + q));
    assert(decimal(last) + q =~= x.skip(2));
    assert(decimal(other_last) + q =~= y.skip(2));
    lemma_digits_end(decimal(last), q, decimal(other_last), q);
    law_numbers_differ(last, other_last);
}

proof fn lemma_filter_selects(start: nat, end: nat, f: nat)
    requires
        end > 0,
    ensures
        selects(select_filter(start, end), f) <==> start <= f < end,
{
    let filter = select_filter(start, end);
    let last = (end - 1) as nat;
    assert(passes(filter, start, last));
    if selects(filter, f) {
        let (a, b) = choose|a: nat, b: nat| #[trigger] passes(filter, a, b) && a <= f <= b;
        law_filter_passes_one_range(filter, start, last, a, b);
    }
}

/// A segment is cut out frame by frame: the filter that `ffmpeg` gets lets exactly the
/// frames of the range pass, and none if there is none in it; they go through the standard
/// encoder into the file, with the options of the container in front of it.
pub proof fn law_segment_is_cut_frame_by_frame(
    input_file: &str,
    start_frame: u64,
    end_frame: u64,
    options: Vec<String>,
    temp_path: &str,
    r: Vec<String>,
    f: nat,
)
    requires
        end_frame > 0,
        call_ensures(segment_args, (input_file, start_frame, end_frame, &options, temp_path), r),
    ensures
        ({
            let a = texts(r@);
            &&& run_at(a, 0, seq!["-y"@, "-i"@, input_file@, "-vf"@])
            &&& passes(a[4], start_frame as nat, (end_frame - 1) as nat)
            &&& selects(a[4], f) <==> start_frame <= f < end_frame
            &&& run_at(a, 5, seq!["-vsync"@, "passthrough"@, "-an"@, "-sn"@, "-dn"@])
            &&& run_at(a, 10, seq!["-c:v"@, "libx264"@, "-preset"@, "medium"@, "-crf"@, "18"@])
            &&& run_at(a, 16, texts(options@))
            &&& a.last() == temp_path@
            &&& a.len() == 17 + options@.len()
        }),
{
    lemma_filter_selects(start_frame as nat, end_frame as nat, f);
    assert(texts(options@).len() == options@.len());
    assert(texts(r@)[4] == select_filter(start_frame as nat, end_frame as nat));
}

/// A segment is taken exactly if it has as many frames as its filter lets pass; else
/// it is told how many it should have and has.
pub proof fn law_segment_has_the_frames_of_its_range(
    stdout: Vec<u8>,
    start_frame: u64,
    end_frame: u64,
    r: Result<(), CutError>,
    read: Result<u64, ProbeError>,
)
    requires
        start_frame <= end_frame,
        call_ensures(check_frames, (stdout, start_frame, end_frame), r),
        call_ensures(read_count, (stdout,), read),
    ensures
        r is Ok <==> read is Ok && read->Ok_0 == end_frame - start_frame,
        r matches Err(e) ==> match read {
            Ok(n) => e matches CutError::Mismatch { expected, got } && expected == end_frame
                - start_frame && got == n,
            Err(p) => e matches CutError::Probe(q) && q@ == p@,
        },
{
}

/// The frames of a video are shared out evenly, one after the other: every client gets as
/// many as any other or one more, and of two clients the faster one no fewer, or the first
/// of them if they are equally fast.
pub proof fn law_work_is_shared_evenly(
    total_frames: u64,
    speeds: Vec<Fps>,
    r: Vec<FrameRange>,
    i: int,
    j: int,
)
    requires
        speeds.len() > 0,
        call_ensures(divide_frames, (total_frames, &speeds), r),
        0 <= i < speeds@.len(),
        0 <= j < speeds@.len(),
    ensures
        r@.len() == speeds@.len(),
        r@[0].start == 0,
        r@.last().end == total_frames,
        i + 1 < r@.len() ==> r@[i].end == r@[i + 1].start,
        total_frames as nat / speeds@.len() <= r@[i].end - r@[i].start,
        r@[i].end - r@[i].start <= total_frames as nat / speeds@.len() + 1,
        speeds@[i].bits > speeds@[j].bits || (speeds@[i].bits == speeds@[j].bits && i < j)
            ==> r@[i].end - r@[i].start >= r@[j].end - r@[j].start,
{
    let total = total_frames as nat;
    let want = frame_ranges(total, speeds@);
    law_ranges_cover_every_frame_once(total, speeds@);
    let got = crate::server::frames::bounds(r@);
    assert(got.len() == r@.len());
    assert forall|k: int| 0 <= k < r@.len() implies (#[trigger] r@[k]).start == want[k].0
        && r@[k].end == want[k].1 by {
        assert(got[k] == want[k]);
    }
    assert(want[i].1 - want[i].0 == crate::server::frames::share(total, speeds@, i));
    assert(want[j].1 - want[j].0 == crate::server::frames::share(total, speeds@, j));
    if speeds@[i].bits > speeds@[j].bits || (speeds@[i].bits == speeds@[j].bits && i < j) {
        crate::server::frames::lemma_rank_rises(speeds@, i, j);
    }
}

/// The filters of the clients' ranges share the video out: every frame of it passes
/// the filter of one client, and of no other.
pub proof fn law_filters_share_the_video_out(
    total_frames: u64,
    speeds: Vec<Fps>,
    r: Vec<FrameRange>,
    f: nat,
)
    requires
        speeds.len() > 0,
        call_ensures(divide_frames, (total_frames, &speeds), r),
    ensures
        r@.len() == speeds@.len(),
        f < total_frames ==> exists|i: int| 0 <= i < r@.len() && #[trigger] cuts(r@[i], f),
        forall|i: int, j: int|
            0 <= i < r@.len() && 0 <= j < r@.len() && #[trigger] cuts(r@[i], f)
                && #[trigger] cuts(r@[j], f) ==> i == j,
        forall|i: int| 0 <= i < r@.len() && #[trigger] cuts(r@[i], f) ==> f < total_frames,
{
    let want = frame_ranges(total_frames as nat, speeds@);
    law_ranges_cover_every_frame_once(total_frames as nat, speeds@);
    let got = crate::server::frames::bounds(r@);
    assert(got.len() == r@.len());
    assert forall|i: int| 0 <= i < r@.len() implies (#[trigger] r@[i]).start == want[i].0
        && r@[i].end == want[i].1 by {
        assert(got[i] == want[i]);
    }
    assert forall|i: int| 0 <= i < r@.len() implies (#[trigger] cuts(r@[i], f) <==> want[i].0 <= f
        < want[i].1) by {
        assert(r@[i].start == want[i].0);
        if r@[i].start < r@[i].end {
            lemma_filter_selects(r@[i].start as nat, r@[i].end as nat, f);
        }
    }
    if f < total_frames {
        assert(crate::server::frames::some_range_holds(want, f as int));
        let i = choose|i: int|
            0 <= i < want.len() && #[trigger] crate::server::frames::range_holds(want[i], f as int);
        assert(cuts(r@[i], f));
    }
    assert forall|i: int, j: int|
        0 <= i < r@.len() && 0 <= j < r@.len() && #[trigger] cuts(r@[i], f) && #[trigger] cuts(
            r@[j],
            f,
        ) implies i == j by {
        assert(crate::server::frames::range_holds(want[i], f as int));
        assert(crate::server::frames::range_holds(want[j], f as int));
    }
    assert forall|i: int| 0 <= i < r@.len() && #[trigger] cuts(r@[i], f) implies f
        < total_frames by {
        crate::server::frames::lemma_range_ends(total_frames as nat, speeds@);
        crate::server::frames::lemma_range_monotone(
            total_frames as nat,
            speeds@,
            i + 1,
            speeds@.len() as int,
        );
    }
}

/// The filter for a range lets a frame pass.
pub open spec fn cuts(range: FrameRange, f: nat) -> bool {
    range.start < range.end && selects(select_filter(range.start as nat, range.end as nat), f)
}

/// A sample is the start of the video, as long as the settings say, copied as it is.
pub proof fn law_sample_is_the_start_of_the_video(
    input_file: &str,
    duration: u32,
    options: Vec<String>,
    temp_path: &str,
    r: Vec<String>,
)
    requires
        call_ensures(sample_args, (input_file, duration, &options, temp_path), r),
    ensures
        ({
            let a = texts(r@);
            &&& run_at(a, 0, seq!["-y"@, "-i"@, input_file@, "-t"@])
            &&& a[4] == decimal(duration as nat)
            &&& run_at(a, 5, seq!["-c"@, "copy"@])
            &&& run_at(a, 7, texts(options@))
            &&& a.last() == temp_path@
            &&& a.len() == 8 + options@.len()
        }),
{
    assert(texts(options@).len() == options@.len());
}

/// A sample or a segment counts as made exactly if `ffmpeg` succeeded; else it is told
/// what that complained of.
pub proof fn law_failed_cut_is_told(
    output: ProcessOutput,
    sample: Result<(), CutError>,
    segment: Result<(), CutError>,
)
    requires
        call_ensures(check_sample, (&output,), sample),
        call_ensures(check_segment, (&output,), segment),
    ensures
        sample is Ok <==> output.success,
        segment is Ok <==> output.success,
        sample matches Err(e) ==> (e matches CutError::Sample(w) && w@
            == lossy_text(output.stderr@)),
        segment matches Err(e) ==> (e matches CutError::Segment(w) && w@
            == lossy_text(output.stderr@)),
{
}

/// What is told of a failure says what failed, and then why.
pub proof fn law_failed_cut_says_why(e: CutError, r: String, p: ProbeError, told: String)
    requires
        call_ensures(CutError::message, (&e,), r),
        call_ensures(ProbeError::message, (&p,), told),
    ensures
        match e {
            CutError::NotJson(w) => r@ == w@,
            CutError::Sample(w) => r@ == "Failed to create benchmark sample: "@ + w@,
            CutError::Segment(w) => r@ == "Failed to create segment: "@ + w@,
            CutError::Probe(q) => q@ == p@ ==> r@ == told@,
            CutError::Mismatch { expected, got } => r@ == "Frame count mismatch: expected "@
                + decimal(expected as nat) + " frames but got "@ + decimal(got as nat),
        },
{
}

/// The frame rate is the average one if that is known, else the other one; a rate that
/// is not told counts as none.
pub proof fn law_average_rate_is_preferred(
    base: Option<String>,
    average: Option<String>,
    r: String,
)
    requires
        call_ensures(choose_rate, (base, average), r),
    ensures
        average matches Some(a) && a@ != "0/0"@ ==> r@ == average->0@,
        (average is None || average->0@ == "0/0"@) && base is Some ==> r@ == base->0@,
        (average is None || average->0@ == "0/0"@) && base is None ==> r@ == "0/0"@,
{
}

/// The rates are those of the first video stream.
pub proof fn law_rates_are_those_of_the_first_stream(
    stdout: Vec<u8>,
    r: Result<String, CutError>,
    base: Option<String>,
    average: Option<String>,
    rate: String,
    file: &str,
    args: Vec<String>,
)
    requires
        call_ensures(read_rate, (&stdout,), r),
        call_ensures(choose_rate, (base, average), rate),
        call_ensures(rate_args, (file,), args),
    ensures
        ({
            let document = lossy_text(stdout@);
            let real_rate = json_text(document, "streams"@, 0, "r_frame_rate"@);
            let mean_rate = json_text(document, "streams"@, 0, "avg_frame_rate"@);
            &&& real_rate == Ok::<Option<Seq<char>>, Seq<char>>(opt_text(base)) && mean_rate
                == Ok::<Option<Seq<char>>, Seq<char>>(opt_text(average)) ==> r is Ok && r->Ok_0@ == rate@
            &&& r is Ok ==> real_rate is Ok && mean_rate is Ok
            &&& real_rate matches Err(w) ==> (r matches Err(CutError::NotJson(t)) && t@ == w)
            &&& real_rate is Ok ==> (mean_rate matches Err(w) ==> (r matches Err(
                CutError::NotJson(t),
            ) && t@ == w))
        }),
        crate::laws::lists::is_run(
            texts(args@),
            seq![
                "-v"@,
                "error"@,
                "-select_streams"@,
                "v:0"@,
                "-show_entries"@,
                "stream=r_frame_rate,avg_frame_rate"@,
                "-of"@,
                "json"@,
                file@,
            ],
        ),
{
}

/// The container goes by the first format that is named, whatever follows: MP4 and its
/// kin, Matroska and its kin, AVI, and MP4 for all others.
pub proof fn law_container_goes_by_the_first_format(
    first: Seq<char>,
    rest: Seq<char>,
    format: &str,
    r: (&'static str, Vec<&'static str>),
)
    requires
        call_ensures(SegmentManager::get_output_format, (format,), r),
        !first.contains(','),
        format@ == first || format@ == first.push(',') + rest,
    ensures
        ({
            let f = trimmed(first);
            let mp4 = has_part(f, "mov"@) || has_part(f, "mp4"@) || has_part(f, "m4a"@)
                || has_part(f, "3gp"@) || has_part(f, "mj2"@);
            let mkv = !mp4 && (has_part(f, "matroska"@) || has_part(f, "webm"@));
            let avi = !mp4 && !mkv && has_part(f, "avi"@);
            let options = r.1@.map_values(|s: &str| s@);
            &&& mkv ==> r.0@ == "mkv"@ && options == seq!["-f"@, "matroska"@]
            &&& avi ==> r.0@ == "avi"@ && options == seq!["-f"@, "avi"@]
            &&& !mkv && !avi ==> r.0@ == "mp4"@ && options == seq![
                "-f"@,
                "mp4"@,
                "-movflags"@,
                "+faststart"@,
            ]
        }),
{
    law_fields_of_two_texts(first, rest, ',');
    assert(fields(format@, ',')[0] == first);
}

/// The container's arguments, as texts.
pub open spec fn container_texts(options: Vec<&'static str>) -> Seq<Seq<char>> {
    options@.map_values(|s: &str| s@)
}

/// A segment is planned under a name that tells its first frame, a sample under one
/// that says what it is, both as files of the job's directory in the container of the
/// video; what was cut by the plan has the plan's name and container.
pub proof fn law_pieces_are_planned(
    m: SegmentManager,
    format: &str,
    start_frame: u64,
    unique: &str,
    name: String,
    segment: CutPlan,
    sample: CutPlan,
    container: (&'static str, Vec<&'static str>),
    data: Vec<u8>,
    piece: SegmentData,
)
    requires
        m.wf(),
        call_ensures(SegmentManager::plan_segment_as, (&m, format, start_frame, unique), segment),
        call_ensures(SegmentManager::plan_sample_as, (&m, format, unique), sample),
        call_ensures(name_segment, (start_frame, unique), name),
        call_ensures(SegmentManager::get_output_format, (format,), container),
        call_ensures(CutPlan::finish, (segment, data), piece),
    ensures
        name@ == "segment_"@ + decimal(start_frame as nat) + "_"@ + unique@,
        segment.id@ == name@,
        sample.id@ == "benchmark_"@ + unique@,
        segment.ext@ == container.0@ && sample.ext@ == container.0@,
        texts(segment.options@) == container_texts(container.1),
        texts(sample.options@) == container_texts(container.1),
        segment.temp_file@ == seq![
            "work"@,
            "server"@,
            m@.job_id,
            name@ + "."@ + container.0@,
        ],
        sample.temp_file@ == seq![
            "work"@,
            "server"@,
            m@.job_id,
            "benchmark_"@ + unique@ + "."@ + container.0@,
        ],
        piece@.data == data@ && piece@.format == segment.ext@ && piece@.segment_id == segment.id@,
{
    assert(segment.temp_file@ =~= seq![
        "work"@,
        "server"@,
        m@.job_id,
        name@ + "."@ + container.0@,
    ]);
    assert(sample.temp_file@ =~= seq![
        "work"@,
        "server"@,
        m@.job_id,
        "benchmark_"@ + unique@ + "."@ + container.0@,
    ]);
}

/// A segment that is to be counted is written to a file that is named for it, and its
/// frames are those that `ffprobe` printed, if it succeeded.
pub proof fn law_segment_is_counted(
    temp_dir: PathParts,
    unique: &str,
    file: PathParts,
    output: ProcessOutput,
    r: Result<u64, ProbeError>,
    read: Result<u64, ProbeError>,
)
    requires
        call_ensures(SegmentManager::verify_file_as, (&temp_dir, unique), file),
        call_ensures(SegmentManager::verify_segment, (output,), r),
        call_ensures(read_count, (output.stdout,), read),
    ensures
        file@ == temp_dir@.push("verify_"@ + unique@ + ".tmp"@),
        !output.success ==> r matches Err(ProbeError::Verify),
        output.success && read is Ok ==> r is Ok && r->Ok_0 == read->Ok_0,
        output.success && read is Err ==> r is Err && r->Err_0@ == read->Err_0@,
{
}

/// A piece that is planned under a random name is planned as any other.
pub proof fn law_every_piece_is_planned(
    m: SegmentManager,
    format: &str,
    start_frame: u64,
    segment: CutPlan,
    sample: CutPlan,
    container: (&'static str, Vec<&'static str>),
    temp_dir: PathParts,
    file: PathParts,
)
    requires
        m.wf(),
        call_ensures(SegmentManager::plan_segment, (&m, format, start_frame), segment),
        call_ensures(SegmentManager::plan_sample, (&m, format), sample),
        call_ensures(SegmentManager::get_output_format, (format,), container),
        call_ensures(SegmentManager::verify_file, (&temp_dir,), file),
    ensures
        exists|u: Seq<char>| #[trigger]
            crate::outside::is_uuid(u) && segment.id@ == "segment_"@ + decimal(start_frame as nat)
                + "_"@ + u,
        exists|u: Seq<char>| #[trigger]
            crate::outside::is_uuid(u) && sample.id@ == "benchmark_"@ + u,
        segment.ext@ == container.0@ && sample.ext@ == container.0@,
        texts(segment.options@) == container_texts(container.1),
        texts(sample.options@) == container_texts(container.1),
        segment.temp_file@ == seq![
            "work"@,
            "server"@,
            m@.job_id,
            segment.id@ + "."@ + container.0@,
        ],
        sample.temp_file@ == seq![
            "work"@,
            "server"@,
            m@.job_id,
            sample.id@ + "."@ + container.0@,
        ],
        exists|u: Seq<char>| #[trigger]
            crate::outside::is_uuid(u) && file@ == temp_dir@.push("verify_"@ + u + ".tmp"@),
{
    assert(segment.temp_file@ =~= seq![
        "work"@,
        "server"@,
        m@.job_id,
        segment.id@ + "."@ + container.0@,
    ]);
    assert(sample.temp_file@ =~= seq![
        "work"@,
        "server"@,
        m@.job_id,
        sample.id@ + "."@ + container.0@,
    ]);
}

} // verus!
