//! Laws on how a client encodes.

use crate::client::ffmpeg::{
    check_run, choose_encoder, detect_hw_encoder, is_hevc, needs_listing, read_codec, segment_ext,
    BenchmarkFiles, EncodeError, EncodeRun, FfmpegProcessor, HwAccel, HwEncoder, Platform, Purpose,
    SegmentFiles, SegmentPaths,
};
use crate::laws::lists::{is_run, run_at};
use crate::laws::texts::law_fields_of_two_texts;
use crate::models::capabilities::EncoderCapabilities;
use crate::outside::lossy_text;
use crate::path::PathParts;
use crate::probe::{read_count, ProbeError, ProcessOutput};
use crate::text::{fields, has_part, texts, trimmed};
use vstd::prelude::*;

verus! {

/// How many arguments name the input, prepare the hardware and choose the encoder.
pub open spec fn encoder_width(encoder: HwEncoder) -> int {
    match encoder {
        HwEncoder::Videotoolbox => 13,
        HwEncoder::Nvenc => 11,
        HwEncoder::Vaapi => 13,
        HwEncoder::QuickSync => 15,
        HwEncoder::Amf => 9,
        HwEncoder::Software => 13,
    }
}

/// The arguments start with the input, prepare the hardware, and choose the encoder.
pub open spec fn encodes(args: Seq<Seq<char>>, encoder: HwEncoder, input: Seq<char>) -> bool {
    &&& run_at(args, 0, seq!["-y"@, "-i"@, input])
    &&& match encoder {
        HwEncoder::Videotoolbox => {
            &&& run_at(
                args,
                3,
                seq!["-init_hw_device"@, "videotoolbox=vt"@, "-filter_hw_device"@, "vt"@],
            )
            &&& run_at(args, 7, seq!["-c:v"@, "h264_videotoolbox"@])
            &&& run_at(args, 9, seq!["-profile:v"@, "high"@, "-b:v"@, "2M"@])
        },
        HwEncoder::Nvenc => {
            &&& run_at(args, 3, seq!["-c:v"@, "h264_nvenc"@])
            &&& run_at(args, 5, seq!["-profile:v"@, "high"@, "-b:v"@, "2M"@])
            &&& run_at(args, 9, seq!["-preset"@, "p4"@])
        },
        HwEncoder::Vaapi => {
            &&& run_at(
                args,
                3,
                seq!["-vaapi_device"@, "/dev/dri/renderD128"@, "-vf"@, "format=nv12,hwupload"@],
            )
            &&& run_at(args, 7, seq!["-c:v"@, "h264_vaapi"@])
            &&& run_at(args, 9, seq!["-profile:v"@, "high"@, "-b:v"@, "2M"@])
        },
        HwEncoder::QuickSync => {
            &&& run_at(args, 3, seq!["-init_hw_device"@, "qsv=hw"@, "-filter_hw_device"@, "hw"@])
            &&& run_at(args, 7, seq!["-c:v"@, "h264_qsv"@])
            &&& run_at(args, 9, seq!["-profile:v"@, "high"@, "-b:v"@, "2M"@])
            &&& run_at(args, 13, seq!["-preset"@, "faster"@])
        },
        HwEncoder::Amf => {
            &&& run_at(args, 3, seq!["-c:v"@, "h264_amf"@])
            &&& run_at(args, 5, seq!["-profile:v"@, "high"@, "-b:v"@, "2M"@])
        },
        HwEncoder::Software => {
            &&& run_at(args, 3, seq!["-c:v"@, "libx264"@])
            &&& run_at(args, 5, seq!["-profile:v"@, "high"@, "-b:v"@, "2M"@])
            &&& run_at(args, 9, seq!["-preset"@, "fast"@, "-crf"@, "23"@])
        },
    }
}

/// A benchmark encodes its input with the client's encoder, with the hardware
/// prepared for it, then takes the parameters that it was given, and writes its
/// output.
pub proof fn law_benchmark_encodes_with_the_hardware(
    p: FfmpegProcessor,
    input: &str,
    params: Vec<String>,
    output: &str,
    r: Vec<String>,
)
    requires
        call_ensures(FfmpegProcessor::benchmark_args, (&p, input, &params, output), r),
    ensures
        encodes(texts(r@), p.encoder(), input@),
        run_at(texts(r@), encoder_width(p.encoder()), texts(params@)),
        texts(r@).last() == output@,
        r@.len() == encoder_width(p.encoder()) + params@.len() + 1,
{
    assert(texts(r@).len() == r@.len());
    assert(texts(params@).len() == params@.len());
}

/// A segment is encoded with the client's encoder, with the hardware prepared for
/// it, then with the parameters of the job, into the container that it came in. An
/// MP4 file can be streamed.
pub proof fn law_segment_is_encoded_with_the_hardware(
    p: FfmpegProcessor,
    input: &str,
    ext: &str,
    params: Vec<String>,
    output: &str,
    r: Vec<String>,
)
    requires
        call_ensures(FfmpegProcessor::segment_args, (&p, input, ext, &params, output), r),
    ensures
        ({
            let a = texts(r@);
            let from = encoder_width(p.encoder());
            let to = from + params@.len();
            &&& encodes(a, p.encoder(), input@)
            &&& run_at(a, from, texts(params@))
            &&& ext@ == "mp4"@ ==> a.len() == to + 5 && run_at(
                a,
                to,
                seq![
                    "-movflags"@,
                    "+faststart+frag_keyframe+empty_moov"@,
                    "-f"@,
                    "mp4"@,
                    output@,
                ],
            )
            &&& ext@ == "mkv"@ ==> a.len() == to + 3 && run_at(
                a,
                to,
                seq!["-f"@, "matroska"@, output@],
            )
            &&& ext@ == "avi"@ ==> a.len() == to + 3 && run_at(
                a,
                to,
                seq!["-f"@, "avi"@, output@],
            )
            &&& ext@ != "mp4"@ && ext@ != "mkv"@ && ext@ != "avi"@ ==> a.len() == to + 3
                && run_at(a, to, seq!["-f"@, "mp4"@, output@])
        }),
{
    reveal_strlit("mp4");
    reveal_strlit("mkv");
    reveal_strlit("avi");
    assert("mp4"@[1] == 'p' && "mkv"@[1] == 'k' && "avi"@[1] == 'v');
    assert(texts(r@).len() == r@.len());
    assert(texts(params@).len() == params@.len());
}

/// A raw stream is encoded with the client's encoder, with the hardware prepared for
/// it, then with what suits the container, and then with the parameters of the job.
pub proof fn law_raw_stream_is_encoded_with_the_hardware(
    p: FfmpegProcessor,
    raw: &str,
    ext: &str,
    params: Vec<String>,
    output: &str,
    r: Vec<String>,
)
    requires
        call_ensures(FfmpegProcessor::raw_args, (&p, raw, ext, &params, output), r),
    ensures
        ({
            let a = texts(r@);
            let at = encoder_width(p.encoder());
            let suits = if ext@ == "mp4"@ || ext@ == "mkv"@ {
                2int
            } else {
                0
            };
            &&& encodes(a, p.encoder(), raw@)
            &&& ext@ == "mp4"@ ==> run_at(
                a,
                at,
                seq!["-movflags"@, "+faststart+frag_keyframe+empty_moov"@],
            )
            &&& ext@ == "mkv"@ ==> run_at(a, at, seq!["-cluster_size_limit"@, "2M"@])
            &&& run_at(a, at + suits, texts(params@))
            &&& a.len() == at + suits + params@.len() + 1
            &&& a.last() == output@
        }),
{
    reveal_strlit("mp4");
    reveal_strlit("mkv");
    assert("mp4"@[1] == 'p' && "mkv"@[1] == 'k');
    assert(texts(r@).len() == r@.len());
    assert(texts(params@).len() == params@.len());
}

/// The raw stream is taken out of an HEVC video as it is.
pub proof fn law_raw_stream_is_copied(p: FfmpegProcessor, input: &str, raw: &str, r: Vec<String>)
    requires
        call_ensures(FfmpegProcessor::extract_args, (&p, input, raw), r),
    ensures
        is_run(
            texts(r@),
            seq![
                "-y"@,
                "-i"@,
                input@,
                "-c:v"@,
                "copy"@,
                "-bsf:v"@,
                "hevc_mp4toannexb"@,
                "-f"@,
                "hevc"@,
                raw@,
            ],
        ),
{
}

/// A segment is encoded from its input to its output in one run, but for an HEVC
/// one, whose raw stream is taken out first and encoded then.
pub proof fn law_hevc_takes_two_runs(
    p: FfmpegProcessor,
    codec: &str,
    files: SegmentPaths,
    input: &str,
    raw: &str,
    output: &str,
    ext: &str,
    params: Vec<String>,
    r: Vec<EncodeRun>,
    extract: Vec<String>,
    encode_raw: Vec<String>,
    encode: Vec<String>,
)
    requires
        call_ensures(FfmpegProcessor::encode_runs, (&p, codec, &files, ext, &params), r),
        files.input@ == input@,
        files.raw@ == raw@,
        files.output@ == output@,
        call_ensures(FfmpegProcessor::extract_args, (&p, input, raw), extract),
        call_ensures(FfmpegProcessor::raw_args, (&p, raw, ext, &params, output), encode_raw),
        call_ensures(FfmpegProcessor::segment_args, (&p, input, ext, &params, output), encode),
    ensures
        codec@ == "hevc"@ || codec@ == "h265"@ ==> {
            &&& r@.len() == 2
            &&& r@[0].purpose == Purpose::Extraction && texts(r@[0].args@) == texts(extract@)
            &&& r@[1].purpose == Purpose::RawEncoding && texts(r@[1].args@) == texts(encode_raw@)
        },
        codec@ != "hevc"@ && codec@ != "h265"@ ==> {
            &&& r@.len() == 1
            &&& r@[0].purpose == Purpose::Encoding && texts(r@[0].args@) == texts(encode@)
        },
{
    let views = crate::client::ffmpeg::run_views(r@);
    assert(views.len() == r@.len());
    assert(views[0] == (r@[0].purpose, texts(r@[0].args@)));
    if codec@ == "hevc"@ || codec@ == "h265"@ {
        assert(views[1] == (r@[1].purpose, texts(r@[1].args@)));
    }
}

/// A codec is HEVC under either of its names, as `ffprobe` printed it between white
/// space.
pub proof fn law_hevc_has_two_names(codec: &str, r: bool, stdout: Vec<u8>, read: String)
    requires
        call_ensures(is_hevc, (codec,), r),
        call_ensures(read_codec, (&stdout,), read),
    ensures
        r <==> codec@ == "hevc"@ || codec@ == "h265"@,
        read@ == trimmed(lossy_text(stdout@)),
{
}

/// The encoder that is used is the one that the user wants, or of all the first that
/// is there, in a fixed order; a macOS encoder is there on macOS only, a Linux one on
/// Linux only, and none that `ffmpeg` does not list. Else it is the software one.
pub proof fn law_encoder_is_chosen(
    preferred: HwAccel,
    listing: &str,
    platform: Platform,
    r: HwEncoder,
    unlisted: HwEncoder,
)
    requires
        call_ensures(choose_encoder, (preferred, Some(listing), platform), r),
        call_ensures(choose_encoder, (preferred, None::<&str>, platform), unlisted),
    ensures
        unlisted == HwEncoder::Software,
        ({
            let vt = platform == Platform::Macos && has_part(listing@, "h264_videotoolbox"@);
            let nvenc = has_part(listing@, "h264_nvenc"@);
            let vaapi = platform == Platform::Linux && has_part(listing@, "h264_vaapi"@);
            let qsv = has_part(listing@, "h264_qsv"@);
            let amf = has_part(listing@, "h264_amf"@);
            match preferred {
                HwAccel::Software => r == HwEncoder::Software,
                HwAccel::Nvenc => r == if nvenc {
                    HwEncoder::Nvenc
                } else {
                    HwEncoder::Software
                },
                HwAccel::Qsv => r == if qsv {
                    HwEncoder::QuickSync
                } else {
                    HwEncoder::Software
                },
                HwAccel::Vaapi => r == if vaapi {
                    HwEncoder::Vaapi
                } else {
                    HwEncoder::Software
                },
                HwAccel::Videotoolbox => r == if vt {
                    HwEncoder::Videotoolbox
                } else {
                    HwEncoder::Software
                },
                HwAccel::Amf => r == if amf {
                    HwEncoder::Amf
                } else {
                    HwEncoder::Software
                },
                HwAccel::Auto => {
                    &&& r == HwEncoder::Videotoolbox <==> vt
                    &&& r == HwEncoder::Nvenc <==> !vt && nvenc
                    &&& r == HwEncoder::Vaapi <==> !vt && !nvenc && vaapi
                    &&& r == HwEncoder::QuickSync <==> !vt && !nvenc && !vaapi && qsv
                    &&& r == HwEncoder::Amf <==> !vt && !nvenc && !vaapi && !qsv && amf
                    &&& r == HwEncoder::Software <==> !vt && !nvenc && !vaapi && !qsv && !amf
                },
            }
        }),
{
}

/// The encoder is detected from what `ffmpeg` printed, or is the software one if it
/// could not be run; it is asked unless the user wants no hardware.
pub proof fn law_encoder_is_detected(
    preferred: HwAccel,
    stdout: Vec<u8>,
    listing: &str,
    platform: Platform,
    detected: HwEncoder,
    chosen: HwEncoder,
    blind: HwEncoder,
    asked: bool,
)
    requires
        call_ensures(detect_hw_encoder, (preferred, Some(stdout), platform), detected),
        call_ensures(choose_encoder, (preferred, Some(listing), platform), chosen),
        listing@ == lossy_text(stdout@),
        call_ensures(detect_hw_encoder, (preferred, None::<Vec<u8>>, platform), blind),
        call_ensures(needs_listing, (preferred,), asked),
    ensures
        detected == chosen,
        blind == HwEncoder::Software,
        asked <==> preferred != HwAccel::Software,
{
}

/// The container of a segment is the first that its format names, whatever follows,
/// and without the white space around it.
pub proof fn law_container_is_the_first_named(
    first: Seq<char>,
    rest: Seq<char>,
    format: &str,
    r: String,
)
    requires
        call_ensures(segment_ext, (format,), r),
        !first.contains(','),
        format@ == first || format@ == first.push(',') + rest,
    ensures
        r@ == trimmed(first),
{
    law_fields_of_two_texts(first, rest, ',');
    assert(fields(format@, ',')[0] == first);
}

/// A run counts as done exactly if it succeeded; else it is told what it was for and
/// what `ffmpeg` complained of.
pub proof fn law_failed_run_is_told(
    purpose: Purpose,
    output: ProcessOutput,
    r: Result<(), EncodeError>,
)
    requires
        call_ensures(check_run, (purpose, &output), r),
    ensures
        r is Ok <==> output.success,
        r matches Err(e) ==> (e matches EncodeError::Failed(p, w) && p == purpose && w@
            == lossy_text(output.stderr@)),
{
}

/// What is told of a failure says what was tried, and then why.
pub proof fn law_failure_says_what_was_tried(e: EncodeError, r: String)
    requires
        call_ensures(EncodeError::message, (&e,), r),
    ensures
        match e {
            EncodeError::NotRun => r@ == "Failed to execute FFmpeg command"@,
            EncodeError::Failed(Purpose::Benchmark, w) => r@ == "FFmpeg benchmark failed: "@ + w@,
            EncodeError::Failed(Purpose::Extraction, w) => r@ == "HEVC extraction failed: "@ + w@,
            EncodeError::Failed(Purpose::RawEncoding, w) => r@ == "FFmpeg encoding failed: "@ + w@,
            EncodeError::Failed(Purpose::Encoding, w) => r@ == "FFmpeg processing failed: "@ + w@,
            EncodeError::Unreadable(w) => r@ == "Failed to read output file: "@ + w@,
        },
{
}

/// The frames of what was encoded are those that `ffprobe` printed, if it succeeded.
pub proof fn law_encoded_frames_are_counted(
    output: ProcessOutput,
    r: Result<u64, ProbeError>,
    read: Result<u64, ProbeError>,
)
    requires
        call_ensures(FfmpegProcessor::get_frame_count, (output,), r),
        call_ensures(read_count, (output.stdout,), read),
    ensures
        !output.success ==> r matches Err(ProbeError::FrameCount),
        output.success && read is Ok ==> r is Ok && r->Ok_0 == read->Ok_0,
        output.success && read is Err ==> r is Err && r->Err_0@ == read->Err_0@,
{
}

/// Each client works in a directory of its own, and encodes with the encoder that was
/// found for it.
pub proof fn law_client_works_in_its_directory(
    client_id: &str,
    hw_encoder: HwEncoder,
    p: FfmpegProcessor,
    format: &str,
    b: BenchmarkFiles,
)
    requires
        call_ensures(FfmpegProcessor::new, (client_id, hw_encoder), p),
        call_ensures(FfmpegProcessor::benchmark_files, (&p, format), b),
    ensures
        p.encoder() == hw_encoder,
        b.dir@ == seq!["work"@, "client"@, client_id@, "benchmark"@],
        b.input@ == b.dir@.push("benchmark_input."@ + format@),
        b.output@ == b.dir@.push("benchmark_output."@ + format@),
{
    assert(b.dir@ =~= seq!["work"@, "client"@, client_id@, "benchmark"@]);
}

/// The files of a segment lie in a directory of its own, have the extension of its
/// container, and are three.
pub proof fn law_segment_has_its_files(
    p: FfmpegProcessor,
    id: &str,
    format: &str,
    files: SegmentFiles,
    ext: String,
)
    requires
        call_ensures(FfmpegProcessor::segment_files_as, (&p, id, format), files),
        call_ensures(segment_ext, (format,), ext),
    ensures
        files.ext@ == ext@,
        files.dir@ == p.work_dir().push("segment_"@ + id@),
        files.input@ == files.dir@.push("input."@ + ext@),
        files.output@ == files.dir@.push("output."@ + ext@),
        files.raw@ == files.dir@.push("intermediate.h265"@),
        files.input@ != files.output@ && files.input@ != files.raw@ && files.output@ != files.raw@,
{
    reveal_strlit("input.");
    reveal_strlit("output.");
    reveal_strlit("intermediate.h265");
    let i = "input."@ + ext@;
    let o = "output."@ + ext@;
    assert(i[0] == 'i' && o[0] == 'o' && "intermediate.h265"@[0] == 'i');
    assert(i[2] == 'p' && "intermediate.h265"@[2] == 't');
    assert(files.input@.last() == i);
    assert(files.output@.last() == o);
    assert(files.raw@.last() == "intermediate.h265"@);
}

/// The server is told of the encoder that is used, and of no other.
pub proof fn law_capabilities_name_the_encoder(p: FfmpegProcessor, r: EncoderCapabilities)
    requires
        call_ensures(FfmpegProcessor::get_capabilities, (&p,), r),
    ensures
        r.has_nvenc <==> p.encoder() == HwEncoder::Nvenc,
        r.has_qsv <==> p.encoder() == HwEncoder::QuickSync,
        r.has_vaapi <==> p.encoder() == HwEncoder::Vaapi,
        r.has_videotoolbox <==> p.encoder() == HwEncoder::Videotoolbox,
        r.has_amf <==> p.encoder() == HwEncoder::Amf,
        r.selected_encoder is Nvenc <==> r.has_nvenc,
        r.selected_encoder is QuickSync <==> r.has_qsv,
        r.selected_encoder is Vaapi <==> r.has_vaapi,
        r.selected_encoder is Videotoolbox <==> r.has_videotoolbox,
        r.selected_encoder is Amf <==> r.has_amf,
{
}

/// An encoder can be used exactly if its platform is there and `ffmpeg` lists it under its
/// name.
pub proof fn law_encoders_have_names(
    e: HwEncoder,
    name: &'static str,
    listing: &str,
    platform: Platform,
    r: bool,
)
    requires
        call_ensures(HwEncoder::name, (e,), name),
        call_ensures(HwEncoder::available, (e, listing, platform), r),
    ensures
        match e {
            HwEncoder::Videotoolbox => name@ == "h264_videotoolbox"@,
            HwEncoder::Nvenc => name@ == "h264_nvenc"@,
            HwEncoder::Vaapi => name@ == "h264_vaapi"@,
            HwEncoder::QuickSync => name@ == "h264_qsv"@,
            HwEncoder::Amf => name@ == "h264_amf"@,
            HwEncoder::Software => name@ == "libx264"@,
        },
        r <==> {
            &&& has_part(listing@, name@)
            &&& e == HwEncoder::Videotoolbox ==> platform == Platform::Macos
            &&& e == HwEncoder::Vaapi ==> platform == Platform::Linux
        },
{
}

/// What prepares the hardware and what chooses the encoder stand in a benchmark's
/// arguments behind its input, one behind the other, and the parameters follow.
pub proof fn law_encoder_has_its_arguments(
    p: FfmpegProcessor,
    hardware: Vec<String>,
    choice: Vec<String>,
    input: &str,
    params: Vec<String>,
    output: &str,
    r: Vec<String>,
)
    requires
        call_ensures(FfmpegProcessor::get_hw_encoding_params, (&p,), hardware),
        call_ensures(FfmpegProcessor::get_default_encoding_params, (&p,), choice),
        call_ensures(FfmpegProcessor::benchmark_args, (&p, input, &params, output), r),
    ensures
        run_at(texts(r@), 3, texts(hardware@)),
        run_at(texts(r@), 3int + hardware@.len(), texts(choice@)),
        3 + hardware@.len() + choice@.len() == encoder_width(p.encoder()),
        texts(hardware@).len() == match p.encoder() {
            HwEncoder::Videotoolbox | HwEncoder::Vaapi | HwEncoder::QuickSync => 4,
            _ => 0nat,
        },
{
    assert(texts(hardware@).len() == hardware@.len());
    assert(texts(choice@).len() == choice@.len());
    assert(texts(r@).len() == r@.len());
}

/// A client that was not told otherwise encodes without hardware.
pub proof fn law_no_hardware_at_first(
    e: crate::models::capabilities::HwEncoder,
    c: EncoderCapabilities,
)
    requires
        call_ensures(<crate::models::capabilities::HwEncoder as Default>::default, (), e),
        call_ensures(<EncoderCapabilities as Default>::default, (), c),
    ensures
        e is Software,
        c.selected_encoder is Software,
        !c.has_nvenc && !c.has_qsv && !c.has_vaapi && !c.has_videotoolbox && !c.has_amf,
{
}

/// The files of a segment whose directory has a random name are as those of any other.
pub proof fn law_every_segment_has_its_files(
    client_id: &str,
    hw_encoder: HwEncoder,
    p: FfmpegProcessor,
    dir: PathParts,
    format: &str,
    files: SegmentFiles,
    ext: String,
)
    requires
        call_ensures(FfmpegProcessor::new, (client_id, hw_encoder), p),
        call_ensures(FfmpegProcessor::get_work_dir, (&p,), dir),
        call_ensures(FfmpegProcessor::segment_files, (&p, format), files),
        call_ensures(segment_ext, (format,), ext),
    ensures
        dir@ == seq!["work"@, "client"@, client_id@],
        files.ext@ == ext@,
        exists|id: Seq<char>| #[trigger]
            crate::outside::is_uuid(id) && files.dir@ == dir@.push("segment_"@ + id),
        files.input@ == files.dir@.push("input."@ + ext@),
        files.output@ == files.dir@.push("output."@ + ext@),
        files.raw@ == files.dir@.push("intermediate.h265"@),
{
    assert(dir@ =~= seq!["work"@, "client"@, client_id@]);
}

} // verus!
