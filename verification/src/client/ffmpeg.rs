//! How a client encodes: which encoder it uses, and what it has `ffmpeg` do.

use crate::models::capabilities::EncoderCapabilities;
use crate::outside::{is_uuid, lossy_text, new_uuid};
use crate::path::PathParts;
use crate::probe::{
    count_result, printed, printed_count, read_count, ProbeError, ProbeErrorView, ProcessOutput,
};
use crate::text::{
    both_lists, contains, copy_list, fields, has_part, lemma_fields_nonempty, opt_str, same, split,
    strings, texts, trim, trimmed,
};
use vstd::prelude::*;
use vstd::string::*;

verus! {

/// Which hardware the user wants to encode with.
#[derive(Clone, Copy, Debug, PartialEq, Eq, Structural)]
pub enum HwAccel {
    /// The first that is found.
    Auto,
    /// None at all.
    Software,
    Nvenc,
    Qsv,
    Vaapi,
    Videotoolbox,
    Amf,
}

/// The encoder that is used.
#[derive(Clone, Copy, Debug, PartialEq, Eq, Structural)]
pub enum HwEncoder {
    /// macOS.
    Videotoolbox,
    /// NVIDIA.
    Nvenc,
    /// Intel or AMD on Linux.
    Vaapi,
    /// Intel.
    QuickSync,
    /// AMD.
    Amf,
    /// The software encoder.
    Software,
}

/// The system that the client runs on.
#[derive(Clone, Copy, Debug, PartialEq, Eq, Structural)]
pub enum Platform {
    Linux,
    Macos,
    Other,
}

impl HwEncoder {
    /// The name under which `ffmpeg` knows the encoder.
    pub open spec fn spec_name(self) -> Seq<char> {
        match self {
            HwEncoder::Videotoolbox => "h264_videotoolbox"@,
            HwEncoder::Nvenc => "h264_nvenc"@,
            HwEncoder::Vaapi => "h264_vaapi"@,
            HwEncoder::QuickSync => "h264_qsv"@,
            HwEncoder::Amf => "h264_amf"@,
            HwEncoder::Software => "libx264"@,
        }
    }

    /// The system can use the encoder.
    pub open spec fn runs_on(self, platform: Platform) -> bool {
        match self {
            HwEncoder::Videotoolbox => platform == Platform::Macos,
            HwEncoder::Vaapi => platform == Platform::Linux,
            _ => true,
        }
    }

    /// The system can use the encoder, and `ffmpeg` lists it.
    pub open spec fn is_available(self, listing: Seq<char>, platform: Platform) -> bool {
        self.runs_on(platform) && has_part(listing, self.spec_name())
    }

    /// The name under which `ffmpeg` knows the encoder.
    pub fn name(self) -> (r: &'static str)
        ensures
            r@ == self.spec_name(),
    {
        match self {
            HwEncoder::Videotoolbox => "h264_videotoolbox",
            HwEncoder::Nvenc => "h264_nvenc",
            HwEncoder::Vaapi => "h264_vaapi",
            HwEncoder::QuickSync => "h264_qsv",
            HwEncoder::Amf => "h264_amf",
            HwEncoder::Software => "libx264",
        }
    }

    /// Whether the system can use the encoder, and `ffmpeg` lists it.
    pub fn available(self, listing: &str, platform: Platform) -> (r: bool)
        ensures
            r == self.is_available(listing@, platform),
    {
        let runs = match self {
            HwEncoder::Videotoolbox => platform == Platform::Macos,
            HwEncoder::Vaapi => platform == Platform::Linux,
            _ => true,
        };
        runs && contains(listing, self.name())
    }
}

/// `encoder` if it is available, else the software encoder.
pub open spec fn if_available(
    encoder: HwEncoder,
    listing: Seq<char>,
    platform: Platform,
) -> HwEncoder {
    if encoder.is_available(listing, platform) {
        encoder
    } else {
        HwEncoder::Software
    }
}

/// The encoder that is used, `listing` being what `ffmpeg` lists, if it could
/// be run.
pub open spec fn encoder_for(
    preferred: HwAccel,
    listing: Option<Seq<char>>,
    platform: Platform,
) -> HwEncoder {
    match listing {
        None => HwEncoder::Software,
        Some(l) => match preferred {
            HwAccel::Software => HwEncoder::Software,
            HwAccel::Nvenc => if_available(HwEncoder::Nvenc, l, platform),
            HwAccel::Qsv => if_available(HwEncoder::QuickSync, l, platform),
            HwAccel::Vaapi => if_available(HwEncoder::Vaapi, l, platform),
            HwAccel::Videotoolbox => if_available(HwEncoder::Videotoolbox, l, platform),
            HwAccel::Amf => if_available(HwEncoder::Amf, l, platform),
            HwAccel::Auto => if HwEncoder::Videotoolbox.is_available(l, platform) {
                HwEncoder::Videotoolbox
            } else if HwEncoder::Nvenc.is_available(l, platform) {
                HwEncoder::Nvenc
            } else if HwEncoder::Vaapi.is_available(l, platform) {
                HwEncoder::Vaapi
            } else if HwEncoder::QuickSync.is_available(l, platform) {
                HwEncoder::QuickSync
            } else {
                if_available(HwEncoder::Amf, l, platform)
            },
        },
    }
}

/// Whether `ffmpeg` is to be asked for its encoders: not when the user wants
/// no hardware.
pub fn needs_listing(preferred: HwAccel) -> (r: bool)
    ensures
        r == (preferred != HwAccel::Software),
{
    preferred != HwAccel::Software
}

/// The encoder that is used, `listing` being what `ffmpeg` lists, if it could
/// be run.
pub fn choose_encoder(preferred: HwAccel, listing: Option<&str>, platform: Platform) -> (r:
    HwEncoder)
    ensures
        r == encoder_for(preferred, opt_str(listing), platform),
{
    let l = match listing {
        None => {
            return HwEncoder::Software;
        },
        Some(l) => l,
    };
    let wanted = match preferred {
        HwAccel::Software => {
            return HwEncoder::Software;
        },
        HwAccel::Nvenc => HwEncoder::Nvenc,
        HwAccel::Qsv => HwEncoder::QuickSync,
        HwAccel::Vaapi => HwEncoder::Vaapi,
        HwAccel::Videotoolbox => HwEncoder::Videotoolbox,
        HwAccel::Amf => HwEncoder::Amf,
        HwAccel::Auto => {
            if HwEncoder::Videotoolbox.available(l, platform) {
                return HwEncoder::Videotoolbox;
            }
            if HwEncoder::Nvenc.available(l, platform) {
                return HwEncoder::Nvenc;
            }
            if HwEncoder::Vaapi.available(l, platform) {
                return HwEncoder::Vaapi;
            }
            if HwEncoder::QuickSync.available(l, platform) {
                return HwEncoder::QuickSync;
            }
            HwEncoder::Amf
        },
    };
    if wanted.available(l, platform) {
        wanted
    } else {
        HwEncoder::Software
    }
}

/// The text of what was printed, if anything was.
pub open spec fn lossy_listing(stdout: Option<Vec<u8>>) -> Option<Seq<char>> {
    match stdout {
        Some(b) => Some(lossy_text(b@)),
        None => None,
    }
}

/// The encoder that is used, `stdout` being what `ffmpeg` printed when asked
/// for its encoders, if it could be run.
pub fn detect_hw_encoder(preferred: HwAccel, stdout: Option<Vec<u8>>, platform: Platform) -> (r:
    HwEncoder)
    ensures
        r == encoder_for(preferred, lossy_listing(stdout), platform),
{
    match stdout {
        Some(bytes) => choose_encoder(preferred, Some(printed(&bytes).as_str()), platform),
        None => choose_encoder(preferred, None, platform),
    }
}

/// Hardware is used only where it is there: an encoder other than the
/// software one runs on the platform and is listed by `ffmpeg`.
pub proof fn law_encoder_is_there(
    preferred: HwAccel,
    listing: Option<Seq<char>>,
    platform: Platform,
)
    ensures
        ({
            let e = encoder_for(preferred, listing, platform);
            e != HwEncoder::Software ==> listing is Some && e.is_available(listing->0, platform)
        }),
{
}

/// A user who wants no hardware gets none, and one who names hardware gets
/// that or none.
pub proof fn law_preference_is_kept(listing: Option<Seq<char>>, platform: Platform)
    ensures
        encoder_for(HwAccel::Software, listing, platform) == HwEncoder::Software,
        ({
            let e = encoder_for(HwAccel::Nvenc, listing, platform);
            e == HwEncoder::Nvenc || e == HwEncoder::Software
        }),
        ({
            let e = encoder_for(HwAccel::Qsv, listing, platform);
            e == HwEncoder::QuickSync || e == HwEncoder::Software
        }),
        ({
            let e = encoder_for(HwAccel::Vaapi, listing, platform);
            e == HwEncoder::Vaapi || e == HwEncoder::Software
        }),
        ({
            let e = encoder_for(HwAccel::Videotoolbox, listing, platform);
            e == HwEncoder::Videotoolbox || e == HwEncoder::Software
        }),
        ({
            let e = encoder_for(HwAccel::Amf, listing, platform);
            e == HwEncoder::Amf || e == HwEncoder::Software
        }),
{
}

/// Detection falls back to software only when no hardware is there.
pub proof fn law_detection_finds_hardware(
    encoder: HwEncoder,
    listing: Seq<char>,
    platform: Platform,
)
    requires
        encoder != HwEncoder::Software,
        encoder.is_available(listing, platform),
    ensures
        encoder_for(HwAccel::Auto, Some(listing), platform) != HwEncoder::Software,
{
}

/// The arguments that prepare the hardware.
pub open spec fn hw_params(encoder: HwEncoder) -> Seq<Seq<char>> {
    match encoder {
        HwEncoder::Videotoolbox => seq![
            "-init_hw_device"@,
            "videotoolbox=vt"@,
            "-filter_hw_device"@,
            "vt"@,
        ],
        HwEncoder::Vaapi => seq![
            "-vaapi_device"@,
            "/dev/dri/renderD128"@,
            "-vf"@,
            "format=nv12,hwupload"@,
        ],
        HwEncoder::QuickSync => seq!["-init_hw_device"@, "qsv=hw"@, "-filter_hw_device"@, "hw"@],
        _ => Seq::empty(),
    }
}

/// The arguments that choose the encoder's quality.
pub open spec fn quality_params(encoder: HwEncoder) -> Seq<Seq<char>> {
    match encoder {
        HwEncoder::Nvenc => seq!["-preset"@, "p4"@],
        HwEncoder::QuickSync => seq!["-preset"@, "faster"@],
        HwEncoder::Software => seq!["-preset"@, "fast"@, "-crf"@, "23"@],
        _ => Seq::empty(),
    }
}

/// The arguments that choose the encoder and how it encodes.
pub open spec fn default_params(encoder: HwEncoder) -> Seq<Seq<char>> {
    seq!["-c:v"@, encoder.spec_name(), "-profile:v"@, "high"@, "-b:v"@, "2M"@] + quality_params(
        encoder,
    )
}

/// The arguments that write an MP4 file so that it can be streamed.
pub open spec fn stream_params() -> Seq<Seq<char>> {
    seq!["-movflags"@, "+faststart+frag_keyframe+empty_moov"@]
}

/// The arguments that suit a container, for a raw stream.
pub open spec fn container_params(ext: Seq<char>) -> Seq<Seq<char>> {
    if ext == "mp4"@ {
        stream_params()
    } else if ext == "mkv"@ {
        seq!["-cluster_size_limit"@, "2M"@]
    } else {
        Seq::empty()
    }
}

/// The name under which `ffmpeg` knows a container.
pub open spec fn muxer_of(ext: Seq<char>) -> Seq<char> {
    if ext == "mkv"@ {
        "matroska"@
    } else if ext == "avi"@ {
        "avi"@
    } else {
        "mp4"@
    }
}

/// The arguments that encode `input`, up to those that name the output.
pub open spec fn encode_params(encoder: HwEncoder, input: Seq<char>) -> Seq<Seq<char>> {
    seq!["-y"@, "-i"@, input] + hw_params(encoder) + default_params(encoder)
}

/// The arguments of a benchmark.
pub open spec fn benchmark_args_of(
    encoder: HwEncoder,
    input: Seq<char>,
    params: Seq<Seq<char>>,
    output: Seq<char>,
) -> Seq<Seq<char>> {
    (encode_params(encoder, input) + params).push(output)
}

/// The arguments that take the raw stream out of an HEVC video.
pub open spec fn extract_args_of(input: Seq<char>, raw: Seq<char>) -> Seq<Seq<char>> {
    seq![
        "-y"@,
        "-i"@,
        input,
        "-c:v"@,
        "copy"@,
        "-bsf:v"@,
        "hevc_mp4toannexb"@,
        "-f"@,
        "hevc"@,
        raw,
    ]
}

/// The arguments that encode a raw HEVC stream.
pub open spec fn raw_args_of(
    encoder: HwEncoder,
    raw: Seq<char>,
    ext: Seq<char>,
    params: Seq<Seq<char>>,
    output: Seq<char>,
) -> Seq<Seq<char>> {
    (encode_params(encoder, raw) + container_params(ext) + params).push(output)
}

/// The arguments that encode a segment.
pub open spec fn segment_args_of(
    encoder: HwEncoder,
    input: Seq<char>,
    ext: Seq<char>,
    params: Seq<Seq<char>>,
    output: Seq<char>,
) -> Seq<Seq<char>> {
    let stream = if ext == "mp4"@ {
        stream_params()
    } else {
        Seq::empty()
    };
    encode_params(encoder, input) + params + stream + seq!["-f"@, muxer_of(ext), output]
}

/// The container of a segment: the first of those that its format names.
pub open spec fn segment_ext_of(format: Seq<char>) -> Seq<char> {
    trimmed(fields(format, ',')[0])
}

/// The container of a segment: the first of those that its format names.
pub fn segment_ext(format: &str) -> (r: String)
    ensures
        r@ == segment_ext_of(format@),
{
    let parts = split(format, ',');
    proof {
        lemma_fields_nonempty(format@, ',');
        assert(texts(parts@)[0] == parts@[0]@);
    }
    trim(parts[0].as_str())
}

/// The codec that `ffprobe` printed.
pub fn read_codec(stdout: &Vec<u8>) -> (r: String)
    ensures
        r@ == trimmed(lossy_text(stdout@)),
{
    trim(printed(stdout).as_str())
}

/// The raw stream has to be taken out of the video first.
pub open spec fn needs_extraction(codec: Seq<char>) -> bool {
    codec == "hevc"@ || codec == "h265"@
}

/// Whether the raw stream has to be taken out of the video first.
pub fn is_hevc(codec: &str) -> (r: bool)
    ensures
        r == needs_extraction(codec@),
{
    same(codec, "hevc") || same(codec, "h265")
}

/// What `ffmpeg` is run for.
#[derive(Clone, Copy, Debug, PartialEq, Eq, Structural)]
pub enum Purpose {
    Benchmark,
    Extraction,
    RawEncoding,
    Encoding,
}

/// Why nothing was encoded.
#[derive(Debug)]
pub enum EncodeError {
    /// `ffmpeg` could not be run for a benchmark.
    NotRun,
    /// `ffmpeg` failed; what it complained of.
    Failed(Purpose, String),
    /// What it wrote could not be read; why.
    Unreadable(String),
}

/// The view of an `EncodeError`.
pub enum EncodeErrorView {
    NotRun,
    Failed(Purpose, Seq<char>),
    Unreadable(Seq<char>),
}

impl View for EncodeError {
    type V = EncodeErrorView;

    open spec fn view(&self) -> EncodeErrorView {
        match *self {
            EncodeError::NotRun => EncodeErrorView::NotRun,
            EncodeError::Failed(p, w) => EncodeErrorView::Failed(p, w@),
            EncodeError::Unreadable(w) => EncodeErrorView::Unreadable(w@),
        }
    }
}

impl EncodeErrorView {
    /// What is told of the failure.
    pub open spec fn message(self) -> Seq<char> {
        match self {
            EncodeErrorView::NotRun => "Failed to execute FFmpeg command"@,
            EncodeErrorView::Failed(Purpose::Benchmark, w) => "FFmpeg benchmark failed: "@ + w,
            EncodeErrorView::Failed(Purpose::Extraction, w) => "HEVC extraction failed: "@ + w,
            EncodeErrorView::Failed(Purpose::RawEncoding, w) => "FFmpeg encoding failed: "@ + w,
            EncodeErrorView::Failed(Purpose::Encoding, w) => "FFmpeg processing failed: "@ + w,
            EncodeErrorView::Unreadable(w) => "Failed to read output file: "@ + w,
        }
    }
}

impl EncodeError {
    /// What is told of the failure.
    pub fn message(&self) -> (r: String)
        ensures
            r@ == self@.message(),
    {
        match self {
            EncodeError::NotRun => "Failed to execute FFmpeg command".to_owned(),
            EncodeError::Failed(purpose, w) => {
                let start = match purpose {
                    Purpose::Benchmark => "FFmpeg benchmark failed: ",
                    Purpose::Extraction => "HEVC extraction failed: ",
                    Purpose::RawEncoding => "FFmpeg encoding failed: ",
                    Purpose::Encoding => "FFmpeg processing failed: ",
                };
                start.to_owned().concat(w.as_str())
            },
            EncodeError::Unreadable(w) => "Failed to read output file: ".to_owned().concat(
                w.as_str(),
            ),
        }
    }
}

/// Whether a run of `ffmpeg` did what it was for.
pub fn check_run(purpose: Purpose, output: &ProcessOutput) -> (r: Result<(), EncodeError>)
    ensures
        match r {
            Ok(_) => output.success,
            Err(e) => !output.success && e@ == EncodeErrorView::Failed(
                purpose,
                lossy_text(output.stderr@),
            ),
        },
{
    if output.success {
        Ok(())
    } else {
        Err(EncodeError::Failed(purpose, printed(&output.stderr)))
    }
}

/// The paths of a segment's files, written out.
#[derive(Debug)]
pub struct SegmentPaths {
    pub input: String,
    pub raw: String,
    pub output: String,
}

/// A run of `ffmpeg`.
#[derive(Debug)]
pub struct EncodeRun {
    pub purpose: Purpose,
    pub args: Vec<String>,
}

/// The views of a list of runs.
pub open spec fn run_views(runs: Seq<EncodeRun>) -> Seq<(Purpose, Seq<Seq<char>>)> {
    runs.map_values(|r: EncodeRun| (r.purpose, texts(r.args@)))
}

/// The runs of `ffmpeg` that encode a segment of the given codec.
pub open spec fn runs_of(
    encoder: HwEncoder,
    codec: Seq<char>,
    files: SegmentPaths,
    ext: Seq<char>,
    params: Seq<Seq<char>>,
) -> Seq<(Purpose, Seq<Seq<char>>)> {
    if needs_extraction(codec) {
        seq![
            (Purpose::Extraction, extract_args_of(files.input@, files.raw@)),
            (Purpose::RawEncoding, raw_args_of(encoder, files.raw@, ext, params, files.output@)),
        ]
    } else {
        seq![
            (Purpose::Encoding, segment_args_of(encoder, files.input@, ext, params, files.output@)),
        ]
    }
}

/// The number of frames in what was encoded.
pub open spec fn frame_count_of(output: ProcessOutput) -> Result<nat, ProbeErrorView> {
    if output.success {
        printed_count(output.stdout@)
    } else {
        Err(ProbeErrorView::FrameCount)
    }
}

/// The files of a segment that is being encoded.
#[derive(Debug)]
pub struct SegmentFiles {
    pub dir: PathParts,
    pub ext: String,
    pub input: PathParts,
    pub output: PathParts,
    pub raw: PathParts,
}

impl SegmentFiles {
    /// The files lie in `dir` and have the extension `ext`.
    pub open spec fn lie_in(&self, dir: Seq<Seq<char>>, ext: Seq<char>) -> bool {
        &&& self.dir@ == dir
        &&& self.ext@ == ext
        &&& self.input@ == dir.push("input."@ + ext)
        &&& self.output@ == dir.push("output."@ + ext)
        &&& self.raw@ == dir.push("intermediate.h265"@)
    }
}

/// The files of a benchmark.
#[derive(Debug)]
pub struct BenchmarkFiles {
    pub dir: PathParts,
    pub input: PathParts,
    pub output: PathParts,
}

/// A client's means to encode.
#[derive(Debug)]
pub struct FfmpegProcessor {
    work_dir: PathParts,
    hw_encoder: HwEncoder,
}

impl FfmpegProcessor {
    /// The directory that the files lie in.
    pub closed spec fn work_dir(&self) -> Seq<Seq<char>> {
        self.work_dir@
    }

    /// The encoder that is used.
    pub closed spec fn encoder(&self) -> HwEncoder {
        self.hw_encoder
    }

    /// The means of the client `client_id` to encode with `hw_encoder`.
    pub fn new(client_id: &str, hw_encoder: HwEncoder) -> (r: Self)
        ensures
            r.work_dir() == seq!["work"@, "client"@, client_id@],
            r.encoder() == hw_encoder,
    {
        let work_dir = PathParts::from_text("work").join("client").join(client_id);
        assert(work_dir@ =~= seq!["work"@, "client"@, client_id@]);
        FfmpegProcessor { work_dir, hw_encoder }
    }

    /// The directory that the files lie in.
    pub fn get_work_dir(&self) -> (r: PathParts)
        ensures
            r@ == self.work_dir(),
    {
        self.work_dir.clone()
    }

    /// What is told of the encoders: the one that is used.
    pub open spec fn describes(&self, told: EncoderCapabilities) -> bool {
        &&& told.has_nvenc == (self.encoder() == HwEncoder::Nvenc)
        &&& told.has_qsv == (self.encoder() == HwEncoder::QuickSync)
        &&& told.has_vaapi == (self.encoder() == HwEncoder::Vaapi)
        &&& told.has_videotoolbox == (self.encoder() == HwEncoder::Videotoolbox)
        &&& told.has_amf == (self.encoder() == HwEncoder::Amf)
        &&& told.selected_encoder == match self.encoder() {
            HwEncoder::Videotoolbox => crate::models::capabilities::HwEncoder::Videotoolbox,
            HwEncoder::Nvenc => crate::models::capabilities::HwEncoder::Nvenc,
            HwEncoder::Vaapi => crate::models::capabilities::HwEncoder::Vaapi,
            HwEncoder::QuickSync => crate::models::capabilities::HwEncoder::QuickSync,
            HwEncoder::Amf => crate::models::capabilities::HwEncoder::Amf,
            HwEncoder::Software => crate::models::capabilities::HwEncoder::Software,
        }
    }

    /// What the server is told of the encoders: the one that is used.
    pub fn get_capabilities(&self) -> (r: EncoderCapabilities)
        ensures
            self.describes(r),
    {
        let e = self.hw_encoder;
        EncoderCapabilities {
            has_nvenc: e == HwEncoder::Nvenc,
            has_qsv: e == HwEncoder::QuickSync,
            has_vaapi: e == HwEncoder::Vaapi,
            has_videotoolbox: e == HwEncoder::Videotoolbox,
            has_amf: e == HwEncoder::Amf,
            selected_encoder: match e {
                HwEncoder::Videotoolbox => crate::models::capabilities::HwEncoder::Videotoolbox,
                HwEncoder::Nvenc => crate::models::capabilities::HwEncoder::Nvenc,
                HwEncoder::Vaapi => crate::models::capabilities::HwEncoder::Vaapi,
                HwEncoder::QuickSync => crate::models::capabilities::HwEncoder::QuickSync,
                HwEncoder::Amf => crate::models::capabilities::HwEncoder::Amf,
                HwEncoder::Software => crate::models::capabilities::HwEncoder::Software,
            },
        }
    }

    /// The arguments that prepare the hardware.
    pub fn get_hw_encoding_params(&self) -> (r: Vec<String>)
        ensures
            texts(r@) == hw_params(self.encoder()),
    {
        let r = strings(
            match self.hw_encoder {
                HwEncoder::Videotoolbox => vec![
                    "-init_hw_device",
                    "videotoolbox=vt",
                    "-filter_hw_device",
                    "vt",
                ],
                HwEncoder::Vaapi => vec![
                    "-vaapi_device",
                    "/dev/dri/renderD128",
                    "-vf",
                    "format=nv12,hwupload",
                ],
                HwEncoder::QuickSync => vec![
                    "-init_hw_device",
                    "qsv=hw",
                    "-filter_hw_device",
                    "hw",
                ],
                _ => Vec::new(),
            },
        );
        assert(texts(r@) =~= hw_params(self.encoder()));
        r
    }

    /// The arguments that choose the encoder and how it encodes.
    pub fn get_default_encoding_params(&self) -> (r: Vec<String>)
        ensures
            texts(r@) == default_params(self.encoder()),
    {
        let start = strings(
            vec!["-c:v", self.hw_encoder.name(), "-profile:v", "high", "-b:v", "2M"],
        );
        let quality = strings(
            match self.hw_encoder {
                HwEncoder::Nvenc => vec!["-preset", "p4"],
                HwEncoder::QuickSync => vec!["-preset", "faster"],
                HwEncoder::Software => vec!["-preset", "fast", "-crf", "23"],
                _ => Vec::new(),
            },
        );
        assert(texts(quality@) =~= quality_params(self.encoder()));
        assert(texts(start@) =~= seq![
            "-c:v"@,
            self.encoder().spec_name(),
            "-profile:v"@,
            "high"@,
            "-b:v"@,
            "2M"@,
        ]);
        both_lists(start, quality)
    }

    fn encode_start(&self, input: &str) -> (r: Vec<String>)
        ensures
            texts(r@) == encode_params(self.encoder(), input@),
    {
        let start = strings(vec!["-y", "-i", input]);
        assert(texts(start@) =~= seq!["-y"@, "-i"@, input@]);
        both_lists(
            both_lists(start, self.get_hw_encoding_params()),
            self.get_default_encoding_params(),
        )
    }

    /// The files of a benchmark of a video in `format`.
    pub fn benchmark_files(&self, format: &str) -> (r: BenchmarkFiles)
        ensures
            r.dir@ == self.work_dir().push("benchmark"@),
            r.input@ == r.dir@.push("benchmark_input."@ + format@),
            r.output@ == r.dir@.push("benchmark_output."@ + format@),
    {
        let dir = self.work_dir.join("benchmark");
        let input = dir.join("benchmark_input.".to_owned().concat(format).as_str());
        let output = dir.join("benchmark_output.".to_owned().concat(format).as_str());
        BenchmarkFiles { dir, input, output }
    }

    /// The arguments of a benchmark.
    pub fn benchmark_args(&self, input: &str, params: &Vec<String>, output: &str) -> (r: Vec<
        String,
    >)
        ensures
            texts(r@) == benchmark_args_of(self.encoder(), input@, texts(params@), output@),
    {
        let mut r = both_lists(self.encode_start(input), copy_list(params));
        let ghost before = texts(r@);
        r.push(output.to_owned());
        assert(texts(r@) =~= before.push(output@));
        r
    }

    /// The files of a segment in `format`, in the directory named after `id`.
    pub fn segment_files_as(&self, id: &str, format: &str) -> (r: SegmentFiles)
        ensures
            r.lie_in(self.work_dir().push("segment_"@ + id@), segment_ext_of(format@)),
    {
        let dir = self.work_dir.join("segment_".to_owned().concat(id).as_str());
        let ext = segment_ext(format);
        let input = dir.join("input.".to_owned().concat(ext.as_str()).as_str());
        let output = dir.join("output.".to_owned().concat(ext.as_str()).as_str());
        let raw = dir.join("intermediate.h265");
        SegmentFiles { dir, ext, input, output, raw }
    }

    /// The files of a segment in `format`, in a directory with a random name.
    pub fn segment_files(&self, format: &str) -> (r: SegmentFiles)
        ensures
            exists|id: Seq<char>| #[trigger]
                is_uuid(id) && r.lie_in(
                    self.work_dir().push("segment_"@ + id),
                    segment_ext_of(format@),
                ),
    {
        let id = new_uuid();
        let r = self.segment_files_as(id.as_str(), format);
        assert(is_uuid(id@));
        r
    }

    /// The arguments that take the raw stream out of an HEVC video.
    pub fn extract_args(&self, input: &str, raw: &str) -> (r: Vec<String>)
        ensures
            texts(r@) == extract_args_of(input@, raw@),
    {
        let r = strings(
            vec![
                "-y",
                "-i",
                input,
                "-c:v",
                "copy",
                "-bsf:v",
                "hevc_mp4toannexb",
                "-f",
                "hevc",
                raw,
            ],
        );
        assert(texts(r@) =~= extract_args_of(input@, raw@));
        r
    }

    /// The arguments that encode a raw HEVC stream.
    pub fn raw_args(&self, raw: &str, ext: &str, params: &Vec<String>, output: &str) -> (r: Vec<
        String,
    >)
        ensures
            texts(r@) == raw_args_of(self.encoder(), raw@, ext@, texts(params@), output@),
    {
        let container = strings(
            if same(ext, "mp4") {
                vec!["-movflags", "+faststart+frag_keyframe+empty_moov"]
            } else if same(ext, "mkv") {
                vec!["-cluster_size_limit", "2M"]
            } else {
                Vec::new()
            },
        );
        assert(texts(container@) =~= container_params(ext@));
        let mut r = both_lists(
            both_lists(self.encode_start(raw), container),
            copy_list(params),
        );
        let ghost before = texts(r@);
        r.push(output.to_owned());
        assert(texts(r@) =~= before.push(output@));
        r
    }

    /// The arguments that encode a segment.
    pub fn segment_args(&self, input: &str, ext: &str, params: &Vec<String>, output: &str) -> (r:
        Vec<String>)
        ensures
            texts(r@) == segment_args_of(self.encoder(), input@, ext@, texts(params@), output@),
    {
        let stream = strings(
            if same(ext, "mp4") {
                vec!["-movflags", "+faststart+frag_keyframe+empty_moov"]
            } else {
                Vec::new()
            },
        );
        let muxer = if same(ext, "mkv") {
            "matroska"
        } else if same(ext, "avi") {
            "avi"
        } else {
            "mp4"
        };
        let end = strings(vec!["-f", muxer, output]);
        assert(texts(end@) =~= seq!["-f"@, muxer_of(ext@), output@]);
        proof {
            if ext@ == "mp4"@ {
                assert(texts(stream@) =~= stream_params());
            } else {
                assert(texts(stream@) =~= Seq::empty());
            }
        }
        both_lists(
            both_lists(both_lists(self.encode_start(input), copy_list(params)), stream),
            end,
        )
    }

    /// The runs of `ffmpeg` that encode a segment of the given codec, one after
    /// the other: an HEVC video gives its raw stream first.
    pub fn encode_runs(
        &self,
        codec: &str,
        files: &SegmentPaths,
        ext: &str,
        params: &Vec<String>,
    ) -> (r: Vec<EncodeRun>)
        ensures
            run_views(r@) == runs_of(self.encoder(), codec@, *files, ext@, texts(params@)),
    {
        let input = files.input.as_str();
        let raw = files.raw.as_str();
        let output = files.output.as_str();
        let mut r: Vec<EncodeRun> = Vec::new();
        if is_hevc(codec) {
            r.push(EncodeRun { purpose: Purpose::Extraction, args: self.extract_args(input, raw) });
            r.push(
                EncodeRun {
                    purpose: Purpose::RawEncoding,
                    args: self.raw_args(raw, ext, params, output),
                },
            );
        } else {
            r.push(
                EncodeRun {
                    purpose: Purpose::Encoding,
                    args: self.segment_args(input, ext, params, output),
                },
            );
        }
        assert(run_views(r@) =~= runs_of(
            self.encoder(),
            codec@,
            *files,
            ext@,
            texts(params@),
        ));
        r
    }

    /// The number of frames in what was encoded, as `ffprobe` printed it.
    pub fn get_frame_count(output: ProcessOutput) -> (r: Result<u64, ProbeError>)
        ensures
            count_result(r) == frame_count_of(output),
    {
        if !output.success {
            return Err(ProbeError::FrameCount);
        }
        read_count(output.stdout)
    }
}

} // verus!
