use ffmpeg_cluster::client::ffmpeg::{
    check_run, choose_encoder, detect_hw_encoder, is_hevc, needs_listing, read_codec, segment_ext,
    EncodeError, FfmpegProcessor, HwAccel, HwEncoder, Platform, Purpose, SegmentPaths,
};
use ffmpeg_cluster::models::capabilities;
use ffmpeg_cluster::probe::{ProbeError, ProcessOutput};
use ffmpeg_cluster::tools::{
    get_binary_path, get_ffmpeg_path, get_ffprobe_path, tool_dirs, ToolDir,
};

const ALL: &str = " V h264_videotoolbox V h264_nvenc V h264_vaapi V h264_qsv V h264_amf";

fn processor(encoder: HwEncoder) -> FfmpegProcessor {
    FfmpegProcessor::new("c1", encoder)
}

fn owned(list: &[&str]) -> Vec<String> {
    list.iter().map(|s| s.to_string()).collect()
}

#[test]
fn detection_goes_by_platform_and_listing() {
    let auto = |l: &str, p: Platform| choose_encoder(HwAccel::Auto, Some(l), p);
    assert_eq!(auto(ALL, Platform::Macos), HwEncoder::Videotoolbox);
    assert_eq!(auto(ALL, Platform::Linux), HwEncoder::Nvenc);
    assert_eq!(auto("h264_vaapi h264_qsv", Platform::Linux), HwEncoder::Vaapi);
    assert_eq!(auto("h264_vaapi h264_qsv", Platform::Other), HwEncoder::QuickSync);
    assert_eq!(auto("h264_amf", Platform::Other), HwEncoder::Amf);
    assert_eq!(auto("libx264", Platform::Linux), HwEncoder::Software);
    assert_eq!(
        choose_encoder(HwAccel::Auto, None, Platform::Linux),
        HwEncoder::Software
    );
}

#[test]
fn preference_is_kept_or_given_up() {
    let pick = |a: HwAccel, l: &str, p: Platform| choose_encoder(a, Some(l), p);
    assert_eq!(pick(HwAccel::Software, ALL, Platform::Linux), HwEncoder::Software);
    assert_eq!(pick(HwAccel::Nvenc, ALL, Platform::Linux), HwEncoder::Nvenc);
    assert_eq!(pick(HwAccel::Nvenc, "h264_qsv", Platform::Linux), HwEncoder::Software);
    assert_eq!(pick(HwAccel::Qsv, ALL, Platform::Other), HwEncoder::QuickSync);
    assert_eq!(pick(HwAccel::Amf, ALL, Platform::Other), HwEncoder::Amf);
    assert_eq!(pick(HwAccel::Vaapi, ALL, Platform::Linux), HwEncoder::Vaapi);
    assert_eq!(pick(HwAccel::Vaapi, ALL, Platform::Macos), HwEncoder::Software);
    assert_eq!(pick(HwAccel::Videotoolbox, ALL, Platform::Macos), HwEncoder::Videotoolbox);
    assert_eq!(pick(HwAccel::Videotoolbox, ALL, Platform::Linux), HwEncoder::Software);
    assert!(!needs_listing(HwAccel::Software));
    assert!(needs_listing(HwAccel::Auto));
}

#[test]
fn listing_may_hold_bad_bytes() {
    let mut bytes = vec![0xff, 0xfe];
    bytes.extend_from_slice(b" h264_amf ");
    assert_eq!(
        detect_hw_encoder(HwAccel::Auto, Some(bytes), Platform::Linux),
        HwEncoder::Amf
    );
    assert_eq!(
        detect_hw_encoder(HwAccel::Auto, None, Platform::Linux),
        HwEncoder::Software
    );
}

#[test]
fn capabilities_tell_the_encoder_in_use() {
    let c = processor(HwEncoder::QuickSync).get_capabilities();
    assert!(c.has_qsv && !c.has_nvenc && !c.has_vaapi && !c.has_videotoolbox && !c.has_amf);
    assert_eq!(c.selected_encoder, capabilities::HwEncoder::QuickSync);
    let none = processor(HwEncoder::Software).get_capabilities();
    assert_eq!(none, capabilities::EncoderCapabilities::default());
}

#[test]
fn hardware_gets_its_arguments() {
    assert_eq!(
        processor(HwEncoder::Vaapi).get_hw_encoding_params(),
        owned(&["-vaapi_device", "/dev/dri/renderD128", "-vf", "format=nv12,hwupload"])
    );
    assert_eq!(
        processor(HwEncoder::Videotoolbox).get_hw_encoding_params(),
        owned(&["-init_hw_device", "videotoolbox=vt", "-filter_hw_device", "vt"])
    );
    assert_eq!(
        processor(HwEncoder::QuickSync).get_hw_encoding_params(),
        owned(&["-init_hw_device", "qsv=hw", "-filter_hw_device", "hw"])
    );
    assert!(processor(HwEncoder::Nvenc).get_hw_encoding_params().is_empty());
    assert_eq!(
        processor(HwEncoder::Nvenc).get_default_encoding_params(),
        owned(&["-c:v", "h264_nvenc", "-profile:v", "high", "-b:v", "2M", "-preset", "p4"])
    );
    assert_eq!(
        processor(HwEncoder::Amf).get_default_encoding_params(),
        owned(&["-c:v", "h264_amf", "-profile:v", "high", "-b:v", "2M"])
    );
}

#[test]
fn benchmark_runs_in_its_directory() {
    let p = processor(HwEncoder::Software);
    assert_eq!(p.get_work_dir().parts, vec!["work", "client", "c1"]);
    let files = p.benchmark_files("mp4");
    assert_eq!(files.dir.parts, vec!["work", "client", "c1", "benchmark"]);
    assert_eq!(files.input.parts[4], "benchmark_input.mp4");
    assert_eq!(files.output.parts[4], "benchmark_output.mp4");
    assert_eq!(
        p.benchmark_args("in", &owned(&["-x", "1"]), "out"),
        owned(&[
            "-y", "-i", "in", "-c:v", "libx264", "-profile:v", "high", "-b:v", "2M", "-preset",
            "fast", "-crf", "23", "-x", "1", "out"
        ])
    );
}

#[test]
fn segments_are_encoded_by_container() {
    let p = processor(HwEncoder::Amf);
    let start = ["-y", "-i", "in", "-c:v", "h264_amf", "-profile:v", "high", "-b:v", "2M"];
    let with = |more: &[&str]| {
        let mut v = owned(&start);
        v.extend(owned(more));
        v
    };
    assert_eq!(
        p.segment_args("in", "mp4", &owned(&["-p"]), "out"),
        with(&["-p", "-movflags", "+faststart+frag_keyframe+empty_moov", "-f", "mp4", "out"])
    );
    assert_eq!(
        p.segment_args("in", "mkv", &Vec::new(), "out"),
        with(&["-f", "matroska", "out"])
    );
    assert_eq!(
        p.segment_args("in", "avi", &Vec::new(), "out"),
        with(&["-f", "avi", "out"])
    );
    assert_eq!(
        p.segment_args("in", "ogg", &Vec::new(), "out"),
        with(&["-f", "mp4", "out"])
    );
    assert_eq!(
        p.raw_args("in", "mp4", &owned(&["-p"]), "out"),
        with(&["-movflags", "+faststart+frag_keyframe+empty_moov", "-p", "out"])
    );
    assert_eq!(
        p.raw_args("in", "mkv", &Vec::new(), "out"),
        with(&["-cluster_size_limit", "2M", "out"])
    );
    assert_eq!(p.raw_args("in", "avi", &Vec::new(), "out"), with(&["out"]));
    assert_eq!(
        p.extract_args("in", "raw"),
        owned(&[
            "-y", "-i", "in", "-c:v", "copy", "-bsf:v", "hevc_mp4toannexb", "-f", "hevc", "raw"
        ])
    );
}

#[test]
fn segment_files_lie_in_a_directory_of_their_own() {
    let p = processor(HwEncoder::Software);
    let f = p.segment_files_as("u", " mkv , webm");
    assert_eq!(f.ext, "mkv");
    assert_eq!(f.dir.parts, vec!["work", "client", "c1", "segment_u"]);
    assert_eq!(f.input.parts[4], "input.mkv");
    assert_eq!(f.output.parts[4], "output.mkv");
    assert_eq!(f.raw.parts[4], "intermediate.h265");
    let g = p.segment_files("mp4");
    assert_eq!(g.dir.parts[3].len(), "segment_".len() + 36);
    assert_ne!(g.dir.parts[3], p.segment_files("mp4").dir.parts[3]);
    assert_eq!(segment_ext(""), "");
}

#[test]
fn hevc_is_taken_out_first() {
    assert_eq!(read_codec(&b" hevc\n".to_vec()), "hevc");
    assert!(is_hevc("hevc") && is_hevc("h265"));
    assert!(!is_hevc("h264") && !is_hevc(""));
    assert_eq!(read_codec(&vec![0xff]), "\u{fffd}");
}

#[test]
fn runs_follow_the_codec() {
    let p = processor(HwEncoder::Nvenc);
    let paths = SegmentPaths {
        input: "in".to_string(),
        raw: "raw".to_string(),
        output: "out".to_string(),
    };
    let params = owned(&["-x"]);
    let plain = p.encode_runs("h264", &paths, "mp4", &params);
    assert_eq!(plain.len(), 1);
    assert_eq!(plain[0].purpose, Purpose::Encoding);
    assert_eq!(plain[0].args, p.segment_args("in", "mp4", &params, "out"));
    let hevc = p.encode_runs("hevc", &paths, "mp4", &params);
    assert_eq!(hevc.len(), 2);
    assert_eq!((hevc[0].purpose, hevc[1].purpose), (Purpose::Extraction, Purpose::RawEncoding));
    assert_eq!(hevc[0].args, p.extract_args("in", "raw"));
    assert_eq!(hevc[1].args, p.raw_args("raw", "mp4", &params, "out"));
}

#[test]
fn failed_runs_tell_what_ffmpeg_complained_of() {
    let bad = ProcessOutput { success: false, stdout: Vec::new(), stderr: b"no".to_vec() };
    let told = |p: Purpose| check_run(p, &bad).unwrap_err().message();
    assert_eq!(told(Purpose::Benchmark), "FFmpeg benchmark failed: no");
    assert_eq!(told(Purpose::Extraction), "HEVC extraction failed: no");
    assert_eq!(told(Purpose::RawEncoding), "FFmpeg encoding failed: no");
    assert_eq!(told(Purpose::Encoding), "FFmpeg processing failed: no");
    assert_eq!(EncodeError::NotRun.message(), "Failed to execute FFmpeg command");
    assert_eq!(
        EncodeError::Unreadable("gone".to_string()).message(),
        "Failed to read output file: gone"
    );
    let good = ProcessOutput { success: true, stdout: Vec::new(), stderr: b"no".to_vec() };
    assert!(check_run(Purpose::Encoding, &good).is_ok());
}

#[test]
fn encoded_frames_are_counted() {
    let count = |success: bool, out: &[u8]| {
        FfmpegProcessor::get_frame_count(ProcessOutput {
            success,
            stdout: out.to_vec(),
            stderr: Vec::new(),
        })
    };
    assert!(matches!(count(true, b" 240\n"), Ok(240)));
    assert!(matches!(count(false, b"240"), Err(ProbeError::FrameCount)));
    assert_eq!(count(false, b"").unwrap_err().message(), "Failed to get frame count");
    assert_eq!(count(true, b"x").unwrap_err().message(), "invalid digit found in string");
}

#[test]
fn programs_are_looked_for_in_order() {
    let dirs = tool_dirs("/app/bin", "/app");
    let parts: Vec<Vec<String>> = dirs.iter().map(|d| d.parts.clone()).collect();
    assert_eq!(
        parts,
        vec![
            owned(&["/app/bin", "tools"]),
            owned(&["/app/bin", "bin"]),
            owned(&["/app", "tools"]),
            owned(&["tools"]),
            owned(&["bin"]),
        ]
    );
    let no = ToolDir { exists: true, has_ffmpeg: true, has_ffprobe: false };
    let yes = ToolDir { exists: true, has_ffmpeg: true, has_ffprobe: true };
    let dir = get_binary_path(&dirs, &vec![no, no, yes, yes, no]);
    assert_eq!(dir.parts, owned(&["/app", "tools"]));
    assert_eq!(get_binary_path(&dirs, &vec![no, no, no, no, no]).parts, owned(&["."]));
    assert_eq!(get_ffmpeg_path(&dir, false).parts[2], "ffmpeg");
    assert_eq!(get_ffprobe_path(&dir, true).parts[2], "ffprobe.exe");
    assert_eq!(get_ffmpeg_path(&dir, true).parts[2], "ffmpeg.exe");
}
