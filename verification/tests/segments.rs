use ffmpeg_cluster::probe::{
    codec_args, count_frames_args, frame_count_args, ProbeError, ProcessOutput,
};
use ffmpeg_cluster::server::combine::{check_combine, combine_args, concat_list, CombineError};
use ffmpeg_cluster::server::cutting::{
    check_frames, check_sample, check_segment, choose_rate, rate_args, read_rate, sample_args,
    segment_args, CutError,
};
use ffmpeg_cluster::server::disk::{
    check_stored, cleanup_step, duration_args, CleanupStep,
};
use ffmpeg_cluster::server::ffmpeg::{
    read_duration, streams_args, FfProbeService, FfmpegService,
};
use ffmpeg_cluster::models::measure::Fps;
use ffmpeg_cluster::server::frames::divide_frames;
use ffmpeg_cluster::server::segment_id::{frame_number, name_segment};
use ffmpeg_cluster::server::segment_manager::{SegmentData, SegmentManager};
use ffmpeg_cluster::server::upload::{find_url, read_upload, upload_args, UploadError};
use ffmpeg_cluster::FfmpegError;

fn left(success: bool, stdout: &[u8], stderr: &[u8]) -> ProcessOutput {
    ProcessOutput { success, stdout: stdout.to_vec(), stderr: stderr.to_vec() }
}

fn piece(id: &str, format: &str, data: &[u8]) -> SegmentData {
    SegmentData {
        data: data.to_vec(),
        format: format.to_string(),
        segment_id: id.to_string(),
    }
}

fn owned(list: &[&str]) -> Vec<String> {
    list.iter().map(|s| s.to_string()).collect()
}

fn speeds(list: &[f64]) -> Vec<Fps> {
    list.iter().map(|x| Fps { bits: x.to_bits() }).collect()
}

fn bounds(total: u64, list: &[f64]) -> Vec<(u64, u64)> {
    divide_frames(total, &speeds(list)).iter().map(|r| (r.start, r.end)).collect()
}

#[test]
fn frames_are_divided_evenly() {
    let same = [30.0, 30.0, 30.0];
    assert_eq!(bounds(10, &same), vec![(0, 4), (4, 7), (7, 10)]);
    assert_eq!(bounds(9, &[1.0, 20.0, 300.0]), vec![(0, 3), (3, 6), (6, 9)]);
    assert_eq!(bounds(2, &same), vec![(0, 1), (1, 2), (2, 2)]);
    assert_eq!(bounds(0, &same[..2]), vec![(0, 0), (0, 0)]);
    assert_eq!(bounds(u64::MAX, &same[..1]), vec![(0, u64::MAX)]);
}

#[test]
fn frames_that_are_left_over_go_to_the_fastest() {
    assert_eq!(bounds(10, &[1.0, 2.5, 2.0]), vec![(0, 3), (3, 7), (7, 10)]);
    assert_eq!(bounds(11, &[1.0, 2.5, 2.0]), vec![(0, 3), (3, 7), (7, 11)]);
    assert_eq!(bounds(5, &[0.001, 1e9]), vec![(0, 2), (2, 5)]);
    assert_eq!(bounds(1, &[7.0, 8.0, 8.0]), vec![(0, 0), (0, 1), (1, 1)]);
    assert_eq!(bounds(u64::MAX, &[1.0, 2.0]), vec![(0, u64::MAX / 2), (u64::MAX / 2, u64::MAX)]);
}

#[test]
fn segment_names_tell_their_frame() {
    assert_eq!(name_segment(120, "u-1"), "segment_120_u-1");
    assert_eq!(frame_number("segment_120_u-1"), 120);
    assert_eq!(frame_number("segment_x_1"), 0);
    assert_eq!(frame_number("segment"), 0);
    assert_eq!(frame_number("a_18446744073709551616_b"), 0);
}

#[test]
fn containers_go_by_the_first_format() {
    let of = |f: &str| {
        let (ext, opts) = SegmentManager::get_output_format(f);
        (ext.to_string(), opts.join(" "))
    };
    let mp4 = ("mp4".to_string(), "-f mp4 -movflags +faststart".to_string());
    assert_eq!(of("mov,mp4,m4a"), mp4);
    assert_eq!(of(" 3gp "), mp4);
    assert_eq!(of("h264"), mp4);
    assert_eq!(of(""), mp4);
    assert_eq!(of("matroska,webm"), ("mkv".to_string(), "-f matroska".to_string()));
    assert_eq!(of("webm"), ("mkv".to_string(), "-f matroska".to_string()));
    assert_eq!(of("avi"), ("avi".to_string(), "-f avi".to_string()));
    assert_eq!(of("avi,mp4"), ("avi".to_string(), "-f avi".to_string()));
}

#[test]
fn manager_lives_in_the_directory_of_its_job() {
    let mut m = SegmentManager::new(Some("j".to_string()));
    assert_eq!(m.get_job_id(), "j");
    assert_eq!(m.get_work_dir().parts, owned(&["work", "server", "j"]));
    m.set_job_id("k".to_string());
    assert_eq!(m.get_work_dir().parts, owned(&["work", "server", "k"]));
    assert_eq!(m.get_base_dir().parts, owned(&["work", "server"]));
    assert_eq!(m.segments_dir().parts[3], "segments");
    assert_eq!(
        m.segment_file("s", "mp4").parts,
        owned(&["work", "server", "k", "segments", "s.mp4"])
    );
    assert_eq!(SegmentManager::concat_file(m.get_work_dir()).parts[3], "concat.txt");
    assert_eq!(SegmentManager::new(None).get_job_id().len(), 36);
    assert_ne!(SegmentManager::new(None).get_job_id(), SegmentManager::new(None).get_job_id());
}

#[test]
fn job_is_complete_when_all_segments_came_back() {
    let mut m = SegmentManager::new(None);
    assert!(!m.is_job_complete());
    assert_eq!(m.get_completion_percentage().done, 0);
    m.add_pending_segment("s1".to_string());
    m.add_pending_segment("s2".to_string());
    m.add_pending_segment("s2".to_string());
    m.add_processed_segment("c1".to_string(), piece("s1", "mp4", b"1"));
    let p = m.get_completion_percentage();
    assert_eq!((p.done, p.total), (1, 2));
    assert!(!m.is_job_complete());
    m.add_processed_segment("c2".to_string(), piece("s2", "mp4", b"2"));
    assert!(m.is_job_complete());
    assert_eq!(m.get_segment_count(), 2);
    assert!(m.has_segment("c1") && !m.has_segment("c3"));
    assert_eq!(m.segment_of("c2").map(|d| d.data.clone()), Some(b"2".to_vec()));
    m.reset_state();
    assert!(!m.is_job_complete());
    assert_eq!(m.get_segment_count(), 0);
}

#[test]
fn input_format_is_noted() {
    let mut m = SegmentManager::new(None);
    assert_eq!(m.input_format(), None);
    m.set_input_format("h264".to_string());
    assert_eq!(m.input_format().as_deref(), Some("h264"));
}

#[test]
fn segments_are_combined_in_the_order_of_their_frames() {
    let mut m = SegmentManager::new(None);
    let unique = "01234567-89ab-4cde-8f01-23456789abcd";
    for (client, range) in ["c", "a", "b"].iter().zip(divide_frames(100, &speeds(&[1.0, 9.0, 5.0]))) {
        let id = name_segment(range.start, unique);
        m.add_pending_segment(id.clone());
        let data = vec![range.start as u8];
        m.add_processed_segment(client.to_string(), piece(&id, "mp4", &data));
    }
    assert_eq!(m.frame_order(), owned(&["c", "a", "b"]));
    let mut n = SegmentManager::new(None);
    for (client, frame) in [("x", 67u64), ("y", 0), ("z", 34)] {
        let id = name_segment(frame, unique);
        n.add_processed_segment(client.to_string(), piece(&id, "mkv", b""));
    }
    let mut c = n.start_combination();
    let mut names = Vec::new();
    let mut clients = Vec::new();
    while let Some(file) = c.next_file() {
        names.push(file.file_name.clone());
        clients.push(file.client_id.clone());
        let frames = c.read_segment_count(left(true, b"33\n", b"")).unwrap();
        c.add_segment_count(frames);
    }
    assert_eq!(names, owned(&["segment_000.mkv", "segment_001.mkv", "segment_002.mkv"]));
    assert_eq!(clients, owned(&["y", "z", "x"]));
    assert_eq!(c.frames_so_far(), 99);
    assert!(c.check_total(b"99".to_vec()).is_ok());
    assert_eq!(
        c.check_total(b"98".to_vec()).unwrap_err().message(),
        "Frame count mismatch: expected 99 frames but got 98 in final output"
    );
    assert_eq!(
        c.check_total(b"".to_vec()).unwrap_err().message(),
        "cannot parse integer from empty string"
    );
}

#[test]
fn segment_that_cannot_be_counted_is_told_of() {
    let mut m = SegmentManager::new(None);
    m.add_processed_segment("a".to_string(), piece("segment_0_u", "mp4", b""));
    m.add_processed_segment("b".to_string(), piece("segment_5_u", "mp4", b""));
    let mut c = m.start_combination();
    c.add_segment_count(5);
    assert_eq!(
        c.read_segment_count(left(false, b"", b"")).unwrap_err().message(),
        "Failed to verify segment 1 frame count"
    );
    assert!(matches!(
        c.read_segment_count(left(true, b"many", b"")),
        Err(CombineError::Probe(ProbeError::NotANumber(_)))
    ));
    assert_eq!(
        check_combine(&left(false, b"", b"disk full")).unwrap_err().message(),
        "Failed to combine segments: disk full"
    );
    assert!(check_combine(&left(true, b"", b"")).is_ok());
}

#[test]
fn combined_files_are_listed() {
    assert_eq!(
        concat_list(&owned(&["/w/a.mp4", "/w/b.mp4"])),
        "file '/w/a.mp4'\nfile '/w/b.mp4'\n"
    );
    assert_eq!(concat_list(&Vec::new()), "");
    assert_eq!(
        combine_args("list", "out").join(" "),
        "-y -f concat -safe 0 -i list -vsync 0 -c copy out"
    );
}

#[test]
fn segments_are_cut_frame_by_frame() {
    let m = SegmentManager::new(Some("j".to_string()));
    let plan = m.plan_segment_as("matroska,webm", 40, "u");
    assert_eq!((plan.id.as_str(), plan.ext.as_str()), ("segment_40_u", "mkv"));
    assert_eq!(plan.temp_file.parts, owned(&["work", "server", "j", "segment_40_u.mkv"]));
    assert_eq!(
        segment_args("in", 40, 60, &plan.options, "out").join(" "),
        "-y -i in -vf select=between(n\\,40\\,59),setpts=PTS-STARTPTS -vsync passthrough -an -sn \
         -dn -c:v libx264 -preset medium -crf 18 -f matroska out"
    );
    let done = plan.finish(vec![1]);
    assert_eq!((done.data, done.format.as_str()), (vec![1], "mkv"));
    assert_eq!(done.segment_id, "segment_40_u");
    let random = m.plan_segment("mp4", 7);
    assert!(random.id.starts_with("segment_7_"));
    assert_eq!(random.id.len(), "segment_7_".len() + 36);
}

#[test]
fn samples_are_cut_by_time() {
    let m = SegmentManager::new(Some("j".to_string()));
    let plan = m.plan_sample_as("h264", "u");
    assert_eq!(plan.id, "benchmark_u");
    assert_eq!(plan.temp_file.parts[3], "benchmark_u.mp4");
    assert_eq!(
        sample_args("in", 10, &plan.options, "out").join(" "),
        "-y -i in -t 10 -c copy -f mp4 -movflags +faststart out"
    );
    assert!(m.plan_sample("h264").id.starts_with("benchmark_"));
    assert_eq!(
        check_sample(&left(false, b"", b"x")).unwrap_err().message(),
        "Failed to create benchmark sample: x"
    );
    assert_eq!(
        check_segment(&left(false, b"", b"x")).unwrap_err().message(),
        "Failed to create segment: x"
    );
    assert!(check_sample(&left(true, b"", b"")).is_ok());
    assert!(check_segment(&left(true, b"", b"")).is_ok());
}

#[test]
fn cut_segments_are_counted() {
    assert!(check_frames(b"20\n".to_vec(), 40, 60).is_ok());
    assert!(matches!(
        check_frames(b"19".to_vec(), 40, 60),
        Err(CutError::Mismatch { expected: 20, got: 19 })
    ));
    assert_eq!(
        check_frames(b"19".to_vec(), 40, 60).unwrap_err().message(),
        "Frame count mismatch: expected 20 frames but got 19"
    );
    assert!(matches!(
        check_frames(vec![0xff], 0, 1),
        Err(CutError::Probe(ProbeError::NotUtf8(_)))
    ));
}

#[test]
fn frame_rate_is_read_from_json() {
    let json = br#"{"streams":[{"r_frame_rate":"30/1","avg_frame_rate":"25/1"}]}"#;
    assert_eq!(read_rate(&json.to_vec()).unwrap(), "25/1");
    let base = br#"{"streams":[{"r_frame_rate":"30/1","avg_frame_rate":"0/0"}]}"#;
    assert_eq!(read_rate(&base.to_vec()).unwrap(), "30/1");
    assert_eq!(read_rate(&b"{}".to_vec()).unwrap(), "0/0");
    assert_eq!(
        read_rate(&b"no".to_vec()).unwrap_err().message(),
        "expected ident at line 1 column 2"
    );
    assert_eq!(choose_rate(Some("1/1".to_string()), None), "1/1");
    assert_eq!(
        rate_args("in").join(" "),
        "-v error -select_streams v:0 -show_entries stream=r_frame_rate,avg_frame_rate -of json in"
    );
}

#[test]
fn segments_are_verified() {
    assert!(matches!(
        SegmentManager::verify_segment(left(true, b"12", b"")),
        Ok(12)
    ));
    assert_eq!(
        SegmentManager::verify_segment(left(false, b"12", b"")).unwrap_err().message(),
        "Failed to verify segment frame count"
    );
    let dir = ffmpeg_cluster::path::PathParts::from_text("tmp");
    assert_eq!(SegmentManager::verify_file_as(&dir, "u").parts[1], "verify_u.tmp");
    assert_eq!(SegmentManager::verify_file(&dir).parts[1].len(), "verify_.tmp".len() + 36);
}

#[test]
fn video_is_described_by_count_and_streams() {
    let json = br#"{"streams":[{"duration":"12.5"}]}"#;
    let info = FfmpegService::get_video_info(left(true, b"300\n", b""), left(true, json, b""));
    let info = info.unwrap();
    assert_eq!((info.total_frames, info.duration.as_deref()), (300, Some("12.5")));
    assert!(matches!(read_duration(b"{\"streams\":[]}".to_vec()), Ok(None)));
    assert!(matches!(
        FfmpegService::get_video_info(left(true, b"3", b""), left(true, b"[", b"")),
        Err(ProbeError::NotJson(_))
    ));
    assert_eq!(
        read_duration(b"[".to_vec()).unwrap_err().message(),
        "EOF while parsing a list at line 1 column 1"
    );
    assert_eq!(
        read_duration(vec![0xff]).unwrap_err().message(),
        "invalid utf-8 sequence of 1 bytes from index 0"
    );
    assert_eq!(
        streams_args("in").join(" "),
        "-v quiet -print_format json -show_streams in"
    );
}

#[test]
fn formats_and_counts_are_read() {
    assert_eq!(FfmpegService::detect_format(left(true, b" h264\n", b"")).unwrap(), "h264");
    assert_eq!(
        FfmpegService::detect_format(left(false, b"", b"bad")).unwrap_err().message(),
        "Failed to detect format: bad"
    );
    assert_eq!(FfProbeService::detect_format(left(true, b"vp9", b"")).unwrap(), "vp9");
    assert_eq!(SegmentManager::detect_format(left(true, b"av1\n", b"")).unwrap(), "av1");
    assert!(matches!(FfProbeService::count_frames(left(true, b"5", b"")), Ok(5)));
    assert_eq!(
        FfProbeService::count_frames(left(false, b"", b"bad")).unwrap_err().message(),
        "Failed to count frames: bad"
    );
    assert!(matches!(FfmpegService::verify_segment_frames(left(true, b"7", b"")), Ok(7)));
    assert!(matches!(
        FfmpegService::verify_segment_frames(left(false, b"7", b"")),
        Err(ProbeError::Verify)
    ));
    assert_eq!(
        count_frames_args("f").join(" "),
        "-v error -select_streams v:0 -count_packets -show_entries stream=nb_read_packets -of \
         csv=p=0 f"
    );
    assert_eq!(frame_count_args("f")[8], "default=noprint_wrappers=1:nokey=1");
    assert_eq!(codec_args("f")[5], "stream=codec_name");
}

#[test]
fn stored_segments_are_checked() {
    assert!(check_stored("s", &left(true, b"", b"")).is_ok());
    assert_eq!(
        check_stored("s", &left(false, b"", b"moov atom not found")),
        Err("Segment s is corrupted: moov atom not found".to_string())
    );
    assert_eq!(duration_args("f").join(" "), "-v error -show_entries format=duration f");
}

#[test]
fn directories_are_removed_in_two_tries() {
    assert_eq!(cleanup_step(false, 0), CleanupStep::Done);
    assert_eq!(cleanup_step(true, 0), CleanupStep::TryAfter(100));
    assert_eq!(cleanup_step(true, 1), CleanupStep::TryAfter(1000));
    assert_eq!(cleanup_step(true, 2), CleanupStep::GiveUp);
    assert!(SegmentManager::is_old_job(true, false));
    assert!(!SegmentManager::is_old_job(true, true));
    assert!(!SegmentManager::is_old_job(false, false));
}

#[test]
fn download_address_is_found() {
    let answer = "Uploaded 1 file\r\nwget\n  wget https://bashupload.com/x/a.mp4 \nwget other\n";
    assert_eq!(find_url(answer).as_deref(), Some("https://bashupload.com/x/a.mp4"));
    assert_eq!(find_url("curl x"), None);
    assert_eq!(find_url("see wget"), Some("wget".to_string()));
    assert!(matches!(
        read_upload(&left(false, answer.as_bytes(), b"")),
        Err(UploadError::Failed)
    ));
    assert!(matches!(read_upload(&left(true, b"", b"")), Err(UploadError::NoUrl)));
    assert_eq!(
        read_upload(&left(true, answer.as_bytes(), b"")).unwrap(),
        "https://bashupload.com/x/a.mp4"
    );
    assert_eq!(UploadError::Failed.message(), "Upload failed");
    assert_eq!(UploadError::NoUrl.message(), "Could not find download URL in response");
    assert_eq!(
        upload_args("out.mp4").join(" "),
        "https://bashupload.com -T out.mp4 --max-time 300"
    );
}

#[test]
fn failures_tell_their_kind() {
    let w = || "w".to_string();
    assert_eq!(FfmpegError::ProcessError(w()).message(), "FFmpeg process error: w");
    assert_eq!(FfmpegError::CommandFailed(w()).message(), "FFmpeg command failed: w");
    assert_eq!(FfmpegError::InvalidParameters(w()).message(), "Invalid FFmpeg parameters: w");
    assert_eq!(FfmpegError::FileError(w()).message(), "File operation failed: w");
    assert_eq!(FfmpegError::FrameCountError(w()).message(), "Frame counting error: w");
}
