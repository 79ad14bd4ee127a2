use ffmpeg_cluster::client::ffmpeg::{FfmpegProcessor, HwEncoder};
use ffmpeg_cluster::client::state::{
    command_url, first_message, last_seen_due, segment_done, server_url, ChunkState, ClientAction, ClientState,
    ServerFrame,
};
use ffmpeg_cluster::client::storage::{
    database_dir, database_file, database_url, StorageManager,
};
use ffmpeg_cluster::models::measure::Fps;
use ffmpeg_cluster::models::messages::{ClientMessage, ServerMessage};

fn ready() -> ClientState {
    let mut s = ClientState::new();
    s.processor_ready(FfmpegProcessor::new("me", HwEncoder::Software));
    s
}

fn text(m: ServerMessage) -> ServerFrame {
    ServerFrame::Text(Some(m))
}

fn client_id(id: &str, job: &str) -> ServerMessage {
    ServerMessage::ClientId { id: id.to_string(), job_id: job.to_string() }
}

fn benchmark(data: &[u8], job: &str) -> ServerMessage {
    ServerMessage::BenchmarkRequest {
        data: data.to_vec(),
        format: "mp4".to_string(),
        params: vec!["-p".to_string()],
        job_id: job.to_string(),
    }
}

fn segment(id: &str) -> ServerMessage {
    ServerMessage::ProcessSegment {
        data: vec![1, 2],
        format: "mkv".to_string(),
        segment_id: id.to_string(),
        params: vec!["-q".to_string()],
        job_id: "j".to_string(),
    }
}

fn fps(x: f64) -> Fps {
    Fps { bits: x.to_bits() }
}

#[test]
fn server_address_is_put_together() {
    assert_eq!(server_url("localhost", 5001), "ws://localhost:5001/ws");
    assert_eq!(command_url("localhost", 5001), "ws://localhost:5001/ws/command");
    assert!(matches!(
        first_message(true),
        ClientMessage::RequestId { participate: true }
    ));
}

#[test]
fn client_is_seen_once_a_minute() {
    assert!(!last_seen_due(60_000_000_000));
    assert!(last_seen_due(60_000_000_001));
}

#[test]
fn first_name_is_taken_and_encoder_prepared() {
    let mut s = ClientState::new();
    assert!(s.on_first_frame(ServerFrame::Close).is_none());
    assert!(s
        .on_first_frame(text(ServerMessage::ClientIdle { id: "x".to_string() }))
        .is_none());
    assert!(s.capabilities_message().is_none());
    match s.on_first_frame(text(client_id("me", "j"))) {
        Some(ClientAction::Prepare { id }) => assert_eq!(id, "me"),
        _ => panic!("no encoder prepared"),
    }
    s.processor_ready(FfmpegProcessor::new("me", HwEncoder::Nvenc));
    s.processor_ready(FfmpegProcessor::new("me", HwEncoder::Amf));
    match s.capabilities_message() {
        Some(ClientMessage::Capabilities { encoders }) => assert!(encoders.has_nvenc),
        _ => panic!("no capabilities told"),
    }
    assert_eq!(s.client_id().as_deref(), Some("me"));
    assert_eq!(s.job_id(), None);
    assert!(matches!(
        s.on_first_frame(text(client_id("you", ""))),
        Some(ClientAction::Wait)
    ));
    assert_eq!(s.client_id().as_deref(), Some("you"));
}

#[test]
fn names_and_jobs_are_noted() {
    let mut s = ready();
    let mut c = ChunkState::default();
    s.on_frame(&mut c, text(client_id("me", "")));
    assert_eq!(s.job_id(), None);
    s.on_frame(&mut c, text(client_id("other", "j")));
    assert_eq!(s.client_id().as_deref(), Some("me"));
    assert_eq!(s.job_id().as_deref(), Some("j"));
}

#[test]
fn benchmark_with_its_video_is_run_at_once() {
    let mut s = ready();
    let mut c = ChunkState::default();
    match s.on_frame(&mut c, text(benchmark(b"abc", "j"))) {
        ClientAction::Benchmark { data, format, params } => {
            assert_eq!(data, b"abc");
            assert_eq!(format, "mp4");
            assert_eq!(params, vec!["-p"]);
        }
        _ => panic!("no benchmark"),
    }
    assert_eq!(s.job_id().as_deref(), Some("j"));
    assert!(c.current_job_id.is_none());
    match s.benchmark_done(Ok(fps(24.5))) {
        ClientMessage::BenchmarkResult { fps: f } => assert_eq!(f64::from_bits(f.bits), 24.5),
        _ => panic!("no result"),
    }
    assert!(s.benchmark_completed());
    match s.benchmark_done(Err("no".to_string())) {
        ClientMessage::SegmentFailed { error } => assert_eq!(error, "Benchmark failed: no"),
        _ => panic!("no failure"),
    }
    assert!(!s.benchmark_completed());
}

#[test]
fn announced_benchmark_waits_for_its_video() {
    let mut s = ready();
    let mut c = ChunkState::default();
    assert!(matches!(
        s.on_frame(&mut c, ServerFrame::Binary(vec![9])),
        ClientAction::Wait
    ));
    assert_eq!(c.accumulated_data, vec![9]);
    assert!(matches!(
        s.on_frame(&mut c, text(benchmark(b"", "j"))),
        ClientAction::Wait
    ));
    assert!(c.accumulated_data.is_empty());
    match s.on_frame(&mut c, ServerFrame::Binary(vec![1, 2])) {
        ClientAction::Benchmark { data, format, params } => {
            assert_eq!((data, format.as_str()), (vec![1, 2], "mp4"));
            assert_eq!(params, vec!["-p"]);
        }
        _ => panic!("no benchmark"),
    }
    assert!(c.current_job_id.is_none() && c.accumulated_data.is_empty());
}

#[test]
fn client_without_encoder_runs_nothing() {
    let mut s = ClientState::new();
    let mut c = ChunkState::default();
    s.benchmark_done(Ok(fps(1.0)));
    assert!(matches!(s.on_frame(&mut c, text(segment("s"))), ClientAction::Wait));
    assert!(matches!(
        s.on_frame(&mut c, text(benchmark(b"abc", "j"))),
        ClientAction::Wait
    ));
    assert!(!s.benchmark_completed());
    s.on_frame(&mut c, text(benchmark(b"", "j")));
    assert!(matches!(
        s.on_frame(&mut c, ServerFrame::Binary(vec![1])),
        ClientAction::Wait
    ));
    assert!(c.current_job_id.is_none());
}

#[test]
fn segments_wait_for_the_benchmark() {
    let mut s = ready();
    let mut c = ChunkState::default();
    assert!(matches!(s.on_frame(&mut c, text(segment("s"))), ClientAction::Wait));
    s.on_frame(&mut c, text(benchmark(b"abc", "j")));
    s.benchmark_done(Ok(fps(1.0)));
    match s.on_frame(&mut c, text(segment("s"))) {
        ClientAction::Encode { data, format, segment_id, params } => {
            assert_eq!((data, segment_id.as_str()), (vec![1, 2], "s"));
            assert_eq!(format, "mkv");
            assert_eq!(params, vec!["-q"]);
        }
        _ => panic!("nothing encoded"),
    }
    s.on_frame(&mut c, text(client_id("me", "j")));
    assert!(s.benchmark_completed());
    s.on_frame(&mut c, text(client_id("me", "k")));
    assert!(!s.benchmark_completed());
    assert!(matches!(s.on_frame(&mut c, text(segment("s"))), ClientAction::Wait));
}

#[test]
fn jobs_end_by_completion_error_or_rest() {
    let mut s = ready();
    let mut c = ChunkState::default();
    let done = |id: &str| ServerMessage::JobComplete {
        job_id: id.to_string(),
        download_url: Some("u".to_string()),
    };
    s.set_job_id("j");
    s.on_frame(&mut c, text(done("other")));
    assert_eq!(s.job_id().as_deref(), Some("j"));
    s.on_frame(&mut c, text(done("j")));
    assert_eq!(s.job_id(), None);
    s.set_job_id("j");
    s.benchmark_done(Ok(fps(1.0)));
    s.on_frame(
        &mut c,
        text(ServerMessage::Error { code: "X".to_string(), message: "y".to_string() }),
    );
    assert_eq!(s.job_id(), None);
    assert!(!s.benchmark_completed());
    s.set_job_id("j");
    s.on_frame(&mut c, text(ServerMessage::ClientIdle { id: "broadcast".to_string() }));
    assert_eq!(s.job_id(), None);
    assert_eq!(s.client_id().as_deref(), Some("broadcast"));
    s.set_job_id("j");
    s.reset_job_state();
    assert_eq!(s.job_id(), None);
}

#[test]
fn idle_newcomer_prepares_an_encoder() {
    let mut s = ClientState::new();
    let mut c = ChunkState::default();
    let idle = || text(ServerMessage::ClientIdle { id: "me".to_string() });
    assert!(matches!(
        s.on_frame(&mut c, idle()),
        ClientAction::Prepare { id } if id == "me"
    ));
    assert!(matches!(s.on_frame(&mut c, idle()), ClientAction::Wait));
}

#[test]
fn other_frames_are_answered_or_passed_over() {
    let mut s = ready();
    let mut c = ChunkState::default();
    assert!(matches!(
        s.on_frame(&mut c, ServerFrame::Ping(vec![7])),
        ClientAction::Pong(d) if d == vec![7]
    ));
    assert!(matches!(s.on_frame(&mut c, ServerFrame::Pong), ClientAction::Wait));
    assert!(matches!(s.on_frame(&mut c, ServerFrame::Raw), ClientAction::Wait));
    assert!(matches!(s.on_frame(&mut c, ServerFrame::Text(None)), ClientAction::Wait));
    assert!(matches!(s.on_frame(&mut c, ServerFrame::Close), ClientAction::Stop));
    assert!(matches!(s.on_frame(&mut c, ServerFrame::Failed), ClientAction::Stop));
}

#[test]
fn segment_results_are_told() {
    match segment_done("s".to_string(), "mp4".to_string(), Ok((vec![5], fps(2.0)))) {
        ClientMessage::SegmentComplete { segment_id, fps: f, data, format } => {
            assert_eq!((segment_id.as_str(), format.as_str()), ("s", "mp4"));
            assert_eq!((data, f), (vec![5], fps(2.0)));
        }
        _ => panic!("no segment"),
    }
    assert!(matches!(
        segment_done("s".to_string(), "mp4".to_string(), Err("bad".to_string())),
        ClientMessage::SegmentFailed { error } if error == "bad"
    ));
}

#[test]
fn client_name_is_kept_between_runs() {
    let (kept, store) = StorageManager::get_or_create_client_id(Some("me".to_string()));
    assert_eq!((kept.get_id(), store), ("me", false));
    let (new, store) = StorageManager::get_or_create_client_id(None);
    assert!(store);
    assert_eq!(new.get_id().len(), 36);
    let (given, store) = StorageManager::from_stored(None, "n".to_string());
    assert_eq!((given.get_id(), store), ("n", true));
    assert_eq!(database_url("/d/client.db"), "sqlite:/d/client.db");
    assert_eq!(database_dir().parts, vec!["work", "db"]);
    assert_eq!(database_file().parts, vec!["work", "db", "client.db"]);
}
