use ffmpeg_cluster::client::ffmpeg::{FfmpegProcessor, HwEncoder};
use ffmpeg_cluster::client::state::{
    segment_done, ChunkState, ClientAction, ClientState, ServerFrame,
};
use ffmpeg_cluster::models::config::ServerConfig;
use ffmpeg_cluster::models::measure::Fps;
use ffmpeg_cluster::models::messages::{ClientMessage, ServerMessage};
use ffmpeg_cluster::server::chunks::{announce, cut_chunks};
use ffmpeg_cluster::server::command::upload_and_process_as;
use ffmpeg_cluster::server::segment_manager::SegmentData;
use ffmpeg_cluster::server::state::{
    action_for, assign, AppState, ClientFrame, FailureStep, ServerAction,
};

fn server() -> AppState {
    let mut config = ServerConfig::default();
    config.required_clients = 1;
    AppState::new_as(config, "first".to_string())
}

fn start(s: &mut AppState) {
    upload_and_process_as(
        s,
        "j".to_string(),
        "in.mp4".to_string(),
        "work/in.mp4".to_string(),
        None,
        1,
    );
}

fn client() -> ClientState {
    let mut c = ClientState::new();
    c.processor_ready(FfmpegProcessor::new("c", HwEncoder::Software));
    c
}

fn told(c: &mut ClientState, notice: ServerMessage) -> ClientAction {
    c.on_frame(&mut ChunkState::default(), ServerFrame::Text(Some(notice)))
}

fn sample(data: &[u8]) -> SegmentData {
    SegmentData {
        data: data.to_vec(),
        format: "mp4".to_string(),
        segment_id: "benchmark_u".to_string(),
    }
}

#[test]
fn benchmark_that_is_asked_for_is_run() {
    let mut c = client();
    let params = vec!["-p".to_string()];
    let asked = server().ask_benchmark(sample(b"video"), &params, "j");
    match told(&mut c, asked.notice) {
        ClientAction::Benchmark { data, format, params: p } => {
            assert_eq!((data.as_slice(), format.as_str()), (&b"video"[..], "mp4"));
            assert_eq!(p, params);
        }
        _ => panic!("no benchmark"),
    }
    assert_eq!(c.job_id().as_deref(), Some("j"));
}

#[test]
fn small_sample_is_benchmarked_whole() {
    let mut c = client();
    let mut chunks = ChunkState::default();
    let data = vec![3u8; 1000];
    let first = announce("j".to_string(), "mp4".to_string(), "-a -b");
    assert!(matches!(
        c.on_frame(&mut chunks, ServerFrame::Text(Some(first))),
        ClientAction::Wait
    ));
    let mut pieces = cut_chunks(&ServerConfig::default(), &data);
    assert_eq!(pieces.len(), 1);
    match c.on_frame(&mut chunks, ServerFrame::Binary(pieces.remove(0))) {
        ClientAction::Benchmark { data: d, params, .. } => {
            assert_eq!(d, data);
            assert_eq!(params, vec!["-a", "-b"]);
        }
        _ => panic!("no benchmark"),
    }
}

#[test]
fn job_goes_from_server_to_client_and_back() {
    let mut s = server();
    let mut c = client();
    s.connect_as("c");
    start(&mut s);

    told(&mut c, s.ask_benchmark(sample(b"v"), &Vec::new(), "j").notice);
    let speed = Fps { bits: 25.0f64.to_bits() };
    let answer = c.benchmark_done(Ok(speed));
    let fps = match action_for(ClientFrame::Text(Some(answer))) {
        ServerAction::Measured(fps) => fps,
        _ => panic!("not measured"),
    };
    let (job_id, clients) = s.record_benchmark("c", fps).unwrap();
    assert_eq!(job_id, "j");
    for a in assign(&clients, 50) {
        let plan = s.segment_manager.plan_segment("mp4", a.range.start);
        let order = s.hand_out(&job_id, &a.client_id, plan.finish(vec![7]));
        assert_eq!(order.target.as_deref(), Some("c"));
        let (segment_id, format) = match told(&mut c, order.notice) {
            ClientAction::Encode { data, format, segment_id, params } => {
                assert_eq!(data, vec![7]);
                assert_eq!(params, vec!["-c:v", "libx264", "-preset", "medium"]);
                (segment_id, format)
            }
            _ => panic!("not encoded"),
        };
        let back: ClientMessage = segment_done(segment_id, format, Ok((vec![8], speed)));
        match action_for(ClientFrame::Text(Some(back))) {
            ServerAction::Take { segment, fps } => {
                let outcome = s.take_segment("c", segment, fps);
                assert!(outcome.complete);
                assert_eq!(outcome.job_id.as_deref(), Some("j"));
            }
            _ => panic!("not taken"),
        }
    }
    assert_eq!(s.segment_manager.segment_of("c").map(|d| d.data.clone()), Some(vec![8]));

    let (messages, next) = s.complete_job("j", None, 1);
    assert!(next.is_none());
    for m in messages {
        told(&mut c, m.notice);
    }
    assert_eq!(c.job_id(), None);
    assert!(!c.benchmark_completed());
    assert!(s.record_benchmark("c", speed).is_none());
}

#[test]
fn failed_job_frees_its_clients() {
    let mut s = server();
    let mut c = client();
    start(&mut s);
    c.set_job_id("j");
    let failure: ClientMessage =
        segment_done("s".to_string(), "mp4".to_string(), Err("broken".to_string()));
    let error = match action_for(ClientFrame::Text(Some(failure))) {
        ServerAction::Failed { error } => error,
        _ => panic!("failure not noted"),
    };
    match s.segment_failed("c", &error, 1) {
        FailureStep::GaveUp(messages) => {
            for m in messages {
                told(&mut c, m.notice);
            }
        }
        FailureStep::TryAgain { .. } => panic!("nothing was handed out"),
    }
    assert_eq!(c.job_id(), None);
    assert_eq!(s.current_job, None);
}

#[test]
fn failed_segment_is_encoded_again() {
    let mut s = server();
    let mut c = client();
    s.connect_as("c");
    start(&mut s);
    told(&mut c, s.ask_benchmark(sample(b"v"), &Vec::new(), "j").notice);
    c.benchmark_done(Ok(Fps { bits: 25.0f64.to_bits() }));
    let order = s.hand_out("j", "c", sample(b"piece"));
    assert!(matches!(
        told(&mut c, order.notice),
        ClientAction::Encode { data, .. } if data == b"piece".to_vec()
    ));
    match s.segment_failed("c", "broken", 2) {
        FailureStep::TryAgain { delay } => {
            assert_eq!(delay, 5);
            let order = s.order_again("c").unwrap();
            assert!(matches!(
                told(&mut c, order.notice),
                ClientAction::Encode { data, .. } if data == b"piece".to_vec()
            ));
        }
        FailureStep::GaveUp(_) => panic!("given up"),
    }
}
