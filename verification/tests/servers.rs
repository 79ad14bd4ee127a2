use ffmpeg_cluster::file_transfer::FileTransferMessage;
use ffmpeg_cluster::models::config::{ServerConfig, ServerOptions};
use ffmpeg_cluster::models::measure::{Fps, Progress};
use ffmpeg_cluster::models::messages::{
    ClientMessage, ClientStatus, JobConfig, JobStatus, ServerCommand, ServerMessage as Notice,
    ServerResponse,
};
use ffmpeg_cluster::path::PathParts;
use ffmpeg_cluster::server::chunks::{announce, cut_chunks};
use ffmpeg_cluster::server::command::{
    handle_cancel_job, handle_disconnect_client, handle_get_job_status, handle_list_clients,
    handle_list_jobs, handle_process_local_file, handle_process_video_data,
    handle_upload_and_process, input_file_for, on_command_frame, process_local_file_as,
    upload_and_process_as, upload_dir, CommandError, CommandFrame, CommandStep, LocalFile,
    LocalRequest, LocalStart, StartOutcome,
};
use ffmpeg_cluster::server::database::{database_file, database_url};
use ffmpeg_cluster::server::job_queue::{JobQueue, Stage};
use ffmpeg_cluster::server::segment_manager::SegmentData;
use ffmpeg_cluster::server::state::{
    action_for, assign, deliver, distribution_failure, idle_message, output_name, AppState,
    ClientFrame, Delivery, DistributeError, FailureStep, Outgoing, ServerAction, ServerMessage,
};
use ffmpeg_cluster::server::upload_handler::{check_written, Status, UploadRefusal};
use ffmpeg_cluster::transfer_handler::FileTransfer;

fn fps(x: f64) -> Fps {
    Fps { bits: x.to_bits() }
}

fn server(required_clients: usize) -> AppState {
    let mut config = ServerConfig::default();
    config.required_clients = required_clients;
    AppState::new_as(config, "first".to_string())
}

fn settings(required_clients: usize) -> JobConfig {
    JobConfig {
        ffmpeg_params: vec!["-p".to_string()],
        required_clients,
        exactly: false,
    }
}

fn piece(id: &str) -> SegmentData {
    SegmentData { data: vec![1], format: "mp4".to_string(), segment_id: id.to_string() }
}

fn found(path: &str, config: Option<JobConfig>) -> LocalFile {
    LocalRequest::new("f".to_string(), config).found(path.to_string())
}

fn queue_file(s: &mut AppState, id: &str, now: u64) -> bool {
    let start = process_local_file_as(
        s,
        id.to_string(),
        "in.mp4".to_string(),
        found(&format!("/videos/{}.mp4", id), None),
        "h264".to_string(),
        now,
    );
    assert_eq!(start.job_id, id);
    start.next.is_some()
}

fn status(s: &AppState, id: &str) -> JobStatus {
    s.job_queue.get_job(id).unwrap().info.status
}

fn is_idle(o: &Outgoing) -> bool {
    o.target.is_none() && matches!(&o.notice, Notice::ClientIdle { id } if id == "broadcast")
}

#[test]
fn settings_have_their_standard_values() {
    let c = ServerConfig::default();
    assert_eq!((c.required_clients, c.benchmark_seconds, c.port), (3, 10, 5001));
    assert_eq!((c.chunk_size, c.max_retries, c.retry_delay), (1048576, 3, 5));
    assert_eq!((c.read_timeout, c.write_timeout), (60, 60));
    assert_eq!(c.max_message_size, 1048576000);
    assert_eq!(c.ffmpeg_params, "-c:v libx264 -preset medium");
    assert_eq!(c.file_name_output, "output.mp4");
    assert!(c.exactly && c.key.is_empty() && c.file_name.is_empty());
    let started = ServerConfig::from_options(ServerOptions::default());
    assert_eq!((started.required_clients, started.benchmark_seconds), (3, 10));
    assert_eq!(started.max_message_size, 1048576000);
}

#[test]
fn speed_is_positive_above_zero() {
    assert!(fps(0.001).positive() && fps(f64::INFINITY).positive());
    assert!(fps(f64::MIN_POSITIVE / 2.0).positive());
    assert!(!fps(0.0).positive() && !fps(-0.0).positive());
    assert!(!fps(-3.0).positive() && !fps(f64::NAN).positive() && !fps(-f64::NAN).positive());
    assert!(!Fps::zero().positive());
}

#[test]
fn clients_are_greeted() {
    let mut s = server(1);
    assert!(matches!(s.connect_as("c"), Notice::ClientIdle { id } if id == "c"));
    assert_eq!(s.clients.get("c"), Some(&fps(0.0)));
    s.current_job = Some("j".to_string());
    let (id, notice) = s.connect();
    assert_eq!(id.len(), 36);
    match notice {
        Notice::ClientId { id: named, job_id } => {
            assert_eq!((named, job_id.as_str()), (id.clone(), "j"));
        }
        _ => panic!("not told of the job"),
    }
    assert_ne!(id, s.connect().0);
    s.disconnect(&id);
    assert_eq!(s.clients.len(), 2);
}

#[test]
fn client_with_a_segment_stays_known() {
    let mut s = server(1);
    s.connect_as("c");
    s.connect_as("d");
    s.take_segment("c", piece("s"), fps(1.0));
    s.disconnect("c");
    s.disconnect("d");
    assert_eq!(s.clients.keys(), vec!["c"]);
}

#[test]
fn work_starts_when_all_clients_are_measured() {
    let mut s = server(2);
    s.connect_as("c");
    assert!(s.record_benchmark("c", fps(30.0)).is_none());
    s.connect_as("d");
    assert!(s.record_benchmark("d", fps(10.0)).is_none());
    s.current_job = Some("j".to_string());
    assert!(s.record_benchmark("d", fps(0.0)).is_none());
    let (job, clients) = s.record_benchmark("d", fps(12.0)).unwrap();
    assert_eq!(job, "j");
    assert_eq!(clients, vec![("c".to_string(), fps(30.0)), ("d".to_string(), fps(12.0))]);
    s.connect_as("e");
    assert!(s.record_benchmark("d", fps(12.0)).is_none());
    assert!(s.record_benchmark("nobody", fps(12.0)).is_none());
    assert_eq!(s.clients.len(), 3);
}

#[test]
fn frames_are_assigned_to_clients_by_their_speeds() {
    let assigned = |a: f64, b: f64, total: u64| -> Vec<(String, u64, u64)> {
        let clients = vec![("a".to_string(), fps(a)), ("b".to_string(), fps(b))];
        assign(&clients, total)
            .into_iter()
            .map(|a| (a.client_id, a.range.start, a.range.end))
            .collect()
    };
    let named = |x: u64, total: u64| vec![("a".to_string(), 0, x), ("b".to_string(), x, total)];
    assert_eq!(assigned(60.0, 10.0, 5), named(3, 5));
    assert_eq!(assigned(10.0, 60.0, 5), named(2, 5));
    assert_eq!(assigned(10.0, 10.0, 5), named(3, 5));
    assert_eq!(assigned(10.0, 60.0, 4), named(2, 4));
}

#[test]
fn job_goes_through_its_stages() {
    let mut s = server(1);
    s.connect_as("c");
    queue_file(&mut s, "j1", 1);
    queue_file(&mut s, "j2", 2);
    assert_eq!(status(&s, "j1"), JobStatus::WaitingForClients);
    assert_eq!(status(&s, "j2"), JobStatus::Queued);
    s.ask_benchmark(piece("b"), &Vec::new(), "j1");
    assert_eq!(status(&s, "j1"), JobStatus::Benchmarking);
    s.record_benchmark("c", fps(5.0));
    s.hand_out("j1", "c", piece("s"));
    assert_eq!(status(&s, "j1"), JobStatus::Processing);
    assert!(s.take_segment("c", piece("s"), fps(5.0)).complete);
    assert_eq!(status(&s, "j1"), JobStatus::Combining);
    s.complete_job("j1", None, 3);
    assert_eq!(status(&s, "j1"), JobStatus::Completed);
    assert_eq!(status(&s, "j2"), JobStatus::WaitingForClients);
    s.ask_benchmark(piece("b"), &Vec::new(), "j1");
    assert_eq!(status(&s, "j1"), JobStatus::Completed);
}

#[test]
fn stages_are_noted_of_queued_jobs_only() {
    let mut q = JobQueue::new();
    let name = |n: &str| n.to_string();
    q.add_named_job(name("a"), name("/p"), name("p"), settings(1), name("h264"), 1);
    let told = |q: &JobQueue| q.get_job("a").unwrap().info.status;
    for (stage, want) in [
        (Stage::Benchmarking, JobStatus::Benchmarking),
        (Stage::Processing, JobStatus::Processing),
        (Stage::Combining, JobStatus::Combining),
    ] {
        assert_eq!(stage.status(), want);
        q.enter_stage("a", stage);
        assert_eq!(told(&q), want);
    }
    q.enter_stage("nobody", Stage::Processing);
    assert!(q.is_queued("a") && !q.is_queued("nobody"));
    assert!(q.cancel_job("a", 2));
    assert!(!q.is_queued("a"));
    q.enter_stage("a", Stage::Processing);
    assert_eq!(told(&q), JobStatus::Cancelled);
}

#[test]
fn failed_segment_is_tried_again() {
    let mut s = server(1);
    s.config.max_retries = 2;
    s.config.retry_delay = 7;
    s.connect_as("c");
    queue_file(&mut s, "j1", 1);
    s.hand_out("j1", "c", piece("s"));
    for _ in 0..2 {
        match s.segment_failed("c", "boom", 3) {
            FailureStep::TryAgain { delay } => {
                let order = s.order_again("c").unwrap();
                assert_eq!((delay, order.target.as_deref()), (7, Some("c")));
                match order.notice {
                    Notice::ProcessSegment { data, segment_id, job_id, .. } => {
                        assert_eq!(data, vec![1]);
                        assert_eq!((segment_id.as_str(), job_id.as_str()), ("s", "j1"));
                    }
                    _ => panic!("no segment"),
                }
            }
            FailureStep::GaveUp(_) => panic!("given up"),
        }
        assert_eq!(status(&s, "j1"), JobStatus::Processing);
    }
    match s.segment_failed("c", "boom", 4) {
        FailureStep::GaveUp(messages) => assert_eq!(messages.len(), 2),
        FailureStep::TryAgain { .. } => panic!("tried too often"),
    }
    assert_eq!(status(&s, "j1"), JobStatus::Failed);
    assert_eq!(s.orders.len(), 0);
    assert!(s.order_again("c").is_none());
}

#[test]
fn order_of_another_job_is_not_repeated() {
    let mut s = server(1);
    s.connect_as("c");
    queue_file(&mut s, "j1", 1);
    assert!(s.order_again("c").is_none());
    s.hand_out("j1", "c", piece("s"));
    assert!(s.order_again("c").is_some() && s.order_again("d").is_none());
    s.current_job = Some("j2".to_string());
    assert!(s.order_again("c").is_none());
    assert!(matches!(s.segment_failed("c", "boom", 2), FailureStep::GaveUp(_)));
}

#[test]
fn waiting_job_is_taken_up_when_its_clients_are_there() {
    let mut s = server(2);
    s.connect_as("c");
    queue_file(&mut s, "j1", 1);
    s.clients.insert("c".to_string(), fps(9.0));
    s.segment_manager.add_pending_segment("old".to_string());
    s.current_input = Some("old.mp4".to_string());
    assert!(s.take_up_waiting().is_none());
    assert_eq!(s.current_input.as_deref(), Some("old.mp4"));
    s.connect_as("d");
    let next = s.take_up_waiting().unwrap();
    assert_eq!((next.job_id.as_str(), next.input.as_str()), ("j1", "/videos/j1.mp4"));
    assert_eq!((next.params.len(), next.required_clients), (4, 2));
    assert_eq!(s.current_input.as_deref(), Some("/videos/j1.mp4"));
    assert_eq!(s.segment_manager.get_job_id(), "j1");
    assert_eq!(s.segment_manager.get_completion_percentage(), Progress { done: 0, total: 1 });
    assert_eq!(s.clients.get("c"), Some(&fps(0.0)));
    s.ask_benchmark(piece("b"), &next.params, "j1");
    assert!(s.take_up_waiting().is_none());
    handle_cancel_job(&mut s, "j1".to_string(), 2);
    assert!(s.take_up_waiting().is_none());
    assert!(server(0).take_up_waiting().is_none());
}

#[test]
fn output_is_kept_under_the_name_of_the_settings_too() {
    let mut s = server(1);
    assert_eq!(s.output_copy("j").as_deref(), Some("output.mp4"));
    s.config.file_name_output = "output_j.mp4".to_string();
    assert_eq!(s.output_copy("j"), None);
    assert_eq!(s.output_copy("k").as_deref(), Some("output_j.mp4"));
    s.config.file_name_output = String::new();
    assert_eq!(s.output_copy("j"), None);
}

#[test]
fn segment_that_came_back_is_not_tried_again() {
    let mut s = server(1);
    s.connect_as("c");
    queue_file(&mut s, "j1", 1);
    s.hand_out("j1", "c", piece("s"));
    s.take_segment("c", piece("s"), fps(5.0));
    assert!(matches!(s.segment_failed("c", "late", 2), FailureStep::GaveUp(m) if m.len() == 2));
    assert!(matches!(s.segment_failed("c", "late", 2), FailureStep::GaveUp(m) if m.is_empty()));
}

#[test]
fn retries_go_by_the_settings() {
    let mut c = ServerConfig::default();
    assert_eq!((c.retry_after(0), c.retry_after(2), c.retry_after(3)), (Some(5), Some(5), None));
    c.max_retries = 0;
    assert_eq!(c.retry_after(0), None);
    c.max_retries = u32::MAX;
    assert_eq!(c.retry_after(u32::MAX), None);
}

#[test]
fn segments_are_handed_out_with_the_servers_parameters() {
    let mut s = server(1);
    s.connect_as("c");
    let o = s.hand_out("j", "c", piece("s"));
    assert_eq!(o.target.as_deref(), Some("c"));
    match o.notice {
        Notice::ProcessSegment { data, format, segment_id, params, job_id } => {
            assert_eq!((data, format.as_str()), (vec![1], "mp4"));
            assert_eq!((segment_id.as_str(), job_id.as_str()), ("s", "j"));
            assert_eq!(params, vec!["-c:v", "libx264", "-preset", "medium"]);
        }
        _ => panic!("no segment"),
    }
    let out = s.take_segment("c", piece("s"), fps(20.0));
    assert!(out.complete);
    assert_eq!(out.progress, Progress { done: 1, total: 1 });
    assert_eq!(out.job_id, None);
    assert_eq!(s.clients.get("c"), Some(&fps(20.0)));
}

#[test]
fn input_is_needed_to_hand_out() {
    let mut s = server(1);
    assert_eq!(s.input_file().unwrap_err().message(), "No input file available");
    s.current_input = Some("f".to_string());
    assert_eq!(s.input_file().unwrap(), "f");
    assert_eq!(
        DistributeError::NoInfo("x".to_string()).message(),
        "Failed to get video info: x"
    );
    assert_eq!(distribution_failure("x"), "Failed to distribute segments: x");
}

#[test]
fn given_up_job_fails_and_the_next_comes() {
    let mut s = server(1);
    assert!(queue_file(&mut s, "j1", 1));
    assert!(!queue_file(&mut s, "j2", 2));
    let sent = s.give_up("boom", 9);
    assert_eq!(sent.len(), 2);
    match &sent[0].notice {
        Notice::Error { code, message } => {
            assert_eq!((code.as_str(), message.as_str()), ("SEGMENT_FAILED", "boom"));
        }
        _ => panic!("error not told"),
    }
    assert!(sent[0].target.is_none() && is_idle(&sent[1]));
    assert_eq!(status(&s, "j1"), JobStatus::Failed);
    assert_eq!(status(&s, "j2"), JobStatus::WaitingForClients);
    assert_eq!(s.current_job.as_deref(), Some("j2"));
    assert_eq!(s.current_input.as_deref(), Some("/videos/j1.mp4"));
    let more = s.distribution_failed("why", 10);
    assert_eq!(more.len(), 2);
    let j2 = s.job_queue.get_job("j2").unwrap();
    assert_eq!(j2.info.error.as_deref(), Some("Failed to distribute segments: why"));
    assert_eq!(s.current_job, None);
    assert!(s.give_up("again", 11).is_empty());
}

#[test]
fn distribution_failure_reaches_the_next_job() {
    let mut s = server(1);
    queue_file(&mut s, "j1", 1);
    queue_file(&mut s, "j2", 2);
    queue_file(&mut s, "j3", 3);
    assert_eq!(s.distribution_failed("why", 10).len(), 4);
    let error = |id: &str| s.job_queue.get_job(id).unwrap().info.error.clone();
    assert_eq!(error("j1").as_deref(), Some("Failed to distribute segments: why"));
    assert_eq!(error("j2").as_deref(), Some("why"));
    assert_eq!(error("j3"), None);
    assert_eq!(s.current_job.as_deref(), Some("j3"));
}

#[test]
fn completed_job_frees_clients_and_starts_the_next() {
    let mut s = server(1);
    s.connect_as("c");
    queue_file(&mut s, "j1", 1);
    queue_file(&mut s, "j2", 2);
    s.record_benchmark("c", fps(5.0));
    s.take_segment("c", piece("s"), fps(5.0));
    s.report_progress("j1", 50);
    assert_eq!(
        s.job_queue.get_job("j1").unwrap().info.progress,
        Progress { done: 50, total: 100 }
    );
    let (sent, next) = s.complete_job("j1", Some("url".to_string()), 7);
    assert_eq!(sent.len(), 1);
    match &sent[0].notice {
        Notice::JobComplete { job_id, download_url } => {
            assert_eq!((job_id.as_str(), download_url.as_deref()), ("j1", Some("url")));
        }
        _ => panic!("completion not told"),
    }
    let next = next.unwrap();
    assert_eq!((next.job_id.as_str(), next.input.as_str()), ("j2", "/videos/j2.mp4"));
    assert_eq!(next.params, vec!["-c:v", "libx264", "-preset", "medium"]);
    assert_eq!(s.current_input.as_deref(), Some("/videos/j2.mp4"));
    assert_eq!(s.segment_manager.get_job_id(), "j2");
    assert_eq!(s.segment_manager.get_segment_count(), 0);
    assert_eq!(s.clients.get("c"), Some(&fps(0.0)));
    let info = &s.job_queue.get_job("j1").unwrap().info;
    assert_eq!((info.status, info.completed_at), (JobStatus::Completed, Some(7)));
    assert_eq!(info.progress, Progress { done: 1, total: 1 });
    let (sent, next) = s.complete_job("j2", None, 8);
    assert!(next.is_none() && sent.len() == 2 && is_idle(&sent[1]));
    assert_eq!((s.current_job.clone(), s.current_input.clone()), (None, None));
}

#[test]
fn failed_combination_keeps_the_job_at_hand() {
    let mut s = server(1);
    queue_file(&mut s, "j1", 1);
    s.fail_job("j1", "mismatch", 3);
    assert_eq!(status(&s, "j1"), JobStatus::Failed);
    assert_eq!(s.current_job.as_deref(), Some("j1"));
    assert!(s.start_next().is_none());
    assert_eq!(output_name("j1"), "output_j1.mp4");
}

#[test]
fn messages_reach_whom_they_concern() {
    let message = |target: Option<&str>| ServerMessage {
        target: target.map(|t| t.to_string()),
        content: "content".to_string(),
    };
    let named = || Notice::ClientId { id: "broadcast".to_string(), job_id: "j".to_string() };
    let idle = || Notice::ClientIdle { id: "broadcast".to_string() };
    assert!(matches!(deliver(message(None), None, "c"), Delivery::Skip));
    assert!(matches!(deliver(message(Some("d")), Some(idle()), "c"), Delivery::Skip));
    assert!(matches!(
        deliver(message(Some("c")), Some(idle()), "c"),
        Delivery::Forward(t) if t == "content"
    ));
    match deliver(message(None), Some(named()), "c") {
        Delivery::Send(Notice::ClientId { id, job_id }) => {
            assert_eq!((id.as_str(), job_id.as_str()), ("c", "j"));
        }
        _ => panic!("client not named"),
    }
}

#[test]
fn client_frames_lead_to_actions() {
    let text = |m: ClientMessage| action_for(ClientFrame::Text(Some(m)));
    assert!(matches!(
        text(ClientMessage::BenchmarkResult { fps: fps(2.0) }),
        ServerAction::Measured(f) if f == fps(2.0)
    ));
    match text(ClientMessage::SegmentComplete {
        segment_id: "s".to_string(),
        fps: fps(3.0),
        data: vec![4],
        format: "mkv".to_string(),
    }) {
        ServerAction::Take { segment, fps: f } => {
            assert_eq!((segment.segment_id.as_str(), segment.format.as_str()), ("s", "mkv"));
            assert_eq!((segment.data, f), (vec![4], fps(3.0)));
        }
        _ => panic!("segment not taken"),
    }
    assert!(matches!(
        text(ClientMessage::SegmentFailed { error: "e".to_string() }),
        ServerAction::Failed { error } if error == "e"
    ));
    assert!(matches!(
        text(ClientMessage::UploadAndProcessFile {
            file_name: "f".to_string(),
            data: vec![1],
            config: None,
            participate: true,
        }),
        ServerAction::Upload { file_name, .. } if file_name == "f"
    ));
    assert!(matches!(
        text(ClientMessage::RequestId { participate: false }),
        ServerAction::Wait
    ));
    assert!(matches!(action_for(ClientFrame::Text(None)), ServerAction::Wait));
    assert!(matches!(action_for(ClientFrame::Binary), ServerAction::Wait));
    assert!(matches!(
        action_for(ClientFrame::Ping(vec![1])),
        ServerAction::Pong(d) if d == vec![1]
    ));
    assert!(matches!(action_for(ClientFrame::Pong), ServerAction::Wait));
    for end in [ClientFrame::Close, ClientFrame::Failed, ClientFrame::End] {
        assert!(matches!(action_for(end), ServerAction::Stop));
    }
}

#[test]
fn benchmark_is_asked_of_all() {
    let o = server(1).ask_benchmark(piece("b"), &vec!["-p".to_string()], "j");
    assert!(o.target.is_none());
    match o.notice {
        Notice::BenchmarkRequest { data, format, params, job_id } => {
            assert_eq!((data, format.as_str()), (vec![1], "mp4"));
            assert_eq!((params, job_id.as_str()), (vec!["-p".to_string()], "j"));
        }
        _ => panic!("no benchmark"),
    }
    assert!(is_idle(&idle_message()));
}

#[test]
fn chunks_give_the_data_again() {
    let mut config = ServerConfig::default();
    assert_eq!(config.chunk_size, 1024 * 1024);
    for size in [1024 * 1024, 1000] {
        config.chunk_size = size;
        for len in [0usize, 1, size, size + 1, 2 * size] {
            let data: Vec<u8> = (0..len).map(|i| (i % 253) as u8).collect();
            let chunks = cut_chunks(&config, &data);
            assert_eq!(chunks.len(), (len + size - 1) / size);
            assert_eq!(chunks.concat(), data);
        }
    }
    match announce("j".to_string(), "mp4".to_string(), "-a  b") {
        Notice::BenchmarkRequest { data, format, params, job_id } => {
            assert!(data.is_empty());
            assert_eq!((format.as_str(), job_id.as_str()), ("mp4", "j"));
            assert_eq!(params, vec!["-a", "b"]);
        }
        _ => panic!("nothing announced"),
    }
}

#[test]
fn jobs_are_served_first_come_first_served() {
    let mut q = JobQueue::new();
    let name = |n: &str| n.to_string();
    for (id, now) in [("a", 1u64), ("b", 5), ("c", 3)] {
        q.add_named_job(name(id), name("/p"), name("p"), settings(1), name("h264"), now);
    }
    let listed: Vec<String> = q.list_jobs().into_iter().map(|j| j.job_id).collect();
    assert_eq!(listed, vec!["b", "c", "a"]);
    assert_eq!(q.get_next_job().map(|j| j.info.job_id.clone()).as_deref(), Some("a"));
    assert!(q.get_next_job().is_none());
    let (id, config, format) = q.notify_new_job().unwrap();
    assert_eq!((id.as_str(), format.as_str()), ("a", "h264"));
    assert!(!config.exactly);
    q.mark_job_started("a");
    assert_eq!(q.get_job("a").unwrap().info.status, JobStatus::WaitingForClients);
    q.mark_job_completed("a", 9);
    assert_eq!(q.get_next_job().map(|j| j.info.job_id.clone()).as_deref(), Some("b"));
    assert!(q.cancel_job("b", 10));
    assert_eq!(q.get_next_job().map(|j| j.info.job_id.clone()).as_deref(), Some("c"));
    assert!(!q.cancel_job("a", 11));
    assert_eq!(q.get_job("a").unwrap().info.status, JobStatus::Cancelled);
    assert!(!q.cancel_job("nobody", 11));
    q.mark_job_failed("c", name("e"), 12);
    assert!(q.get_next_job().is_none() && q.notify_new_job().is_none());
    q.update_progress("c", 1, 0);
    assert_eq!(q.get_job("c").unwrap().info.progress, Progress { done: 0, total: 1 });
    q.update_progress("c", 1, 4);
    assert_eq!(q.get_job("c").unwrap().info.progress, Progress { done: 1, total: 4 });
    if let Some(job) = q.get_job_mut("c") {
        job.format = name("vp9");
    }
    assert_eq!(q.get_job("c").unwrap().format, "vp9");
}

#[test]
fn added_job_is_named_after_its_file() {
    let mut q = JobQueue::new();
    let id = q.add_job("/videos/a b.mp4".to_string(), settings(1), "h264".to_string(), 4);
    let other = q.add_job("d/xy: z/".to_string(), settings(1), "h264".to_string(), 4);
    assert_ne!(id, other);
    assert_eq!(q.get_job(&other).unwrap().info.file_name, "xy: z");
    let info = &q.get_job(&id).unwrap().info;
    assert_eq!((info.file_name.as_str(), info.created_at), ("a b.mp4", 4));
    assert_eq!((info.status, info.completed_at), (JobStatus::Queued, None));
}

#[test]
fn blank_request_is_for_the_standard_file() {
    let request = |path: &str| LocalRequest::new(path.to_string(), None);
    assert_eq!(request("  ").found("/x".to_string()).to_detect(), "test.mp4");
    assert_eq!(request(" a ").found("/x".to_string()).to_detect(), " a ");
    assert_eq!(request("a").place(Some("/home"), false).parts, vec!["/home", "a"]);
    assert_eq!(request("a").place(None, true).parts, vec![".", "a"]);
    assert_eq!(request("/a").place(Some("/home"), false).parts, vec!["/a"]);
    let told = |r: ServerResponse| match r {
        ServerResponse::Error { code, message } => format!("{}: {}", code, message),
        _ => panic!("no error"),
    };
    assert_eq!(
        told(request("").not_found(Some("/d".to_string()))),
        "FILE_NOT_FOUND: File not found: test.mp4. Current working directory: /d"
    );
    assert_eq!(
        told(request("a").unresolved("loop".to_string())),
        "PATH_RESOLUTION_ERROR: Failed to resolve path a: loop"
    );
    assert_eq!(
        told(request("a").found("/d/a".to_string()).undetected("bad".to_string())),
        "FORMAT_DETECTION_FAILED: Failed to detect file format for /d/a: bad"
    );
}

#[test]
fn local_file_is_queued_and_started() {
    let mut s = server(1);
    s.connect_as("c");
    let first = handle_process_local_file(
        &mut s,
        found("/videos/in.mp4", Some(settings(1))),
        "h264".to_string(),
        3,
    );
    let next = first.next.unwrap();
    assert!(first.benchmark);
    assert_eq!(next.job_id, first.job_id);
    assert_eq!((next.params, next.required_clients), (vec!["-p".to_string()], 1));
    assert_eq!(s.segment_manager.input_format().as_deref(), Some("h264"));
    assert_eq!(s.segment_manager.get_job_id(), first.job_id);
    assert_eq!(s.job_queue.get_job(&first.job_id).unwrap().info.file_name, "in.mp4");
    let second = handle_process_local_file(
        &mut s,
        found("/videos/b.mp4", None),
        "vp9".to_string(),
        4,
    );
    assert!(second.next.is_none() && !second.benchmark);
    let mut t = server(5);
    t.connect_as("c");
    let waiting =
        handle_process_local_file(&mut t, found("/v", None), "h264".to_string(), 1);
    assert!(waiting.next.is_some() && !waiting.benchmark);
}

#[test]
fn local_file_is_answered_by_its_outcome() {
    let answer = |o: StartOutcome| {
        LocalStart { job_id: "j".to_string(), next: None, benchmark: false }.answer(o)
    };
    assert!(matches!(
        answer(StartOutcome::Started),
        ServerResponse::JobCreated { job_id } if job_id == "j"
    ));
    assert!(matches!(
        answer(StartOutcome::NotSetUp("x".to_string())),
        ServerResponse::Error { code, message } if code == "SEGMENT_MANAGER_ERROR"
            && message == "Failed to initialize segment manager: x"
    ));
    assert!(matches!(
        answer(StartOutcome::NoSample("x".to_string())),
        ServerResponse::Error { code, message } if code == "BENCHMARK_CREATION_FAILED"
            && message == "Failed to create benchmark sample: x"
    ));
}

#[test]
fn errors_have_codes_and_words() {
    let w = || "w".to_string();
    let cases = vec![
        (
            CommandError::FileNotFound { file_path: w(), current_dir: Some("/d".to_string()) },
            "FILE_NOT_FOUND",
            "File not found: w. Current working directory: /d",
        ),
        (
            CommandError::FileNotFound { file_path: w(), current_dir: None },
            "FILE_NOT_FOUND",
            "File not found: w. Current working directory: unknown",
        ),
        (
            CommandError::Unresolved { file_path: w(), reason: "r".to_string() },
            "PATH_RESOLUTION_ERROR",
            "Failed to resolve path w: r",
        ),
        (
            CommandError::Undetected { path: w(), reason: "r".to_string() },
            "FORMAT_DETECTION_FAILED",
            "Failed to detect file format for w: r",
        ),
        (
            CommandError::NoUploadDir(w()),
            "DIRECTORY_CREATE_FAILED",
            "Failed to create upload directory: w",
        ),
        (CommandError::NotWritten(w()), "FILE_WRITE_FAILED", "Failed to write uploaded file: w"),
        (CommandError::NoInputDir(w()), "IO_ERROR", "Failed to create input directory: w"),
        (CommandError::InputNotWritten(w()), "IO_ERROR", "Failed to write input file: w"),
        (CommandError::Transfer(w()), "UPLOAD_FAILED", "w"),
    ];
    for (error, code, message) in cases {
        match error.response() {
            ServerResponse::Error { code: c, message: m } => {
                assert_eq!((c.as_str(), m.as_str()), (code, message));
            }
            _ => panic!("no error"),
        }
    }
}

#[test]
fn sent_video_is_queued() {
    let mut s = server(4);
    assert_eq!(upload_dir().parts, vec!["work", "server", "uploads"]);
    let r = handle_process_video_data(
        &mut s,
        "work/server/uploads/v1".to_string(),
        None,
        "mp4".to_string(),
        6,
    );
    let id = match r {
        ServerResponse::JobCreated { job_id } => job_id,
        _ => panic!("no job"),
    };
    let job = s.job_queue.get_job(&id).unwrap();
    assert_eq!((job.format.as_str(), job.info.file_name.as_str()), ("mp4", "v1"));
    assert_eq!((job.config.required_clients, job.config.exactly), (4, true));
    assert_eq!(s.current_input.as_deref(), Some("work/server/uploads/v1"));
    assert_eq!(s.current_job, None);
}

#[test]
fn cancelled_job_is_answered() {
    let mut s = server(1);
    queue_file(&mut s, "j", 1);
    match handle_cancel_job(&mut s, "j".to_string(), 2) {
        ServerResponse::JobStatus { job_id, status, progress, error } => {
            assert_eq!((job_id.as_str(), status), ("j", JobStatus::Cancelled));
            assert_eq!((progress, error), (Progress { done: 0, total: 1 }, None));
        }
        _ => panic!("not cancelled"),
    }
    match handle_cancel_job(&mut s, "j".to_string(), 3) {
        ServerResponse::Error { code, message } => {
            assert_eq!((code.as_str(), message.as_str()), ("JOB_NOT_FOUND", "Job not found: j"));
        }
        _ => panic!("cancelled twice"),
    }
    match handle_get_job_status(&s, "j".to_string()) {
        ServerResponse::JobStatus { status, .. } => assert_eq!(status, JobStatus::Cancelled),
        _ => panic!("job forgotten"),
    }
    assert!(matches!(
        handle_get_job_status(&s, "k".to_string()),
        ServerResponse::Error { code, .. } if code == "JOB_NOT_FOUND"
    ));
    assert!(matches!(handle_list_jobs(&s), ServerResponse::JobsList(l) if l.len() == 1));
}

#[test]
fn clients_are_listed_and_dismissed() {
    let mut s = server(1);
    s.connect_as("c");
    s.connect_as("d");
    s.current_job = Some("j".to_string());
    s.record_benchmark("d", fps(8.0));
    match handle_list_clients(&s, 77) {
        ServerResponse::ClientsList(l) => {
            assert_eq!(l.len(), 2);
            assert_eq!((l[0].client_id.as_str(), l[0].status), ("c", ClientStatus::Connected));
            assert_eq!((l[1].client_id.as_str(), l[1].status), ("d", ClientStatus::Processing));
            assert_eq!(l[1].performance, Some(fps(8.0)));
            assert_eq!(l[0].connected_at, 77);
            assert_eq!(l[0].current_job.as_deref(), Some("j"));
        }
        _ => panic!("no list"),
    }
    assert!(matches!(
        handle_disconnect_client(&mut s, "c".to_string()),
        ServerResponse::ClientsList(l) if l.is_empty()
    ));
    assert!(matches!(
        handle_disconnect_client(&mut s, "c".to_string()),
        ServerResponse::Error { code, message } if code == "CLIENT_NOT_FOUND"
            && message == "Client not found: c"
    ));
    assert_eq!(s.clients.keys(), vec!["d"]);
}

#[test]
fn uploaded_video_is_at_hand_at_once() {
    let mut s = server(1);
    assert_eq!(input_file_for("v.mp4").parts, vec!["work/server/input", "v.mp4"]);
    let text = |t: &str| t.to_string();
    let waits = upload_and_process_as(&mut s, text("u"), text("v.mp4"), text("in"), None, 4);
    assert!(!waits.benchmark);
    assert_eq!(waits.params, vec!["-c:v", "libx264", "-preset", "medium"]);
    assert_eq!(s.current_job.as_deref(), Some("u"));
    s.connect_as("c");
    let starts =
        handle_upload_and_process(&mut s, text("w.mp4"), text("in2"), Some(settings(1)), 5);
    assert!(starts.benchmark);
    assert_eq!(starts.params, vec!["-p"]);
    assert_eq!(s.current_job.as_ref(), Some(&starts.job_id));
    assert_eq!(s.current_input.as_deref(), Some("in2"));
    assert_eq!(s.job_queue.list_jobs().len(), 2);
    let job = s.job_queue.get_job(&starts.job_id).unwrap();
    assert_eq!((job.info.file_name.as_str(), job.info.created_at), ("w.mp4", 5));
    assert_eq!((job.file_path.as_str(), job.format.as_str()), ("in2", ""));
    assert_eq!(job.config.ffmpeg_params, vec!["-p"]);
}

#[test]
fn uploaded_job_is_known() {
    let mut s = server(1);
    let text = |t: &str| t.to_string();
    upload_and_process_as(&mut s, text("u"), text("v.mp4"), text("in"), None, 4);
    match handle_get_job_status(&s, text("u")) {
        ServerResponse::JobStatus { job_id, status, progress, error } => {
            assert_eq!((job_id.as_str(), status), ("u", JobStatus::WaitingForClients));
            assert_eq!((progress, error), (Progress { done: 0, total: 1 }, None));
        }
        _ => panic!("job unknown"),
    }
    assert!(matches!(
        handle_cancel_job(&mut s, text("u"), 5),
        ServerResponse::JobStatus { status: JobStatus::Cancelled, .. }
    ));
}

#[test]
fn operators_are_answered() {
    let mut t = FileTransfer::new(PathParts::from_text("up"));
    let complete = || FileTransferMessage::TransferComplete {
        transfer_id: "a".to_string(),
        checksum: 0,
    };
    let start = || FileTransferMessage::StartTransfer {
        transfer_id: "a".to_string(),
        file_name: "f".to_string(),
        file_size: 0,
    };
    let chunk = || FileTransferMessage::FileChunk {
        transfer_id: "a".to_string(),
        chunk_index: 0,
        data: vec![1],
    };
    match on_command_frame(&mut t, CommandFrame::TransferText(complete())) {
        CommandStep::Answer { remove: None, response: ServerResponse::Error { code, message } } => {
            assert_eq!((code.as_str(), message.as_str()), ("UPLOAD_FAILED", "No active transfer"));
        }
        _ => panic!("not answered"),
    }
    assert!(matches!(
        on_command_frame(&mut t, CommandFrame::TransferBytes(complete())),
        CommandStep::Fail { remove: None, .. }
    ));
    assert!(matches!(
        on_command_frame(&mut t, CommandFrame::TransferText(start())),
        CommandStep::Wait
    ));
    match on_command_frame(&mut t, CommandFrame::TransferBytes(chunk())) {
        CommandStep::Append { path, data } => {
            assert_eq!(path.parts, vec!["up", "a.part"]);
            t.chunk_appended(&data);
        }
        _ => panic!("chunk not taken"),
    }
    match on_command_frame(&mut t, CommandFrame::TransferText(complete())) {
        CommandStep::Answer { remove: Some(path), .. } => {
            assert_eq!(path.parts, vec!["up", "a.part"]);
        }
        _ => panic!("corrupted file taken"),
    }
    on_command_frame(&mut t, CommandFrame::TransferText(start()));
    assert!(matches!(
        on_command_frame(&mut t, CommandFrame::TransferText(complete())),
        CommandStep::Publish { process: true, .. }
    ));
    assert!(matches!(
        on_command_frame(&mut t, CommandFrame::Command(ServerCommand::ListJobs)),
        CommandStep::Run(ServerCommand::ListJobs)
    ));
    assert!(matches!(
        on_command_frame(&mut t, CommandFrame::Ping(vec![3])),
        CommandStep::Pong(d) if d == vec![3]
    ));
    assert!(matches!(on_command_frame(&mut t, CommandFrame::Unknown), CommandStep::Wait));
    assert!(matches!(on_command_frame(&mut t, CommandFrame::Close), CommandStep::Stop));
}

#[test]
fn uploads_are_taken_from_clients_at_work() {
    let mut s = server(1);
    s.client_segments.insert("c".to_string(), "s1.mp4".to_string());
    let refusal = |r: Result<_, UploadRefusal>| match r {
        Err(e) => e.answer(),
        Ok(_) => panic!("taken"),
    };
    let name = |n: &str| Some(n.to_string());
    assert_eq!(
        refusal(s.plan_upload(None, 1)),
        (Status::BadRequest, "No valid filename provided".to_string())
    );
    assert_eq!(
        refusal(s.plan_upload(name(""), 1)),
        (Status::BadRequest, "No valid filename provided".to_string())
    );
    assert_eq!(
        refusal(s.plan_upload(name("s1.mp4"), 0)),
        (Status::BadRequest, "File is empty".to_string())
    );
    assert_eq!(
        refusal(s.plan_upload(name("s2.mp4"), 1)),
        (Status::BadRequest, "No client found for segment".to_string())
    );
    let plan = match s.plan_upload(name("encoded_s1.mp4"), 3) {
        Ok(p) => p,
        Err(_) => panic!("refused"),
    };
    assert_eq!(plan.path.parts, vec!["work", "server", "first", "encoded_s1.mp4"]);
    assert_eq!((plan.client_id.as_str(), plan.segment_id.as_str()), ("c", "s1.mp4"));
    assert_eq!(
        s.finish_upload(plan, vec![1, 2, 3]),
        (Status::Okay, "Upload complete".to_string())
    );
    let kept = s.segment_manager.segment_of("c").unwrap();
    assert_eq!((kept.segment_id.as_str(), kept.format.as_str()), ("s1.mp4", "s1.mp4"));
    assert_eq!(kept.data, vec![1, 2, 3]);
}

#[test]
fn written_uploads_are_checked_by_size() {
    assert!(check_written(3, 3).is_ok());
    assert_eq!(
        check_written(0, 3).unwrap_err().answer(),
        (Status::BadRequest, "Uploaded file is empty".to_string())
    );
    assert_eq!(
        check_written(2, 3).unwrap_err().answer(),
        (Status::BadRequest, "File size mismatch".to_string())
    );
    let w = || "w".to_string();
    for (e, m) in [
        (UploadRefusal::NoWorkDir(w()), "Failed to create work directory: w"),
        (UploadRefusal::NotCreated(w()), "Failed to create file: w"),
        (UploadRefusal::NotWritten(w()), "Failed to write file: w"),
        (UploadRefusal::NotSynced(w()), "Failed to sync file: w"),
        (UploadRefusal::NotVerified(w()), "Failed to verify file: w"),
    ] {
        assert_eq!(e.answer(), (Status::ServerError, m.to_string()));
    }
}

#[test]
fn database_lies_in_its_directory() {
    assert_eq!(
        database_file(&PathParts::from_text("work").join("db")).parts,
        vec!["work", "db", "server.db"]
    );
    assert_eq!(database_url("work/db/server.db"), "sqlite://work/db/server.db?mode=rwc");
}

#[test]
fn new_server_knows_nothing() {
    let s = AppState::new(ServerConfig::default());
    assert_eq!(s.segment_manager.get_job_id().len(), 36);
    assert_eq!(s.clients.len(), 0);
    assert!(s.current_job.is_none() && s.current_input.is_none());
    assert!(s.has_enough_clients(0) && !s.has_enough_clients(1));
}
