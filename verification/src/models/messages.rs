//! The messages between clients, server and operators. Each type's view holds
//! the texts in it as sequences of characters.

use crate::models::capabilities::EncoderCapabilities;
use crate::models::measure::{Fps, Progress};
use crate::text::{copy_list, opt_text, texts};
use vstd::prelude::*;

verus! {

/// How a job is to be encoded.
#[derive(Debug)]
pub struct JobConfig {
    pub ffmpeg_params: Vec<String>,
    pub required_clients: usize,
    pub exactly: bool,
}

/// The view of a `JobConfig`.
pub struct JobConfigView {
    pub ffmpeg_params: Seq<Seq<char>>,
    pub required_clients: usize,
    pub exactly: bool,
}

impl View for JobConfig {
    type V = JobConfigView;

    open spec fn view(&self) -> JobConfigView {
        JobConfigView {
            ffmpeg_params: texts(self.ffmpeg_params@),
            required_clients: self.required_clients,
            exactly: self.exactly,
        }
    }
}

impl Clone for JobConfig {
    fn clone(&self) -> (r: Self)
        ensures
            r@ == self@,
    {
        JobConfig {
            ffmpeg_params: copy_list(&self.ffmpeg_params),
            required_clients: self.required_clients,
            exactly: self.exactly,
        }
    }
}

/// The view of the settings of a job for which none were given.
pub open spec fn default_job(required_clients: usize) -> JobConfigView {
    JobConfigView {
        ffmpeg_params: seq!["-c:v"@, "libx264"@, "-preset"@, "medium"@],
        required_clients,
        exactly: true,
    }
}

/// The view of the settings that hold for a job.
pub open spec fn job_settings(given: Option<JobConfig>, required_clients: usize) -> JobConfigView {
    match given {
        Some(c) => c@,
        None => default_job(required_clients),
    }
}

/// The settings that hold for a job: those given, or the standard ones.
pub fn settings_or_default(given: Option<JobConfig>, required_clients: usize) -> (r: JobConfig)
    ensures
        r@ == job_settings(given, required_clients),
{
    match given {
        Some(c) => c,
        None => {
            let params = crate::text::strings(vec!["-c:v", "libx264", "-preset", "medium"]);
            assert(texts(params@) =~= default_job(required_clients).ffmpeg_params);
            JobConfig { ffmpeg_params: params, required_clients, exactly: true }
        },
    }
}

/// A video that was sent along with a command.
#[derive(Debug)]
pub struct VideoData {
    pub data: Vec<u8>,
    pub format: String,
    pub id: String,
}

/// What an operator may ask of the server.
#[derive(Debug)]
pub enum ServerCommand {
    ProcessLocalFile { file_path: String, config: Option<JobConfig> },
    ProcessVideoData { video_data: VideoData, config: Option<JobConfig> },
    CancelJob { job_id: String },
    GetJobStatus { job_id: String },
    ListJobs,
    ListClients,
    DisconnectClient { client_id: String },
    UploadAndProcessFile { file_name: String, data: Vec<u8>, config: Option<JobConfig> },
}

/// How far a job has come.
#[derive(Clone, Copy, Debug, PartialEq, Eq, Structural)]
pub enum JobStatus {
    Queued,
    WaitingForClients,
    Benchmarking,
    Processing,
    Combining,
    Completed,
    Failed,
    Cancelled,
}

/// What a client is doing.
#[derive(Clone, Copy, Debug, PartialEq, Eq, Structural)]
pub enum ClientStatus {
    Connected,
    Benchmarking,
    Processing,
    Idle,
    Disconnected,
}

/// What is told of a job.
#[derive(Debug)]
pub struct JobInfo {
    pub job_id: String,
    pub file_name: String,
    pub status: JobStatus,
    pub progress: Progress,
    pub created_at: u64,
    pub completed_at: Option<u64>,
    pub error: Option<String>,
}

/// The view of a `JobInfo`.
pub struct JobInfoView {
    pub job_id: Seq<char>,
    pub file_name: Seq<char>,
    pub status: JobStatus,
    pub progress: Progress,
    pub created_at: u64,
    pub completed_at: Option<u64>,
    pub error: Option<Seq<char>>,
}

impl View for JobInfo {
    type V = JobInfoView;

    open spec fn view(&self) -> JobInfoView {
        JobInfoView {
            job_id: self.job_id@,
            file_name: self.file_name@,
            status: self.status,
            progress: self.progress,
            created_at: self.created_at,
            completed_at: self.completed_at,
            error: opt_text(self.error),
        }
    }
}

impl Clone for JobInfo {
    fn clone(&self) -> (r: Self)
        ensures
            r@ == self@,
    {
        JobInfo {
            job_id: self.job_id.clone(),
            file_name: self.file_name.clone(),
            status: self.status,
            progress: self.progress,
            created_at: self.created_at,
            completed_at: self.completed_at,
            error: crate::text::copy_opt(&self.error),
        }
    }
}

/// What is told of a client.
#[derive(Debug)]
pub struct ClientInfo {
    pub client_id: String,
    pub connected_at: u64,
    pub current_job: Option<String>,
    pub performance: Option<Fps>,
    pub status: ClientStatus,
}

/// The view of a `ClientInfo`.
pub struct ClientInfoView {
    pub client_id: Seq<char>,
    pub connected_at: u64,
    pub current_job: Option<Seq<char>>,
    pub performance: Option<Fps>,
    pub status: ClientStatus,
}

impl View for ClientInfo {
    type V = ClientInfoView;

    open spec fn view(&self) -> ClientInfoView {
        ClientInfoView {
            client_id: self.client_id@,
            connected_at: self.connected_at,
            current_job: opt_text(self.current_job),
            performance: self.performance,
            status: self.status,
        }
    }
}

/// The server's answer to a command.
#[derive(Debug)]
pub enum ServerResponse {
    JobCreated { job_id: String },
    JobStatus { job_id: String, status: JobStatus, progress: Progress, error: Option<String> },
    JobsList(Vec<JobInfo>),
    ClientsList(Vec<ClientInfo>),
    Error { code: String, message: String },
}

/// The view of a `ServerResponse`.
pub enum ServerResponseView {
    JobCreated { job_id: Seq<char> },
    JobStatus {
        job_id: Seq<char>,
        status: JobStatus,
        progress: Progress,
        error: Option<Seq<char>>,
    },
    JobsList(Seq<JobInfoView>),
    ClientsList(Seq<ClientInfoView>),
    Error { code: Seq<char>, message: Seq<char> },
}

impl View for ServerResponse {
    type V = ServerResponseView;

    open spec fn view(&self) -> ServerResponseView {
        match *self {
            ServerResponse::JobCreated { job_id } => ServerResponseView::JobCreated {
                job_id: job_id@,
            },
            ServerResponse::JobStatus { job_id, status, progress, error } => {
                ServerResponseView::JobStatus {
                    job_id: job_id@,
                    status,
                    progress,
                    error: opt_text(error),
                }
            },
            ServerResponse::JobsList(l) => ServerResponseView::JobsList(
                l@.map_values(|j: JobInfo| j@),
            ),
            ServerResponse::ClientsList(l) => ServerResponseView::ClientsList(
                l@.map_values(|c: ClientInfo| c@),
            ),
            ServerResponse::Error { code, message } => ServerResponseView::Error {
                code: code@,
                message: message@,
            },
        }
    }
}

/// What a client tells the server.
#[derive(Debug)]
pub enum ClientMessage {
    RequestId { participate: bool },
    Capabilities { encoders: EncoderCapabilities },
    BenchmarkResult { fps: Fps },
    SegmentComplete { segment_id: String, fps: Fps, data: Vec<u8>, format: String },
    SegmentFailed { error: String },
    UploadAndProcessFile {
        file_name: String,
        data: Vec<u8>,
        config: Option<JobConfig>,
        participate: bool,
    },
}

/// The view of a `ClientMessage`.
pub enum ClientMessageView {
    RequestId { participate: bool },
    Capabilities { encoders: EncoderCapabilities },
    BenchmarkResult { fps: Fps },
    SegmentComplete { segment_id: Seq<char>, fps: Fps, data: Seq<u8>, format: Seq<char> },
    SegmentFailed { error: Seq<char> },
    UploadAndProcessFile {
        file_name: Seq<char>,
        data: Seq<u8>,
        config: Option<JobConfigView>,
        participate: bool,
    },
}

impl View for ClientMessage {
    type V = ClientMessageView;

    open spec fn view(&self) -> ClientMessageView {
        match *self {
            ClientMessage::RequestId { participate } => ClientMessageView::RequestId {
                participate,
            },
            ClientMessage::Capabilities { encoders } => ClientMessageView::Capabilities {
                encoders,
            },
            ClientMessage::BenchmarkResult { fps } => ClientMessageView::BenchmarkResult { fps },
            ClientMessage::SegmentComplete { segment_id, fps, data, format } => {
                ClientMessageView::SegmentComplete {
                    segment_id: segment_id@,
                    fps,
                    data: data@,
                    format: format@,
                }
            },
            ClientMessage::SegmentFailed { error } => ClientMessageView::SegmentFailed {
                error: error@,
            },
            ClientMessage::UploadAndProcessFile { file_name, data, config, participate } => {
                ClientMessageView::UploadAndProcessFile {
                    file_name: file_name@,
                    data: data@,
                    config: match config {
                        Some(c) => Some(c@),
                        None => None,
                    },
                    participate,
                }
            },
        }
    }
}

/// What the server tells a client.
#[derive(Debug)]
pub enum ServerMessage {
    ClientId { id: String, job_id: String },
    ClientIdle { id: String },
    BenchmarkRequest { data: Vec<u8>, format: String, params: Vec<String>, job_id: String },
    ProcessSegment {
        data: Vec<u8>,
        format: String,
        segment_id: String,
        params: Vec<String>,
        job_id: String,
    },
    Error { code: String, message: String },
    JobComplete { job_id: String, download_url: Option<String> },
}

/// The view of a `ServerMessage`.
pub enum ServerMessageView {
    ClientId { id: Seq<char>, job_id: Seq<char> },
    ClientIdle { id: Seq<char> },
    BenchmarkRequest {
        data: Seq<u8>,
        format: Seq<char>,
        params: Seq<Seq<char>>,
        job_id: Seq<char>,
    },
    ProcessSegment {
        data: Seq<u8>,
        format: Seq<char>,
        segment_id: Seq<char>,
        params: Seq<Seq<char>>,
        job_id: Seq<char>,
    },
    Error { code: Seq<char>, message: Seq<char> },
    JobComplete { job_id: Seq<char>, download_url: Option<Seq<char>> },
}

impl View for ServerMessage {
    type V = ServerMessageView;

    open spec fn view(&self) -> ServerMessageView {
        match *self {
            ServerMessage::ClientId { id, job_id } => ServerMessageView::ClientId {
                id: id@,
                job_id: job_id@,
            },
            ServerMessage::ClientIdle { id } => ServerMessageView::ClientIdle { id: id@ },
            ServerMessage::BenchmarkRequest { data, format, params, job_id } => {
                ServerMessageView::BenchmarkRequest {
                    data: data@,
                    format: format@,
                    params: texts(params@),
                    job_id: job_id@,
                }
            },
            ServerMessage::ProcessSegment { data, format, segment_id, params, job_id } => {
                ServerMessageView::ProcessSegment {
                    data: data@,
                    format: format@,
                    segment_id: segment_id@,
                    params: texts(params@),
                    job_id: job_id@,
                }
            },
            ServerMessage::Error { code, message } => ServerMessageView::Error {
                code: code@,
                message: message@,
            },
            ServerMessage::JobComplete { job_id, download_url } => {
                ServerMessageView::JobComplete {
                    job_id: job_id@,
                    download_url: opt_text(download_url),
                }
            },
        }
    }
}

} // verus!
