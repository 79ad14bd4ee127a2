//! What the server answers to operators.

use crate::file_transfer::FileTransferMessage;
use crate::models::measure::Progress;
use crate::models::messages::{
    job_settings, settings_or_default, ClientInfo, ClientInfoView, ClientStatus, JobConfig,
    JobInfo, JobStatus, ServerCommand, ServerResponse, ServerResponseView,
};
use crate::outside::{is_uuid, new_uuid};
use crate::path::{ensure_absolute_path, file_name, leads_to, names_file, PathParts};
use crate::server::job_queue::{
    law_queue_stays_orderly, law_queue_stays_sound, queued_info, JobView,
};
use crate::server::segment_manager::SegmentsView;
use crate::server::state::{AppState, AppView, NextJob};
use crate::text::{copy_list, copy_opt, opt_str, texts, trim, trimmed};
use crate::transfer_handler::{FileTransfer, TransferRefusal, TransferStep, TransferStepView};
use vstd::prelude::*;
use vstd::string::*;

verus! {

/// Why a command was not carried out.
#[derive(Debug)]
pub enum CommandError {
    /// There is no such file; the current directory, if it is known.
    FileNotFound { file_path: String, current_dir: Option<String> },
    /// The path could not be resolved; why.
    Unresolved { file_path: String, reason: String },
    /// The format of the file could not be detected; why.
    Undetected { path: String, reason: String },
    /// The directory of the job could not be set up; why.
    NotSetUp(String),
    /// The sample for the benchmark could not be made; why.
    NoSample(String),
    /// The directory for uploads could not be made; why.
    NoUploadDir(String),
    /// The uploaded file could not be written; why.
    NotWritten(String),
    /// The directory for input could not be made; why.
    NoInputDir(String),
    /// The input could not be written; why.
    InputNotWritten(String),
    /// There is no such job.
    JobNotFound(String),
    /// There is no such client.
    ClientNotFound(String),
    /// The file transfer failed; why.
    Transfer(String),
}

impl CommandError {
    /// The code by which the failure is known.
    pub open spec fn code(self) -> Seq<char> {
        match self {
            CommandError::FileNotFound { .. } => "FILE_NOT_FOUND"@,
            CommandError::Unresolved { .. } => "PATH_RESOLUTION_ERROR"@,
            CommandError::Undetected { .. } => "FORMAT_DETECTION_FAILED"@,
            CommandError::NotSetUp(_) => "SEGMENT_MANAGER_ERROR"@,
            CommandError::NoSample(_) => "BENCHMARK_CREATION_FAILED"@,
            CommandError::NoUploadDir(_) => "DIRECTORY_CREATE_FAILED"@,
            CommandError::NotWritten(_) => "FILE_WRITE_FAILED"@,
            CommandError::NoInputDir(_) => "IO_ERROR"@,
            CommandError::InputNotWritten(_) => "IO_ERROR"@,
            CommandError::JobNotFound(_) => "JOB_NOT_FOUND"@,
            CommandError::ClientNotFound(_) => "CLIENT_NOT_FOUND"@,
            CommandError::Transfer(_) => "UPLOAD_FAILED"@,
        }
    }

    /// What is told of the failure.
    pub open spec fn message(self) -> Seq<char> {
        match self {
            CommandError::FileNotFound { file_path, current_dir } => "File not found: "@
                + file_path@ + ". Current working directory: "@ + match current_dir {
                Some(d) => d@,
                None => "unknown"@,
            },
            CommandError::Unresolved { file_path, reason } => "Failed to resolve path "@
                + file_path@ + ": "@ + reason@,
            CommandError::Undetected { path, reason } => "Failed to detect file format for "@
                + path@ + ": "@ + reason@,
            CommandError::NotSetUp(w) => "Failed to initialize segment manager: "@ + w@,
            CommandError::NoSample(w) => "Failed to create benchmark sample: "@ + w@,
            CommandError::NoUploadDir(w) => "Failed to create upload directory: "@ + w@,
            CommandError::NotWritten(w) => "Failed to write uploaded file: "@ + w@,
            CommandError::NoInputDir(w) => "Failed to create input directory: "@ + w@,
            CommandError::InputNotWritten(w) => "Failed to write input file: "@ + w@,
            CommandError::JobNotFound(id) => "Job not found: "@ + id@,
            CommandError::ClientNotFound(id) => "Client not found: "@ + id@,
            CommandError::Transfer(w) => w@,
        }
    }

    /// The answer that tells of the failure.
    pub fn response(&self) -> (r: ServerResponse)
        ensures
            r@ == (ServerResponseView::Error { code: self.code(), message: self.message() }),
    {
        let (code, message) = match self {
            CommandError::FileNotFound { file_path, current_dir } => {
                let start = "File not found: ".to_owned().concat(file_path.as_str()).concat(
                    ". Current working directory: ",
                );
                (
                    "FILE_NOT_FOUND",
                    match current_dir {
                        Some(d) => start.concat(d.as_str()),
                        None => start.concat("unknown"),
                    },
                )
            },
            CommandError::Unresolved { file_path, reason } => (
                "PATH_RESOLUTION_ERROR",
                "Failed to resolve path ".to_owned().concat(file_path.as_str()).concat(
                    ": ",
                ).concat(reason.as_str()),
            ),
            CommandError::Undetected { path, reason } => (
                "FORMAT_DETECTION_FAILED",
                "Failed to detect file format for ".to_owned().concat(path.as_str()).concat(
                    ": ",
                ).concat(reason.as_str()),
            ),
            CommandError::NotSetUp(w) => (
                "SEGMENT_MANAGER_ERROR",
                "Failed to initialize segment manager: ".to_owned().concat(w.as_str()),
            ),
            CommandError::NoSample(w) => (
                "BENCHMARK_CREATION_FAILED",
                "Failed to create benchmark sample: ".to_owned().concat(w.as_str()),
            ),
            CommandError::NoUploadDir(w) => (
                "DIRECTORY_CREATE_FAILED",
                "Failed to create upload directory: ".to_owned().concat(w.as_str()),
            ),
            CommandError::NotWritten(w) => (
                "FILE_WRITE_FAILED",
                "Failed to write uploaded file: ".to_owned().concat(w.as_str()),
            ),
            CommandError::NoInputDir(w) => (
                "IO_ERROR",
                "Failed to create input directory: ".to_owned().concat(w.as_str()),
            ),
            CommandError::InputNotWritten(w) => (
                "IO_ERROR",
                "Failed to write input file: ".to_owned().concat(w.as_str()),
            ),
            CommandError::JobNotFound(id) => (
                "JOB_NOT_FOUND",
                "Job not found: ".to_owned().concat(id.as_str()),
            ),
            CommandError::ClientNotFound(id) => (
                "CLIENT_NOT_FOUND",
                "Client not found: ".to_owned().concat(id.as_str()),
            ),
            CommandError::Transfer(w) => ("UPLOAD_FAILED", w.clone()),
        };
        ServerResponse::Error { code: code.to_owned(), message }
    }
}

/// What comes from an operator.
#[derive(Debug)]
pub enum CommandFrame {
    /// A text about a file transfer.
    TransferText(FileTransferMessage),
    /// A text with a command.
    Command(ServerCommand),
    /// Bytes about a file transfer.
    TransferBytes(FileTransferMessage),
    /// A text or bytes that are none of these.
    Unknown,
    Ping(Vec<u8>),
    Pong,
    /// The operator wants to close the connection.
    Close,
}

/// What is to be done about what came from an operator.
#[derive(Debug)]
pub enum CommandStep {
    /// Nothing.
    Wait,
    /// Carry the command out, and answer.
    Run(ServerCommand),
    /// Append the data to the file; then `chunk_appended`.
    Append { path: PathParts, data: Vec<u8> },
    /// Give the file its name; then, if it is to be processed, start a job on
    /// it, and answer.
    Publish { from: PathParts, to: PathParts, process: bool },
    /// Remove the file, if that can be done.
    Remove { path: PathParts },
    /// Remove the file if there is one to be removed; then answer.
    Answer { remove: Option<PathParts>, response: ServerResponse },
    /// Remove the file if there is one to be removed; then leave the connection
    /// with an error.
    Fail { remove: Option<PathParts>, refusal: TransferRefusal },
    /// Answer a ping.
    Pong(Vec<u8>),
    /// Leave the connection.
    Stop,
}

/// The view of a path that may be missing.
pub open spec fn opt_path(p: Option<PathParts>) -> Option<Seq<Seq<char>>> {
    match p {
        Some(q) => Some(q@),
        None => None,
    }
}

/// The answer to a refused transfer.
pub open spec fn refusal_answer(refusal: TransferRefusal) -> ServerResponseView {
    ServerResponseView::Error { code: "UPLOAD_FAILED"@, message: refusal.spec_message() }
}

/// The step carries out what a transfer asks for. A transfer by text is
/// processed when it is complete, and answered when it is refused; one by bytes
/// ends the connection when it is refused.
pub open spec fn carries_out(step: CommandStep, asked: TransferStepView, text: bool) -> bool {
    match asked {
        TransferStepView::Wait => step is Wait,
        TransferStepView::Append { path, data } => step matches CommandStep::Append {
            path: p,
            data: d,
        } && p@ == path && d@ == data,
        TransferStepView::Remove { path } => step matches CommandStep::Remove { path: p } && p@
            == path,
        TransferStepView::Publish { from, to } => step matches CommandStep::Publish {
            from: f,
            to: t,
            process,
        } && f@ == from && t@ == to && process == text,
        TransferStepView::Refuse(e) => refuses(step, None, e, text),
        TransferStepView::RemoveAndRefuse { path, refusal } => refuses(
            step,
            Some(path),
            refusal,
            text,
        ),
    }
}

/// The step refuses a transfer.
pub open spec fn refuses(
    step: CommandStep,
    path: Option<Seq<Seq<char>>>,
    refusal: TransferRefusal,
    text: bool,
) -> bool {
    if text {
        step matches CommandStep::Answer { remove, response } && opt_path(remove) == path
            && response@ == refusal_answer(refusal)
    } else {
        step matches CommandStep::Fail { remove, refusal: e } && opt_path(remove) == path && e
            == refusal
    }
}

fn refuse(remove: Option<PathParts>, refusal: TransferRefusal, text: bool) -> (r: CommandStep)
    ensures
        refuses(r, opt_path(remove), refusal, text),
{
    if text {
        CommandStep::Answer {
            remove,
            response: CommandError::Transfer(refusal.message()).response(),
        }
    } else {
        CommandStep::Fail { remove, refusal }
    }
}

fn carry_out(asked: TransferStep, text: bool) -> (r: CommandStep)
    ensures
        carries_out(r, asked@, text),
{
    match asked {
        TransferStep::Wait => CommandStep::Wait,
        TransferStep::Append { path, data } => CommandStep::Append { path, data },
        TransferStep::Remove { path } => CommandStep::Remove { path },
        TransferStep::Publish { from, to } => CommandStep::Publish { from, to, process: text },
        TransferStep::Refuse(e) => refuse(None, e, text),
        TransferStep::RemoveAndRefuse { path, refusal } => refuse(Some(path), refusal, text),
    }
}

/// Takes what came from an operator, and says what is to be done about it;
/// `transfer` is the receiving end of the operator's file transfers.
pub fn on_command_frame(transfer: &mut FileTransfer, frame: CommandFrame) -> (r: CommandStep)
    requires
        old(transfer).wf(),
    ensures
        final(transfer).wf(),
        match frame {
            CommandFrame::TransferText(m) => carries_out(r, old(transfer)@.step(m@), true)
                && final(transfer)@ == old(transfer)@.after(m@),
            CommandFrame::TransferBytes(m) => carries_out(r, old(transfer)@.step(m@), false)
                && final(transfer)@ == old(transfer)@.after(m@),
            CommandFrame::Command(c) => r == CommandStep::Run(c) && *final(transfer) == *old(
                transfer,
            ),
            CommandFrame::Ping(d) => r == CommandStep::Pong(d) && *final(transfer) == *old(
                transfer,
            ),
            CommandFrame::Close => r is Stop && *final(transfer) == *old(transfer),
            CommandFrame::Unknown => r is Wait && *final(transfer) == *old(transfer),
            CommandFrame::Pong => r is Wait && *final(transfer) == *old(transfer),
        },
{
    match frame {
        CommandFrame::TransferText(m) => carry_out(transfer.handle_chunk(m), true),
        CommandFrame::TransferBytes(m) => carry_out(transfer.handle_chunk(m), false),
        CommandFrame::Command(c) => CommandStep::Run(c),
        CommandFrame::Ping(d) => CommandStep::Pong(d),
        CommandFrame::Close => CommandStep::Stop,
        CommandFrame::Unknown => CommandStep::Wait,
        CommandFrame::Pong => CommandStep::Wait,
    }
}

/// The file that a request is about: the one named, or a standard one if the
/// name is blank.
pub open spec fn requested(file_path: Seq<char>) -> Seq<char> {
    if trimmed(file_path).len() == 0 {
        "test.mp4"@
    } else {
        file_path
    }
}

/// A request for a file of the server that is still to be looked for.
#[derive(Debug)]
pub struct LocalRequest {
    file_path: String,
    config: Option<JobConfig>,
}

impl LocalRequest {
    /// The file that the request is about.
    pub closed spec fn file(&self) -> Seq<char> {
        self.file_path@
    }

    /// The settings that were given.
    pub closed spec fn settings(&self) -> Option<JobConfig> {
        self.config
    }

    /// A request for the file `file_path`, with the settings `config`.
    pub fn new(file_path: String, config: Option<JobConfig>) -> (r: Self)
        ensures
            r.file() == requested(file_path@),
            r.settings() == config,
    {
        let file_path = if trim(file_path.as_str()).as_str().is_empty() {
            "test.mp4".to_owned()
        } else {
            file_path
        };
        LocalRequest { file_path, config }
    }

    /// Where the file is looked for, `windows` saying whether the platform's paths
    /// have drives; see `ensure_absolute_path`.
    pub fn place(&self, current_dir: Option<&str>, windows: bool) -> (r: PathParts)
        ensures
            leads_to(self.file(), None, opt_str(current_dir), windows, r@),
    {
        ensure_absolute_path(self.file_path.as_str(), None, current_dir, windows)
    }

    /// The answer when there is no such file.
    pub fn not_found(self, current_dir: Option<String>) -> (r: ServerResponse)
        ensures
            r@ == (ServerResponseView::Error {
                code: "FILE_NOT_FOUND"@,
                message: "File not found: "@ + self.file() + ". Current working directory: "@
                    + match current_dir {
                    Some(d) => d@,
                    None => "unknown"@,
                },
            }),
    {
        CommandError::FileNotFound { file_path: self.file_path, current_dir }.response()
    }

    /// The answer when the path of the file could not be resolved.
    pub fn unresolved(self, reason: String) -> (r: ServerResponse)
        ensures
            r@ == (ServerResponseView::Error {
                code: "PATH_RESOLUTION_ERROR"@,
                message: "Failed to resolve path "@ + self.file() + ": "@ + reason@,
            }),
    {
        CommandError::Unresolved { file_path: self.file_path, reason }.response()
    }

    /// The file was found at `path`.
    pub fn found(self, path: String) -> (r: LocalFile)
        ensures
            r.file() == self.file(),
            r.path() == path@,
            r.settings() == self.settings(),
    {
        LocalFile { file_path: self.file_path, path, config: self.config }
    }
}

/// A file of the server that was found.
#[derive(Debug)]
pub struct LocalFile {
    file_path: String,
    path: String,
    config: Option<JobConfig>,
}

impl LocalFile {
    /// The file as the request named it.
    pub closed spec fn file(&self) -> Seq<char> {
        self.file_path@
    }

    /// Where the file lies.
    pub closed spec fn path(&self) -> Seq<char> {
        self.path@
    }

    /// The settings that were given.
    pub closed spec fn settings(&self) -> Option<JobConfig> {
        self.config
    }

    /// The file whose format is to be detected.
    pub fn to_detect(&self) -> (r: &str)
        ensures
            r@ == self.file(),
    {
        self.file_path.as_str()
    }

    /// The answer when the format of the file could not be detected.
    pub fn undetected(self, reason: String) -> (r: ServerResponse)
        ensures
            r@ == (ServerResponseView::Error {
                code: "FORMAT_DETECTION_FAILED"@,
                message: "Failed to detect file format for "@ + self.path() + ": "@ + reason@,
            }),
    {
        CommandError::Undetected { path: self.path, reason }.response()
    }
}

/// The job that a request for a file of the server makes.
pub open spec fn file_job(
    v: AppView,
    job_id: Seq<char>,
    name: Seq<char>,
    path: Seq<char>,
    config: Option<JobConfig>,
    format: Seq<char>,
    now: u64,
) -> JobView {
    JobView {
        info: queued_info(job_id, name, now),
        file_path: path,
        config: job_settings(config, v.config.required_clients),
        format,
    }
}

impl AppView {
    /// A job on a file of the server was queued, and its format noted.
    pub open spec fn file_queued(self, job_id: Seq<char>, job: JobView) -> AppView {
        AppView {
            segments: SegmentsView { original_format: Some(job.format), ..self.segments },
            queue: self.queue.added(job_id, job),
            ..self
        }
    }

    /// A job on a video that was sent along was queued, and the video is the
    /// one at hand.
    pub open spec fn video_queued(self, job_id: Seq<char>, job: JobView) -> AppView {
        AppView {
            current_input: Some(job.file_path),
            queue: self.queue.added(job_id, job),
            ..self
        }
    }

    /// A job on an uploaded video was queued; it is the one at hand, and waits for
    /// clients.
    pub open spec fn upload_started(self, job_id: Seq<char>, job: JobView) -> AppView {
        AppView {
            queue: self.queue.added(job_id, job).started(job_id),
            current_job: Some(job_id),
            current_input: Some(job.file_path),
            ..self
        }
    }
}

/// A job that was made, the job that the server turned to, if it did, and
/// whether that is to be started with a benchmark.
#[derive(Debug)]
pub struct LocalStart {
    pub job_id: String,
    pub next: Option<NextJob>,
    pub benchmark: bool,
}

impl LocalStart {
    /// This is what came of queueing, `queued` being the server before it
    /// turned to the next job.
    pub open spec fn tells(&self, queued: AppView) -> bool {
        if queued.current_job is Some {
            self.next is None && !self.benchmark
        } else {
            match queued.next_job() {
                Some(job) => {
                    &&& self.next matches Some(n) && n.is_job(job)
                    &&& self.benchmark == (queued.clients.len() >= job.config.required_clients)
                },
                None => self.next is None && !self.benchmark,
            }
        }
    }
}

/// Queues a job named `job_id` on a file of the server, under the name `name`;
/// `format` is the file's format, and `now` the time in seconds. The server
/// turns to the next job if it has none at hand.
pub fn process_local_file_as(
    state: &mut AppState,
    job_id: String,
    name: String,
    file: LocalFile,
    format: String,
    now: u64,
) -> (r: LocalStart)
    requires
        old(state).wf(),
    ensures
        final(state).wf(),
        r.job_id@ == job_id@,
        ({
            let job = file_job(
                old(state)@,
                job_id@,
                name@,
                file.path(),
                file.settings(),
                format@,
                now,
            );
            let queued = old(state)@.file_queued(job_id@, job);
            &&& final(state)@ == queued.started_next()
            &&& r.tells(queued)
        }),
{
    let ghost job = file_job(
        old(state)@,
        job_id@,
        name@,
        file.path(),
        file.settings(),
        format@,
        now,
    );
    let ghost queued = old(state)@.file_queued(job_id@, job);
    state.segment_manager.set_input_format(format.clone());
    let settings = settings_or_default(file.config, state.config.required_clients);
    state.job_queue.add_named_job(job_id.clone(), file.path, name, settings, format, now);
    assert(state@ =~= queued);
    let next = state.start_next();
    let benchmark = match &next {
        Some(n) => state.has_enough_clients(n.required_clients),
        None => false,
    };
    LocalStart { job_id, next, benchmark }
}

/// Queues a job, under a random name, on a file of the server; see
/// `process_local_file_as`. What is told as the file's name is the final
/// component of its path, by the platform's rule.
pub fn handle_process_local_file(
    state: &mut AppState,
    file: LocalFile,
    format: String,
    now: u64,
) -> (r: LocalStart)
    requires
        old(state).wf(),
    ensures
        final(state).wf(),
        is_uuid(r.job_id@),
        exists|name: Seq<char>| #[trigger]
            names_file(file.path(), name) && ({
                let job = file_job(
                    old(state)@,
                    r.job_id@,
                    name,
                    file.path(),
                    file.settings(),
                    format@,
                    now,
                );
                let queued = old(state)@.file_queued(r.job_id@, job);
                &&& final(state)@ == queued.started_next()
                &&& r.tells(queued)
            }),
{
    let name = file_name(file.path.as_str());
    let ghost name_text = name@;
    let r = process_local_file_as(state, new_uuid(), name, file, format, now);
    assert(names_file(file.path(), name_text));
    r
}

/// What came of starting the job that the server turned to.
#[derive(Debug)]
pub enum StartOutcome {
    /// There was nothing to start, or its benchmark was asked for, or waits for
    /// clients.
    Started,
    /// The directory of the job could not be set up; why.
    NotSetUp(String),
    /// The sample for the benchmark could not be made; why.
    NoSample(String),
}

impl LocalStart {
    /// The answer to a request for a file of the server: the job that was made,
    /// or why the job that the server turned to could not be started.
    pub fn answer(self, outcome: StartOutcome) -> (r: ServerResponse)
        ensures
            r@ == match outcome {
                StartOutcome::Started => (ServerResponseView::JobCreated { job_id: self.job_id@ }),
                StartOutcome::NotSetUp(w) => (ServerResponseView::Error {
                    code: "SEGMENT_MANAGER_ERROR"@,
                    message: "Failed to initialize segment manager: "@ + w@,
                }),
                StartOutcome::NoSample(w) => (ServerResponseView::Error {
                    code: "BENCHMARK_CREATION_FAILED"@,
                    message: "Failed to create benchmark sample: "@ + w@,
                }),
            },
    {
        match outcome {
            StartOutcome::Started => ServerResponse::JobCreated { job_id: self.job_id },
            StartOutcome::NotSetUp(w) => CommandError::NotSetUp(w).response(),
            StartOutcome::NoSample(w) => CommandError::NoSample(w).response(),
        }
    }
}

/// The directory that uploaded videos are written to.
pub fn upload_dir() -> (r: PathParts)
    ensures
        r@ == seq!["work"@, "server"@, "uploads"@],
{
    let r = PathParts::from_text("work").join("server").join("uploads");
    assert(r@ =~= seq!["work"@, "server"@, "uploads"@]);
    r
}

/// Queues a job on a video that was sent along and written to `path`; `format`
/// is its format, and `now` the time in seconds. What is told as the file's
/// name is the final component of its path, by the platform's rule.
pub fn handle_process_video_data(
    state: &mut AppState,
    path: String,
    config: Option<JobConfig>,
    format: String,
    now: u64,
) -> (r: ServerResponse)
    requires
        old(state).wf(),
    ensures
        final(state).wf(),
        r matches ServerResponse::JobCreated { job_id } && is_uuid(job_id@) && ({
            let name = final(state)@.queue.jobs[job_id@].info.file_name;
            let job = file_job(old(state)@, job_id@, name, path@, config, format@, now);
            &&& final(state)@ == old(state)@.video_queued(job_id@, job)
            &&& names_file(path@, name)
        }),
{
    let settings = settings_or_default(config, state.config.required_clients);
    state.current_input = Some(path.clone());
    let job_id = state.job_queue.add_job(path, settings, format, now);
    ServerResponse::JobCreated { job_id }
}

impl AppView {
    /// What is answered when a job is to be cancelled.
    pub open spec fn cancel_answer(self, job_id: Seq<char>) -> ServerResponseView {
        if self.queue.jobs.contains_key(job_id) && self.queue.queue.contains(job_id) {
            ServerResponseView::JobStatus {
                job_id,
                status: JobStatus::Cancelled,
                progress: Progress::spec_none(),
                error: None,
            }
        } else {
            ServerResponseView::Error {
                code: "JOB_NOT_FOUND"@,
                message: "Job not found: "@ + job_id,
            }
        }
    }
}

/// Cancels a job; `now` is the time in seconds.
pub fn handle_cancel_job(state: &mut AppState, job_id: String, now: u64) -> (r: ServerResponse)
    requires
        old(state).wf(),
    ensures
        final(state).wf(),
        final(state)@ == (AppView {
            queue: old(state)@.queue.cancelled(job_id@, now),
            ..old(state)@
        }),
        r@ == old(state)@.cancel_answer(job_id@),
{
    if state.job_queue.cancel_job(job_id.as_str(), now) {
        ServerResponse::JobStatus {
            job_id,
            status: JobStatus::Cancelled,
            progress: Progress::none(),
            error: None,
        }
    } else {
        CommandError::JobNotFound(job_id).response()
    }
}

impl AppView {
    /// What is told of a job.
    pub open spec fn job_answer(self, job_id: Seq<char>) -> ServerResponseView {
        if self.queue.jobs.contains_key(job_id) {
            ServerResponseView::JobStatus {
                job_id,
                status: self.queue.jobs[job_id].info.status,
                progress: self.queue.jobs[job_id].info.progress,
                error: self.queue.jobs[job_id].info.error,
            }
        } else {
            ServerResponseView::Error {
                code: "JOB_NOT_FOUND"@,
                message: "Job not found: "@ + job_id,
            }
        }
    }
}

/// Tells how far a job is.
pub fn handle_get_job_status(state: &AppState, job_id: String) -> (r: ServerResponse)
    requires
        state.wf(),
    ensures
        r@ == state@.job_answer(job_id@),
{
    match state.job_queue.get_job(job_id.as_str()) {
        Some(job) => ServerResponse::JobStatus {
            job_id,
            status: job.info.status,
            progress: job.info.progress,
            error: copy_opt(&job.info.error),
        },
        None => CommandError::JobNotFound(job_id).response(),
    }
}

/// Tells of all jobs, the latest first.
pub fn handle_list_jobs(state: &AppState) -> (r: ServerResponse)
    requires
        state.wf(),
    ensures
        r matches ServerResponse::JobsList(l) && state@.queue.is_listing(
            l@.map_values(|j: JobInfo| j@),
        ),
{
    ServerResponse::JobsList(state.job_queue.list_jobs())
}

impl AppView {
    /// What is told of a client.
    pub open spec fn client_info(self, client_id: Seq<char>, now: u64) -> ClientInfoView {
        ClientInfoView {
            client_id,
            connected_at: now,
            current_job: self.current_job,
            performance: Some(self.clients[client_id]),
            status: if self.clients[client_id].is_positive() {
                ClientStatus::Processing
            } else {
                ClientStatus::Connected
            },
        }
    }

    /// `list` tells of every client once.
    pub open spec fn is_client_listing(self, list: Seq<ClientInfoView>, now: u64) -> bool {
        let ids = list.map_values(|c: ClientInfoView| c.client_id);
        &&& ids.no_duplicates()
        &&& ids.to_set() == self.clients.dom()
        &&& forall|i: int|
            0 <= i < list.len() ==> #[trigger] list[i] == self.client_info(list[i].client_id, now)
    }
}

/// Tells of all clients; `now` is the time in seconds.
pub fn handle_list_clients(state: &AppState, now: u64) -> (r: ServerResponse)
    requires
        state.wf(),
    ensures
        r matches ServerResponse::ClientsList(l) && state@.is_client_listing(
            l@.map_values(|c: ClientInfo| c@),
            now,
        ),
{
    let mut list: Vec<ClientInfo> = Vec::new();
    let ghost order = state.clients.order();
    proof {
        state.clients.lemma_order();
    }
    let n: usize = state.clients.len();
    let mut i: usize = 0;
    while i < n
        invariant
            state.wf(),
            order == state.clients.order(),
            n == order.len(),
            i <= n,
            list.len() == i,
            forall|j: int|
                0 <= j < i ==> (#[trigger] list@[j])@ == state@.client_info(order[j], now),
        decreases n - i,
    {
        let fps = *state.clients.value_at(i);
        list.push(
            ClientInfo {
                client_id: state.clients.key_at(i).clone(),
                connected_at: now,
                current_job: copy_opt(&state.current_job),
                performance: Some(fps),
                status: if fps.positive() {
                    ClientStatus::Processing
                } else {
                    ClientStatus::Connected
                },
            },
        );
        i += 1;
    }
    proof {
        let views = list@.map_values(|c: ClientInfo| c@);
        let ids = views.map_values(|c: ClientInfoView| c.client_id);
        assert forall|j: int| 0 <= j < views.len() implies #[trigger] views[j]
            == state@.client_info(order[j], now) by {
            assert(views[j] == list@[j]@);
        }
        assert(ids =~= order);
    }
    ServerResponse::ClientsList(list)
}

/// Forgets a client.
pub fn handle_disconnect_client(state: &mut AppState, client_id: String) -> (r: ServerResponse)
    requires
        old(state).wf(),
    ensures
        final(state).wf(),
        final(state)@ == (AppView {
            clients: old(state)@.clients.remove(client_id@),
            ..old(state)@
        }),
        if old(state)@.clients.contains_key(client_id@) {
            r matches ServerResponse::ClientsList(l) && l@.len() == 0
        } else {
            r@ == (ServerResponseView::Error {
                code: "CLIENT_NOT_FOUND"@,
                message: "Client not found: "@ + client_id@,
            })
        },
{
    if state.clients.remove(client_id.as_str()).is_some() {
        ServerResponse::ClientsList(Vec::new())
    } else {
        CommandError::ClientNotFound(client_id).response()
    }
}

/// The file that an uploaded video is written to.
pub fn input_file_for(name: &str) -> (r: PathParts)
    ensures
        r@ == seq!["work/server/input"@, name@],
{
    let r = PathParts::from_text("work/server/input").join(name);
    assert(r@ =~= seq!["work/server/input"@, name@]);
    r
}

/// A job on an uploaded video: its name, the arguments for its encoder, and
/// whether it is to be started with a benchmark.
#[derive(Debug)]
pub struct UploadStart {
    pub job_id: String,
    pub params: Vec<String>,
    pub benchmark: bool,
}

impl UploadStart {
    /// This is what came of the upload of a video to the server `v`.
    pub open spec fn tells(&self, v: AppView, config: Option<JobConfig>) -> bool {
        let settings = job_settings(config, v.config.required_clients);
        &&& texts(self.params@) == settings.ffmpeg_params
        &&& self.benchmark == (v.clients.len() >= settings.required_clients)
    }
}

/// The job that the upload of a video makes: its format is not known.
pub open spec fn upload_job(
    v: AppView,
    job_id: Seq<char>,
    name: Seq<char>,
    input: Seq<char>,
    config: Option<JobConfig>,
    now: u64,
) -> JobView {
    file_job(v, job_id, name, input, config, Seq::empty(), now)
}

/// Queues a job named `job_id` on the uploaded video `input`, under the name
/// `name`, and turns to it; `now` is the time in seconds.
pub fn upload_and_process_as(
    state: &mut AppState,
    job_id: String,
    name: String,
    input: String,
    config: Option<JobConfig>,
    now: u64,
) -> (r: UploadStart)
    requires
        old(state).wf(),
    ensures
        final(state).wf(),
        r.job_id@ == job_id@,
        r.tells(old(state)@, config),
        final(state)@ == old(state)@.upload_started(
            job_id@,
            upload_job(old(state)@, job_id@, name@, input@, config, now),
        ),
{
    let ghost job = upload_job(old(state)@, job_id@, name@, input@, config, now);
    let settings = settings_or_default(config, state.config.required_clients);
    let params = copy_list(&settings.ffmpeg_params);
    let benchmark = state.has_enough_clients(settings.required_clients);
    state.current_job = Some(job_id.clone());
    state.current_input = Some(input.clone());
    let format = String::new();
    assert(format@ =~= Seq::empty());
    state.job_queue.add_named_job(job_id.clone(), input, name, settings, format, now);
    state.job_queue.mark_job_started(job_id.as_str());
    assert(state@ =~= old(state)@.upload_started(job_id@, job));
    UploadStart { job_id, params, benchmark }
}

/// Queues a job, under a random name, on the uploaded video `input`, and turns to
/// it; see `upload_and_process_as`.
pub fn handle_upload_and_process(
    state: &mut AppState,
    name: String,
    input: String,
    config: Option<JobConfig>,
    now: u64,
) -> (r: UploadStart)
    requires
        old(state).wf(),
    ensures
        final(state).wf(),
        is_uuid(r.job_id@),
        r.tells(old(state)@, config),
        final(state)@ == old(state)@.upload_started(
            r.job_id@,
            upload_job(old(state)@, r.job_id@, name@, input@, config, now),
        ),
{
    upload_and_process_as(state, new_uuid(), name, input, config, now)
}

/// A job that was just made is known, whatever made it: what is told of it is its
/// status, and not that there is no such job.
pub proof fn law_made_job_is_told_of(v: AppView, job_id: Seq<char>, job: JobView)
    requires
        job.info.job_id == job_id,
        job.info.status == JobStatus::Queued,
    ensures
        v.file_queued(job_id, job).job_answer(job_id) == (ServerResponseView::JobStatus {
            job_id,
            status: JobStatus::Queued,
            progress: job.info.progress,
            error: job.info.error,
        }),
        v.video_queued(job_id, job).job_answer(job_id) == (ServerResponseView::JobStatus {
            job_id,
            status: JobStatus::Queued,
            progress: job.info.progress,
            error: job.info.error,
        }),
        v.upload_started(job_id, job).job_answer(job_id) == (ServerResponseView::JobStatus {
            job_id,
            status: JobStatus::WaitingForClients,
            progress: job.info.progress,
            error: job.info.error,
        }),
        v.upload_started(job_id, job).queue.queue.contains(job_id),
{
    let after = v.upload_started(job_id, job).queue.queue;
    assert(after[after.len() - 1] == job_id);
}

/// A job that is made under a new name keeps the queue in order.
pub proof fn law_made_job_keeps_the_queue(v: AppView, job_id: Seq<char>, job: JobView)
    requires
        v.in_order(),
        !v.queue.jobs.contains_key(job_id),
        job.info.job_id == job_id,
        job.info.status == JobStatus::Queued,
    ensures
        v.file_queued(job_id, job).in_order(),
        v.video_queued(job_id, job).in_order(),
        v.upload_started(job_id, job).in_order(),
{
    law_queue_stays_sound(v.queue, job_id, job, 0, 0, Seq::empty(), 0);
    law_queue_stays_orderly(v.queue, job_id, job, 0, 0, Seq::empty(), 0);
    let q = v.queue.added(job_id, job);
    law_queue_stays_sound(q, job_id, job, 0, 0, Seq::empty(), 0);
    law_queue_stays_orderly(q, job_id, job, 0, 0, Seq::empty(), 0);
}

/// A cancelled job is not at work any more afterwards, and is told of as cancelled;
/// that it was cancelled is answered exactly if it was in the queue.
pub proof fn law_cancelled_job_is_told_of(v: AppView, job_id: Seq<char>, now: u64)
    requires
        v.queue.sound(),
        v.queue.jobs.contains_key(job_id),
    ensures
        ({
            let after = v.queue.cancelled(job_id, now);
            &&& after.jobs[job_id].info.status == JobStatus::Cancelled
            &&& after.jobs[job_id].info.completed_at == Some(now)
            &&& after.active != Some(job_id)
            &&& AppView { queue: after, ..v }.job_answer(job_id) == (ServerResponseView::JobStatus {
                job_id,
                status: JobStatus::Cancelled,
                progress: v.queue.jobs[job_id].info.progress,
                error: v.queue.jobs[job_id].info.error,
            })
            &&& v.cancel_answer(job_id) is JobStatus <==> v.queue.queue.contains(job_id)
        }),
{
}

} // verus!
