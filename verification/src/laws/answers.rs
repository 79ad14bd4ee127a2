//! Laws on what the server answers to operators.

use crate::file_transfer::FileTransferMessage;
use crate::laws::jobs::{left_between, lemma_leaves, others_stay, same_job};
use crate::laws::servers::{law_completed_job_makes_room, law_job_at_hand_is_given_up};
use crate::laws::texts::{
    blank, law_trimming_finds_the_text, law_trimming_takes_white_space_off, trims,
};
use crate::models::messages::{
    ClientInfo, ClientInfoView, ClientStatus, JobConfig, JobInfo, JobInfoView, JobStatus,
    ServerResponse,
};
use crate::path::{names_file, PathParts};
use crate::server::command::{
    handle_cancel_job, handle_disconnect_client, handle_get_job_status, handle_list_clients,
    handle_list_jobs, handle_process_local_file, handle_process_video_data,
    handle_upload_and_process, input_file_for, on_command_frame, process_local_file_as,
    upload_and_process_as, upload_dir, CommandError, CommandFrame, CommandStep, LocalFile,
    LocalRequest, LocalStart, StartOutcome, UploadStart,
};
use crate::server::job_queue::JobView;
use crate::server::state::{AppState, AppView, NextJob, Outgoing};
use crate::text::{is_white, opt_text, texts, trimmed};
use crate::transfer_handler::{FileTransfer, TransferRefusal, TransferStep};
use vstd::prelude::*;

verus! {

/// An answer is this error.
pub open spec fn is_error(r: ServerResponse, code: Seq<char>, message: Seq<char>) -> bool {
    r matches ServerResponse::Error { code: c, message: m } && c@ == code && m@ == message
}

/// Of a known job its own status, progress and error are told, whatever they are; of any
/// other, that there is none.
pub proof fn law_status_is_told_as_recorded(state: AppState, job_id: String, r: ServerResponse)
    requires
        call_ensures(handle_get_job_status, (&state, job_id), r),
    ensures
        state@.queue.jobs.contains_key(job_id@) ==> {
            let told = state@.queue.jobs[job_id@].info;
            &&& r matches ServerResponse::JobStatus { job_id: id, status, progress, error }
            &&& id@ == job_id@
            &&& status == told.status
            &&& progress.done == told.progress.done && progress.total == told.progress.total
            &&& opt_text(error) == told.error
        },
        !state@.queue.jobs.contains_key(job_id@) ==> is_error(
            r,
            "JOB_NOT_FOUND"@,
            "Job not found: "@ + job_id@,
        ),
{
}

/// What is told of a job is what the list of jobs tells of it.
pub proof fn law_status_agrees_with_the_list(
    state: AppState,
    list: Vec<JobInfo>,
    i: int,
    r: ServerResponse,
)
    requires
        call_ensures(handle_list_jobs, (&state,), ServerResponse::JobsList(list)),
        0 <= i < list@.len(),
        call_ensures(handle_get_job_status, (&state, list@[i].job_id), r),
    ensures
        r matches ServerResponse::JobStatus { job_id, status, progress, error } && job_id@
            == list@[i].job_id@ && status == list@[i].status && progress == list@[i].progress
            && opt_text(error) == opt_text(list@[i].error),
{
    let views = list@.map_values(|j: JobInfo| j@);
    let ids = views.map_values(|j: JobInfoView| j.job_id);
    assert(views[i] == list@[i]@);
    assert(ids[i] == list@[i].job_id@);
    assert(ids.contains(ids[i]));
}

/// Once a job was completed, it is told of as completed, with nothing left to do.
pub proof fn law_completed_job_is_told_as_completed(
    s: &mut AppState,
    name: &str,
    download_url: Option<String>,
    now: u64,
    done: (Vec<Outgoing>, Option<NextJob>),
    state: AppState,
    job_id: String,
    r: ServerResponse,
)
    requires
        call_ensures(AppState::complete_job, (s, name, download_url, now), done),
        old(s)@.in_order(),
        old(s)@.queue.jobs.contains_key(name@),
        state@ == final(s)@,
        job_id@ == name@,
        call_ensures(handle_get_job_status, (&state, job_id), r),
    ensures
        r matches ServerResponse::JobStatus { job_id: id, status, progress, error } && id@
            == job_id@ && status == JobStatus::Completed && progress.done == 1
            && progress.total == 1,
{
    law_completed_job_makes_room(
        s,
        name,
        download_url,
        now,
        done,
        Seq::empty(),
        Seq::empty(),
        name@,
    );
}

/// Once a job was given up, it is told of as failed, with the error.
pub proof fn law_given_up_job_is_told_as_failed(
    s: &mut AppState,
    error: &str,
    now: u64,
    sent: Vec<Outgoing>,
    state: AppState,
    job_id: String,
    r: ServerResponse,
)
    requires
        call_ensures(AppState::give_up, (s, error, now), sent),
        old(s)@.in_order(),
        old(s)@.queue.jobs.contains_key(job_id@),
        old(s)@.current_job == Some(job_id@),
        state@ == final(s)@,
        call_ensures(handle_get_job_status, (&state, job_id), r),
    ensures
        r matches ServerResponse::JobStatus { job_id: id, status, progress, error: e } && id@
            == job_id@ && status == JobStatus::Failed && opt_text(e) == Some(error@),
{
    law_job_at_hand_is_given_up(
        s,
        error,
        now,
        sent,
        job_id@,
        Seq::empty(),
        Seq::empty(),
        job_id@,
    );
}

/// Once a job was cancelled, it is told of as cancelled.
pub proof fn law_cancelled_job_is_told_as_cancelled(
    s: &mut AppState,
    job_id: String,
    now: u64,
    answer: ServerResponse,
    state: AppState,
    r: ServerResponse,
)
    requires
        call_ensures(handle_cancel_job, (s, job_id, now), answer),
        old(s)@.queue.jobs.contains_key(job_id@),
        state@ == final(s)@,
        call_ensures(handle_get_job_status, (&state, job_id), r),
    ensures
        r matches ServerResponse::JobStatus { job_id: id, status, progress, error } && id@
            == job_id@ && status == JobStatus::Cancelled,
{
}

/// A job in the queue is cancelled, leaves the queue and keeps what it is; that it was is
/// answered. A job that is not in it is answered not to be there. Nothing else changes.
pub proof fn law_queued_job_is_cancelled(
    s: &mut AppState,
    job_id: String,
    now: u64,
    r: ServerResponse,
    a: Seq<Seq<char>>,
    b: Seq<Seq<char>>,
)
    requires
        call_ensures(handle_cancel_job, (s, job_id, now), r),
        old(s)@.in_order(),
    ensures
        others_stay(old(s)@.queue, final(s)@.queue, job_id@),
        final(s)@.clients == old(s)@.clients,
        final(s)@.segments == old(s)@.segments,
        final(s)@.orders == old(s)@.orders,
        final(s)@.current_job == old(s)@.current_job,
        final(s)@.current_input == old(s)@.current_input,
        final(s)@.config == old(s)@.config,
        old(s)@.queue.queue.contains(job_id@) ==> {
            &&& r matches ServerResponse::JobStatus { job_id: id, status, progress, error }
            &&& id@ == job_id@ && status == JobStatus::Cancelled
            &&& progress.done == 0 && progress.total == 1
            &&& error is None
            &&& !final(s)@.queue.queue.contains(job_id@)
            &&& same_job(old(s)@.queue.jobs[job_id@], final(s)@.queue.jobs[job_id@])
            &&& final(s)@.queue.jobs[job_id@].info.status == JobStatus::Cancelled
            &&& final(s)@.queue.jobs[job_id@].info.completed_at == Some(now)
            &&& left_between(old(s)@.queue, final(s)@.queue, job_id@, a, b)
        },
        !old(s)@.queue.queue.contains(job_id@) ==> is_error(
            r,
            "JOB_NOT_FOUND"@,
            "Job not found: "@ + job_id@,
        ) && final(s)@.queue.queue == old(s)@.queue.queue,
{
    crate::server::job_queue::law_finished_jobs_leave(old(s)@.queue, job_id@, Seq::empty(), now);
    lemma_leaves(a, job_id@, b);
    lemma_leaves(old(s)@.queue.queue, job_id@, b);
    if old(s)@.queue.queue.contains(job_id@) {
        let i = old(s)@.queue.queue.index_of(job_id@);
        assert(old(s)@.queue.jobs.contains_key(old(s)@.queue.queue[i]));
    }
}

/// The list of clients tells of every known client, once: its speed, the job at hand, and
/// that it works exactly if its speed is a number above zero.
pub proof fn law_every_client_is_listed(
    state: AppState,
    now: u64,
    r: ServerResponse,
    c: Seq<char>,
    i: int,
    j: int,
)
    requires
        call_ensures(handle_list_clients, (&state, now), r),
    ensures
        r is ClientsList,
        r matches ServerResponse::ClientsList(l) ==> {
            &&& state@.clients.contains_key(c) <==> exists|k: int|
                0 <= k < l@.len() && #[trigger] l@[k].client_id@ == c
            &&& 0 <= i < j < l@.len() ==> l@[i].client_id@ != l@[j].client_id@
            &&& 0 <= i < l@.len() ==> {
                let speed = state@.clients[l@[i].client_id@];
                let measured = 0 < speed.bits && speed.bits <= 0x7ff0_0000_0000_0000u64;
                &&& state@.clients.contains_key(l@[i].client_id@)
                &&& l@[i].connected_at == now
                &&& opt_text(l@[i].current_job) == state@.current_job
                &&& l@[i].performance == Some(speed)
                &&& measured ==> l@[i].status == ClientStatus::Processing
                &&& !measured ==> l@[i].status == ClientStatus::Connected
            }
        },
{
    if let ServerResponse::ClientsList(l) = r {
        let views = l@.map_values(|c: ClientInfo| c@);
        let ids = views.map_values(|c: ClientInfoView| c.client_id);
        assert forall|k: int| 0 <= k < l@.len() implies ids[k] == (#[trigger] l@[k]).client_id@ by {
            assert(views[k] == l@[k]@);
        }
        assert(ids.to_set().contains(c) <==> state@.clients.contains_key(c));
        if ids.contains(c) {
            let k = ids.index_of(c);
            assert(l@[k].client_id@ == c);
        }
        if exists|k: int| 0 <= k < l@.len() && #[trigger] l@[k].client_id@ == c {
            let k = choose|k: int| 0 <= k < l@.len() && #[trigger] l@[k].client_id@ == c;
            assert(ids[k] == c);
        }
        if 0 <= i < l@.len() {
            assert(views[i] == l@[i]@);
            assert(ids.to_set().contains(ids[i]));
        }
        if 0 <= i < j < l@.len() {
            assert(ids[i] != ids[j]);
        }
    }
}

/// The list of jobs tells of every known job.
pub proof fn law_every_known_job_is_listed(state: AppState, r: ServerResponse, c: Seq<char>)
    requires
        call_ensures(handle_list_jobs, (&state,), r),
    ensures
        r is JobsList,
        r matches ServerResponse::JobsList(l) ==> (state@.queue.jobs.contains_key(c)
            <==> exists|k: int| 0 <= k < l@.len() && #[trigger] l@[k].job_id@ == c),
        r matches ServerResponse::JobsList(l) ==> forall|i: int, j: int|
            0 <= i < j < l@.len() ==> (#[trigger] l@[i]).created_at >= (
            #[trigger] l@[j]).created_at && l@[i].job_id@ != l@[j].job_id@,
{
    if let ServerResponse::JobsList(l) = r {
        let views = l@.map_values(|j: JobInfo| j@);
        let ids = views.map_values(|j: JobInfoView| j.job_id);
        assert forall|k: int| 0 <= k < l@.len() implies ids[k] == (#[trigger] l@[k]).job_id@ by {
            assert(views[k] == l@[k]@);
        }
        if ids.contains(c) {
            let k = ids.index_of(c);
            assert(l@[k].job_id@ == c);
        }
        if exists|k: int| 0 <= k < l@.len() && #[trigger] l@[k].job_id@ == c {
            let k = choose|k: int| 0 <= k < l@.len() && #[trigger] l@[k].job_id@ == c;
            assert(ids[k] == c);
        }
        assert forall|i: int, j: int| 0 <= i < j < l@.len() implies (
        #[trigger] l@[i]).created_at >= (#[trigger] l@[j]).created_at && l@[i].job_id@
            != l@[j].job_id@ by {
            assert(views[i] == l@[i]@);
            assert(views[j] == l@[j]@);
            assert(ids[i] != ids[j]);
        }
    }
}

/// A client that is to be disconnected is not known afterwards, and every other is. That
/// it was known is answered with an empty list.
pub proof fn law_client_is_disconnected(
    s: &mut AppState,
    client_id: String,
    r: ServerResponse,
    other: Seq<char>,
)
    requires
        call_ensures(handle_disconnect_client, (s, client_id), r),
    ensures
        !final(s)@.clients.contains_key(client_id@),
        other != client_id@ ==> (final(s)@.clients.contains_key(other)
            <==> old(s)@.clients.contains_key(other)),
        other != client_id@ && old(s)@.clients.contains_key(other) ==> final(s)@.clients[other]
            == old(s)@.clients[other],
        final(s)@.queue == old(s)@.queue,
        final(s)@.segments == old(s)@.segments,
        final(s)@.orders == old(s)@.orders,
        final(s)@.current_job == old(s)@.current_job,
        final(s)@.current_input == old(s)@.current_input,
        final(s)@.config == old(s)@.config,
        old(s)@.clients.contains_key(client_id@) ==> (r matches ServerResponse::ClientsList(l)
            && l@.len() == 0),
        !old(s)@.clients.contains_key(client_id@) ==> is_error(
            r,
            "CLIENT_NOT_FOUND"@,
            "Client not found: "@ + client_id@,
        ),
{
}

/// A failure is answered with its code and its words.
pub proof fn law_failures_are_answered(e: CommandError, r: ServerResponse)
    requires
        call_ensures(CommandError::response, (&e,), r),
    ensures
        e matches CommandError::FileNotFound { file_path, current_dir: Some(d) } ==> is_error(
            r,
            "FILE_NOT_FOUND"@,
            "File not found: "@ + file_path@ + ". Current working directory: "@ + d@,
        ),
        e matches CommandError::FileNotFound { file_path, current_dir: None } ==> is_error(
            r,
            "FILE_NOT_FOUND"@,
            "File not found: "@ + file_path@ + ". Current working directory: "@ + "unknown"@,
        ),
        e matches CommandError::Unresolved { file_path, reason } ==> is_error(
            r,
            "PATH_RESOLUTION_ERROR"@,
            "Failed to resolve path "@ + file_path@ + ": "@ + reason@,
        ),
        e matches CommandError::Undetected { path, reason } ==> is_error(
            r,
            "FORMAT_DETECTION_FAILED"@,
            "Failed to detect file format for "@ + path@ + ": "@ + reason@,
        ),
        e matches CommandError::NotSetUp(w) ==> is_error(
            r,
            "SEGMENT_MANAGER_ERROR"@,
            "Failed to initialize segment manager: "@ + w@,
        ),
        e matches CommandError::NoSample(w) ==> is_error(
            r,
            "BENCHMARK_CREATION_FAILED"@,
            "Failed to create benchmark sample: "@ + w@,
        ),
        e matches CommandError::NoUploadDir(w) ==> is_error(
            r,
            "DIRECTORY_CREATE_FAILED"@,
            "Failed to create upload directory: "@ + w@,
        ),
        e matches CommandError::NotWritten(w) ==> is_error(
            r,
            "FILE_WRITE_FAILED"@,
            "Failed to write uploaded file: "@ + w@,
        ),
        e matches CommandError::NoInputDir(w) ==> is_error(
            r,
            "IO_ERROR"@,
            "Failed to create input directory: "@ + w@,
        ),
        e matches CommandError::InputNotWritten(w) ==> is_error(
            r,
            "IO_ERROR"@,
            "Failed to write input file: "@ + w@,
        ),
        e matches CommandError::JobNotFound(id) ==> is_error(
            r,
            "JOB_NOT_FOUND"@,
            "Job not found: "@ + id@,
        ),
        e matches CommandError::ClientNotFound(id) ==> is_error(
            r,
            "CLIENT_NOT_FOUND"@,
            "Client not found: "@ + id@,
        ),
        e matches CommandError::Transfer(w) ==> is_error(r, "UPLOAD_FAILED"@, w@),
{
}

/// A request is about the file that it names, or about the standard one if the name is
/// nothing but white space, and keeps its settings.
pub proof fn law_request_is_about_its_file(
    file_path: String,
    config: Option<JobConfig>,
    r: LocalRequest,
    i: int,
)
    requires
        call_ensures(LocalRequest::new, (file_path, config), r),
    ensures
        blank(file_path@) ==> r.file() == "test.mp4"@,
        0 <= i < file_path@.len() && !is_white(file_path@[i]) ==> r.file() == file_path@,
        r.settings() == config,
{
    let path = file_path@;
    if blank(path) {
        law_trimming_finds_the_text(path, Seq::empty(), Seq::empty());
        assert(path + Seq::<char>::empty() + Seq::<char>::empty() =~= path);
    }
    if 0 <= i < path.len() && !is_white(path[i]) {
        law_trimming_takes_white_space_off(path);
        let (front, back) = choose|front: Seq<char>, back: Seq<char>| #[trigger]
            trims(path, front, trimmed(path), back);
        if trimmed(path).len() == 0 {
            assert(path =~= front + back);
            if i < front.len() {
                assert(is_white(front[i]));
            } else {
                assert(is_white(back[i - front.len()]));
            }
        }
    }
}

/// A file that was found lies where it was found, and is otherwise what the request asks
/// for; what goes wrong with it is answered with its own words.
pub proof fn law_found_file_is_the_requested_one(
    request: LocalRequest,
    path: String,
    file: LocalFile,
    detected: &str,
    current_dir: Option<String>,
    missing: ServerResponse,
    reason: String,
    unresolved: ServerResponse,
    undetected: ServerResponse,
)
    requires
        call_ensures(LocalRequest::found, (request, path), file),
        call_ensures(LocalFile::to_detect, (&file,), detected),
        call_ensures(LocalRequest::not_found, (request, current_dir), missing),
        call_ensures(LocalRequest::unresolved, (request, reason), unresolved),
        call_ensures(LocalFile::undetected, (file, reason), undetected),
    ensures
        file.file() == request.file(),
        file.path() == path@,
        file.settings() == request.settings(),
        detected@ == request.file(),
        is_error(
            missing,
            "FILE_NOT_FOUND"@,
            "File not found: "@ + request.file() + ". Current working directory: "@
                + match opt_text(current_dir) {
                Some(d) => d,
                None => "unknown"@,
            },
        ),
        is_error(
            unresolved,
            "PATH_RESOLUTION_ERROR"@,
            "Failed to resolve path "@ + request.file() + ": "@ + reason@,
        ),
        is_error(
            undetected,
            "FORMAT_DETECTION_FAILED"@,
            "Failed to detect file format for "@ + path@ + ": "@ + reason@,
        ),
{
}

/// A job is what was asked for: on this file, under this name, with the settings that were
/// given or else the standard ones with as many clients as the server requires.
pub open spec fn is_asked_for(
    job: JobView,
    v: AppView,
    job_id: Seq<char>,
    name: Seq<char>,
    path: Seq<char>,
    config: Option<JobConfig>,
    format: Seq<char>,
    now: u64,
) -> bool {
    &&& job.info.job_id == job_id
    &&& job.info.file_name == name
    &&& job.info.created_at == now
    &&& job.info.completed_at is None
    &&& job.info.error is None
    &&& job.info.progress.done == 0 && job.info.progress.total == 1
    &&& job.file_path == path
    &&& job.format == format
    &&& match config {
        Some(c) => {
            &&& job.config.ffmpeg_params == texts(c.ffmpeg_params@)
            &&& job.config.required_clients == c.required_clients
            &&& job.config.exactly == c.exactly
        },
        None => {
            &&& job.config.ffmpeg_params == seq!["-c:v"@, "libx264"@, "-preset"@, "medium"@]
            &&& job.config.required_clients == v.config.required_clients
            &&& job.config.exactly
        },
    }
}

/// A file of the server was queued: its job is what was asked for, stands at the end of
/// the queue, and is turned to at once exactly if the server has nothing at hand and
/// nothing waits before it.
pub open spec fn is_queued_locally(
    v: AppView,
    w: AppView,
    r: LocalStart,
    name: Seq<char>,
    file: LocalFile,
    format: Seq<char>,
    now: u64,
) -> bool {
    let id = r.job_id@;
    let job = w.queue.jobs[id];
    let free = v.current_job is None && v.queue.active is None && v.queue.queue.len() == 0;
    &&& w.queue.jobs.contains_key(id)
    &&& is_asked_for(job, v, id, name, file.path(), file.settings(), format, now)
    &&& w.queue.queue == v.queue.queue + seq![id]
    &&& w.clients == v.clients
    &&& w.orders == v.orders
    &&& w.config == v.config
    &&& w.segments.segments == v.segments.segments
    &&& w.segments.original_format == Some(format)
    &&& v.current_job is Some ==> {
        &&& r.next is None && !r.benchmark
        &&& w.current_job == v.current_job && w.current_input == v.current_input
        &&& job.info.status == JobStatus::Queued
        &&& others_stay(v.queue, w.queue, id)
        &&& w.queue.active == v.queue.active
        &&& w.segments.job_id == v.segments.job_id
    }
    &&& free ==> {
        &&& r.next matches Some(n)
        &&& n.job_id@ == id && n.input@ == file.path()
        &&& texts(n.params@) == job.config.ffmpeg_params
        &&& n.required_clients == job.config.required_clients
        &&& r.benchmark == (v.clients.len() >= job.config.required_clients)
        &&& w.current_job == Some(id)
        &&& w.current_input == Some(file.path())
        &&& w.queue.active == Some(id)
        &&& w.segments.job_id == id
        &&& job.info.status == JobStatus::WaitingForClients
        &&& others_stay(v.queue, w.queue, id)
    }
    &&& v.current_job is None && v.queue.active is None && v.queue.queue.len() > 0 ==> {
        let first = v.queue.queue[0];
        &&& r.next matches Some(n)
        &&& n.job_id@ == first && n.input@ == v.queue.jobs[first].file_path
        &&& w.current_job == Some(first)
        &&& texts(n.params@) == v.queue.jobs[first].config.ffmpeg_params
        &&& n.required_clients == v.queue.jobs[first].config.required_clients
        &&& w.current_input == Some(v.queue.jobs[first].file_path)
        &&& w.queue.active == Some(first)
        &&& w.segments.job_id == first
        &&& w.queue.jobs[first].info.status == JobStatus::WaitingForClients
        &&& same_job(v.queue.jobs[first], w.queue.jobs[first])
        &&& job.info.status == JobStatus::Queued
        &&& r.benchmark == (v.clients.len() >= v.queue.jobs[first].config.required_clients)
    }
    &&& v.current_job is None && v.queue.active is Some ==> {
        &&& r.next is None && !r.benchmark
        &&& w.current_job is None && w.current_input == v.current_input
        &&& job.info.status == JobStatus::Queued
        &&& others_stay(v.queue, w.queue, id)
        &&& w.queue.active == v.queue.active
    }
}

proof fn lemma_queued_locally(
    v: AppView,
    w: AppView,
    r: LocalStart,
    name: Seq<char>,
    file: LocalFile,
    format: Seq<char>,
    now: u64,
)
    requires
        v.queue.sound(),
        !v.queue.jobs.contains_key(r.job_id@),
        ({
            let job = crate::server::command::file_job(
                v,
                r.job_id@,
                name,
                file.path(),
                file.settings(),
                format,
                now,
            );
            let queued = v.file_queued(r.job_id@, job);
            &&& w == queued.started_next()
            &&& r.tells(queued)
        }),
    ensures
        is_queued_locally(v, w, r, name, file, format, now),
{
    let id = r.job_id@;
    assert(w.queue.queue =~= v.queue.queue + seq![id]);
    if v.queue.queue.len() > 0 {
        assert((v.queue.queue + seq![id])[0] == v.queue.queue[0]);
        assert(v.queue.jobs.contains_key(v.queue.queue[0]));
    } else {
        assert((v.queue.queue + seq![id])[0] == id);
    }
}

/// A job on a file of the server, under a new name, is queued as it was asked for.
pub proof fn law_local_file_is_queued(
    s: &mut AppState,
    job_id: String,
    name: String,
    file: LocalFile,
    format: String,
    now: u64,
    r: LocalStart,
)
    requires
        call_ensures(process_local_file_as, (s, job_id, name, file, format, now), r),
        old(s)@.queue.sound(),
        !old(s)@.queue.jobs.contains_key(job_id@),
    ensures
        r.job_id@ == job_id@,
        is_queued_locally(old(s)@, final(s)@, r, name@, file, format@, now),
{
    lemma_queued_locally(old(s)@, final(s)@, r, name@, file, format@, now);
}

/// A job on a file of the server is queued under the name of its file as it was asked for.
pub proof fn law_local_file_is_queued_under_its_name(
    s: &mut AppState,
    file: LocalFile,
    format: String,
    now: u64,
    r: LocalStart,
)
    requires
        call_ensures(handle_process_local_file, (s, file, format, now), r),
        old(s)@.queue.sound(),
        !old(s)@.queue.jobs.contains_key(r.job_id@),
    ensures
        exists|name: Seq<char>| #[trigger]
            names_file(file.path(), name) && is_queued_locally(
                old(s)@,
                final(s)@,
                r,
                name,
                file,
                format@,
                now,
            ),
{
    let name = choose|name: Seq<char>| #[trigger]
        names_file(file.path(), name) && ({
            let job = crate::server::command::file_job(
                old(s)@,
                r.job_id@,
                name,
                file.path(),
                file.settings(),
                format@,
                now,
            );
            let queued = old(s)@.file_queued(r.job_id@, job);
            &&& final(s)@ == queued.started_next()
            &&& r.tells(queued)
        });
    lemma_queued_locally(old(s)@, final(s)@, r, name, file, format@, now);
    assert(names_file(file.path(), name));
}

/// What came of a request for a file is answered: the job that was made, or why it could
/// not be started.
pub proof fn law_start_is_answered(start: LocalStart, outcome: StartOutcome, r: ServerResponse)
    requires
        call_ensures(LocalStart::answer, (start, outcome), r),
    ensures
        outcome is Started ==> (r matches ServerResponse::JobCreated { job_id } && job_id@
            == start.job_id@),
        outcome matches StartOutcome::NotSetUp(w) ==> is_error(
            r,
            "SEGMENT_MANAGER_ERROR"@,
            "Failed to initialize segment manager: "@ + w@,
        ),
        outcome matches StartOutcome::NoSample(w) ==> is_error(
            r,
            "BENCHMARK_CREATION_FAILED"@,
            "Failed to create benchmark sample: "@ + w@,
        ),
{
}

/// A video that was sent along is queued as it was asked for, behind all others, and is
/// the one at hand; the name of its job is answered.
pub proof fn law_sent_video_is_queued(
    s: &mut AppState,
    path: String,
    config: Option<JobConfig>,
    format: String,
    now: u64,
    r: ServerResponse,
)
    requires
        call_ensures(handle_process_video_data, (s, path, config, format, now), r),
    ensures
        r is JobCreated,
        r matches ServerResponse::JobCreated { job_id } ==> {
            let v = old(s)@;
            let w = final(s)@;
            let job = w.queue.jobs[job_id@];
            &&& w.queue.jobs.contains_key(job_id@)
            &&& names_file(path@, job.info.file_name)
            &&& is_asked_for(
                job,
                v,
                job_id@,
                job.info.file_name,
                path@,
                config,
                format@,
                now,
            )
            &&& job.info.status == JobStatus::Queued
            &&& w.queue.queue == v.queue.queue + seq![job_id@]
            &&& w.queue.active == v.queue.active
            &&& others_stay(v.queue, w.queue, job_id@)
            &&& w.current_input == Some(path@)
            &&& w.current_job == v.current_job
            &&& w.clients == v.clients && w.orders == v.orders && w.segments == v.segments
            &&& w.config == v.config
        },
{
    if let ServerResponse::JobCreated { job_id } = r {
        assert(final(s)@.queue.queue =~= old(s)@.queue.queue + seq![job_id@]);
    }
}

/// An uploaded video is queued as it was asked for, behind all others; its job is the one
/// at hand and waits for clients, and is started with a benchmark exactly if those it
/// requires are there.
pub open spec fn is_upload_started(
    v: AppView,
    w: AppView,
    r: UploadStart,
    name: Seq<char>,
    input: Seq<char>,
    config: Option<JobConfig>,
    now: u64,
) -> bool {
    let id = r.job_id@;
    let job = w.queue.jobs[id];
    &&& w.queue.jobs.contains_key(id)
    &&& is_asked_for(job, v, id, name, input, config, Seq::empty(), now)
    &&& job.info.status == JobStatus::WaitingForClients
    &&& w.queue.queue == v.queue.queue + seq![id]
    &&& w.queue.active == v.queue.active
    &&& others_stay(v.queue, w.queue, id)
    &&& w.current_job == Some(id)
    &&& w.current_input == Some(input)
    &&& w.clients == v.clients && w.orders == v.orders && w.segments == v.segments
    &&& w.config == v.config
    &&& texts(r.params@) == job.config.ffmpeg_params
    &&& r.benchmark <==> v.clients.len() >= job.config.required_clients
}

/// An uploaded video is turned to at once, under the name that it is given.
pub proof fn law_uploaded_video_is_turned_to(
    s: &mut AppState,
    job_id: String,
    name: String,
    input: String,
    config: Option<JobConfig>,
    now: u64,
    r: UploadStart,
)
    requires
        call_ensures(upload_and_process_as, (s, job_id, name, input, config, now), r),
    ensures
        r.job_id@ == job_id@,
        is_upload_started(old(s)@, final(s)@, r, name@, input@, config, now),
{
    assert(final(s)@.queue.queue =~= old(s)@.queue.queue + seq![job_id@]);
}

/// An uploaded video is turned to at once, under whatever name.
pub proof fn law_upload_is_turned_to(
    s: &mut AppState,
    name: String,
    input: String,
    config: Option<JobConfig>,
    now: u64,
    r: UploadStart,
)
    requires
        call_ensures(handle_upload_and_process, (s, name, input, config, now), r),
    ensures
        is_upload_started(old(s)@, final(s)@, r, name@, input@, config, now),
{
    assert(final(s)@.queue.queue =~= old(s)@.queue.queue + seq![r.job_id@]);
}

/// Uploads lie in their directories.
pub proof fn law_uploads_have_their_directories(dir: PathParts, name: &str, file: PathParts)
    requires
        call_ensures(upload_dir, (), dir),
        call_ensures(input_file_for, (name,), file),
    ensures
        dir@ == seq!["work"@, "server"@, "uploads"@],
        file@ == seq!["work/server/input"@, name@],
{
}

/// What an operator sends leads to what it is for: a command is run, a ping answered with
/// its own data, the connection left when it is to be closed, and all else passed over.
pub proof fn law_operator_frames_lead_to_their_steps(
    t: &mut FileTransfer,
    frame: CommandFrame,
    r: CommandStep,
)
    requires
        call_ensures(on_command_frame, (t, frame), r),
        !(frame is TransferText) && !(frame is TransferBytes),
    ensures
        final(t)@ == old(t)@,
        frame matches CommandFrame::Command(c) ==> (r matches CommandStep::Run(d) && d == c),
        frame matches CommandFrame::Ping(d) ==> (r matches CommandStep::Pong(e) && e@ == d@),
        frame is Close <==> r is Stop,
        frame is Unknown || frame is Pong ==> r is Wait,
{
}

/// An answer tells of a refused transfer.
pub open spec fn tells_refusal(r: ServerResponse, refusal: TransferRefusal) -> bool {
    match refusal {
        TransferRefusal::InvalidId => is_error(r, "UPLOAD_FAILED"@, "Invalid transfer ID"@),
        TransferRefusal::ChecksumMismatch => is_error(
            r,
            "UPLOAD_FAILED"@,
            "Checksum verification failed"@,
        ),
        TransferRefusal::NoTransfer => is_error(r, "UPLOAD_FAILED"@, "No active transfer"@),
    }
}

/// A path that may be missing is this one.
pub open spec fn is_path(p: Option<PathParts>, path: PathParts) -> bool {
    p matches Some(q) && q@ == path@
}

/// A message on a transfer leads to what the transfer asks for. One that came as text is
/// processed when it is complete, and a refusal is answered; with bytes a refusal ends the
/// connection.
pub proof fn law_transfer_frames_are_carried_out(
    t: &mut FileTransfer,
    u: &mut FileTransfer,
    m: FileTransferMessage,
    frame: CommandFrame,
    text: bool,
    r: CommandStep,
    asked: TransferStep,
)
    requires
        frame == if text {
            CommandFrame::TransferText(m)
        } else {
            CommandFrame::TransferBytes(m)
        },
        old(t)@ == old(u)@,
        call_ensures(on_command_frame, (t, frame), r),
        call_ensures(FileTransfer::handle_chunk, (u, m), asked),
    ensures
        final(t)@ == final(u)@,
        asked is Wait <==> r is Wait,
        asked matches TransferStep::Append { path, data } ==> (r matches CommandStep::Append {
            path: p,
            data: d,
        } && p@ == path@ && d@ == data@),
        asked matches TransferStep::Remove { path } ==> (r matches CommandStep::Remove { path: p }
            && p@ == path@),
        asked matches TransferStep::Publish { from, to } ==> (r matches CommandStep::Publish {
            from: f,
            to: o,
            process,
        } && f@ == from@ && o@ == to@ && process == text),
        text ==> (asked matches TransferStep::Refuse(e) ==> (r matches CommandStep::Answer {
            remove,
            response,
        } && remove is None && tells_refusal(response, e))),
        !text ==> (asked matches TransferStep::Refuse(e) ==> (r matches CommandStep::Fail {
            remove,
            refusal,
        } && remove is None && refusal == e)),
        text ==> (asked matches TransferStep::RemoveAndRefuse { path, refusal } ==> (
        r matches CommandStep::Answer { remove, response } && is_path(remove, path)
            && tells_refusal(response, refusal))),
        !text ==> (asked matches TransferStep::RemoveAndRefuse { path, refusal } ==> (
        r matches CommandStep::Fail { remove, refusal: e } && is_path(remove, path) && e
            == refusal)),
{
}

/// The file of a request is looked for where its path leads from the current directory.
pub proof fn law_requested_file_is_looked_for(
    request: LocalRequest,
    current_dir: Option<&str>,
    r: PathParts,
    on_drive: PathParts,
)
    requires
        call_ensures(LocalRequest::place, (&request, current_dir, false), r),
        call_ensures(LocalRequest::place, (&request, current_dir, true), on_drive),
    ensures
        ({
            let path = request.file();
            let absolute = path.len() > 0 && path[0] == '/';
            &&& absolute ==> r@ == seq![path]
            &&& !absolute ==> from_directory(path, current_dir, r@)
        }),
        ({
            let path = request.file();
            let root = path.len() > 2 && path[1] == ':' && (path[2] == '/' || path[2] == '\\');
            let named = path.len() > 0 && path[0] != '/' && path[0] != '\\' && (path.len() == 1
                || path[1] != ':');
            &&& root && ('a' <= path[0] <= 'z' || 'A' <= path[0] <= 'Z') ==> on_drive@ == seq![path]
            &&& named ==> from_directory(path, current_dir, on_drive@)
            &&& on_drive@ == seq![path] || from_directory(path, current_dir, on_drive@)
        }),
{
}

/// A path leads from the current directory, if that is known.
pub open spec fn from_directory(
    path: Seq<char>,
    current_dir: Option<&str>,
    r: Seq<Seq<char>>,
) -> bool {
    match current_dir {
        Some(d) => r == seq![d@, path],
        None => r == seq!["."@, path],
    }
}

} // verus!
