//! Laws on the server: its clients, and how it hands jobs out and finishes them.

use crate::laws::jobs::{leaves, left_between, lemma_leaves, others_stay, same_job};
use crate::models::config::{ServerConfig, ServerOptions};
use crate::models::measure::{Fps, Progress};
use crate::models::messages::{
    ClientMessage, JobStatus, ServerMessage as Notice, ServerMessageView as NoticeView,
};
use crate::server::chunks::{announce, chunks_of, cut_chunks, glued};
use crate::server::job_queue::{JobView, QueueView};
use crate::server::segment_manager::SegmentData;
use crate::server::state::{
    action_for, deliver, distribution_failure, idle_message, outgoing, AppState, AppView,
    ClientFrame, Delivery, DistributeError, FailureStep, NextJob, Outgoing, SegmentOutcome,
    ServerAction, ServerMessage,
};
use crate::text::{opt_text, texts, words};
use vstd::prelude::*;

verus! {

/// The settings of a server that was not told otherwise, and those of one that was.
pub proof fn law_settings(
    standard: ServerConfig,
    usual: ServerOptions,
    options: ServerOptions,
    told: ServerConfig,
)
    requires
        call_ensures(<ServerOptions as Default>::default, (), usual),
        call_ensures(<ServerConfig as Default>::default, (), standard),
        call_ensures(ServerConfig::from_options, (options,), told),
    ensures
        standard.required_clients == 3,
        standard.benchmark_seconds == 10,
        standard.ffmpeg_params@ == "-c:v libx264 -preset medium"@,
        standard.file_name_output@ == "output.mp4"@,
        standard.port == 5001,
        standard.exactly,
        standard.chunk_size == 1048576,
        standard.max_retries == 3,
        standard.retry_delay == 5,
        standard.file_name@.len() == 0 && standard.key@.len() == 0,
        standard.read_timeout == 60 && standard.write_timeout == 60,
        standard.max_message_size == 1048576000,
        usual.required_clients == standard.required_clients,
        usual.benchmark_duration == standard.benchmark_seconds,
        usual.ffmpeg_params@ == standard.ffmpeg_params@,
        usual.file_name_output@ == standard.file_name_output@,
        usual.port == standard.port,
        usual.exactly == standard.exactly,
        usual.chunk_size == standard.chunk_size,
        usual.max_retries == standard.max_retries,
        usual.retry_delay == standard.retry_delay,
        told.required_clients == options.required_clients,
        told.benchmark_seconds == options.benchmark_duration,
        told.ffmpeg_params@ == options.ffmpeg_params@,
        told.file_name_output@ == options.file_name_output@,
        told.port == options.port,
        told.exactly == options.exactly,
        told.chunk_size == options.chunk_size,
        told.max_retries == options.max_retries,
        told.retry_delay == options.retry_delay,
        told.read_timeout == 60 && told.write_timeout == 60,
        told.max_message_size == 1048576000,
        told.file_name@.len() == 0 && told.key@.len() == 0,
{
}

/// A speed counts as measured exactly if it is a number above zero: bits without a sign,
/// not zero, and up to those of infinity.
pub proof fn law_speed_is_a_number_above_zero(f: Fps, r: bool, zero: Fps)
    requires
        call_ensures(Fps::positive, (f,), r),
        call_ensures(Fps::zero, (), zero),
    ensures
        r <==> 0 < f.bits && f.bits <= 0x7ff0_0000_0000_0000u64,
        r <==> f.is_positive(),
        zero.bits == 0,
{
}

/// A new server knows no client, no job and no segment.
pub proof fn law_new_server_knows_nothing(config: ServerConfig, job_id: String, s: AppState)
    requires
        call_ensures(AppState::new_as, (config, job_id), s),
    ensures
        s@.config == config,
        s@.clients.dom() == Set::<Seq<char>>::empty(),
        s@.queue.jobs.dom() == Set::<Seq<char>>::empty(),
        s@.queue.queue.len() == 0,
        s@.queue.active is None,
        s@.segments.segments.dom() == Set::<Seq<char>>::empty(),
        s@.segments.job_id == job_id@,
        s@.current_job is None,
        s@.current_input is None,
        s@.orders.dom() == Set::<Seq<char>>::empty(),
{
    assert(s@.clients.dom() =~= Set::empty());
    assert(s@.queue.jobs.dom() =~= Set::empty());
    assert(s@.segments.segments.dom() =~= Set::empty());
    assert(s@.orders.dom() =~= Set::empty());
}

/// Two servers agree on everything but their clients.
pub open spec fn same_but_clients(v: AppView, w: AppView) -> bool {
    &&& w.config == v.config
    &&& w.segments == v.segments
    &&& w.queue == v.queue
    &&& w.current_job == v.current_job
    &&& w.current_input == v.current_input
    &&& w.client_segments == v.client_segments
    &&& w.orders == v.orders
}

/// Every client but `c` is known as before.
pub open spec fn other_clients_stay(v: AppView, w: AppView, c: Seq<char>) -> bool {
    forall|k: Seq<char>|
        #![trigger w.clients.contains_key(k)]
        #![trigger w.clients[k]]
        k != c ==> (w.clients.contains_key(k) <==> v.clients.contains_key(k)) && (
        v.clients.contains_key(k) ==> w.clients[k] == v.clients[k])
}

/// A client that connects is known from now on, and not measured. It is told its name and
/// the job at hand, or that there is none.
pub proof fn law_client_is_greeted(s: &mut AppState, client_id: &str, r: Notice)
    requires
        call_ensures(AppState::connect_as, (s, client_id), r),
    ensures
        final(s)@.clients.contains_key(client_id@),
        final(s)@.clients[client_id@].bits == 0,
        other_clients_stay(old(s)@, final(s)@, client_id@),
        same_but_clients(old(s)@, final(s)@),
        match old(s)@.current_job {
            Some(job) => r@ matches NoticeView::ClientId { id, job_id } && id == client_id@
                && job_id == job,
            None => r@ matches NoticeView::ClientIdle { id } && id == client_id@,
        },
{
}

/// A client that disconnects is forgotten, unless a segment of it is there.
pub proof fn law_client_is_forgotten(s: &mut AppState, client_id: &str)
    requires
        call_ensures(AppState::disconnect, (s, client_id), ()),
    ensures
        same_but_clients(old(s)@, final(s)@),
        other_clients_stay(old(s)@, final(s)@, client_id@),
        old(s)@.segments.segments.contains_key(client_id@) ==> final(s)@.clients == old(s)@.clients,
        !old(s)@.segments.segments.contains_key(client_id@) ==> !final(s)@.clients.contains_key(
            client_id@,
        ),
{
}

/// The speed of a known client is noted as it was measured. A job is handed out exactly
/// when there is one at hand, every client was measured, and there are as many as the
/// server requires; then to all of them, with their speeds.
pub proof fn law_job_is_handed_out_when_all_are_measured(
    s: &mut AppState,
    client_id: &str,
    fps: Fps,
    r: Option<(String, Vec<(String, Fps)>)>,
    c: Seq<char>,
)
    requires
        call_ensures(AppState::record_benchmark, (s, client_id, fps), r),
    ensures
        same_but_clients(old(s)@, final(s)@),
        other_clients_stay(old(s)@, final(s)@, client_id@),
        final(s)@.clients.contains_key(client_id@) <==> old(s)@.clients.contains_key(client_id@),
        old(s)@.clients.contains_key(client_id@) ==> final(s)@.clients[client_id@] == fps,
        r is Some <==> {
            &&& old(s)@.current_job is Some
            &&& final(s)@.clients.len() >= old(s)@.config.required_clients
            &&& forall|k: Seq<char>|
                final(s)@.clients.contains_key(k) ==> 0 < (
                #[trigger] final(s)@.clients[k]).bits <= 0x7ff0_0000_0000_0000
        },
        r matches Some((job_id, clients)) ==> {
            &&& old(s)@.current_job == Some(job_id@)
            &&& final(s)@.clients.contains_key(c) <==> exists|i: int|
                0 <= i < clients@.len() && #[trigger] clients@[i].0@ == c
            &&& forall|i: int|
                0 <= i < clients@.len() ==> (#[trigger] clients@[i]).1
                    == final(s)@.clients[clients@[i].0@]
            &&& clients@.len() == final(s)@.clients.len()
        },
{
    let w = final(s)@;
    if w.all_measured() {
        assert forall|k: Seq<char>| w.clients.contains_key(k) implies 0 < (
        #[trigger] w.clients[k]).bits <= 0x7ff0_0000_0000_0000 by {
            assert(w.clients[k].is_positive());
        }
    }
    if forall|k: Seq<char>|
        w.clients.contains_key(k) ==> 0 < (#[trigger] w.clients[k]).bits
            <= 0x7ff0_0000_0000_0000 {
        assert forall|k: Seq<char>| w.clients.contains_key(k) implies (
        #[trigger] w.clients[k]).is_positive() by {}
        assert(w.all_measured());
    }
    if let Some((job_id, clients)) = r {
        let names = crate::server::state::client_names(clients@);
        assert(names.to_set().contains(c) <==> w.clients.contains_key(c));
        assert(names.len() == clients@.len());
        if names.contains(c) {
            let i = names.index_of(c);
            assert(clients@[i].0@ == c);
        }
        if exists|i: int| 0 <= i < clients@.len() && #[trigger] clients@[i].0@ == c {
            let i = choose|i: int| 0 <= i < clients@.len() && #[trigger] clients@[i].0@ == c;
            assert(names[i] == c);
        }
    }
}

/// The video of the job at hand is what is handed out; without one nothing is.
pub proof fn law_video_at_hand_is_handed_out(
    s: AppState,
    r: Result<String, DistributeError>,
    e: DistributeError,
    told: String,
    error: &str,
    failure: String,
)
    requires
        call_ensures(AppState::input_file, (&s,), r),
        call_ensures(DistributeError::message, (&e,), told),
        call_ensures(distribution_failure, (error,), failure),
    ensures
        r is Ok <==> s@.current_input is Some,
        r matches Ok(f) ==> s@.current_input == Some(f@),
        r matches Err(x) ==> x is NoInput,
        e matches DistributeError::NoInput ==> told@ == "No input file available"@,
        e matches DistributeError::NoInfo(w) ==> told@ == "Failed to get video info: "@ + w@,
        failure@ == "Failed to distribute segments: "@ + error@,
{
}

/// Two servers agree on everything but what is told of one job.
pub open spec fn same_but_job(v: AppView, w: AppView, id: Seq<char>) -> bool {
    &&& w.config == v.config
    &&& w.current_job == v.current_job
    &&& w.current_input == v.current_input
    &&& w.client_segments == v.client_segments
    &&& w.queue.queue == v.queue.queue
    &&& w.queue.active == v.queue.active
    &&& others_stay(v.queue, w.queue, id)
    &&& v.queue.jobs.contains_key(id) ==> w.queue.jobs.contains_key(id) && same_job(
        v.queue.jobs[id],
        w.queue.jobs[id],
    )
}

/// How far a job is, when it was over, and its error are told as before.
pub open spec fn same_course(v: JobView, w: JobView) -> bool {
    &&& w.info.progress == v.info.progress
    &&& w.info.completed_at == v.info.completed_at
    &&& w.info.error == v.info.error
}

/// Every client is asked for a benchmark on the sample, with the parameters of the job,
/// and the job is at that stage then if it is in the queue.
pub proof fn law_all_clients_are_asked_for_a_benchmark(
    s: &mut AppState,
    sample: SegmentData,
    params: Vec<String>,
    job_id: &str,
    r: Outgoing,
)
    requires
        call_ensures(AppState::ask_benchmark, (s, sample, &params, job_id), r),
    ensures
        r.target is None,
        r.notice@ matches NoticeView::BenchmarkRequest { data, format, params: p, job_id: id }
            && data == sample.data@ && format == sample.format@ && p == texts(params@) && id
            == job_id@,
        same_but_job(old(s)@, final(s)@, job_id@),
        final(s)@.clients == old(s)@.clients,
        final(s)@.segments == old(s)@.segments,
        final(s)@.orders == old(s)@.orders,
        old(s)@.queue.jobs.contains_key(job_id@) && old(s)@.queue.queue.contains(job_id@)
            ==> final(s)@.queue.jobs[job_id@].info.status == JobStatus::Benchmarking,
        old(s)@.queue.jobs.contains_key(job_id@) ==> same_course(
            old(s)@.queue.jobs[job_id@],
            final(s)@.queue.jobs[job_id@],
        ),
        !old(s)@.queue.queue.contains(job_id@) ==> final(s)@.queue == old(s)@.queue,
{
}

/// A segment goes to its client and to no other, as it was cut, with the parameters of
/// the server; it is noted as handed out, and the job is encoded from then on.
pub proof fn law_segment_goes_to_its_client(
    s: &mut AppState,
    job_id: &str,
    client_id: &str,
    segment: SegmentData,
    r: Outgoing,
    other: Seq<char>,
)
    requires
        call_ensures(AppState::hand_out, (s, job_id, client_id, segment), r),
    ensures
        opt_text(r.target) == Some(client_id@),
        r.notice@ matches NoticeView::ProcessSegment {
            data,
            format,
            segment_id,
            params,
            job_id: id,
        } && data == segment.data@ && format == segment.format@ && segment_id
            == segment.segment_id@ && params == words(old(s)@.config.ffmpeg_params@) && id
            == job_id@,
        same_but_job(old(s)@, final(s)@, job_id@),
        final(s)@.clients == old(s)@.clients,
        final(s)@.segments.segments == old(s)@.segments.segments,
        final(s)@.segments.completed == old(s)@.segments.completed,
        final(s)@.segments.pending.contains(other) <==> old(s)@.segments.pending.contains(other)
            || other == segment.segment_id@,
        final(s)@.orders.contains_key(client_id@),
        final(s)@.orders[client_id@].job_id == job_id@,
        final(s)@.orders[client_id@].segment == segment@,
        final(s)@.orders[client_id@].retries == 0,
        other != client_id@ ==> (final(s)@.orders.contains_key(other)
            <==> old(s)@.orders.contains_key(other)),
        other != client_id@ && old(s)@.orders.contains_key(other) ==> final(s)@.orders[other]
            == old(s)@.orders[other],
        old(s)@.queue.jobs.contains_key(job_id@) && old(s)@.queue.queue.contains(job_id@)
            ==> final(s)@.queue.jobs[job_id@].info.status == JobStatus::Processing,
        old(s)@.queue.jobs.contains_key(job_id@) ==> same_course(
            old(s)@.queue.jobs[job_id@],
            final(s)@.queue.jobs[job_id@],
        ),
        !old(s)@.queue.queue.contains(job_id@) ==> final(s)@.queue == old(s)@.queue,
        final(s)@.segments.job_id == old(s)@.segments.job_id,
        final(s)@.segments.original_format == old(s)@.segments.original_format,
{
}

/// A segment that comes back is kept under its client, the client's speed is noted, and
/// the client has nothing more to do. The job at hand, the share that came back, and
/// whether that is all are told.
pub proof fn law_segment_is_taken_back(
    s: &mut AppState,
    client_id: &str,
    segment: SegmentData,
    fps: Fps,
    r: SegmentOutcome,
    other: Seq<char>,
)
    requires
        call_ensures(AppState::take_segment, (s, client_id, segment, fps), r),
    ensures
        final(s)@.segments.segments.contains_key(client_id@),
        final(s)@.segments.segments[client_id@] == segment@,
        other != client_id@ ==> (final(s)@.segments.segments.contains_key(other)
            <==> old(s)@.segments.segments.contains_key(other)) && (
        old(s)@.segments.segments.contains_key(other) ==> final(s)@.segments.segments[other]
            == old(s)@.segments.segments[other]),
        final(s)@.segments.pending == old(s)@.segments.pending,
        final(s)@.segments.completed.contains(other) <==> old(s)@.segments.completed.contains(other)
            || other == segment.segment_id@,
        other_clients_stay(old(s)@, final(s)@, client_id@),
        old(s)@.clients.contains_key(client_id@) ==> final(s)@.clients.contains_key(client_id@)
            && final(s)@.clients[client_id@] == fps,
        !old(s)@.clients.contains_key(client_id@) ==> !final(s)@.clients.contains_key(client_id@),
        !final(s)@.orders.contains_key(client_id@),
        other != client_id@ ==> (final(s)@.orders.contains_key(other)
            <==> old(s)@.orders.contains_key(other)),
        other != client_id@ && old(s)@.orders.contains_key(other) ==> final(s)@.orders[other]
            == old(s)@.orders[other],
        final(s)@.config == old(s)@.config,
        final(s)@.segments.job_id == old(s)@.segments.job_id,
        final(s)@.segments.original_format == old(s)@.segments.original_format,
        final(s)@.current_job == old(s)@.current_job,
        final(s)@.current_input == old(s)@.current_input,
        final(s)@.queue.queue == old(s)@.queue.queue,
        final(s)@.queue.active == old(s)@.queue.active,
        opt_text(r.job_id) == old(s)@.current_job,
        r.complete <==> final(s)@.segments.pending.len() > 0
            && final(s)@.segments.completed.len() == final(s)@.segments.pending.len(),
        old(s)@.current_job matches Some(id) ==> {
            &&& others_stay(old(s)@.queue, final(s)@.queue, id)
            &&& !r.complete ==> final(s)@.queue == old(s)@.queue
            &&& r.complete && old(s)@.queue.jobs.contains_key(id)
                && old(s)@.queue.queue.contains(id) ==> final(s)@.queue.jobs[id].info.status
                == JobStatus::Combining
            &&& old(s)@.queue.jobs.contains_key(id) ==> same_job(
                old(s)@.queue.jobs[id],
                final(s)@.queue.jobs[id],
            ) && same_course(old(s)@.queue.jobs[id], final(s)@.queue.jobs[id])
        },
        old(s)@.current_job is None ==> final(s)@.queue == old(s)@.queue,
        final(s)@.segments.pending.len() == 0 ==> r.progress.done == 0 && r.progress.total == 1,
        0 < final(s)@.segments.pending.len() <= usize::MAX
            && final(s)@.segments.completed.len() <= usize::MAX ==> r.progress.done
            == final(s)@.segments.completed.len() && r.progress.total
            == final(s)@.segments.pending.len(),
{
}

/// The progress of a job is told in percent.
pub proof fn law_percents_are_reported(s: &mut AppState, job_id: &str, percent: usize)
    requires
        call_ensures(AppState::report_progress, (s, job_id, percent), ()),
    ensures
        same_but_job(old(s)@, final(s)@, job_id@),
        final(s)@.clients == old(s)@.clients,
        final(s)@.segments == old(s)@.segments,
        final(s)@.orders == old(s)@.orders,
        old(s)@.queue.jobs.contains_key(job_id@) ==> {
            &&& final(s)@.queue.jobs[job_id@].info.progress.done == percent
            &&& final(s)@.queue.jobs[job_id@].info.progress.total == 100
            &&& final(s)@.queue.jobs[job_id@].info.completed_at
                == old(s)@.queue.jobs[job_id@].info.completed_at
            &&& final(s)@.queue.jobs[job_id@].info.error == old(s)@.queue.jobs[job_id@].info.error
            &&& final(s)@.queue.jobs[job_id@].info.status == old(s)@.queue.jobs[job_id@].info.status
        },
{
}

/// Every client is told of the failure, and then made idle.
pub open spec fn tells_of_failure(r: Seq<Outgoing>, from: int, error: Seq<char>) -> bool {
    &&& 0 <= from && from + 2 <= r.len()
    &&& r[from].target is None
    &&& r[from].notice@ matches NoticeView::Error { code, message } && code == "SEGMENT_FAILED"@
        && message == error
    &&& r[from + 1].target is None
    &&& r[from + 1].notice@ matches NoticeView::ClientIdle { id } && id == "broadcast"@
}

/// When the job at hand is given up, it failed with the error and left the queue, and every
/// client is told. The next in line takes its place and waits for clients, unless another
/// job is at work. Without a job at hand nothing happens.
pub proof fn law_job_at_hand_is_given_up(
    s: &mut AppState,
    error: &str,
    now: u64,
    r: Vec<Outgoing>,
    job_id: Seq<char>,
    a: Seq<Seq<char>>,
    b: Seq<Seq<char>>,
    other: Seq<char>,
)
    requires
        call_ensures(AppState::give_up, (s, error, now), r),
        old(s)@.in_order(),
    ensures
        old(s)@.current_job is None ==> r@.len() == 0 && final(s)@ == old(s)@,
        old(s)@.current_job == Some(job_id) ==> {
            let v = old(s)@;
            let w = final(s)@;
            let known = v.queue.jobs.contains_key(job_id);
            let free = v.queue.active is None || v.queue.active == Some(job_id);
            &&& r@.len() == 2 && tells_of_failure(r@, 0, error@)
            &&& w.clients == v.clients
            &&& w.segments == v.segments
            &&& w.current_input == v.current_input
            &&& w.client_segments == v.client_segments
            &&& w.config == v.config
            &&& w.orders.dom() == Set::<Seq<char>>::empty()
            &&& known ==> {
                &&& same_job(v.queue.jobs[job_id], w.queue.jobs[job_id])
                &&& w.queue.jobs[job_id].info.status == JobStatus::Failed
                &&& w.queue.jobs[job_id].info.error == Some(error@)
                &&& w.queue.jobs[job_id].info.completed_at == Some(now)
                &&& w.queue.jobs[job_id].info.progress == v.queue.jobs[job_id].info.progress
                &&& !w.queue.queue.contains(job_id)
                &&& leaves(v.queue.queue, w.queue.queue, job_id, a, b)
            }
            &&& !known ==> w.queue.queue == v.queue.queue
            &&& w.queue.jobs.contains_key(other) <==> v.queue.jobs.contains_key(other)
            &&& v.queue.jobs.contains_key(other) && other != job_id && w.current_job != Some(other)
                ==> w.queue.jobs[other] == v.queue.jobs[other]
            &&& free && w.queue.queue.len() > 0 ==> {
                let next = w.queue.queue[0];
                &&& w.current_job == Some(next)
                &&& w.queue.active == Some(next)
                &&& next != job_id ==> same_job(v.queue.jobs[next], w.queue.jobs[next])
                    && same_course(v.queue.jobs[next], w.queue.jobs[next])
                &&& w.queue.jobs[next].info.status == JobStatus::WaitingForClients
            }
            &&& free && w.queue.queue.len() == 0 ==> w.current_job is None && w.queue.active is None
            &&& !free ==> w.current_job is None && w.queue.active == v.queue.active
        },
{
    let v = old(s)@;
    let sent = outgoing(r@);
    assert(sent.len() == r@.len());
    if v.current_job == Some(job_id) {
        assert(sent[0] == r@[0]@);
        assert(sent[1] == r@[1]@);
        assert(final(s)@.orders.dom() =~= Set::empty());
        let failed = v.queue.failed(job_id, error@, now);
        crate::server::job_queue::law_queue_stays_sound(
            v.queue,
            job_id,
            crate::server::job_queue::named_job(job_id),
            0,
            0,
            error@,
            now,
        );
        crate::server::job_queue::law_finished_jobs_leave(v.queue, job_id, error@, now);
        lemma_leaves(a, job_id, b);
        lemma_leaves(v.queue.queue, job_id, b);
        if failed.queue.len() > 0 {
            assert(failed.queue.contains(failed.queue[0]));
            assert(failed.jobs.contains_key(failed.queue[0]));
        }
    }
}

/// A client that failed at its segment gets it again after the delay that is set, as long
/// as it did not get it again as often as may be; then the job is given up.
pub proof fn law_failed_client_gets_its_segment_again(
    s: &mut AppState,
    client_id: &str,
    error: &str,
    now: u64,
    r: FailureStep,
    other: Seq<char>,
)
    requires
        call_ensures(AppState::segment_failed, (s, client_id, error, now), r),
    ensures
        ({
            let v = old(s)@;
            let w = final(s)@;
            let again = v.orders.contains_key(client_id@) && v.current_job == Some(
                v.orders[client_id@].job_id,
            ) && v.orders[client_id@].retries < v.config.max_retries;
            &&& r is TryAgain <==> again
            &&& r matches FailureStep::TryAgain { delay } ==> {
                &&& delay == v.config.retry_delay
                &&& w.queue == v.queue && w.clients == v.clients && w.segments == v.segments
                &&& w.current_job == v.current_job && w.current_input == v.current_input
                &&& w.config == v.config
                &&& other != client_id@ && v.orders.contains_key(other) ==> w.orders.contains_key(
                    other,
                ) && w.orders[other] == v.orders[other]
                &&& w.orders.contains_key(client_id@)
                &&& w.orders[client_id@].segment == v.orders[client_id@].segment
                &&& w.orders[client_id@].job_id == v.orders[client_id@].job_id
                &&& w.orders[client_id@].retries == v.orders[client_id@].retries + 1
            }
            &&& r is GaveUp && v.current_job is Some ==> tells_of_failure(
                r->GaveUp_0@,
                0,
                error@,
            )
            &&& r is GaveUp && v.current_job is None ==> r->GaveUp_0@.len() == 0 && w == v
        }),
{
    if let FailureStep::GaveUp(messages) = r {
        let sent = outgoing(messages@);
        assert(sent.len() == messages@.len());
        if old(s)@.current_job is Some {
            assert(sent[0] == messages@[0]@);
            assert(sent[1] == messages@[1]@);
        }
    }
}

/// What a failed client does not get again is given up as any job is.
pub proof fn law_exhausted_retries_give_the_job_up(
    s: &mut AppState,
    t: &mut AppState,
    client_id: &str,
    error: &str,
    now: u64,
    r: FailureStep,
    given: Vec<Outgoing>,
)
    requires
        call_ensures(AppState::segment_failed, (s, client_id, error, now), r),
        call_ensures(AppState::give_up, (t, error, now), given),
        old(s)@ == old(t)@,
        r is GaveUp,
    ensures
        final(s)@ == final(t)@,
        outgoing(r->GaveUp_0@) == outgoing(given@),
{
}

/// An order is repeated as it was, to its client, exactly if it is of the job at hand.
pub proof fn law_order_is_repeated(s: AppState, client_id: &str, r: Option<Outgoing>)
    requires
        call_ensures(AppState::order_again, (&s, client_id), r),
    ensures
        r is Some <==> s@.orders.contains_key(client_id@) && s@.current_job == Some(
            s@.orders[client_id@].job_id,
        ),
        r matches Some(o) ==> {
            let order = s@.orders[client_id@];
            &&& opt_text(o.target) == Some(client_id@)
            &&& o.notice@ matches NoticeView::ProcessSegment {
                data,
                format,
                segment_id,
                params,
                job_id,
            }
            &&& data == order.segment.data
            &&& format == order.segment.format
            &&& segment_id == order.segment.segment_id
            &&& params == words(s@.config.ffmpeg_params@)
            &&& job_id == order.job_id
        },
{
}

/// A failed operation is tried again after the delay that is set, and so often.
pub proof fn law_operations_are_tried_again(config: ServerConfig, retries: u32, r: Option<u64>)
    requires
        call_ensures(ServerConfig::retry_after, (&config, retries), r),
    ensures
        r is Some <==> retries < config.max_retries,
        r matches Some(delay) ==> delay == config.retry_delay,
{
}

/// A job that cannot be handed out is given up with these words, and then the one that
/// takes its place is with the bare ones.
pub proof fn law_undistributed_job_is_given_up(
    s: &mut AppState,
    t: &mut AppState,
    u: &mut AppState,
    error: &str,
    words: &str,
    now: u64,
    r: Vec<Outgoing>,
    first: Vec<Outgoing>,
    second: Vec<Outgoing>,
)
    requires
        call_ensures(AppState::distribution_failed, (s, error, now), r),
        words@ == "Failed to distribute segments: "@ + error@,
        call_ensures(AppState::give_up, (t, words, now), first),
        call_ensures(AppState::give_up, (u, error, now), second),
        old(t)@ == old(s)@,
        old(u)@ == final(t)@,
    ensures
        final(s)@ == final(u)@,
        outgoing(r@) == outgoing(first@) + outgoing(second@),
{
}

/// When a job is completed, it is completed and left the queue, no client counts as
/// measured, no segment and no order is left, and every client is told, with where the
/// video can be had. The next job in line is turned to, with its own video, unless another
/// is at work; if none is turned to, the clients are made idle.
pub proof fn law_completed_job_makes_room(
    s: &mut AppState,
    job_id: &str,
    download_url: Option<String>,
    now: u64,
    r: (Vec<Outgoing>, Option<NextJob>),
    a: Seq<Seq<char>>,
    b: Seq<Seq<char>>,
    c: Seq<char>,
)
    requires
        call_ensures(AppState::complete_job, (s, job_id, download_url, now), r),
        old(s)@.in_order(),
    ensures
        ({
            let v = old(s)@;
            let w = final(s)@;
            let known = v.queue.jobs.contains_key(job_id@);
            let free = v.queue.active is None || v.queue.active == Some(job_id@);
            let goes_on = free && w.queue.queue.len() > 0;
            &&& known ==> {
                &&& same_job(v.queue.jobs[job_id@], w.queue.jobs[job_id@])
                &&& w.queue.jobs[job_id@].info.status == JobStatus::Completed
                &&& w.queue.jobs[job_id@].info.completed_at == Some(now)
                &&& w.queue.jobs[job_id@].info.progress.done == 1
                &&& w.queue.jobs[job_id@].info.progress.total == 1
                &&& w.queue.jobs[job_id@].info.error == v.queue.jobs[job_id@].info.error
                &&& !w.queue.queue.contains(job_id@)
                &&& leaves(v.queue.queue, w.queue.queue, job_id@, a, b)
            }
            &&& !known ==> w.queue.queue == v.queue.queue
            &&& w.config == v.config
            &&& w.client_segments == v.client_segments
            &&& w.queue.jobs.contains_key(c) <==> v.queue.jobs.contains_key(c)
            &&& v.queue.jobs.contains_key(c) && c != job_id@ && w.current_job != Some(c)
                ==> w.queue.jobs[c] == v.queue.jobs[c]
            &&& w.clients.contains_key(c) <==> v.clients.contains_key(c)
            &&& w.clients.contains_key(c) ==> w.clients[c].bits == 0
            &&& w.segments.segments.dom() == Set::<Seq<char>>::empty()
            &&& w.segments.pending == Set::<Seq<char>>::empty()
            &&& w.segments.completed == Set::<Seq<char>>::empty()
            &&& w.segments.original_format == v.segments.original_format
            &&& w.orders.dom() == Set::<Seq<char>>::empty()
            &&& r.0@.len() > 0 && r.0@[0].target is None
            &&& r.0@[0].notice@ matches NoticeView::JobComplete { job_id: id, download_url: url }
                && id == job_id@ && url == opt_text(download_url)
            &&& goes_on ==> {
                let next = w.queue.queue[0];
                let job = v.queue.jobs[next];
                &&& r.0@.len() == 1
                &&& r.1 matches Some(n)
                &&& n.job_id@ == next && n.input@ == job.file_path
                &&& texts(n.params@) == job.config.ffmpeg_params
                &&& n.required_clients == job.config.required_clients
                &&& w.current_job == Some(next)
                &&& w.current_input == Some(job.file_path)
                &&& w.segments.job_id == next
                &&& w.queue.active == Some(next)
                &&& w.queue.jobs[next].info.status == JobStatus::WaitingForClients
                &&& same_job(job, w.queue.jobs[next])
                &&& same_course(job, w.queue.jobs[next])
            }
            &&& !goes_on ==> {
                &&& r.1 is None
                &&& r.0@.len() == 2 && r.0@[1].target is None
                &&& r.0@[1].notice@ matches NoticeView::ClientIdle { id } && id == "broadcast"@
                &&& w.current_job is None && w.current_input is None
                &&& w.segments.job_id == v.segments.job_id
                &&& free ==> w.queue.active is None
                &&& !free ==> w.queue.active == v.queue.active
            }
        }),
{
    let v = old(s)@;
    let w = final(s)@;
    let done = v.completed(job_id@, now);
    crate::server::job_queue::law_finished_jobs_leave(v.queue, job_id@, Seq::empty(), now);
    crate::server::job_queue::law_queue_stays_sound(
        v.queue,
        job_id@,
        crate::server::job_queue::named_job(job_id@),
        0,
        0,
        Seq::empty(),
        now,
    );
    lemma_leaves(a, job_id@, b);
    lemma_leaves(v.queue.queue, job_id@, b);
    if done.queue.queue.len() > 0 {
        assert(done.queue.queue.contains(done.queue.queue[0]));
        assert(done.queue.jobs.contains_key(done.queue.queue[0]));
    }
    assert(w.segments.segments.dom() =~= Set::empty());
    assert(w.orders.dom() =~= Set::empty());
    let sent = outgoing(r.0@);
    assert(sent.len() == r.0@.len());
    assert(sent[0] == r.0@[0]@);
    if done.next_job() is None {
        assert(sent[1] == r.0@[1]@);
    }
}

/// Two queues agree on everything but one job, which failed, and left the queue.
pub open spec fn job_failed_in(
    v: QueueView,
    w: QueueView,
    id: Seq<char>,
    error: Seq<char>,
    now: u64,
    a: Seq<Seq<char>>,
    b: Seq<Seq<char>>,
) -> bool {
    &&& others_stay(v, w, id)
    &&& w.jobs.contains_key(id) <==> v.jobs.contains_key(id)
    &&& v.jobs.contains_key(id) ==> left_between(v, w, id, a, b)
    &&& !v.jobs.contains_key(id) ==> w == v
    &&& v.jobs.contains_key(id) ==> {
        &&& same_job(v.jobs[id], w.jobs[id])
        &&& w.jobs[id].info.status == JobStatus::Failed
        &&& w.jobs[id].info.progress == v.jobs[id].info.progress
        &&& w.jobs[id].info.error == Some(error)
        &&& w.jobs[id].info.completed_at == Some(now)
    }
}

/// A job whose segments could not be combined failed, and nothing else happens.
pub proof fn law_uncombined_job_failed(
    s: &mut AppState,
    job_id: &str,
    error: &str,
    now: u64,
    a: Seq<Seq<char>>,
    b: Seq<Seq<char>>,
)
    requires
        call_ensures(AppState::fail_job, (s, job_id, error, now), ()),
    ensures
        job_failed_in(old(s)@.queue, final(s)@.queue, job_id@, error@, now, a, b),
        final(s)@.clients == old(s)@.clients,
        final(s)@.segments == old(s)@.segments,
        final(s)@.orders == old(s)@.orders,
        final(s)@.current_job == old(s)@.current_job,
        final(s)@.current_input == old(s)@.current_input,
        final(s)@.config == old(s)@.config,
{
    lemma_leaves(a, job_id@, b);
    lemma_leaves(old(s)@.queue.queue, job_id@, b);
}

/// The server turns to the first job in line, with its own video and directory, if it has
/// none at hand; while it has one it does nothing.
pub proof fn law_server_turns_to_the_first_job(s: &mut AppState, r: Option<NextJob>)
    requires
        call_ensures(AppState::start_next, (s,), r),
        old(s)@.queue.sound(),
    ensures
        r is Some <==> old(s)@.current_job is None && old(s)@.queue.active is None
            && old(s)@.queue.queue.len() > 0,
        old(s)@.current_job is Some ==> final(s)@ == old(s)@,
        final(s)@.clients == old(s)@.clients,
        final(s)@.orders == old(s)@.orders,
        final(s)@.config == old(s)@.config,
        final(s)@.queue.queue == old(s)@.queue.queue,
        r matches Some(n) ==> {
            let id = old(s)@.queue.queue[0];
            let job = old(s)@.queue.jobs[id];
            &&& n.job_id@ == id && n.input@ == job.file_path
            &&& texts(n.params@) == job.config.ffmpeg_params
            &&& n.required_clients == job.config.required_clients
            &&& final(s)@.current_job == Some(id)
            &&& final(s)@.current_input == Some(job.file_path)
            &&& final(s)@.segments.job_id == id
            &&& final(s)@.segments.segments == old(s)@.segments.segments
            &&& final(s)@.queue.active == Some(id)
            &&& final(s)@.queue.jobs[id].info.status == JobStatus::WaitingForClients
            &&& same_job(job, final(s)@.queue.jobs[id])
            &&& others_stay(old(s)@.queue, final(s)@.queue, id)
        },
        r is None ==> final(s)@ == old(s)@,
{
    if old(s)@.queue.queue.len() > 0 {
        assert(old(s)@.queue.jobs.contains_key(old(s)@.queue.queue[0]));
    }
}

/// The job at hand is taken up exactly if it waits for clients, is in the queue, and has as
/// many clients as it requires; then with its own video and directory, without measured
/// clients, and without what is left of a job before.
pub proof fn law_waiting_job_is_taken_up_with_its_clients(
    s: &mut AppState,
    r: Option<NextJob>,
    id: Seq<char>,
    c: Seq<char>,
)
    requires
        call_ensures(AppState::take_up_waiting, (s,), r),
        old(s)@.in_order(),
    ensures
        old(s)@.current_job is None ==> r is None && final(s)@ == old(s)@,
        old(s)@.current_job == Some(id) ==> ({
            let v = old(s)@;
            let w = final(s)@;
            let job = v.queue.jobs[id];
            &&& r is Some <==> v.queue.queue.contains(id) && job.info.status
                == JobStatus::WaitingForClients && v.clients.len() >= job.config.required_clients
            &&& r is None ==> w == v
            &&& r matches Some(n) ==> {
                &&& n.job_id@ == id && n.input@ == job.file_path
                &&& texts(n.params@) == job.config.ffmpeg_params
                &&& n.required_clients == job.config.required_clients
                &&& w.current_job == Some(id)
                &&& w.current_input == Some(job.file_path)
                &&& w.segments.job_id == id
                &&& w.orders.dom() == Set::<Seq<char>>::empty()
                &&& w.segments.segments.dom() == Set::<Seq<char>>::empty()
                &&& w.config == v.config
                &&& w.segments.pending == Set::<Seq<char>>::empty()
                &&& w.segments.completed == Set::<Seq<char>>::empty()
                &&& w.clients.contains_key(c) <==> v.clients.contains_key(c)
                &&& w.clients.contains_key(c) ==> w.clients[c].bits == 0
                &&& w.queue == v.queue
            }
        }),
{
    if old(s)@.queue.queue.contains(id) {
        let i = old(s)@.queue.queue.index_of(id);
        assert(old(s)@.queue.jobs.contains_key(old(s)@.queue.queue[i]));
    }
    if r is Some {
        assert(final(s)@.orders.dom() =~= Set::empty());
        assert(final(s)@.segments.segments.dom() =~= Set::empty());
    }
}

/// There are enough clients exactly if there are as many as are required.
pub proof fn law_clients_are_counted(s: AppState, required_clients: usize, r: bool)
    requires
        call_ensures(AppState::has_enough_clients, (&s, required_clients), r),
    ensures
        r <==> s@.clients.len() >= required_clients,
{
}

/// A finished video is kept under the name of the settings too, if there is one and it is
/// another than its own.
pub proof fn law_output_is_kept_under_the_set_name(
    s: AppState,
    job_id: &str,
    r: Option<String>,
)
    requires
        call_ensures(AppState::output_copy, (&s, job_id), r),
    ensures
        ({
            let name = s@.config.file_name_output@;
            &&& r is Some <==> name.len() > 0 && name != "output_"@ + job_id@ + ".mp4"@
            &&& r matches Some(n) ==> n@ == name
        }),
{
}

/// A message reaches a client exactly if it can be read and is for that client or for all;
/// one that names clients reaches it with its own name.
pub proof fn law_messages_reach_whom_they_concern(
    message: ServerMessage,
    parsed: Option<Notice>,
    client_id: &str,
    r: Delivery,
)
    requires
        call_ensures(deliver, (message, parsed, client_id), r),
    ensures
        ({
            let concerned = message.target is None || opt_text(message.target) == Some(client_id@);
            &&& r is Skip <==> parsed is None || !concerned
            &&& parsed is Some && concerned ==> match parsed->0@ {
                NoticeView::ClientId { id: _, job_id } => r matches Delivery::Send(n) && n@
                    == (NoticeView::ClientId { id: client_id@, job_id }),
                _ => r matches Delivery::Forward(content) && content@ == message.content@,
            }
        }),
{
}

/// All clients are made idle by a message to all of them.
pub proof fn law_idle_message_is_for_all(r: Outgoing)
    requires
        call_ensures(idle_message, (), r),
    ensures
        r.target is None,
        r.notice@ matches NoticeView::ClientIdle { id } && id == "broadcast"@,
{
}

/// What a client sends leads to what it is for: a result is noted, a segment taken, a
/// failure handled, an upload started, a ping answered with its own data, and the
/// connection left when it ends.
pub proof fn law_client_frames_lead_to_their_actions(frame: ClientFrame, r: ServerAction)
    requires
        call_ensures(action_for, (frame,), r),
    ensures
        frame matches ClientFrame::Text(Some(ClientMessage::BenchmarkResult { fps })) ==> (
        r matches ServerAction::Measured(f) && f == fps),
        frame matches ClientFrame::Text(
            Some(ClientMessage::SegmentComplete { segment_id, fps, data, format }),
        ) ==> (r matches ServerAction::Take { segment, fps: f } && f == fps && segment.data@
            == data@ && segment.format@ == format@ && segment.segment_id@ == segment_id@),
        frame matches ClientFrame::Text(Some(ClientMessage::SegmentFailed { error })) ==> (
        r matches ServerAction::Failed { error: e } && e@ == error@),
        frame matches ClientFrame::Text(
            Some(ClientMessage::UploadAndProcessFile { file_name, data, config, participate }),
        ) ==> (r matches ServerAction::Upload { file_name: n, data: d, config: c } && n@
            == file_name@ && d@ == data@ && c == config),
        frame matches ClientFrame::Ping(data) ==> (r matches ServerAction::Pong(d) && d@ == data@),
        frame is Close || frame is Failed || frame is End <==> r is Stop,
        frame matches ClientFrame::Text(None) ==> r is Wait,
        frame is Binary || frame is Pong ==> r is Wait,
{
}

proof fn lemma_chunk_at(data: Seq<u8>, size: nat, i: int, k: int)
    requires
        size > 0,
        0 <= i < chunks_of(data, size).len(),
        0 <= k < chunks_of(data, size)[i].len(),
    ensures
        0 <= i * size + k < data.len(),
        chunks_of(data, size)[i][k] == data[i * size + k],
    decreases i,
{
    let all = chunks_of(data, size);
    if i == 0 {
        assert(i * size == 0) by (nonlinear_arith)
            requires
                i == 0,
        ;
    } else {
        let rest = data.skip(size as int);
        assert(all[i] == chunks_of(rest, size)[i - 1]);
        lemma_chunk_at(rest, size, i - 1, k);
        assert((i - 1) * size + size == i * size) by (nonlinear_arith);
        assert(rest[(i - 1) * size + k] == data[i * size + k]);
    }
}

/// A sample that is sent in chunks is sent whole: the announcement has its format and
/// parameters and no data, and the chunks, none of them empty or larger than is set, give
/// the data again.
pub proof fn law_sample_is_sent_whole(
    config: ServerConfig,
    data: Vec<u8>,
    chunks: Vec<Vec<u8>>,
    job_id: String,
    format: String,
    params: &str,
    first: Notice,
    i: int,
    k: int,
)
    requires
        config.chunk_size > 0,
        call_ensures(cut_chunks, (&config, &data), chunks),
        call_ensures(announce, (job_id, format, params), first),
    ensures
        glued(crate::server::chunks::chunk_views(chunks@)) == data@,
        0 <= i < chunks@.len() ==> 0 < chunks@[i]@.len() <= config.chunk_size,
        0 <= i < chunks@.len() - 1 ==> chunks@[i]@.len() == config.chunk_size,
        0 <= i < chunks@.len() && 0 <= k < chunks@[i]@.len() ==> 0 <= i * config.chunk_size + k
            < data@.len() && chunks@[i]@[k] == data@[i * config.chunk_size + k],
        chunks@.len() == (data@.len() + config.chunk_size - 1) / config.chunk_size as int,
        first@ matches NoticeView::BenchmarkRequest { data: d, format: f, params: p, job_id: id }
            && d.len() == 0 && f == format@ && p == words(params@) && id == job_id@,
{
    crate::server::chunks::law_chunks_are_the_data(data@, config.chunk_size as nat);
    let views = crate::server::chunks::chunk_views(chunks@);
    assert(views.len() == chunks@.len());
    if 0 <= i < chunks@.len() {
        assert(views[i] == chunks@[i]@);
        if 0 <= k < chunks@[i]@.len() {
            lemma_chunk_at(data@, config.chunk_size as nat, i, k);
        }
    }
}

/// The ends of the scale of progress.
pub proof fn law_progress_has_two_ends(none: Progress, full: Progress)
    requires
        call_ensures(Progress::none, (), none),
        call_ensures(Progress::full, (), full),
    ensures
        none.done == 0 && none.total > 0,
        full.done == full.total && full.total > 0,
{
}

/// A client that connects without a name gets one, and is known and greeted under it.
pub proof fn law_newcomer_is_greeted(s: &mut AppState, r: (String, Notice))
    requires
        call_ensures(AppState::connect, (s,), r),
    ensures
        final(s)@.clients.contains_key(r.0@),
        final(s)@.clients[r.0@].bits == 0,
        other_clients_stay(old(s)@, final(s)@, r.0@),
        same_but_clients(old(s)@, final(s)@),
        match old(s)@.current_job {
            Some(job) => r.1@ matches NoticeView::ClientId { id, job_id } && id == r.0@ && job_id
                == job,
            None => r.1@ matches NoticeView::ClientIdle { id } && id == r.0@,
        },
{
}

/// A server starts with nothing at hand, whatever the name of its directory.
pub proof fn law_server_starts_with_nothing(config: ServerConfig, s: AppState)
    requires
        call_ensures(AppState::new, (config,), s),
    ensures
        s@.config == config,
        s@.clients.dom() == Set::<Seq<char>>::empty(),
        s@.queue.jobs.dom() == Set::<Seq<char>>::empty(),
        s@.queue.queue.len() == 0,
        s@.queue.active is None,
        s@.segments.segments.dom() == Set::<Seq<char>>::empty(),
        s@.current_job is None,
        s@.current_input is None,
        s@.orders.dom() == Set::<Seq<char>>::empty(),
{
    assert(s@.clients.dom() =~= Set::empty());
    assert(s@.queue.jobs.dom() =~= Set::empty());
    assert(s@.segments.segments.dom() =~= Set::empty());
    assert(s@.orders.dom() =~= Set::empty());
}

/// What the server tells is told as it is.
pub proof fn law_messages_are_what_they_say(n: Notice, r: Outgoing)
    requires
        call_ensures(Outgoing::to_all, (n,), r),
    ensures
        r.target is None,
        r.notice@ == n@,
        n matches Notice::ClientId { id, job_id } ==> (n@ matches NoticeView::ClientId {
            id: i,
            job_id: j,
        } && i == id@ && j == job_id@),
        n matches Notice::ClientIdle { id } ==> (n@ matches NoticeView::ClientIdle { id: i } && i
            == id@),
        n matches Notice::BenchmarkRequest { data, format, params, job_id } ==> (
        n@ matches NoticeView::BenchmarkRequest { data: d, format: f, params: p, job_id: j } && d
            == data@ && f == format@ && p == texts(params@) && j == job_id@),
        n matches Notice::ProcessSegment { data, format, segment_id, params, job_id } ==> (
        n@ matches NoticeView::ProcessSegment {
            data: d,
            format: f,
            segment_id: s,
            params: p,
            job_id: j,
        } && d == data@ && f == format@ && s == segment_id@ && p == texts(params@) && j
            == job_id@),
        n matches Notice::Error { code, message } ==> (n@ matches NoticeView::Error {
            code: c,
            message: m,
        } && c == code@ && m == message@),
        n matches Notice::JobComplete { job_id, download_url } ==> (
        n@ matches NoticeView::JobComplete { job_id: j, download_url: u } && j == job_id@ && u
            == opt_text(download_url)),
{
}

/// What the server knows is told as it is.
pub proof fn law_server_is_what_it_holds(s: AppState, c: Seq<char>)
    ensures
        s@.config == s.config,
        s@.clients == s.clients@,
        s@.segments == s.segment_manager@,
        s@.queue == s.job_queue@,
        s@.current_job == opt_text(s.current_job),
        s@.current_input == opt_text(s.current_input),
        s@.orders.contains_key(c) <==> s.orders@.contains_key(c),
        s@.orders.contains_key(c) ==> s@.orders[c].job_id == s.orders@[c].job_id@
            && s@.orders[c].segment.data == s.orders@[c].segment.data@
            && s@.orders[c].segment.format == s.orders@[c].segment.format@
            && s@.orders[c].segment.segment_id == s.orders@[c].segment.segment_id@
            && s@.orders[c].retries == s.orders@[c].retries,
{
}

} // verus!
