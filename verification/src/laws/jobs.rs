//! Laws on jobs: their settings, their queue, and their segments.

use crate::laws::texts::law_fields_of_two_texts;
use crate::models::measure::Progress;
use crate::models::messages::{
    settings_or_default, JobConfig, JobInfo, JobInfoView, JobStatus,
};
use crate::path::PathParts;
use crate::server::job_queue::{without_first, Job, JobQueue, JobView, QueueView, Stage};
use crate::server::segment_id::{frame_number, frame_of};
use crate::server::segment_manager::{SegmentData, SegmentManager};
use crate::text::{fields, opt_text, read_number, texts};
use vstd::prelude::*;

verus! {

/// Settings that are given hold as they are, whatever those of the server; without any
/// the standard ones hold, with as many clients as the server requires.
pub proof fn law_given_settings_hold(
    config: JobConfig,
    required_clients: usize,
    given: JobConfig,
    standard: JobConfig,
)
    requires
        call_ensures(settings_or_default, (Some(config), required_clients), given),
        call_ensures(settings_or_default, (None::<JobConfig>, required_clients), standard),
    ensures
        given.required_clients == config.required_clients,
        texts(given.ffmpeg_params@) == texts(config.ffmpeg_params@),
        given.exactly == config.exactly,
        standard.required_clients == required_clients,
        texts(standard.ffmpeg_params@) == seq!["-c:v"@, "libx264"@, "-preset"@, "medium"@],
        standard.exactly,
{
    assert(given@.required_clients == config@.required_clients);
}

/// What the settings of two servers give for the same request is the same.
pub proof fn law_given_settings_do_not_depend_on_the_server(
    config: JobConfig,
    here: usize,
    there: usize,
    a: JobConfig,
    b: JobConfig,
)
    requires
        call_ensures(settings_or_default, (Some(config), here), a),
        call_ensures(settings_or_default, (Some(config), there), b),
    ensures
        a@ == b@,
        a@ == config@,
{
}

/// Every job but `id` is known as before, and no other is.
pub open spec fn others_stay(v: QueueView, w: QueueView, id: Seq<char>) -> bool {
    forall|k: Seq<char>|
        #![trigger w.jobs.contains_key(k)]
        #![trigger w.jobs[k]]
        k != id ==> (w.jobs.contains_key(k) <==> v.jobs.contains_key(k)) && (v.jobs.contains_key(k)
            ==> w.jobs[k] == v.jobs[k])
}

/// Nothing about a job changed but how far it is.
pub open spec fn same_job(v: JobView, w: JobView) -> bool {
    &&& w.file_path == v.file_path
    &&& w.config == v.config
    &&& w.format == v.format
    &&& w.info.job_id == v.info.job_id
    &&& w.info.file_name == v.info.file_name
    &&& w.info.created_at == v.info.created_at
}

/// What is left of a row when `id` leaves its place behind `a` and in front of `b`.
pub proof fn lemma_leaves(a: Seq<Seq<char>>, id: Seq<char>, b: Seq<Seq<char>>)
    ensures
        !a.contains(id) ==> without_first(a + seq![id] + b, id) == a + b,
        !a.contains(id) ==> without_first(a, id) == a,
    decreases a.len(),
{
    let all = a + seq![id] + b;
    if a.len() == 0 {
        assert(all.drop_first() =~= a + b);
    } else if !a.contains(id) {
        let rest = a.drop_first();
        assert forall|i: int| 0 <= i < rest.len() implies rest[i] != id by {
            assert(a[i + 1] == rest[i]);
        }
        lemma_leaves(rest, id, b);
        assert(a.contains(a[0]));
        assert(all.drop_first() =~= rest + seq![id] + b);
        assert(seq![a[0]] + (rest + b) =~= a + b);
        assert(seq![a[0]] + rest =~= a);
    }
}

/// A queue starts without jobs.
pub proof fn law_queue_starts_empty(q: JobQueue)
    requires
        call_ensures(JobQueue::new, (), q),
    ensures
        q@.jobs.dom() == Set::<Seq<char>>::empty(),
        q@.queue.len() == 0,
        q@.active is None,
{
    assert(q@.jobs.dom() =~= Set::empty());
}

/// A job that is added stands behind all others in the queue, is queued from now on, and
/// is what was asked for; nothing else changes.
pub proof fn law_added_job_waits_at_the_end(
    q: &mut JobQueue,
    job_id: String,
    file_path: String,
    file_name: String,
    config: JobConfig,
    format: String,
    now: u64,
)
    requires
        call_ensures(
            JobQueue::add_named_job,
            (q, job_id, file_path, file_name, config, format, now),
            (),
        ),
    ensures
        final(q)@.queue == old(q)@.queue + seq![job_id@],
        final(q)@.active == old(q)@.active,
        others_stay(old(q)@, final(q)@, job_id@),
        final(q)@.jobs.contains_key(job_id@),
        ({
            let job = final(q)@.jobs[job_id@];
            &&& job.file_path == file_path@
            &&& job.format == format@
            &&& job.config.ffmpeg_params == texts(config.ffmpeg_params@)
            &&& job.config.required_clients == config.required_clients
            &&& job.config.exactly == config.exactly
            &&& job.info.job_id == job_id@
            &&& job.info.file_name == file_name@
            &&& job.info.status == JobStatus::Queued
            &&& job.info.progress.done == 0
            &&& job.info.progress.total == 1
            &&& job.info.created_at == now
            &&& job.info.completed_at is None
            &&& job.info.error is None
        }),
{
    assert(final(q)@.queue =~= old(q)@.queue + seq![job_id@]);
}

/// The job that came first is put to work, if none is at work; while one is, none other
/// starts.
pub proof fn law_first_job_is_put_to_work(q: &mut JobQueue, r: Option<&Job>)
    requires
        call_ensures(JobQueue::get_next_job, (q,), r),
    ensures
        r is Some <==> old(q)@.active is None && old(q)@.queue.len() > 0,
        r matches Some(j) ==> j@ == old(q)@.jobs[old(q)@.queue[0]] && final(q)@.active == Some(
            old(q)@.queue[0],
        ),
        r is None ==> final(q)@.active == old(q)@.active,
        final(q)@.queue == old(q)@.queue,
        final(q)@.jobs == old(q)@.jobs,
{
}

/// The progress of a job is what was reported, and nothing else of it changes.
pub proof fn law_progress_is_noted(q: &mut JobQueue, job_id: &str, done: usize, total: usize)
    requires
        call_ensures(JobQueue::update_progress, (q, job_id, done, total), ()),
    ensures
        final(q)@.queue == old(q)@.queue,
        final(q)@.active == old(q)@.active,
        others_stay(old(q)@, final(q)@, job_id@),
        final(q)@.jobs.contains_key(job_id@) <==> old(q)@.jobs.contains_key(job_id@),
        old(q)@.jobs.contains_key(job_id@) ==> {
            let v = old(q)@.jobs[job_id@];
            let w = final(q)@.jobs[job_id@];
            &&& same_job(v, w)
            &&& w.info.status == v.info.status
            &&& w.info.completed_at == v.info.completed_at
            &&& w.info.error == v.info.error
            &&& total > 0 ==> w.info.progress.done == done && w.info.progress.total == total
            &&& total == 0 ==> w.info.progress == v.info.progress
        },
{
}

/// A job that was started waits for clients, and nothing else of it changes.
pub proof fn law_started_job_waits_for_clients(q: &mut JobQueue, job_id: &str)
    requires
        call_ensures(JobQueue::mark_job_started, (q, job_id), ()),
    ensures
        final(q)@.queue == old(q)@.queue,
        final(q)@.active == old(q)@.active,
        others_stay(old(q)@, final(q)@, job_id@),
        final(q)@.jobs.contains_key(job_id@) <==> old(q)@.jobs.contains_key(job_id@),
        old(q)@.jobs.contains_key(job_id@) ==> {
            let v = old(q)@.jobs[job_id@];
            let w = final(q)@.jobs[job_id@];
            &&& same_job(v, w)
            &&& w.info.status == JobStatus::WaitingForClients
            &&& w.info.progress == v.info.progress
            &&& w.info.completed_at == v.info.completed_at
            &&& w.info.error == v.info.error
        },
{
}

/// A stage is noted of a job in the queue, of no other, and nothing else of it changes.
pub proof fn law_stage_is_noted(q: &mut JobQueue, job_id: &str, stage: Stage)
    requires
        call_ensures(JobQueue::enter_stage, (q, job_id, stage), ()),
    ensures
        final(q)@.queue == old(q)@.queue,
        final(q)@.active == old(q)@.active,
        others_stay(old(q)@, final(q)@, job_id@),
        !old(q)@.queue.contains(job_id@) ==> final(q)@.jobs == old(q)@.jobs,
        old(q)@.jobs.contains_key(job_id@) && old(q)@.queue.contains(job_id@) ==> {
            let v = old(q)@.jobs[job_id@];
            let w = final(q)@.jobs[job_id@];
            &&& final(q)@.jobs.contains_key(job_id@)
            &&& same_job(v, w)
            &&& stage == Stage::Benchmarking ==> w.info.status == JobStatus::Benchmarking
            &&& stage == Stage::Processing ==> w.info.status == JobStatus::Processing
            &&& stage == Stage::Combining ==> w.info.status == JobStatus::Combining
            &&& w.info.progress == v.info.progress
            &&& w.info.completed_at == v.info.completed_at
            &&& w.info.error == v.info.error
        },
{
}

/// Job `id` left its place behind `a` and in front of `b`; everyone else keeps the order.
pub open spec fn leaves(
    before: Seq<Seq<char>>,
    after: Seq<Seq<char>>,
    id: Seq<char>,
    a: Seq<Seq<char>>,
    b: Seq<Seq<char>>,
) -> bool {
    &&& before == a + seq![id] + b && !a.contains(id) ==> after == a + b
    &&& !before.contains(id) ==> after == before
}

/// Job `id` left the queue, in which it stood behind `a` and in front of `b`, and is not
/// at work.
pub open spec fn left_between(
    v: QueueView,
    w: QueueView,
    id: Seq<char>,
    a: Seq<Seq<char>>,
    b: Seq<Seq<char>>,
) -> bool {
    &&& leaves(v.queue, w.queue, id, a, b)
    &&& w.active != Some(id)
    &&& v.active != Some(id) ==> w.active == v.active
}

/// A completed job is completed from now on, has all its progress, and leaves the queue;
/// every other job stays as it is and keeps its place.
pub proof fn law_completed_job_is_done(
    q: &mut JobQueue,
    job_id: &str,
    now: u64,
    a: Seq<Seq<char>>,
    b: Seq<Seq<char>>,
)
    requires
        call_ensures(JobQueue::mark_job_completed, (q, job_id, now), ()),
    ensures
        others_stay(old(q)@, final(q)@, job_id@),
        final(q)@.jobs.contains_key(job_id@) <==> old(q)@.jobs.contains_key(job_id@),
        !old(q)@.jobs.contains_key(job_id@) ==> final(q)@ == old(q)@,
        old(q)@.jobs.contains_key(job_id@) ==> {
            let v = old(q)@.jobs[job_id@];
            let w = final(q)@.jobs[job_id@];
            &&& same_job(v, w)
            &&& w.info.status == JobStatus::Completed
            &&& w.info.progress.done == 1 && w.info.progress.total == 1
            &&& w.info.completed_at == Some(now)
            &&& w.info.error == v.info.error
            &&& left_between(old(q)@, final(q)@, job_id@, a, b)
        },
{
    lemma_leaves(a, job_id@, b);
    lemma_leaves(old(q)@.queue, job_id@, b);
}

/// A failed job failed now, with its error, and leaves the queue; every other job stays
/// as it is and keeps its place.
pub proof fn law_failed_job_tells_its_error(
    q: &mut JobQueue,
    job_id: &str,
    error: String,
    now: u64,
    a: Seq<Seq<char>>,
    b: Seq<Seq<char>>,
)
    requires
        call_ensures(JobQueue::mark_job_failed, (q, job_id, error, now), ()),
    ensures
        others_stay(old(q)@, final(q)@, job_id@),
        final(q)@.jobs.contains_key(job_id@) <==> old(q)@.jobs.contains_key(job_id@),
        !old(q)@.jobs.contains_key(job_id@) ==> final(q)@ == old(q)@,
        old(q)@.jobs.contains_key(job_id@) ==> {
            let v = old(q)@.jobs[job_id@];
            let w = final(q)@.jobs[job_id@];
            &&& same_job(v, w)
            &&& w.info.status == JobStatus::Failed
            &&& w.info.progress == v.info.progress
            &&& w.info.completed_at == Some(now)
            &&& w.info.error == Some(error@)
            &&& left_between(old(q)@, final(q)@, job_id@, a, b)
        },
{
    lemma_leaves(a, job_id@, b);
    lemma_leaves(old(q)@.queue, job_id@, b);
}

/// A cancelled job is cancelled from now on and leaves the queue; whether it was in it is
/// answered. Every other job stays as it is and keeps its place.
pub proof fn law_cancelled_job_leaves(
    q: &mut JobQueue,
    job_id: &str,
    now: u64,
    r: bool,
    a: Seq<Seq<char>>,
    b: Seq<Seq<char>>,
)
    requires
        call_ensures(JobQueue::cancel_job, (q, job_id, now), r),
        old(q)@.sound(),
    ensures
        r <==> old(q)@.queue.contains(job_id@),
        others_stay(old(q)@, final(q)@, job_id@),
        final(q)@.jobs.contains_key(job_id@) <==> old(q)@.jobs.contains_key(job_id@),
        !old(q)@.jobs.contains_key(job_id@) ==> final(q)@ == old(q)@,
        old(q)@.jobs.contains_key(job_id@) ==> {
            let v = old(q)@.jobs[job_id@];
            let w = final(q)@.jobs[job_id@];
            &&& same_job(v, w)
            &&& w.info.status == JobStatus::Cancelled
            &&& w.info.progress == v.info.progress
            &&& w.info.completed_at == Some(now)
            &&& w.info.error == v.info.error
            &&& left_between(old(q)@, final(q)@, job_id@, a, b)
        },
{
    lemma_leaves(a, job_id@, b);
    lemma_leaves(old(q)@.queue, job_id@, b);
    if old(q)@.queue.contains(job_id@) {
        let i = old(q)@.queue.index_of(job_id@);
        assert(old(q)@.jobs.contains_key(old(q)@.queue[i]));
    }
    let all = a + seq![job_id@] + b;
    assert(all[a.len() as int] == job_id@);
}

/// A job is found under its name exactly if it is known, and as it is; the first of the
/// queue is told of to whom it concerns.
pub proof fn law_known_jobs_are_found(
    q: JobQueue,
    job_id: &str,
    r: Option<&Job>,
    queued: bool,
)
    requires
        call_ensures(JobQueue::get_job, (&q, job_id), r),
        call_ensures(JobQueue::is_queued, (&q, job_id), queued),
    ensures
        r is Some <==> q@.jobs.contains_key(job_id@),
        r matches Some(j) ==> j@ == q@.jobs[job_id@],
        queued <==> q@.queue.contains(job_id@),
{
}

/// The first job of the queue is told with its settings and its format, and nothing
/// changes.
pub proof fn law_first_job_is_told(
    q: &mut JobQueue,
    r: Option<(String, JobConfig, String)>,
)
    requires
        call_ensures(JobQueue::notify_new_job, (q,), r),
    ensures
        final(q)@ == old(q)@,
        r is Some <==> old(q)@.queue.len() > 0,
        r matches Some((id, config, format)) ==> {
            let job = old(q)@.jobs[old(q)@.queue[0]];
            &&& id@ == old(q)@.queue[0]
            &&& config.required_clients == job.config.required_clients
            &&& texts(config.ffmpeg_params@) == job.config.ffmpeg_params
            &&& config.exactly == job.config.exactly
            &&& format@ == job.format
        },
{
}

/// The list of jobs tells of every known job, once, as it is, and the latest first.
pub proof fn law_every_job_is_listed(q: JobQueue, r: Vec<JobInfo>, id: Seq<char>, i: int, j: int)
    requires
        call_ensures(JobQueue::list_jobs, (&q,), r),
    ensures
        q@.jobs.contains_key(id) <==> exists|k: int|
            0 <= k < r@.len() && #[trigger] r@[k].job_id@ == id,
        0 <= i < r@.len() ==> {
            let told = q@.jobs[r@[i].job_id@].info;
            &&& q@.jobs.contains_key(r@[i].job_id@)
            &&& r@[i].file_name@ == told.file_name
            &&& r@[i].status == told.status
            &&& r@[i].progress == told.progress
            &&& r@[i].created_at == told.created_at
            &&& r@[i].completed_at == told.completed_at
            &&& opt_text(r@[i].error) == told.error
        },
        0 <= i < j < r@.len() ==> r@[i].job_id@ != r@[j].job_id@,
        0 <= i < j < r@.len() ==> r@[i].created_at >= r@[j].created_at,
{
    let list = r@.map_values(|j: JobInfo| j@);
    let ids = list.map_values(|j: JobInfoView| j.job_id);
    assert(ids.len() == r@.len());
    assert forall|k: int| 0 <= k < r@.len() implies ids[k] == (#[trigger] r@[k]).job_id@ by {
        assert(list[k] == r@[k]@);
    }
    if ids.contains(id) {
        let k = ids.index_of(id);
        assert(r@[k].job_id@ == id);
    }
    if exists|k: int| 0 <= k < r@.len() && #[trigger] r@[k].job_id@ == id {
        let k = choose|k: int| 0 <= k < r@.len() && #[trigger] r@[k].job_id@ == id;
        assert(ids[k] == id);
    }
    if 0 <= i < r@.len() {
        assert(list[i] == r@[i]@);
        assert(ids.contains(ids[i]));
    }
    if 0 <= i < j < r@.len() {
        assert(list[i] == r@[i]@);
        assert(list[j] == r@[j]@);
        assert(ids[i] != ids[j]);
        assert(list[i].created_at >= list[j].created_at);
    }
}

/// A manager starts without segments, in the directory of its job.
pub proof fn law_segments_start_empty(job_id: String, m: SegmentManager)
    requires
        call_ensures(SegmentManager::for_job, (job_id,), m),
    ensures
        m@.segments.dom() == Set::<Seq<char>>::empty(),
        m@.pending == Set::<Seq<char>>::empty(),
        m@.completed == Set::<Seq<char>>::empty(),
        m@.job_id == job_id@,
        m@.original_format is None,
{
    assert(m@.segments.dom() =~= Set::empty());
}

/// A segment that came back is kept as it came, under its client, and its name is noted;
/// those of other clients stay.
pub proof fn law_returned_segment_is_kept(
    m: &mut SegmentManager,
    client_id: String,
    segment: SegmentData,
    other: Seq<char>,
)
    requires
        call_ensures(SegmentManager::add_processed_segment, (m, client_id, segment), ()),
    ensures
        final(m)@.segments.contains_key(client_id@),
        final(m)@.segments[client_id@].data == segment.data@,
        final(m)@.segments[client_id@].format == segment.format@,
        final(m)@.segments[client_id@].segment_id == segment.segment_id@,
        other != client_id@ ==> (final(m)@.segments.contains_key(other)
            <==> old(m)@.segments.contains_key(other)) && (old(m)@.segments.contains_key(other)
            ==> final(m)@.segments[other] == old(m)@.segments[other]),
        final(m)@.completed.contains(other) <==> old(m)@.completed.contains(other) || other
            == segment.segment_id@,
        final(m)@.pending == old(m)@.pending,
        final(m)@.job_id == old(m)@.job_id,
        final(m)@.original_format == old(m)@.original_format,
{
}

/// A segment that is handed out is noted by its name.
pub proof fn law_handed_out_segment_is_noted(
    m: &mut SegmentManager,
    segment_id: String,
    other: Seq<char>,
)
    requires
        call_ensures(SegmentManager::add_pending_segment, (m, segment_id), ()),
    ensures
        final(m)@.pending.contains(other) <==> old(m)@.pending.contains(other) || other
            == segment_id@,
        final(m)@.segments == old(m)@.segments,
        final(m)@.completed == old(m)@.completed,
        final(m)@.job_id == old(m)@.job_id,
        final(m)@.original_format == old(m)@.original_format,
{
}

/// What the manager forgets are the segments, and nothing else.
pub proof fn law_segments_are_forgotten(m: &mut SegmentManager)
    requires
        call_ensures(SegmentManager::reset_state, (m,), ()),
    ensures
        final(m)@.segments.dom() == Set::<Seq<char>>::empty(),
        final(m)@.pending == Set::<Seq<char>>::empty(),
        final(m)@.completed == Set::<Seq<char>>::empty(),
        final(m)@.job_id == old(m)@.job_id,
        final(m)@.original_format == old(m)@.original_format,
{
    assert(final(m)@.segments.dom() =~= Set::empty());
}

/// The manager turns to another job and to its directory, and forgets nothing.
pub proof fn law_manager_turns_to_a_job(m: &mut SegmentManager, job_id: String)
    requires
        call_ensures(SegmentManager::set_job_id, (m, job_id), ()),
    ensures
        final(m)@.job_id == job_id@,
        final(m)@.segments == old(m)@.segments,
        final(m)@.pending == old(m)@.pending,
        final(m)@.completed == old(m)@.completed,
        final(m)@.original_format == old(m)@.original_format,
{
}

/// The directories of a job lie where they belong.
pub proof fn law_job_has_its_directory(
    m: SegmentManager,
    work_dir: &PathParts,
    base_dir: &PathParts,
    segments_dir: PathParts,
    segment_id: &str,
    format: &str,
    file: PathParts,
)
    requires
        m.wf(),
        call_ensures(SegmentManager::get_work_dir, (&m,), work_dir),
        call_ensures(SegmentManager::get_base_dir, (&m,), base_dir),
        call_ensures(SegmentManager::segments_dir, (&m,), segments_dir),
        call_ensures(SegmentManager::segment_file, (&m, segment_id, format), file),
    ensures
        base_dir@ == seq!["work"@, "server"@],
        work_dir@ == seq!["work"@, "server"@, m@.job_id],
        segments_dir@ == seq!["work"@, "server"@, m@.job_id, "segments"@],
        file@ == seq![
            "work"@,
            "server"@,
            m@.job_id,
            "segments"@,
            segment_id@ + "."@ + format@,
        ],
{
    assert(work_dir@ =~= seq!["work"@, "server"@, m@.job_id]);
    assert(segments_dir@ =~= seq!["work"@, "server"@, m@.job_id, "segments"@]);
    assert(file@ =~= seq![
        "work"@,
        "server"@,
        m@.job_id,
        "segments"@,
        segment_id@ + "."@ + format@,
    ]);
}

/// The progress of a job is the number of segments that came back of the number of those
/// that were handed out; it is complete when these are the same, and some were.
pub proof fn law_progress_counts_segments(m: SegmentManager, r: Progress, complete: bool)
    requires
        m.wf(),
        call_ensures(SegmentManager::get_completion_percentage, (&m,), r),
        call_ensures(SegmentManager::is_job_complete, (&m,), complete),
    ensures
        m@.pending.len() > 0 ==> r.done == m@.completed.len() && r.total == m@.pending.len(),
        m@.pending.len() == 0 ==> r.done == 0 && r.total == 1,
        complete <==> m@.pending.len() > 0 && m@.completed.len() == m@.pending.len(),
{
}

/// What is asked of the segments is answered as they are.
pub proof fn law_segments_are_told_of(
    m: SegmentManager,
    client_id: &str,
    has: bool,
    segment: Option<&SegmentData>,
    count: usize,
    job_id: &str,
    format: Option<String>,
)
    requires
        m.wf(),
        call_ensures(SegmentManager::has_segment, (&m, client_id), has),
        call_ensures(SegmentManager::segment_of, (&m, client_id), segment),
        call_ensures(SegmentManager::get_segment_count, (&m,), count),
        call_ensures(SegmentManager::get_job_id, (&m,), job_id),
        call_ensures(SegmentManager::input_format, (&m,), format),
    ensures
        has <==> m@.segments.contains_key(client_id@),
        segment is Some <==> has,
        segment matches Some(d) ==> d@ == m@.segments[client_id@],
        count == m@.segments.len(),
        job_id@ == m@.job_id,
        opt_text(format) == m@.original_format,
{
}

/// The frame by which a segment is ordered is the number between the first two
/// underscores of its name, if there is one, and else zero.
pub proof fn law_frame_is_the_second_field(
    first: Seq<char>,
    second: Seq<char>,
    rest: Seq<char>,
    segment_id: &str,
    r: u64,
)
    requires
        call_ensures(frame_number, (segment_id,), r),
        !first.contains('_'),
        !second.contains('_'),
    ensures
        segment_id@ == first ==> r == 0,
        segment_id@ == first.push('_') + second || segment_id@ == first.push('_') + (second.push(
            '_',
        ) + rest) ==> match read_number(second) {
            Ok(n) => r == n,
            Err(_) => r == 0,
        },
{
    law_fields_of_two_texts(first, second, '_');
    law_fields_of_two_texts(first, second.push('_') + rest, '_');
    law_fields_of_two_texts(second, rest, '_');
    if segment_id@ == first.push('_') + second {
        assert(fields(segment_id@, '_') == seq![first] + seq![second]);
        assert(fields(segment_id@, '_')[1] == second);
    } else if segment_id@ == first.push('_') + (second.push('_') + rest) {
        assert(fields(segment_id@, '_') == seq![first] + (seq![second] + fields(rest, '_')));
        assert(fields(segment_id@, '_')[1] == second);
        crate::text::lemma_fields_nonempty(rest, '_');
    }
}

/// The clients are ordered by the frames at which their segments start, each once.
pub proof fn law_clients_are_ordered_by_frame(m: SegmentManager, r: Vec<String>, i: int, j: int)
    requires
        m.wf(),
        call_ensures(SegmentManager::frame_order, (&m,), r),
    ensures
        forall|c: Seq<char>| texts(r@).contains(c) <==> m@.segments.contains_key(c),
        0 <= i < j < r@.len() ==> r@[i]@ != r@[j]@ && frame_of(m@.segments[r@[i]@].segment_id)
            <= frame_of(m@.segments[r@[j]@].segment_id),
{
    if 0 <= i < j < r@.len() {
        assert(texts(r@)[i] == r@[i]@);
        assert(texts(r@)[j] == r@[j]@);
    }
}

/// What is told of a job at a stage is that stage.
pub proof fn law_stages_are_told(stage: Stage, r: JobStatus)
    requires
        call_ensures(Stage::status, (stage,), r),
    ensures
        stage == Stage::Benchmarking <==> r == JobStatus::Benchmarking,
        stage == Stage::Processing <==> r == JobStatus::Processing,
        stage == Stage::Combining <==> r == JobStatus::Combining,
{
}

/// A job that is added under a random name is what was asked for, under the name of its
/// file, and stands behind all others.
pub proof fn law_unnamed_job_waits_at_the_end(
    q: &mut JobQueue,
    file_path: String,
    config: JobConfig,
    format: String,
    now: u64,
    r: String,
)
    requires
        call_ensures(JobQueue::add_job, (q, file_path, config, format, now), r),
    ensures
        final(q)@.queue == old(q)@.queue + seq![r@],
        final(q)@.active == old(q)@.active,
        others_stay(old(q)@, final(q)@, r@),
        final(q)@.jobs.contains_key(r@),
        ({
            let job = final(q)@.jobs[r@];
            &&& job.file_path == file_path@
            &&& job.format == format@
            &&& job.config.ffmpeg_params == texts(config.ffmpeg_params@)
            &&& job.config.required_clients == config.required_clients
            &&& job.config.exactly == config.exactly
            &&& job.info.job_id == r@
            &&& crate::path::names_file(file_path@, job.info.file_name)
            &&& job.info.status == JobStatus::Queued
            &&& job.info.progress.done == 0 && job.info.progress.total == 1
            &&& job.info.created_at == now
            &&& job.info.completed_at is None
            &&& job.info.error is None
        }),
{
    assert(final(q)@.queue =~= old(q)@.queue + seq![r@]);
}

/// A manager starts without segments, under the name that it is given.
pub proof fn law_manager_starts_empty(job_id: Option<String>, m: SegmentManager)
    requires
        call_ensures(SegmentManager::new, (job_id,), m),
    ensures
        m@.segments.dom() == Set::<Seq<char>>::empty(),
        m@.pending == Set::<Seq<char>>::empty(),
        m@.completed == Set::<Seq<char>>::empty(),
        m@.original_format is None,
        job_id matches Some(id) ==> m@.job_id == id@,
{
    assert(m@.segments.dom() =~= Set::empty());
}

/// The format of the video is noted, and nothing else changes.
pub proof fn law_format_is_noted(m: &mut SegmentManager, format: String)
    requires
        call_ensures(SegmentManager::set_input_format, (m, format), ()),
    ensures
        final(m)@.original_format == Some(format@),
        final(m)@.segments == old(m)@.segments,
        final(m)@.pending == old(m)@.pending,
        final(m)@.completed == old(m)@.completed,
        final(m)@.job_id == old(m)@.job_id,
{
}

/// A copy of what is told of a job, and of its settings, tells the same.
pub proof fn law_copies_tell_the_same(
    config: JobConfig,
    c: JobConfig,
    info: JobInfo,
    i: JobInfo,
    segment: SegmentData,
    s: SegmentData,
)
    requires
        call_ensures(<JobConfig as Clone>::clone, (&config,), c),
        call_ensures(<JobInfo as Clone>::clone, (&info,), i),
        call_ensures(<SegmentData as Clone>::clone, (&segment,), s),
    ensures
        texts(c.ffmpeg_params@) == texts(config.ffmpeg_params@),
        c.required_clients == config.required_clients,
        c.exactly == config.exactly,
        i.job_id@ == info.job_id@,
        i.file_name@ == info.file_name@,
        i.status == info.status,
        i.progress == info.progress,
        i.created_at == info.created_at,
        i.completed_at == info.completed_at,
        opt_text(i.error) == opt_text(info.error),
        s.data@ == segment.data@,
        s.format@ == segment.format@,
        s.segment_id@ == segment.segment_id@,
{
    assert(c@ == config@ && i@ == info@ && s@ == segment@);
}

/// A job is what it holds.
pub proof fn law_job_is_what_it_holds(job: Job, segment: SegmentData)
    ensures
        job@.info.job_id == job.info.job_id@,
        job@.info.file_name == job.info.file_name@,
        job@.info.status == job.info.status,
        job@.info.progress == job.info.progress,
        job@.info.created_at == job.info.created_at,
        job@.info.completed_at == job.info.completed_at,
        job@.info.error == opt_text(job.info.error),
        job@.file_path == job.file_path@,
        job@.config.ffmpeg_params == texts(job.config.ffmpeg_params@),
        job@.config.required_clients == job.config.required_clients,
        job@.config.exactly == job.config.exactly,
        job@.format == job.format@,
        segment@.data == segment.data@,
        segment@.format == segment.format@,
        segment@.segment_id == segment.segment_id@,
{
}

/// A known job is changed in place, and no other is.
pub proof fn law_job_is_changed_in_place(q: &mut JobQueue, job_id: &str, r: Option<&mut Job>)
    requires
        call_ensures(JobQueue::get_job_mut, (q, job_id), r),
    ensures
        r is Some <==> old(q)@.jobs.contains_key(job_id@),
        r is None ==> final(q)@ == old(q)@,
        r matches Some(j) ==> {
            &&& j@ == old(q)@.jobs[job_id@]
            &&& final(q)@.jobs.contains_key(job_id@)
            &&& final(q)@.jobs[job_id@] == final(j)@
            &&& others_stay(old(q)@, final(q)@, job_id@)
            &&& final(q)@.queue == old(q)@.queue
            &&& final(q)@.active == old(q)@.active
        },
{
}

} // verus!
