//! The jobs that the server knows, and the queue of those still to be done.

use crate::models::measure::Progress;
use crate::models::messages::{
    default_job, JobConfig, JobConfigView, JobInfo, JobInfoView, JobStatus,
};
use crate::outside::{is_uuid, new_uuid};
use crate::path::{file_name, names_file};
use crate::sorted::{lemma_put_in, lists, sorted};
use crate::table::Table;
use crate::text::{copy_opt, is_text, opt_text, same, texts};
use vstd::prelude::*;

verus! {

/// A job: what is told of it, the video it is about, and how to encode it.
#[derive(Debug)]
pub struct Job {
    pub info: JobInfo,
    pub file_path: String,
    pub config: JobConfig,
    pub format: String,
}

/// The view of a `Job`.
pub struct JobView {
    pub info: JobInfoView,
    pub file_path: Seq<char>,
    pub config: JobConfigView,
    pub format: Seq<char>,
}

impl View for Job {
    type V = JobView;

    open spec fn view(&self) -> JobView {
        JobView {
            info: self.info@,
            file_path: self.file_path@,
            config: self.config@,
            format: self.format@,
        }
    }
}

/// The jobs that the server knows, the names of those that wait or are at
/// work in the order in which they came, and the one at work.
#[derive(Debug)]
pub struct JobQueue {
    jobs: Table<Job>,
    queue: Vec<String>,
    active_job: Option<String>,
}

/// The view of a `JobQueue`.
#[verifier::ext_equal]
pub struct QueueView {
    pub jobs: Map<Seq<char>, JobView>,
    pub queue: Seq<Seq<char>>,
    pub active: Option<Seq<char>>,
}

/// `s` without the first `x` in it.
pub open spec fn without_first(s: Seq<Seq<char>>, x: Seq<char>) -> Seq<Seq<char>>
    decreases s.len(),
{
    if s.len() == 0 {
        s
    } else if s[0] == x {
        s.drop_first()
    } else {
        seq![s[0]] + without_first(s.drop_first(), x)
    }
}

/// What is told of a job that was just queued.
pub open spec fn queued_info(id: Seq<char>, file_name: Seq<char>, now: u64) -> JobInfoView {
    JobInfoView {
        job_id: id,
        file_name,
        status: JobStatus::Queued,
        progress: Progress::spec_none(),
        created_at: now,
        completed_at: None,
        error: None,
    }
}

/// A part of the work on a job.
#[derive(Clone, Copy, Debug, PartialEq, Eq, Structural)]
pub enum Stage {
    /// The clients are measured.
    Benchmarking,
    /// The clients encode.
    Processing,
    /// The segments are combined.
    Combining,
}

impl Stage {
    /// What is told of a job at this stage.
    pub open spec fn spec_status(self) -> JobStatus {
        match self {
            Stage::Benchmarking => JobStatus::Benchmarking,
            Stage::Processing => JobStatus::Processing,
            Stage::Combining => JobStatus::Combining,
        }
    }

    /// What is told of a job at this stage.
    pub fn status(self) -> (r: JobStatus)
        ensures
            r == self.spec_status(),
    {
        match self {
            Stage::Benchmarking => JobStatus::Benchmarking,
            Stage::Processing => JobStatus::Processing,
            Stage::Combining => JobStatus::Combining,
        }
    }
}

/// A job of this status is over.
pub open spec fn is_over(status: JobStatus) -> bool {
    status == JobStatus::Completed || status == JobStatus::Failed || status == JobStatus::Cancelled
}

impl QueueView {
    /// No job stands in the queue twice, and none in it is over.
    pub open spec fn orderly(self) -> bool {
        &&& self.queue.no_duplicates()
        &&& forall|i: int|
            0 <= i < self.queue.len() ==> !is_over(
                self.jobs[#[trigger] self.queue[i]].info.status,
            )
    }

    /// Every queued job is known, the job at work is the first in the queue,
    /// and every job is known by its own name.
    pub open spec fn sound(self) -> bool {
        &&& forall|i: int| 0 <= i < self.queue.len() ==> self.jobs.contains_key(self.queue[i])
        &&& self.active matches Some(a) ==> self.queue.len() > 0 && self.queue[0] == a
        &&& forall|id: Seq<char>|
            self.jobs.contains_key(id) ==> (#[trigger] self.jobs[id]).info.job_id == id
    }

    /// No job is known.
    pub open spec fn empty() -> QueueView {
        QueueView { jobs: Map::empty(), queue: Seq::empty(), active: None }
    }

    /// A job was added at the end of the queue.
    pub open spec fn added(self, id: Seq<char>, job: JobView) -> QueueView {
        QueueView { jobs: self.jobs.insert(id, job), queue: self.queue.push(id), ..self }
    }

    /// The first job of the queue is at work, if none was.
    pub open spec fn advanced(self) -> QueueView {
        if self.active is None && self.queue.len() > 0 {
            QueueView { active: Some(self.queue[0]), ..self }
        } else {
            self
        }
    }

    /// What is told of job `id` is now `info`.
    pub open spec fn with_info(self, id: Seq<char>, info: JobInfoView) -> QueueView {
        QueueView { jobs: self.jobs.insert(id, JobView { info, ..self.jobs[id] }), ..self }
    }

    /// Job `id` left the queue.
    pub open spec fn left(self, id: Seq<char>) -> QueueView {
        QueueView {
            queue: without_first(self.queue, id),
            active: if self.active == Some(id) {
                None
            } else {
                self.active
            },
            ..self
        }
    }

    /// The progress of job `id` is `done` of `total`; nothing is known of a
    /// total of zero.
    pub open spec fn progressed(self, id: Seq<char>, done: usize, total: usize) -> QueueView {
        if self.jobs.contains_key(id) && total > 0 {
            self.with_info(
                id,
                JobInfoView { progress: Progress { done, total }, ..self.jobs[id].info },
            )
        } else {
            self
        }
    }

    /// Job `id` waits for clients.
    pub open spec fn started(self, id: Seq<char>) -> QueueView {
        if self.jobs.contains_key(id) {
            self.with_info(
                id,
                JobInfoView { status: JobStatus::WaitingForClients, ..self.jobs[id].info },
            )
        } else {
            self
        }
    }

    /// The first job of the queue is at work and waits for clients, if none was
    /// at work.
    pub open spec fn begun(self) -> QueueView {
        if self.active is None && self.queue.len() > 0 {
            self.advanced().started(self.queue[0])
        } else {
            self
        }
    }

    /// The work on job `id` is at a stage; a job that left the queue is at none.
    pub open spec fn entered(self, id: Seq<char>, stage: Stage) -> QueueView {
        if self.jobs.contains_key(id) && self.queue.contains(id) {
            self.with_info(
                id,
                JobInfoView { status: stage.spec_status(), ..self.jobs[id].info },
            )
        } else {
            self
        }
    }

    /// Job `id` was completed.
    pub open spec fn completed(self, id: Seq<char>, now: u64) -> QueueView {
        if self.jobs.contains_key(id) {
            self.with_info(
                id,
                JobInfoView {
                    status: JobStatus::Completed,
                    completed_at: Some(now),
                    progress: Progress::spec_full(),
                    ..self.jobs[id].info
                },
            ).left(id)
        } else {
            self
        }
    }

    /// Job `id` failed.
    pub open spec fn failed(self, id: Seq<char>, error: Seq<char>, now: u64) -> QueueView {
        if self.jobs.contains_key(id) {
            self.with_info(
                id,
                JobInfoView {
                    status: JobStatus::Failed,
                    completed_at: Some(now),
                    error: Some(error),
                    ..self.jobs[id].info
                },
            ).left(id)
        } else {
            self
        }
    }

    /// Job `id` was cancelled. A job that had left the queue is marked, and
    /// nothing else changes.
    pub open spec fn cancelled(self, id: Seq<char>, now: u64) -> QueueView {
        if self.jobs.contains_key(id) {
            let marked = self.with_info(
                id,
                JobInfoView {
                    status: JobStatus::Cancelled,
                    completed_at: Some(now),
                    ..self.jobs[id].info
                },
            );
            if self.queue.contains(id) {
                marked.left(id)
            } else {
                marked
            }
        } else {
            self
        }
    }

    /// `list` tells of every known job once, the latest first.
    pub open spec fn is_listing(self, list: Seq<JobInfoView>) -> bool {
        let ids = list.map_values(|j: JobInfoView| j.job_id);
        &&& ids.no_duplicates()
        &&& forall|id: Seq<char>| ids.contains(id) <==> self.jobs.contains_key(id)
        &&& forall|i: int| 0 <= i < list.len() ==> #[trigger] list[i] == self.jobs[list[i].job_id].info
        &&& forall|i: int, j: int|
            0 <= i < j < list.len() ==> list[i].created_at >= list[j].created_at
    }
}

/// The view of a job.
pub open spec fn job_view() -> spec_fn(Job) -> JobView {
    |j: Job| j@
}

impl View for JobQueue {
    type V = QueueView;

    closed spec fn view(&self) -> QueueView {
        QueueView {
            jobs: self.jobs@.map_values(job_view()),
            queue: texts(self.queue@),
            active: opt_text(self.active_job),
        }
    }
}

proof fn lemma_without_first(s: Seq<Seq<char>>, x: Seq<char>)
    ensures
        forall|i: int|
            0 <= i < without_first(s, x).len() ==> s.contains(#[trigger] without_first(s, x)[i]),
        s.contains(x) ==> without_first(s, x).len() == s.len() - 1,
        !s.contains(x) ==> without_first(s, x) == s,
        s.len() > 0 && s[0] != x ==> without_first(s, x).len() > 0 && without_first(s, x)[0]
            == s[0],
        s.no_duplicates() ==> without_first(s, x).no_duplicates() && !without_first(
            s,
            x,
        ).contains(x),
    decreases s.len(),
{
    let w = without_first(s, x);
    if s.len() > 0 {
        let rest = s.drop_first();
        if s[0] == x {
            assert forall|i: int| 0 <= i < w.len() implies s.contains(#[trigger] w[i]) by {
                assert(s[i + 1] == w[i]);
            }
            if s.no_duplicates() {
                assert forall|i: int| 0 <= i < w.len() implies w[i] != x by {
                    assert(s[i + 1] == w[i]);
                }
            }
        } else {
            lemma_without_first(rest, x);
            let wr = without_first(rest, x);
            assert(s.contains(x) <==> rest.contains(x)) by {
                if s.contains(x) {
                    let k = s.index_of(x);
                    assert(rest[k - 1] == x);
                }
                if rest.contains(x) {
                    assert(s[rest.index_of(x) + 1] == x);
                }
            }
            assert forall|i: int| 0 <= i < w.len() implies s.contains(#[trigger] w[i]) by {
                if i > 0 {
                    assert(w[i] == wr[i - 1]);
                    let k = rest.index_of(wr[i - 1]);
                    assert(s[k + 1] == w[i]);
                } else {
                    assert(s[0] == w[0]);
                }
            }
            if !s.contains(x) {
                assert(w =~= s);
            }
            if s.no_duplicates() {
                assert forall|i: int, j: int| 0 <= i < j < rest.len() implies rest[i]
                    != rest[j] by {
                    assert(s[i + 1] != s[j + 1]);
                }
                assert forall|i: int, j: int| 0 <= i < j < w.len() implies w[i] != w[j] by {
                    if i > 0 {
                        assert(wr[i - 1] != wr[j - 1]);
                    } else {
                        let k = rest.index_of(wr[j - 1]);
                        assert(s[k + 1] == w[j]);
                        assert(s[0] != s[k + 1]);
                    }
                }
                assert forall|i: int| 0 <= i < w.len() implies w[i] != x by {
                    if i > 0 {
                        assert(wr[i - 1] == w[i]);
                        assert(wr.contains(wr[i - 1]));
                    }
                }
            }
        }
    }
}

/// Every operation keeps the queue sound.
pub proof fn law_queue_stays_sound(
    v: QueueView,
    id: Seq<char>,
    job: JobView,
    done: usize,
    total: usize,
    error: Seq<char>,
    now: u64,
)
    requires
        v.sound(),
        job.info.job_id == id,
    ensures
        QueueView::empty().sound(),
        v.added(id, job).sound(),
        v.advanced().sound(),
        v.begun().sound(),
        v.progressed(id, done, total).sound(),
        v.started(id).sound(),
        forall|stage: Stage| #[trigger] v.entered(id, stage).sound(),
        v.completed(id, now).sound(),
        v.failed(id, error, now).sound(),
        v.cancelled(id, now).sound(),
{
    lemma_without_first(v.queue, id);
    let a = v.added(id, job);
    assert forall|i: int| 0 <= i < a.queue.len() implies a.jobs.contains_key(a.queue[i]) by {
        if i < v.queue.len() {
            assert(a.queue[i] == v.queue[i]);
        }
    }
    lemma_left_sound(v, id, v.completed(id, now));
    lemma_left_sound(v, id, v.failed(id, error, now));
    if v.queue.contains(id) {
        lemma_left_sound(v, id, v.cancelled(id, now));
    }
}

proof fn lemma_left_sound(v: QueueView, id: Seq<char>, w: QueueView)
    requires
        v.sound(),
        v.jobs.contains_key(id) ==> w.jobs.dom() =~= v.jobs.dom() && w.queue == without_first(
            v.queue,
            id,
        ) && w.active == (if v.active == Some(id) {
            None
        } else {
            v.active
        }),
        !v.jobs.contains_key(id) ==> w == v,
        forall|k: Seq<char>|
            w.jobs.contains_key(k) ==> (#[trigger] w.jobs[k]).info.job_id == k,
    ensures
        w.sound(),
{
    if v.jobs.contains_key(id) {
        lemma_without_first(v.queue, id);
        assert forall|i: int| 0 <= i < w.queue.len() implies w.jobs.contains_key(w.queue[i]) by {
            assert(v.queue.contains(w.queue[i]));
            let k = v.queue.index_of(w.queue[i]);
            assert(v.jobs.contains_key(v.queue[k]));
        }
    }
}

/// Jobs are done one at a time and in the order in which they came: while a job
/// is at work no other starts, one that is added waits behind those that
/// wait, and when the job at work is over the next in line starts.
pub proof fn law_first_come_first_served(
    v: QueueView,
    id: Seq<char>,
    job: JobView,
    error: Seq<char>,
    now: u64,
)
    requires
        v.sound(),
    ensures
        v.active is Some ==> v.advanced() == v,
        v.active is None && v.queue.len() > 0 ==> v.advanced().active == Some(v.queue[0]),
        v.queue.len() > 0 ==> v.added(id, job).advanced().active == v.advanced().active,
        v.queue.len() == 0 ==> v.added(id, job).advanced().active == Some(id),
        v.active matches Some(a) ==> {
            &&& v.completed(a, now).active is None
            &&& v.completed(a, now).queue == v.queue.drop_first()
            &&& v.failed(a, error, now).active is None
            &&& v.failed(a, error, now).queue == v.queue.drop_first()
            &&& v.cancelled(a, now).active is None
            &&& v.cancelled(a, now).queue == v.queue.drop_first()
            &&& v.queue.len() > 1 ==> v.completed(a, now).advanced().active == Some(v.queue[1])
        },
{
    if v.queue.len() > 0 {
        assert(v.added(id, job).queue[0] == v.queue[0]);
    } else {
        assert(v.added(id, job).queue[0] == id);
    }
    if let Some(a) = v.active {
        assert(v.jobs.contains_key(v.queue[0]));
        assert(v.queue.contains(a));
        assert(without_first(v.queue, a) == v.queue.drop_first());
    }
}

/// Every operation keeps the queue orderly, provided that a job that is added
/// is new.
pub proof fn law_queue_stays_orderly(
    v: QueueView,
    id: Seq<char>,
    job: JobView,
    done: usize,
    total: usize,
    error: Seq<char>,
    now: u64,
)
    requires
        v.sound(),
        v.orderly(),
    ensures
        QueueView::empty().orderly(),
        !v.jobs.contains_key(id) && !is_over(job.info.status) ==> v.added(id, job).orderly(),
        v.advanced().orderly(),
        v.begun().orderly(),
        v.progressed(id, done, total).orderly(),
        v.started(id).orderly(),
        forall|stage: Stage| #[trigger] v.entered(id, stage).orderly(),
        v.completed(id, now).orderly(),
        v.failed(id, error, now).orderly(),
        v.cancelled(id, now).orderly(),
{
    lemma_without_first(v.queue, id);
    if !v.jobs.contains_key(id) {
        let a = v.added(id, job);
        assert forall|i: int| 0 <= i < v.queue.len() implies v.queue[i] != id by {
            assert(v.jobs.contains_key(v.queue[i]));
        }
        assert forall|i: int| 0 <= i < a.queue.len() && !is_over(job.info.status) implies !is_over(
            a.jobs[#[trigger] a.queue[i]].info.status,
        ) by {
            if i < v.queue.len() {
                assert(a.queue[i] == v.queue[i]);
            }
        }
    }
    lemma_left_orderly(v, id, v.completed(id, now));
    lemma_left_orderly(v, id, v.failed(id, error, now));
    if v.queue.contains(id) {
        lemma_left_orderly(v, id, v.cancelled(id, now));
    } else {
        let c = v.cancelled(id, now);
        assert forall|i: int| 0 <= i < c.queue.len() implies !is_over(
            c.jobs[#[trigger] c.queue[i]].info.status,
        ) by {
            assert(v.queue.contains(v.queue[i]));
        }
    }
    if v.queue.len() > 0 {
        assert(v.jobs.contains_key(v.queue[0]));
    }
}

proof fn lemma_left_orderly(v: QueueView, id: Seq<char>, w: QueueView)
    requires
        v.orderly(),
        v.jobs.contains_key(id) ==> w.queue == without_first(v.queue, id) && forall|k: Seq<char>|
            k != id && v.jobs.contains_key(k) ==> w.jobs[k] == #[trigger] v.jobs[k],
        !v.jobs.contains_key(id) ==> w == v,
        forall|i: int| 0 <= i < v.queue.len() ==> v.jobs.contains_key(v.queue[i]),
    ensures
        w.orderly(),
{
    if v.jobs.contains_key(id) {
        lemma_without_first(v.queue, id);
        assert forall|i: int| 0 <= i < w.queue.len() implies !is_over(
            w.jobs[#[trigger] w.queue[i]].info.status,
        ) by {
            let k = w.queue[i];
            assert(w.queue.contains(k));
            assert(v.queue.contains(k));
            let at = v.queue.index_of(k);
            assert(v.queue[at] == k);
            assert(v.jobs.contains_key(v.queue[at]));
            assert(w.jobs[k] == v.jobs[k]);
        }
    }
}

/// A job that is over is no longer in the queue.
pub proof fn law_finished_jobs_leave(v: QueueView, id: Seq<char>, error: Seq<char>, now: u64)
    requires
        v.sound(),
        v.orderly(),
    ensures
        !v.completed(id, now).queue.contains(id),
        !v.failed(id, error, now).queue.contains(id),
        !v.cancelled(id, now).queue.contains(id),
{
    lemma_without_first(v.queue, id);
    if !v.jobs.contains_key(id) {
        assert forall|i: int| 0 <= i < v.queue.len() implies v.queue[i] != id by {
            assert(v.jobs.contains_key(v.queue[i]));
        }
    }
}

/// A call that changes a queue.
pub enum QueueCall {
    Add { id: Seq<char>, job: JobView },
    Next,
    Progress { id: Seq<char>, done: usize, total: usize },
    Start { id: Seq<char> },
    Enter { id: Seq<char>, stage: Stage },
    Complete { id: Seq<char>, now: u64 },
    Fail { id: Seq<char>, error: Seq<char>, now: u64 },
    Cancel { id: Seq<char>, now: u64 },
}

impl QueueView {
    /// The queue after a call.
    pub open spec fn called(self, call: QueueCall) -> QueueView {
        match call {
            QueueCall::Add { id, job } => self.added(id, job),
            QueueCall::Next => self.advanced(),
            QueueCall::Progress { id, done, total } => self.progressed(id, done, total),
            QueueCall::Start { id } => self.started(id),
            QueueCall::Enter { id, stage } => self.entered(id, stage),
            QueueCall::Complete { id, now } => self.completed(id, now),
            QueueCall::Fail { id, error, now } => self.failed(id, error, now),
            QueueCall::Cancel { id, now } => self.cancelled(id, now),
        }
    }

    /// A job that the call adds is new, and is queued under its own name.
    pub open spec fn takes(self, call: QueueCall) -> bool {
        call matches QueueCall::Add { id, job } ==> {
            &&& !self.jobs.contains_key(id)
            &&& job.info.job_id == id
            &&& job.info.status == JobStatus::Queued
        }
    }
}

/// A new queue after calls, one after the other.
pub open spec fn queue_after(calls: Seq<QueueCall>) -> QueueView
    decreases calls.len(),
{
    if calls.len() == 0 {
        QueueView::empty()
    } else {
        queue_after(calls.drop_last()).called(calls.last())
    }
}

/// Whatever is called on a new queue, as long as each job that is added is new,
/// the queue is sound and orderly: the job at work is the first in the queue, no
/// job stands in the queue twice, and each of them is known by its own name and
/// is not over.
pub proof fn law_every_queue_is_sound_and_orderly(calls: Seq<QueueCall>)
    requires
        forall|i: int|
            0 <= i < calls.len() ==> queue_after(calls.take(i)).takes(#[trigger] calls[i]),
    ensures
        queue_after(calls).sound(),
        queue_after(calls).orderly(),
    decreases calls.len(),
{
    if calls.len() > 0 {
        let front = calls.drop_last();
        let k = calls.len() - 1;
        assert(calls.take(k) =~= front);
        assert forall|i: int| 0 <= i < front.len() implies queue_after(front.take(i)).takes(
            #[trigger] front[i],
        ) by {
            assert(front.take(i) =~= calls.take(i));
            assert(front[i] == calls[i]);
        }
        law_every_queue_is_sound_and_orderly(front);
        let v = queue_after(front);
        assert(v.takes(calls[k]));
        let (id, job) = match calls.last() {
            QueueCall::Add { id, job } => (id, job),
            QueueCall::Next => (Seq::empty(), named_job(Seq::empty())),
            QueueCall::Progress { id, .. } => (id, named_job(id)),
            QueueCall::Start { id } => (id, named_job(id)),
            QueueCall::Enter { id, .. } => (id, named_job(id)),
            QueueCall::Complete { id, .. } => (id, named_job(id)),
            QueueCall::Fail { id, .. } => (id, named_job(id)),
            QueueCall::Cancel { id, .. } => (id, named_job(id)),
        };
        let (done, total) = match calls.last() {
            QueueCall::Progress { done, total, .. } => (done, total),
            _ => (0usize, 0usize),
        };
        let (error, now) = match calls.last() {
            QueueCall::Complete { now, .. } => (Seq::empty(), now),
            QueueCall::Fail { error, now, .. } => (error, now),
            QueueCall::Cancel { now, .. } => (Seq::empty(), now),
            _ => (Seq::empty(), 0u64),
        };
        law_queue_stays_sound(v, id, job, done, total, error, now);
        law_queue_stays_orderly(v, id, job, done, total, error, now);
    }
}

/// A queued job of the given name.
pub open spec fn named_job(id: Seq<char>) -> JobView {
    JobView {
        info: queued_info(id, Seq::empty(), 0),
        file_path: Seq::empty(),
        config: default_job(0),
        format: Seq::empty(),
    }
}

spec fn told_ids(list: Seq<JobInfo>) -> Seq<Seq<char>> {
    list.map_values(|j: JobInfo| j.job_id@)
}

/// Numbers that rise as the times at which the jobs were made fall.
spec fn ages(list: Seq<JobInfo>) -> Seq<int> {
    list.map_values(|j: JobInfo| 0 - j.created_at)
}

impl JobQueue {
    /// The table of jobs is sound, and so is the queue.
    pub closed spec fn wf(&self) -> bool {
        &&& self.jobs.wf()
        &&& self@.sound()
    }

    /// A queue is sound at all times.
    pub proof fn law_queue_is_sound(&self)
        requires
            self.wf(),
        ensures
            self@.sound(),
    {
    }

    /// A queue without jobs.
    pub fn new() -> (r: Self)
        ensures
            r.wf(),
            r@ == QueueView::empty(),
    {
        let r = JobQueue { jobs: Table::new(), queue: Vec::new(), active_job: None };
        assert(r@.jobs =~= Map::empty());
        assert(r@.queue =~= Seq::empty());
        r
    }

    /// What is told of every known job, the latest first.
    pub fn list_jobs(&self) -> (r: Vec<JobInfo>)
        requires
            self.wf(),
        ensures
            self@.is_listing(r@.map_values(|j: JobInfo| j@)),
    {
        let mut out: Vec<JobInfo> = Vec::new();
        let ghost all = self.jobs.order();
        proof {
            self.jobs.lemma_order();
        }
        let n: usize = self.jobs.len();
        let mut i: usize = 0;
        while i < n
            invariant
                self.wf(),
                self.jobs.wf(),
                all == self.jobs.order(),
                all.no_duplicates(),
                n == all.len(),
                forall|k: Seq<char>| self.jobs@.contains_key(k) <==> all.contains(k),
                i <= n,
                lists(told_ids(out@), all.take(i as int)),
                forall|j: int|
                    0 <= j < out.len() ==> (#[trigger] out@[j])@
                        == self@.jobs[out@[j].job_id@].info,
                sorted(ages(out@)),
            decreases n - i,
        {
            let ghost key = all[i as int];
            let info = self.jobs.value_at(i).info.clone();
            proof {
                assert(all.contains(key));
                assert(self@.jobs.contains_key(key));
                assert(self@.jobs[key].info.job_id == key);
                assert(info.job_id@ == key);
            }
            let mut at: usize = out.len();
            while at > 0 && out[at - 1].created_at < info.created_at
                invariant
                    at <= out.len(),
                    forall|j: int|
                        at <= j < out.len() ==> out@[j].created_at < info.created_at,
                decreases at,
            {
                at -= 1;
            }
            let ghost before = told_ids(out@);
            let ghost keys = ages(out@);
            let ghost was = out@;
            let ghost age = 0 - info.created_at;
            proof {
                lemma_put_in(all, i as int, before, keys, at as int, age);
            }
            out.insert(at, info);
            assert(told_ids(out@) =~= before.insert(at as int, key));
            assert(ages(out@) =~= keys.insert(at as int, age));
            assert forall|j: int| 0 <= j < out.len() implies (#[trigger] out@[j])@
                == self@.jobs[out@[j].job_id@].info by {
                if j < at {
                    assert(out@[j] == was[j]);
                } else if j > at {
                    assert(out@[j] == was[j - 1]);
                }
            }
            i += 1;
        }
        assert(all.take(n as int) =~= all);
        proof {
            let list = out@.map_values(|j: JobInfo| j@);
            assert(list.map_values(|j: JobInfoView| j.job_id) =~= told_ids(out@));
            assert forall|i: int, j: int| 0 <= i < j < list.len() implies list[i].created_at
                >= list[j].created_at by {
                assert(ages(out@)[i] <= ages(out@)[j]);
            }
            assert forall|i: int| 0 <= i < list.len() implies #[trigger] list[i]
                == self@.jobs[list[i].job_id].info by {
                assert(list[i] == out@[i]@);
            }
        }
        out
    }

    /// Adds a job named `job_id` at the end of the queue; `now` is the time in
    /// seconds.
    pub fn add_named_job(
        &mut self,
        job_id: String,
        file_path: String,
        file_name: String,
        config: JobConfig,
        format: String,
        now: u64,
    )
        requires
            old(self).wf(),
        ensures
            final(self).wf(),
            final(self)@ == old(self)@.added(
                job_id@,
                JobView {
                    info: queued_info(job_id@, file_name@, now),
                    file_path: file_path@,
                    config: config@,
                    format: format@,
                },
            ),
    {
        let info = JobInfo {
            job_id: job_id.clone(),
            file_name,
            status: JobStatus::Queued,
            progress: Progress::none(),
            created_at: now,
            completed_at: None,
            error: None,
        };
        let job = Job { info, file_path, config, format };
        let ghost view = job@;
        self.jobs.insert(job_id.clone(), job);
        self.queue.push(job_id);
        proof {
            law_queue_stays_sound(old(self)@, job_id@, view, 0, 0, job_id@, now);
            assert(self@.jobs =~= old(self)@.jobs.insert(job_id@, view));
            assert(self@.queue =~= old(self)@.queue.push(job_id@));
        }
    }

    /// Adds a job at the end of the queue, under a random name, which is
    /// returned; `now` is the time in seconds. The name that is told of the
    /// file is the final component of its path by the platform's rules, or
    /// nothing if it has none.
    pub fn add_job(&mut self, file_path: String, config: JobConfig, format: String, now: u64) -> (r:
        String)
        requires
            old(self).wf(),
        ensures
            final(self).wf(),
            is_uuid(r@),
            final(self)@ == old(self)@.added(
                r@,
                JobView {
                    info: queued_info(r@, final(self)@.jobs[r@].info.file_name, now),
                    file_path: file_path@,
                    config: config@,
                    format: format@,
                },
            ),
            names_file(file_path@, final(self)@.jobs[r@].info.file_name),
    {
        let name = file_name(file_path.as_str());
        let job_id = new_uuid();
        self.add_named_job(job_id.clone(), file_path, name, config, format, now);
        job_id
    }

    /// Puts the first job of the queue to work and returns it, if no job was
    /// at work.
    pub fn get_next_job(&mut self) -> (r: Option<&Job>)
        requires
            old(self).wf(),
        ensures
            final(self).wf(),
            final(self)@ == old(self)@.advanced(),
            match r {
                Some(j) => old(self)@.active is None && old(self)@.queue.len() > 0 && j@
                    == old(self)@.jobs[old(self)@.queue[0]],
                None => old(self)@.active is Some || old(self)@.queue.len() == 0,
            },
    {
        if self.active_job.is_none() && self.queue.len() > 0 {
            proof {
                assert(self@.jobs.contains_key(self@.queue[0]));
            }
            self.active_job = Some(self.queue[0].clone());
            self.jobs.get(self.queue[0].as_str())
        } else {
            None
        }
    }

    fn set_info(&mut self, job_id: &str, status: JobStatus, progress: Progress, completed_at: Option<
        u64,
    >, error: Option<String>)
        requires
            old(self).wf(),
            old(self)@.jobs.contains_key(job_id@),
        ensures
            final(self).wf(),
            final(self)@ == old(self)@.with_info(
                job_id@,
                JobInfoView {
                    status,
                    progress,
                    completed_at,
                    error: opt_text(error),
                    ..old(self)@.jobs[job_id@].info
                },
            ),
    {
        if let Some(job) = self.jobs.get_mut(job_id) {
            job.info.status = status;
            job.info.progress = progress;
            job.info.completed_at = completed_at;
            job.info.error = error;
        }
        proof {
            let want = old(self)@.with_info(
                job_id@,
                JobInfoView {
                    status,
                    progress,
                    completed_at,
                    error: opt_text(error),
                    ..old(self)@.jobs[job_id@].info
                },
            );
            assert(self@.jobs =~= want.jobs);
            assert(self@ =~= want);
            assert(self@.sound());
        }
    }

    fn leave_queue(&mut self, job_id: &str) -> (r: bool)
        requires
            old(self).wf(),
            old(self)@.jobs.contains_key(job_id@),
        ensures
            final(self).wf(),
            r == old(self)@.queue.contains(job_id@),
            final(self)@ == old(self)@.left(job_id@),
    {
        let ghost was = self@.queue;
        let mut i: usize = 0;
        assert(was.skip(0) =~= was);
        while i < self.queue.len()
            invariant
                self@ == old(self)@,
                self.wf(),
                was == self@.queue,
                i <= self.queue.len(),
                forall|j: int| 0 <= j < i ==> was[j] != job_id@,
                without_first(was, job_id@) == was.take(i as int) + without_first(
                    was.skip(i as int),
                    job_id@,
                ),
            decreases self.queue.len() - i,
        {
            assert(was[i as int] == self.queue@[i as int]@);
            assert(was.skip(i as int)[0] == was[i as int]);
            assert(was.skip(i as int).drop_first() =~= was.skip(i + 1));
            if same(self.queue[i].as_str(), job_id) {
                assert(was.contains(job_id@));
                assert(was.remove(i as int) =~= was.take(i as int) + was.skip(i + 1));
                let _id = self.queue.remove(i);
                assert(texts(self.queue@) =~= was.remove(i as int));
                if is_text(&self.active_job, job_id) {
                    self.active_job = None;
                }
                proof {
                    lemma_left_sound(old(self)@, job_id@, self@);
                }
                return true;
            }
            assert(was.take(i as int) + (seq![was[i as int]] + without_first(
                was.skip(i + 1),
                job_id@,
            )) =~= was.take(i + 1) + without_first(was.skip(i + 1), job_id@));
            i += 1;
        }
        assert(was.take(was.len() as int) + without_first(was.skip(was.len() as int), job_id@)
            =~= was);
        if is_text(&self.active_job, job_id) {
            assert(was[0] == job_id@);
            self.active_job = None;
        }
        false
    }

    /// Notes how far job `job_id` is.
    pub fn update_progress(&mut self, job_id: &str, completed_segments: usize, total_segments: usize)
        requires
            old(self).wf(),
        ensures
            final(self).wf(),
            final(self)@ == old(self)@.progressed(job_id@, completed_segments, total_segments),
    {
        if total_segments > 0 {
            let known = match self.jobs.get(job_id) {
                Some(j) => Some((j.info.status, j.info.completed_at, copy_opt(&j.info.error))),
                None => None,
            };
            if let Some((status, completed_at, error)) = known {
                self.set_info(
                    job_id,
                    status,
                    Progress { done: completed_segments, total: total_segments },
                    completed_at,
                    error,
                );
            }
        }
    }

    /// Notes that job `job_id` waits for clients.
    pub fn mark_job_started(&mut self, job_id: &str)
        requires
            old(self).wf(),
        ensures
            final(self).wf(),
            final(self)@ == old(self)@.started(job_id@),
    {
        let known = match self.jobs.get(job_id) {
            Some(j) => Some((j.info.progress, j.info.completed_at, copy_opt(&j.info.error))),
            None => None,
        };
        if let Some((progress, completed_at, error)) = known {
            self.set_info(job_id, JobStatus::WaitingForClients, progress, completed_at, error);
        }
    }

    /// Notes the stage that the work on job `job_id` is at.
    pub fn enter_stage(&mut self, job_id: &str, stage: Stage)
        requires
            old(self).wf(),
        ensures
            final(self).wf(),
            final(self)@ == old(self)@.entered(job_id@, stage),
    {
        if !self.is_queued(job_id) {
            return;
        }
        let known = match self.jobs.get(job_id) {
            Some(j) => Some((j.info.progress, j.info.completed_at, copy_opt(&j.info.error))),
            None => None,
        };
        if let Some((progress, completed_at, error)) = known {
            self.set_info(job_id, stage.status(), progress, completed_at, error);
        }
    }

    /// Whether a job waits or is at work.
    pub fn is_queued(&self, job_id: &str) -> (r: bool)
        ensures
            r == self@.queue.contains(job_id@),
    {
        let mut i: usize = 0;
        while i < self.queue.len()
            invariant
                i <= self.queue.len(),
                forall|j: int| 0 <= j < i ==> self@.queue[j] != job_id@,
            decreases self.queue.len() - i,
        {
            assert(self@.queue[i as int] == self.queue@[i as int]@);
            if same(self.queue[i].as_str(), job_id) {
                return true;
            }
            i += 1;
        }
        false
    }

    /// Notes that job `job_id` was completed; `now` is the time in seconds.
    pub fn mark_job_completed(&mut self, job_id: &str, now: u64)
        requires
            old(self).wf(),
        ensures
            final(self).wf(),
            final(self)@ == old(self)@.completed(job_id@, now),
    {
        let known = match self.jobs.get(job_id) {
            Some(j) => Some(copy_opt(&j.info.error)),
            None => None,
        };
        if let Some(error) = known {
            self.set_info(job_id, JobStatus::Completed, Progress::full(), Some(now), error);
            let _was_queued = self.leave_queue(job_id);
        }
    }

    /// Notes that job `job_id` failed; `now` is the time in seconds.
    pub fn mark_job_failed(&mut self, job_id: &str, error: String, now: u64)
        requires
            old(self).wf(),
        ensures
            final(self).wf(),
            final(self)@ == old(self)@.failed(job_id@, error@, now),
    {
        let known = match self.jobs.get(job_id) {
            Some(j) => Some(j.info.progress),
            None => None,
        };
        if let Some(progress) = known {
            self.set_info(job_id, JobStatus::Failed, progress, Some(now), Some(error));
            let _was_queued = self.leave_queue(job_id);
        }
    }

    /// Cancels job `job_id`; `now` is the time in seconds. Returns whether it
    /// was in the queue.
    pub fn cancel_job(&mut self, job_id: &str, now: u64) -> (r: bool)
        requires
            old(self).wf(),
        ensures
            final(self).wf(),
            r == (old(self)@.jobs.contains_key(job_id@) && old(self)@.queue.contains(job_id@)),
            final(self)@ == old(self)@.cancelled(job_id@, now),
    {
        let known = match self.jobs.get(job_id) {
            Some(j) => Some((j.info.progress, copy_opt(&j.info.error))),
            None => None,
        };
        if let Some((progress, error)) = known {
            self.set_info(job_id, JobStatus::Cancelled, progress, Some(now), error);
            let ghost marked = self@;
            let queued = self.leave_queue(job_id);
            proof {
                if !queued {
                    lemma_without_first(marked.queue, job_id@);
                    if marked.active == Some(job_id@) {
                        assert(marked.queue[0] == job_id@);
                    }
                    assert(self@ =~= marked);
                }
            }
            queued
        } else {
            false
        }
    }

    /// The name, the settings and the format of the first job of the queue.
    pub fn notify_new_job(&mut self) -> (r: Option<(String, JobConfig, String)>)
        requires
            old(self).wf(),
        ensures
            final(self).wf(),
            final(self)@ == old(self)@,
            match r {
                Some((id, config, format)) => {
                    &&& old(self)@.queue.len() > 0
                    &&& id@ == old(self)@.queue[0]
                    &&& config@ == old(self)@.jobs[id@].config
                    &&& format@ == old(self)@.jobs[id@].format
                },
                None => old(self)@.queue.len() == 0,
            },
    {
        if self.queue.len() == 0 {
            return None;
        }
        proof {
            assert(self@.jobs.contains_key(self@.queue[0]));
        }
        match self.jobs.get(self.queue[0].as_str()) {
            Some(job) => {
                assert(job@ == self@.jobs[self@.queue[0]]);
                Some((job.info.job_id.clone(), job.config.clone(), job.format.clone()))
            },
            None => None,
        }
    }

    /// The job named `job_id`.
    pub fn get_job(&self, job_id: &str) -> (r: Option<&Job>)
        requires
            self.wf(),
        ensures
            match r {
                Some(j) => self@.jobs.contains_key(job_id@) && j@ == self@.jobs[job_id@],
                None => !self@.jobs.contains_key(job_id@),
            },
    {
        self.jobs.get(job_id)
    }

    /// The job named `job_id`, to be changed in place. The queue stays sound
    /// if the job keeps its name.
    pub fn get_job_mut(&mut self, job_id: &str) -> (r: Option<&mut Job>)
        requires
            old(self).wf(),
        ensures
            match r {
                Some(j) => {
                    &&& old(self)@.jobs.contains_key(job_id@)
                    &&& j@ == old(self)@.jobs[job_id@]
                    &&& final(self)@ == (QueueView {
                        jobs: old(self)@.jobs.insert(job_id@, final(j)@),
                        ..old(self)@
                    })
                    &&& final(j)@.info.job_id == job_id@ ==> final(self).wf()
                },
                None => !old(self)@.jobs.contains_key(job_id@) && final(self)@ == old(self)@
                    && final(self).wf(),
            },
    {
        proof {
            let was = self.jobs@;
            let view = self@;
            assert forall|j: Job| #[trigger]
                was.insert(job_id@, j).map_values(job_view()) == view.jobs.insert(job_id@, j@) by {
                assert(was.insert(job_id@, j).map_values(job_view()) =~= view.jobs.insert(
                    job_id@,
                    j@,
                ));
            }
        }
        self.jobs.get_mut(job_id)
    }
}

} // verus!
