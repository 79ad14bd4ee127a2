//! The segments of the job at hand: which are out, which came back, and how
//! they are put together again.

use crate::models::measure::Progress;
use crate::outside::{is_uuid, new_uuid};
use crate::path::PathParts;
use crate::server::segment_id::{frame_number, frame_of};
use crate::sorted::{lemma_put_in, lists, sorted};
use crate::table::{Table, TextSet};
use crate::text::{
    contains, copy_opt, fields, has_part, lemma_fields_nonempty, opt_text, split, texts, trim,
    trimmed,
};
use vstd::prelude::*;
use vstd::set_lib::{lemma_len_subset, lemma_subset_equality};

verus! {

/// A piece of video.
#[derive(Debug)]
pub struct SegmentData {
    pub data: Vec<u8>,
    pub format: String,
    pub segment_id: String,
}

/// The view of a `SegmentData`.
pub struct SegmentDataView {
    pub data: Seq<u8>,
    pub format: Seq<char>,
    pub segment_id: Seq<char>,
}

impl View for SegmentData {
    type V = SegmentDataView;

    open spec fn view(&self) -> SegmentDataView {
        SegmentDataView {
            data: self.data@,
            format: self.format@,
            segment_id: self.segment_id@,
        }
    }
}

impl Clone for SegmentData {
    fn clone(&self) -> (r: Self)
        ensures
            r@ == self@,
    {
        let data = self.data.clone();
        assert(data@ =~= self.data@);
        SegmentData { data, format: self.format.clone(), segment_id: self.segment_id.clone() }
    }
}

/// The segments of a job.
#[derive(Debug)]
pub struct SegmentManager {
    segments: Table<SegmentData>,
    pending_segments: TextSet,
    completed_segments: TextSet,
    job_id: String,
    base_dir: PathParts,
    work_dir: PathParts,
    original_format: Option<String>,
    total_segments: usize,
}

/// The view of a `SegmentManager`.
#[verifier::ext_equal]
pub struct SegmentsView {
    /// What each client sent back.
    pub segments: Map<Seq<char>, SegmentDataView>,
    /// The names of the segments that were handed out.
    pub pending: Set<Seq<char>>,
    /// The names of the segments that came back.
    pub completed: Set<Seq<char>>,
    pub job_id: Seq<char>,
    pub original_format: Option<Seq<char>>,
}

/// The directory that holds the directories of all jobs.
pub open spec fn server_dir() -> Seq<Seq<char>> {
    seq!["work"@, "server"@]
}

impl SegmentsView {
    /// The directory of the job.
    pub open spec fn work_dir(self) -> Seq<Seq<char>> {
        server_dir().push(self.job_id)
    }

    /// The frame by which the segment of `client` is ordered.
    pub open spec fn frame(self, client: Seq<char>) -> nat {
        frame_of(self.segments[client].segment_id)
    }

    /// No segment is out or came back yet.
    pub open spec fn fresh(job_id: Seq<char>) -> SegmentsView {
        SegmentsView {
            segments: Map::empty(),
            pending: Set::empty(),
            completed: Set::empty(),
            job_id,
            original_format: None,
        }
    }

    /// A client sent a segment back.
    pub open spec fn add_processed(self, client: Seq<char>, segment: SegmentDataView) -> SegmentsView {
        SegmentsView {
            segments: self.segments.insert(client, segment),
            completed: self.completed.insert(segment.segment_id),
            ..self
        }
    }

    /// A segment is handed out.
    pub open spec fn add_pending(self, segment_id: Seq<char>) -> SegmentsView {
        SegmentsView { pending: self.pending.insert(segment_id), ..self }
    }

    /// Another job is at hand.
    pub open spec fn with_job(self, job_id: Seq<char>) -> SegmentsView {
        SegmentsView { job_id, ..self }
    }

    /// All segments are forgotten.
    pub open spec fn cleared(self) -> SegmentsView {
        SegmentsView {
            segments: Map::empty(),
            pending: Set::empty(),
            completed: Set::empty(),
            ..self
        }
    }

    /// As many segments came back as were handed out, and some were.
    pub open spec fn is_complete(self) -> bool {
        self.pending.len() > 0 && self.completed.len() == self.pending.len()
    }

    /// The share of segments that came back.
    pub open spec fn progress(self) -> Progress {
        if self.pending.len() == 0 {
            Progress::spec_none()
        } else {
            Progress {
                done: self.completed.len() as usize,
                total: self.pending.len() as usize,
            }
        }
    }

    /// `order` names each client that sent a segment once, in the order of the
    /// segments' frames.
    pub open spec fn is_frame_order(self, order: Seq<Seq<char>>) -> bool {
        &&& order.no_duplicates()
        &&& forall|c: Seq<char>| order.contains(c) <==> self.segments.contains_key(c)
        &&& forall|i: int, j: int|
            0 <= i < j < order.len() ==> self.frame(order[i]) <= self.frame(order[j])
    }
}

/// The view of a segment.
pub open spec fn segment_view() -> spec_fn(SegmentData) -> SegmentDataView {
    |d: SegmentData| d@
}

impl View for SegmentManager {
    type V = SegmentsView;

    closed spec fn view(&self) -> SegmentsView {
        SegmentsView {
            segments: self.segments@.map_values(segment_view()),
            pending: self.pending_segments@,
            completed: self.completed_segments@,
            job_id: self.job_id@,
            original_format: opt_text(self.original_format),
        }
    }
}

/// The container that a video goes to.
pub enum Container {
    Mp4,
    Mkv,
    Avi,
}

/// The container for a video of the named format: the first name of the list decides.
pub open spec fn container_of(input_format: Seq<char>) -> Container {
    let f = trimmed(fields(input_format, ',')[0]);
    if has_part(f, "mov"@) || has_part(f, "mp4"@) || has_part(f, "m4a"@) || has_part(f, "3gp"@)
        || has_part(f, "mj2"@) {
        Container::Mp4
    } else if has_part(f, "matroska"@) || has_part(f, "webm"@) {
        Container::Mkv
    } else if has_part(f, "avi"@) {
        Container::Avi
    } else {
        Container::Mp4
    }
}

impl Container {
    /// The extension of a file in this container.
    pub open spec fn ext(self) -> Seq<char> {
        match self {
            Container::Mp4 => "mp4"@,
            Container::Mkv => "mkv"@,
            Container::Avi => "avi"@,
        }
    }

    /// The arguments that ask for this container.
    pub open spec fn options(self) -> Seq<Seq<char>> {
        match self {
            Container::Mp4 => seq!["-f"@, "mp4"@, "-movflags"@, "+faststart"@],
            Container::Mkv => seq!["-f"@, "matroska"@],
            Container::Avi => seq!["-f"@, "avi"@],
        }
    }
}

impl SegmentManager {
    /// The tables are sound, the count of segments is that of the segments
    /// handed out, and the directory is that of the job.
    pub closed spec fn wf(&self) -> bool {
        &&& self.segments.wf()
        &&& self.pending_segments.wf()
        &&& self.completed_segments.wf()
        &&& self.pending_segments@.finite()
        &&& self.completed_segments@.finite()
        &&& self.total_segments == self.pending_segments@.len()
        &&& self.base_dir@ == server_dir()
        &&& self.work_dir@ == server_dir().push(self.job_id@)
    }

    /// Only so many segments are handed out, come back and are stored as can be
    /// counted.
    pub proof fn law_segments_can_be_counted(&self)
        requires
            self.wf(),
        ensures
            self@.pending.finite(),
            self@.completed.finite(),
            self@.segments.dom().finite(),
            self@.pending.len() <= usize::MAX,
    {
        self.segments.lemma_order();
        assert(self@.segments.dom() =~= self.segments@.dom());
    }

    /// A segment raises the number of stored segments by one if it is the first of
    /// its client, and else takes the place of the one before.
    pub proof fn law_new_client_raises_the_count(
        &self,
        client: Seq<char>,
        segment: SegmentDataView,
    )
        requires
            self.wf(),
        ensures
            self@.add_processed(client, segment).segments.len() == if self@.segments.contains_key(
                client,
            ) {
                self@.segments.len()
            } else {
                self@.segments.len() + 1
            },
    {
        self.law_segments_can_be_counted();
        let after = self@.add_processed(client, segment).segments;
        assert(after.dom() =~= self@.segments.dom().insert(client));
        if self@.segments.contains_key(client) {
            assert(after.dom() =~= self@.segments.dom());
        }
    }

    /// A manager for the job named `job_id`.
    pub fn for_job(job_id: String) -> (r: Self)
        ensures
            r.wf(),
            r@ == SegmentsView::fresh(job_id@),
    {
        let base_dir = PathParts::from_text("work").join("server");
        let work_dir = base_dir.join(job_id.as_str());
        let r = SegmentManager {
            segments: Table::new(),
            pending_segments: TextSet::new(),
            completed_segments: TextSet::new(),
            job_id,
            base_dir,
            work_dir,
            original_format: None,
            total_segments: 0,
        };
        assert(r.base_dir@ =~= server_dir());
        assert(r@.segments =~= Map::empty());
        r
    }

    /// A manager for the job named `job_id`, or for one with a random name.
    pub fn new(job_id: Option<String>) -> (r: Self)
        ensures
            r.wf(),
            r@ == SegmentsView::fresh(r@.job_id),
            match job_id {
                Some(id) => r@.job_id == id@,
                None => is_uuid(r@.job_id),
            },
    {
        match job_id {
            Some(id) => SegmentManager::for_job(id),
            None => SegmentManager::for_job(new_uuid()),
        }
    }

    /// Takes the segment that `client_id` sent back.
    pub fn add_processed_segment(&mut self, client_id: String, segment_data: SegmentData)
        requires
            old(self).wf(),
        ensures
            final(self).wf(),
            final(self)@ == old(self)@.add_processed(client_id@, segment_data@),
    {
        self.completed_segments.insert(segment_data.segment_id.clone());
        self.segments.insert(client_id, segment_data);
        assert(self@.segments =~= old(self)@.segments.insert(client_id@, segment_data@));
    }

    /// Makes `job_id` the job at hand.
    pub fn set_job_id(&mut self, job_id: String)
        requires
            old(self).wf(),
        ensures
            final(self).wf(),
            final(self)@ == old(self)@.with_job(job_id@),
    {
        self.job_id = job_id;
        self.work_dir = self.base_dir.join(self.job_id.as_str());
    }

    /// Notes that a segment was handed out.
    pub fn add_pending_segment(&mut self, segment_id: String)
        requires
            old(self).wf(),
        ensures
            final(self).wf(),
            final(self)@ == old(self)@.add_pending(segment_id@),
    {
        self.pending_segments.insert(segment_id);
        self.total_segments = self.pending_segments.len();
    }

    /// The share of segments that came back.
    pub fn get_completion_percentage(&self) -> (r: Progress)
        requires
            self.wf(),
        ensures
            r == self@.progress(),
            r.done == self@.completed.len() || self@.pending.len() == 0,
            r.total == self@.pending.len() || self@.pending.len() == 0,
    {
        if self.total_segments == 0 {
            Progress::none()
        } else {
            Progress { done: self.completed_segments.len(), total: self.total_segments }
        }
    }

    /// Whether all segments came back.
    pub fn is_job_complete(&self) -> (r: bool)
        requires
            self.wf(),
        ensures
            r == self@.is_complete(),
    {
        if self.pending_segments.len() == 0 {
            return false;
        }
        self.completed_segments.len() == self.total_segments
    }

    /// Forgets all segments.
    pub fn reset_state(&mut self)
        requires
            old(self).wf(),
        ensures
            final(self).wf(),
            final(self)@ == old(self)@.cleared(),
    {
        self.segments = Table::new();
        self.pending_segments = TextSet::new();
        self.completed_segments = TextSet::new();
        self.total_segments = 0;
        assert(self@.segments =~= Map::empty());
    }

    /// Notes the format of the video that segments are cut from.
    pub fn set_input_format(&mut self, format: String)
        requires
            old(self).wf(),
        ensures
            final(self).wf(),
            final(self)@ == (SegmentsView { original_format: Some(format@), ..old(self)@ }),
    {
        self.original_format = Some(format);
    }

    /// The format of the video that segments are cut from, if it is known.
    pub fn input_format(&self) -> (r: Option<String>)
        ensures
            opt_text(r) == self@.original_format,
    {
        copy_opt(&self.original_format)
    }

    /// The job at hand.
    pub fn get_job_id(&self) -> (r: &str)
        ensures
            r@ == self@.job_id,
    {
        self.job_id.as_str()
    }

    /// The directory of the job at hand.
    pub fn get_work_dir(&self) -> (r: &PathParts)
        requires
            self.wf(),
        ensures
            r@ == self@.work_dir(),
    {
        &self.work_dir
    }

    /// The directory that holds the directories of all jobs.
    pub fn get_base_dir(&self) -> (r: &PathParts)
        requires
            self.wf(),
        ensures
            r@ == server_dir(),
    {
        &self.base_dir
    }

    /// How many clients sent a segment back.
    pub fn get_segment_count(&self) -> (r: usize)
        requires
            self.wf(),
        ensures
            r == self@.segments.len(),
    {
        proof {
            self.segments.lemma_order();
            assert(self@.segments.dom() =~= self.segments@.dom());
        }
        self.segments.len()
    }

    /// Whether `client_id` sent a segment back.
    pub fn has_segment(&self, client_id: &str) -> (r: bool)
        requires
            self.wf(),
        ensures
            r == self@.segments.contains_key(client_id@),
    {
        self.segments.contains_key(client_id)
    }

    /// The segment that `client_id` sent back.
    pub fn segment_of(&self, client_id: &str) -> (r: Option<&SegmentData>)
        requires
            self.wf(),
        ensures
            match r {
                Some(d) => self@.segments.contains_key(client_id@) && d@
                    == self@.segments[client_id@],
                None => !self@.segments.contains_key(client_id@),
            },
    {
        self.segments.get(client_id)
    }

    /// The extension and the arguments of the container for a video of the
    /// named format.
    pub fn get_output_format(input_format: &str) -> (r: (&'static str, Vec<&'static str>))
        ensures
            r.0@ == container_of(input_format@).ext(),
            r.1@.map_values(|s: &str| s@) == container_of(input_format@).options(),
    {
        let names = split(input_format, ',');
        proof {
            lemma_fields_nonempty(input_format@, ',');
        }
        assert(names@[0]@ == texts(names@)[0]);
        let f = trim(names[0].as_str());
        let f = f.as_str();
        let ghost opts = container_of(input_format@).options();
        if contains(f, "mov") || contains(f, "mp4") || contains(f, "m4a") || contains(f, "3gp")
            || contains(f, "mj2") {
            let v = vec!["-f", "mp4", "-movflags", "+faststart"];
            assert(v@.map_values(|s: &str| s@) =~= opts);
            ("mp4", v)
        } else if contains(f, "matroska") || contains(f, "webm") {
            let v = vec!["-f", "matroska"];
            assert(v@.map_values(|s: &str| s@) =~= opts);
            ("mkv", v)
        } else if contains(f, "avi") {
            let v = vec!["-f", "avi"];
            assert(v@.map_values(|s: &str| s@) =~= opts);
            ("avi", v)
        } else {
            let v = vec!["-f", "mp4", "-movflags", "+faststart"];
            assert(v@.map_values(|s: &str| s@) =~= opts);
            ("mp4", v)
        }
    }
}

spec fn frame_keys(frames: Seq<u64>) -> Seq<int> {
    frames.map_values(|f: u64| f as int)
}

impl SegmentManager {
    /// The clients that sent a segment back, in the order of the segments' frames.
    pub fn frame_order(&self) -> (r: Vec<String>)
        requires
            self.wf(),
        ensures
            self@.is_frame_order(texts(r@)),
    {
        let mut out: Vec<String> = Vec::new();
        let mut frames: Vec<u64> = Vec::new();
        let ghost all = self.segments.order();
        proof {
            self.segments.lemma_order();
        }
        assert(all.take(0) =~= Seq::empty());
        assert(texts(out@) =~= Seq::empty());
        let n: usize = self.segments.len();
        let mut i: usize = 0;
        while i < n
            invariant
                self.wf(),
                self.segments.wf(),
                all == self.segments.order(),
                all.no_duplicates(),
                n == all.len(),
                i <= n,
                out.len() == frames.len(),
                lists(texts(out@), all.take(i as int)),
                forall|j: int|
                    0 <= j < out.len() ==> frames@[j] == self@.frame(#[trigger] texts(out@)[j]),
                sorted(frame_keys(frames@)),
            decreases n - i,
        {
            let id = self.segments.key_at(i).clone();
            let key: u64 = frame_number(self.segments.value_at(i).segment_id.as_str());
            let mut at: usize = out.len();
            while at > 0 && frames[at - 1] > key
                invariant
                    at <= out.len(),
                    out.len() == frames.len(),
                    forall|j: int| at <= j < frames.len() ==> frames@[j] > key,
                decreases at,
            {
                at -= 1;
            }
            let ghost before = texts(out@);
            let ghost keys = frame_keys(frames@);
            proof {
                lemma_put_in(all, i as int, before, keys, at as int, key as int);
            }
            out.insert(at, id);
            frames.insert(at, key);
            assert(texts(out@) =~= before.insert(at as int, id@));
            assert(frame_keys(frames@) =~= keys.insert(at as int, key as int));
            assert forall|j: int| 0 <= j < out.len() implies frames@[j] == self@.frame(
                #[trigger] texts(out@)[j],
            ) by {
                if j < at {
                    assert(texts(out@)[j] == before[j]);
                } else if j > at {
                    assert(texts(out@)[j] == before[j - 1]);
                }
            }
            i += 1;
        }
        assert(all.take(n as int) =~= all);
        assert forall|j: int, k: int| 0 <= j < k < texts(out@).len() implies self@.frame(
            texts(out@)[j],
        ) <= self@.frame(texts(out@)[k]) by {
            assert(frame_keys(frames@)[j] <= frame_keys(frames@)[k]);
        }
        out
    }
}

/// A job whose segments come back under the names under which they were handed
/// out is complete exactly when all of them, and at least one, came back.
pub proof fn law_complete_when_all_came_back(s: SegmentsView)
    requires
        s.pending.finite(),
        s.completed.subset_of(s.pending),
    ensures
        s.is_complete() <==> s.completed == s.pending && s.pending != Set::<Seq<char>>::empty(),
{
    lemma_len_subset(s.completed, s.pending);
    if s.is_complete() {
        lemma_subset_equality(s.completed, s.pending);
    }
    if s.pending.len() == 0 {
        assert(s.pending =~= Set::empty());
    }
}

/// While not all segments came back, progress is below a hundred percent, and
/// it never falls.
pub proof fn law_progress_rises(s: SegmentsView, client: Seq<char>, segment: SegmentDataView)
    requires
        s.pending.finite(),
        s.pending.len() <= usize::MAX,
        s.completed.subset_of(s.pending),
        s.pending.contains(segment.segment_id),
    ensures
        ({
            let after = s.add_processed(client, segment);
            &&& after.completed.subset_of(after.pending)
            &&& s.progress().done <= after.progress().done <= after.progress().total
            &&& s.progress().total == after.progress().total
            &&& !after.is_complete() ==> after.progress().done < after.progress().total
        }),
{
    let after = s.add_processed(client, segment);
    lemma_len_subset(s.completed, s.pending);
    lemma_len_subset(after.completed, after.pending);
    lemma_len_subset(s.completed, after.completed);
    assert(s.pending.len() > 0) by {
        if s.pending.len() == 0 {
            assert(s.pending =~= Set::empty());
        }
    }
}

} // verus!
