//! Putting the segments of a job together, and checking that no frame is lost.

use crate::models::measure::Fps;
use crate::outside::{is_uuid, lossy_text};
use crate::probe::{
    printed, printed_count, read_count, ProbeError, ProbeErrorView, ProcessOutput,
};
use crate::server::frames::{
    frame_ranges, frames_in, law_ranges_start_in_order, lemma_few_places, lemma_range_ends,
    lemma_range_monotone, lemma_sorted_ranges, range_start, share,
};
use crate::server::segment_id::{law_name_tells_frame, segment_name};
use crate::server::segment_manager::{SegmentManager, SegmentsView};
use crate::text::{decimal, number_text, strings, texts};
use vstd::prelude::*;
use vstd::string::*;

verus! {

/// Why segments could not be combined.
#[derive(Debug)]
pub enum CombineError {
    /// The frames of the segment at this place could not be counted.
    SegmentCount(usize),
    /// What was printed as a count could not be read.
    Probe(ProbeError),
    /// `ffmpeg` failed; what it complained of.
    Combine(String),
    /// The combined video has another number of frames than its segments.
    Mismatch { expected: u64, got: u64 },
}

/// The view of a `CombineError`.
pub enum CombineErrorView {
    SegmentCount(nat),
    Probe(ProbeErrorView),
    Combine(Seq<char>),
    Mismatch { expected: nat, got: nat },
}

impl View for CombineError {
    type V = CombineErrorView;

    open spec fn view(&self) -> CombineErrorView {
        match *self {
            CombineError::SegmentCount(i) => CombineErrorView::SegmentCount(i as nat),
            CombineError::Probe(e) => CombineErrorView::Probe(e@),
            CombineError::Combine(w) => CombineErrorView::Combine(w@),
            CombineError::Mismatch { expected, got } => CombineErrorView::Mismatch {
                expected: expected as nat,
                got: got as nat,
            },
        }
    }
}

impl CombineErrorView {
    /// What is told of the failure.
    pub open spec fn message(self) -> Seq<char> {
        match self {
            CombineErrorView::SegmentCount(i) => "Failed to verify segment "@ + decimal(i)
                + " frame count"@,
            CombineErrorView::Probe(e) => e.message(),
            CombineErrorView::Combine(w) => "Failed to combine segments: "@ + w,
            CombineErrorView::Mismatch { expected, got } => "Frame count mismatch: expected "@
                + decimal(expected) + " frames but got "@ + decimal(got) + " in final output"@,
        }
    }
}

impl CombineError {
    /// What is told of the failure.
    pub fn message(&self) -> (r: String)
        ensures
            r@ == self@.message(),
    {
        match self {
            CombineError::SegmentCount(i) => "Failed to verify segment ".to_owned().concat(
                number_text(*i as u64).as_str(),
            ).concat(" frame count"),
            CombineError::Probe(e) => e.message(),
            CombineError::Combine(w) => "Failed to combine segments: ".to_owned().concat(
                w.as_str(),
            ),
            CombineError::Mismatch { expected, got } => "Frame count mismatch: expected ".to_owned().concat(
                number_text(*expected).as_str(),
            ).concat(" frames but got ").concat(number_text(*got).as_str()).concat(
                " in final output",
            ),
        }
    }
}

/// A segment that is written out to be combined: whose it is, and the name of
/// its file.
#[derive(Debug)]
pub struct SegmentFile {
    pub client_id: String,
    pub file_name: String,
}

/// `i` in decimal, with zeros in front to make three digits.
pub open spec fn three_digits(i: nat) -> Seq<char> {
    if i < 10 {
        "00"@ + decimal(i)
    } else if i < 100 {
        "0"@ + decimal(i)
    } else {
        decimal(i)
    }
}

/// The name of the file of the `i`th segment.
pub open spec fn segment_file_name(i: nat, format: Seq<char>) -> Seq<char> {
    "segment_"@ + three_digits(i) + "."@ + format
}

/// The segments of a job that are being combined: their files in the order of
/// their frames, how many of them were counted, and the frames in these.
#[derive(Debug)]
pub struct Combination {
    files: Vec<SegmentFile>,
    counted: usize,
    total_frames: u64,
}

/// The view of a `Combination`.
pub struct CombinationView {
    pub clients: Seq<Seq<char>>,
    pub names: Seq<Seq<char>>,
    pub counted: nat,
    pub total_frames: nat,
}

impl View for Combination {
    type V = CombinationView;

    closed spec fn view(&self) -> CombinationView {
        CombinationView {
            clients: self.files@.map_values(|f: SegmentFile| f.client_id@),
            names: self.files@.map_values(|f: SegmentFile| f.file_name@),
            counted: self.counted as nat,
            total_frames: self.total_frames as nat,
        }
    }
}

impl CombinationView {
    /// The next segment turned out to have `frames` frames.
    pub open spec fn counted(self, frames: nat) -> CombinationView {
        CombinationView {
            counted: self.counted + 1,
            total_frames: self.total_frames + frames,
            ..self
        }
    }

    /// The segments turned out to have these numbers of frames, one after the other.
    pub open spec fn all_counted(self, frames: Seq<nat>) -> CombinationView
        decreases frames.len(),
    {
        if frames.len() == 0 {
            self
        } else {
            self.all_counted(frames.drop_last()).counted(frames.last())
        }
    }

    /// Whether a combined video with `frames` frames is accepted.
    pub open spec fn verdict(self, printed: Seq<u8>) -> Result<(), CombineErrorView> {
        match printed_count(printed) {
            Ok(got) => if got == self.total_frames {
                Ok(())
            } else {
                Err(CombineErrorView::Mismatch { expected: self.total_frames, got })
            },
            Err(e) => Err(CombineErrorView::Probe(e)),
        }
    }

    /// What the count of the next segment gives.
    pub open spec fn next_count(self, success: bool, printed: Seq<u8>) -> Result<
        nat,
        CombineErrorView,
    > {
        if !success {
            Err(CombineErrorView::SegmentCount(self.counted))
        } else {
            match printed_count(printed) {
                Ok(n) => Ok(n),
                Err(e) => Err(CombineErrorView::Probe(e)),
            }
        }
    }
}

/// `c` is the start of combining the segments of `s`: every segment once, in
/// the order of the frames, nothing counted yet.
pub open spec fn is_start(s: SegmentsView, c: CombinationView) -> bool {
    &&& s.is_frame_order(c.clients)
    &&& c.names.len() == c.clients.len()
    &&& forall|i: int|
        0 <= i < c.names.len() ==> #[trigger] c.names[i] == segment_file_name(
            i as nat,
            s.segments[c.clients[i]].format,
        )
    &&& c.counted == 0
    &&& c.total_frames == 0
}

fn pad_three(i: u64) -> (r: String)
    ensures
        r@ == three_digits(i as nat),
{
    if i < 10 {
        "00".to_owned().concat(number_text(i).as_str())
    } else if i < 100 {
        "0".to_owned().concat(number_text(i).as_str())
    } else {
        number_text(i)
    }
}

impl SegmentManager {
    /// Starts combining the segments that came back.
    pub fn start_combination(&self) -> (r: Combination)
        requires
            self.wf(),
        ensures
            is_start(self@, r@),
    {
        let order = self.frame_order();
        let mut files: Vec<SegmentFile> = Vec::new();
        let mut i: usize = 0;
        while i < order.len()
            invariant
                self.wf(),
                self@.is_frame_order(texts(order@)),
                i <= order.len(),
                files.len() == i,
                forall|j: int|
                    0 <= j < i ==> (#[trigger] files@[j]).client_id@ == texts(order@)[j]
                        && files@[j].file_name@ == segment_file_name(
                        j as nat,
                        self@.segments[texts(order@)[j]].format,
                    ),
            decreases order.len() - i,
        {
            let client_id = order[i].clone();
            assert(client_id@ == texts(order@)[i as int]);
            assert(texts(order@).contains(client_id@));
            match self.segment_of(client_id.as_str()) {
                Some(d) => {
                    let file_name = "segment_".to_owned().concat(
                        pad_three(i as u64).as_str(),
                    ).concat(".").concat(d.format.as_str());
                    files.push(SegmentFile { client_id, file_name });
                },
                None => {},
            }
            i += 1;
        }
        let r = Combination { files, counted: 0, total_frames: 0 };
        assert(r@.clients =~= texts(order@));
        r
    }
}

impl Combination {
    /// The segment that is to be written out and counted next, if one is left.
    pub fn next_file(&self) -> (r: Option<&SegmentFile>)
        ensures
            match r {
                Some(f) => self@.counted < self@.clients.len() && f.client_id@
                    == self@.clients[self@.counted as int] && f.file_name@
                    == self@.names[self@.counted as int],
                None => self@.counted >= self@.clients.len(),
            },
    {
        if self.counted < self.files.len() {
            Some(&self.files[self.counted])
        } else {
            None
        }
    }

    /// The number of frames of the next segment, from what `ffprobe` left.
    pub fn read_segment_count(&self, output: ProcessOutput) -> (r: Result<u64, CombineError>)
        ensures
            match r {
                Ok(n) => self@.next_count(output.success, output.stdout@) == Ok::<
                    nat,
                    CombineErrorView,
                >(n as nat),
                Err(e) => self@.next_count(output.success, output.stdout@) == Err::<
                    nat,
                    CombineErrorView,
                >(e@),
            },
    {
        if !output.success {
            return Err(CombineError::SegmentCount(self.counted));
        }
        match read_count(output.stdout) {
            Ok(n) => Ok(n),
            Err(e) => Err(CombineError::Probe(e)),
        }
    }

    /// Notes that the next segment has `frames` frames.
    pub fn add_segment_count(&mut self, frames: u64)
        requires
            old(self)@.counted < old(self)@.clients.len(),
            old(self)@.total_frames + frames <= u64::MAX,
        ensures
            final(self)@ == old(self)@.counted(frames as nat),
    {
        assert(self.counted < self.files.len());
        self.counted += 1;
        self.total_frames += frames;
    }

    /// The frames in the segments that were counted.
    pub fn frames_so_far(&self) -> (r: u64)
        ensures
            r == self@.total_frames,
    {
        self.total_frames
    }

    /// Whether the combined video has the frames of its segments, from what
    /// `ffprobe` printed of it.
    pub fn check_total(&self, stdout: Vec<u8>) -> (r: Result<(), CombineError>)
        ensures
            match r {
                Ok(()) => self@.verdict(stdout@) == Ok::<(), CombineErrorView>(()),
                Err(e) => self@.verdict(stdout@) == Err::<(), CombineErrorView>(e@),
            },
    {
        match read_count(stdout) {
            Ok(got) => if got != self.total_frames {
                Err(CombineError::Mismatch { expected: self.total_frames, got })
            } else {
                Ok(())
            },
            Err(e) => Err(CombineError::Probe(e)),
        }
    }
}

/// Whether `ffmpeg` combined the segments.
pub fn check_combine(output: &ProcessOutput) -> (r: Result<(), CombineError>)
    ensures
        match r {
            Ok(()) => output.success,
            Err(e) => !output.success && e@ == CombineErrorView::Combine(
                lossy_text(output.stderr@),
            ),
        },
{
    if output.success {
        Ok(())
    } else {
        Err(CombineError::Combine(printed(&output.stderr)))
    }
}

/// The list of files that `ffmpeg` is to put one after the other.
pub open spec fn concat_list_of(paths: Seq<Seq<char>>) -> Seq<char>
    decreases paths.len(),
{
    if paths.len() == 0 {
        Seq::empty()
    } else {
        concat_list_of(paths.drop_last()) + "file '"@ + paths.last() + "'\n"@
    }
}

/// The list of files that `ffmpeg` is to put one after the other.
pub fn concat_list(paths: &Vec<String>) -> (r: String)
    ensures
        r@ == concat_list_of(texts(paths@)),
{
    let mut out = String::new();
    let ghost all = texts(paths@);
    let mut i: usize = 0;
    assert(all.take(0) =~= Seq::empty());
    while i < paths.len()
        invariant
            all == texts(paths@),
            i <= paths.len(),
            out@ == concat_list_of(all.take(i as int)),
        decreases paths.len() - i,
    {
        assert(all.take(i + 1).drop_last() =~= all.take(i as int));
        assert(all.take(i + 1).last() == paths@[i as int]@);
        out.append("file '");
        out.append(paths[i].as_str());
        out.append("'\n");
        i += 1;
    }
    assert(all.take(all.len() as int) =~= all);
    out
}

/// The arguments with which `ffmpeg` combines the listed files.
pub open spec fn combine_args_of(concat_file: Seq<char>, output_file: Seq<char>) -> Seq<Seq<char>> {
    seq![
        "-y"@,
        "-f"@,
        "concat"@,
        "-safe"@,
        "0"@,
        "-i"@,
        concat_file,
        "-vsync"@,
        "0"@,
        "-c"@,
        "copy"@,
        output_file,
    ]
}

/// The arguments with which `ffmpeg` combines the listed files.
pub fn combine_args(concat_file: &str, output_file: &str) -> (r: Vec<String>)
    ensures
        texts(r@) == combine_args_of(concat_file@, output_file@),
{
    let r = strings(
        vec![
            "-y",
            "-f",
            "concat",
            "-safe",
            "0",
            "-i",
            concat_file,
            "-vsync",
            "0",
            "-c",
            "copy",
            output_file,
        ],
    );
    assert(texts(r@) =~= combine_args_of(concat_file@, output_file@));
    r
}

/// The sum of a list of numbers.
pub open spec fn sum(v: Seq<nat>) -> nat
    decreases v.len(),
{
    if v.len() == 0 {
        0
    } else {
        sum(v.drop_last()) + v.last()
    }
}

/// A combined video is accepted exactly if it has as many frames as its
/// segments have together.
pub proof fn law_no_frame_lost(s: SegmentsView, c: CombinationView, frames: Seq<nat>, printed: Seq<u8>)
    requires
        is_start(s, c),
        frames.len() == c.clients.len(),
    ensures
        c.all_counted(frames).total_frames == sum(frames),
        c.all_counted(frames).counted == c.clients.len(),
        c.all_counted(frames).verdict(printed) is Ok <==> printed_count(printed) == Ok::<
            nat,
            ProbeErrorView,
        >(sum(frames)),
{
    lemma_all_counted(c, frames);
}

proof fn lemma_all_counted(c: CombinationView, frames: Seq<nat>)
    requires
        c.counted == 0,
        c.total_frames == 0,
    ensures
        c.all_counted(frames).total_frames == sum(frames),
        c.all_counted(frames).counted == frames.len(),
    decreases frames.len(),
{
    if frames.len() > 0 {
        lemma_all_counted(c, frames.drop_last());
    }
}

/// What was cut into segments is put together again in order. Let each of
/// `clients` have sent back, under the name that it got it by, the segment of
/// its range of the video's frames. Then every segment is combined, the `j`th
/// file starts where the `j`th range does, and a file with frames ends before any
/// later one with frames starts. With a frame for each client, the files follow
/// each other as the clients do: the first starts at the first frame, each starts
/// where the one before it ends, and the last ends with the video.
pub proof fn law_segments_recombine_in_order(
    s: SegmentsView,
    c: CombinationView,
    clients: Seq<Seq<char>>,
    speeds: Seq<Fps>,
    uniques: Seq<Seq<char>>,
    total: nat,
)
    requires
        is_start(s, c),
        total <= u64::MAX,
        clients.len() > 0,
        clients.no_duplicates(),
        clients.to_set() == s.segments.dom(),
        speeds.len() == clients.len(),
        uniques.len() == clients.len(),
        forall|i: int|
            0 <= i < clients.len() ==> is_uuid(uniques[i])
                && s.segments[#[trigger] clients[i]].segment_id == segment_name(
                frame_ranges(total, speeds)[i].0 as nat,
                uniques[i],
            ),
    ensures
        ({
            let n = clients.len();
            let ranges = frame_ranges(total, speeds);
            &&& c.clients.len() == n
            &&& forall|j: int|
                0 <= j < n ==> clients.contains(#[trigger] c.clients[j]) && range_of(
                    clients,
                    ranges,
                    c.clients[j],
                ).0 == ranges[j].0
            &&& forall|i: int, j: int|
                0 <= i < j < n && frames_in(range_of(clients, ranges, #[trigger] c.clients[i])) > 0
                    && frames_in(range_of(clients, ranges, #[trigger] c.clients[j])) > 0
                    ==> range_of(clients, ranges, c.clients[i]).1 <= range_of(
                    clients,
                    ranges,
                    c.clients[j],
                ).0
            &&& n <= total ==> c.clients == clients
            &&& ranges[0].0 == 0
            &&& ranges.last().1 == total
            &&& forall|j: int| 0 <= j < n - 1 ==> (#[trigger] ranges[j]).1 == ranges[j + 1].0
        }),
{
    let n = clients.len();
    let ranges = frame_ranges(total, speeds);
    lemma_range_ends(total, speeds);
    let places = lemma_places(s, c, clients);
    assert forall|j: int| 0 <= j < n implies s.frame(#[trigger] c.clients[j]) == range_start(
        total,
        speeds,
        places[j],
    ) by {
        let i = places[j];
        assert(clients[i] == c.clients[j]);
        lemma_range_monotone(total, speeds, 0, i);
        lemma_range_monotone(total, speeds, i, n as int);
        law_name_tells_frame(ranges[i].0 as nat, uniques[i]);
    }
    assert forall|i: int, j: int| 0 <= i < j < n implies range_start(
        total,
        speeds,
        #[trigger] places[i],
    ) <= range_start(total, speeds, #[trigger] places[j]) by {
        assert(s.frame(c.clients[i]) <= s.frame(c.clients[j]));
    }
    assert forall|j: int| 0 <= j < n implies range_start(total, speeds, #[trigger] places[j])
        == range_start(total, speeds, j) by {
        lemma_sorted_ranges(total, speeds, places, j);
    }
    assert forall|j: int| 0 <= j < n implies clients.contains(#[trigger] c.clients[j]) && range_of(
        clients,
        ranges,
        c.clients[j],
    ).0 == ranges[j].0 by {
        assert(clients[places[j]] == c.clients[j]);
    }
    assert forall|i: int, j: int|
        0 <= i < j < n && frames_in(range_of(clients, ranges, #[trigger] c.clients[i])) > 0
            && frames_in(range_of(clients, ranges, #[trigger] c.clients[j])) > 0 implies range_of(
        clients,
        ranges,
        c.clients[i],
    ).1 <= range_of(clients, ranges, c.clients[j]).0 by {
        let p = places[i];
        let q = places[j];
        assert(p != q);
        if p < q {
            lemma_range_monotone(total, speeds, p + 1, q);
        } else {
            lemma_range_monotone(total, speeds, q + 1, p);
        }
    }
    if n <= total {
        assert forall|j: int| 0 <= j < n implies c.clients[j] == clients[j] by {
            let p = places[j];
            if p < j {
                law_ranges_start_in_order(total, speeds, p, j);
            } else if j < p {
                law_ranges_start_in_order(total, speeds, j, p);
            }
            assert(clients[p] == c.clients[j]);
        }
        assert(c.clients =~= clients);
    }
}

/// The range of a client, `ranges` being those of `clients`.
pub open spec fn range_of(
    clients: Seq<Seq<char>>,
    ranges: Seq<(int, int)>,
    client: Seq<char>,
) -> (int, int) {
    ranges[clients.index_of(client)]
}

proof fn lemma_places(s: SegmentsView, c: CombinationView, clients: Seq<Seq<char>>) -> (places: Seq<
    int,
>)
    requires
        is_start(s, c),
        clients.no_duplicates(),
        clients.to_set() == s.segments.dom(),
    ensures
        c.clients.len() == clients.len(),
        places.len() == clients.len(),
        places.no_duplicates(),
        forall|j: int|
            0 <= j < clients.len() ==> 0 <= #[trigger] places[j] < clients.len()
                && clients[places[j]] == c.clients[j] && places[j] == clients.index_of(
                c.clients[j],
            ),
{
    let n = clients.len();
    clients.unique_seq_to_set();
    c.clients.unique_seq_to_set();
    assert(c.clients.to_set() =~= clients.to_set()) by {
        assert forall|x: Seq<char>| c.clients.to_set().contains(x) <==> clients.to_set().contains(
            x,
        ) by {
            assert(c.clients.contains(x) <==> s.segments.contains_key(x));
        }
    }
    let places = Seq::new(n, |j: int| clients.index_of(c.clients[j]));
    assert forall|j: int| 0 <= j < n implies 0 <= #[trigger] places[j] < n && clients[places[j]]
        == c.clients[j] by {
        assert(c.clients.to_set().contains(c.clients[j]));
        assert(clients.to_set().contains(c.clients[j]));
    }
    assert forall|i: int, j: int| 0 <= i < n && 0 <= j < n && i != j implies places[i]
        != places[j] by {
        assert(clients[places[i]] == c.clients[i]);
        assert(clients[places[j]] == c.clients[j]);
        assert(c.clients[i] != c.clients[j]);
    }
    places
}

proof fn lemma_sum_of_ranges(total: nat, speeds: Seq<Fps>, k: int)
    requires
        0 <= k <= speeds.len(),
    ensures
        sum(Seq::new(k as nat, |i: int| share(total, speeds, i))) == range_start(total, speeds, k),
    decreases k,
{
    if k > 0 {
        lemma_sum_of_ranges(total, speeds, k - 1);
        let shares = Seq::new(k as nat, |i: int| share(total, speeds, i));
        assert(shares.drop_last() =~= Seq::new(
            (k - 1) as nat,
            |i: int| share(total, speeds, i),
        ));
    }
}

proof fn lemma_sum_without(v: Seq<nat>, q: int)
    requires
        0 <= q < v.len(),
    ensures
        sum(v) == sum(v.remove(q)) + v[q],
    decreases v.len(),
{
    if q == v.len() - 1 {
        assert(v.remove(q) =~= v.drop_last());
    } else {
        lemma_sum_without(v.drop_last(), q);
        assert(v.remove(q).drop_last() =~= v.drop_last().remove(q));
        assert(v.remove(q).last() == v.last());
    }
}

proof fn lemma_sum_in_any_order(v: Seq<nat>, places: Seq<int>)
    requires
        places.len() == v.len(),
        places.no_duplicates(),
        forall|j: int| 0 <= j < places.len() ==> 0 <= #[trigger] places[j] < v.len(),
    ensures
        sum(Seq::new(v.len(), |j: int| v[places[j]])) == sum(v),
    decreases v.len(),
{
    let n = v.len();
    let mixed = Seq::new(n, |j: int| v[places[j]]);
    if n == 0 {
        assert(mixed =~= v);
    } else {
        if forall|j: int| 0 <= j < n ==> #[trigger] places[j] < n - 1 {
            lemma_few_places(places, 0, n - 1);
        }
        let q = choose|j: int| 0 <= j < n && #[trigger] places[j] >= n - 1;
        let rest = places.remove(q);
        let front = v.drop_last();
        assert forall|j: int| 0 <= j < rest.len() implies 0 <= #[trigger] rest[j] < front.len() by {
            let k = if j < q { j } else { j + 1 };
            assert(rest[j] == places[k]);
            assert(places[k] != places[q]);
        }
        assert(rest.no_duplicates());
        lemma_sum_in_any_order(front, rest);
        lemma_sum_without(mixed, q);
        assert(mixed.remove(q) =~= Seq::new(front.len(), |j: int| front[rest[j]]));
    }
}

/// If each of `clients` has sent back a segment with the frames of its range, the
/// combined video is accepted exactly if it has all frames of the video that was
/// cut.
pub proof fn law_whole_video_comes_back(
    s: SegmentsView,
    c: CombinationView,
    clients: Seq<Seq<char>>,
    speeds: Seq<Fps>,
    total: nat,
    frames: Seq<nat>,
    printed: Seq<u8>,
)
    requires
        is_start(s, c),
        clients.len() > 0,
        clients.no_duplicates(),
        clients.to_set() == s.segments.dom(),
        speeds.len() == clients.len(),
        frames.len() == c.clients.len(),
        forall|j: int|
            0 <= j < frames.len() ==> #[trigger] frames[j] == frames_in(
                range_of(clients, frame_ranges(total, speeds), c.clients[j]),
            ),
    ensures
        c.all_counted(frames).total_frames == total,
        c.all_counted(frames).verdict(printed) is Ok <==> printed_count(printed) == Ok::<
            nat,
            ProbeErrorView,
        >(total),
{
    let n = clients.len();
    let places = lemma_places(s, c, clients);
    let shares = Seq::new(n, |i: int| share(total, speeds, i));
    lemma_all_counted(c, frames);
    lemma_range_ends(total, speeds);
    lemma_sum_of_ranges(total, speeds, n as int);
    lemma_sum_in_any_order(shares, places);
    assert(frames =~= Seq::new(n, |j: int| shares[places[j]])) by {
        assert forall|j: int| 0 <= j < n implies frames[j] == shares[places[j]] by {
            let i = places[j];
            assert(frame_ranges(total, speeds)[i] == (
                range_start(total, speeds, i) as int,
                range_start(total, speeds, i + 1) as int,
            ));
        }
    }
}

} // verus!
