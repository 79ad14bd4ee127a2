//! Cutting a video into frame ranges, one for each client: all get as many frames,
//! but for the frames that are left over, of which the fastest get one each.

use crate::models::measure::Fps;
use vstd::arithmetic::div_mod::lemma_fundamental_div_mod;
use vstd::prelude::*;
use vstd::relations::injective_on;
use vstd::set_lib::{
    lemma_int_range, lemma_len_subset, lemma_map_size, lemma_set_disjoint_lens, set_int_range,
};

verus! {

/// The frames from `start` up to, and without, `end`.
#[derive(Clone, Copy, Debug, PartialEq, Eq, Structural)]
pub struct FrameRange {
    pub start: u64,
    pub end: u64,
}

/// The `i`th client goes before the `j`th: it is faster, or as fast and named
/// first. Speeds above zero are ordered as their bits are.
pub open spec fn ahead(speeds: Seq<Fps>, i: int, j: int) -> bool {
    speeds[i].bits > speeds[j].bits || (speeds[i].bits == speeds[j].bits && i < j)
}

/// Those of the first `k` clients that go before the `j`th.
pub open spec fn ahead_among(speeds: Seq<Fps>, k: int, j: int) -> Set<int> {
    Set::new(|i: int| 0 <= i < k && ahead(speeds, i, j))
}

/// How many clients go before the `j`th.
pub open spec fn rank(speeds: Seq<Fps>, j: int) -> nat {
    ahead_among(speeds, speeds.len() as int, j).len()
}

/// The number of frames that the `i`th client gets: as many as every other, and
/// of the frames that are left over one each for the fastest.
pub open spec fn share(total: nat, speeds: Seq<Fps>, i: int) -> nat {
    total / speeds.len() + if rank(speeds, i) < total % speeds.len() {
        1nat
    } else {
        0
    }
}

/// The first frame of the `i`th client's range: that behind the frames of the
/// clients before it.
pub open spec fn range_start(total: nat, speeds: Seq<Fps>, i: int) -> nat
    decreases i,
{
    if i <= 0 {
        0
    } else {
        range_start(total, speeds, i - 1) + share(total, speeds, i - 1)
    }
}

/// The ranges into which clients of the given speeds divide `total` frames.
pub open spec fn frame_ranges(total: nat, speeds: Seq<Fps>) -> Seq<(int, int)> {
    Seq::new(
        speeds.len(),
        |i: int|
            (range_start(total, speeds, i) as int, range_start(total, speeds, i + 1) as int),
    )
}

/// The number of frames in a range.
pub open spec fn frames_in(range: (int, int)) -> int {
    range.1 - range.0
}

/// Frame `f` lies in a range.
pub open spec fn range_holds(range: (int, int), f: int) -> bool {
    range.0 <= f < range.1
}

/// Frame `f` lies in one of the ranges.
pub open spec fn some_range_holds(ranges: Seq<(int, int)>, f: int) -> bool {
    exists|i: int| 0 <= i < ranges.len() && #[trigger] range_holds(ranges[i], f)
}

/// What a list of ranges holds.
pub open spec fn bounds(v: Seq<FrameRange>) -> Seq<(int, int)> {
    v.map_values(|r: FrameRange| (r.start as int, r.end as int))
}

proof fn lemma_ahead_finite(speeds: Seq<Fps>, k: int, j: int)
    requires
        0 <= k,
    ensures
        ahead_among(speeds, k, j).finite(),
        ahead_among(speeds, k, j).len() <= k,
{
    lemma_int_range(0, k);
    assert(ahead_among(speeds, k, j).subset_of(set_int_range(0, k)));
    lemma_len_subset(ahead_among(speeds, k, j), set_int_range(0, k));
}

proof fn lemma_rank_in_bounds(speeds: Seq<Fps>, j: int)
    requires
        0 <= j < speeds.len(),
    ensures
        rank(speeds, j) < speeds.len(),
{
    let n = speeds.len() as int;
    lemma_int_range(0, n);
    let others = set_int_range(0, n).remove(j);
    assert(ahead_among(speeds, n, j).subset_of(others));
    lemma_len_subset(ahead_among(speeds, n, j), others);
}

/// A client that goes before another stands before it.
pub proof fn lemma_rank_rises(speeds: Seq<Fps>, i: int, j: int)
    requires
        0 <= i < speeds.len(),
        0 <= j < speeds.len(),
        ahead(speeds, i, j),
    ensures
        rank(speeds, i) < rank(speeds, j),
{
    let n = speeds.len() as int;
    let before = ahead_among(speeds, n, i);
    let after = ahead_among(speeds, n, j);
    lemma_ahead_finite(speeds, n, i);
    lemma_ahead_finite(speeds, n, j);
    assert(!before.contains(i));
    assert(before.insert(i).subset_of(after));
    lemma_len_subset(before.insert(i), after);
}

/// Those of the first `k` clients that less than `m` clients go before.
spec fn ranked_below(speeds: Seq<Fps>, k: int, m: int) -> Set<int> {
    Set::new(|i: int| 0 <= i < k && rank(speeds, i) < m)
}

proof fn lemma_ranked_below(speeds: Seq<Fps>, m: int)
    requires
        0 <= m <= speeds.len(),
    ensures
        ranked_below(speeds, speeds.len() as int, m).len() == m,
{
    let n = speeds.len() as int;
    let all = set_int_range(0, n);
    let below = ranked_below(speeds, n, m);
    let above = all.difference(below);
    let f = |i: int| rank(speeds, i) as int;
    lemma_int_range(0, n);
    lemma_int_range(0, m);
    lemma_int_range(m, n);
    assert(below.subset_of(all));
    lemma_len_subset(below, all);
    lemma_len_subset(above, all);
    assert forall|i: int, j: int| all.contains(i) && all.contains(j) && #[trigger] f(i)
        == #[trigger] f(j) implies i == j by {
        if i != j {
            if ahead(speeds, i, j) {
                lemma_rank_rises(speeds, i, j);
            } else {
                lemma_rank_rises(speeds, j, i);
            }
        }
    }
    assert(injective_on(f, below));
    assert(injective_on(f, above));
    lemma_map_size(below, below.map(f), f);
    lemma_map_size(above, above.map(f), f);
    assert(below.map(f).subset_of(set_int_range(0, m)));
    lemma_len_subset(below.map(f), set_int_range(0, m));
    assert forall|r: int| above.map(f).contains(r) implies m <= r < n by {
        let i = choose|i: int| above.contains(i) && f(i) == r;
        lemma_rank_in_bounds(speeds, i);
    }
    assert(above.map(f).subset_of(set_int_range(m, n)));
    lemma_len_subset(above.map(f), set_int_range(m, n));
    lemma_set_disjoint_lens(below, above);
    assert(below + above =~= all);
}

proof fn lemma_start_counts(total: nat, speeds: Seq<Fps>, k: int)
    requires
        0 <= k <= speeds.len(),
        speeds.len() > 0,
    ensures
        ranked_below(speeds, k, (total % speeds.len()) as int).finite(),
        range_start(total, speeds, k) == k * (total / speeds.len()) + ranked_below(
            speeds,
            k,
            (total % speeds.len()) as int,
        ).len(),
    decreases k,
{
    let rest = (total % speeds.len()) as int;
    let each = total / speeds.len();
    let now = ranked_below(speeds, k, rest);
    if k == 0 {
        assert(now =~= Set::empty());
        assert(0 * each == 0) by (nonlinear_arith);
    } else {
        lemma_start_counts(total, speeds, k - 1);
        let before = ranked_below(speeds, k - 1, rest);
        assert(!before.contains(k - 1));
        if rank(speeds, k - 1) < rest {
            assert(now =~= before.insert(k - 1));
        } else {
            assert(now =~= before);
        }
        assert(k * each == (k - 1) * each + each) by (nonlinear_arith);
    }
}

/// The first range starts at the first frame, and the last ends with the video.
pub proof fn lemma_range_ends(total: nat, speeds: Seq<Fps>)
    requires
        speeds.len() > 0,
    ensures
        range_start(total, speeds, 0) == 0,
        range_start(total, speeds, speeds.len() as int) == total,
{
    let n = speeds.len();
    assert(total % n < n) by (nonlinear_arith)
        requires
            n > 0,
    ;
    lemma_start_counts(total, speeds, n as int);
    lemma_ranked_below(speeds, (total % n) as int);
    lemma_fundamental_div_mod(total as int, n as int);
    assert(n * (total / n) == (total / n) * n) by (nonlinear_arith);
}

/// The ranges do not start earlier and earlier.
pub proof fn lemma_range_monotone(total: nat, speeds: Seq<Fps>, i: int, j: int)
    requires
        0 <= i <= j,
    ensures
        range_start(total, speeds, i) <= range_start(total, speeds, j),
    decreases j - i,
{
    if i < j {
        lemma_range_monotone(total, speeds, i, j - 1);
    }
}

/// Every frame of the video falls into exactly one range, and the ranges
/// stand in the order of the frames.
pub proof fn law_ranges_cover_every_frame_once(total: nat, speeds: Seq<Fps>)
    requires
        speeds.len() > 0,
    ensures
        ({
            let n = speeds.len();
            let ranges = frame_ranges(total, speeds);
            &&& ranges.len() == n
            &&& ranges[0].0 == 0
            &&& ranges[n - 1].1 == total
            &&& forall|i: int| 0 <= i < n - 1 ==> (#[trigger] ranges[i]).1 == ranges[i + 1].0
            &&& forall|i: int| 0 <= i < n ==> (#[trigger] ranges[i]).0 <= ranges[i].1
            &&& forall|f: int| 0 <= f < total ==> #[trigger] some_range_holds(ranges, f)
            &&& forall|f: int, i: int, j: int|
                0 <= i < n && 0 <= j < n && #[trigger] range_holds(ranges[i], f)
                    && #[trigger] range_holds(ranges[j], f) ==> i == j
        }),
{
    lemma_range_ends(total, speeds);
    let n = speeds.len();
    let rs = frame_ranges(total, speeds);
    assert forall|i: int| 0 <= i < n implies (#[trigger] rs[i]).0 <= rs[i].1 by {
        lemma_range_monotone(total, speeds, i, i + 1);
    }
    assert forall|f: int| 0 <= f < total implies #[trigger] some_range_holds(rs, f) by {
        lemma_some_range(total, speeds, n as int, f);
    }
    assert forall|f: int, i: int, j: int|
        0 <= i < n && 0 <= j < n && #[trigger] range_holds(rs[i], f) && #[trigger] range_holds(
            rs[j],
            f,
        ) implies i == j by {
        if i < j {
            lemma_range_monotone(total, speeds, i + 1, j);
        } else if j < i {
            lemma_range_monotone(total, speeds, j + 1, i);
        }
    }
}

proof fn lemma_some_range(total: nat, speeds: Seq<Fps>, m: int, f: int)
    requires
        0 <= m <= speeds.len(),
        0 <= f < range_start(total, speeds, m),
    ensures
        some_range_holds(frame_ranges(total, speeds), f),
    decreases m,
{
    if f < range_start(total, speeds, m - 1) {
        lemma_some_range(total, speeds, m - 1, f);
    } else {
        assert(range_holds(frame_ranges(total, speeds)[m - 1], f));
    }
}

/// The work goes by the clients' speeds: a faster client gets at least as many
/// frames as a slower one.
pub proof fn law_faster_clients_get_no_fewer_frames(total: nat, speeds: Seq<Fps>, i: int, j: int)
    requires
        0 <= i < speeds.len(),
        0 <= j < speeds.len(),
        speeds[i].bits > speeds[j].bits,
    ensures
        frames_in(frame_ranges(total, speeds)[i]) >= frames_in(frame_ranges(total, speeds)[j]),
{
    lemma_rank_rises(speeds, i, j);
}

/// Frames that are left over go to the fastest clients: a client that gets one
/// of them gets more frames than any that does not, and is no slower.
pub proof fn law_left_over_frames_go_to_the_fastest(
    total: nat,
    speeds: Seq<Fps>,
    i: int,
    j: int,
)
    requires
        0 <= i < speeds.len(),
        0 <= j < speeds.len(),
        frames_in(frame_ranges(total, speeds)[i]) > frames_in(frame_ranges(total, speeds)[j]),
    ensures
        speeds[i].bits >= speeds[j].bits,
        frames_in(frame_ranges(total, speeds)[i]) == total / speeds.len() + 1,
        frames_in(frame_ranges(total, speeds)[j]) == total / speeds.len(),
{
    if speeds[j].bits > speeds[i].bits {
        lemma_rank_rises(speeds, j, i);
    }
}

/// With at least one frame for each client, the ranges start at ever later frames.
pub proof fn law_ranges_start_in_order(total: nat, speeds: Seq<Fps>, i: int, j: int)
    requires
        0 < speeds.len() <= total,
        0 <= i < j < speeds.len(),
    ensures
        frame_ranges(total, speeds)[i].0 < frame_ranges(total, speeds)[j].0,
{
    let n = speeds.len();
    assert(total / n >= 1) by (nonlinear_arith)
        requires
            0 < n <= total,
    ;
    lemma_range_monotone(total, speeds, i + 1, j);
}

/// Places in a row are no more than there is room for.
pub proof fn lemma_few_places(places: Seq<int>, lo: int, hi: int)
    requires
        lo <= hi,
        places.no_duplicates(),
        forall|i: int| 0 <= i < places.len() ==> lo <= #[trigger] places[i] < hi,
    ensures
        places.len() <= hi - lo,
{
    places.unique_seq_to_set();
    lemma_int_range(lo, hi);
    assert(places.to_set().subset_of(set_int_range(lo, hi)));
    lemma_len_subset(places.to_set(), set_int_range(lo, hi));
}

/// The ranges that stand at some places, each place once, start where the
/// ranges in their order start if they are sorted by where they start.
pub proof fn lemma_sorted_ranges(total: nat, speeds: Seq<Fps>, places: Seq<int>, j: int)
    requires
        places.len() == speeds.len(),
        places.no_duplicates(),
        forall|i: int| 0 <= i < places.len() ==> 0 <= #[trigger] places[i] < places.len(),
        forall|i: int, k: int|
            0 <= i < k < places.len() ==> range_start(total, speeds, #[trigger] places[i])
                <= range_start(total, speeds, #[trigger] places[k]),
        0 <= j < places.len(),
    ensures
        range_start(total, speeds, places[j]) == range_start(total, speeds, j),
{
    let n = places.len();
    let front = places.take(j + 1);
    let back = places.skip(j);
    if forall|i: int| 0 <= i <= j ==> #[trigger] places[i] < j {
        assert forall|i: int| 0 <= i < front.len() implies 0 <= #[trigger] front[i] < j by {
            assert(front[i] == places[i]);
        }
        lemma_few_places(front, 0, j);
    }
    let i = choose|i: int| 0 <= i <= j && #[trigger] places[i] >= j;
    lemma_range_monotone(total, speeds, j, places[i]);
    if forall|k: int| j <= k < n ==> #[trigger] places[k] > j {
        assert forall|k: int| 0 <= k < back.len() implies j + 1 <= #[trigger] back[k] < n by {
            assert(back[k] == places[k + j]);
        }
        lemma_few_places(back, j + 1, n as int);
    }
    let k = choose|k: int| j <= k < n && #[trigger] places[k] <= j;
    lemma_range_monotone(total, speeds, places[k], j);
}

fn rank_of(speeds: &Vec<Fps>, j: usize) -> (r: usize)
    requires
        j < speeds.len(),
    ensures
        r == rank(speeds@, j as int),
{
    let mut count: usize = 0;
    let mut i: usize = 0;
    assert(ahead_among(speeds@, 0, j as int) =~= Set::empty());
    while i < speeds.len()
        invariant
            j < speeds.len(),
            i <= speeds.len(),
            count == ahead_among(speeds@, i as int, j as int).len(),
        decreases speeds.len() - i,
    {
        let ghost before = ahead_among(speeds@, i as int, j as int);
        let ghost now = ahead_among(speeds@, i + 1, j as int);
        proof {
            lemma_ahead_finite(speeds@, i as int, j as int);
            assert(!before.contains(i as int));
        }
        if speeds[i].bits > speeds[j].bits || (speeds[i].bits == speeds[j].bits && i < j) {
            assert(now =~= before.insert(i as int));
            count += 1;
        } else {
            assert(now =~= before);
        }
        i += 1;
    }
    count
}

/// The ranges into which clients of the given speeds divide `total_frames`
/// frames.
pub fn divide_frames(total_frames: u64, speeds: &Vec<Fps>) -> (r: Vec<FrameRange>)
    requires
        speeds.len() > 0,
    ensures
        bounds(r@) == frame_ranges(total_frames as nat, speeds@),
{
    let ghost total = total_frames as nat;
    let ghost n = speeds@.len();
    let clients: u64 = speeds.len() as u64;
    let per_client: u64 = total_frames / clients;
    let left_over: u64 = total_frames % clients;
    let mut out: Vec<FrameRange> = Vec::new();
    let mut current: u64 = 0;
    let mut i: usize = 0;
    while i < speeds.len()
        invariant
            n == speeds@.len(),
            n > 0,
            total == total_frames,
            i <= speeds.len(),
            per_client == total / n,
            left_over == total % n,
            current == range_start(total, speeds@, i as int),
            bounds(out@) == frame_ranges(total, speeds@).take(i as int),
        decreases speeds.len() - i,
    {
        proof {
            lemma_range_ends(total, speeds@);
            lemma_range_monotone(total, speeds@, i + 1, n as int);
        }
        let mut frames: u64 = per_client;
        if (rank_of(speeds, i) as u64) < left_over {
            assert(share(total, speeds@, i as int) == per_client + 1);
            frames += 1;
        }
        let start: u64 = current;
        let end: u64 = start + frames;
        current = end;
        out.push(FrameRange { start, end });
        assert(bounds(out@) =~= frame_ranges(total, speeds@).take(i as int).push(
            frame_ranges(total, speeds@)[i as int],
        ));
        assert(bounds(out@) =~= frame_ranges(total, speeds@).take(i + 1));
        i += 1;
    }
    assert(frame_ranges(total, speeds@).take(n as int) =~= frame_ranges(total, speeds@));
    out
}

} // verus!
