//! Putting texts into a list one by one, each at its place by a number.

use vstd::prelude::*;

verus! {

/// No number is followed by a smaller one.
pub open spec fn sorted(keys: Seq<int>) -> bool {
    forall|i: int, j: int| 0 <= i < j < keys.len() ==> keys[i] <= keys[j]
}

/// `ids` holds each text of `all` once.
pub open spec fn lists(ids: Seq<Seq<char>>, all: Seq<Seq<char>>) -> bool {
    &&& ids.no_duplicates()
    &&& forall|c: Seq<char>| ids.contains(c) <==> all.contains(c)
}

/// Let `ids` hold each of the first `i` texts of `all` once, sorted by `keys`. If
/// the next text is put in at its place by `key`, the list holds each of the first
/// `i + 1` texts once and is sorted.
pub proof fn lemma_put_in(
    all: Seq<Seq<char>>,
    i: int,
    ids: Seq<Seq<char>>,
    keys: Seq<int>,
    at: int,
    key: int,
)
    requires
        all.no_duplicates(),
        0 <= i < all.len(),
        lists(ids, all.take(i)),
        ids.len() == keys.len(),
        sorted(keys),
        0 <= at <= keys.len(),
        at > 0 ==> keys[at - 1] <= key,
        at < keys.len() ==> key <= keys[at],
    ensures
        lists(ids.insert(at, all[i]), all.take(i + 1)),
        sorted(keys.insert(at, key)),
{
    let id = all[i];
    let prev = all.take(i);
    let next = all.take(i + 1);
    if ids.contains(id) {
        let j = prev.index_of(id);
        assert(all[j] == all[i]);
    }
    let t = ids.insert(at, id);
    assert(t[at] == id);
    assert forall|c: Seq<char>| t.contains(c) <==> (ids.contains(c) || c == id) by {
        if ids.contains(c) {
            let k = ids.index_of(c);
            assert(t[if k < at { k } else { k + 1 }] == c);
        }
        if t.contains(c) {
            let k = t.index_of(c);
            if k != at {
                assert(ids[if k < at { k } else { k - 1 }] == c);
            }
        }
    }
    assert forall|c: Seq<char>| t.contains(c) <==> next.contains(c) by {
        assert(ids.contains(c) <==> prev.contains(c));
        if prev.contains(c) {
            assert(next[prev.index_of(c)] == c);
        }
        assert(next[i] == id);
        if next.contains(c) {
            let k = next.index_of(c);
            if k < i {
                assert(prev[k] == c);
            }
        }
    }
    assert forall|j: int, k: int| 0 <= j < t.len() && 0 <= k < t.len() && j != k implies t[j]
        != t[k] by {
        let sj = if j < at { j } else { j - 1 };
        let sk = if k < at { k } else { k - 1 };
        if j == at {
            assert(ids.contains(ids[sk]));
        } else if k == at {
            assert(ids.contains(ids[sj]));
        } else {
            assert(ids[sj] != ids[sk]);
        }
    }
}

} // verus!
