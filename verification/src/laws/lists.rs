//! Runs of texts within lists.

use vstd::prelude::*;

verus! {

/// The texts of `run` stand in `list`, one after the other, from place `at` on.
pub open spec fn run_at(list: Seq<Seq<char>>, at: int, run: Seq<Seq<char>>) -> bool {
    &&& 0 <= at
    &&& at + run.len() <= list.len()
    &&& forall|i: int| 0 <= i < run.len() ==> list[at + i] == #[trigger] run[i]
}

/// A list is `run`, and nothing else.
pub open spec fn is_run(list: Seq<Seq<char>>, run: Seq<Seq<char>>) -> bool {
    list.len() == run.len() && run_at(list, 0, run)
}

} // verus!
