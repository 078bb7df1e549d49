//! Sets of node ids: the vocabulary of the contracts, and how a set's size
//! relates to the range it lies in.
use vstd::prelude::*;

verus! {

/// The ids from `lo` up to, and without, `hi`.
pub open spec fn interval(lo: int, hi: int) -> Set<u64> {
    Set::new(|id: u64| lo <= id < hi)
}

/// `id` is in `ids`, and nothing in `ids` is below it.
pub open spec fn is_lowest(ids: Set<u64>, id: u64) -> bool {
    &&& ids.contains(id)
    &&& forall|other: u64| #[trigger] ids.contains(other) ==> id <= other
}

/// `id` is in `ids`, and nothing in `ids` is above it.
pub open spec fn is_highest(ids: Set<u64>, id: u64) -> bool {
    &&& ids.contains(id)
    &&& forall|other: u64| #[trigger] ids.contains(other) ==> other <= id
}

/// The ids of `ids` that are at or above `bound`.
pub open spec fn from_bound(ids: Set<u64>, bound: u64) -> Set<u64> {
    ids.filter(|id: u64| bound <= id)
}

/// An interval holds as many ids as its ends are apart.
pub proof fn lemma_interval_len(lo: int, hi: int)
    requires
        0 <= lo <= hi <= u64::MAX + 1,
    ensures
        interval(lo, hi).finite(),
        interval(lo, hi).len() == hi - lo,
    decreases hi - lo,
{
    if lo == hi {
        assert(interval(lo, hi) =~= Set::<u64>::empty());
    } else {
        lemma_interval_len(lo, hi - 1);
        assert(interval(lo, hi) =~= interval(lo, hi - 1).insert((hi - 1) as u64));
    }
}

/// Ids within an interval are at most as many as it holds, and as many only
/// if they are all of it.
pub proof fn lemma_len_within_interval(ids: Set<u64>, lo: int, hi: int)
    requires
        0 <= lo <= hi <= u64::MAX + 1,
        ids.subset_of(interval(lo, hi)),
    ensures
        ids.finite(),
        ids.len() <= hi - lo,
        ids.len() == hi - lo ==> ids == interval(lo, hi),
{
    lemma_interval_len(lo, hi);
    vstd::set_lib::lemma_len_subset(ids, interval(lo, hi));
    if ids.len() == hi - lo {
        vstd::set_lib::lemma_subset_equality(ids, interval(lo, hi));
    }
}

/// Every set of ids is finite.
pub proof fn lemma_ids_finite(ids: Set<u64>)
    ensures
        ids.finite(),
{
    lemma_len_within_interval(ids, 0, u64::MAX + 1);
}

/// Every non-empty set of ids has a highest one.
pub proof fn lemma_highest_exists(ids: Set<u64>) -> (highest: u64)
    requires
        ids != Set::<u64>::empty(),
    ensures
        is_highest(ids, highest),
    decreases ids.len(),
{
    lemma_ids_finite(ids);
    let id = ids.choose();
    assert(ids.contains(id)) by {
        if ids.len() == 0 {
            ids.lemma_len0_is_empty();
        }
    }
    let rest = ids.remove(id);
    if rest == Set::<u64>::empty() {
        assert forall|other: u64| #[trigger] ids.contains(other) implies other <= id by {
            if other != id {
                assert(rest.contains(other));
            }
        }
        id
    } else {
        let below = lemma_highest_exists(rest);
        let highest = if below < id {
            id
        } else {
            below
        };
        assert forall|other: u64| #[trigger] ids.contains(other) implies other <= highest by {
            if other != id {
                assert(rest.contains(other));
            }
        }
        highest
    }
}

} // verus!
