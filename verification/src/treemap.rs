//! What is believed of `roaring::RoaringTreemap`, the compressed set of node
//! ids: its contents as a mathematical set, and what each operation does to it.
use roaring::treemap::Iter;
use roaring::RoaringTreemap;
use vstd::prelude::*;

use crate::ids::{is_highest, is_lowest};

verus! {

/// `roaring::RoaringTreemap`, a compressed set of `u64` values.
#[verifier::external_type_specification]
#[verifier::external_body]
pub struct ExRoaringTreemap(RoaringTreemap);

/// `roaring::treemap::Iter`, a walk over the values of a treemap.
#[verifier::external_type_specification]
#[verifier::external_body]
pub struct ExIter<'a>(Iter<'a>);

/// The values that a treemap holds.
pub uninterp spec fn contents(map: RoaringTreemap) -> Set<u64>;

/// The values that a walk has still to hand out, in the order in which they come.
pub uninterp spec fn upcoming(iter: Iter<'_>) -> Seq<u64>;

/// `RoaringTreemap::new`: a new treemap holds nothing.
pub assume_specification[ RoaringTreemap::new ]() -> (map: RoaringTreemap)
    ensures
        contents(map) == Set::<u64>::empty(),
;

/// `RoaringTreemap::contains`: whether the treemap holds `value`.
pub assume_specification[ RoaringTreemap::contains ](map: &RoaringTreemap, value: u64) -> (r: bool)
    ensures
        r == contents(*map).contains(value),
;

/// `RoaringTreemap::insert`: adds `value`, and tells whether it was not there
/// before.
pub assume_specification[ RoaringTreemap::insert ](map: &mut RoaringTreemap, value: u64) -> (r: bool)
    ensures
        contents(*final(map)) == contents(*old(map)).insert(value),
        r == !contents(*old(map)).contains(value),
;

/// `RoaringTreemap::len`: how many values the treemap holds. It sums up in `u64`,
/// which the number of all `u64` values, and no smaller one, overflows.
pub assume_specification[ RoaringTreemap::len ](map: &RoaringTreemap) -> (n: u64)
    requires
        contents(*map).len() <= u64::MAX,
    ensures
        n == contents(*map).len(),
;

/// `RoaringTreemap::min`: the lowest value, unless the treemap is empty.
pub assume_specification[ RoaringTreemap::min ](map: &RoaringTreemap) -> (r: Option<u64>)
    ensures
        match r {
            Some(id) => is_lowest(contents(*map), id),
            None => contents(*map) == Set::<u64>::empty(),
        },
;

/// `RoaringTreemap::max`: the highest value, unless the treemap is empty.
pub assume_specification[ RoaringTreemap::max ](map: &RoaringTreemap) -> (r: Option<u64>)
    ensures
        match r {
            Some(id) => is_highest(contents(*map), id),
            None => contents(*map) == Set::<u64>::empty(),
        },
;

/// `RoaringTreemap::iter`: a walk that hands out every value of the treemap and
/// nothing else, each once, from the lowest up.
pub assume_specification<'a>[ RoaringTreemap::iter ](map: &'a RoaringTreemap) -> (iter: Iter<'a>)
    ensures
        upcoming(iter).to_set() == contents(*map),
        forall|i: int, j: int|
            0 <= i < j < upcoming(iter).len() ==> upcoming(iter)[i] < upcoming(iter)[j],
;

/// `<roaring::treemap::Iter as Iterator>::next`: hands out the first of the
/// upcoming values, or `None` once there are none, and then stays at the end.
#[verifier::external_body]
pub(crate) fn next_id(iter: &mut Iter<'_>) -> (r: Option<u64>)
    ensures
        match r {
            Some(id) => upcoming(*old(iter)).len() > 0 && id == upcoming(*old(iter)).first()
                && upcoming(*final(iter)) == upcoming(*old(iter)).drop_first(),
            None => upcoming(*old(iter)).len() == 0 && upcoming(*final(iter)).len() == 0,
        },
{
    iter.next()
}

/// `<RoaringTreemap as BitOrAssign<&RoaringTreemap>>::bitor_assign`: adds every
/// value of `other` to `map`.
#[verifier::external_body]
pub(crate) fn unite(map: &mut RoaringTreemap, other: &RoaringTreemap)
    ensures
        contents(*final(map)) == contents(*old(map)).union(contents(*other)),
{
    *map |= other;
}

/// `<&RoaringTreemap as Sub<&RoaringTreemap>>::sub`: the values of `map` that
/// `other` does not hold.
#[verifier::external_body]
pub(crate) fn difference(map: &RoaringTreemap, other: &RoaringTreemap) -> (r: RoaringTreemap)
    ensures
        contents(r) == contents(*map).difference(contents(*other)),
{
    map - other
}

} // verus!
