//! The `rangemap` crate's `RangeMap<usize, usize>`, seen through the keys it
//! covers: every covered key is mapped to the value of the range covering it.

use rangemap::RangeMap;
use vstd::prelude::*;

verus! {

#[verifier::external_type_specification]
#[verifier::external_body]
#[verifier::reject_recursive_types(K)]
#[verifier::reject_recursive_types(V)]
pub struct ExRangeMap<K, V>(RangeMap<K, V>);

/// The keys that a range map covers, each mapped to the value of the stored
/// range that covers it.
pub uninterp spec fn range_map_points(m: RangeMap<usize, usize>) -> Map<usize, usize>;

/// `pts` after every key of `start..end` has been mapped to `v`.
pub open spec fn points_after_insert(pts: Map<usize, usize>, start: usize, end: usize, v: usize) -> Map<usize, usize> {
    Map::new(
        |k: usize| pts.dom().contains(k) || (start <= k && k < end),
        |k: usize|
            if start <= k && k < end {
                v
            } else {
                pts[k]
            },
    )
}

/// `start..end` is a maximal run of keys within `lo..hi` that `pts` does not cover.
pub open spec fn is_gap(pts: Map<usize, usize>, lo: int, hi: int, start: int, end: int) -> bool {
    &&& lo <= start < end <= hi
    &&& forall|k: usize| start <= k < end ==> !#[trigger] pts.dom().contains(k)
    &&& (start == lo || pts.dom().contains((start - 1) as usize))
    &&& (end == hi || pts.dom().contains(end as usize))
}

/// `gaps` lists, in ascending order, every maximal uncovered run within `lo..hi`.
pub open spec fn are_gaps(pts: Map<usize, usize>, lo: int, hi: int, gaps: Seq<(usize, usize)>) -> bool {
    &&& forall|i: int| 0 <= i < gaps.len() ==> is_gap(pts, lo, hi, #[trigger] gaps[i].0 as int, gaps[i].1 as int)
    &&& forall|i: int, j: int| 0 <= i < j < gaps.len() ==> (#[trigger] gaps[i]).1 < (#[trigger] gaps[j]).0
    &&& forall|k: usize|
        lo <= k < hi && !#[trigger] pts.dom().contains(k) ==> exists|i: int|
            0 <= i < gaps.len() && (#[trigger] gaps[i]).0 <= k < gaps[i].1
}

/// `start..end` is a maximal run of consecutive keys that `pts` maps to `v`.
pub open spec fn is_run(pts: Map<usize, usize>, start: int, end: int, v: usize) -> bool {
    &&& 0 <= start < end <= usize::MAX
    &&& forall|k: usize| start <= k < end ==> #[trigger] pts.dom().contains(k) && pts[k] == v
    &&& !(start > 0 && pts.dom().contains((start - 1) as usize) && pts[(start - 1) as usize] == v)
    &&& !(pts.dom().contains(end as usize) && pts[end as usize] == v)
}

/// `runs` lists, in ascending order, every maximal run of equally-mapped keys.
pub open spec fn are_runs(pts: Map<usize, usize>, runs: Seq<(usize, usize, usize)>) -> bool {
    &&& forall|i: int| 0 <= i < runs.len() ==> is_run(pts, #[trigger] runs[i].0 as int, runs[i].1 as int, runs[i].2)
    &&& forall|i: int, j: int| 0 <= i < j < runs.len() ==> (#[trigger] runs[i]).1 <= (#[trigger] runs[j]).0
    &&& forall|k: usize|
        #[trigger] pts.dom().contains(k) ==> exists|i: int|
            0 <= i < runs.len() && (#[trigger] runs[i]).0 <= k < runs[i].1
}

/// Calls `RangeMap::new`, which makes a map that covers no key.
#[verifier::external_body]
pub(crate) fn range_map_new() -> (r: RangeMap<usize, usize>)
    ensures
        range_map_points(r).dom() == Set::<usize>::empty(),
{
    RangeMap::new()
}

/// Whether some key of `start..end` is covered.
pub open spec fn covers_some(pts: Map<usize, usize>, start: int, end: int) -> bool {
    exists|k: usize| start <= k < end && #[trigger] pts.dom().contains(k)
}

/// Calls `RangeMap::overlaps`, which tells whether a stored range overlaps
/// `start..end`, that is, whether some key of `start..end` is covered.
#[verifier::external_body]
pub(crate) fn range_map_overlaps(m: &RangeMap<usize, usize>, start: usize, end: usize) -> (r: bool)
    requires
        start < end,
    ensures
        r == covers_some(range_map_points(*m), start as int, end as int),
{
    m.overlaps(&(start..end))
}

/// Calls `RangeMap::insert`, which maps every key of `start..end` to `value`,
/// replacing what covered those keys before and keeping every other key.
/// The crate panics on an empty range, which `requires` leaves out.
#[verifier::external_body]
pub(crate) fn range_map_insert(m: &mut RangeMap<usize, usize>, start: usize, end: usize, value: usize)
    requires
        start < end,
    ensures
        range_map_points(*final(m)) == points_after_insert(range_map_points(*old(m)), start, end, value),
{
    m.insert(start..end, value)
}

/// Calls `RangeMap::gaps`, which yields, in ascending order, the maximal
/// sub-ranges of `lo..hi` that no stored range covers.
#[verifier::external_body]
pub(crate) fn range_map_gaps(m: &RangeMap<usize, usize>, lo: usize, hi: usize) -> (r: Vec<(usize, usize)>)
    requires
        lo < hi,
    ensures
        are_gaps(range_map_points(*m), lo as int, hi as int, r@),
{
    let outer = lo..hi;
    m.gaps(&outer).map(|g| (g.start, g.end)).collect()
}

/// Calls `RangeMap::iter`, which yields, in ascending order, the stored ranges
/// with their values. The crate coalesces touching ranges that map to equal
/// values, so the stored ranges are the maximal runs of equally-mapped keys.
#[verifier::external_body]
pub(crate) fn range_map_ranges(m: &RangeMap<usize, usize>) -> (r: Vec<(usize, usize, usize)>)
    ensures
        are_runs(range_map_points(*m), r@),
{
    m.iter().map(|(range, value)| (range.start, range.end, *value)).collect()
}

} // verus!
