//! The vertex correspondence scan.
//!
//! A mesh's vertex array is split into a welded head and an unwelded tail. For
//! every tail vertex the scan lists the head vertices that sit at exactly the
//! same position, in ascending order, so that the first one listed is the
//! canonical match.

use std::collections::HashMap;
use vstd::prelude::*;
use crate::vector::lemma_same_position_symmetric;
use crate::vector::Vector3;

verus! {

broadcast use vstd::std_specs::hash::group_hash_axioms;

/// The positions of `array`, ascending, whose vertex shares `target`'s position.
pub open spec fn matching_indices(array: Seq<Vector3>, target: Vector3) -> Seq<i64>
    decreases array.len(),
{
    if array.len() == 0 {
        Seq::empty()
    } else {
        let earlier = matching_indices(array.drop_last(), target);
        if array.last().same_position(target) {
            earlier.push((array.len() - 1) as i64)
        } else {
            earlier
        }
    }
}

/// What a scan of `array` for every vertex of `to_match` must have recorded:
/// one entry per vertex of `to_match`, keyed by its position there, holding
/// that vertex's matches in `array`.
pub open spec fn records_scan(
    index_map: Map<i64, Vec<i64>>,
    array: Seq<Vector3>,
    to_match: Seq<Vector3>,
) -> bool {
    &&& forall|j: i64| #[trigger] index_map.contains_key(j) <==> 0 <= j < to_match.len()
    &&& forall|j: i64|
        0 <= j < to_match.len() ==> (#[trigger] index_map[j])@ == matching_indices(
            array,
            to_match[j as int],
        )
}

/// The first position of `array` whose vertex shares `target`'s position, if any.
pub open spec fn first_match(array: Seq<Vector3>, target: Vector3) -> Option<int> {
    let found = matching_indices(array, target);
    if found.len() == 0 {
        None
    } else {
        Some(found[0] as int)
    }
}

/// What `matching_indices` lists: positions of `array`, each a match, in
/// strictly ascending order, with no match left out.
pub proof fn lemma_matching_indices(array: Seq<Vector3>, target: Vector3)
    requires
        array.len() <= i64::MAX,
    ensures
        forall|k: int|
            0 <= k < matching_indices(array, target).len() ==> {
                let i = #[trigger] matching_indices(array, target)[k];
                0 <= i < array.len() && array[i as int].same_position(target)
            },
        forall|k: int, l: int|
            0 <= k < l < matching_indices(array, target).len() ==> matching_indices(
                array,
                target,
            )[k] < matching_indices(array, target)[l],
        forall|i: int|
            0 <= i < array.len() && (#[trigger] array[i]).same_position(target)
                ==> matching_indices(array, target).contains(i as i64),
        matching_indices(array, target).len() <= array.len(),
    decreases array.len(),
{
    if array.len() > 0 {
        let shorter = array.drop_last();
        let earlier = matching_indices(shorter, target);
        lemma_matching_indices(shorter, target);
        let found = matching_indices(array, target);
        let last = (array.len() - 1) as i64;
        assert forall|i: int|
            0 <= i < array.len() && (#[trigger] array[i]).same_position(target) implies found.contains(
            i as i64,
        ) by {
            if i < shorter.len() {
                assert(shorter[i].same_position(target));
                let k = choose|k: int| 0 <= k < earlier.len() && earlier[k] == i as i64;
                assert(found[k] == i as i64);
            } else {
                assert(found[found.len() - 1] == last);
            }
        }
    }
}

/// A head vertex is listed for a tail vertex exactly when the two share a position.
pub proof fn lemma_listed_iff_same_position(
    array: Seq<Vector3>,
    to_match: Seq<Vector3>,
    i: int,
    j: int,
)
    requires
        array.len() <= i64::MAX,
        0 <= i < array.len(),
        0 <= j < to_match.len(),
    ensures
        matching_indices(array, to_match[j]).contains(i as i64) <==> array[i].same_position(
            to_match[j],
        ),
{
    lemma_matching_indices(array, to_match[j]);
}

/// Matching is mutual: a scan of `array` for the vertices of `to_match` lists
/// `i` for `j` exactly when a scan the other way round lists `j` for `i`.
pub proof fn lemma_scan_is_mutual(array: Seq<Vector3>, to_match: Seq<Vector3>, i: int, j: int)
    requires
        array.len() <= i64::MAX,
        to_match.len() <= i64::MAX,
        0 <= i < array.len(),
        0 <= j < to_match.len(),
    ensures
        matching_indices(array, to_match[j]).contains(i as i64) <==> matching_indices(
            to_match,
            array[i],
        ).contains(j as i64),
{
    lemma_listed_iff_same_position(array, to_match, i, j);
    lemma_listed_iff_same_position(to_match, array, j, i);
    lemma_same_position_symmetric(array[i], to_match[j]);
}

/// The canonical match is the lowest position of `array` that matches at all.
pub proof fn lemma_first_match(array: Seq<Vector3>, target: Vector3)
    requires
        array.len() <= i64::MAX,
    ensures
        match first_match(array, target) {
            Some(i) => {
                &&& 0 <= i < array.len()
                &&& array[i].same_position(target)
                &&& forall|k: int| 0 <= k < i ==> !(#[trigger] array[k]).same_position(target)
            },
            None => forall|k: int|
                0 <= k < array.len() ==> !(#[trigger] array[k]).same_position(target),
        },
{
    lemma_matching_indices(array, target);
}

/// A scan is a function of the two vertex arrays alone: any two records of
/// the same scan hold the same keys and, under each key, the same matches in
/// the same order.
pub proof fn lemma_scan_is_deterministic(
    first: Map<i64, Vec<i64>>,
    second: Map<i64, Vec<i64>>,
    array: Seq<Vector3>,
    to_match: Seq<Vector3>,
)
    requires
        records_scan(first, array, to_match),
        records_scan(second, array, to_match),
    ensures
        first.dom() =~= second.dom(),
        forall|j: i64| first.contains_key(j) ==> (#[trigger] first[j])@ == second[j]@,
{
}

/// Lists the positions of `array` whose vertex shares `target`'s position.
pub fn matches_of(array: &[Vector3], target: &Vector3) -> (found: Vec<i64>)
    requires
        array.len() <= i64::MAX,
    ensures
        found@ == matching_indices(array@, *target),
{
    let mut found: Vec<i64> = Vec::new();
    let mut i: usize = 0;
    while i < array.len()
        invariant
            i <= array.len() <= i64::MAX,
            found@ == matching_indices(array@.subrange(0, i as int), *target),
        decreases array.len() - i,
    {
        proof {
            assert(array@.subrange(0, i + 1).drop_last() =~= array@.subrange(0, i as int));
        }
        if array[i] == *target {
            found.push(i as i64);
        }
        i += 1;
    }
    proof {
        assert(array@.subrange(0, i as int) =~= array@);
    }
    found
}

/// Scans `array` once for every vertex of `to_match` and records, under each
/// vertex's position in `to_match`, the positions of `array` that match it.
pub fn find_matching_indices(array: &[Vector3], to_match: &[Vector3]) -> (index_map: HashMap<
    i64,
    Vec<i64>,
>)
    requires
        array.len() <= i64::MAX,
        to_match.len() <= i64::MAX,
    ensures
        records_scan(index_map@, array@, to_match@),
{
    let mut index_map: HashMap<i64, Vec<i64>> = HashMap::with_capacity(to_match.len());
    let mut j: usize = 0;
    while j < to_match.len()
        invariant
            j <= to_match.len() <= i64::MAX,
            array.len() <= i64::MAX,
            forall|k: i64| #[trigger] index_map@.contains_key(k) <==> 0 <= k < j,
            forall|k: i64|
                0 <= k < j ==> (#[trigger] index_map@[k])@ == matching_indices(
                    array@,
                    to_match@[k as int],
                ),
        decreases to_match.len() - j,
    {
        let found = matches_of(array, &to_match[j]);
        index_map.insert(j as i64, found);
        j += 1;
    }
    index_map
}

} // verus!
