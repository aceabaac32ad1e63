//! What is left of geometry once every measurement has been taken: asking
//! whether anything at all was hit, and choosing the nearest of what was.
//!
//! A distance is a `u64` that orders as the true distance does; the rules
//! only ever compare distances, they never add or scale them.

use vstd::prelude::*;

verus! {

/// Some flag is set.
pub open spec fn any_set(flags: Seq<bool>) -> bool {
    exists|i: int| 0 <= i < flags.len() && flags[i]
}

/// Whether any of the flags is set.
pub fn any_hit(flags: &Vec<bool>) -> (hit: bool)
    ensures
        hit == any_set(flags@),
{
    let mut i: usize = 0;
    while i < flags.len()
        invariant
            i <= flags.len(),
            forall|j: int| 0 <= j < i ==> !flags@[j],
        decreases flags.len() - i,
    {
        if flags[i] {
            return true;
        }
        i += 1;
    }
    false
}

/// Candidate `i` is present and nearest: no candidate is nearer, and those
/// before it are all farther. Of several that are equally near, the first is
/// the nearest.
pub open spec fn is_nearest(distances: Seq<Option<u64>>, i: int) -> bool {
    &&& 0 <= i < distances.len()
    &&& distances[i] is Some
    &&& forall|j: int|
        0 <= j < distances.len() && distances[j] is Some ==> distances[i]->0 <= (
        #[trigger] distances[j])->0
    &&& forall|j: int|
        0 <= j < i && distances[j] is Some ==> distances[i]->0 < (#[trigger] distances[j])->0
}

/// No candidate is present.
pub open spec fn none_present(distances: Seq<Option<u64>>) -> bool {
    forall|j: int| 0 <= j < distances.len() ==> (#[trigger] distances[j]) is None
}

/// The nearest candidate, if any is present.
pub open spec fn nearest_index(distances: Seq<Option<u64>>) -> Option<int> {
    if exists|i: int| is_nearest(distances, i) {
        Some(choose|i: int| is_nearest(distances, i))
    } else {
        None
    }
}

/// At most one candidate is the nearest.
pub proof fn nearest_is_unique(distances: Seq<Option<u64>>, i: int, j: int)
    requires
        is_nearest(distances, i),
        is_nearest(distances, j),
    ensures
        i == j,
{
    if i < j {
        assert(distances[j]->0 < distances[i]->0);
    } else if j < i {
        assert(distances[i]->0 < distances[j]->0);
    }
}

/// A nearest candidate is the one `nearest_index` names.
pub proof fn nearest_index_is(distances: Seq<Option<u64>>, i: int)
    requires
        is_nearest(distances, i),
    ensures
        nearest_index(distances) == Some(i),
{
    let chosen = choose|k: int| is_nearest(distances, k);
    nearest_is_unique(distances, i, chosen);
}

/// Where nothing is present, nothing is nearest.
pub proof fn nearest_index_of_none(distances: Seq<Option<u64>>)
    requires
        none_present(distances),
    ensures
        nearest_index(distances) is None,
{
    assert forall|i: int| !is_nearest(distances, i) by {
        if 0 <= i < distances.len() {
            assert(distances[i] is None);
        }
    }
}

/// Picks the nearest of the candidates that are present.
pub fn nearest(distances: &Vec<Option<u64>>) -> (found: Option<usize>)
    ensures
        match found {
            Some(i) => is_nearest(distances@, i as int) && nearest_index(distances@) == Some(
                i as int,
            ),
            None => none_present(distances@) && nearest_index(distances@) is None,
        },
{
    let mut best: Option<(usize, u64)> = None;
    let mut i: usize = 0;
    while i < distances.len()
        invariant
            i <= distances.len(),
            match best {
                Some((b, d)) => b < i && distances@[b as int] == Some(d) && is_nearest(
                    distances@.take(i as int),
                    b as int,
                ),
                None => none_present(distances@.take(i as int)),
            },
        decreases distances.len() - i,
    {
        match distances[i] {
            None => {},
            Some(d) => {
                match best {
                    None => {
                        best = Some((i, d));
                    },
                    Some((_, least)) => {
                        if d < least {
                            best = Some((i, d));
                        }
                    },
                }
            },
        }
        i += 1;
    }
    assert(distances@.take(i as int) =~= distances@);
    match best {
        Some((b, _)) => {
            proof {
                nearest_index_is(distances@, b as int);
            }
            Some(b)
        },
        None => {
            proof {
                nearest_index_of_none(distances@);
            }
            None
        },
    }
}

/// The number nearest to `x` that an `i64` can hold.
pub open spec fn clamped(x: int) -> i64 {
    if x > i64::MAX {
        i64::MAX
    } else if x < i64::MIN {
        i64::MIN
    } else {
        x as i64
    }
}

/// `a - b`, stopping at the ends of the range of `i64`.
pub fn minus(a: i64, b: i64) -> (difference: i64)
    ensures
        difference == clamped(a - b),
{
    match a.checked_sub(b) {
        Some(difference) => difference,
        None => if b > 0 {
            i64::MIN
        } else {
            i64::MAX
        },
    }
}

/// The first candidate that is present.
pub open spec fn first_present<T>(candidates: Seq<Option<T>>) -> Option<T>
    decreases candidates.len(),
{
    if candidates.len() == 0 {
        None
    } else if candidates[0] is Some {
        candidates[0]
    } else {
        first_present(candidates.skip(1))
    }
}

/// Something is found exactly where something is present.
pub proof fn first_present_is_some<T>(candidates: Seq<Option<T>>)
    ensures
        first_present(candidates) is Some <==> exists|i: int|
            0 <= i < candidates.len() && (#[trigger] candidates[i]) is Some,
    decreases candidates.len(),
{
    if candidates.len() > 0 {
        let rest = candidates.skip(1);
        first_present_is_some(rest);
        if candidates[0] is None {
            if exists|i: int| 0 <= i < candidates.len() && (#[trigger] candidates[i]) is Some {
                let i = choose|i: int|
                    0 <= i < candidates.len() && (#[trigger] candidates[i]) is Some;
                assert(rest[i - 1] is Some);
            }
        }
    }
}

/// Picks the first of the candidates that is present.
pub fn first_hit<T: Copy>(candidates: &Vec<Option<T>>) -> (found: Option<T>)
    ensures
        found == first_present(candidates@),
{
    let mut i: usize = 0;
    assert(candidates@.skip(0) =~= candidates@);
    while i < candidates.len()
        invariant
            i <= candidates.len(),
            first_present(candidates@) == first_present(candidates@.skip(i as int)),
        decreases candidates.len() - i,
    {
        assert(candidates@.skip(i as int).skip(1) =~= candidates@.skip(i as int + 1));
        if let Some(found) = candidates[i] {
            return Some(found);
        }
        i += 1;
    }
    None
}

} // verus!
