//! What a ray of sight meets first.

use vstd::prelude::*;
use crate::math::{nearest, nearest_index};
use crate::model::TextureId;

verus! {

/// Where a ray meets a wall: how far from the eye, which texture the wall
/// wears, and how far along the wall's texture the ray strikes.
#[derive(Debug, Clone, Copy)]
pub struct RayHit<S> {
    pub distance_to_ray: u64,
    pub texture: TextureId,
    pub relative_position: S,
}

/// The distances at which a ray meets the walls it meets.
pub open spec fn hit_distances<S>(hits: Seq<Option<RayHit<S>>>) -> Seq<Option<u64>> {
    Seq::new(
        hits.len(),
        |i: int|
            match hits[i] {
                Some(hit) => Some(hit.distance_to_ray),
                None => None,
            },
    )
}

/// What is seen along a ray: of all the walls the ray meets, the nearest.
/// `hits[i]` says whether and where the ray meets wall `i`.
pub fn cast_ray<S: Copy>(hits: &Vec<Option<RayHit<S>>>) -> (seen: Option<RayHit<S>>)
    ensures
        match nearest_index(hit_distances(hits@)) {
            Some(wall) => 0 <= wall < hits@.len() && seen == hits@[wall],
            None => seen is None,
        },
{
    let mut distances: Vec<Option<u64>> = Vec::new();
    let mut i: usize = 0;
    while i < hits.len()
        invariant
            i <= hits.len(),
            distances@.len() == i,
            forall|k: int| 0 <= k < i ==> distances@[k] == hit_distances(hits@)[k],
        decreases hits.len() - i,
    {
        let distance = match hits[i] {
            Some(hit) => Some(hit.distance_to_ray),
            None => None,
        };
        distances.push(distance);
        i += 1;
    }
    assert(distances@ =~= hit_distances(hits@));
    match nearest(&distances) {
        Some(wall) => hits[wall],
        None => None,
    }
}

} // verus!
