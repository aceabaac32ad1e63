//! Shots in flight.

use vstd::prelude::*;
use std::time::Duration;
use crate::model::{Entity, TextureId};

verus! {

#[derive(Debug, Clone, Copy)]
pub struct Projectile<P, S> {
    pub entity: Entity<P, S>,
    /// How far the projectile flies in one second.
    pub direction: P,
    /// Millionths of a point taken from the player on a hit.
    pub damage: i64,
    pub texture: TextureId,
}

/// No projectile does damage below zero: none heals.
pub open spec fn none_heals<P, S>(projectiles: Seq<Projectile<P, S>>) -> bool {
    forall|i: int| 0 <= i < projectiles.len() ==> (#[trigger] projectiles[i]).damage >= 0
}

impl<P, S> Projectile<P, S> {
    pub fn get_texture(&self, _time_ellapsed: &Duration) -> (texture: TextureId)
        ensures
            texture == self.texture,
    {
        self.texture
    }
}

} // verus!
