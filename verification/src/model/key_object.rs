//! Keys lie about the level until the player walks over them.

use vstd::prelude::*;
use std::time::Duration;
use crate::constants::KEY_ANIMATION_SPEED_TEXTURES;
use crate::draw::{frame_index, select_animation_texture};
use crate::model::{Animation, Entity, TextureId};
use crate::time::duration_millis;

verus! {

#[derive(Debug, Clone, Copy)]
pub struct KeyObject<P, S> {
    pub id: u64,
    pub entity: Entity<P, S>,
}

impl<P, S> KeyObject<P, S> {
    /// The frame of the key's animation that is up at `time_ellapsed`.
    pub fn get_texture(&self, time_ellapsed: &Duration) -> (texture: TextureId)
        ensures
            texture == Animation::Key.frames()[frame_index(
                2,
                KEY_ANIMATION_SPEED_TEXTURES,
                duration_millis(*time_ellapsed),
            )],
    {
        let textures = Animation::Key.get_textures();
        select_animation_texture(textures.as_slice(), KEY_ANIMATION_SPEED_TEXTURES, time_ellapsed)
    }
}

} // verus!
