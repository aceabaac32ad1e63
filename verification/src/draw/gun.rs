//! The gun in the player's hands.

use vstd::prelude::*;
use std::time::Duration;
use crate::constants::GUN_FIRE_ANIMATION_SPEED;
use crate::draw::{frame_index, select_animation_texture};
use crate::model::{Animation, ShootingStatus, TextureId};
use crate::time::duration_millis;

verus! {

pub struct GunDrawable {
    pub texture: TextureId,
}

/// How the gun looks after `millis` milliseconds: while shooting the firing
/// animation runs, otherwise the gun rests on its first frame.
pub open spec fn gun_frame(millis: nat, shooting_status: ShootingStatus) -> TextureId {
    if shooting_status == ShootingStatus::Shooting {
        Animation::Gun.frames()[frame_index(8, GUN_FIRE_ANIMATION_SPEED, millis)]
    } else {
        TextureId::Gun1
    }
}

pub fn draw_gun(time_ellapsed: &Duration, shooting_status: ShootingStatus) -> (gun: GunDrawable)
    ensures
        gun.texture == gun_frame(duration_millis(*time_ellapsed), shooting_status),
{
    let shooting_textures = Animation::Gun.get_textures();
    let texture = if shooting_status == ShootingStatus::Shooting {
        select_animation_texture(
            shooting_textures.as_slice(),
            GUN_FIRE_ANIMATION_SPEED,
            time_ellapsed,
        )
    } else {
        shooting_textures[0]
    };
    GunDrawable { texture }
}

} // verus!
