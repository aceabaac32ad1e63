//! Choosing what to show: which frame of an animation is up at a given time.

use vstd::prelude::*;
use std::time::Duration;
use crate::model::TextureId;
use crate::time::duration_millis;

pub mod bullets_display;
pub mod exit_text_sprite;
pub mod gun;
pub mod key_display;
pub mod wall;

verus! {

/// The frame that is up after `millis` milliseconds, of `frames` frames that
/// each stay for `speed` milliseconds and start over after the last.
///
/// The count of frames shown so far is cut to the width of `usize` before it
/// is taken round the cycle. On a 64-bit machine that matters only after
/// some hundreds of millions of years.
pub open spec fn frame_index(frames: nat, speed: u128, millis: nat) -> int {
    (((millis / (speed as nat)) as usize) as int) % (frames as int)
}

/// While the count of frames shown fits in `usize`, the frames simply cycle.
pub proof fn frame_index_cycles(frames: nat, speed: u128, millis: nat)
    requires
        frames > 0,
        speed > 0,
        millis / (speed as nat) <= usize::MAX,
    ensures
        frame_index(frames, speed, millis) == (millis / (speed as nat)) % frames,
        0 <= frame_index(frames, speed, millis) < frames,
{
}

pub fn select_animation_texture(
    textures: &[TextureId],
    speed: u128,
    time_from_start: &Duration,
) -> (texture: TextureId)
    requires
        speed > 0,
        textures@.len() > 0,
    ensures
        texture == textures@[frame_index(
            textures@.len(),
            speed,
            duration_millis(*time_from_start),
        )],
{
    let shown: u128 = time_from_start.as_millis() / speed;
    let shown: usize = #[verifier::truncate] (shown as usize);
    textures[shown % textures.len()]
}

} // verus!
