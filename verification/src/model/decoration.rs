//! Things that are only seen: the marks of the dead and the flash of a hit.

use vstd::prelude::*;
use std::time::Duration;
use crate::draw::{frame_index, select_animation_texture};
use crate::model::{Animation, Entity, TextureId};
use crate::time::duration_millis;

verus! {

#[derive(Debug, Clone, Copy)]
pub enum DecorationGraphics {
    Animation { animation: Animation, animation_speed: u128 },
    Texture(TextureId),
}

#[derive(Debug, Clone, Copy)]
pub struct Decoration<P, S> {
    pub entity: Entity<P, S>,
    pub graphics: DecorationGraphics,
    /// Microseconds left to live, or `None` for a decoration that stays.
    pub life: Option<u64>,
    /// How far above or below eye level it is drawn.
    pub offset: S,
}

impl<P, S> Decoration<P, S> {
    /// An animated decoration changes frames at a speed above zero.
    pub open spec fn wf(self) -> bool {
        self.graphics matches DecorationGraphics::Animation { animation_speed, .. }
            ==> animation_speed > 0
    }

    /// What the decoration looks like after `millis` milliseconds.
    pub open spec fn texture_at(self, millis: nat) -> TextureId {
        match self.graphics {
            DecorationGraphics::Animation { animation, animation_speed } => animation.frames()[
                frame_index(animation.frames().len(), animation_speed, millis)
            ],
            DecorationGraphics::Texture(texture) => texture,
        }
    }

    pub fn get_texture(&self, time_ellapsed: &Duration) -> (texture: TextureId)
        requires
            self.wf(),
        ensures
            texture == self.texture_at(duration_millis(*time_ellapsed)),
    {
        match self.graphics {
            DecorationGraphics::Animation { animation, animation_speed } => {
                let textures = animation.get_textures();
                select_animation_texture(textures.as_slice(), animation_speed, time_ellapsed)
            },
            DecorationGraphics::Texture(texture) => texture,
        }
    }

    /// The decoration `delta` microseconds on.
    pub open spec fn aged(self, delta: u64) -> Option<Self> {
        match self.life {
            None => Some(self),
            Some(life) => if life <= delta {
                None
            } else {
                Some(Decoration { life: Some((life - delta) as u64), ..self })
            },
        }
    }

    /// Lets `delta` microseconds pass. A decoration without a lifetime stays
    /// as it is; one whose time has run out is gone.
    pub fn update(self, delta: u64) -> (updated: Option<Self>)
        ensures
            updated == self.aged(delta),
    {
        match self.life {
            None => Some(self),
            Some(life) => {
                if life <= delta {
                    None
                } else {
                    Some(Decoration { life: Some(life - delta), ..self })
                }
            },
        }
    }
}

} // verus!
