//! Enemies and the three kinds they come in.

use vstd::prelude::*;
use std::time::Duration;
use crate::constants::{
    ENEMY_HP, MELEE_ENEMY_ANIMATION_SPEED, MELEE_ENEMY_ATTACK_DELAY, MELEE_ENEMY_DAMAGE,
    MELEE_SLOW_ENEMY_ANIMATION_SPEED, MELEE_SLOW_ENEMY_ATTACK_DELAY, MELEE_SLOW_ENEMY_DAMAGE,
    MELEE_SLOW_ENEMY_HEALTH, RANGED_ENEMY_ANIMATION_SPEED, RANGED_ENEMY_ATTACK_DELAY,
    RANGED_ENEMY_DAMAGE,
};
use crate::draw::{frame_index, select_animation_texture};
use crate::model::{Animation, Entity, TextureId};
use crate::time::duration_millis;

verus! {

/// The kind of an enemy decides how it fights: what it hits for, how long it
/// rests between attacks, and how it looks.
#[derive(Debug, Clone, Copy, PartialEq, Eq, Structural)]
pub enum EnemyType {
    Melee,
    MeleeSlow,
    Ranged,
}

impl EnemyType {
    /// Hit points an enemy of this kind starts with.
    pub open spec fn starting_hp(self) -> i64 {
        match self {
            EnemyType::Melee => ENEMY_HP,
            EnemyType::Ranged => ENEMY_HP,
            EnemyType::MeleeSlow => MELEE_SLOW_ENEMY_HEALTH,
        }
    }

    /// The rest before the first attack: a ranged enemy holds its first shot
    /// for one full cooldown, the others may strike at once.
    pub open spec fn starting_delay(self) -> u64 {
        match self {
            EnemyType::Melee => 0,
            EnemyType::Ranged => RANGED_ENEMY_ATTACK_DELAY,
            EnemyType::MeleeSlow => 0,
        }
    }

    pub open spec fn attack_damage(self) -> i64 {
        match self {
            EnemyType::Melee => MELEE_ENEMY_DAMAGE,
            EnemyType::MeleeSlow => MELEE_SLOW_ENEMY_DAMAGE,
            EnemyType::Ranged => RANGED_ENEMY_DAMAGE,
        }
    }

    /// The rest between two attacks, in microseconds.
    pub open spec fn attack_speed(self) -> u64 {
        match self {
            EnemyType::Melee => MELEE_ENEMY_ATTACK_DELAY,
            EnemyType::Ranged => RANGED_ENEMY_ATTACK_DELAY,
            EnemyType::MeleeSlow => MELEE_SLOW_ENEMY_ATTACK_DELAY,
        }
    }

    pub open spec fn animation(self) -> Animation {
        match self {
            EnemyType::Melee => Animation::Enemy,
            EnemyType::Ranged => Animation::RangedEnemy,
            EnemyType::MeleeSlow => Animation::MeleeSlowEnemy,
        }
    }

    pub open spec fn animation_speed(self) -> u128 {
        match self {
            EnemyType::Melee => MELEE_ENEMY_ANIMATION_SPEED,
            EnemyType::Ranged => RANGED_ENEMY_ANIMATION_SPEED,
            EnemyType::MeleeSlow => MELEE_SLOW_ENEMY_ANIMATION_SPEED,
        }
    }

    /// A fresh enemy of this kind, known by `id`, standing at `position`.
    pub fn to_enemy<P, S>(self, id: u64, position: P, size: S) -> (enemy: Enemy<P, S>)
        ensures
            enemy.id == id,
            enemy.entity.position == position,
            enemy.entity.size == size,
            enemy.hp == self.starting_hp(),
            enemy.attack_delay == self.starting_delay(),
            enemy.enemy_type == self,
    {
        let entity = Entity { position, size };
        match self {
            EnemyType::Melee => Enemy {
                id,
                entity,
                hp: ENEMY_HP,
                attack_delay: 0,
                enemy_type: self,
            },
            EnemyType::Ranged => Enemy {
                id,
                entity,
                hp: ENEMY_HP,
                attack_delay: RANGED_ENEMY_ATTACK_DELAY,
                enemy_type: self,
            },
            EnemyType::MeleeSlow => Enemy {
                id,
                entity,
                hp: MELEE_SLOW_ENEMY_HEALTH,
                attack_delay: 0,
                enemy_type: self,
            },
        }
    }

    pub fn get_attack_damage(&self) -> (damage: i64)
        ensures
            damage == self.attack_damage(),
    {
        match self {
            EnemyType::Melee => MELEE_ENEMY_DAMAGE,
            EnemyType::MeleeSlow => MELEE_SLOW_ENEMY_DAMAGE,
            EnemyType::Ranged => RANGED_ENEMY_DAMAGE,
        }
    }

    pub fn get_attack_speed(&self) -> (delay: u64)
        ensures
            delay == self.attack_speed(),
    {
        match self {
            EnemyType::Melee => MELEE_ENEMY_ATTACK_DELAY,
            EnemyType::Ranged => RANGED_ENEMY_ATTACK_DELAY,
            EnemyType::MeleeSlow => MELEE_SLOW_ENEMY_ATTACK_DELAY,
        }
    }

    pub fn get_animation(&self) -> (textures: Vec<TextureId>)
        ensures
            textures@ == self.animation().frames(),
            textures@.len() == 8,
    {
        match self {
            EnemyType::Melee => Animation::Enemy.get_textures(),
            EnemyType::Ranged => Animation::RangedEnemy.get_textures(),
            EnemyType::MeleeSlow => Animation::MeleeSlowEnemy.get_textures(),
        }
    }

    pub fn get_animation_speed(&self) -> (speed: u128)
        ensures
            speed == self.animation_speed(),
            speed > 0,
    {
        match self {
            EnemyType::Melee => MELEE_ENEMY_ANIMATION_SPEED,
            EnemyType::Ranged => RANGED_ENEMY_ANIMATION_SPEED,
            EnemyType::MeleeSlow => MELEE_SLOW_ENEMY_ANIMATION_SPEED,
        }
    }
}

#[derive(Debug, Clone, Copy)]
pub struct Enemy<P, S> {
    pub id: u64,
    pub entity: Entity<P, S>,
    /// Millionths of a point. At or below zero the enemy is dead.
    pub hp: i64,
    /// Microseconds until the enemy may attack again.
    pub attack_delay: u64,
    pub enemy_type: EnemyType,
}

impl<P, S> Enemy<P, S> {
    /// The frame of the enemy's animation that is up at `time_ellapsed`.
    pub fn get_texture(&self, time_ellapsed: &Duration) -> (texture: TextureId)
        ensures
            texture == self.enemy_type.animation().frames()[frame_index(
                8,
                self.enemy_type.animation_speed(),
                duration_millis(*time_ellapsed),
            )],
    {
        let textures = self.enemy_type.get_animation();
        select_animation_texture(
            textures.as_slice(),
            self.enemy_type.get_animation_speed(),
            time_ellapsed,
        )
    }
}

} // verus!
