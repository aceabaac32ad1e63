//! The numbers the rules are played with.
//!
//! Every quantity the rules compute with is a whole number, so that each rule
//! is exact: time is counted in microseconds, and health, hit points and
//! damage in millionths of a point. Animation speeds are the milliseconds one
//! frame stays on screen.

use vstd::prelude::*;

verus! {

/// Microseconds in one second.
pub const SECOND: u64 = 1_000_000;

/// Millionths in one point of health or damage.
pub const POINT: i64 = 1_000_000;

pub const PLAYER_MAX_HEALTH: i64 = 100_000_000;

/// Health won back per microsecond: two points per second.
pub const PLAYER_REGENERATION: i64 = 2;

pub const KEY_ANIMATION_SPEED_TEXTURES: u128 = 800;

pub const GUN_FIRE_ANIMATION_SPEED: u128 = 80;

pub const ENEMY_HP: i64 = 100_000_000;

pub const MELEE_ENEMY_ANIMATION_SPEED: u128 = 100;

pub const MELEE_ENEMY_ATTACK_DELAY: u64 = 1_000_000;

pub const MELEE_ENEMY_DAMAGE: i64 = 80_000_000;

pub const RANGED_ENEMY_ANIMATION_SPEED: u128 = 100;

pub const RANGED_ENEMY_ATTACK_DELAY: u64 = 1_500_000;

pub const RANGED_ENEMY_DAMAGE: i64 = 40_000_000;

pub const MELEE_SLOW_ENEMY_ANIMATION_SPEED: u128 = 150;

pub const MELEE_SLOW_ENEMY_ATTACK_DELAY: u64 = 2_000_000;

pub const MELEE_SLOW_ENEMY_DAMAGE: i64 = 100_000_000;

pub const MELEE_SLOW_ENEMY_HEALTH: i64 = 200_000_000;

/// How long a reload takes, and how long an idle weapon waits before it tops
/// itself up.
pub const RELOAD_SPEED: u64 = 3_000_000;

/// The shortest time between two shots.
pub const SHOOT_SPEED: u64 = 100_000;

pub const MAX_BULLETS: usize = 30;

pub const GUN_DAMAGE: i64 = 50_000_000;

/// How long the flash of a hit stays.
pub const GUNSHOT_ANIMATION_LENGTH: u64 = 300_000;

pub const GUNSHOT_ANIMATION_SPEED: u128 = 80;

/// Side of the square placeholder texture, in pixels.
pub const DEFAULT_TEXTURE_SIZE: u16 = 32;

} // verus!
