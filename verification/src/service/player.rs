//! The player's body: moving it, healing it, and finding it at an exit.

use vstd::prelude::*;
use crate::constants::{PLAYER_MAX_HEALTH, PLAYER_REGENERATION};
use crate::math::{any_hit, any_set};
use crate::model::Entity;

verus! {

/// Moves the player to `new_pos`, all or nothing: if the player's circle at
/// `new_pos` would touch any wall the player stays exactly where it is.
/// `hits[i]` says whether it would touch wall `i`.
pub fn move_player_entity<P: Copy, S: Copy>(
    player_entity: Entity<P, S>,
    new_pos: P,
    hits: &Vec<bool>,
) -> (moved: Entity<P, S>)
    ensures
        moved.size == player_entity.size,
        any_set(hits@) ==> moved.position == player_entity.position,
        !any_set(hits@) ==> moved.position == new_pos,
{
    let is_collision = any_hit(hits);
    if is_collision {
        player_entity
    } else {
        Entity { position: new_pos, ..player_entity }
    }
}

/// Whether the player stands in an exit; `overlaps[i]` says whether the
/// player's circle touches exit `i`.
pub fn is_player_at_exit(overlaps: &Vec<bool>) -> (at_exit: bool)
    ensures
        at_exit == any_set(overlaps@),
{
    any_hit(overlaps)
}

/// Health after `delta` microseconds of rest: it grows by
/// `PLAYER_REGENERATION` each microsecond, but not beyond
/// `PLAYER_MAX_HEALTH`.
pub open spec fn regenerated(player_health: i64, delta: u64) -> int {
    if player_health + delta * PLAYER_REGENERATION < PLAYER_MAX_HEALTH {
        player_health + delta * PLAYER_REGENERATION
    } else {
        PLAYER_MAX_HEALTH as int
    }
}

pub fn regenerate_health(player_health: i64, delta: u64) -> (health: i64)
    ensures
        health == regenerated(player_health, delta),
        health <= PLAYER_MAX_HEALTH,
{
    let rate: i128 = PLAYER_REGENERATION as i128;
    let grown: i128 = player_health as i128 + delta as i128 * rate;
    if grown < PLAYER_MAX_HEALTH as i128 {
        grown as i64
    } else {
        PLAYER_MAX_HEALTH
    }
}

} // verus!
