//! The player's weapon: a magazine, a timer, and three states.

use vstd::prelude::*;
use crate::constants::{
    GUNSHOT_ANIMATION_LENGTH, GUNSHOT_ANIMATION_SPEED, GUN_DAMAGE, MAX_BULLETS, RELOAD_SPEED,
    SHOOT_SPEED,
};
use crate::math::{clamped, is_nearest, minus, nearest, nearest_index, nearest_index_is};
use crate::model::decoration::{Decoration, DecorationGraphics};
use crate::model::enemy::Enemy;
use crate::model::{
    Animation, Entity, GameEvent, PlayerInfo, ShootingStatus, Sizes, TextureId,
};

verus! {

/// The timer `delta` microseconds on. It stops at the largest time a `u64`
/// holds.
pub open spec fn elapsed(time: u64, delta: u64) -> u64 {
    if time + delta > u64::MAX {
        u64::MAX
    } else {
        (time + delta) as u64
    }
}

/// A shot goes off: the weapon is being fired, holds a bullet, and has
/// rested since the last shot.
pub open spec fn fires(info: PlayerInfo, delta: u64) -> bool {
    &&& info.shooting_status == ShootingStatus::Shooting
    &&& info.bullets > 0
    &&& elapsed(info.time_since_last_shot, delta) >= SHOOT_SPEED
}

/// The state of the weapon after `delta` microseconds.
///
/// Idle, the timer runs on, and from `RELOAD_SPEED` on the magazine is kept
/// full. Reloading, the magazine is filled when the timer reaches
/// `RELOAD_SPEED`, and the weapon falls idle. Shooting, an empty magazine
/// starts a reload; otherwise a shot goes off as soon as the timer has
/// reached `SHOOT_SPEED`: it takes one bullet, resets the timer, and starts a
/// reload if the bullet was the last.
pub open spec fn weapon_after(info: PlayerInfo, delta: u64) -> PlayerInfo {
    let time = elapsed(info.time_since_last_shot, delta);
    match info.shooting_status {
        ShootingStatus::Shooting => if info.bullets == 0 {
            PlayerInfo {
                shooting_status: ShootingStatus::Reloading,
                time_since_last_shot: time,
                ..info
            }
        } else if time < SHOOT_SPEED {
            PlayerInfo { time_since_last_shot: time, ..info }
        } else {
            PlayerInfo {
                shooting_status: if info.bullets == 1 {
                    ShootingStatus::Reloading
                } else {
                    ShootingStatus::Shooting
                },
                time_since_last_shot: 0,
                bullets: (info.bullets - 1) as usize,
                ..info
            }
        },
        ShootingStatus::NotShooting => PlayerInfo {
            time_since_last_shot: time,
            bullets: if time >= RELOAD_SPEED {
                MAX_BULLETS
            } else {
                info.bullets
            },
            ..info
        },
        ShootingStatus::Reloading => if time >= RELOAD_SPEED {
            PlayerInfo {
                shooting_status: ShootingStatus::NotShooting,
                time_since_last_shot: time,
                bullets: MAX_BULLETS,
                ..info
            }
        } else {
            PlayerInfo { time_since_last_shot: time, ..info }
        },
    }
}

fn update_shoot_shooting(
    time_since_last_shot: u64,
    player_info: PlayerInfo,
) -> (updated: (PlayerInfo, bool))
    requires
        player_info.shooting_status == ShootingStatus::Shooting,
    ensures
        updated.1 == (player_info.bullets > 0 && time_since_last_shot >= SHOOT_SPEED),
        updated.0 == if player_info.bullets == 0 {
            PlayerInfo {
                shooting_status: ShootingStatus::Reloading,
                time_since_last_shot,
                ..player_info
            }
        } else if time_since_last_shot < SHOOT_SPEED {
            PlayerInfo { time_since_last_shot, ..player_info }
        } else {
            PlayerInfo {
                shooting_status: if player_info.bullets == 1 {
                    ShootingStatus::Reloading
                } else {
                    ShootingStatus::Shooting
                },
                time_since_last_shot: 0,
                bullets: (player_info.bullets - 1) as usize,
                ..player_info
            }
        },
{
    if player_info.bullets == 0 {
        return (
            PlayerInfo {
                shooting_status: ShootingStatus::Reloading,
                time_since_last_shot,
                ..player_info
            },
            false,
        );
    }
    if time_since_last_shot < SHOOT_SPEED {
        return (PlayerInfo { time_since_last_shot, ..player_info }, false);
    }
    if player_info.bullets == 1 {
        (
            PlayerInfo {
                shooting_status: ShootingStatus::Reloading,
                time_since_last_shot: 0,
                bullets: 0,
                ..player_info
            },
            true,
        )
    } else {
        (
            PlayerInfo {
                time_since_last_shot: 0,
                bullets: player_info.bullets - 1,
                ..player_info
            },
            true,
        )
    }
}

fn update_shoot_not_shooting(
    time_since_last_shot: u64,
    player_info: PlayerInfo,
) -> (updated: (PlayerInfo, bool))
    ensures
        !updated.1,
        updated.0 == (PlayerInfo {
            time_since_last_shot,
            bullets: if time_since_last_shot >= RELOAD_SPEED {
                MAX_BULLETS
            } else {
                player_info.bullets
            },
            ..player_info
        }),
{
    if time_since_last_shot >= RELOAD_SPEED {
        (PlayerInfo { time_since_last_shot, bullets: MAX_BULLETS, ..player_info }, false)
    } else {
        (PlayerInfo { time_since_last_shot, ..player_info }, false)
    }
}

fn update_shoot_reloading(
    time_since_last_shot: u64,
    player_info: PlayerInfo,
) -> (updated: (PlayerInfo, bool))
    ensures
        !updated.1,
        updated.0 == if time_since_last_shot >= RELOAD_SPEED {
            PlayerInfo {
                shooting_status: ShootingStatus::NotShooting,
                time_since_last_shot,
                bullets: MAX_BULLETS,
                ..player_info
            }
        } else {
            PlayerInfo { time_since_last_shot, ..player_info }
        },
{
    if time_since_last_shot >= RELOAD_SPEED {
        (
            PlayerInfo {
                shooting_status: ShootingStatus::NotShooting,
                time_since_last_shot,
                bullets: MAX_BULLETS,
                ..player_info
            },
            false,
        )
    } else {
        (PlayerInfo { time_since_last_shot, ..player_info }, false)
    }
}

/// Moves the weapon on by `delta` microseconds. The flag says whether a shot
/// went off; it does so at most once per call.
pub fn update_shoot(player_info: PlayerInfo, delta: u64) -> (updated: (PlayerInfo, bool))
    ensures
        updated.0 == weapon_after(player_info, delta),
        updated.1 == fires(player_info, delta),
        updated.0.picked_up_keys == player_info.picked_up_keys,
        updated.0.health == player_info.health,
        player_info.wf() ==> updated.0.wf(),
{
    let time_since_last_shot = player_info.time_since_last_shot.saturating_add(delta);
    match player_info.shooting_status {
        ShootingStatus::Shooting => update_shoot_shooting(time_since_last_shot, player_info),
        ShootingStatus::NotShooting => update_shoot_not_shooting(time_since_last_shot, player_info),
        ShootingStatus::Reloading => update_shoot_reloading(time_since_last_shot, player_info),
    }
}

/// What pulling the trigger makes of the weapon: an idle weapon starts
/// shooting, and nothing else changes.
pub open spec fn trigger_pulled(info: PlayerInfo) -> PlayerInfo {
    PlayerInfo {
        shooting_status: if info.shooting_status == ShootingStatus::NotShooting {
            ShootingStatus::Shooting
        } else {
            info.shooting_status
        },
        ..info
    }
}

/// What letting go of the trigger makes of the weapon: a shooting weapon
/// falls idle, and nothing else changes.
pub open spec fn trigger_released(info: PlayerInfo) -> PlayerInfo {
    PlayerInfo {
        shooting_status: if info.shooting_status == ShootingStatus::Shooting {
            ShootingStatus::NotShooting
        } else {
            info.shooting_status
        },
        ..info
    }
}

/// Pulls the trigger. A reload is never interrupted.
pub fn start_shooting(player_info: PlayerInfo) -> (updated: PlayerInfo)
    ensures
        updated == trigger_pulled(player_info),
{
    if player_info.shooting_status == ShootingStatus::NotShooting {
        PlayerInfo { shooting_status: ShootingStatus::Shooting, ..player_info }
    } else {
        player_info
    }
}

/// Lets go of the trigger. A reload is never interrupted.
pub fn stop_shooting(player_info: PlayerInfo) -> (updated: PlayerInfo)
    ensures
        updated == trigger_released(player_info),
{
    if player_info.shooting_status == ShootingStatus::Shooting {
        PlayerInfo { shooting_status: ShootingStatus::NotShooting, ..player_info }
    } else {
        player_info
    }
}

/// A shot costs exactly one bullet and resets the timer. Without a shot no
/// bullet is lost: the magazine is as it was, or full.
pub proof fn shot_costs_one_bullet(info: PlayerInfo, delta: u64)
    ensures
        fires(info, delta) ==> weapon_after(info, delta).bullets == info.bullets - 1
            && weapon_after(info, delta).time_since_last_shot == 0,
        !fires(info, delta) ==> weapon_after(info, delta).bullets == info.bullets || weapon_after(
            info,
            delta,
        ).bullets == MAX_BULLETS,
{
}

/// A reload starts only from an empty magazine and ends only in a full one,
/// and the trigger does not touch it: the state `Reloading` is entered only
/// with no bullet left, it is left only for `NotShooting` with `MAX_BULLETS`
/// bullets, and neither pulling nor letting go of the trigger changes a
/// weapon that is reloading.
pub proof fn reload_runs_to_the_end(info: PlayerInfo, delta: u64)
    ensures
        info.shooting_status != ShootingStatus::Reloading && weapon_after(
            info,
            delta,
        ).shooting_status == ShootingStatus::Reloading ==> weapon_after(info, delta).bullets == 0,
        info.shooting_status == ShootingStatus::Reloading ==> {
            ||| weapon_after(info, delta).shooting_status == ShootingStatus::Reloading
                && weapon_after(info, delta).bullets == info.bullets
            ||| weapon_after(info, delta).shooting_status == ShootingStatus::NotShooting
                && weapon_after(info, delta).bullets == MAX_BULLETS
        },
        info.shooting_status == ShootingStatus::Reloading ==> trigger_pulled(info) == info
            && trigger_released(info) == info,
{
}


/// Where the line of fire crosses a wall, and how far from the muzzle.
#[derive(Debug, Clone, Copy)]
pub struct WallHit<P> {
    pub point: P,
    pub distance: u64,
}

/// What the line of fire means to one enemy: whether it passes through the
/// enemy's circle, and how far the enemy stands from the muzzle.
#[derive(Debug, Clone, Copy)]
pub struct Sighting {
    pub on_ray: bool,
    pub distance: u64,
}

/// The distances of the walls that the line of fire crosses.
pub open spec fn wall_distances<P>(wall_hits: Seq<Option<WallHit<P>>>) -> Seq<Option<u64>> {
    Seq::new(
        wall_hits.len(),
        |i: int|
            match wall_hits[i] {
                Some(hit) => Some(hit.distance),
                None => None,
            },
    )
}

/// How far the shot carries: to the nearest wall in its way, or else as far
/// as the gun reaches.
pub open spec fn shot_reach<P>(wall_hits: Seq<Option<WallHit<P>>>, max_distance: u64) -> u64 {
    match nearest_index(wall_distances(wall_hits)) {
        Some(wall) => wall_hits[wall]->0.distance,
        None => max_distance,
    }
}

/// The distances of the enemies the shot can hit: those on the line of fire
/// and no farther off than the shot carries.
pub open spec fn target_distances(sightings: Seq<Sighting>, reach: u64) -> Seq<Option<u64>> {
    Seq::new(
        sightings.len(),
        |i: int|
            if sightings[i].on_ray && sightings[i].distance <= reach {
                Some(sightings[i].distance)
            } else {
                None
            },
    )
}

/// The enemy that is hit: the nearest of those the shot can hit.
pub open spec fn shot_enemy<P>(
    sightings: Seq<Sighting>,
    wall_hits: Seq<Option<WallHit<P>>>,
    max_distance: u64,
) -> Option<int> {
    nearest_index(target_distances(sightings, shot_reach(wall_hits, max_distance)))
}

/// Where the shot lands: on the enemy that is hit, or else on the nearest
/// wall in its way, or else nowhere.
pub open spec fn shot_location<P, S>(
    enemies: Seq<Enemy<P, S>>,
    sightings: Seq<Sighting>,
    wall_hits: Seq<Option<WallHit<P>>>,
    max_distance: u64,
) -> Option<P> {
    match shot_enemy(sightings, wall_hits, max_distance) {
        Some(enemy) => Some(enemies[enemy].entity.position),
        None => match nearest_index(wall_distances(wall_hits)) {
            Some(wall) => Some(wall_hits[wall]->0.point),
            None => None,
        },
    }
}

fn closest_hit_wall<P: Copy>(wall_hits: &Vec<Option<WallHit<P>>>) -> (closest: Option<WallHit<P>>)
    ensures
        match nearest_index(wall_distances(wall_hits@)) {
            Some(wall) => 0 <= wall < wall_hits@.len() && closest == wall_hits@[wall],
            None => closest is None,
        },
        closest is Some <==> nearest_index(wall_distances(wall_hits@)) is Some,
{
    let mut distances: Vec<Option<u64>> = Vec::new();
    let mut i: usize = 0;
    while i < wall_hits.len()
        invariant
            i <= wall_hits.len(),
            distances@.len() == i,
            forall|k: int| 0 <= k < i ==> distances@[k] == wall_distances(wall_hits@)[k],
        decreases wall_hits.len() - i,
    {
        let distance = match wall_hits[i] {
            Some(hit) => Some(hit.distance),
            None => None,
        };
        distances.push(distance);
        i += 1;
    }
    assert(distances@ =~= wall_distances(wall_hits@));
    match nearest(&distances) {
        Some(wall) => wall_hits[wall],
        None => None,
    }
}

/// Finds what a shot hits: the enemy, by its place in `enemies`, and the
/// point where the shot lands.
///
/// `sightings` says of each enemy how it stands to the line of fire,
/// `wall_hits` of each wall whether and where the line crosses it, and
/// `max_distance` is how far the gun reaches.
pub fn find_shot_enemy<P: Copy, S: Copy>(
    enemies: &Vec<Enemy<P, S>>,
    sightings: &Vec<Sighting>,
    wall_hits: &Vec<Option<WallHit<P>>>,
    max_distance: u64,
) -> (found: (Option<usize>, Option<P>))
    requires
        sightings@.len() == enemies@.len(),
    ensures
        match found.0 {
            Some(enemy) => shot_enemy(sightings@, wall_hits@, max_distance) == Some(enemy as int)
                && enemy < enemies@.len(),
            None => shot_enemy(sightings@, wall_hits@, max_distance) is None,
        },
        found.1 == shot_location(enemies@, sightings@, wall_hits@, max_distance),
{
    let closest = closest_hit_wall(wall_hits);
    let reach = match closest {
        Some(hit) => hit.distance,
        None => max_distance,
    };
    let mut distances: Vec<Option<u64>> = Vec::new();
    let mut i: usize = 0;
    while i < sightings.len()
        invariant
            i <= sightings.len(),
            distances@.len() == i,
            forall|k: int| 0 <= k < i ==> distances@[k] == target_distances(sightings@, reach)[k],
        decreases sightings.len() - i,
    {
        let sighting = sightings[i];
        let distance = if sighting.on_ray && sighting.distance <= reach {
            Some(sighting.distance)
        } else {
            None
        };
        distances.push(distance);
        i += 1;
    }
    assert(distances@ =~= target_distances(sightings@, reach));
    match nearest(&distances) {
        Some(enemy) => (Some(enemy), Some(enemies[enemy].entity.position)),
        None => match closest {
            Some(hit) => (None, Some(hit.point)),
            None => (None, None),
        },
    }
}

fn create_shot_particles_event<P>(shot_location: P) -> (event: GameEvent<P>)
    ensures
        event == (GameEvent::LocationShot { position: shot_location }),
{
    GameEvent::LocationShot { position: shot_location }
}

/// The enemies once the one that is hit, if any, has lost `GUN_DAMAGE`.
pub open spec fn after_shot<P, S>(
    enemies: Seq<Enemy<P, S>>,
    shot: Option<int>,
) -> Seq<Enemy<P, S>> {
    match shot {
        Some(enemy) => enemies.update(
            enemy,
            Enemy { hp: clamped(enemies[enemy].hp - GUN_DAMAGE), ..enemies[enemy] },
        ),
        None => enemies,
    }
}

/// The enemies that are still alive, in their order.
pub open spec fn living<P, S>(enemies: Seq<Enemy<P, S>>) -> Seq<Enemy<P, S>> {
    enemies.filter(|enemy: Enemy<P, S>| enemy.hp > 0)
}

/// One `EnemyKilled` for each enemy that is dead, in their order, each at the
/// place where the enemy stood.
pub open spec fn kill_events<P, S>(enemies: Seq<Enemy<P, S>>) -> Seq<GameEvent<P>> {
    enemies.filter_map(
        |enemy: Enemy<P, S>|
            if enemy.hp <= 0 {
                Some(GameEvent::EnemyKilled { position: enemy.entity.position })
            } else {
                None
            },
    )
}

/// The one `LocationShot` of a shot that lands, or nothing.
pub open spec fn shot_events<P>(location: Option<P>) -> Seq<GameEvent<P>> {
    match location {
        Some(position) => seq![GameEvent::LocationShot { position }],
        None => Seq::empty(),
    }
}

/// Fires one shot along the line of fire.
///
/// The nearest enemy on the line, no farther off than the nearest wall in the
/// way, loses `GUN_DAMAGE`. The dead are then taken out, an `EnemyKilled`
/// reported for each, and last a `LocationShot` where the shot landed. A shot
/// that hits no enemy changes none: it reports where it hit a wall, if it hit
/// one.
pub fn shoot_enemies<P: Copy, S: Copy>(
    enemies: Vec<Enemy<P, S>>,
    sightings: &Vec<Sighting>,
    wall_hits: &Vec<Option<WallHit<P>>>,
    max_distance: u64,
) -> (shot: (Vec<Enemy<P, S>>, Vec<GameEvent<P>>))
    requires
        sightings@.len() == enemies@.len(),
    ensures
        shot_enemy(sightings@, wall_hits@, max_distance) is None ==> shot.0@ == enemies@ && shot.1@
            == shot_events(shot_location(enemies@, sightings@, wall_hits@, max_distance)),
        shot_enemy(sightings@, wall_hits@, max_distance) is Some ==> shot.0@ == living(
            after_shot(enemies@, shot_enemy(sightings@, wall_hits@, max_distance)),
        ) && shot.1@ == kill_events(
            after_shot(enemies@, shot_enemy(sightings@, wall_hits@, max_distance)),
        ) + shot_events(shot_location(enemies@, sightings@, wall_hits@, max_distance)),
        shot_enemy(sightings@, wall_hits@, max_distance) is Some ==> forall|i: int|
            0 <= i < shot.0@.len() ==> (#[trigger] shot.0@[i]).hp > 0,
        forall|i: int| 0 <= i < shot.1@.len() ==> (#[trigger] shot.1@[i]).wf(),
{
    let (shot_enemy_option, shot_location) = find_shot_enemy(
        &enemies,
        sightings,
        wall_hits,
        max_distance,
    );
    let mut game_events: Vec<GameEvent<P>> = Vec::new();
    let hit = match shot_enemy_option {
        None => {
            match shot_location {
                Some(some) => {
                    game_events.push(create_shot_particles_event(some));
                },
                None => {},
            }
            return (enemies, game_events);
        },
        Some(hit) => hit,
    };
    let ghost wounded = after_shot(enemies@, Some(hit as int));
    let mut remaining: Vec<Enemy<P, S>> = Vec::new();
    let mut i: usize = 0;
    while i < enemies.len()
        invariant
            i <= enemies.len(),
            hit < enemies.len(),
            wounded == after_shot(enemies@, Some(hit as int)),
            remaining@ == living(wounded.take(i as int)),
            game_events@ == kill_events(wounded.take(i as int)),
            forall|k: int| 0 <= k < game_events@.len() ==> (#[trigger] game_events@[k]).wf(),
        decreases enemies.len() - i,
    {
        let enemy = if i == hit {
            Enemy { hp: minus(enemies[i].hp, GUN_DAMAGE), ..enemies[i] }
        } else {
            enemies[i]
        };
        proof {
            assert(wounded.take(i as int + 1) =~= wounded.take(i as int).push(enemy));
            wounded.take(i as int).lemma_filter_push(enemy, |enemy: Enemy<P, S>| enemy.hp > 0);
            wounded.lemma_filter_map_take_succ(
                |enemy: Enemy<P, S>|
                    if enemy.hp <= 0 {
                        Some(GameEvent::EnemyKilled { position: enemy.entity.position })
                    } else {
                        None
                    },
                i as int,
            );
        }
        if enemy.hp <= 0 {
            game_events.push(GameEvent::EnemyKilled { position: enemy.entity.position });
        } else {
            remaining.push(enemy);
        }
        i += 1;
    }
    assert(wounded.take(i as int) =~= wounded);
    match shot_location {
        Some(some) => {
            game_events.push(create_shot_particles_event(some));
        },
        None => {},
    }
    assert forall|i: int| 0 <= i < remaining@.len() implies (#[trigger] remaining@[i]).hp > 0 by {
        wounded.lemma_filter_pred(|enemy: Enemy<P, S>| enemy.hp > 0, i);
    }
    (remaining, game_events)
}

proof fn all_alive_stay<P, S>(enemies: Seq<Enemy<P, S>>)
    requires
        forall|j: int| 0 <= j < enemies.len() ==> enemies[j].hp > 0,
    ensures
        living(enemies) == enemies,
        kill_events(enemies) == Seq::<GameEvent<P>>::empty(),
    decreases enemies.len(),
{
    reveal(Seq::filter);
    if enemies.len() > 0 {
        all_alive_stay(enemies.drop_last());
    }
}

proof fn one_dead_leaves<P, S>(enemies: Seq<Enemy<P, S>>, dead: int)
    requires
        0 <= dead < enemies.len(),
        enemies[dead].hp <= 0,
        forall|j: int| 0 <= j < enemies.len() && j != dead ==> enemies[j].hp > 0,
    ensures
        living(enemies) == enemies.remove(dead),
        kill_events(enemies) == seq![
            GameEvent::EnemyKilled { position: enemies[dead].entity.position },
        ],
    decreases enemies.len(),
{
    reveal(Seq::filter);
    let front = enemies.drop_last();
    if dead == enemies.len() - 1 {
        all_alive_stay(front);
    } else {
        one_dead_leaves(front, dead);
    }
}

/// A shot along a line that passes through exactly one enemy, and carries as
/// far as that enemy, takes `GUN_DAMAGE` from it (down to the least an `i64`
/// holds) and always reports where it landed: the last event is a
/// `LocationShot` at the enemy's place. If all enemies were alive before,
/// then either the one that is hit survives, and nobody leaves and nobody is
/// reported killed, or it dies, and it alone leaves and exactly one
/// `EnemyKilled` is reported, at the place where it stood.
pub proof fn lone_enemy_is_shot<P, S>(
    enemies: Seq<Enemy<P, S>>,
    sightings: Seq<Sighting>,
    wall_hits: Seq<Option<WallHit<P>>>,
    max_distance: u64,
    target: int,
)
    requires
        sightings.len() == enemies.len(),
        0 <= target < enemies.len(),
        sightings[target].on_ray,
        sightings[target].distance <= shot_reach(wall_hits, max_distance),
        forall|j: int| 0 <= j < sightings.len() && j != target ==> !sightings[j].on_ray,
    ensures
        shot_enemy(sightings, wall_hits, max_distance) == Some(target),
        shot_location(enemies, sightings, wall_hits, max_distance) == Some(
            enemies[target].entity.position,
        ),
        after_shot(enemies, Some(target))[target].hp == clamped(enemies[target].hp - GUN_DAMAGE),
        enemies[target].hp - GUN_DAMAGE >= i64::MIN ==> after_shot(enemies, Some(target))[target].hp
            == enemies[target].hp - GUN_DAMAGE,
        (kill_events(after_shot(enemies, Some(target))) + shot_events(
            shot_location(enemies, sightings, wall_hits, max_distance),
        )).last() == (GameEvent::LocationShot { position: enemies[target].entity.position }),
        (forall|j: int| 0 <= j < enemies.len() ==> enemies[j].hp > 0) ==> if enemies[target].hp
            > GUN_DAMAGE {
            &&& living(after_shot(enemies, Some(target))) == after_shot(enemies, Some(target))
            &&& kill_events(after_shot(enemies, Some(target))) == Seq::<GameEvent<P>>::empty()
        } else {
            &&& living(after_shot(enemies, Some(target))) == enemies.remove(target)
            &&& kill_events(after_shot(enemies, Some(target))) == seq![
                GameEvent::EnemyKilled { position: enemies[target].entity.position },
            ]
        },
{
    let reach = shot_reach(wall_hits, max_distance);
    let targets = target_distances(sightings, reach);
    nearest_index_is(targets, target);
    let wounded = after_shot(enemies, Some(target));
    if forall|j: int| 0 <= j < enemies.len() ==> enemies[j].hp > 0 {
        if enemies[target].hp > GUN_DAMAGE {
            all_alive_stay(wounded);
        } else {
            one_dead_leaves(wounded, target);
        }
    }
}

/// What is left of an enemy: a skull that stays.
pub open spec fn corpse<P, S>(location: P, sizes: Sizes<S>) -> Decoration<P, S> {
    Decoration {
        entity: Entity { position: location, size: sizes.corpse_size },
        graphics: DecorationGraphics::Texture(TextureId::Skull),
        life: None,
        offset: sizes.corpse_offset,
    }
}

/// The flash of a hit: an explosion that plays for `GUNSHOT_ANIMATION_LENGTH`.
pub open spec fn shot_animation<P, S>(position: P, sizes: Sizes<S>) -> Decoration<P, S> {
    Decoration {
        entity: Entity { position, size: sizes.shot_animation_size },
        graphics: DecorationGraphics::Animation {
            animation: Animation::Explosion,
            animation_speed: GUNSHOT_ANIMATION_SPEED,
        },
        life: Some(GUNSHOT_ANIMATION_LENGTH),
        offset: sizes.shot_animation_offset,
    }
}

pub fn create_corpse<P, S: Copy>(location: P, sizes: &Sizes<S>) -> (decoration: Decoration<P, S>)
    ensures
        decoration == corpse(location, *sizes),
{
    Decoration {
        entity: Entity { position: location, size: sizes.corpse_size },
        graphics: DecorationGraphics::Texture(TextureId::Skull),
        life: None,
        offset: sizes.corpse_offset,
    }
}

/// The flash of a hit, shown at `position`: a little off the point that was
/// hit, towards the player.
pub fn create_shot_animation_decoration<P, S: Copy>(
    position: P,
    sizes: &Sizes<S>,
) -> (decoration: Decoration<P, S>)
    ensures
        decoration == shot_animation(position, *sizes),
        decoration.wf(),
{
    Decoration {
        entity: Entity { position, size: sizes.shot_animation_size },
        graphics: DecorationGraphics::Animation {
            animation: Animation::Explosion,
            animation_speed: GUNSHOT_ANIMATION_SPEED,
        },
        life: Some(GUNSHOT_ANIMATION_LENGTH),
        offset: sizes.shot_animation_offset,
    }
}

} // verus!
