//! One frame of the game: the passes run one after another, what they asked
//! for is done, event by event, the player rests, and the level is judged
//! won, lost or still running.

use vstd::prelude::*;
use crate::constants::{GUN_DAMAGE, PLAYER_MAX_HEALTH};
use crate::input::Operation;
use crate::math::{any_set, clamped, minus};
use crate::model::decoration::Decoration;
use crate::model::enemy::Enemy;
use crate::model::projectile::Projectile;
use crate::model::{
    Entity, GameEvent, GameObjects, Level, Player, PlayerInfo, Sizes, SoundId, TextureId,
};
use crate::service::enemy::{
    after_attack, attack_events, enemies_attack_player, move_enemies_towards_player, moved,
    stance_after, stance_for_type, Aim, Pursuit, Stance,
};
use crate::service::key::{check_pickup_key, keys_left, pickups};
use crate::service::player::{
    is_player_at_exit, move_player_entity, regenerate_health, regenerated,
};
use crate::service::projectile::{flying_on, impacts, update_projctiles, Flight};
use crate::service::shoot::{
    after_shot, corpse, create_corpse, create_shot_animation_decoration, find_shot_enemy, fires,
    kill_events, living, shoot_enemies, shot_animation, shot_enemy, shot_events, shot_location,
    start_shooting, stop_shooting, trigger_pulled, trigger_released, update_shoot, weapon_after,
    Sighting, WallHit,
};

verus! {

/// What the geometry says of one operation, for the player as it stands
/// when the operation's turn has come.
#[derive(Debug)]
pub struct Measured<P> {
    /// Where the player looks after the turn, if the operation is a turn.
    pub look: P,
    /// Where the step leads, if the operation is a step.
    pub new_pos: P,
    /// For each wall, whether the player's circle at `new_pos` touches it.
    pub hits: Vec<bool>,
}

/// The player and the weapon once `operation` is done: a turn changes the
/// look, a step moves the player if no wall is in the way, and the wish to
/// shoot pulls the trigger.
pub open spec fn operated<P, S, R>(
    player: Player<P, S>,
    player_info: PlayerInfo,
    operation: Operation<R>,
    measured: Measured<P>,
) -> (Player<P, S>, PlayerInfo) {
    match operation {
        Operation::Left(_) | Operation::Right(_) => (
            Player { look: measured.look, ..player },
            player_info,
        ),
        Operation::Shoot => (player, trigger_pulled(player_info)),
        _ => (
            Player {
                entity: Entity {
                    position: if any_set(measured.hits@) {
                        player.entity.position
                    } else {
                        measured.new_pos
                    },
                    ..player.entity
                },
                ..player
            },
            player_info,
        ),
    }
}

/// Does one of the things the player asks for.
pub fn handle_operation<P: Copy, S: Copy, R>(
    player: Player<P, S>,
    player_info: PlayerInfo,
    operation: &Operation<R>,
    measured: &Measured<P>,
) -> (done: (Player<P, S>, PlayerInfo))
    ensures
        done == operated(player, player_info, *operation, *measured),
{
    match operation {
        Operation::Left(_) | Operation::Right(_) => (
            Player { look: measured.look, ..player },
            player_info,
        ),
        Operation::Forward | Operation::Back | Operation::StrafeLeft | Operation::StrafeRight => (
            Player {
                entity: move_player_entity(player.entity, measured.new_pos, &measured.hits),
                ..player
            },
            player_info,
        ),
        Operation::Shoot => (player, start_shooting(player_info)),
    }
}

/// A projectile fresh from the enemy that shot it.
pub open spec fn new_projectile<P, S>(
    position: P,
    direction: P,
    damage: i64,
    sizes: Sizes<S>,
) -> Projectile<P, S> {
    Projectile {
        entity: Entity { position, size: sizes.projectile_size },
        direction,
        damage,
        texture: TextureId::Projectile,
    }
}

/// One more key on the count. The count stops at the largest number a
/// `usize` holds.
pub open spec fn one_more(picked_up_keys: usize) -> usize {
    if picked_up_keys < usize::MAX {
        (picked_up_keys + 1) as usize
    } else {
        picked_up_keys
    }
}

/// The level once `event` is done. `flash` is where the flash of a
/// `LocationShot` is shown; the other events do not read it.
pub open spec fn applied<P, S>(
    level: Level<P, S>,
    event: GameEvent<P>,
    flash: P,
    sizes: Sizes<S>,
) -> Level<P, S> {
    match event {
        GameEvent::PickUpKey => Level {
            player_info: PlayerInfo {
                picked_up_keys: one_more(level.player_info.picked_up_keys),
                ..level.player_info
            },
            ..level
        },
        GameEvent::EnemyKilled { position } => Level {
            decorations: level.decorations.push(corpse(position, sizes)),
            ..level
        },
        GameEvent::LocationShot { position } => Level {
            decorations: level.decorations.push(shot_animation(flash, sizes)),
            ..level
        },
        GameEvent::PlayerTakeDamage(damage) => Level {
            player_info: PlayerInfo {
                health: clamped(level.player_info.health - damage),
                ..level.player_info
            },
            ..level
        },
        GameEvent::CreateProjectile { position, direction, damage } => Level {
            projectiles: level.projectiles.push(new_projectile(position, direction, damage, sizes)),
            ..level
        },
    }
}

/// The sound that goes with an event, if any.
pub open spec fn sound_of<P>(event: GameEvent<P>) -> Option<SoundId> {
    match event {
        GameEvent::PickUpKey => Some(SoundId::PickUpKey),
        GameEvent::EnemyKilled { .. } => None,
        GameEvent::LocationShot { .. } => Some(SoundId::ShotHit),
        GameEvent::PlayerTakeDamage(_) => Some(SoundId::PlayerTakeDamage),
        GameEvent::CreateProjectile { .. } => None,
    }
}

/// The level once the first `n` events are done, in their order.
pub open spec fn applied_all<P, S>(
    level: Level<P, S>,
    events: Seq<GameEvent<P>>,
    flashes: Seq<P>,
    sizes: Sizes<S>,
    n: nat,
) -> Level<P, S>
    decreases n,
{
    if n == 0 {
        level
    } else {
        applied(
            applied_all(level, events, flashes, sizes, (n - 1) as nat),
            events[n - 1],
            flashes[n - 1],
            sizes,
        )
    }
}

/// The sounds of the events, in their order.
pub open spec fn sounds_of<P>(events: Seq<GameEvent<P>>) -> Seq<SoundId> {
    events.filter_map(|event: GameEvent<P>| sound_of(event))
}

fn handle_pickup_key<P, S>(game_objects: &mut GameObjects<P, S>) -> (sound: SoundId)
    ensures
        final(game_objects)@ == (Level {
            player_info: PlayerInfo {
                picked_up_keys: one_more(old(game_objects).player_info.picked_up_keys),
                ..old(game_objects).player_info
            },
            ..old(game_objects)@
        }),
        sound == SoundId::PickUpKey,
{
    if game_objects.player_info.picked_up_keys < usize::MAX {
        game_objects.player_info.picked_up_keys = game_objects.player_info.picked_up_keys + 1;
    }
    SoundId::PickUpKey
}

fn handle_enemy_killed<P, S: Copy>(
    game_objects: &mut GameObjects<P, S>,
    position: P,
    sizes: &Sizes<S>,
)
    ensures
        final(game_objects)@ == (Level {
            decorations: old(game_objects)@.decorations.push(corpse(position, *sizes)),
            ..old(game_objects)@
        }),
{
    game_objects.decorations.push(create_corpse(position, sizes));
}

fn handle_location_shot<P, S: Copy>(
    game_objects: &mut GameObjects<P, S>,
    flash: P,
    sizes: &Sizes<S>,
) -> (sound: SoundId)
    ensures
        final(game_objects)@ == (Level {
            decorations: old(game_objects)@.decorations.push(shot_animation(flash, *sizes)),
            ..old(game_objects)@
        }),
        sound == SoundId::ShotHit,
{
    game_objects.decorations.push(create_shot_animation_decoration(flash, sizes));
    SoundId::ShotHit
}

fn handle_player_take_damage<P, S>(
    game_objects: &mut GameObjects<P, S>,
    damage: i64,
) -> (sound: SoundId)
    ensures
        final(game_objects)@ == (Level {
            player_info: PlayerInfo {
                health: clamped(old(game_objects).player_info.health - damage),
                ..old(game_objects).player_info
            },
            ..old(game_objects)@
        }),
        sound == SoundId::PlayerTakeDamage,
{
    game_objects.player_info.health = minus(game_objects.player_info.health, damage);
    SoundId::PlayerTakeDamage
}

fn handle_create_projectile<P, S: Copy>(
    game_objects: &mut GameObjects<P, S>,
    position: P,
    direction: P,
    damage: i64,
    sizes: &Sizes<S>,
)
    ensures
        final(game_objects)@ == (Level {
            projectiles: old(game_objects)@.projectiles.push(
                new_projectile(position, direction, damage, *sizes),
            ),
            ..old(game_objects)@
        }),
{
    game_objects.projectiles.push(
        Projectile {
            entity: Entity { position, size: sizes.projectile_size },
            direction,
            damage,
            texture: TextureId::Projectile,
        },
    );
}

/// Does what the events ask for, one by one in their order, and gives the
/// sounds to play, in the same order.
///
/// A picked-up key is counted; a killed enemy leaves a skull where it stood;
/// a shot that landed leaves a flash; damage is taken from the player's
/// health, which may fall below zero; a projectile is put into the world.
/// `flashes[i]` is where the flash of `events[i]` is shown if that is a
/// `LocationShot`.
pub fn handle_events<P: Copy, S: Copy>(
    game_objects: &mut GameObjects<P, S>,
    events: &Vec<GameEvent<P>>,
    flashes: &Vec<P>,
    sizes: &Sizes<S>,
) -> (sounds: Vec<SoundId>)
    requires
        flashes@.len() == events@.len(),
    ensures
        final(game_objects)@ == applied_all(
            old(game_objects)@,
            events@,
            flashes@,
            *sizes,
            events@.len(),
        ),
        sounds@ == sounds_of(events@),
        old(game_objects)@.wf() && (forall|i: int|
            0 <= i < events@.len() ==> (#[trigger] events@[i]).wf()) ==> final(game_objects)@.wf(),
{
    let mut sounds: Vec<SoundId> = Vec::new();
    let mut i: usize = 0;
    while i < events.len()
        invariant
            i <= events.len(),
            flashes@.len() == events@.len(),
            game_objects@ == applied_all(old(game_objects)@, events@, flashes@, *sizes, i as nat),
            sounds@ == sounds_of(events@.take(i as int)),
            old(game_objects)@.wf() && (forall|k: int|
                0 <= k < events@.len() ==> (#[trigger] events@[k]).wf()) ==> game_objects@.wf(),
        decreases events.len() - i,
    {
        proof {
            events@.lemma_filter_map_take_succ(|event: GameEvent<P>| sound_of(event), i as int);
        }
        match events[i] {
            GameEvent::PickUpKey => {
                sounds.push(handle_pickup_key(game_objects));
            },
            GameEvent::EnemyKilled { position } => {
                handle_enemy_killed(game_objects, position, sizes);
            },
            GameEvent::LocationShot { position: _ } => {
                sounds.push(handle_location_shot(game_objects, flashes[i], sizes));
            },
            GameEvent::PlayerTakeDamage(damage) => {
                sounds.push(handle_player_take_damage(game_objects, damage));
            },
            GameEvent::CreateProjectile { position, direction, damage } => {
                handle_create_projectile(game_objects, position, direction, damage, sizes);
            },
        }
        i += 1;
    }
    assert(events@.take(i as int) =~= events@);
    sounds
}

/// The decorations that are still there after `delta` microseconds, in their
/// order, each that much older.
pub open spec fn aged_decorations<P, S>(
    decorations: Seq<Decoration<P, S>>,
    delta: u64,
) -> Seq<Decoration<P, S>> {
    decorations.filter_map(|decoration: Decoration<P, S>| decoration.aged(delta))
}

/// Lets `delta` microseconds pass for every decoration, and drops those
/// whose time has run out.
pub fn update_decorations<P: Copy, S: Copy>(
    decorations: Vec<Decoration<P, S>>,
    delta: u64,
) -> (updated: Vec<Decoration<P, S>>)
    ensures
        updated@ == aged_decorations(decorations@, delta),
        (forall|i: int| 0 <= i < decorations@.len() ==> (#[trigger] decorations@[i]).wf())
            ==> forall|i: int| 0 <= i < updated@.len() ==> (#[trigger] updated@[i]).wf(),
{
    let mut updated: Vec<Decoration<P, S>> = Vec::new();
    let mut i: usize = 0;
    while i < decorations.len()
        invariant
            i <= decorations.len(),
            updated@ == aged_decorations(decorations@.take(i as int), delta),
            (forall|k: int| 0 <= k < decorations@.len() ==> (#[trigger] decorations@[k]).wf())
                ==> forall|k: int| 0 <= k < updated@.len() ==> (#[trigger] updated@[k]).wf(),
        decreases decorations.len() - i,
    {
        proof {
            decorations@.lemma_filter_map_take_succ(
                |decoration: Decoration<P, S>| decoration.aged(delta),
                i as int,
            );
        }
        if let Some(decoration) = decorations[i].update(delta) {
            updated.push(decoration);
        }
        i += 1;
    }
    assert(decorations@.take(i as int) =~= decorations@);
    updated
}

/// The events of one frame, in the order in which they are to be done: keys
/// picked up, then enemies killed, then attacks, then projectiles.
pub fn collect_events<P: Copy>(
    key_events: Vec<GameEvent<P>>,
    kill_enemies_events: Vec<GameEvent<P>>,
    attack_events: Vec<GameEvent<P>>,
    projectile_events: Vec<GameEvent<P>>,
) -> (events: Vec<GameEvent<P>>)
    ensures
        events@ == key_events@ + kill_enemies_events@ + attack_events@ + projectile_events@,
{
    let mut events = key_events;
    let mut kill_enemies_events = kill_enemies_events;
    let mut attack_events = attack_events;
    let mut projectile_events = projectile_events;
    events.append(&mut kill_enemies_events);
    events.append(&mut attack_events);
    events.append(&mut projectile_events);
    events
}

/// Lets the player rest for `delta` microseconds, once the events of the
/// frame are done: health grows, up to `PLAYER_MAX_HEALTH`.
pub fn regenerate_player<P, S>(game_objects: &mut GameObjects<P, S>, delta: u64)
    ensures
        final(game_objects)@ == (Level {
            player_info: PlayerInfo {
                health: regenerated(old(game_objects).player_info.health, delta) as i64,
                ..old(game_objects).player_info
            },
            ..old(game_objects)@
        }),
        final(game_objects).player_info.health <= PLAYER_MAX_HEALTH,
        old(game_objects)@.wf() ==> final(game_objects)@.wf(),
{
    game_objects.player_info.health = regenerate_health(game_objects.player_info.health, delta);
}

/// At the start of a frame the trigger is let go; input pulls it again.
pub fn reset_state<P, S>(game_objects: &mut GameObjects<P, S>)
    ensures
        final(game_objects)@ == (Level {
            player_info: trigger_released(old(game_objects).player_info),
            ..old(game_objects)@
        }),
        old(game_objects)@.wf() ==> final(game_objects)@.wf(),
{
    game_objects.player_info = stop_shooting(game_objects.player_info);
}

/// The game is over when the player has no health left.
pub fn is_game_over<P, S>(game_objects: &GameObjects<P, S>) -> (over: bool)
    ensures
        over == (game_objects.player_info.health <= 0),
{
    game_objects.player_info.health <= 0
}

/// The level is won when no key is left in it and the player stands in an
/// exit. `exit_overlaps[i]` says whether the player's circle touches exit
/// `i`.
pub fn is_game_won<P, S>(game_objects: &GameObjects<P, S>, exit_overlaps: &Vec<bool>) -> (won: bool)
    ensures
        won == (game_objects.keys@.len() == 0 && any_set(exit_overlaps@)),
{
    game_objects.keys.is_empty() && is_player_at_exit(exit_overlaps)
}

/// Damage above the player's health ends the game: once the event is done,
/// health is below zero.
pub proof fn deadly_damage_ends_the_game<P, S>(
    level: Level<P, S>,
    damage: i64,
    flash: P,
    sizes: Sizes<S>,
)
    requires
        damage > level.player_info.health,
    ensures
        applied(level, GameEvent::PlayerTakeDamage(damage), flash, sizes).player_info.health < 0,
{
}

/// All that the geometry says of one frame, gathered before the rules run.
#[derive(Debug)]
pub struct Frame<P> {
    /// For each enemy, how it stands to the player.
    pub pursuits: Vec<Pursuit<P>>,
    /// For each wall, whether and where the player's line of fire crosses it.
    pub wall_hits: Vec<Option<WallHit<P>>>,
    /// How far the gun reaches.
    pub max_shoot_distance: u64,
    /// For each projectile, how it fares.
    pub flights: Vec<Flight<P>>,
    /// For each key, whether the player touches it.
    pub touching: Vec<bool>,
}

impl<P> Frame<P> {
    /// The frame speaks of as many enemies, projectiles and keys as the
    /// level holds.
    pub open spec fn fits<S>(self, level: Level<P, S>) -> bool {
        &&& self.pursuits@.len() == level.enemies.len()
        &&& self.flights@.len() == level.projectiles.len()
        &&& self.touching@.len() == level.keys.len()
    }
}

/// The enemies after their moves.
pub open spec fn moved_enemies<P, S>(
    enemies: Seq<Enemy<P, S>>,
    pursuits: Seq<Pursuit<P>>,
) -> Seq<Enemy<P, S>> {
    Seq::new(enemies.len(), |i: int| moved(enemies[i], pursuits[i]))
}

/// What holds of each enemy where its move has taken it.
pub open spec fn stances<P, S>(
    enemies: Seq<Enemy<P, S>>,
    pursuits: Seq<Pursuit<P>>,
) -> Seq<Stance<P>> {
    Seq::new(enemies.len(), |i: int| stance_after(enemies[i], pursuits[i]))
}

/// How each enemy stands to the line of fire.
pub open spec fn sightings_of<P>(stances: Seq<Stance<P>>) -> Seq<Sighting> {
    Seq::new(stances.len(), |i: int| stances[i].sighting)
}

/// How each enemy stands to the player, of the enemies that are alive.
pub open spec fn aims_of_living<P, S>(
    enemies: Seq<Enemy<P, S>>,
    stances: Seq<Stance<P>>,
) -> Seq<Aim<P>> {
    Seq::new(enemies.len(), |i: int| (enemies[i], stances[i])).filter_map(
        |standing: (Enemy<P, S>, Stance<P>)|
            if standing.0.hp > 0 {
                Some(standing.1.aim)
            } else {
                None
            },
    )
}

/// How each enemy stands to the player.
pub open spec fn aims_of<P>(stances: Seq<Stance<P>>) -> Seq<Aim<P>> {
    Seq::new(stances.len(), |i: int| stances[i].aim)
}

/// The level one frame on, and the events the frame asks for.
///
/// The enemies make their moves. The weapon is moved on; if a shot goes off
/// it is resolved against the enemies where they now stand. The enemies left
/// rest and attack. Projectiles fly, decorations age, keys are picked up.
/// Nothing the events ask for is done yet, and the player has yet to heal:
/// see `handle_events` and `regenerate_player`. The events come in this
/// order: keys picked up, what the shot did, attacks, projectiles.
pub open spec fn next_step<P, S>(level: Level<P, S>, frame: Frame<P>, delta: u64) -> (
    Level<P, S>,
    Seq<GameEvent<P>>,
) {
    let walked = moved_enemies(level.enemies, frame.pursuits@);
    let stand = stances(level.enemies, frame.pursuits@);
    let sightings = sightings_of(stand);
    let fired = fires(level.player_info, delta);
    let shot = if fired {
        shot_enemy(sightings, frame.wall_hits@, frame.max_shoot_distance)
    } else {
        None
    };
    let location = if fired {
        shot_location(walked, sightings, frame.wall_hits@, frame.max_shoot_distance)
    } else {
        None
    };
    let wounded = after_shot(walked, shot);
    let left = if shot is Some {
        living(wounded)
    } else {
        walked
    };
    let aims = if shot is Some {
        aims_of_living(wounded, stand)
    } else {
        aims_of(stand)
    };
    let shot_did = if shot is Some {
        kill_events(wounded) + shot_events(location)
    } else {
        shot_events(location)
    };
    (
        Level {
            player: level.player,
            player_info: weapon_after(level.player_info, delta),
            walls: level.walls,
            enemies: Seq::new(left.len(), |i: int| after_attack(left[i], aims[i], delta)),
            keys: keys_left(level.keys, frame.touching@),
            exit_triggers: level.exit_triggers,
            decorations: aged_decorations(level.decorations, delta),
            projectiles: flying_on(level.projectiles, frame.flights@),
        },
        pickups(frame.touching@) + shot_did + Seq::new(
            left.len(),
            |i: int| attack_events(left[i], aims[i], delta),
        ).flatten() + impacts(level.projectiles, frame.flights@),
    )
}

fn stances_of_enemies<P: Copy, S: Copy>(
    enemies: &Vec<Enemy<P, S>>,
    pursuits: &Vec<Pursuit<P>>,
) -> (stand: Vec<Stance<P>>)
    requires
        pursuits@.len() == enemies@.len(),
    ensures
        stand@ == stances(enemies@, pursuits@),
{
    let mut stand: Vec<Stance<P>> = Vec::new();
    let mut i: usize = 0;
    while i < enemies.len()
        invariant
            i <= enemies.len(),
            pursuits@.len() == enemies@.len(),
            stand@.len() == i,
            forall|k: int| 0 <= k < i ==> stand@[k] == stance_after(enemies@[k], pursuits@[k]),
        decreases enemies.len() - i,
    {
        stand.push(stance_for_type(&enemies[i], &pursuits[i]));
        i += 1;
    }
    stand
}

fn sightings_of_stances<P: Copy>(stand: &Vec<Stance<P>>) -> (sightings: Vec<Sighting>)
    ensures
        sightings@ == sightings_of(stand@),
{
    let mut sightings: Vec<Sighting> = Vec::new();
    let mut i: usize = 0;
    while i < stand.len()
        invariant
            i <= stand.len(),
            sightings@.len() == i,
            forall|k: int| 0 <= k < i ==> sightings@[k] == stand@[k].sighting,
        decreases stand.len() - i,
    {
        sightings.push(stand[i].sighting);
        i += 1;
    }
    sightings
}

fn aims_of_stances<P: Copy>(stand: &Vec<Stance<P>>) -> (aims: Vec<Aim<P>>)
    ensures
        aims@ == aims_of(stand@),
{
    let mut aims: Vec<Aim<P>> = Vec::new();
    let mut i: usize = 0;
    while i < stand.len()
        invariant
            i <= stand.len(),
            aims@.len() == i,
            forall|k: int| 0 <= k < i ==> aims@[k] == stand@[k].aim,
        decreases stand.len() - i,
    {
        aims.push(stand[i].aim);
        i += 1;
    }
    aims
}

/// The aims of the enemies that outlive a shot at enemy `shot`. There is one
/// for each of them.
fn aims_of_survivors<P: Copy, S: Copy>(
    enemies: &Vec<Enemy<P, S>>,
    stand: &Vec<Stance<P>>,
    shot: usize,
) -> (aims: Vec<Aim<P>>)
    requires
        stand@.len() == enemies@.len(),
        shot < enemies@.len(),
    ensures
        aims@ == aims_of_living(after_shot(enemies@, Some(shot as int)), stand@),
        aims@.len() == living(after_shot(enemies@, Some(shot as int))).len(),
{
    let ghost wounded = after_shot(enemies@, Some(shot as int));
    let ghost standing = Seq::new(enemies@.len(), |i: int| (wounded[i], stand@[i]));
    let mut aims: Vec<Aim<P>> = Vec::new();
    let mut i: usize = 0;
    while i < enemies.len()
        invariant
            i <= enemies.len(),
            stand@.len() == enemies@.len(),
            shot < enemies@.len(),
            wounded == after_shot(enemies@, Some(shot as int)),
            standing == Seq::new(enemies@.len(), |i: int| (wounded[i], stand@[i])),
            aims@ == standing.take(i as int).filter_map(
                |standing: (Enemy<P, S>, Stance<P>)|
                    if standing.0.hp > 0 {
                        Some(standing.1.aim)
                    } else {
                        None
                    },
            ),
            aims@.len() == living(wounded.take(i as int)).len(),
        decreases enemies.len() - i,
    {
        let hp = if i == shot {
            minus(enemies[i].hp, GUN_DAMAGE)
        } else {
            enemies[i].hp
        };
        proof {
            standing.lemma_filter_map_take_succ(
                |standing: (Enemy<P, S>, Stance<P>)|
                    if standing.0.hp > 0 {
                        Some(standing.1.aim)
                    } else {
                        None
                    },
                i as int,
            );
            assert(wounded.take(i as int + 1) =~= wounded.take(i as int).push(wounded[i as int]));
            wounded.take(i as int).lemma_filter_push(
                wounded[i as int],
                |enemy: Enemy<P, S>| enemy.hp > 0,
            );
        }
        if hp > 0 {
            aims.push(stand[i].aim);
        }
        i += 1;
    }
    assert(standing.take(i as int) =~= standing);
    assert(wounded.take(i as int) =~= wounded);
    aims
}

/// Moves the level on by one frame of `delta` microseconds, and gives the
/// events that the frame asks for. `frame` holds what the geometry says of
/// the level as it stands before the frame.
pub fn next_game_step<P: Copy, S: Copy>(
    game_objects: GameObjects<P, S>,
    frame: &Frame<P>,
    delta: u64,
) -> (stepped: (GameObjects<P, S>, Vec<GameEvent<P>>))
    requires
        frame.fits(game_objects@),
    ensures
        stepped.0@ == next_step(game_objects@, *frame, delta).0,
        stepped.1@ == next_step(game_objects@, *frame, delta).1,
        game_objects@.wf() ==> stepped.0@.wf() && forall|i: int|
            0 <= i < stepped.1@.len() ==> (#[trigger] stepped.1@[i]).wf(),
{
    let GameObjects {
        player,
        player_info,
        walls,
        enemies,
        keys,
        exit_triggers,
        decorations,
        projectiles,
    } = game_objects;

    let stand = stances_of_enemies(&enemies, &frame.pursuits);
    let moved_enemies = move_enemies_towards_player(enemies, &frame.pursuits);

    let (player_info_shoot, can_shoot) = update_shoot(player_info, delta);

    let (shot_enemies, kill_enemies_events, aims) = if can_shoot {
        let sightings = sightings_of_stances(&stand);
        let (shot, _) = find_shot_enemy(
            &moved_enemies,
            &sightings,
            &frame.wall_hits,
            frame.max_shoot_distance,
        );
        let aims = match shot {
            Some(shot) => aims_of_survivors(&moved_enemies, &stand, shot),
            None => aims_of_stances(&stand),
        };
        let (shot_enemies, kill_enemies_events) = shoot_enemies(
            moved_enemies,
            &sightings,
            &frame.wall_hits,
            frame.max_shoot_distance,
        );
        (shot_enemies, kill_enemies_events, aims)
    } else {
        let aims = aims_of_stances(&stand);
        (moved_enemies, Vec::new(), aims)
    };

    let (attacked_enemies, attack_events) = enemies_attack_player(shot_enemies, &aims, delta);

    let updated_decorations = update_decorations(decorations, delta);

    let (projectiles, projectile_events) = update_projctiles(projectiles, &frame.flights);

    let (new_keys, key_events) = check_pickup_key(keys, &frame.touching);
    let events = collect_events(key_events, kill_enemies_events, attack_events, projectile_events);

    let new_game_objects = GameObjects {
        player,
        player_info: player_info_shoot,
        walls,
        enemies: attacked_enemies,
        keys: new_keys,
        exit_triggers,
        decorations: updated_decorations,
        projectiles,
    };
    (new_game_objects, events)
}

} // verus!
