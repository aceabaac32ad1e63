use std::collections::HashMap;
use std::time::Duration;

use glam::{vec2, Vec2};
use raycast_shooter::constants::{
    ENEMY_HP, GUNSHOT_ANIMATION_LENGTH, GUNSHOT_ANIMATION_SPEED, GUN_DAMAGE, MAX_BULLETS,
    MELEE_ENEMY_DAMAGE, MELEE_SLOW_ENEMY_HEALTH, PLAYER_MAX_HEALTH, POINT,
    RANGED_ENEMY_ATTACK_DELAY, RANGED_ENEMY_DAMAGE, SHOOT_SPEED,
};
use raycast_shooter::controller::{
    collect_events, handle_events, is_game_over, is_game_won, next_game_step, regenerate_player,
    reset_state, update_decorations, Frame,
};
use raycast_shooter::file_loaders::completion_time_loader::{
    load_best_for_level, save_best_for_level, BestCompletionTimes,
};
use raycast_shooter::focus_manager::FocusManager;
use raycast_shooter::game_state::{
    closing_sound, game_over_run, game_won_run, judge, level_complete, level_won_run, normal_run,
    read_answer, Answer, GameState, Verdict,
};
use raycast_shooter::model::decoration::{Decoration, DecorationGraphics};
use raycast_shooter::model::enemy::{Enemy, EnemyType};
use raycast_shooter::model::key_object::KeyObject;
use raycast_shooter::model::{
    Animation, Entity, GameEvent, GameObjects, Player, PlayerInfo, ShootingStatus, Sizes, SoundId,
    TextureId, Wall,
};
use raycast_shooter::model::projectile::Projectile;
use raycast_shooter::service::enemy::{Aim, Pursuit, SideStep, Stance};
use raycast_shooter::service::key::check_pickup_key;
use raycast_shooter::service::player::move_player_entity;
use raycast_shooter::service::projectile::Flight;
use raycast_shooter::service::shoot::{
    create_corpse, create_shot_animation_decoration, Sighting, WallHit,
};

const PLAYER_SIZE: f32 = 0.2;
const KEY_SIZE: f32 = 0.5;

const SIZES: Sizes<f32> = Sizes {
    corpse_size: 0.15,
    corpse_offset: 0.45,
    shot_animation_size: 0.2,
    shot_animation_offset: 0.1,
    projectile_size: 0.1,
};

fn check_circles_collide(center1: Vec2, radius1: f32, center2: Vec2, radius2: f32) -> bool {
    center1.distance(center2) <= radius1 + radius2
}

fn line_intersects_circle(start: Vec2, end: Vec2, center: Vec2, radius: f32) -> bool {
    let d = end - start;
    let f = start - center;
    let a = d.x * d.x + d.y * d.y;
    let b = 2.0 * (f.x * d.x + f.y * d.y);
    let c = (f.x * f.x + f.y * f.y) - radius * radius;
    let discriminant = b * b - 4.0 * a * c;
    if discriminant < f32::EPSILON {
        false
    } else {
        let discriminant_sqrt = discriminant.sqrt();
        let t1 = (-b - discriminant_sqrt) / (2.0 * a);
        let t2 = (-b + discriminant_sqrt) / (2.0 * a);
        (0.0..=1.0).contains(&t1) || (0.0..=1.0).contains(&t2)
    }
}

/// A level with one key at (5, 0), one exit at (0, 5) and no enemies; the
/// player starts at the origin, away from both.
fn small_level() -> GameObjects<Vec2, f32> {
    GameObjects::new(
        Player { entity: Entity { position: vec2(0.0, 0.0), size: PLAYER_SIZE }, look: vec2(1.0, 0.0) },
        vec![Wall { texture: TextureId::Stone, start: vec2(-10.0, -10.0), end: vec2(10.0, -10.0) }],
        vec![],
        vec![KeyObject { id: 1, entity: Entity { position: vec2(5.0, 0.0), size: KEY_SIZE } }],
        vec![Entity { position: vec2(0.0, 5.0), size: 1.0 }],
    )
}

fn walk_to(game_objects: &mut GameObjects<Vec2, f32>, target: Vec2) {
    let hits: Vec<bool> = game_objects
        .walls
        .iter()
        .map(|wall| line_intersects_circle(wall.start, wall.end, target, game_objects.player.entity.size))
        .collect();
    game_objects.player.entity = move_player_entity(game_objects.player.entity, target, &hits);
}

fn pick_up_keys(game_objects: &mut GameObjects<Vec2, f32>) {
    let player = game_objects.player.entity;
    let touching: Vec<bool> = game_objects
        .keys
        .iter()
        .map(|key| {
            check_circles_collide(key.entity.position, key.entity.size, player.position, player.size)
        })
        .collect();
    let keys = std::mem::take(&mut game_objects.keys);
    let (keys, events) = check_pickup_key(keys, &touching);
    game_objects.keys = keys;
    let flashes = vec![player.position; events.len()];
    handle_events(game_objects, &events, &flashes, &SIZES);
}

fn won(game_objects: &GameObjects<Vec2, f32>) -> bool {
    let player = game_objects.player.entity;
    let exit_overlaps: Vec<bool> = game_objects
        .exit_triggers
        .iter()
        .map(|exit| check_circles_collide(exit.position, exit.size, player.position, player.size))
        .collect();
    is_game_won(game_objects, &exit_overlaps)
}

#[test]
fn test_level_is_won_with_all_keys_at_the_exit() {
    let mut game_objects = small_level();
    assert!(!won(&game_objects));

    // at the exit without the key: not won
    walk_to(&mut game_objects, vec2(0.0, 5.0));
    pick_up_keys(&mut game_objects);
    assert_eq!(game_objects.keys.len(), 1);
    assert!(!won(&game_objects));

    // onto the key: it is picked up, but the exit is not reached
    walk_to(&mut game_objects, vec2(5.0, 0.0));
    pick_up_keys(&mut game_objects);
    assert_eq!(game_objects.keys.len(), 0);
    assert_eq!(game_objects.player_info.picked_up_keys, 1);
    assert!(!won(&game_objects));

    // then onto the exit: won
    walk_to(&mut game_objects, vec2(0.0, 5.0));
    pick_up_keys(&mut game_objects);
    assert_eq!(game_objects.player.entity.position, vec2(0.0, 5.0));
    assert!(won(&game_objects));
    assert!(!is_game_over(&game_objects));
}

#[test]
fn test_is_game_won_needs_no_keys_and_an_exit() {
    let mut game_objects = small_level();
    assert!(!is_game_won(&game_objects, &vec![true]));
    assert!(!is_game_won(&game_objects, &vec![false]));
    game_objects.keys.clear();
    assert!(is_game_won(&game_objects, &vec![true]));
    assert!(is_game_won(&game_objects, &vec![false, false, true]));
    assert!(!is_game_won(&game_objects, &vec![false, false]));
    assert!(!is_game_won(&game_objects, &vec![]));
}

#[test]
fn test_deadly_damage_ends_the_game() {
    let mut game_objects = small_level();
    assert_eq!(game_objects.player_info.health, PLAYER_MAX_HEALTH);
    assert!(!is_game_over(&game_objects));

    let health = game_objects.player_info.health;
    let events = vec![GameEvent::PlayerTakeDamage(health + POINT)];
    let sounds = handle_events(&mut game_objects, &events, &vec![vec2(0.0, 0.0)], &SIZES);

    assert_eq!(game_objects.player_info.health, -POINT);
    assert!(game_objects.player_info.health < 0);
    assert!(is_game_over(&game_objects));
    assert_eq!(sounds, vec![SoundId::PlayerTakeDamage]);
}

#[test]
fn test_is_game_over_at_zero_health() {
    let mut game_objects = small_level();
    game_objects.player_info.health = 1;
    assert!(!is_game_over(&game_objects));
    game_objects.player_info.health = 0;
    assert!(is_game_over(&game_objects));
    game_objects.player_info.health = i64::MIN;
    assert!(is_game_over(&game_objects));
    handle_events(&mut game_objects, &vec![GameEvent::PlayerTakeDamage(5)], &vec![vec2(0.0, 0.0)], &SIZES);
    assert_eq!(game_objects.player_info.health, i64::MIN);
}

#[test]
fn test_handle_events() {
    let mut game_objects = small_level();
    let events = vec![
        GameEvent::PickUpKey,
        GameEvent::EnemyKilled { position: vec2(1.0, 1.0) },
        GameEvent::LocationShot { position: vec2(2.0, 2.0) },
        GameEvent::PlayerTakeDamage(30 * POINT),
        GameEvent::CreateProjectile {
            position: vec2(3.0, 3.0),
            direction: vec2(0.0, -3.4),
            damage: 40 * POINT,
        },
        GameEvent::PickUpKey,
        GameEvent::PlayerTakeDamage(-5 * POINT),
    ];
    let flashes = vec![
        vec2(0.0, 0.0),
        vec2(0.0, 0.0),
        vec2(1.9, 1.9),
        vec2(0.0, 0.0),
        vec2(0.0, 0.0),
        vec2(0.0, 0.0),
        vec2(0.0, 0.0),
    ];
    let sounds = handle_events(&mut game_objects, &events, &flashes, &SIZES);

    assert_eq!(
        sounds,
        vec![
            SoundId::PickUpKey,
            SoundId::ShotHit,
            SoundId::PlayerTakeDamage,
            SoundId::PickUpKey,
            SoundId::PlayerTakeDamage
        ]
    );
    assert_eq!(game_objects.player_info.picked_up_keys, 2);
    assert_eq!(game_objects.player_info.health, PLAYER_MAX_HEALTH - 25 * POINT);
    assert_eq!(game_objects.player_info.bullets, MAX_BULLETS);
    assert_eq!(game_objects.keys.len(), 1);

    assert_eq!(game_objects.decorations.len(), 2);
    let corpse = &game_objects.decorations[0];
    assert_eq!(corpse.entity.position, vec2(1.0, 1.0));
    assert_eq!(corpse.entity.size, 0.15);
    assert_eq!(corpse.offset, 0.45);
    assert_eq!(corpse.life, None);
    assert!(matches!(corpse.graphics, DecorationGraphics::Texture(TextureId::Skull)));
    let flash = &game_objects.decorations[1];
    assert_eq!(flash.entity.position, vec2(1.9, 1.9));
    assert_eq!(flash.entity.size, 0.2);
    assert_eq!(flash.offset, 0.1);
    assert_eq!(flash.life, Some(GUNSHOT_ANIMATION_LENGTH));
    assert!(matches!(
        flash.graphics,
        DecorationGraphics::Animation { animation: Animation::Explosion, animation_speed }
            if animation_speed == GUNSHOT_ANIMATION_SPEED
    ));

    assert_eq!(game_objects.projectiles.len(), 1);
    let projectile = &game_objects.projectiles[0];
    assert_eq!(projectile.entity.position, vec2(3.0, 3.0));
    assert_eq!(projectile.entity.size, 0.1);
    assert_eq!(projectile.direction, vec2(0.0, -3.4));
    assert_eq!(projectile.damage, 40 * POINT);
    assert_eq!(projectile.texture, TextureId::Projectile);

    // nothing asked, nothing done
    let sounds = handle_events(&mut game_objects, &vec![], &vec![], &SIZES);
    assert!(sounds.is_empty());
    assert_eq!(game_objects.decorations.len(), 2);
}

#[test]
fn test_key_count_stops_at_the_end_of_its_range() {
    let mut game_objects = small_level();
    game_objects.player_info.picked_up_keys = usize::MAX - 1;
    let events = vec![GameEvent::PickUpKey, GameEvent::PickUpKey];
    handle_events(&mut game_objects, &events, &vec![vec2(0.0, 0.0); 2], &SIZES);
    assert_eq!(game_objects.player_info.picked_up_keys, usize::MAX);
}

#[test]
fn test_decorations() {
    let corpse = create_corpse(vec2(1.0, 2.0), &SIZES);
    let flash = create_shot_animation_decoration(vec2(3.0, 4.0), &SIZES);
    assert_eq!(corpse.get_texture(&Duration::from_millis(500)), TextureId::Skull);
    assert_eq!(flash.get_texture(&Duration::from_millis(0)), TextureId::Explostion2);

    let aged: Vec<Decoration<Vec2, f32>> =
        update_decorations(vec![flash, corpse, flash, corpse], GUNSHOT_ANIMATION_LENGTH - 1);
    assert_eq!(aged.len(), 4);
    assert_eq!(aged[0].life, Some(1));
    assert_eq!(aged[1].life, None);

    let aged = update_decorations(aged, 1);
    assert_eq!(aged.len(), 2);
    assert_eq!(aged[0].entity.position, vec2(1.0, 2.0));
    assert_eq!(aged[1].entity.position, vec2(1.0, 2.0));
    assert!(update_decorations::<Vec2, f32>(vec![], 5).is_empty());
}

#[test]
fn test_collect_events_order() {
    let events = collect_events::<Vec2>(
        vec![GameEvent::PickUpKey],
        vec![
            GameEvent::EnemyKilled { position: vec2(1.0, 0.0) },
            GameEvent::LocationShot { position: vec2(1.0, 0.0) },
        ],
        vec![GameEvent::PlayerTakeDamage(3)],
        vec![GameEvent::PlayerTakeDamage(4), GameEvent::LocationShot { position: vec2(2.0, 0.0) }],
    );
    assert_eq!(events.len(), 6);
    assert!(matches!(events[0], GameEvent::PickUpKey));
    assert!(matches!(events[1], GameEvent::EnemyKilled { .. }));
    assert!(matches!(events[2], GameEvent::LocationShot { position } if position == vec2(1.0, 0.0)));
    assert!(matches!(events[3], GameEvent::PlayerTakeDamage(3)));
    assert!(matches!(events[4], GameEvent::PlayerTakeDamage(4)));
    assert!(matches!(events[5], GameEvent::LocationShot { position } if position == vec2(2.0, 0.0)));
    assert!(collect_events::<Vec2>(vec![], vec![], vec![], vec![]).is_empty());
}

#[test]
fn test_reset_state() {
    let mut game_objects = small_level();
    game_objects.player_info.shooting_status = ShootingStatus::Shooting;
    reset_state(&mut game_objects);
    assert_eq!(game_objects.player_info.shooting_status, ShootingStatus::NotShooting);
    game_objects.player_info.shooting_status = ShootingStatus::Reloading;
    reset_state(&mut game_objects);
    assert_eq!(game_objects.player_info.shooting_status, ShootingStatus::Reloading);
}

#[test]
fn test_new_level_and_new_enemies() {
    let game_objects = small_level();
    let fresh = PlayerInfo::default();
    assert_eq!(game_objects.player_info.shooting_status, fresh.shooting_status);
    assert_eq!(game_objects.player_info.shooting_status, ShootingStatus::NotShooting);
    assert_eq!(game_objects.player_info.bullets, MAX_BULLETS);
    assert_eq!(game_objects.player_info.health, PLAYER_MAX_HEALTH);
    assert_eq!(game_objects.player_info.picked_up_keys, 0);
    assert_eq!(game_objects.player_info.time_since_last_shot, 0);
    assert!(game_objects.decorations.is_empty());
    assert!(game_objects.projectiles.is_empty());
    assert_eq!(game_objects.walls.len(), 1);

    let melee = EnemyType::Melee.to_enemy(8, vec2(1.0, 2.0), 0.8f32);
    assert_eq!(melee.id, 8);
    assert_eq!(melee.entity.position, vec2(1.0, 2.0));
    assert_eq!(melee.entity.size, 0.8);
    assert_eq!(melee.hp, ENEMY_HP);
    assert_eq!(melee.attack_delay, 0);
    assert_eq!(melee.enemy_type, EnemyType::Melee);
    let ranged = EnemyType::Ranged.to_enemy(9, vec2(1.0, 2.0), 0.8f32);
    assert_eq!(ranged.hp, ENEMY_HP);
    assert_eq!(ranged.attack_delay, RANGED_ENEMY_ATTACK_DELAY);
    let slow = EnemyType::MeleeSlow.to_enemy(10, vec2(1.0, 2.0), 0.8f32);
    assert_eq!(slow.hp, MELEE_SLOW_ENEMY_HEALTH);
    assert_eq!(slow.attack_delay, 0);
    assert_eq!(slow.enemy_type, EnemyType::MeleeSlow);
}

#[test]
fn test_best_completion_times() {
    let (mut file, is_new) = BestCompletionTimes::load(None);
    assert!(is_new);
    assert!(file.times.is_empty());
    assert_eq!(load_best_for_level(&file, 1), Duration::MAX);

    save_best_for_level(&mut file, 1, &Duration::from_secs(90));
    assert_eq!(load_best_for_level(&file, 1), Duration::from_secs(90));
    assert_eq!(load_best_for_level(&file, 2), Duration::MAX);

    // a longer time does not beat the record, nor does an equal one change it
    save_best_for_level(&mut file, 1, &Duration::from_secs(91));
    assert_eq!(load_best_for_level(&file, 1), Duration::from_secs(90));
    save_best_for_level(&mut file, 1, &Duration::from_secs(90));
    assert_eq!(load_best_for_level(&file, 1), Duration::from_secs(90));

    // a shorter one does
    save_best_for_level(&mut file, 1, &Duration::from_millis(89_999));
    assert_eq!(load_best_for_level(&file, 1), Duration::from_millis(89_999));

    // each level has its own record
    save_best_for_level(&mut file, 2, &Duration::from_secs(300));
    assert_eq!(load_best_for_level(&file, 2), Duration::from_secs(300));
    assert_eq!(load_best_for_level(&file, 1), Duration::from_millis(89_999));
    assert_eq!(file.times.len(), 2);

    let mut times = HashMap::new();
    times.insert(4u32, Duration::from_secs(4));
    let (file, is_new) = BestCompletionTimes::load(Some(BestCompletionTimes { times }));
    assert!(!is_new);
    assert_eq!(load_best_for_level(&file, 4), Duration::from_secs(4));
}

#[test]
fn test_focus_manager() {
    let mut focus_manager = FocusManager::new();
    assert!(focus_manager.is_focused());
    assert_eq!(focus_manager.update(false), None);
    assert!(focus_manager.is_focused());
    assert_eq!(focus_manager.update(true), Some(false));
    assert!(!focus_manager.is_focused());
    assert_eq!(focus_manager.update(false), None);
    assert!(!focus_manager.is_focused());
    assert_eq!(focus_manager.update(true), Some(true));
    assert!(focus_manager.is_focused());
}

fn name(state: &GameState<u32, ()>) -> (&'static str, Option<u32>, Option<Duration>) {
    match state {
        GameState::Running { context, .. } => ("running", Some(*context), None),
        GameState::LevelWon { context, time_to_complete, .. } => {
            ("level won", Some(*context), Some(*time_to_complete))
        }
        GameState::GameOver { context, .. } => ("game over", Some(*context), None),
        GameState::GameWon { time_to_complete, .. } => ("game won", None, Some(*time_to_complete)),
    }
}

#[test]
fn test_game_state() {
    let time = Duration::from_secs(75);

    assert_eq!(read_answer(true, true), Answer::No);
    assert_eq!(read_answer(true, false), Answer::No);
    assert_eq!(read_answer(false, true), Answer::Yes);
    assert_eq!(read_answer(false, false), Answer::Nothing);

    assert_eq!(judge(true, true), Verdict::Lost);
    assert_eq!(judge(true, false), Verdict::Lost);
    assert_eq!(judge(false, true), Verdict::Won);
    assert_eq!(judge(false, false), Verdict::Undecided);
    assert_eq!(closing_sound(Verdict::Lost), Some(SoundId::Lose));
    assert_eq!(closing_sound(Verdict::Won), Some(SoundId::Escape));
    assert_eq!(closing_sound(Verdict::Undecided), None);

    assert_eq!(name(&level_complete(Some(2), time, ())), ("level won", Some(2), Some(time)));
    assert_eq!(name(&level_complete::<u32, ()>(None, time, ())), ("game won", None, Some(time)));

    let (state, exit) = normal_run(1, (), Verdict::Undecided, Some(2), time);
    assert_eq!((name(&state), exit), (("running", Some(1), None), false));
    let (state, exit) = normal_run(1, (), Verdict::Lost, Some(2), time);
    assert_eq!((name(&state), exit), (("game over", Some(1), None), false));
    let (state, exit) = normal_run(1, (), Verdict::Won, Some(2), time);
    assert_eq!((name(&state), exit), (("level won", Some(2), Some(time)), false));
    let (state, exit) = normal_run(1, (), Verdict::Won, None, time);
    assert_eq!((name(&state), exit), (("game won", None, Some(time)), false));

    let (state, exit) = game_over_run(1, (), Answer::No, Some(7));
    assert_eq!((name(&state), exit), (("game over", Some(1), None), true));
    let (state, exit) = game_over_run(1, (), Answer::Yes, Some(7));
    assert_eq!((name(&state), exit), (("running", Some(7), None), false));
    let (state, exit) = game_over_run(1, (), Answer::Yes, None);
    assert_eq!((name(&state), exit), (("game over", Some(1), None), false));
    let (state, exit) = game_over_run(1, (), Answer::Nothing, Some(7));
    assert_eq!((name(&state), exit), (("game over", Some(1), None), false));

    let (state, exit) = game_won_run(time, (), Answer::No, Some(1));
    assert_eq!((name(&state), exit), (("game won", None, Some(time)), true));
    let (state, exit) = game_won_run(time, (), Answer::Yes, Some(1));
    assert_eq!((name(&state), exit), (("running", Some(1), None), false));
    let (state, exit) = game_won_run::<u32, ()>(time, (), Answer::Yes, None);
    assert_eq!((name(&state), exit), (("game won", None, Some(time)), false));
    let (state, exit) = game_won_run(time, (), Answer::Nothing, Some(1));
    assert_eq!((name(&state), exit), (("game won", None, Some(time)), false));

    let (state, exit) = level_won_run(2, time, (), Answer::No);
    assert_eq!((name(&state), exit), (("level won", Some(2), Some(time)), true));
    let (state, exit) = level_won_run(2, time, (), Answer::Yes);
    assert_eq!((name(&state), exit), (("running", Some(2), None), false));
    let (state, exit) = level_won_run(2, time, (), Answer::Nothing);
    assert_eq!((name(&state), exit), (("level won", Some(2), Some(time)), false));
}

fn enemy_at(id: u64, enemy_type: EnemyType, position: Vec2, hp: i64) -> Enemy<Vec2, f32> {
    Enemy { hp, ..enemy_type.to_enemy(id, position, 0.8) }
}

fn stance(on_ray: bool, distance: u64, can_attack: bool) -> Stance<Vec2> {
    Stance {
        sighting: Sighting { on_ray, distance },
        aim: Aim { can_attack, direction: vec2(0.0, -3.4) },
    }
}

/// An enemy that takes a free straight step to `step`, where `there` holds.
fn walks_to(step: Vec2, there: Stance<Vec2>) -> Pursuit<Vec2> {
    Pursuit {
        out_of_range: false,
        stay: stance(false, 0, false),
        step,
        step_blocked: false,
        step_stance: there,
        side_steps: vec![],
    }
}

#[test]
fn test_next_game_step() {
    let mut game_objects = small_level();
    game_objects.enemies = vec![
        // walks into the line of fire, nearest to the player, and is one shot from death
        enemy_at(1, EnemyType::Melee, vec2(4.0, 1.0), GUN_DAMAGE),
        // walks into the line of fire farther off
        enemy_at(2, EnemyType::Melee, vec2(8.0, 1.0), ENEMY_HP),
        // stands off the line and has the player in reach
        enemy_at(3, EnemyType::Ranged, vec2(0.0, 6.0), ENEMY_HP),
    ];
    game_objects.enemies[2].attack_delay = 10;
    game_objects.keys.push(KeyObject { id: 2, entity: Entity { position: vec2(0.1, 0.0), size: KEY_SIZE } });
    game_objects.decorations = vec![
        create_shot_animation_decoration(vec2(1.0, 1.0), &SIZES),
        create_corpse(vec2(2.0, 2.0), &SIZES),
    ];
    game_objects.projectiles = vec![Projectile {
        entity: Entity { position: vec2(0.0, 3.0), size: 0.1 },
        direction: vec2(0.0, -3.4),
        damage: 40 * POINT,
        texture: TextureId::Projectile,
    }];
    game_objects.player_info = PlayerInfo {
        shooting_status: ShootingStatus::Shooting,
        time_since_last_shot: SHOOT_SPEED,
        bullets: 2,
        picked_up_keys: 0,
        health: 90 * POINT,
    };

    let frame = Frame {
        pursuits: vec![
            walks_to(vec2(3.0, 0.0), stance(true, 30, true)),
            walks_to(vec2(7.0, 0.0), stance(true, 70, false)),
            Pursuit {
                out_of_range: false,
                stay: stance(false, 60, true),
                step: vec2(0.0, 5.0),
                step_blocked: true,
                step_stance: stance(false, 50, true),
                side_steps: vec![SideStep {
                    position: vec2(1.0, 6.0),
                    blocked: false,
                    distance: 61,
                    stance: stance(false, 61, false),
                }],
            },
        ],
        wall_hits: vec![Some(WallHit { point: vec2(50.0, 0.0), distance: 500 })],
        max_shoot_distance: 1000,
        flights: vec![Flight {
            new_position: vec2(0.0, 0.1),
            wall_hits: vec![None],
            hits_player: true,
        }],
        touching: vec![false, true],
    };

    let (after, events) = next_game_step(game_objects, &frame, 20_000);

    // the weapon fired; health and the count of keys wait for the events
    assert_eq!(after.player_info.bullets, 1);
    assert_eq!(after.player_info.time_since_last_shot, 0);
    assert_eq!(after.player_info.shooting_status, ShootingStatus::Shooting);
    assert_eq!(after.player_info.health, 90 * POINT);
    assert_eq!(after.player_info.picked_up_keys, 0);

    // the first enemy walked into the shot and died; the others are left,
    // moved, and have attacked or not
    assert_eq!(after.enemies.len(), 2);
    assert_eq!(after.enemies[0].id, 2);
    assert_eq!(after.enemies[0].entity.position, vec2(7.0, 0.0));
    assert_eq!(after.enemies[0].hp, ENEMY_HP);
    assert_eq!(after.enemies[0].attack_delay, 0);
    assert_eq!(after.enemies[1].id, 3);
    assert_eq!(after.enemies[1].entity.position, vec2(0.0, 6.0));
    assert_eq!(after.enemies[1].attack_delay, RANGED_ENEMY_ATTACK_DELAY);

    // the touched key is gone, the flash has aged, the projectile is spent
    assert_eq!(after.keys.len(), 1);
    assert_eq!(after.keys[0].id, 1);
    assert_eq!(after.decorations.len(), 2);
    assert_eq!(after.decorations[0].life, Some(GUNSHOT_ANIMATION_LENGTH - 20_000));
    assert_eq!(after.decorations[1].life, None);
    assert!(after.projectiles.is_empty());
    assert_eq!(after.walls.len(), 1);
    assert_eq!(after.exit_triggers.len(), 1);
    assert_eq!(after.player.entity.position, vec2(0.0, 0.0));

    // keys first, then the shot, then attacks, then projectiles
    let mut after = after;
    assert_eq!(events.len(), 6);
    assert!(matches!(events[0], GameEvent::PickUpKey));
    assert!(matches!(events[1], GameEvent::EnemyKilled { position } if position == vec2(3.0, 0.0)));
    assert!(matches!(events[2], GameEvent::LocationShot { position } if position == vec2(3.0, 0.0)));
    assert!(matches!(
        events[3],
        GameEvent::CreateProjectile { position, direction, damage }
            if position == vec2(0.0, 6.0) && direction == vec2(0.0, -3.4) && damage == RANGED_ENEMY_DAMAGE
    ));
    assert!(matches!(events[4], GameEvent::PlayerTakeDamage(damage) if damage == 40 * POINT));
    assert!(matches!(events[5], GameEvent::LocationShot { position } if position == vec2(0.0, 0.1)));

    // the events are done, and then the player heals for the length of the frame
    let flashes = vec![vec2(0.0, 0.0); events.len()];
    let sounds = handle_events(&mut after, &events, &flashes, &SIZES);
    regenerate_player(&mut after, 20_000);
    assert_eq!(
        sounds,
        vec![SoundId::PickUpKey, SoundId::ShotHit, SoundId::PlayerTakeDamage, SoundId::ShotHit]
    );
    assert_eq!(after.player_info.picked_up_keys, 1);
    assert_eq!(after.player_info.health, 50 * POINT + 40_000);
    assert_eq!(after.projectiles.len(), 1);
    assert_eq!(after.projectiles[0].entity.position, vec2(0.0, 6.0));
    assert_eq!(after.decorations.len(), 5);
    assert!(!is_game_over(&after));
}

#[test]
fn test_regenerate_player() {
    let mut game_objects = small_level();
    game_objects.player_info.health = 10 * POINT;
    game_objects.player_info.bullets = 3;
    regenerate_player(&mut game_objects, 500_000);
    assert_eq!(game_objects.player_info.health, 11 * POINT);
    assert_eq!(game_objects.player_info.bullets, 3);
    regenerate_player(&mut game_objects, u64::MAX);
    assert_eq!(game_objects.player_info.health, PLAYER_MAX_HEALTH);
    assert_eq!(game_objects.keys.len(), 1);
}

#[test]
fn test_next_game_step_without_a_shot() {
    let mut game_objects = small_level();
    game_objects.enemies = vec![enemy_at(1, EnemyType::Melee, vec2(4.0, 1.0), 0)];
    let frame = Frame {
        pursuits: vec![walks_to(vec2(3.0, 0.0), stance(true, 30, true))],
        wall_hits: vec![None],
        max_shoot_distance: 1000,
        flights: vec![],
        touching: vec![false],
    };
    let (after, events) = next_game_step(game_objects, &frame, SHOOT_SPEED);

    // no shot, so nobody is hit or taken out, not even the dead
    assert_eq!(after.player_info.shooting_status, ShootingStatus::NotShooting);
    assert_eq!(after.player_info.bullets, MAX_BULLETS);
    assert_eq!(after.player_info.time_since_last_shot, SHOOT_SPEED);
    assert_eq!(after.player_info.health, PLAYER_MAX_HEALTH);
    assert_eq!(after.enemies.len(), 1);
    assert_eq!(after.enemies[0].hp, 0);
    assert_eq!(after.enemies[0].entity.position, vec2(3.0, 0.0));
    assert_eq!(after.keys.len(), 1);
    assert_eq!(events.len(), 1);
    assert!(matches!(events[0], GameEvent::PlayerTakeDamage(damage) if damage == MELEE_ENEMY_DAMAGE));
}
