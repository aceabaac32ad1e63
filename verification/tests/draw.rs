use std::time::Duration;

use raycast_shooter::constants::{
    GUNSHOT_ANIMATION_SPEED, GUN_FIRE_ANIMATION_SPEED, KEY_ANIMATION_SPEED_TEXTURES, MAX_BULLETS,
    MELEE_ENEMY_ANIMATION_SPEED, MELEE_SLOW_ENEMY_ANIMATION_SPEED, RANGED_ENEMY_ANIMATION_SPEED,
};
use raycast_shooter::draw::bullets_display::draw_bullets_display;
use raycast_shooter::draw::exit_text_sprite::{create_exit_text, ExitContact};
use raycast_shooter::draw::gun::draw_gun;
use raycast_shooter::draw::key_display::draw_key_display;
use raycast_shooter::draw::select_animation_texture;
use raycast_shooter::draw::wall::{cast_ray, RayHit};
use raycast_shooter::file_loaders::texture_manager::create_default_texture;
use raycast_shooter::math::{any_hit, first_hit, minus, nearest};
use raycast_shooter::model::decoration::{Decoration, DecorationGraphics};
use raycast_shooter::model::enemy::EnemyType;
use raycast_shooter::model::key_object::KeyObject;
use raycast_shooter::model::projectile::Projectile;
use raycast_shooter::model::{
    Animation, Entity, GameObjects, Player, PlayerInfo, ShootingStatus, TextureId,
};
use raycast_shooter::renderer::time_to_text;
use raycast_shooter::text::{push_decimal, push_two_digits};

type Point = (i32, i32);

fn level(keys: usize, picked_up_keys: usize, exits: Vec<Point>) -> GameObjects<Point, u8> {
    let mut game_objects = GameObjects::new(
        Player { entity: Entity { position: (0, 0), size: 1 }, look: (1, 0) },
        vec![],
        vec![],
        vec![KeyObject { id: 0, entity: Entity { position: (5, 5), size: 1 } }],
        exits.into_iter().map(|position| Entity { position, size: 2 }).collect(),
    );
    game_objects.keys = (0..keys)
        .map(|id| KeyObject { id: id as u64, entity: Entity { position: (5, 5), size: 1 } })
        .collect();
    game_objects.player_info.picked_up_keys = picked_up_keys;
    game_objects
}

#[test]
fn test_select_animation_texture() {
    let textures = vec![TextureId::Debug, TextureId::Stone, TextureId::Metal];

    let speed = 100;

    let time_from_start1 = Duration::from_millis(0);
    let selected_texture1 = select_animation_texture(&textures, speed, &time_from_start1);
    assert_eq!(selected_texture1, TextureId::Debug);

    let time_from_start2 = Duration::from_millis(250);
    let selected_texture2 = select_animation_texture(&textures, speed, &time_from_start2);
    assert_eq!(selected_texture2, TextureId::Metal);

    let time_from_start3 = Duration::from_millis(50);
    let selected_texture3 = select_animation_texture(&textures, speed, &time_from_start3);
    assert_eq!(selected_texture3, TextureId::Debug);

    let time_from_start4 = Duration::from_millis(350);
    let selected_texture4 = select_animation_texture(&textures, speed, &time_from_start4);
    assert_eq!(selected_texture4, TextureId::Debug);
}

#[test]
fn test_select_animation_texture_counts_whole_milliseconds() {
    let textures = vec![TextureId::Key1, TextureId::Key2];
    assert_eq!(
        select_animation_texture(&textures, 1, &Duration::from_micros(999)),
        TextureId::Key1
    );
    assert_eq!(
        select_animation_texture(&textures, 1, &Duration::from_micros(1_000)),
        TextureId::Key2
    );
    assert_eq!(
        select_animation_texture(&textures, 7, &Duration::from_millis(6)),
        TextureId::Key1
    );
    assert_eq!(
        select_animation_texture(&textures, 7, &Duration::from_millis(7)),
        TextureId::Key2
    );
    assert_eq!(
        select_animation_texture(&textures, 7, &Duration::from_millis(14)),
        TextureId::Key1
    );
    assert_eq!(
        select_animation_texture(&[TextureId::Skull], 3, &Duration::from_secs(1_000)),
        TextureId::Skull
    );
}

#[test]
fn test_animation_textures() {
    assert_eq!(Animation::Key.get_textures(), vec![TextureId::Key1, TextureId::Key2]);
    let gun = Animation::Gun.get_textures();
    assert_eq!(gun.len(), 8);
    assert_eq!(gun[0], TextureId::Gun1);
    assert_eq!(gun[7], TextureId::Gun8);
    let explosion = Animation::Explosion.get_textures();
    assert_eq!(explosion.len(), 8);
    assert_eq!(explosion[0], TextureId::Explostion2);
    assert_eq!(explosion[7], TextureId::Explostion9);
    assert_eq!(Animation::Enemy.get_textures()[3], TextureId::Enemy4);
    assert_eq!(Animation::RangedEnemy.get_textures()[3], TextureId::RangedEnemy4);
    assert_eq!(Animation::MeleeSlowEnemy.get_textures()[3], TextureId::MeleeSlowEnemy4);
    assert_eq!(TextureId::default(), TextureId::Debug);
}

#[test]
fn test_enemy_type_animation() {
    assert_eq!(EnemyType::Melee.get_animation(), Animation::Enemy.get_textures());
    assert_eq!(EnemyType::Ranged.get_animation(), Animation::RangedEnemy.get_textures());
    assert_eq!(EnemyType::MeleeSlow.get_animation(), Animation::MeleeSlowEnemy.get_textures());
    assert_eq!(EnemyType::Melee.get_animation_speed(), MELEE_ENEMY_ANIMATION_SPEED);
    assert_eq!(EnemyType::Ranged.get_animation_speed(), RANGED_ENEMY_ANIMATION_SPEED);
    assert_eq!(EnemyType::MeleeSlow.get_animation_speed(), MELEE_SLOW_ENEMY_ANIMATION_SPEED);
    assert_eq!(MELEE_ENEMY_ANIMATION_SPEED, 100);
}

#[test]
fn test_sprite_textures() {
    let enemy = EnemyType::Ranged.to_enemy(1, (0, 0), 1u8);
    assert_eq!(enemy.get_texture(&Duration::from_millis(0)), TextureId::RangedEnemy1);
    assert_eq!(enemy.get_texture(&Duration::from_millis(250)), TextureId::RangedEnemy3);
    assert_eq!(enemy.get_texture(&Duration::from_millis(800)), TextureId::RangedEnemy1);

    let key = KeyObject { id: 1, entity: Entity { position: (0, 0), size: 1u8 } };
    let second_frame = Duration::from_millis(KEY_ANIMATION_SPEED_TEXTURES as u64);
    assert_eq!(key.get_texture(&Duration::from_millis(0)), TextureId::Key1);
    assert_eq!(key.get_texture(&second_frame), TextureId::Key2);
    assert_eq!(key.get_texture(&(second_frame * 2)), TextureId::Key1);

    let projectile = Projectile {
        entity: Entity { position: (0, 0), size: 1u8 },
        direction: (1, 1),
        damage: 1,
        texture: TextureId::Projectile,
    };
    assert_eq!(projectile.get_texture(&Duration::from_millis(123)), TextureId::Projectile);

    let skull = Decoration {
        entity: Entity { position: (0, 0), size: 1u8 },
        graphics: DecorationGraphics::Texture(TextureId::Skull),
        life: None,
        offset: 0,
    };
    assert_eq!(skull.get_texture(&Duration::from_millis(123)), TextureId::Skull);
    let flash = Decoration {
        graphics: DecorationGraphics::Animation {
            animation: Animation::Explosion,
            animation_speed: GUNSHOT_ANIMATION_SPEED,
        },
        ..skull
    };
    assert_eq!(flash.get_texture(&Duration::from_millis(0)), TextureId::Explostion2);
    assert_eq!(flash.get_texture(&Duration::from_millis(80)), TextureId::Explostion3);
    assert_eq!(flash.get_texture(&Duration::from_millis(239)), TextureId::Explostion4);
}

#[test]
fn test_decoration_update() {
    let flash = Decoration {
        entity: Entity { position: (0, 0), size: 1u8 },
        graphics: DecorationGraphics::Texture(TextureId::Skull),
        life: Some(300_000),
        offset: 0u8,
    };
    assert_eq!(flash.update(100_000).unwrap().life, Some(200_000));
    assert_eq!(flash.update(299_999).unwrap().life, Some(1));
    assert!(flash.update(300_000).is_none());
    assert!(flash.update(u64::MAX).is_none());
    let corpse = Decoration { life: None, ..flash };
    assert_eq!(corpse.update(u64::MAX).unwrap().life, None);
}

#[test]
fn test_draw_gun() {
    let frame = Duration::from_millis(GUN_FIRE_ANIMATION_SPEED as u64);
    assert_eq!(draw_gun(&(frame * 3), ShootingStatus::NotShooting).texture, TextureId::Gun1);
    assert_eq!(draw_gun(&(frame * 3), ShootingStatus::Reloading).texture, TextureId::Gun1);
    assert_eq!(draw_gun(&(frame * 3), ShootingStatus::Shooting).texture, TextureId::Gun4);
    assert_eq!(draw_gun(&(frame * 8), ShootingStatus::Shooting).texture, TextureId::Gun1);
    assert_eq!(draw_gun(&Duration::from_millis(79), ShootingStatus::Shooting).texture, TextureId::Gun1);
}

#[test]
fn test_draw_bullets_display() {
    let info = |bullets: usize, shooting_status: ShootingStatus| PlayerInfo {
        bullets,
        shooting_status,
        ..Default::default()
    };
    assert_eq!(draw_bullets_display(&info(0, ShootingStatus::Reloading)).text, "Reloading...");
    assert_eq!(draw_bullets_display(&info(7, ShootingStatus::Reloading)).text, "Reloading...");
    assert_eq!(draw_bullets_display(&info(7, ShootingStatus::Shooting)).text, "Bullets:7/30");
    assert_eq!(draw_bullets_display(&info(0, ShootingStatus::NotShooting)).text, "Bullets:0/30");
    assert_eq!(
        draw_bullets_display(&info(MAX_BULLETS, ShootingStatus::NotShooting)).text,
        "Bullets:30/30"
    );
}

#[test]
fn test_draw_key_display() {
    assert_eq!(draw_key_display(&level(3, 0, vec![(9, 9)])).text, "Keys:0/3");
    assert_eq!(draw_key_display(&level(1, 11, vec![(9, 9)])).text, "Keys:11/12");
    assert_eq!(draw_key_display(&level(0, 4, vec![(9, 9)])).text, "Find the exit");
    assert_eq!(
        draw_key_display(&level(1, usize::MAX, vec![(9, 9)])).text,
        format!("Keys:{}/{}", usize::MAX, usize::MAX as u128 + 1)
    );
}

#[test]
fn test_time_to_text() {
    assert_eq!(time_to_text(Duration::from_secs(0)), "00:00");
    assert_eq!(time_to_text(Duration::from_millis(59_999)), "00:59");
    assert_eq!(time_to_text(Duration::from_secs(60)), "01:00");
    assert_eq!(time_to_text(Duration::from_secs(605)), "10:05");
    assert_eq!(time_to_text(Duration::from_secs(3_600 * 2 + 61)), "121:01");
    assert_eq!(time_to_text(Duration::MAX), format!("{}:15", u64::MAX / 60));
}

#[test]
fn test_push_decimal() {
    let written = |n: u128| {
        let mut text = String::from("n=");
        push_decimal(&mut text, n);
        text
    };
    assert_eq!(written(0), "n=0");
    assert_eq!(written(9), "n=9");
    assert_eq!(written(10), "n=10");
    assert_eq!(written(1_234_567_890), "n=1234567890");
    assert_eq!(written(u128::MAX), format!("n={}", u128::MAX));
    let padded = |n: u128| {
        let mut text = String::new();
        push_two_digits(&mut text, n);
        text
    };
    assert_eq!(padded(0), "00");
    assert_eq!(padded(9), "09");
    assert_eq!(padded(10), "10");
    assert_eq!(padded(100), "100");
}

#[test]
fn test_create_exit_text() {
    let contact = |touching: bool, distance: u64| ExitContact { touching, distance };
    let exits = vec![(1, 1), (2, 2), (3, 3)];

    // over the nearest of the exits the player stands in
    let sign = create_exit_text(
        &level(1, 0, exits.clone()),
        &vec![contact(false, 1), contact(true, 9), contact(true, 4)],
        7u8,
    );
    let sign = sign.unwrap();
    assert_eq!(sign.position, (3, 3));
    assert_eq!(sign.size, 7);

    // not while the player stands in none
    let sign = create_exit_text(
        &level(1, 0, exits.clone()),
        &vec![contact(false, 1), contact(false, 9), contact(false, 4)],
        7u8,
    );
    assert!(sign.is_none());

    // and not once all keys are found
    let sign = create_exit_text(
        &level(0, 1, exits),
        &vec![contact(false, 1), contact(true, 9), contact(true, 4)],
        7u8,
    );
    assert!(sign.is_none());
}

#[test]
fn test_cast_ray() {
    let hit = |distance_to_ray: u64, texture: TextureId| {
        Some(RayHit { distance_to_ray, texture, relative_position: distance_to_ray as u8 })
    };
    let seen = cast_ray(&vec![
        hit(40, TextureId::Stone),
        None,
        hit(15, TextureId::Metal),
        hit(15, TextureId::Stone),
        hit(90, TextureId::Debug),
    ])
    .unwrap();
    assert_eq!(seen.distance_to_ray, 15);
    assert_eq!(seen.texture, TextureId::Metal);
    assert_eq!(seen.relative_position, 15);
    assert!(cast_ray::<u8>(&vec![None, None]).is_none());
    assert!(cast_ray::<u8>(&vec![]).is_none());
}

#[test]
fn test_nearest_and_first() {
    assert_eq!(nearest(&vec![]), None);
    assert_eq!(nearest(&vec![None, None]), None);
    assert_eq!(nearest(&vec![None, Some(5)]), Some(1));
    assert_eq!(nearest(&vec![Some(5), Some(3), Some(3), None, Some(4)]), Some(1));
    assert_eq!(nearest(&vec![Some(u64::MAX), Some(0)]), Some(1));
    assert_eq!(first_hit::<u8>(&vec![]), None);
    assert_eq!(first_hit(&vec![None, Some(4u8), Some(2u8)]), Some(4));
    assert!(!any_hit(&vec![]));
    assert!(any_hit(&vec![false, false, true]));
    assert_eq!(minus(5, 7), -2);
    assert_eq!(minus(i64::MIN, 1), i64::MIN);
    assert_eq!(minus(i64::MAX, -1), i64::MAX);
    assert_eq!(minus(-2, i64::MAX), i64::MIN);
}

#[test]
fn test_create_default_texture() {
    let pixels = create_default_texture();
    assert_eq!(pixels.len(), 32 * 32 * 4);
    let pixel = |row: usize, column: usize| {
        let at = (row * 32 + column) * 4;
        [pixels[at], pixels[at + 1], pixels[at + 2], pixels[at + 3]]
    };
    let white = [255, 255, 255, 255];
    let magenta = [255, 0, 255, 255];
    assert_eq!(pixel(0, 0), white);
    assert_eq!(pixel(0, 16), white);
    assert_eq!(pixel(0, 17), magenta);
    assert_eq!(pixel(15, 31), magenta);
    assert_eq!(pixel(16, 0), white);
    assert_eq!(pixel(16, 1), magenta);
    assert_eq!(pixel(16, 16), magenta);
    assert_eq!(pixel(16, 17), white);
    assert_eq!(pixel(31, 0), magenta);
    assert_eq!(pixel(31, 31), white);
}
