//! The world of one level: the player, the walls, and everything that moves
//! or lies about.
//!
//! The rules never measure anything. A type is therefore generic in `P`, a
//! point or vector of the plane, and in `S`, a length: both are carried
//! through untouched, and every geometric fact a rule needs is handed to it by
//! the caller.

use vstd::prelude::*;
use crate::constants::{MAX_BULLETS, PLAYER_MAX_HEALTH};
use crate::model::decoration::Decoration;
use crate::model::enemy::Enemy;
use crate::model::key_object::KeyObject;
use crate::model::projectile::{none_heals, Projectile};

pub mod decoration;
pub mod enemy;
pub mod key_object;
pub mod projectile;

verus! {

#[derive(Debug, Clone, Copy, Hash, PartialEq, Eq, Structural)]
pub enum TextureId {
    Debug,
    Stone,
    Metal,
    Key1,
    Key2,
    Gun1,
    Gun2,
    Gun3,
    Gun4,
    Gun5,
    Gun6,
    Gun7,
    Gun8,
    Enemy1,
    Enemy2,
    Enemy3,
    Enemy4,
    Enemy5,
    Enemy6,
    Enemy7,
    Enemy8,
    RangedEnemy1,
    RangedEnemy2,
    RangedEnemy3,
    RangedEnemy4,
    RangedEnemy5,
    RangedEnemy6,
    RangedEnemy7,
    RangedEnemy8,
    MeleeSlowEnemy1,
    MeleeSlowEnemy2,
    MeleeSlowEnemy3,
    MeleeSlowEnemy4,
    MeleeSlowEnemy5,
    MeleeSlowEnemy6,
    MeleeSlowEnemy7,
    MeleeSlowEnemy8,
    Projectile,
    Skull,
    Explostion1,
    Explostion2,
    Explostion3,
    Explostion4,
    Explostion5,
    Explostion6,
    Explostion7,
    Explostion8,
    Explostion9,
    TextFindTheKeys,
}

impl Default for TextureId {
    fn default() -> (texture: Self)
        ensures
            texture == TextureId::Debug,
    {
        TextureId::Debug
    }
}

#[derive(Debug, Clone, Copy, PartialEq, Eq, Structural)]
pub enum Animation {
    Enemy,
    RangedEnemy,
    MeleeSlowEnemy,
    Key,
    Gun,
    Explosion,
}

impl Animation {
    /// The frames of the animation, in the order they are shown.
    pub open spec fn frames(self) -> Seq<TextureId> {
        match self {
            Animation::Enemy => seq![
                TextureId::Enemy1,
                TextureId::Enemy2,
                TextureId::Enemy3,
                TextureId::Enemy4,
                TextureId::Enemy5,
                TextureId::Enemy6,
                TextureId::Enemy7,
                TextureId::Enemy8,
            ],
            Animation::Key => seq![TextureId::Key1, TextureId::Key2],
            Animation::Gun => seq![
                TextureId::Gun1,
                TextureId::Gun2,
                TextureId::Gun3,
                TextureId::Gun4,
                TextureId::Gun5,
                TextureId::Gun6,
                TextureId::Gun7,
                TextureId::Gun8,
            ],
            Animation::Explosion => seq![
                TextureId::Explostion2,
                TextureId::Explostion3,
                TextureId::Explostion4,
                TextureId::Explostion5,
                TextureId::Explostion6,
                TextureId::Explostion7,
                TextureId::Explostion8,
                TextureId::Explostion9,
            ],
            Animation::RangedEnemy => seq![
                TextureId::RangedEnemy1,
                TextureId::RangedEnemy2,
                TextureId::RangedEnemy3,
                TextureId::RangedEnemy4,
                TextureId::RangedEnemy5,
                TextureId::RangedEnemy6,
                TextureId::RangedEnemy7,
                TextureId::RangedEnemy8,
            ],
            Animation::MeleeSlowEnemy => seq![
                TextureId::MeleeSlowEnemy1,
                TextureId::MeleeSlowEnemy2,
                TextureId::MeleeSlowEnemy3,
                TextureId::MeleeSlowEnemy4,
                TextureId::MeleeSlowEnemy5,
                TextureId::MeleeSlowEnemy6,
                TextureId::MeleeSlowEnemy7,
                TextureId::MeleeSlowEnemy8,
            ],
        }
    }

    pub fn get_textures(&self) -> (textures: Vec<TextureId>)
        ensures
            textures@ == self.frames(),
            textures@.len() == if *self == Animation::Key { 2nat } else { 8nat },
    {
        let textures = match self {
            Animation::Enemy => vec![
                TextureId::Enemy1,
                TextureId::Enemy2,
                TextureId::Enemy3,
                TextureId::Enemy4,
                TextureId::Enemy5,
                TextureId::Enemy6,
                TextureId::Enemy7,
                TextureId::Enemy8,
            ],
            Animation::Key => vec![TextureId::Key1, TextureId::Key2],
            Animation::Gun => vec![
                TextureId::Gun1,
                TextureId::Gun2,
                TextureId::Gun3,
                TextureId::Gun4,
                TextureId::Gun5,
                TextureId::Gun6,
                TextureId::Gun7,
                TextureId::Gun8,
            ],
            Animation::Explosion => vec![
                TextureId::Explostion2,
                TextureId::Explostion3,
                TextureId::Explostion4,
                TextureId::Explostion5,
                TextureId::Explostion6,
                TextureId::Explostion7,
                TextureId::Explostion8,
                TextureId::Explostion9,
            ],
            Animation::RangedEnemy => vec![
                TextureId::RangedEnemy1,
                TextureId::RangedEnemy2,
                TextureId::RangedEnemy3,
                TextureId::RangedEnemy4,
                TextureId::RangedEnemy5,
                TextureId::RangedEnemy6,
                TextureId::RangedEnemy7,
                TextureId::RangedEnemy8,
            ],
            Animation::MeleeSlowEnemy => vec![
                TextureId::MeleeSlowEnemy1,
                TextureId::MeleeSlowEnemy2,
                TextureId::MeleeSlowEnemy3,
                TextureId::MeleeSlowEnemy4,
                TextureId::MeleeSlowEnemy5,
                TextureId::MeleeSlowEnemy6,
                TextureId::MeleeSlowEnemy7,
                TextureId::MeleeSlowEnemy8,
            ],
        };
        textures
    }
}

#[derive(Debug, Clone, Copy, Hash, PartialEq, Eq, Structural)]
pub enum SoundId {
    PickUpKey,
    PlayerTakeDamage,
    ShotHit,
    Shooting,
    Lose,
    Escape,
}

/// A circle in the plane: where something is and how far it reaches.
#[derive(Debug, Clone, Copy)]
pub struct Entity<P, S> {
    pub position: P,
    pub size: S,
}

#[derive(Debug, Clone, Copy)]
pub struct Player<P, S> {
    pub entity: Entity<P, S>,
    pub look: P,
}

/// A wall is a line segment from `start` to `end`.
#[derive(Debug, Clone, Copy)]
pub struct Wall<P> {
    pub texture: TextureId,
    pub start: P,
    pub end: P,
}

/// What a pass over the world asks for. A pass changes nothing but what it
/// was given; everything else it wants done it reports as events, which are
/// applied afterwards, one by one.
#[derive(Debug, Clone, Copy)]
pub enum GameEvent<P> {
    PickUpKey,
    EnemyKilled { position: P },
    LocationShot { position: P },
    PlayerTakeDamage(i64),
    CreateProjectile { position: P, direction: P, damage: i64 },
}

impl<P> GameEvent<P> {
    /// Damage is never below zero.
    pub open spec fn wf(self) -> bool {
        match self {
            GameEvent::PlayerTakeDamage(damage) => damage >= 0,
            GameEvent::CreateProjectile { damage, .. } => damage >= 0,
            _ => true,
        }
    }
}

#[derive(Debug, Clone, Copy, PartialEq, Eq, Structural)]
pub enum ShootingStatus {
    Shooting,
    NotShooting,
    Reloading,
}

#[derive(Debug, Clone, Copy)]
pub struct PlayerInfo {
    pub shooting_status: ShootingStatus,
    /// Microseconds since the last shot, or since the timer was last reset.
    pub time_since_last_shot: u64,
    pub bullets: usize,
    pub picked_up_keys: usize,
    /// Millionths of a point. At or below zero the player is dead.
    pub health: i64,
}

impl PlayerInfo {
    /// The magazine is never over-full and health never above its maximum.
    pub open spec fn wf(self) -> bool {
        &&& self.bullets <= MAX_BULLETS
        &&& self.health <= PLAYER_MAX_HEALTH
    }
}

impl Default for PlayerInfo {
    fn default() -> (info: Self)
        ensures
            info.shooting_status == ShootingStatus::NotShooting,
            info.time_since_last_shot == 0,
            info.bullets == MAX_BULLETS,
            info.picked_up_keys == 0,
            info.health == PLAYER_MAX_HEALTH,
            info.wf(),
    {
        PlayerInfo {
            shooting_status: ShootingStatus::NotShooting,
            picked_up_keys: 0,
            health: PLAYER_MAX_HEALTH,
            time_since_last_shot: 0,
            bullets: MAX_BULLETS,
        }
    }
}

/// Everything in one running level.
#[derive(Debug)]
pub struct GameObjects<P, S> {
    pub player: Player<P, S>,
    pub player_info: PlayerInfo,
    pub walls: Vec<Wall<P>>,
    pub enemies: Vec<Enemy<P, S>>,
    pub keys: Vec<KeyObject<P, S>>,
    pub exit_triggers: Vec<Entity<P, S>>,
    pub decorations: Vec<Decoration<P, S>>,
    pub projectiles: Vec<Projectile<P, S>>,
}

/// A level as the contracts speak of it: each list is a sequence.
pub struct Level<P, S> {
    pub player: Player<P, S>,
    pub player_info: PlayerInfo,
    pub walls: Seq<Wall<P>>,
    pub enemies: Seq<Enemy<P, S>>,
    pub keys: Seq<KeyObject<P, S>>,
    pub exit_triggers: Seq<Entity<P, S>>,
    pub decorations: Seq<Decoration<P, S>>,
    pub projectiles: Seq<Projectile<P, S>>,
}

impl<P, S> Level<P, S> {
    /// What holds of a level at all times: the magazine is never over-full,
    /// health never above its maximum, every animated decoration changes
    /// frames at a speed above zero, and no projectile does damage below
    /// zero.
    pub open spec fn wf(self) -> bool {
        &&& self.player_info.wf()
        &&& forall|i: int| 0 <= i < self.decorations.len() ==> (#[trigger] self.decorations[i]).wf()
        &&& none_heals(self.projectiles)
    }
}

impl<P, S> View for GameObjects<P, S> {
    type V = Level<P, S>;

    open spec fn view(&self) -> Level<P, S> {
        Level {
            player: self.player,
            player_info: self.player_info,
            walls: self.walls@,
            enemies: self.enemies@,
            keys: self.keys@,
            exit_triggers: self.exit_triggers@,
            decorations: self.decorations@,
            projectiles: self.projectiles@,
        }
    }
}

impl<P, S> GameObjects<P, S> {
    /// A level at its start: the player is fresh, nothing lies about yet and
    /// nothing is in flight. A level needs at least one key and at least one
    /// exit.
    pub fn new(
        player: Player<P, S>,
        walls: Vec<Wall<P>>,
        enemies: Vec<Enemy<P, S>>,
        keys: Vec<KeyObject<P, S>>,
        exit_triggers: Vec<Entity<P, S>>,
    ) -> (game_objects: Self)
        requires
            keys@.len() > 0,
            exit_triggers@.len() > 0,
        ensures
            game_objects@ == (Level {
                player,
                player_info: PlayerInfo {
                    shooting_status: ShootingStatus::NotShooting,
                    time_since_last_shot: 0,
                    bullets: MAX_BULLETS,
                    picked_up_keys: 0,
                    health: PLAYER_MAX_HEALTH,
                },
                walls: walls@,
                enemies: enemies@,
                keys: keys@,
                exit_triggers: exit_triggers@,
                decorations: Seq::empty(),
                projectiles: Seq::empty(),
            }),
            game_objects@.wf(),
    {
        GameObjects {
            player,
            player_info: PlayerInfo::default(),
            walls,
            enemies,
            keys,
            exit_triggers,
            decorations: Vec::new(),
            projectiles: Vec::new(),
        }
    }
}

/// The lengths that the rules hand on but never read: how large, and how
/// high above or below eye level, the things are drawn that events bring
/// into the world.
#[derive(Debug, Clone, Copy)]
pub struct Sizes<S> {
    pub corpse_size: S,
    pub corpse_offset: S,
    pub shot_animation_size: S,
    pub shot_animation_offset: S,
    pub projectile_size: S,
}

} // verus!
