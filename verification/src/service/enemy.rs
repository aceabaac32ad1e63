//! Enemies give chase and attack.

use vstd::prelude::*;
use crate::math::{any_hit, any_set, nearest, nearest_index};
use crate::model::enemy::{Enemy, EnemyType};
use crate::model::{Entity, GameEvent};
use crate::service::shoot::Sighting;

verus! {

/// How one enemy stands to the player when it comes to attacking.
#[derive(Debug, Clone, Copy)]
pub struct Aim<P> {
    /// Whether the enemy can attack the player from where it stands.
    pub can_attack: bool,
    /// The flight, per second, of a projectile sent from the enemy at the
    /// player.
    pub direction: P,
}

/// What holds of an enemy at one place: how it stands to the player's line
/// of fire, and how to the player.
#[derive(Debug, Clone, Copy)]
pub struct Stance<P> {
    pub sighting: Sighting,
    pub aim: Aim<P>,
}

/// One way round a wall: where the step leads, whether the enemy's circle
/// there touches a wall, how far from the player it ends, and what holds of
/// the enemy there.
#[derive(Debug, Clone, Copy)]
pub struct SideStep<P> {
    pub position: P,
    pub blocked: bool,
    pub distance: u64,
    pub stance: Stance<P>,
}

/// How one enemy stands to the player at the start of the frame, and what
/// holds of it wherever it may go in this frame.
#[derive(Debug)]
pub struct Pursuit<P> {
    /// The player is farther off than an enemy gives chase.
    pub out_of_range: bool,
    /// What holds of the enemy where it stands.
    pub stay: Stance<P>,
    /// Where a straight step towards the player leads.
    pub step: P,
    /// Whether the enemy's circle at `step` touches a wall.
    pub step_blocked: bool,
    /// What holds of the enemy at `step`.
    pub step_stance: Stance<P>,
    /// The ways round: for each wall in the way of the straight step, a step
    /// along the wall and a step against it.
    pub side_steps: Vec<SideStep<P>>,
}

/// The enemy, standing at `position`.
pub open spec fn placed<P, S>(enemy: Enemy<P, S>, position: P) -> Enemy<P, S> {
    Enemy { entity: Entity { position, ..enemy.entity }, ..enemy }
}

/// The distances of the side steps that are free to take.
pub open spec fn open_steps<P>(side_steps: Seq<SideStep<P>>) -> Seq<Option<u64>> {
    Seq::new(
        side_steps.len(),
        |i: int|
            if side_steps[i].blocked {
                None
            } else {
                Some(side_steps[i].distance)
            },
    )
}

/// The enemy after a step to the side: it takes the free side step that ends
/// nearest to the player, and stays where it is if none is free.
pub open spec fn side_stepped<P, S>(
    enemy: Enemy<P, S>,
    side_steps: Seq<SideStep<P>>,
) -> Enemy<P, S> {
    match nearest_index(open_steps(side_steps)) {
        Some(step) => placed(enemy, side_steps[step].position),
        None => enemy,
    }
}

/// The enemy after giving chase: out of range it stays; else it steps
/// straight towards the player if that step is free; else it steps to the
/// side.
pub open spec fn pursued<P, S>(enemy: Enemy<P, S>, pursuit: Pursuit<P>) -> Enemy<P, S> {
    if pursuit.out_of_range {
        enemy
    } else if !pursuit.step_blocked {
        placed(enemy, pursuit.step)
    } else {
        side_stepped(enemy, pursuit.side_steps@)
    }
}

/// A ranged enemy that can attack from where it stands holds its ground;
/// every other enemy gives chase.
pub open spec fn holds_ground<P, S>(enemy: Enemy<P, S>, pursuit: Pursuit<P>) -> bool {
    enemy.enemy_type == EnemyType::Ranged && pursuit.stay.aim.can_attack
}

/// The enemy after its move.
pub open spec fn moved<P, S>(enemy: Enemy<P, S>, pursuit: Pursuit<P>) -> Enemy<P, S> {
    if holds_ground(enemy, pursuit) {
        enemy
    } else {
        pursued(enemy, pursuit)
    }
}

/// What holds of the enemy where its move has taken it.
pub open spec fn stance_after<P, S>(enemy: Enemy<P, S>, pursuit: Pursuit<P>) -> Stance<P> {
    if holds_ground(enemy, pursuit) || pursuit.out_of_range {
        pursuit.stay
    } else if !pursuit.step_blocked {
        pursuit.step_stance
    } else {
        match nearest_index(open_steps(pursuit.side_steps@)) {
            Some(step) => pursuit.side_steps@[step].stance,
            None => pursuit.stay,
        }
    }
}

fn choose_side_step<P: Copy>(side_steps: &Vec<SideStep<P>>) -> (chosen: Option<usize>)
    ensures
        match chosen {
            Some(step) => step < side_steps@.len() && nearest_index(open_steps(side_steps@))
                == Some(step as int),
            None => nearest_index(open_steps(side_steps@)) is None,
        },
{
    let mut distances: Vec<Option<u64>> = Vec::new();
    let mut i: usize = 0;
    while i < side_steps.len()
        invariant
            i <= side_steps.len(),
            distances@.len() == i,
            forall|k: int| 0 <= k < i ==> distances@[k] == open_steps(side_steps@)[k],
        decreases side_steps.len() - i,
    {
        let side_step = side_steps[i];
        let distance = if side_step.blocked {
            None
        } else {
            Some(side_step.distance)
        };
        distances.push(distance);
        i += 1;
    }
    assert(distances@ =~= open_steps(side_steps@));
    nearest(&distances)
}

fn move_enemy_to_sides<P: Copy, S: Copy>(
    enemy: Enemy<P, S>,
    side_steps: &Vec<SideStep<P>>,
) -> (stepped: Enemy<P, S>)
    ensures
        stepped == side_stepped(enemy, side_steps@),
{
    if let Some(step) = choose_side_step(side_steps) {
        Enemy { entity: Entity { position: side_steps[step].position, ..enemy.entity }, ..enemy }
    } else {
        enemy
    }
}

/// Lets one enemy give chase.
///
/// An enemy out of range does not move at all. Within range, and with
/// nothing in the way, it ends the frame at the straight step towards the
/// player.
pub fn move_enemy<P: Copy, S: Copy>(
    enemy: Enemy<P, S>,
    pursuit: &Pursuit<P>,
) -> (after: Enemy<P, S>)
    ensures
        after == pursued(enemy, *pursuit),
        pursuit.out_of_range ==> after == enemy,
        !pursuit.out_of_range && !pursuit.step_blocked ==> after.entity.position == pursuit.step,
        after.id == enemy.id && after.hp == enemy.hp && after.attack_delay == enemy.attack_delay
            && after.enemy_type == enemy.enemy_type && after.entity.size == enemy.entity.size,
{
    if pursuit.out_of_range {
        return enemy;
    }
    if !pursuit.step_blocked {
        return Enemy { entity: Entity { position: pursuit.step, ..enemy.entity }, ..enemy };
    }
    move_enemy_to_sides(enemy, &pursuit.side_steps)
}

/// Lets one enemy make its move, as its kind has it.
pub fn move_enemy_for_type<P: Copy, S: Copy>(
    enemy: Enemy<P, S>,
    pursuit: &Pursuit<P>,
) -> (after: Enemy<P, S>)
    ensures
        after == moved(enemy, *pursuit),
        pursuit.out_of_range ==> after == enemy,
{
    match enemy.enemy_type {
        EnemyType::Melee | EnemyType::MeleeSlow => move_enemy(enemy, pursuit),
        EnemyType::Ranged => {
            if !pursuit.stay.aim.can_attack {
                move_enemy(enemy, pursuit)
            } else {
                enemy
            }
        },
    }
}

/// What holds of an enemy where its move takes it.
pub fn stance_for_type<P: Copy, S: Copy>(
    enemy: &Enemy<P, S>,
    pursuit: &Pursuit<P>,
) -> (stance: Stance<P>)
    ensures
        stance == stance_after(*enemy, *pursuit),
{
    let holds_ground = match enemy.enemy_type {
        EnemyType::Melee | EnemyType::MeleeSlow => false,
        EnemyType::Ranged => pursuit.stay.aim.can_attack,
    };
    if holds_ground || pursuit.out_of_range {
        pursuit.stay
    } else if !pursuit.step_blocked {
        pursuit.step_stance
    } else if let Some(step) = choose_side_step(&pursuit.side_steps) {
        pursuit.side_steps[step].stance
    } else {
        pursuit.stay
    }
}

/// Whether an enemy can attack: the player must be within its range, and no
/// wall may stand between the two. `sight_blocked[i]` says whether wall `i`
/// crosses the line from the enemy to the player.
pub fn enemy_can_attack_player(in_range: bool, sight_blocked: &Vec<bool>) -> (can_attack: bool)
    ensures
        can_attack == (in_range && !any_set(sight_blocked@)),
{
    in_range && !any_hit(sight_blocked)
}

/// The rest an enemy still has to take after `delta` microseconds.
pub open spec fn cooled(attack_delay: u64, delta: u64) -> u64 {
    if attack_delay <= delta {
        0
    } else {
        (attack_delay - delta) as u64
    }
}

/// The enemy attacks in this frame: it has rested, and it can attack.
pub open spec fn attacks<P, S>(enemy: Enemy<P, S>, aim: Aim<P>, delta: u64) -> bool {
    cooled(enemy.attack_delay, delta) == 0 && aim.can_attack
}

/// The enemy after the frame: its rest has run down by `delta`, and starts
/// over if it attacked.
pub open spec fn after_attack<P, S>(enemy: Enemy<P, S>, aim: Aim<P>, delta: u64) -> Enemy<P, S> {
    Enemy {
        attack_delay: if attacks(enemy, aim, delta) {
            enemy.enemy_type.attack_speed()
        } else {
            cooled(enemy.attack_delay, delta)
        },
        ..enemy
    }
}

/// What an attack sets off: a melee enemy hits at once, a ranged enemy
/// sends a projectile on its way from where it stands.
pub open spec fn strike<P, S>(enemy: Enemy<P, S>, aim: Aim<P>) -> GameEvent<P> {
    if enemy.enemy_type == EnemyType::Ranged {
        GameEvent::CreateProjectile {
            position: enemy.entity.position,
            direction: aim.direction,
            damage: enemy.enemy_type.attack_damage(),
        }
    } else {
        GameEvent::PlayerTakeDamage(enemy.enemy_type.attack_damage())
    }
}

/// The events of one enemy's frame: its strike if it attacks, else nothing.
pub open spec fn attack_events<P, S>(
    enemy: Enemy<P, S>,
    aim: Aim<P>,
    delta: u64,
) -> Seq<GameEvent<P>> {
    if attacks(enemy, aim, delta) {
        seq![strike(enemy, aim)]
    } else {
        Seq::empty()
    }
}

fn melee_enemy_attack_player<P: Copy, S: Copy>(
    enemy: Enemy<P, S>,
) -> (attacked: (Enemy<P, S>, Vec<GameEvent<P>>))
    ensures
        attacked.0 == (Enemy { attack_delay: enemy.enemy_type.attack_speed(), ..enemy }),
        attacked.1@ == seq![GameEvent::<P>::PlayerTakeDamage(enemy.enemy_type.attack_damage())],
{
    (
        Enemy { attack_delay: enemy.enemy_type.get_attack_speed(), ..enemy },
        vec![GameEvent::PlayerTakeDamage(enemy.enemy_type.get_attack_damage())],
    )
}

fn ranged_enemy_attack_player<P: Copy, S: Copy>(
    enemy: Enemy<P, S>,
    aim: &Aim<P>,
) -> (attacked: (Enemy<P, S>, Vec<GameEvent<P>>))
    ensures
        attacked.0 == (Enemy { attack_delay: enemy.enemy_type.attack_speed(), ..enemy }),
        attacked.1@ == seq![
            GameEvent::CreateProjectile {
                position: enemy.entity.position,
                direction: aim.direction,
                damage: enemy.enemy_type.attack_damage(),
            },
        ],
{
    let create_projectile_event = GameEvent::CreateProjectile {
        position: enemy.entity.position,
        direction: aim.direction,
        damage: enemy.enemy_type.get_attack_damage(),
    };
    (
        Enemy { attack_delay: enemy.enemy_type.get_attack_speed(), ..enemy },
        vec![create_projectile_event],
    )
}

/// Lets one enemy rest for `delta` microseconds and attack if it can.
pub fn enemy_attack_player<P: Copy, S: Copy>(
    enemy: Enemy<P, S>,
    aim: &Aim<P>,
    delta: u64,
) -> (attacked: (Enemy<P, S>, Vec<GameEvent<P>>))
    ensures
        attacked.0 == after_attack(enemy, *aim, delta),
        attacked.1@ == attack_events(enemy, *aim, delta),
        forall|i: int| 0 <= i < attacked.1@.len() ==> (#[trigger] attacked.1@[i]).wf(),
{
    let new_attack_delay = enemy.attack_delay.saturating_sub(delta);
    let updated_enemy = Enemy { attack_delay: new_attack_delay, ..enemy };
    if new_attack_delay > 0 || !aim.can_attack {
        return (updated_enemy, Vec::new());
    }
    match enemy.enemy_type {
        EnemyType::Melee | EnemyType::MeleeSlow => melee_enemy_attack_player(updated_enemy),
        EnemyType::Ranged => ranged_enemy_attack_player(updated_enemy, aim),
    }
}

/// Lets every enemy rest and attack; `aims[i]` says how `enemies[i]` stands
/// to the player. The events come enemy by enemy.
pub fn enemies_attack_player<P: Copy, S: Copy>(
    enemies: Vec<Enemy<P, S>>,
    aims: &Vec<Aim<P>>,
    delta: u64,
) -> (attacked: (Vec<Enemy<P, S>>, Vec<GameEvent<P>>))
    requires
        aims@.len() == enemies@.len(),
    ensures
        attacked.0@ == Seq::new(
            enemies@.len(),
            |i: int| after_attack(enemies@[i], aims@[i], delta),
        ),
        attacked.1@ == Seq::new(
            enemies@.len(),
            |i: int| attack_events(enemies@[i], aims@[i], delta),
        ).flatten(),
        forall|i: int| 0 <= i < attacked.1@.len() ==> (#[trigger] attacked.1@[i]).wf(),
{
    let ghost sets_off = Seq::new(
        enemies@.len(),
        |i: int| attack_events(enemies@[i], aims@[i], delta),
    );
    let mut attacked: Vec<Enemy<P, S>> = Vec::new();
    let mut events: Vec<GameEvent<P>> = Vec::new();
    let mut i: usize = 0;
    while i < enemies.len()
        invariant
            i <= enemies.len(),
            aims@.len() == enemies@.len(),
            sets_off == Seq::new(
                enemies@.len(),
                |i: int| attack_events(enemies@[i], aims@[i], delta),
            ),
            attacked@.len() == i,
            forall|k: int|
                0 <= k < i ==> attacked@[k] == after_attack(enemies@[k], aims@[k], delta),
            events@ == sets_off.take(i as int).flatten(),
            forall|k: int| 0 <= k < events@.len() ==> (#[trigger] events@[k]).wf(),
        decreases enemies.len() - i,
    {
        let (enemy, mut enemy_events) = enemy_attack_player(enemies[i], &aims[i], delta);
        proof {
            assert(sets_off.take(i as int + 1) =~= sets_off.take(i as int).push(
                sets_off[i as int],
            ));
            sets_off.take(i as int).lemma_flatten_push(sets_off[i as int]);
        }
        attacked.push(enemy);
        events.append(&mut enemy_events);
        i += 1;
    }
    assert(sets_off.take(i as int) =~= sets_off);
    (attacked, events)
}

/// Lets every enemy make its move; `pursuits[i]` says how `enemies[i]`
/// stands to the player.
pub fn move_enemies_towards_player<P: Copy, S: Copy>(
    enemies: Vec<Enemy<P, S>>,
    pursuits: &Vec<Pursuit<P>>,
) -> (after: Vec<Enemy<P, S>>)
    requires
        pursuits@.len() == enemies@.len(),
    ensures
        after@ == Seq::new(enemies@.len(), |i: int| moved(enemies@[i], pursuits@[i])),
{
    let mut after: Vec<Enemy<P, S>> = Vec::new();
    let mut i: usize = 0;
    while i < enemies.len()
        invariant
            i <= enemies.len(),
            pursuits@.len() == enemies@.len(),
            after@.len() == i,
            forall|k: int| 0 <= k < i ==> after@[k] == moved(enemies@[k], pursuits@[k]),
        decreases enemies.len() - i,
    {
        after.push(move_enemy_for_type(enemies[i], &pursuits[i]));
        i += 1;
    }
    after
}

} // verus!
