//! Projectiles fly on, and end at a wall or at the player.

use vstd::prelude::*;
use crate::math::{first_hit, first_present, first_present_is_some};
use crate::model::projectile::{none_heals, Projectile};
use crate::model::{Entity, GameEvent};

verus! {

/// How one projectile fares in this frame.
#[derive(Debug)]
pub struct Flight<P> {
    /// Where the projectile gets to if nothing stops it.
    pub new_position: P,
    /// For each wall, in the order of the level's walls: if the stretch flown
    /// in this frame crosses the wall, the point just short of the crossing.
    pub wall_hits: Vec<Option<P>>,
    /// Whether the projectile, at its new position, touches the player.
    pub hits_player: bool,
}

/// The projectile at the end of the frame, or `None` if it is spent.
///
/// A wall comes first: a projectile whose way crosses one stops there,
/// whether or not the player stands behind it. Otherwise it stops at the
/// player if it touches the player, and else flies on.
pub open spec fn flown<P, S>(
    projectile: Projectile<P, S>,
    flight: Flight<P>,
) -> Option<Projectile<P, S>> {
    if first_present(flight.wall_hits@) is Some || flight.hits_player {
        None
    } else {
        Some(
            Projectile {
                entity: Entity { position: flight.new_position, ..projectile.entity },
                ..projectile
            },
        )
    }
}

/// What the end of a projectile sets off: at a wall, a `LocationShot` just
/// short of the wall; at the player, the projectile's damage and a
/// `LocationShot` where it struck.
pub open spec fn impact<P, S>(
    projectile: Projectile<P, S>,
    flight: Flight<P>,
) -> Seq<GameEvent<P>> {
    match first_present(flight.wall_hits@) {
        Some(position) => seq![GameEvent::LocationShot { position }],
        None => if flight.hits_player {
            seq![
                GameEvent::PlayerTakeDamage(projectile.damage),
                GameEvent::LocationShot { position: flight.new_position },
            ]
        } else {
            Seq::empty()
        },
    }
}

fn find_projectile_hit_walls<P: Copy>(wall_hits: &Vec<Option<P>>) -> (hit: Option<P>)
    ensures
        hit == first_present(wall_hits@),
{
    first_hit(wall_hits)
}

/// Moves one projectile on by a frame.
pub fn update_projectile<P: Copy, S: Copy>(
    projectile: &Projectile<P, S>,
    flight: &Flight<P>,
) -> (updated: (Option<Projectile<P, S>>, Vec<GameEvent<P>>))
    ensures
        updated.0 == flown(*projectile, *flight),
        updated.1@ == impact(*projectile, *flight),
        first_present(flight.wall_hits@) is Some ==> updated.0 is None && updated.1@.len() == 1
            && updated.1@[0] is LocationShot,
        updated.0 matches Some(flying) ==> flying.damage == projectile.damage,
        projectile.damage >= 0 ==> forall|i: int|
            0 <= i < updated.1@.len() ==> (#[trigger] updated.1@[i]).wf(),
{
    if let Some(hit) = find_projectile_hit_walls(&flight.wall_hits) {
        (None, vec![GameEvent::LocationShot { position: hit }])
    } else if flight.hits_player {
        (
            None,
            vec![
                GameEvent::PlayerTakeDamage(projectile.damage),
                GameEvent::LocationShot { position: flight.new_position },
            ],
        )
    } else {
        (
            Some(
                Projectile {
                    entity: Entity { position: flight.new_position, ..projectile.entity },
                    ..*projectile
                },
            ),
            Vec::new(),
        )
    }
}

/// The projectiles that fly on, in their order.
pub open spec fn flying_on<P, S>(
    projectiles: Seq<Projectile<P, S>>,
    flights: Seq<Flight<P>>,
) -> Seq<Projectile<P, S>> {
    Seq::new(projectiles.len(), |i: int| flown(projectiles[i], flights[i])).filter_map(
        |end: Option<Projectile<P, S>>| end,
    )
}

/// All that the projectiles set off, projectile by projectile.
pub open spec fn impacts<P, S>(
    projectiles: Seq<Projectile<P, S>>,
    flights: Seq<Flight<P>>,
) -> Seq<GameEvent<P>> {
    Seq::new(projectiles.len(), |i: int| impact(projectiles[i], flights[i])).flatten()
}

/// Moves every projectile on by a frame; `flights[i]` says how
/// `projectiles[i]` fares.
pub fn update_projctiles<P: Copy, S: Copy>(
    projectiles: Vec<Projectile<P, S>>,
    flights: &Vec<Flight<P>>,
) -> (updated: (Vec<Projectile<P, S>>, Vec<GameEvent<P>>))
    requires
        flights@.len() == projectiles@.len(),
    ensures
        updated.0@ == flying_on(projectiles@, flights@),
        updated.1@ == impacts(projectiles@, flights@),
        none_heals(projectiles@) ==> none_heals(updated.0@) && forall|i: int|
            0 <= i < updated.1@.len() ==> (#[trigger] updated.1@[i]).wf(),
{
    let ghost ends = Seq::new(
        projectiles@.len(),
        |i: int| flown(projectiles@[i], flights@[i]),
    );
    let ghost sets_off = Seq::new(
        projectiles@.len(),
        |i: int| impact(projectiles@[i], flights@[i]),
    );
    let mut new_projectiles: Vec<Projectile<P, S>> = Vec::new();
    let mut events: Vec<GameEvent<P>> = Vec::new();
    let mut i: usize = 0;
    while i < projectiles.len()
        invariant
            i <= projectiles.len(),
            flights@.len() == projectiles@.len(),
            ends == Seq::new(projectiles@.len(), |i: int| flown(projectiles@[i], flights@[i])),
            sets_off == Seq::new(projectiles@.len(), |i: int| impact(projectiles@[i], flights@[i])),
            new_projectiles@ == ends.take(i as int).filter_map(
                |end: Option<Projectile<P, S>>| end,
            ),
            events@ == sets_off.take(i as int).flatten(),
            none_heals(projectiles@) ==> none_heals(new_projectiles@) && forall|k: int|
                0 <= k < events@.len() ==> (#[trigger] events@[k]).wf(),
        decreases projectiles.len() - i,
    {
        let (projectile, mut projectile_events) = update_projectile(&projectiles[i], &flights[i]);
        proof {
            ends.lemma_filter_map_take_succ(|end: Option<Projectile<P, S>>| end, i as int);
            assert(sets_off.take(i as int + 1) =~= sets_off.take(i as int).push(
                sets_off[i as int],
            ));
            sets_off.take(i as int).lemma_flatten_push(sets_off[i as int]);
        }
        if let Some(projectile) = projectile {
            new_projectiles.push(projectile);
        }
        events.append(&mut projectile_events);
        i += 1;
    }
    assert(ends.take(i as int) =~= ends);
    assert(sets_off.take(i as int) =~= sets_off);
    (new_projectiles, events)
}

/// A projectile whose way in this frame crosses a wall never gets to the far
/// side: it is spent, and all it sets off is one `LocationShot`, on the near
/// side of the first wall it meets. Whether it would have touched the player
/// does not matter.
pub proof fn wall_stops_projectile<P, S>(projectile: Projectile<P, S>, flight: Flight<P>)
    requires
        exists|wall: int|
            0 <= wall < flight.wall_hits@.len() && (#[trigger] flight.wall_hits@[wall]) is Some,
    ensures
        flown(projectile, flight) is None,
        impact(projectile, flight) == seq![
            GameEvent::LocationShot { position: first_present(flight.wall_hits@)->0 },
        ],
{
    first_present_is_some(flight.wall_hits@);
}

} // verus!
