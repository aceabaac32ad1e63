//! The sign that hangs over an exit while keys are still missing.

use vstd::prelude::*;
use crate::math::{nearest, nearest_index};
use crate::model::{Entity, GameObjects};

verus! {

/// How the player stands to one exit: whether the two circles touch, and how
/// far the exit is from the player.
#[derive(Debug, Clone, Copy)]
pub struct ExitContact {
    pub touching: bool,
    pub distance: u64,
}

/// The distances of the exits the player stands in.
pub open spec fn touched_exits(contacts: Seq<ExitContact>) -> Seq<Option<u64>> {
    Seq::new(
        contacts.len(),
        |i: int|
            if contacts[i].touching {
                Some(contacts[i].distance)
            } else {
                None
            },
    )
}

/// Where the sign hangs, if it hangs: while a key is left in the level, over
/// the nearest of the exits the player stands in.
pub open spec fn exit_text_place<P, S>(
    keys_left: nat,
    exit_triggers: Seq<Entity<P, S>>,
    contacts: Seq<ExitContact>,
) -> Option<P> {
    if keys_left == 0 {
        None
    } else {
        match nearest_index(touched_exits(contacts)) {
            Some(exit) => Some(exit_triggers[exit].position),
            None => None,
        }
    }
}

/// The sign to show, if any, `size` wide; `contacts[i]` says how the player
/// stands to exit `i`.
pub fn create_exit_text<P: Copy, S: Copy>(
    game_objects: &GameObjects<P, S>,
    contacts: &Vec<ExitContact>,
    size: S,
) -> (sign: Option<Entity<P, S>>)
    requires
        contacts@.len() == game_objects.exit_triggers@.len(),
    ensures
        sign == match exit_text_place(
            game_objects.keys@.len(),
            game_objects.exit_triggers@,
            contacts@,
        ) {
            Some(position) => Some(Entity { position, size }),
            None => None,
        },
{
    if game_objects.keys.is_empty() {
        return None;
    }
    let mut distances: Vec<Option<u64>> = Vec::new();
    let mut i: usize = 0;
    while i < contacts.len()
        invariant
            i <= contacts.len(),
            distances@.len() == i,
            forall|k: int| 0 <= k < i ==> distances@[k] == touched_exits(contacts@)[k],
        decreases contacts.len() - i,
    {
        let contact = contacts[i];
        let distance = if contact.touching {
            Some(contact.distance)
        } else {
            None
        };
        distances.push(distance);
        i += 1;
    }
    assert(distances@ =~= touched_exits(contacts@));
    match nearest(&distances) {
        Some(exit) => Some(Entity { position: game_objects.exit_triggers[exit].position, size }),
        None => None,
    }
}

} // verus!
