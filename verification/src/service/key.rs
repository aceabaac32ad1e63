//! Picking up keys.

use vstd::prelude::*;
use crate::model::key_object::KeyObject;
use crate::model::GameEvent;

verus! {

/// The keys that stay where they are: those the player does not touch, in
/// their order.
pub open spec fn keys_left<P, S>(
    keys: Seq<KeyObject<P, S>>,
    touching: Seq<bool>,
) -> Seq<KeyObject<P, S>> {
    Seq::new(keys.len(), |i: int| (keys[i], touching[i])).filter_map(
        |key: (KeyObject<P, S>, bool)|
            if key.1 {
                None
            } else {
                Some(key.0)
            },
    )
}

/// One `PickUpKey` for each key the player touches.
pub open spec fn pickups<P>(touching: Seq<bool>) -> Seq<GameEvent<P>> {
    touching.filter_map(
        |touched: bool|
            if touched {
                Some(GameEvent::PickUpKey)
            } else {
                None
            },
    )
}

/// Takes the keys the player touches out of the level and reports a
/// `PickUpKey` for each; `touching[i]` says whether the player touches
/// `keys[i]`.
pub fn check_pickup_key<P: Copy, S: Copy>(
    keys: Vec<KeyObject<P, S>>,
    touching: &Vec<bool>,
) -> (checked: (Vec<KeyObject<P, S>>, Vec<GameEvent<P>>))
    requires
        touching@.len() == keys@.len(),
    ensures
        checked.0@ == keys_left(keys@, touching@),
        checked.1@ == pickups::<P>(touching@),
        checked.0@.len() + checked.1@.len() == keys@.len(),
        forall|i: int| 0 <= i < checked.1@.len() ==> checked.1@[i] is PickUpKey,
{
    let ghost pairs = Seq::new(keys@.len(), |i: int| (keys@[i], touching@[i]));
    let mut remaining_keys: Vec<KeyObject<P, S>> = Vec::new();
    let mut events: Vec<GameEvent<P>> = Vec::new();
    let mut i: usize = 0;
    while i < keys.len()
        invariant
            i <= keys.len(),
            touching@.len() == keys@.len(),
            pairs == Seq::new(keys@.len(), |i: int| (keys@[i], touching@[i])),
            remaining_keys@ == pairs.take(i as int).filter_map(
                |key: (KeyObject<P, S>, bool)|
                    if key.1 {
                        None
                    } else {
                        Some(key.0)
                    },
            ),
            events@ == pickups::<P>(touching@.take(i as int)),
            remaining_keys@.len() + events@.len() == i,
            forall|k: int| 0 <= k < events@.len() ==> events@[k] is PickUpKey,
        decreases keys.len() - i,
    {
        proof {
            pairs.lemma_filter_map_take_succ(
                |key: (KeyObject<P, S>, bool)|
                    if key.1 {
                        None
                    } else {
                        Some(key.0)
                    },
                i as int,
            );
            touching@.lemma_filter_map_take_succ(
                |touched: bool|
                    if touched {
                        Some(GameEvent::<P>::PickUpKey)
                    } else {
                        None
                    },
                i as int,
            );
        }
        if touching[i] {
            events.push(GameEvent::PickUpKey);
        } else {
            remaining_keys.push(keys[i]);
        }
        i += 1;
    }
    assert(pairs.take(i as int) =~= pairs);
    assert(touching@.take(i as int) =~= touching@);
    (remaining_keys, events)
}

} // verus!
