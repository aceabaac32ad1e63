//! The line that tells how many keys have been found.

use vstd::prelude::*;
use crate::model::GameObjects;
use crate::text::{decimal, push_decimal};

verus! {

pub struct KeyDisplay {
    pub text: String,
}

/// What the line says: with keys left in the level, how many of all the keys
/// have been picked up; with none left, to find the exit.
pub open spec fn keys_text(picked_up_keys: nat, keys_left: nat) -> Seq<char> {
    if keys_left == 0 {
        "Find the exit"@
    } else {
        "Keys:"@ + decimal(picked_up_keys) + "/"@ + decimal(picked_up_keys + keys_left)
    }
}

pub fn draw_key_display<P, S>(game_objects: &GameObjects<P, S>) -> (display: KeyDisplay)
    ensures
        display.text@ == keys_text(
            game_objects.player_info.picked_up_keys as nat,
            game_objects.keys@.len(),
        ),
{
    let mut text = String::new();
    if game_objects.keys.is_empty() {
        text.push_str("Find the exit");
    } else {
        let picked_up_keys = game_objects.player_info.picked_up_keys as u128;
        let all_keys = picked_up_keys + game_objects.keys.len() as u128;
        text.push_str("Keys:");
        push_decimal(&mut text, picked_up_keys);
        text.push_str("/");
        push_decimal(&mut text, all_keys);
    }
    KeyDisplay { text }
}

} // verus!
