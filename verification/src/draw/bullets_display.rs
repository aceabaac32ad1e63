//! The line that tells how many bullets are left.

use vstd::prelude::*;
use crate::constants::MAX_BULLETS;
use crate::model::{PlayerInfo, ShootingStatus};
use crate::text::{decimal, push_decimal};

verus! {

pub struct BulletsDisplay {
    pub text: String,
}

/// What the line says: that the weapon is reloading, or how many bullets of
/// a full magazine are left.
pub open spec fn bullets_text(player_info: PlayerInfo) -> Seq<char> {
    if player_info.shooting_status == ShootingStatus::Reloading {
        "Reloading..."@
    } else {
        "Bullets:"@ + decimal(player_info.bullets as nat) + "/"@ + decimal(MAX_BULLETS as nat)
    }
}

pub fn draw_bullets_display(player_info: &PlayerInfo) -> (display: BulletsDisplay)
    ensures
        display.text@ == bullets_text(*player_info),
{
    let mut text = String::new();
    if player_info.shooting_status == ShootingStatus::Reloading {
        text.push_str("Reloading...");
    } else {
        text.push_str("Bullets:");
        push_decimal(&mut text, player_info.bullets as u128);
        text.push_str("/");
        push_decimal(&mut text, MAX_BULLETS as u128);
    }
    BulletsDisplay { text }
}

} // verus!
