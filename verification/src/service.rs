//! The passes that move the world on by one frame. Each pass takes what it
//! changes by value and gives it back changed, together with the events it
//! asks for.

pub mod enemy;
pub mod key;
pub mod player;
pub mod projectile;
pub mod shoot;
