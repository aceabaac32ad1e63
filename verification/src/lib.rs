//! The rules of a first-person shooter played on a map of wall segments:
//! how the weapon fires and reloads, how enemies chase and attack, what a
//! shot hits, what becomes of a projectile, what the events of a frame do to
//! the world, and when a level is won or lost.
//!
//! The rules decide; they do not measure. Where something is and what it
//! touches is geometry, and geometry is the caller's: before a frame runs,
//! the caller measures the world and hands the rules what it found, as plain
//! facts. A point of the plane is a value of a type `P` and a length a value
//! of a type `S`, both of the caller's choosing; the rules carry such values
//! from where they are given to where they are needed and never look inside.
//! A distance is a whole number that orders as the true distance does.
//!
//! What the rules do compute with is counted in whole numbers: time in
//! microseconds, health and damage in millionths of a point (see
//! `constants`).
//!
//! Every function states what it returns in terms of a model: a sequence for
//! each list, and for the running level the view `model::Level`.

pub mod constants;
pub mod controller;
pub mod draw;
pub mod file_loaders;
pub mod focus_manager;
pub mod game_state;
pub mod input;
pub mod math;
pub mod model;
pub mod renderer;
pub mod service;
pub mod text;
pub mod time;
