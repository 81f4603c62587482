//! A simulator of the card game Slay the Spire: random number generation that follows the
//! game's own generators, player and enemy state, combat rules and map bookkeeping.

pub mod data;
pub mod types;
pub mod rng;
pub mod player;
pub mod sim;
pub mod components;
pub mod systems;
