//! The game's data: players, the registry of a game's roster, and the game
//! itself.

pub mod game;
pub mod player;
pub mod registry;
