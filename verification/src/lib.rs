//! An elimination game among the occupants of a voice channel: whoever leaves
//! the channel is out, and the last one remaining wins.

pub mod clock;
pub mod config;
pub mod handler;
pub mod messages;
pub mod models;
pub mod text;
