pub mod error;
pub mod types;
pub mod grenade;
pub mod drops;
pub mod round;
pub mod game_match;
pub mod pacing;
pub mod bots;
