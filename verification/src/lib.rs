//! game_cs: the core systems of a Counter-Strike style tactical shooter.
//!
//! The library holds the weapon system, player state and inventory, the
//! buy-menu economy, round and match management with bomb defusal, grenades,
//! dropped weapons, maps, rooms and matchmaking, and post-match statistics.
//!
//! Quantities that a game engine usually keeps as floating point are held
//! here in fixed point, so that every rule can be stated and proved exactly:
//! times in milliseconds, damage in hundredths of a hit point, positions in
//! hundredths of a world unit, angles in hundredths of a degree, and ratios
//! in percent.
pub mod economy;
pub mod game;
pub mod weapons;
pub mod util;
pub mod services;
pub mod player;
pub mod map;
pub mod network;
pub mod stats;
pub mod world;

pub use game::error::GameError;
