pub mod types;
pub mod inventory;
pub mod actions;
pub mod movement;

pub use types::{ArmorState, MovementState, Player, PlayerProfile, PlayerState};
pub use inventory::{ActiveSlot, Inventory};
