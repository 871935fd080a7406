pub mod types;
pub mod bomb;
pub mod maps;

pub use types::{MapDef, BombSite, SpawnZone};
pub use bomb::{BombState, BombAction};
pub use maps::MapRegistry;
