pub mod room;
pub mod matchmaking;
