use vstd::prelude::*;

verus! {

/// The error of a failed JSON encoding or decoding, kept as it comes.
#[verifier::external_type_specification]
#[verifier::external_body]
pub struct ExSerdeJsonError(serde_json::Error);

/// Every way an operation of the game can be refused.
#[derive(Debug)]
pub enum GameError {
    PlayerNotFound(String),
    RoomNotFound(String),
    MatchNotFound(String),
    WeaponNotFound(String),
    InsufficientFunds { needed: u32, available: u32 },
    InvalidAction(String),
    RoundEnded,
    MatchEnded,
    PlayerDead,
    PlayerAlreadyInRoom,
    RoomFull,
    RoomPasswordRequired,
    WrongRoomPassword,
    NotRoomOwner,
    BombAlreadyPlanted,
    NotAtBombSite,
    NoBomb,
    BombNotPlanted,
    SerializationError(serde_json::Error),
    Internal(String),
}

impl From<serde_json::Error> for GameError {
    fn from(e: serde_json::Error) -> (r: GameError) {
        GameError::SerializationError(e)
    }
}

impl vstd::std_specs::convert::FromSpecImpl<serde_json::Error> for GameError {
    open spec fn obeys_from_spec() -> bool {
        true
    }

    open spec fn from_spec(e: serde_json::Error) -> GameError {
        GameError::SerializationError(e)
    }
}

} // verus!
