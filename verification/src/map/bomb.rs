use vstd::prelude::*;
use crate::game::error::GameError;
use crate::game::types::{within, CTWinReason, RoundResult, TWinReason, Vec3};
use crate::map::types::{first_site_at, MapDef};

verus! {

/// Phase of the bomb in a round.
#[derive(Debug, Clone, Copy, PartialEq, Eq, Structural)]
pub enum BombPhase {
    /// Bomb has not been planted
    NotPlanted,
    /// A player is in the process of planting
    Planting,
    /// Bomb is planted and counting down
    Planted,
    /// A player is in the process of defusing
    Defusing,
    /// Bomb was defused successfully
    Defused,
    /// Bomb exploded
    Exploded,
}

/// Live bomb state for the current round.
#[derive(Debug, Clone)]
pub struct BombState {
    pub phase: BombPhase,
    pub position: Option<Vec3>,
    /// Planter player ID
    pub planter_id: Option<String>,
    /// Defuser player ID
    pub defuser_id: Option<String>,
    /// Milliseconds remaining in the current action (planting / defusing / detonation)
    pub timer_ms: u64,
    /// The detonation countdown while a defuse runs `timer_ms`, in
    /// milliseconds: it keeps running during the defuse and is handed back
    /// to `timer_ms` when the defuse is cancelled
    pub countdown_ms: u64,
    /// Full bomb timer (set on plant), in milliseconds
    pub detonation_timer_ms: u64,
    pub plant_time_ms: u32,
    pub defuse_time_ms: u32,
    pub defuse_kit_time_ms: u32,
}

/// An action that can be requested of the bomb state machine.
#[derive(Debug, Clone)]
pub enum BombAction {
    StartPlant { player_id: String, position: Vec3 },
    CancelPlant,
    StartDefuse { player_id: String, has_kit: bool },
    CancelDefuse,
}

/// The outcome of applying `action` to `b` on map `m`: the new state, or the
/// refusal.
pub open spec fn bomb_apply(b: BombState, action: BombAction, m: MapDef) -> Result<BombState, GameError> {
    match action {
        BombAction::StartPlant { player_id, position } => {
            if b.phase != BombPhase::NotPlanted {
                Err(GameError::BombAlreadyPlanted)
            } else if first_site_at(m.bomb_sites@, position) is None {
                Err(GameError::NotAtBombSite)
            } else {
                Ok(
                    BombState {
                        phase: BombPhase::Planting,
                        planter_id: Some(player_id),
                        position: Some(position),
                        timer_ms: b.plant_time_ms as u64,
                        ..b
                    },
                )
            }
        },
        BombAction::CancelPlant => {
            if b.phase == BombPhase::Planting {
                Ok(
                    BombState {
                        phase: BombPhase::NotPlanted,
                        planter_id: None,
                        position: None,
                        timer_ms: 0,
                        ..b
                    },
                )
            } else {
                Ok(b)
            }
        },
        BombAction::StartDefuse { player_id, has_kit } => {
            if b.phase != BombPhase::Planted {
                Err(GameError::BombNotPlanted)
            } else {
                Ok(
                    BombState {
                        phase: BombPhase::Defusing,
                        defuser_id: Some(player_id),
                        countdown_ms: b.timer_ms,
                        timer_ms: if has_kit {
                            b.defuse_kit_time_ms as u64
                        } else {
                            b.defuse_time_ms as u64
                        },
                        ..b
                    },
                )
            }
        },
        BombAction::CancelDefuse => {
            if b.phase == BombPhase::Defusing {
                Ok(
                    BombState {
                        phase: BombPhase::Planted,
                        defuser_id: None,
                        timer_ms: b.countdown_ms,
                        ..b
                    },
                )
            } else {
                Ok(b)
            }
        },
    }
}

/// Whether a defuse in progress completes within `delta` milliseconds: its
/// timer runs out, and no later than the detonation countdown.
pub open spec fn defuse_completes(b: BombState, delta: u32) -> bool {
    b.timer_ms <= delta && b.timer_ms <= b.countdown_ms
}

/// The state after `delta` milliseconds: planting finishes into the
/// detonation countdown, the countdown ends in an explosion, and a defuse
/// in progress ends in a defused bomb if it finishes before the detonation
/// countdown, which keeps running meanwhile, ends in an explosion; other
/// phases do not change.
pub open spec fn bomb_after(b: BombState, delta: u32) -> BombState {
    match b.phase {
        BombPhase::Planting => if b.timer_ms <= delta {
            BombState { phase: BombPhase::Planted, timer_ms: b.detonation_timer_ms, ..b }
        } else {
            BombState { timer_ms: (b.timer_ms - delta) as u64, ..b }
        },
        BombPhase::Planted => if b.timer_ms <= delta {
            BombState { phase: BombPhase::Exploded, timer_ms: 0, ..b }
        } else {
            BombState { timer_ms: (b.timer_ms - delta) as u64, ..b }
        },
        BombPhase::Defusing => if defuse_completes(b, delta) {
            BombState { phase: BombPhase::Defused, timer_ms: 0, countdown_ms: (b.countdown_ms - b.timer_ms) as u64, ..b }
        } else if b.countdown_ms <= delta {
            BombState { phase: BombPhase::Exploded, timer_ms: 0, countdown_ms: 0, ..b }
        } else {
            BombState {
                timer_ms: (b.timer_ms - delta) as u64,
                countdown_ms: (b.countdown_ms - delta) as u64,
                ..b
            }
        },
        _ => b,
    }
}

/// The round result a tick of `delta` milliseconds brings about, if any.
pub open spec fn bomb_tick_result(b: BombState, delta: u32) -> Option<RoundResult> {
    match b.phase {
        BombPhase::Planted => if b.timer_ms <= delta {
            Some(RoundResult::TWin(TWinReason::BombExploded))
        } else {
            None
        },
        BombPhase::Defusing => if defuse_completes(b, delta) {
            Some(RoundResult::CTWin(CTWinReason::BombDefused))
        } else if b.countdown_ms <= delta {
            Some(RoundResult::TWin(TWinReason::BombExploded))
        } else {
            None
        },
        _ => None,
    }
}

impl BombState {
    /// A bomb that is not planted, with the given timings.
    pub open spec fn new_spec(
        detonation_timer_ms: u64,
        plant_time_ms: u32,
        defuse_time_ms: u32,
        defuse_kit_time_ms: u32,
    ) -> BombState {
        BombState {
            phase: BombPhase::NotPlanted,
            position: None,
            planter_id: None,
            defuser_id: None,
            timer_ms: 0,
            countdown_ms: 0,
            detonation_timer_ms,
            plant_time_ms,
            defuse_time_ms,
            defuse_kit_time_ms,
        }
    }

    pub fn new(
        detonation_timer_ms: u64,
        plant_time_ms: u32,
        defuse_time_ms: u32,
        defuse_kit_time_ms: u32,
    ) -> (b: Self)
        ensures
            b == BombState::new_spec(detonation_timer_ms, plant_time_ms, defuse_time_ms, defuse_kit_time_ms),
    {
        BombState {
            phase: BombPhase::NotPlanted,
            position: None,
            planter_id: None,
            defuser_id: None,
            timer_ms: 0,
            countdown_ms: 0,
            detonation_timer_ms,
            plant_time_ms,
            defuse_time_ms,
            defuse_kit_time_ms,
        }
    }

    pub fn is_planted(&self) -> (b: bool)
        ensures
            b == (self.phase == BombPhase::Planted || self.phase == BombPhase::Defusing),
    {
        self.phase == BombPhase::Planted || self.phase == BombPhase::Defusing
    }

    pub fn is_done(&self) -> (b: bool)
        ensures
            b == (self.phase == BombPhase::Defused || self.phase == BombPhase::Exploded),
    {
        match self.phase {
            BombPhase::Defused | BombPhase::Exploded => true,
            _ => false,
        }
    }

    /// Apply an action to the bomb state machine. A refused action leaves
    /// the state unchanged.
    pub fn apply(&mut self, action: BombAction, map: &MapDef) -> (r: Result<(), GameError>)
        ensures
            match bomb_apply(*old(self), action, *map) {
                Ok(b) => r is Ok && *final(self) == b,
                Err(e) => r == Err::<(), GameError>(e) && *final(self) == *old(self),
            },
    {
        match action {
            BombAction::StartPlant { player_id, position } => {
                if self.phase != BombPhase::NotPlanted {
                    return Err(GameError::BombAlreadyPlanted);
                }
                if map.bomb_site_at(&position).is_none() {
                    return Err(GameError::NotAtBombSite);
                }
                self.phase = BombPhase::Planting;
                self.planter_id = Some(player_id);
                self.position = Some(position);
                self.timer_ms = self.plant_time_ms as u64;
                Ok(())
            },
            BombAction::CancelPlant => {
                if self.phase == BombPhase::Planting {
                    self.phase = BombPhase::NotPlanted;
                    self.planter_id = None;
                    self.position = None;
                    self.timer_ms = 0;
                }
                Ok(())
            },
            BombAction::StartDefuse { player_id, has_kit } => {
                if self.phase != BombPhase::Planted {
                    return Err(GameError::BombNotPlanted);
                }
                let defuse_time = if has_kit {
                    self.defuse_kit_time_ms
                } else {
                    self.defuse_time_ms
                };
                self.phase = BombPhase::Defusing;
                self.defuser_id = Some(player_id);
                self.countdown_ms = self.timer_ms;
                self.timer_ms = defuse_time as u64;
                Ok(())
            },
            BombAction::CancelDefuse => {
                if self.phase == BombPhase::Defusing {
                    self.phase = BombPhase::Planted;
                    self.defuser_id = None;
                    // The detonation countdown, which ran on, takes the timer back.
                    self.timer_ms = self.countdown_ms;
                }
                Ok(())
            },
        }
    }

    /// Advance the bomb timer by `delta_ms`. Returns the round result if the
    /// bomb ended the round.
    pub fn tick(&mut self, delta_ms: u32) -> (r: Option<RoundResult>)
        ensures
            r == bomb_tick_result(*old(self), delta_ms),
            *final(self) == bomb_after(*old(self), delta_ms),
    {
        match self.phase {
            BombPhase::Planting => {
                if self.timer_ms <= delta_ms as u64 {
                    self.phase = BombPhase::Planted;
                    self.timer_ms = self.detonation_timer_ms;
                } else {
                    self.timer_ms = self.timer_ms - delta_ms as u64;
                }
                None
            },
            BombPhase::Planted => {
                if self.timer_ms <= delta_ms as u64 {
                    self.timer_ms = 0;
                    self.phase = BombPhase::Exploded;
                    return Some(RoundResult::TWin(TWinReason::BombExploded));
                }
                self.timer_ms = self.timer_ms - delta_ms as u64;
                None
            },
            BombPhase::Defusing => {
                if self.timer_ms <= delta_ms as u64 && self.timer_ms <= self.countdown_ms {
                    self.countdown_ms = self.countdown_ms - self.timer_ms;
                    self.timer_ms = 0;
                    self.phase = BombPhase::Defused;
                    return Some(RoundResult::CTWin(CTWinReason::BombDefused));
                }
                // The detonation countdown keeps running while defusing.
                if self.countdown_ms <= delta_ms as u64 {
                    self.timer_ms = 0;
                    self.countdown_ms = 0;
                    self.phase = BombPhase::Exploded;
                    return Some(RoundResult::TWin(TWinReason::BombExploded));
                }
                self.timer_ms = self.timer_ms - delta_ms as u64;
                self.countdown_ms = self.countdown_ms - delta_ms as u64;
                None
            },
            _ => None,
        }
    }

    /// Whether a player is close enough to the bomb to interact with it.
    pub fn player_in_range(player_pos: &Vec3, bomb_pos: &Vec3, range: u32) -> (b: bool)
        ensures
            b == within(*player_pos, *bomb_pos, range as int),
    {
        player_pos.is_within(bomb_pos, range)
    }
}

/// Once the bomb is defused or has exploded, no tick changes it and no
/// tick reports a result again.
pub proof fn lemma_finished_bomb_is_final(b: BombState, delta: u32)
    requires
        b.phase == BombPhase::Defused || b.phase == BombPhase::Exploded,
    ensures
        bomb_after(b, delta) == b,
        bomb_tick_result(b, delta) is None,
{
}

/// No action revives a finished bomb: on a defused or exploded bomb, every
/// action is either refused or accepted without changing anything.
pub proof fn lemma_finished_bomb_ignores_actions(b: BombState, action: BombAction, m: MapDef)
    requires
        b.phase == BombPhase::Defused || b.phase == BombPhase::Exploded,
    ensures
        match bomb_apply(b, action, m) {
            Ok(nb) => nb == b,
            Err(_) => true,
        },
{
}

} // verus!
