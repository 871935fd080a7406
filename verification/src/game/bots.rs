//! The decisions of a computer-controlled player in a played match: whether
//! it shoots (and whom, how hard), plants the bomb or starts a defuse; and
//! where the human player's shots land. The
//! chances are in thousandths; the random draws come from `rand` and each
//! decision is stated for every value they take.
use vstd::prelude::*;
use crate::game::types::Team;
use crate::map::bomb::BombPhase;
use crate::services::random_below;

verus! {

/// Chance, in thousandths, that a bot with an enemy in sight takes a shot.
pub const SHOOT_CHANCE: u32 = 550;

/// Chance, in thousandths, that a shot hits.
pub const HIT_CHANCE: u32 = 380;

/// Chance, in thousandths, that a hit is a headshot.
pub const HEADSHOT_CHANCE: u32 = 120;

/// Chance, in thousandths, that the bomb carrier starts planting once the
/// round clock is under 80 seconds.
pub const PLANT_CHANCE: u32 = 600;

/// Chance, in thousandths, that a counter-terrorist starts a defuse.
pub const DEFUSE_CHANCE: u32 = 250;

/// The random draws behind one bot's turn: rolls in thousandths (below
/// 1000), the enemy picked (an index below the number of enemies), and the
/// share of the weapon's damage a body shot deals, in thousandths (400 up
/// to 749).
#[derive(Debug, Clone, Copy, PartialEq, Eq, Structural)]
pub struct BotDraws {
    pub shoot: u32,
    pub victim: u32,
    pub hit: u32,
    pub headshot: u32,
    pub damage_share: u32,
    pub plant: u32,
    pub defuse: u32,
}

/// One thing a bot does in its turn.
#[derive(Debug, Clone, Copy, PartialEq, Eq, Structural)]
pub enum BotMove {
    /// Hit the enemy at this index of the enemy list for `damage`
    /// hundredths of a hit point
    Shoot { victim: u32, damage: u32, is_headshot: bool },
    /// Start planting the bomb
    Plant,
    /// Start defusing the bomb
    Defuse,
}

/// `v` held at `u32::MAX`.
pub open spec fn cap_u32(v: int) -> u32 {
    if v <= u32::MAX {
        v as u32
    } else {
        u32::MAX
    }
}

/// The damage of a bot's hit with a weapon of `base_damage`: a headshot
/// deals 1.2 times the weapon's damage, a body shot `damage_share`
/// thousandths of it (rounded down, held at `u32::MAX`).
pub open spec fn bot_damage(base_damage: u32, is_headshot: bool, damage_share: u32) -> u32 {
    if is_headshot {
        cap_u32(base_damage * 1200 / 1000)
    } else {
        cap_u32(base_damage * damage_share / 1000)
    }
}

/// The moves of one living bot of `team` in a live round or with the bomb
/// down, in order: a shot that hits, when an enemy is in sight, the shot is
/// taken and it hits; a plant, when the bot carries the bomb, it is not
/// down yet, the round clock shows under 80 seconds and the roll allows;
/// a defuse, when the bot is a counter-terrorist, the bomb is planted and
/// the roll allows.
pub open spec fn bot_moves(
    team: Team,
    carrying_bomb: bool,
    base_damage: u32,
    enemies: u32,
    bomb_phase: BombPhase,
    time_remaining_ms: u64,
    d: BotDraws,
) -> Seq<BotMove> {
    let is_hs = d.headshot < HEADSHOT_CHANCE;
    let shots = if enemies > 0 && d.shoot < SHOOT_CHANCE && d.hit < HIT_CHANCE {
        seq![BotMove::Shoot { victim: d.victim, damage: bot_damage(base_damage, is_hs, d.damage_share), is_headshot: is_hs }]
    } else {
        Seq::empty()
    };
    let plants = if team == Team::T && carrying_bomb && bomb_phase == BombPhase::NotPlanted
        && time_remaining_ms < 80000 && d.plant < PLANT_CHANCE {
        seq![BotMove::Plant]
    } else {
        Seq::empty()
    };
    let defuses = if team == Team::CT && bomb_phase == BombPhase::Planted && d.defuse < DEFUSE_CHANCE {
        seq![BotMove::Defuse]
    } else {
        Seq::empty()
    };
    shots + plants + defuses
}

/// Decide one bot's turn from its draws.
pub fn decide_bot_moves(
    team: Team,
    carrying_bomb: bool,
    base_damage: u32,
    enemies: u32,
    bomb_phase: BombPhase,
    time_remaining_ms: u64,
    d: BotDraws,
) -> (r: Vec<BotMove>)
    ensures
        r@ == bot_moves(team, carrying_bomb, base_damage, enemies, bomb_phase, time_remaining_ms, d),
{
    let mut moves: Vec<BotMove> = Vec::new();
    let is_hs = d.headshot < HEADSHOT_CHANCE;
    if enemies > 0 && d.shoot < SHOOT_CHANCE && d.hit < HIT_CHANCE {
        let share: u64 = if is_hs {
            1200
        } else {
            d.damage_share as u64
        };
        assert(base_damage as u64 * share <= u64::MAX) by (nonlinear_arith)
            requires
                share <= u32::MAX,
                base_damage <= u32::MAX,
        ;
        let raw: u64 = base_damage as u64 * share / 1000;
        let damage: u32 = if raw <= u32::MAX as u64 {
            raw as u32
        } else {
            u32::MAX
        };
        moves.push(BotMove::Shoot { victim: d.victim, damage, is_headshot: is_hs });
    }
    if team == Team::T && carrying_bomb && bomb_phase == BombPhase::NotPlanted && time_remaining_ms
        < 80000 && d.plant < PLANT_CHANCE {
        moves.push(BotMove::Plant);
    }
    if team == Team::CT && bomb_phase == BombPhase::Planted && d.defuse < DEFUSE_CHANCE {
        moves.push(BotMove::Defuse);
    }
    assert(moves@ =~= bot_moves(team, carrying_bomb, base_damage, enemies, bomb_phase, time_remaining_ms, d));
    moves
}

/// Chance, in thousandths, that the human player's shot hits.
pub const PLAYER_HIT_CHANCE: u32 = 720;

/// Chance, in thousandths, that the human player's hit is a headshot.
pub const PLAYER_HEADSHOT_CHANCE: u32 = 250;

/// The random draws behind a shot of the human player: the target picked
/// (below the number of targets), rolls in thousandths, and the share of the
/// weapon's damage a body shot deals, in thousandths (600 up to 999).
#[derive(Debug, Clone, Copy, PartialEq, Eq, Structural)]
pub struct ShotDraws {
    pub target: u32,
    pub hit: u32,
    pub headshot: u32,
    pub damage_share: u32,
}

/// A landed shot of the human player: the target's index, the damage in
/// hundredths of a hit point, and whether it was a headshot.
#[derive(Debug, Clone, Copy, PartialEq, Eq, Structural)]
pub struct PlayerHit {
    pub target: u32,
    pub damage: u32,
    pub is_headshot: bool,
}

/// The outcome of the human player's shot with a weapon of `base_damage`:
/// none when it misses; otherwise the picked target takes four times the
/// weapon's damage on a headshot, or `damage_share` thousandths of it on
/// the body (held at `u32::MAX`).
pub open spec fn player_shot(base_damage: u32, d: ShotDraws) -> Option<PlayerHit> {
    if d.hit < PLAYER_HIT_CHANCE {
        let hs = d.headshot < PLAYER_HEADSHOT_CHANCE;
        Some(
            PlayerHit {
                target: d.target,
                damage: if hs {
                    cap_u32(base_damage * 4)
                } else {
                    cap_u32(base_damage * d.damage_share / 1000)
                },
                is_headshot: hs,
            },
        )
    } else {
        None
    }
}

/// Decide the human player's shot from its draws.
pub fn decide_player_shot(base_damage: u32, d: ShotDraws) -> (r: Option<PlayerHit>)
    ensures
        r == player_shot(base_damage, d),
{
    if d.hit >= PLAYER_HIT_CHANCE {
        return None;
    }
    let hs = d.headshot < PLAYER_HEADSHOT_CHANCE;
    let share: u64 = if hs {
        4000
    } else {
        d.damage_share as u64
    };
    assert(base_damage as u64 * share <= u64::MAX) by (nonlinear_arith)
        requires
            share <= u32::MAX,
            base_damage <= u32::MAX,
    ;
    let raw: u64 = base_damage as u64 * share / 1000;
    let damage: u32 = if raw <= u32::MAX as u64 {
        raw as u32
    } else {
        u32::MAX
    };
    Some(PlayerHit { target: d.target, damage, is_headshot: hs })
}

/// Fresh random draws for a shot of the human player at one of `targets`
/// targets: the target below `targets` (0 when there is none), every roll
/// below 1000, and the body-shot share from 600 up to 999.
pub fn draw_player_shot(targets: u32) -> (d: ShotDraws)
    ensures
        targets > 0 ==> d.target < targets,
        targets == 0 ==> d.target == 0,
        d.hit < 1000,
        d.headshot < 1000,
        600 <= d.damage_share < 1000,
{
    let target = if targets > 0 {
        random_below(targets)
    } else {
        0
    };
    let hit = random_below(1000);
    let headshot = random_below(1000);
    let damage_share = 600 + random_below(400);
    ShotDraws { target, hit, headshot, damage_share }
}

/// Fresh random draws for a bot's turn against `enemies` enemies: every
/// roll below 1000, the enemy picked below `enemies` (0 when there is
/// none), and the body-shot share from 400 up to 749.
pub fn draw_bot_turn(enemies: u32) -> (d: BotDraws)
    ensures
        d.shoot < 1000,
        d.hit < 1000,
        d.headshot < 1000,
        d.plant < 1000,
        d.defuse < 1000,
        400 <= d.damage_share < 750,
        enemies > 0 ==> d.victim < enemies,
        enemies == 0 ==> d.victim == 0,
{
    let shoot = random_below(1000);
    let victim = if enemies > 0 {
        random_below(enemies)
    } else {
        0
    };
    let hit = random_below(1000);
    let headshot = random_below(1000);
    let damage_share = 400 + random_below(350);
    let plant = random_below(1000);
    let defuse = random_below(1000);
    BotDraws { shoot, victim, hit, headshot, damage_share, plant, defuse }
}

} // verus!
