use vstd::prelude::*;
use crate::util::{is_isqrt, isqrt};

verus! {

/// Team designation.
#[derive(Debug, Clone, Copy, PartialEq, Eq, Structural, Hash)]
pub enum Team {
    /// Counter-Terrorists (defenders)
    CT,
    /// Terrorists (attackers)
    T,
    /// Spectator / not assigned
    Spectator,
}

impl Default for Team {
    fn default() -> (t: Team)
        ensures
            t == Team::Spectator,
    {
        Team::Spectator
    }
}

/// Game mode.
#[derive(Debug, Clone, Copy, PartialEq, Eq, Structural)]
pub enum GameMode {
    /// Classic bomb defusal
    BombDefusal,
    /// Team deathmatch
    TeamDeathmatch,
    /// Free-for-all deathmatch
    Deathmatch,
}

/// Reasons the Counter-Terrorists can win a round.
#[derive(Debug, Clone, Copy, PartialEq, Eq, Structural)]
pub enum CTWinReason {
    /// All terrorists eliminated
    TerrorsEliminated,
    /// Bomb defused
    BombDefused,
    /// Time expired without bomb plant
    TimeExpired,
}

/// Reasons the Terrorists can win a round.
#[derive(Debug, Clone, Copy, PartialEq, Eq, Structural)]
pub enum TWinReason {
    /// All counter-terrorists eliminated
    CTsEliminated,
    /// Bomb exploded
    BombExploded,
}

/// Round outcome.
#[derive(Debug, Clone, Copy, PartialEq, Eq, Structural)]
pub enum RoundResult {
    /// Counter-Terrorists win
    CTWin(CTWinReason),
    /// Terrorists win
    TWin(TWinReason),
    /// Round is still in progress
    InProgress,
}

/// Round phase.
#[derive(Debug, Clone, Copy, PartialEq, Eq, Structural)]
pub enum RoundPhase {
    /// Freeze time: players cannot move, buying is allowed
    FreezeTime,
    /// Live phase
    Live,
    /// Bomb has been planted
    BombPlanted,
    /// Round ended
    Ended,
}

/// Player skill group, from lowest to highest.
#[derive(Debug, Clone, Copy, PartialEq, Eq, Structural, PartialOrd, Ord)]
pub enum Rank {
    SilverI,
    SilverII,
    SilverIII,
    SilverIV,
    SilverElite,
    SilverEliteMaster,
    GoldNovaI,
    GoldNovaII,
    GoldNovaIII,
    GoldNovaMaster,
    MasterGuardianI,
    MasterGuardianII,
    MasterGuardianElite,
    DistinguishedMasterGuardian,
    LegendaryEagle,
    LegendaryEagleMaster,
    SupremeMasterFirstClass,
    GlobalElite,
}

/// Position of a rank in the ladder, from 0 (Silver I) to 17 (Global Elite).
pub open spec fn rank_level(r: Rank) -> int {
    match r {
        Rank::SilverI => 0,
        Rank::SilverII => 1,
        Rank::SilverIII => 2,
        Rank::SilverIV => 3,
        Rank::SilverElite => 4,
        Rank::SilverEliteMaster => 5,
        Rank::GoldNovaI => 6,
        Rank::GoldNovaII => 7,
        Rank::GoldNovaIII => 8,
        Rank::GoldNovaMaster => 9,
        Rank::MasterGuardianI => 10,
        Rank::MasterGuardianII => 11,
        Rank::MasterGuardianElite => 12,
        Rank::DistinguishedMasterGuardian => 13,
        Rank::LegendaryEagle => 14,
        Rank::LegendaryEagleMaster => 15,
        Rank::SupremeMasterFirstClass => 16,
        Rank::GlobalElite => 17,
    }
}

/// The display name of a rank.
pub open spec fn rank_name(r: Rank) -> Seq<char> {
    match r {
        Rank::SilverI => "Silver I"@,
        Rank::SilverII => "Silver II"@,
        Rank::SilverIII => "Silver III"@,
        Rank::SilverIV => "Silver IV"@,
        Rank::SilverElite => "Silver Elite"@,
        Rank::SilverEliteMaster => "Silver Elite Master"@,
        Rank::GoldNovaI => "Gold Nova I"@,
        Rank::GoldNovaII => "Gold Nova II"@,
        Rank::GoldNovaIII => "Gold Nova III"@,
        Rank::GoldNovaMaster => "Gold Nova Master"@,
        Rank::MasterGuardianI => "Master Guardian I"@,
        Rank::MasterGuardianII => "Master Guardian II"@,
        Rank::MasterGuardianElite => "Master Guardian Elite"@,
        Rank::DistinguishedMasterGuardian => "Distinguished Master Guardian"@,
        Rank::LegendaryEagle => "Legendary Eagle"@,
        Rank::LegendaryEagleMaster => "Legendary Eagle Master"@,
        Rank::SupremeMasterFirstClass => "Supreme Master First Class"@,
        Rank::GlobalElite => "Global Elite"@,
    }
}

impl Rank {
    /// Position of this rank in the ladder (0 = lowest).
    pub fn level(&self) -> (l: i32)
        ensures
            l == rank_level(*self),
            0 <= l <= 17,
    {
        match self {
            Rank::SilverI => 0,
            Rank::SilverII => 1,
            Rank::SilverIII => 2,
            Rank::SilverIV => 3,
            Rank::SilverElite => 4,
            Rank::SilverEliteMaster => 5,
            Rank::GoldNovaI => 6,
            Rank::GoldNovaII => 7,
            Rank::GoldNovaIII => 8,
            Rank::GoldNovaMaster => 9,
            Rank::MasterGuardianI => 10,
            Rank::MasterGuardianII => 11,
            Rank::MasterGuardianElite => 12,
            Rank::DistinguishedMasterGuardian => 13,
            Rank::LegendaryEagle => 14,
            Rank::LegendaryEagleMaster => 15,
            Rank::SupremeMasterFirstClass => 16,
            Rank::GlobalElite => 17,
        }
    }

    /// Human-readable name of the rank.
    pub fn name(&self) -> (s: &'static str)
        ensures
            s@ == rank_name(*self),
    {
        match self {
            Rank::SilverI => "Silver I",
            Rank::SilverII => "Silver II",
            Rank::SilverIII => "Silver III",
            Rank::SilverIV => "Silver IV",
            Rank::SilverElite => "Silver Elite",
            Rank::SilverEliteMaster => "Silver Elite Master",
            Rank::GoldNovaI => "Gold Nova I",
            Rank::GoldNovaII => "Gold Nova II",
            Rank::GoldNovaIII => "Gold Nova III",
            Rank::GoldNovaMaster => "Gold Nova Master",
            Rank::MasterGuardianI => "Master Guardian I",
            Rank::MasterGuardianII => "Master Guardian II",
            Rank::MasterGuardianElite => "Master Guardian Elite",
            Rank::DistinguishedMasterGuardian => "Distinguished Master Guardian",
            Rank::LegendaryEagle => "Legendary Eagle",
            Rank::LegendaryEagleMaster => "Legendary Eagle Master",
            Rank::SupremeMasterFirstClass => "Supreme Master First Class",
            Rank::GlobalElite => "Global Elite",
        }
    }
}

impl Default for Rank {
    fn default() -> (r: Rank)
        ensures
            r == Rank::SilverI,
    {
        Rank::SilverI
    }
}

/// 3D position in the game world, in hundredths of a world unit.
#[derive(Debug, Clone, Copy, PartialEq, Eq, Structural, Default)]
pub struct Vec3 {
    pub x: i32,
    pub y: i32,
    pub z: i32,
}

/// The squared distance between two positions.
pub open spec fn dist_sq(a: Vec3, b: Vec3) -> int {
    (a.x - b.x) * (a.x - b.x) + (a.y - b.y) * (a.y - b.y) + (a.z - b.z) * (a.z - b.z)
}

/// `a` lies within distance `range` of `b`.
pub open spec fn within(a: Vec3, b: Vec3, range: int) -> bool {
    dist_sq(a, b) <= range * range
}

/// Distance does not depend on the direction it is measured in, and only a
/// point is at distance zero from itself.
pub proof fn lemma_distance_symmetric(a: Vec3, b: Vec3)
    ensures
        dist_sq(a, b) == dist_sq(b, a),
        dist_sq(a, b) >= 0,
        dist_sq(a, b) == 0 <==> a == b,
{
    let dx: int = a.x - b.x;
    let dy: int = a.y - b.y;
    let dz: int = a.z - b.z;
    assert(dx * dx >= 0 && dy * dy >= 0 && dz * dz >= 0) by (nonlinear_arith);
    assert(dx * dx == (-dx) * (-dx) && dy * dy == (-dy) * (-dy) && dz * dz == (-dz) * (-dz))
        by (nonlinear_arith);
    assert(dx * dx == 0 ==> dx == 0) by (nonlinear_arith);
    assert(dy * dy == 0 ==> dy == 0) by (nonlinear_arith);
    assert(dz * dz == 0 ==> dz == 0) by (nonlinear_arith);
    assert(b.x - a.x == -dx && b.y - a.y == -dy && b.z - a.z == -dz);
}

/// A squared coordinate difference is at most `2^64`.
pub proof fn lemma_square_diff_bound(a: i32, b: i32)
    ensures
        0 <= (a - b) * (a - b) <= 0x1_0000_0000_0000_0000,
{
    let d: int = a - b;
    assert(-0x1_0000_0000 < d < 0x1_0000_0000);
    assert(0 <= d * d <= 0x1_0000_0000_0000_0000) by (nonlinear_arith)
        requires
            -0x1_0000_0000 < d < 0x1_0000_0000,
    ;
}

impl Vec3 {
    pub fn new(x: i32, y: i32, z: i32) -> (v: Self)
        ensures
            v == (Vec3 { x, y, z }),
    {
        Vec3 { x, y, z }
    }

    /// The squared distance to `other`.
    pub fn distance_sq_to(&self, other: &Vec3) -> (d: u128)
        ensures
            d == dist_sq(*self, *other),
            d <= 0x3_0000_0000_0000_0000,
    {
        proof {
            lemma_square_diff_bound(self.x, other.x);
            lemma_square_diff_bound(self.y, other.y);
            lemma_square_diff_bound(self.z, other.z);
        }
        let dx: i64 = self.x as i64 - other.x as i64;
        let dy: i64 = self.y as i64 - other.y as i64;
        let dz: i64 = self.z as i64 - other.z as i64;
        let ax: u128 = if dx < 0 { (-dx) as u128 } else { dx as u128 };
        let ay: u128 = if dy < 0 { (-dy) as u128 } else { dy as u128 };
        let az: u128 = if dz < 0 { (-dz) as u128 } else { dz as u128 };
        assert(ax * ax == dx * dx && ay * ay == dy * dy && az * az == dz * dz) by (nonlinear_arith)
            requires
                ax == dx || ax == -dx,
                ay == dy || ay == -dy,
                az == dz || az == -dz,
        ;
        ax * ax + ay * ay + az * az
    }

    /// The distance to `other`, rounded down to whole hundredths of a unit.
    pub fn distance_to(&self, other: &Vec3) -> (d: u64)
        ensures
            is_isqrt(dist_sq(*self, *other), d as int),
    {
        let sq = self.distance_sq_to(other);
        isqrt(sq)
    }

    /// Whether `other` lies within `range` of this position.
    pub fn is_within(&self, other: &Vec3, range: u32) -> (b: bool)
        ensures
            b == within(*self, *other, range as int),
    {
        let sq = self.distance_sq_to(other);
        let r: u128 = range as u128;
        assert(r * r <= 0x1_0000_0000_0000_0000) by (nonlinear_arith)
            requires
                r <= 0xffff_ffff,
        ;
        sq <= r * r
    }

    pub fn zero() -> (v: Self)
        ensures
            v == (Vec3 { x: 0, y: 0, z: 0 }),
    {
        Vec3::new(0, 0, 0)
    }
}

/// Player view angles (pitch, yaw), in hundredths of a degree.
#[derive(Debug, Clone, Copy, PartialEq, Eq, Structural, Default)]
pub struct ViewAngles {
    /// Up/down angle (-9000 to +9000)
    pub pitch: i32,
    /// Left/right angle (0 to 35999)
    pub yaw: i32,
}

/// `v` limited to `[lo, hi]`.
pub open spec fn clamp(v: int, lo: int, hi: int) -> int {
    if v < lo {
        lo
    } else if v > hi {
        hi
    } else {
        v
    }
}

/// `a` reduced modulo a positive `m` into `0..m` (Euclidean remainder).
pub fn rem_nonneg(a: i32, m: i32) -> (r: i32)
    requires
        m > 0,
    ensures
        r == (a as int) % (m as int),
        0 <= r < m,
{
    let mu: u64 = m as u64;
    if a >= 0 {
        let q: u64 = (a as u64) % mu;
        proof {
            let d: int = (a as u64 / mu) as int;
            vstd::arithmetic::div_mod::lemma_fundamental_div_mod(a as int, m as int);
            assert(a as int == d * (m as int) + q as int) by (nonlinear_arith)
                requires
                    a as int == (m as int) * d + q as int,
            ;
            vstd::arithmetic::div_mod::lemma_fundamental_div_mod_converse(
                a as int,
                m as int,
                d,
                q as int,
            );
        }
        q as i32
    } else {
        let p: u64 = (-(a as i64)) as u64;
        let q: u64 = p % mu;
        let k: u64 = p / mu;
        proof {
            vstd::arithmetic::div_mod::lemma_fundamental_div_mod(p as int, mu as int);
            assert(a as int == -(k as int) * (m as int) - q as int) by (nonlinear_arith)
                requires
                    p as int == (mu as int) * (k as int) + q as int,
                    a as int == -(p as int),
                    mu as int == m as int,
            ;
        }
        if q == 0 {
            proof {
                vstd::arithmetic::div_mod::lemma_fundamental_div_mod_converse(
                    a as int,
                    m as int,
                    -(k as int),
                    0,
                );
            }
            0
        } else {
            proof {
                assert(a as int == (-(k as int) - 1) * (m as int) + (m - q) as int) by (nonlinear_arith)
                    requires
                        a as int == -(k as int) * (m as int) - q as int,
                ;
                vstd::arithmetic::div_mod::lemma_fundamental_div_mod_converse(
                    a as int,
                    m as int,
                    -(k as int) - 1,
                    (m - q) as int,
                );
            }
            (mu - q) as i32
        }
    }
}

impl ViewAngles {
    /// View angles with the pitch limited to +-90 degrees and the yaw
    /// reduced modulo 360 degrees into 0..360.
    pub fn new(pitch: i32, yaw: i32) -> (v: Self)
        ensures
            v.pitch == clamp(pitch as int, -9000, 9000),
            v.yaw == (yaw as int) % 36000,
            0 <= v.yaw < 36000,
    {
        let p = if pitch < -9000 {
            -9000
        } else if pitch > 9000 {
            9000
        } else {
            pitch
        };
        ViewAngles { pitch: p, yaw: rem_nonneg(yaw, 36000) }
    }
}

/// Hit box zone on a player body.
#[derive(Debug, Clone, Copy, PartialEq, Eq, Structural)]
pub enum HitZone {
    Head,
    Neck,
    Chest,
    Stomach,
    LeftArm,
    RightArm,
    LeftLeg,
    RightLeg,
}

/// Damage multiplier of a hit zone, in percent.
pub open spec fn zone_multiplier_percent(z: HitZone) -> int {
    match z {
        HitZone::Head => 400,
        HitZone::Neck => 200,
        HitZone::Chest => 100,
        HitZone::Stomach => 100,
        HitZone::LeftArm | HitZone::RightArm => 70,
        HitZone::LeftLeg | HitZone::RightLeg => 70,
    }
}

impl HitZone {
    /// Damage multiplier for this hit zone, in percent (a head shot deals 400%).
    pub fn damage_multiplier(&self) -> (m: u32)
        ensures
            m == zone_multiplier_percent(*self),
    {
        match self {
            HitZone::Head => 400,
            HitZone::Neck => 200,
            HitZone::Chest => 100,
            HitZone::Stomach => 100,
            HitZone::LeftArm | HitZone::RightArm => 70,
            HitZone::LeftLeg | HitZone::RightLeg => 70,
        }
    }
}

/// Kill event recorded during a round.
#[derive(Debug, Clone)]
pub struct KillEvent {
    pub killer_id: String,
    pub victim_id: String,
    pub weapon_name: String,
    pub hit_zone: HitZone,
    pub is_headshot: bool,
    pub timestamp_ms: u64,
}

/// Match configuration.
#[derive(Debug, Clone)]
pub struct MatchConfig {
    pub game_mode: GameMode,
    pub max_rounds: u32,
    /// Rounds to win (e.g. 16 in a standard 30-round match)
    pub rounds_to_win: u32,
    /// Freeze time in seconds
    pub freeze_time_secs: u32,
    /// Round time in seconds (before bomb)
    pub round_time_secs: u32,
    /// Bomb timer in seconds after planting
    pub bomb_timer_secs: u32,
    /// Time to plant the bomb, in milliseconds
    pub plant_time_ms: u32,
    /// Time to defuse the bomb without a kit, in milliseconds
    pub defuse_time_ms: u32,
    /// Time to defuse the bomb with a defuse kit, in milliseconds
    pub defuse_kit_time_ms: u32,
    /// Starting money per player
    pub start_money: u32,
    /// Max money a player can hold
    pub max_money: u32,
}

impl MatchConfig {
    /// The standard competitive configuration.
    pub open spec fn spec_default() -> MatchConfig {
        MatchConfig {
            game_mode: GameMode::BombDefusal,
            max_rounds: 30,
            rounds_to_win: 16,
            freeze_time_secs: 15,
            round_time_secs: 115,
            bomb_timer_secs: 40,
            plant_time_ms: 3000,
            defuse_time_ms: 10000,
            defuse_kit_time_ms: 5000,
            start_money: 800,
            max_money: 16000,
        }
    }
}

impl Default for MatchConfig {
    fn default() -> (c: MatchConfig)
        ensures
            c == MatchConfig::spec_default(),
    {
        MatchConfig {
            game_mode: GameMode::BombDefusal,
            max_rounds: 30,
            rounds_to_win: 16,
            freeze_time_secs: 15,
            round_time_secs: 115,
            bomb_timer_secs: 40,
            plant_time_ms: 3000,
            defuse_time_ms: 10000,
            defuse_kit_time_ms: 5000,
            start_money: 800,
            max_money: 16000,
        }
    }
}

/// Summary of a completed round (for round-history display and MVP).
#[derive(Debug, Clone)]
pub struct RoundSummary {
    pub round_number: u32,
    pub result: RoundResult,
    /// Player ID of the round MVP
    pub mvp_id: Option<String>,
    pub mvp_nickname: Option<String>,
    pub ct_score: u32,
    pub t_score: u32,
}

/// Reward money given at the end of a round.
#[derive(Debug, Clone)]
pub struct RoundMoneyRewards {
    pub ct_win: u32,
    pub t_win: u32,
    pub ct_loss: u32,
    pub t_loss_base: u32,
    /// Extra added per consecutive loss (loss bonus)
    pub loss_bonus_increment: u32,
    /// Maximum consecutive loss bonus rounds
    pub max_loss_bonus: u32,
    pub kill_reward: u32,
}

impl RoundMoneyRewards {
    /// The standard competitive reward table.
    pub open spec fn spec_default() -> RoundMoneyRewards {
        RoundMoneyRewards {
            ct_win: 3250,
            t_win: 3250,
            ct_loss: 1400,
            t_loss_base: 1400,
            loss_bonus_increment: 500,
            max_loss_bonus: 4,
            kill_reward: 300,
        }
    }
}

impl Default for RoundMoneyRewards {
    fn default() -> (r: RoundMoneyRewards)
        ensures
            r == RoundMoneyRewards::spec_default(),
    {
        RoundMoneyRewards {
            ct_win: 3250,
            t_win: 3250,
            ct_loss: 1400,
            t_loss_base: 1400,
            loss_bonus_increment: 500,
            max_loss_bonus: 4,
            kill_reward: 300,
        }
    }
}

} // verus!
