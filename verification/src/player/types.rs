use vstd::prelude::*;
use crate::game::types::{Rank, Team, Vec3, ViewAngles};
use crate::player::inventory::{Inventory, InventoryView};
use crate::services::now_millis;

verus! {

/// Whether the player is alive or dead.
#[derive(Debug, Clone, Copy, PartialEq, Eq, Structural)]
pub enum PlayerState {
    Alive,
    Dead,
    Spectating,
}

/// Current movement mode.
#[derive(Debug, Clone, Copy, PartialEq, Eq, Structural)]
pub enum MovementState {
    Standing,
    Walking,
    Running,
    Crouching,
    /// Silent walk (slow, no footstep sound)
    Sneaking,
    InAir,
}

/// Speed of a movement mode relative to the base run speed, in percent.
pub open spec fn speed_percent(m: MovementState) -> int {
    match m {
        MovementState::Running => 100,
        MovementState::Walking => 60,
        MovementState::Standing => 0,
        MovementState::Crouching => 45,
        MovementState::Sneaking => 30,
        MovementState::InAir => 85,
    }
}

/// Whether a movement mode produces audible footsteps.
pub open spec fn noisy(m: MovementState) -> bool {
    match m {
        MovementState::Sneaking | MovementState::Standing | MovementState::InAir => false,
        _ => true,
    }
}

impl MovementState {
    /// Speed multiplier relative to the base run speed, in percent.
    pub fn speed_multiplier(&self) -> (p: u32)
        ensures
            p == speed_percent(*self),
    {
        match self {
            MovementState::Running => 100,
            MovementState::Walking => 60,
            MovementState::Standing => 0,
            MovementState::Crouching => 45,
            MovementState::Sneaking => 30,
            MovementState::InAir => 85,
        }
    }

    /// Whether this state produces audible footsteps.
    pub fn makes_noise(&self) -> (b: bool)
        ensures
            b == noisy(*self),
    {
        match self {
            MovementState::Sneaking | MovementState::Standing | MovementState::InAir => false,
            _ => true,
        }
    }

    /// Inaccuracy added to shooting due to movement, in hundredths.
    pub fn inaccuracy_bonus(&self) -> (b: u32)
        ensures
            b == match *self {
                MovementState::Standing => 0u32,
                MovementState::Crouching => 10,
                MovementState::Sneaking => 15,
                MovementState::Walking => 30,
                MovementState::Running => 100,
                MovementState::InAir => 150,
            },
    {
        match self {
            MovementState::Standing => 0,
            MovementState::Crouching => 10,
            MovementState::Sneaking => 15,
            MovementState::Walking => 30,
            MovementState::Running => 100,
            MovementState::InAir => 150,
        }
    }
}

/// Player armor state.
#[derive(Debug, Clone, Copy, PartialEq, Eq, Structural)]
pub struct ArmorState {
    /// Kevlar vest (0-100)
    pub vest_hp: u32,
    pub has_helmet: bool,
    pub has_defuse_kit: bool,
}

impl Default for ArmorState {
    fn default() -> (a: Self)
        ensures
            a == (ArmorState { vest_hp: 0, has_helmet: false, has_defuse_kit: false }),
    {
        ArmorState { vest_hp: 0, has_helmet: false, has_defuse_kit: false }
    }
}

impl ArmorState {
    pub fn has_vest(&self) -> (b: bool)
        ensures
            b == (self.vest_hp > 0),
    {
        self.vest_hp > 0
    }

    /// Reduce armor from a hit of `damage` (hundredths of a hit point);
    /// returns the damage the armor actually absorbed, in hundredths: half
    /// the hit, but never more than the vest holds. The vest loses the whole
    /// hit points of the absorbed damage.
    pub fn absorb_damage(&mut self, damage: u32) -> (absorbed: u32)
        ensures
            old(self).vest_hp == 0 ==> absorbed == 0 && *final(self) == *old(self),
            old(self).vest_hp > 0 ==> absorbed == (if damage / 2 <= old(self).vest_hp * 100 {
                (damage / 2) as int
            } else {
                old(self).vest_hp * 100
            }) && *final(self) == (ArmorState {
                vest_hp: (old(self).vest_hp - absorbed / 100) as u32,
                ..*old(self)
            }),
    {
        if self.vest_hp == 0 {
            return 0;
        }
        let half = damage / 2;  // armor absorbs 50% of protected hits
        let absorbed: u32 = if (half as u64) <= self.vest_hp as u64 * 100 {
            half
        } else {
            (self.vest_hp as u64 * 100) as u32
        };
        self.vest_hp = self.vest_hp - absorbed / 100;
        absorbed
    }
}

/// Persistent profile data for a player.
#[derive(Debug)]
pub struct PlayerProfile {
    pub id: String,
    pub nickname: String,
    pub rank: Rank,
    pub experience: u32,
    pub total_kills: u64,
    pub total_deaths: u64,
    pub total_wins: u64,
    pub total_matches: u64,
    pub total_headshots: u64,
    /// Creation time, in milliseconds since the Unix epoch
    pub created_at_ms: i64,
}

impl Clone for PlayerProfile {
    fn clone(&self) -> (r: Self)
        ensures
            r == *self,
    {
        PlayerProfile {
            id: self.id.clone(),
            nickname: self.nickname.clone(),
            rank: self.rank,
            experience: self.experience,
            total_kills: self.total_kills,
            total_deaths: self.total_deaths,
            total_wins: self.total_wins,
            total_matches: self.total_matches,
            total_headshots: self.total_headshots,
            created_at_ms: self.created_at_ms,
        }
    }
}

/// `num / den` in thousandths, or `num` in thousandths when `den` is 0.
pub open spec fn ratio_milli(num: u64, den: u64) -> int {
    if den == 0 {
        num * 1000
    } else {
        num * 1000 / den as int
    }
}

/// `num / den` as a percentage in hundredths of a percent, or 0 when `den` is 0.
pub open spec fn percent_centi(num: u64, den: u64) -> int {
    if den == 0 {
        0
    } else {
        num * 10000 / den as int
    }
}

/// `num / den` in thousandths (or `num` when `den` is 0).
pub fn ratio_milli_of(num: u64, den: u64) -> (r: u128)
    ensures
        r == ratio_milli(num, den),
{
    if den == 0 {
        num as u128 * 1000
    } else {
        num as u128 * 1000 / den as u128
    }
}

/// `num / den` in hundredths of a percent (0 when `den` is 0).
pub fn percent_centi_of(num: u64, den: u64) -> (r: u128)
    ensures
        r == percent_centi(num, den),
{
    if den == 0 {
        0
    } else {
        num as u128 * 10000 / den as u128
    }
}

impl PlayerProfile {
    /// A fresh profile: lowest rank, no history, created now.
    pub fn new(id: String, nickname: String) -> (p: Self)
        ensures
            p.id == id,
            p.nickname == nickname,
            p.rank == Rank::SilverI,
            p.experience == 0,
            p.total_kills == 0,
            p.total_deaths == 0,
            p.total_wins == 0,
            p.total_matches == 0,
            p.total_headshots == 0,
    {
        PlayerProfile {
            id,
            nickname,
            rank: Rank::SilverI,
            experience: 0,
            total_kills: 0,
            total_deaths: 0,
            total_wins: 0,
            total_matches: 0,
            total_headshots: 0,
            created_at_ms: now_millis(),
        }
    }

    /// Kills per death, in thousandths (kills alone when there are no deaths).
    pub fn kd_ratio(&self) -> (r: u128)
        ensures
            r == ratio_milli(self.total_kills, self.total_deaths),
    {
        ratio_milli_of(self.total_kills, self.total_deaths)
    }

    /// Matches won, in hundredths of a percent of matches played.
    pub fn win_rate(&self) -> (r: u128)
        ensures
            r == percent_centi(self.total_wins, self.total_matches),
    {
        percent_centi_of(self.total_wins, self.total_matches)
    }

    /// Headshot kills, in hundredths of a percent of kills.
    pub fn headshot_rate(&self) -> (r: u128)
        ensures
            r == percent_centi(self.total_headshots, self.total_kills),
    {
        percent_centi_of(self.total_headshots, self.total_kills)
    }
}

/// Full in-game player, combining live state and profile.
#[derive(Debug)]
pub struct Player {
    pub profile: PlayerProfile,
    pub team: Team,
    pub state: PlayerState,
    // Live combat state
    pub health: u32,
    pub armor: ArmorState,
    pub position: Vec3,
    pub view_angles: ViewAngles,
    pub movement: MovementState,
    pub inventory: Inventory,
    // Round-specific
    /// Money available for buying equipment
    pub money: u32,
    pub is_carrying_bomb: bool,
    /// Number of consecutive round losses (for loss bonus calculation)
    pub consecutive_losses: u32,
    // Per-round stats (reset each round)
    pub round_kills: u32,
    pub round_deaths: u32,
    pub round_assists: u32,
    /// Damage taken this round while surviving, in hundredths of a hit point
    pub round_damage: u32,
    /// Milliseconds of flash blindness left
    pub blind_timer_ms: u32,
    /// Milliseconds of burning left
    pub on_fire_timer_ms: u32,
}

/// The plain values of a player, with the inventory by its view.
pub struct PlayerView {
    pub profile: PlayerProfile,
    pub team: Team,
    pub state: PlayerState,
    pub health: u32,
    pub armor: ArmorState,
    pub position: Vec3,
    pub view_angles: ViewAngles,
    pub movement: MovementState,
    pub inventory: InventoryView,
    pub money: u32,
    pub is_carrying_bomb: bool,
    pub consecutive_losses: u32,
    pub round_kills: u32,
    pub round_deaths: u32,
    pub round_assists: u32,
    pub round_damage: u32,
    pub blind_timer_ms: u32,
    pub on_fire_timer_ms: u32,
}

impl View for Player {
    type V = PlayerView;

    open spec fn view(&self) -> PlayerView {
        PlayerView {
            profile: self.profile,
            team: self.team,
            state: self.state,
            health: self.health,
            armor: self.armor,
            position: self.position,
            view_angles: self.view_angles,
            movement: self.movement,
            inventory: self.inventory@,
            money: self.money,
            is_carrying_bomb: self.is_carrying_bomb,
            consecutive_losses: self.consecutive_losses,
            round_kills: self.round_kills,
            round_deaths: self.round_deaths,
            round_assists: self.round_assists,
            round_damage: self.round_damage,
            blind_timer_ms: self.blind_timer_ms,
            on_fire_timer_ms: self.on_fire_timer_ms,
        }
    }
}

impl Clone for Player {
    fn clone(&self) -> (r: Self)
        ensures
            r@ == self@,
    {
        Player {
            profile: self.profile.clone(),
            team: self.team,
            state: self.state,
            health: self.health,
            armor: self.armor,
            position: self.position,
            view_angles: self.view_angles,
            movement: self.movement,
            inventory: self.inventory.clone(),
            money: self.money,
            is_carrying_bomb: self.is_carrying_bomb,
            consecutive_losses: self.consecutive_losses,
            round_kills: self.round_kills,
            round_deaths: self.round_deaths,
            round_assists: self.round_assists,
            round_damage: self.round_damage,
            blind_timer_ms: self.blind_timer_ms,
            on_fire_timer_ms: self.on_fire_timer_ms,
        }
    }
}

/// `a + b`, or `u32::MAX` when the sum does not fit.
pub open spec fn sat_add(a: u32, b: u32) -> u32 {
    if a + b <= u32::MAX {
        (a + b) as u32
    } else {
        u32::MAX
    }
}

/// Whole hit points of `damage` hundredths, rounded up.
pub open spec fn damage_hp(damage: u32) -> int {
    (damage + 99) / 100
}

/// The player after taking `damage` hundredths of a hit point: a dead
/// player is unchanged; a hit of at least the remaining health kills;
/// otherwise the health drops by the damage rounded up to whole points.
pub open spec fn after_damage(p: PlayerView, damage: u32) -> PlayerView {
    if p.state != PlayerState::Alive {
        p
    } else if damage_hp(damage) >= p.health {
        PlayerView {
            health: 0,
            state: PlayerState::Dead,
            round_deaths: sat_add(p.round_deaths, 1),
            ..p
        }
    } else {
        PlayerView {
            health: (p.health - damage_hp(damage)) as u32,
            round_damage: sat_add(p.round_damage, damage),
            ..p
        }
    }
}

/// Whether `damage` kills the (living) player `p`.
pub open spec fn kills(p: PlayerView, damage: u32) -> bool {
    p.state == PlayerState::Alive && damage_hp(damage) >= p.health
}

/// The player reset for a new round at `spawn`.
pub open spec fn reset_player(p: PlayerView, spawn: Vec3) -> PlayerView {
    PlayerView {
        health: 100,
        state: PlayerState::Alive,
        position: spawn,
        movement: MovementState::Standing,
        is_carrying_bomb: false,
        round_kills: 0,
        round_deaths: 0,
        round_assists: 0,
        round_damage: 0,
        ..p
    }
}

/// `money + amount`, capped at `max`.
pub open spec fn capped_money(money: u32, amount: u32, max: u32) -> u32 {
    if money + amount < max {
        (money + amount) as u32
    } else {
        max
    }
}

/// Adding money never leaves more than the cap, and below the cap nothing
/// is lost.
pub proof fn lemma_money_capped(money: u32, amount: u32, max: u32)
    ensures
        capped_money(money, amount, max) <= max,
        money + amount < max ==> capped_money(money, amount, max) == money + amount,
{
}

/// Spending money the player has and then receiving the same amount back
/// restores the balance, as long as it was within the cap.
pub proof fn lemma_spend_then_refund(money: u32, amount: u32, max: u32)
    requires
        amount <= money,
        money <= max,
    ensures
        capped_money((money - amount) as u32, amount, max) == money,
{
}

/// Damage never heals: health never rises, a dead player stays as they
/// are, and a living player dies exactly when the damage (in whole hit
/// points) reaches their health.
pub proof fn lemma_damage_never_heals(p: PlayerView, damage: u32)
    ensures
        after_damage(p, damage).health <= p.health,
        p.state != PlayerState::Alive ==> after_damage(p, damage) == p,
        p.state == PlayerState::Alive ==> (after_damage(p, damage).state == PlayerState::Dead
            <==> damage_hp(damage) >= p.health),
        p.state == PlayerState::Alive && after_damage(p, damage).state == PlayerState::Dead
            ==> after_damage(p, damage).health == 0,
        after_damage(p, damage).money == p.money,
        after_damage(p, damage).team == p.team,
{
}

impl Player {
    pub const BASE_HEALTH: u32 = 100;

    /// Base run speed, in hundredths of a world unit per second.
    pub const BASE_SPEED: u32 = 25000;

    pub fn new(profile: PlayerProfile, team: Team, start_money: u32) -> (p: Self)
        ensures
            p.profile == profile,
            p.team == team,
            p.state == PlayerState::Alive,
            p.health == 100,
            p.armor == (ArmorState { vest_hp: 0, has_helmet: false, has_defuse_kit: false }),
            p.position == (Vec3 { x: 0, y: 0, z: 0 }),
            p.view_angles == (ViewAngles { pitch: 0, yaw: 0 }),
            p.movement == MovementState::Standing,
            p.inventory.is_default_loadout(),
            p.money == start_money,
            !p.is_carrying_bomb,
            p.consecutive_losses == 0,
            p.round_kills == 0,
            p.round_deaths == 0,
            p.round_assists == 0,
            p.round_damage == 0,
            p.blind_timer_ms == 0,
            p.on_fire_timer_ms == 0,
    {
        Player {
            profile,
            team,
            state: PlayerState::Alive,
            health: Self::BASE_HEALTH,
            armor: ArmorState::default(),
            position: Vec3::zero(),
            view_angles: ViewAngles { pitch: 0, yaw: 0 },
            movement: MovementState::Standing,
            inventory: Inventory::default_loadout(),
            money: start_money,
            is_carrying_bomb: false,
            consecutive_losses: 0,
            round_kills: 0,
            round_deaths: 0,
            round_assists: 0,
            round_damage: 0,
            blind_timer_ms: 0,
            on_fire_timer_ms: 0,
        }
    }

    pub fn is_alive(&self) -> (b: bool)
        ensures
            b == (self.state == PlayerState::Alive),
    {
        self.state == PlayerState::Alive
    }

    /// Current speed, in hundredths of a world unit per second.
    pub fn current_speed(&self) -> (s: u32)
        ensures
            s == 25000 * speed_percent(self.movement) / 100,
    {
        Self::BASE_SPEED * self.movement.speed_multiplier() / 100
    }

    /// Apply `damage` (hundredths of a hit point) to the player; returns
    /// whether the player died from it.
    pub fn take_damage(&mut self, damage: u32) -> (died: bool)
        ensures
            died == kills(old(self)@, damage),
            final(self)@ == after_damage(old(self)@, damage),
    {
        if !self.is_alive() {
            return false;
        }
        let dmg: u64 = (damage as u64 + 99) / 100;
        if dmg >= self.health as u64 {
            self.health = 0;
            self.state = PlayerState::Dead;
            self.round_deaths = self.round_deaths.saturating_add(1);
            true
        } else {
            self.health = self.health - dmg as u32;
            self.round_damage = self.round_damage.saturating_add(damage);
            false
        }
    }

    /// Respawn / reset for a new round.
    pub fn reset_for_round(&mut self, spawn_position: Vec3)
        ensures
            final(self)@ == reset_player(old(self)@, spawn_position),
    {
        self.health = Self::BASE_HEALTH;
        self.state = PlayerState::Alive;
        self.position = spawn_position;
        self.movement = MovementState::Standing;
        self.is_carrying_bomb = false;
        self.round_kills = 0;
        self.round_deaths = 0;
        self.round_assists = 0;
        self.round_damage = 0;
    }

    /// Add `amount` to the player's money, capped at `max`.
    pub fn add_money(&mut self, amount: u32, max: u32)
        ensures
            final(self)@ == (PlayerView {
                money: capped_money(old(self).money, amount, max),
                ..old(self)@
            }),
    {
        let sum: u64 = self.money as u64 + amount as u64;
        self.money = if sum < max as u64 {
            sum as u32
        } else {
            max
        };
    }

    /// Spend `amount` if the player can afford it; returns whether it was spent.
    pub fn spend_money(&mut self, amount: u32) -> (spent: bool)
        ensures
            spent == (old(self).money >= amount),
            spent ==> final(self)@ == (PlayerView {
                money: (old(self).money - amount) as u32,
                ..old(self)@
            }),
            !spent ==> final(self)@ == old(self)@,
    {
        if self.money >= amount {
            self.money = self.money - amount;
            true
        } else {
            false
        }
    }
}

} // verus!
