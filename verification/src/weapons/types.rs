use vstd::prelude::*;

verus! {

/// Category of weapon.
#[derive(Debug, Clone, Copy, PartialEq, Eq, Structural, Hash)]
pub enum WeaponKind {
    /// Rifles (AK-47, M4A1, etc.)
    Rifle,
    /// Submachine guns (MP5, UMP-45, etc.)
    SMG,
    /// Sniper rifles (AWP, SSG 08)
    Sniper,
    /// Shotguns
    Shotgun,
    /// Machine guns (Negev, M249)
    MachineGun,
    /// Pistols (Glock, Desert Eagle, USP-S, etc.)
    Pistol,
    /// Melee / knife
    Knife,
    /// Grenades and throwables
    Throwable,
}

/// Which inventory slot a weapon occupies.
#[derive(Debug, Clone, Copy, PartialEq, Eq, Structural, Hash)]
pub enum WeaponSlot {
    Primary,
    Secondary,
    Melee,
    Throwable,
}

/// Static weapon parameters (loaded from the catalog).
#[derive(Debug)]
pub struct WeaponStats {
    pub name: String,
    pub kind: WeaponKind,
    pub slot: WeaponSlot,
    /// Price in the buy menu
    pub price: u32,
    /// Damage per bullet at close range, in hundredths of a hit point
    pub base_damage: u32,
    /// Armor penetration ratio, in thousandths (0-1000)
    pub armor_penetration: u32,
    /// Rounds per minute
    pub fire_rate_rpm: u32,
    /// Magazine capacity
    pub magazine_size: u32,
    /// Total reserve ammo (not counting the magazine)
    pub reserve_ammo: u32,
    /// Reload duration in milliseconds
    pub reload_time_ms: u32,
    /// Time between shots in milliseconds (derived from the fire rate)
    pub shot_interval_ms: u32,
    /// Recoil magnitude in hundredths (higher = more kick)
    pub recoil: u32,
    /// Base inaccuracy in hundredths of a degree (standing still, not shooting)
    pub base_inaccuracy: u32,
    /// Additional inaccuracy while moving, in hundredths of a degree
    pub move_inaccuracy: u32,
    /// Whether the weapon is fully automatic
    pub is_automatic: bool,
    /// Reward on kill with this weapon
    pub kill_reward: u32,
}

impl Clone for WeaponStats {
    fn clone(&self) -> (r: Self)
        ensures
            r == *self,
    {
        WeaponStats {
            name: self.name.clone(),
            kind: self.kind,
            slot: self.slot,
            price: self.price,
            base_damage: self.base_damage,
            armor_penetration: self.armor_penetration,
            fire_rate_rpm: self.fire_rate_rpm,
            magazine_size: self.magazine_size,
            reserve_ammo: self.reserve_ammo,
            reload_time_ms: self.reload_time_ms,
            shot_interval_ms: self.shot_interval_ms,
            recoil: self.recoil,
            base_inaccuracy: self.base_inaccuracy,
            move_inaccuracy: self.move_inaccuracy,
            is_automatic: self.is_automatic,
            kill_reward: self.kill_reward,
        }
    }
}

/// The plain values of a `WeaponStats`, with the name as a character sequence.
pub struct WeaponStatsView {
    pub name: Seq<char>,
    pub kind: WeaponKind,
    pub slot: WeaponSlot,
    pub price: u32,
    pub base_damage: u32,
    pub armor_penetration: u32,
    pub fire_rate_rpm: u32,
    pub magazine_size: u32,
    pub reserve_ammo: u32,
    pub reload_time_ms: u32,
    pub shot_interval_ms: u32,
    pub recoil: u32,
    pub base_inaccuracy: u32,
    pub move_inaccuracy: u32,
    pub is_automatic: bool,
    pub kill_reward: u32,
}

impl View for WeaponStats {
    type V = WeaponStatsView;

    open spec fn view(&self) -> WeaponStatsView {
        WeaponStatsView {
            name: self.name@,
            kind: self.kind,
            slot: self.slot,
            price: self.price,
            base_damage: self.base_damage,
            armor_penetration: self.armor_penetration,
            fire_rate_rpm: self.fire_rate_rpm,
            magazine_size: self.magazine_size,
            reserve_ammo: self.reserve_ammo,
            reload_time_ms: self.reload_time_ms,
            shot_interval_ms: self.shot_interval_ms,
            recoil: self.recoil,
            base_inaccuracy: self.base_inaccuracy,
            move_inaccuracy: self.move_inaccuracy,
            is_automatic: self.is_automatic,
            kill_reward: self.kill_reward,
        }
    }
}

/// Time between shots, in milliseconds, for a fire rate in rounds per minute;
/// a weapon that never fires (0 rpm) waits `u32::MAX` milliseconds.
pub open spec fn shot_interval_of(rpm: u32) -> u32 {
    if rpm == 0 {
        u32::MAX
    } else {
        (60000int / rpm as int) as u32
    }
}

impl WeaponStats {
    /// Compute the shot interval (milliseconds) from a fire rate (rounds per minute).
    pub fn from_rpm(rpm: u32) -> (ms: u32)
        ensures
            ms == shot_interval_of(rpm),
    {
        if rpm == 0 {
            u32::MAX
        } else {
            60000 / rpm
        }
    }
}

/// Live ammunition state for a weapon instance carried by a player.
#[derive(Debug, Clone, Copy, PartialEq, Eq, Structural)]
pub struct AmmoState {
    pub bullets_in_magazine: u32,
    pub reserve_bullets: u32,
    /// Milliseconds remaining in the current reload (None = not reloading)
    pub reload_remaining_ms: Option<u32>,
    /// Milliseconds remaining until the next shot is allowed
    pub cooldown_remaining_ms: u32,
}

/// The ammunition after a reload of `a` completes: the magazine is topped up
/// from the reserve, as far as the reserve allows.
pub open spec fn reloaded(a: AmmoState, magazine_size: u32) -> AmmoState {
    let needed = magazine_size - a.bullets_in_magazine;
    let transferred = if needed <= a.reserve_bullets { needed } else { a.reserve_bullets as int };
    AmmoState {
        bullets_in_magazine: (a.bullets_in_magazine + transferred) as u32,
        reserve_bullets: (a.reserve_bullets - transferred) as u32,
        reload_remaining_ms: None,
        cooldown_remaining_ms: a.cooldown_remaining_ms,
    }
}

/// `t` reduced by `delta`, stopping at zero.
pub open spec fn countdown(t: u32, delta: u32) -> u32 {
    if t > delta {
        (t - delta) as u32
    } else {
        0
    }
}

/// The ammunition after `delta` milliseconds pass: the shot cooldown runs
/// down, and a reload in progress either runs down or completes.
pub open spec fn ammo_after(a: AmmoState, delta: u32, magazine_size: u32) -> AmmoState {
    let cooled = AmmoState { cooldown_remaining_ms: countdown(a.cooldown_remaining_ms, delta), ..a };
    match a.reload_remaining_ms {
        Some(r) => if r <= delta {
            reloaded(cooled, magazine_size)
        } else {
            AmmoState { reload_remaining_ms: Some((r - delta) as u32), ..cooled }
        },
        None => cooled,
    }
}

/// Whether a tick of `delta` milliseconds completes the reload of `a`.
pub open spec fn reload_completes(a: AmmoState, delta: u32) -> bool {
    a.reload_remaining_ms matches Some(r) && r <= delta
}

impl AmmoState {
    pub fn new(stats: &WeaponStats) -> (a: Self)
        ensures
            a.bullets_in_magazine == stats.magazine_size,
            a.reserve_bullets == stats.reserve_ammo,
            a.reload_remaining_ms is None,
            a.cooldown_remaining_ms == 0,
    {
        AmmoState {
            bullets_in_magazine: stats.magazine_size,
            reserve_bullets: stats.reserve_ammo,
            reload_remaining_ms: None,
            cooldown_remaining_ms: 0,
        }
    }

    pub fn is_empty(&self) -> (b: bool)
        ensures
            b == (self.bullets_in_magazine == 0),
    {
        self.bullets_in_magazine == 0
    }

    pub fn is_reloading(&self) -> (b: bool)
        ensures
            b == self.reload_remaining_ms is Some,
    {
        self.reload_remaining_ms.is_some()
    }

    pub fn can_fire(&self) -> (b: bool)
        ensures
            b == (self.bullets_in_magazine > 0 && self.reload_remaining_ms is None
                && self.cooldown_remaining_ms == 0),
    {
        !self.is_empty() && !self.is_reloading() && self.cooldown_remaining_ms == 0
    }

    pub fn needs_reload(&self) -> (b: bool)
        ensures
            b == (self.bullets_in_magazine == 0 && self.reserve_bullets > 0),
    {
        self.bullets_in_magazine == 0 && self.reserve_bullets > 0
    }

    /// Consume one bullet from a non-empty magazine.
    pub fn consume_bullet(&mut self)
        requires
            old(self).bullets_in_magazine > 0,
        ensures
            *final(self) == (AmmoState {
                bullets_in_magazine: (old(self).bullets_in_magazine - 1) as u32,
                ..*old(self)
            }),
    {
        self.bullets_in_magazine = self.bullets_in_magazine - 1;
    }

    /// Start reloading; returns false (and changes nothing) if already
    /// reloading, out of reserve ammunition, or the magazine is full.
    pub fn start_reload(&mut self, stats: &WeaponStats) -> (started: bool)
        ensures
            started == (old(self).reload_remaining_ms is None && old(self).reserve_bullets > 0
                && old(self).bullets_in_magazine != stats.magazine_size),
            started ==> *final(self) == (AmmoState {
                reload_remaining_ms: Some(stats.reload_time_ms),
                ..*old(self)
            }),
            !started ==> *final(self) == *old(self),
    {
        if self.is_reloading() {
            return false;
        }
        if self.reserve_bullets == 0 {
            return false;
        }
        if self.bullets_in_magazine == stats.magazine_size {
            return false;
        }
        self.reload_remaining_ms = Some(stats.reload_time_ms);
        true
    }

    /// Advance time by `delta_ms`. Returns true if a reload just completed.
    pub fn tick(&mut self, delta_ms: u32, stats: &WeaponStats) -> (done: bool)
        requires
            reload_completes(*old(self), delta_ms) ==> old(self).bullets_in_magazine
                <= stats.magazine_size,
        ensures
            done == reload_completes(*old(self), delta_ms),
            *final(self) == ammo_after(*old(self), delta_ms, stats.magazine_size),
    {
        if self.cooldown_remaining_ms > 0 {
            self.cooldown_remaining_ms = if self.cooldown_remaining_ms > delta_ms {
                self.cooldown_remaining_ms - delta_ms
            } else {
                0
            };
        }
        if let Some(remaining) = self.reload_remaining_ms {
            if remaining <= delta_ms {
                // Complete reload
                let needed = stats.magazine_size - self.bullets_in_magazine;
                let transferred = if needed <= self.reserve_bullets {
                    needed
                } else {
                    self.reserve_bullets
                };
                self.bullets_in_magazine = self.bullets_in_magazine + transferred;
                self.reserve_bullets = self.reserve_bullets - transferred;
                self.reload_remaining_ms = None;
                return true;
            } else {
                self.reload_remaining_ms = Some(remaining - delta_ms);
            }
        }
        false
    }
}

/// A weapon instance held by a player (stats + live ammo).
#[derive(Debug)]
pub struct Weapon {
    pub stats: WeaponStats,
    pub ammo: AmmoState,
}

impl Clone for Weapon {
    fn clone(&self) -> (r: Self)
        ensures
            r == *self,
    {
        Weapon { stats: self.stats.clone(), ammo: self.ammo }
    }
}

impl Weapon {
    pub fn new(stats: WeaponStats) -> (w: Self)
        ensures
            w.stats == stats,
            w.ammo == (AmmoState {
                bullets_in_magazine: stats.magazine_size,
                reserve_bullets: stats.reserve_ammo,
                reload_remaining_ms: None,
                cooldown_remaining_ms: 0,
            }),
    {
        let ammo = AmmoState::new(&stats);
        Weapon { stats, ammo }
    }
}

/// Reloading never creates or destroys ammunition: the bullets in the
/// magazine plus the reserve are the same after any tick, and a completed
/// reload never overfills the magazine.
pub proof fn lemma_tick_conserves_ammo(a: AmmoState, delta: u32, magazine_size: u32)
    requires
        a.bullets_in_magazine <= magazine_size,
    ensures
        ammo_after(a, delta, magazine_size).bullets_in_magazine
            + ammo_after(a, delta, magazine_size).reserve_bullets
            == a.bullets_in_magazine + a.reserve_bullets,
        ammo_after(a, delta, magazine_size).bullets_in_magazine <= magazine_size,
        reload_completes(a, delta) ==> ammo_after(a, delta, magazine_size).bullets_in_magazine
            == magazine_size || ammo_after(a, delta, magazine_size).reserve_bullets == 0,
{
}

} // verus!
