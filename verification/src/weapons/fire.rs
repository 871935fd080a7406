use vstd::prelude::*;
use crate::game::types::{zone_multiplier_percent, HitZone};
use crate::weapons::types::{AmmoState, Weapon, WeaponStats};

verus! {

/// Result of a fire attempt.
#[derive(Debug, Clone, Copy, PartialEq, Eq, Structural)]
pub enum FireResult {
    /// A shot was fired; it lands somewhere in a cone of `inaccuracy`
    /// hundredths of a degree around the aim point. Hit detection is pending.
    Fired { inaccuracy: u32 },
    /// Gun is empty - needs reload
    EmptyMagazine,
    /// Gun is reloading
    IsReloading,
    /// Cooldown not yet elapsed
    OnCooldown { remaining_ms: u32 },
    /// Weapon doesn't use ammo (e.g. knife)
    MeleeStrike,
}

/// Outcome of a single shot against a target.
#[derive(Debug, Clone, Copy, PartialEq, Eq, Structural)]
pub struct ShotResult {
    pub hit: bool,
    pub hit_zone: Option<HitZone>,
    /// Damage before armor, in hundredths of a hit point
    pub raw_damage: u32,
    /// Damage after armor reduction, in hundredths of a hit point
    pub final_damage: u32,
    pub is_headshot: bool,
    pub penetrated_armor: bool,
}

impl ShotResult {
    pub fn missed() -> (r: Self)
        ensures
            r == (ShotResult {
                hit: false,
                hit_zone: None,
                raw_damage: 0,
                final_damage: 0,
                is_headshot: false,
                penetrated_armor: false,
            }),
    {
        ShotResult {
            hit: false,
            hit_zone: None,
            raw_damage: 0,
            final_damage: 0,
            is_headshot: false,
            penetrated_armor: false,
        }
    }
}

/// A weapon that strikes instead of shooting: a one-round magazine with no
/// reserve and no reload (the knife, and single grenades).
pub open spec fn is_melee_stats(s: WeaponStats) -> bool {
    s.magazine_size == 1 && s.reserve_ammo == 0 && s.reload_time_ms == 0
}

/// The cone, in hundredths of a degree, a shot lands in: the base
/// inaccuracy, plus the movement inaccuracy while moving (the sum stops at
/// `u32::MAX`).
pub open spec fn spread_of(s: WeaponStats, is_moving: bool) -> u32 {
    if is_moving {
        if s.base_inaccuracy + s.move_inaccuracy <= u32::MAX {
            (s.base_inaccuracy + s.move_inaccuracy) as u32
        } else {
            u32::MAX
        }
    } else {
        s.base_inaccuracy
    }
}

/// What a fire attempt with weapon `w` reports.
pub open spec fn fire_outcome(w: Weapon, is_moving: bool) -> FireResult {
    if is_melee_stats(w.stats) {
        FireResult::MeleeStrike
    } else if w.ammo.reload_remaining_ms is Some {
        FireResult::IsReloading
    } else if w.ammo.cooldown_remaining_ms > 0 {
        FireResult::OnCooldown { remaining_ms: w.ammo.cooldown_remaining_ms }
    } else if w.ammo.bullets_in_magazine == 0 {
        FireResult::EmptyMagazine
    } else {
        FireResult::Fired { inaccuracy: spread_of(w.stats, is_moving) }
    }
}

/// The weapon after a fire attempt: a shot consumes one bullet and starts
/// the shot cooldown; every other outcome leaves the weapon as it was.
pub open spec fn fired(w: Weapon, is_moving: bool) -> Weapon {
    if fire_outcome(w, is_moving) is Fired {
        Weapon {
            ammo: AmmoState {
                bullets_in_magazine: (w.ammo.bullets_in_magazine - 1) as u32,
                cooldown_remaining_ms: w.stats.shot_interval_ms,
                ..w.ammo
            },
            ..w
        }
    } else {
        w
    }
}

/// Calculate the bullet spread cone (hundredths of a degree) for a shot.
pub fn calculate_spread(stats: &WeaponStats, is_moving: bool) -> (r: u32)
    ensures
        r == spread_of(*stats, is_moving),
{
    if is_moving {
        stats.base_inaccuracy.saturating_add(stats.move_inaccuracy)
    } else {
        stats.base_inaccuracy
    }
}

/// Attempt to fire a weapon. Returns the fire result and updates ammo state:
/// a shot consumes one bullet and starts the shot cooldown; every other
/// outcome leaves the weapon unchanged.
pub fn attempt_fire(weapon: &mut Weapon, is_moving: bool) -> (r: FireResult)
    ensures
        r == fire_outcome(*old(weapon), is_moving),
        *final(weapon) == fired(*old(weapon), is_moving),
{
    // Knife / throwable - special handling
    if weapon.stats.magazine_size == 1 && weapon.stats.reserve_ammo == 0
        && weapon.stats.reload_time_ms == 0 {
        return FireResult::MeleeStrike;
    }
    if weapon.ammo.is_reloading() {
        return FireResult::IsReloading;
    }
    if weapon.ammo.cooldown_remaining_ms > 0 {
        return FireResult::OnCooldown { remaining_ms: weapon.ammo.cooldown_remaining_ms };
    }
    if weapon.ammo.is_empty() {
        return FireResult::EmptyMagazine;
    }
    // Consume bullet and set cooldown
    weapon.ammo.consume_bullet();
    weapon.ammo.cooldown_remaining_ms = weapon.stats.shot_interval_ms;
    // Spread based on movement
    let spread = calculate_spread(&weapon.stats, is_moving);
    FireResult::Fired { inaccuracy: spread }
}

/// Whether the armor of a target covers a hit zone: the helmet covers the
/// head, the vest covers neck, chest and stomach; limbs are never covered.
pub open spec fn zone_protected(zone: HitZone, has_armor: bool, has_helmet: bool) -> bool {
    match zone {
        HitZone::Head => has_helmet,
        HitZone::Neck | HitZone::Chest | HitZone::Stomach => has_armor,
        _ => false,
    }
}

/// Damage before armor: the base damage scaled by the zone multiplier.
pub open spec fn raw_damage_of(base_damage: u32, zone: HitZone) -> int {
    base_damage * zone_multiplier_percent(zone) / 100
}

/// Damage after armor: a protected hit deals `raw * (penetration/2 + 1/2)`.
pub open spec fn final_damage_of(raw: int, armor_penetration: u32, protected: bool) -> int {
    if protected {
        raw * (armor_penetration + 1000) / 2000
    } else {
        raw
    }
}

/// The hit result of a bullet reaching a target.
pub open spec fn hit_result(
    base_damage: u32,
    armor_penetration: u32,
    hit_zone: HitZone,
    target_has_armor: bool,
    target_has_helmet: bool,
) -> ShotResult {
    let raw = raw_damage_of(base_damage, hit_zone);
    let protected = zone_protected(hit_zone, target_has_armor, target_has_helmet);
    ShotResult {
        hit: true,
        hit_zone: Some(hit_zone),
        raw_damage: raw as u32,
        final_damage: final_damage_of(raw, armor_penetration, protected) as u32,
        is_headshot: hit_zone == HitZone::Head,
        penetrated_armor: protected,
    }
}

/// How armor meets a bullet. The vest covers the neck, chest and stomach,
/// the helmet covers the head, and nothing covers an arm or a leg. A
/// covered hit has the armor penetrated and deals
/// `raw * (penetration + 1000) / 2000` (half the raw damage plus the
/// penetrating share of the other half), which never exceeds the raw
/// damage and is at least half of it; an uncovered hit deals the raw
/// damage. The raw damage is four times the base on the head, twice on the
/// neck, the base on chest and stomach and 70% of it on a limb. Only a
/// head hit is a headshot.
pub proof fn lemma_hit_damage_armor(
    base_damage: u32,
    armor_penetration: u32,
    hit_zone: HitZone,
    target_has_armor: bool,
    target_has_helmet: bool,
)
    requires
        base_damage * 4 <= u32::MAX,
        armor_penetration <= 1000,
    ensures
        ({
            let r = hit_result(base_damage, armor_penetration, hit_zone, target_has_armor, target_has_helmet);
            let body = hit_zone == HitZone::Neck || hit_zone == HitZone::Chest || hit_zone
                == HitZone::Stomach;
            let covered = (hit_zone == HitZone::Head && target_has_helmet) || (body && target_has_armor);
            &&& r.hit
            &&& r.hit_zone == Some(hit_zone)
            &&& r.is_headshot <==> hit_zone == HitZone::Head
            &&& r.penetrated_armor <==> covered
            &&& hit_zone == HitZone::Head ==> r.raw_damage == base_damage * 4
            &&& hit_zone == HitZone::Neck ==> r.raw_damage == base_damage * 2
            &&& (hit_zone == HitZone::Chest || hit_zone == HitZone::Stomach) ==> r.raw_damage == base_damage
            &&& (hit_zone == HitZone::LeftArm || hit_zone == HitZone::RightArm || hit_zone == HitZone::LeftLeg
                || hit_zone == HitZone::RightLeg) ==> r.raw_damage == base_damage * 70 / 100
            &&& covered ==> r.final_damage == r.raw_damage * (armor_penetration + 1000) / 2000
            &&& !covered ==> r.final_damage == r.raw_damage
            &&& r.raw_damage / 2 <= r.final_damage <= r.raw_damage
        }),
{
    let r = hit_result(base_damage, armor_penetration, hit_zone, target_has_armor, target_has_helmet);
    let raw = raw_damage_of(base_damage, hit_zone);
    assert(0 <= raw <= base_damage * 4) by (nonlinear_arith)
        requires
            raw == base_damage * zone_multiplier_percent(hit_zone) / 100,
            0 <= zone_multiplier_percent(hit_zone) <= 400,
    ;
    assert(r.raw_damage == raw);
    if zone_protected(hit_zone, target_has_armor, target_has_helmet) {
        assert(raw / 2 <= raw * (armor_penetration + 1000) / 2000 <= raw) by (nonlinear_arith)
            requires
                0 <= raw,
                armor_penetration <= 1000,
        ;
    }
}

/// Compute the hit result when a bullet reaches a target.
///
/// - `base_damage`: weapon's base damage, in hundredths of a hit point
/// - `armor_penetration`: weapon armor penetration ratio, in thousandths (0-1000)
/// - `hit_zone`: where the bullet hit
/// - `target_has_armor`: whether the target is wearing body armor
/// - `target_has_helmet`: whether the target has a helmet
pub fn compute_hit_damage(
    base_damage: u32,
    armor_penetration: u32,
    hit_zone: HitZone,
    target_has_armor: bool,
    target_has_helmet: bool,
) -> (r: ShotResult)
    requires
        base_damage * 4 <= u32::MAX,
        armor_penetration <= 1000,
    ensures
        r == hit_result(base_damage, armor_penetration, hit_zone, target_has_armor, target_has_helmet),
        r.final_damage <= r.raw_damage,
{
    let zone_multiplier = hit_zone.damage_multiplier();
    assert(0 <= base_damage * zone_multiplier <= base_damage * 400) by (nonlinear_arith)
        requires
            zone_multiplier <= 400,
    ;
    let raw_damage: u32 = ((base_damage as u64 * zone_multiplier as u64) / 100) as u32;
    let is_headshot = match hit_zone {
        HitZone::Head => true,
        _ => false,
    };
    let protected = match hit_zone {
        HitZone::Head => target_has_helmet,
        HitZone::Neck | HitZone::Chest | HitZone::Stomach => target_has_armor,
        _ => false,
    };
    let final_damage: u32 = if protected {
        // Armor reduces damage in proportion to penetration:
        // damage * (armor_pen * 0.5 + 0.5)
        assert(0 <= raw_damage * (armor_penetration + 1000) <= raw_damage * 2000)
            by (nonlinear_arith)
            requires
                armor_penetration <= 1000,
        ;
        let scaled: u64 = raw_damage as u64 * (armor_penetration as u64 + 1000);
        (scaled / 2000) as u32
    } else {
        raw_damage
    };
    ShotResult {
        hit: true,
        hit_zone: Some(hit_zone),
        raw_damage,
        final_damage,
        is_headshot,
        penetrated_armor: protected,
    }
}

/// Attempt to start reloading a weapon.
pub fn attempt_reload(ammo: &mut AmmoState, stats: &WeaponStats) -> (started: bool)
    ensures
        started == (old(ammo).reload_remaining_ms is None && old(ammo).reserve_bullets > 0
            && old(ammo).bullets_in_magazine != stats.magazine_size),
        started ==> *final(ammo) == (AmmoState {
            reload_remaining_ms: Some(stats.reload_time_ms),
            ..*old(ammo)
        }),
        !started ==> *final(ammo) == *old(ammo),
{
    ammo.start_reload(stats)
}

} // verus!
