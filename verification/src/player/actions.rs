use vstd::prelude::*;
use crate::game::error::GameError;
use crate::game::types::HitZone;
use crate::player::inventory::{active_of, with_active, InventoryView};
use crate::player::types::{after_damage, noisy, Player, PlayerState, PlayerView};
use crate::weapons::fire::{
    attempt_fire, attempt_reload, compute_hit_damage, fire_outcome, fired, hit_result, FireResult,
    ShotResult,
};
use crate::weapons::types::{ammo_after, reload_completes, AmmoState, Weapon};

verus! {

/// The weapon after an attempt to start reloading it.
pub open spec fn reload_started(w: Weapon) -> Weapon {
    if w.ammo.reload_remaining_ms is None && w.ammo.reserve_bullets > 0
        && w.ammo.bullets_in_magazine != w.stats.magazine_size {
        Weapon { ammo: AmmoState { reload_remaining_ms: Some(w.stats.reload_time_ms), ..w.ammo }, ..w }
    } else {
        w
    }
}

/// Attempt to fire the player's currently active weapon.
/// A dead player, or one with no active weapon, is refused and unchanged.
pub fn player_fire(player: &mut Player) -> (r: Result<FireResult, GameError>)
    ensures
        old(player).state != PlayerState::Alive ==> (r matches Err(GameError::PlayerDead))
            && final(player)@ == old(player)@,
        old(player).state == PlayerState::Alive ==> match active_of(old(player).inventory@) {
            Some(w) => r == Ok::<FireResult, GameError>(fire_outcome(w, noisy(old(player).movement)))
                && final(player)@ == (PlayerView {
                inventory: with_active(old(player).inventory@, fired(w, noisy(old(player).movement))),
                ..old(player)@
            }),
            None => (r matches Err(GameError::InvalidAction(m)) && m@ == "No weapon equipped"@)
                && final(player)@ == old(player)@,
        },
{
    if !player.is_alive() {
        return Err(GameError::PlayerDead);
    }
    let is_moving = player.movement.makes_noise();
    match player.inventory.active_weapon_mut() {
        Some(weapon) => Ok(attempt_fire(weapon, is_moving)),
        None => Err(GameError::InvalidAction("No weapon equipped".to_owned())),
    }
}

/// Attempt to reload the player's currently active weapon.
/// A dead player, or one with no active weapon, is refused and unchanged.
pub fn player_reload(player: &mut Player) -> (r: Result<bool, GameError>)
    ensures
        old(player).state != PlayerState::Alive ==> (r matches Err(GameError::PlayerDead))
            && final(player)@ == old(player)@,
        old(player).state == PlayerState::Alive ==> match active_of(old(player).inventory@) {
            Some(w) => r == Ok::<bool, GameError>(reload_started(w) != w) && final(player)@ == (
            PlayerView { inventory: with_active(old(player).inventory@, reload_started(w)), ..old(player)@ }),
            None => (r matches Err(GameError::InvalidAction(m)) && m@ == "No weapon equipped"@)
                && final(player)@ == old(player)@,
        },
{
    if !player.is_alive() {
        return Err(GameError::PlayerDead);
    }
    match player.inventory.active_weapon_mut() {
        Some(weapon) => {
            let ghost before = *weapon;
            let stats = weapon.stats.clone();
            let started = attempt_reload(&mut weapon.ammo, &stats);
            assert(started == (reload_started(before) != before)) by {
                if started {
                    assert(weapon.ammo.reload_remaining_ms is Some);
                    assert(before.ammo.reload_remaining_ms is None);
                }
            };
            Ok(started)
        },
        None => Err(GameError::InvalidAction("No weapon equipped".to_owned())),
    }
}

/// Apply an incoming shot to `victim` and return the shot result.
///
/// The victim takes the final damage, counted once in the round damage
/// (see `Player::take_damage`).
pub fn apply_shot_to_player(
    victim: &mut Player,
    base_damage: u32,
    armor_penetration: u32,
    hit_zone: HitZone,
) -> (r: ShotResult)
    requires
        base_damage * 4 <= u32::MAX,
        armor_penetration <= 1000,
    ensures
        r == hit_result(
            base_damage,
            armor_penetration,
            hit_zone,
            old(victim).armor.vest_hp > 0,
            old(victim).armor.has_helmet,
        ),
        final(victim)@ == after_damage(old(victim)@, r.final_damage),
{
    let result = compute_hit_damage(
        base_damage,
        armor_penetration,
        hit_zone,
        victim.armor.has_vest(),
        victim.armor.has_helmet,
    );
    victim.take_damage(result.final_damage);
    result
}

/// `w` after `delta` milliseconds of weapon timers.
pub open spec fn weapon_after(w: Weapon, delta: u32) -> Weapon {
    Weapon { ammo: ammo_after(w.ammo, delta, w.stats.magazine_size), ..w }
}

/// A reload that completes within `delta` finds the magazine no fuller than
/// its capacity.
pub open spec fn tick_safe(w: Weapon, delta: u32) -> bool {
    reload_completes(w.ammo, delta) ==> w.ammo.bullets_in_magazine <= w.stats.magazine_size
}

fn tick_opt(slot: &mut Option<Weapon>, delta_secs: u32)
    requires
        *old(slot) matches Some(w) ==> tick_safe(w, delta_secs),
    ensures
        match *old(slot) {
            Some(w) => *final(slot) == Some(weapon_after(w, delta_secs)),
            None => *final(slot) is None,
        },
{
    if let Some(weapon) = slot.as_mut() {
        let stats = weapon.stats.clone();
        weapon.ammo.tick(delta_secs, &stats);
    }
}

/// Advance all weapon timers (reload, cooldown) of the primary, secondary
/// and throwable weapons of a player by `delta_ms` milliseconds.
pub fn tick_player_weapons(player: &mut Player, delta_ms: u32)
    requires
        old(player).inventory.primary matches Some(w) ==> tick_safe(w, delta_ms),
        old(player).inventory.secondary matches Some(w) ==> tick_safe(w, delta_ms),
        forall|i: int|
            0 <= i < old(player).inventory.throwables@.len() ==> tick_safe(
                #[trigger] old(player).inventory.throwables@[i],
                delta_ms,
            ),
    ensures
        final(player)@ == (PlayerView {
            inventory: InventoryView {
                primary: match old(player).inventory.primary {
                    Some(w) => Some(weapon_after(w, delta_ms)),
                    None => None,
                },
                secondary: match old(player).inventory.secondary {
                    Some(w) => Some(weapon_after(w, delta_ms)),
                    None => None,
                },
                throwables: old(player).inventory.throwables@.map_values(
                    |w: Weapon| weapon_after(w, delta_ms),
                ),
                ..old(player).inventory@
            },
            ..old(player)@
        }),
{
    tick_opt(&mut player.inventory.primary, delta_ms);
    tick_opt(&mut player.inventory.secondary, delta_ms);
    let n = player.inventory.throwables.len();
    let mut i: usize = 0;
    while i < n
        invariant
            n == old(player).inventory.throwables@.len(),
            i <= n,
            player.inventory.throwables@.len() == n,
            forall|j: int|
                0 <= j < i ==> player.inventory.throwables@[j] == weapon_after(
                    old(player).inventory.throwables@[j],
                    delta_ms,
                ),
            forall|j: int|
                i <= j < n ==> player.inventory.throwables@[j] == old(player).inventory.throwables@[j],
            forall|j: int|
                0 <= j < n ==> tick_safe(#[trigger] old(player).inventory.throwables@[j], delta_ms),
            player.inventory.primary == (match old(player).inventory.primary {
                Some(w) => Some(weapon_after(w, delta_ms)),
                None => None,
            }),
            player.inventory.secondary == (match old(player).inventory.secondary {
                Some(w) => Some(weapon_after(w, delta_ms)),
                None => None,
            }),
            player.inventory.melee == old(player).inventory.melee,
            player.inventory.active_throwable == old(player).inventory.active_throwable,
            player.inventory.active_slot == old(player).inventory.active_slot,
            player.profile == old(player).profile,
            player.team == old(player).team,
            player.state == old(player).state,
            player.health == old(player).health,
            player.armor == old(player).armor,
            player.position == old(player).position,
            player.view_angles == old(player).view_angles,
            player.movement == old(player).movement,
            player.money == old(player).money,
            player.is_carrying_bomb == old(player).is_carrying_bomb,
            player.consecutive_losses == old(player).consecutive_losses,
            player.round_kills == old(player).round_kills,
            player.round_deaths == old(player).round_deaths,
            player.round_assists == old(player).round_assists,
            player.round_damage == old(player).round_damage,
            player.blind_timer_ms == old(player).blind_timer_ms,
            player.on_fire_timer_ms == old(player).on_fire_timer_ms,
        decreases n - i,
    {
        let stats = player.inventory.throwables[i].stats.clone();
        let mut ammo = player.inventory.throwables[i].ammo;
        ammo.tick(delta_ms, &stats);
        player.inventory.throwables.set(i, Weapon { stats, ammo });
        i = i + 1;
    }
    assert(player.inventory.throwables@ =~= old(player).inventory.throwables@.map_values(
        |w: Weapon| weapon_after(w, delta_ms),
    ));
}

} // verus!
