use game_cs::game::types::HitZone;
use game_cs::weapons::catalog::WeaponCatalog;
use game_cs::weapons::fire::{attempt_fire, attempt_reload, calculate_spread, compute_hit_damage, FireResult};
use game_cs::weapons::types::{AmmoState, Weapon, WeaponKind, WeaponStats};

fn weapon(name: &str) -> Weapon {
    Weapon::new(WeaponCatalog::new().get(name).unwrap().clone())
}

#[test]
fn catalog_holds_the_standard_arsenal() {
    let cat = WeaponCatalog::new();
    assert_eq!(cat.all().len(), 26);
    let ak = cat.get("AK-47").unwrap();
    assert_eq!(ak.price, 2700);
    assert_eq!(ak.base_damage, 3600);
    assert_eq!(ak.magazine_size, 30);
    assert_eq!(ak.shot_interval_ms, 100);
    assert!(cat.get("Ray Gun").is_none());
}

#[test]
fn shot_interval_from_rate_of_fire() {
    assert_eq!(WeaponStats::from_rpm(600), 100);
    // No rate of fire: the next shot never comes.
    assert_eq!(WeaponStats::from_rpm(0), u32::MAX);
}

#[test]
fn firing_uses_a_bullet_and_starts_the_cooldown() {
    let mut ak = weapon("AK-47");
    let r = attempt_fire(&mut ak, false);
    assert_eq!(r, FireResult::Fired { inaccuracy: 40 });
    assert_eq!(ak.ammo.bullets_in_magazine, 29);
    assert_eq!(ak.ammo.cooldown_remaining_ms, 100);
    assert_eq!(attempt_fire(&mut ak, false), FireResult::OnCooldown { remaining_ms: 100 });
    assert_eq!(ak.ammo.bullets_in_magazine, 29);
}

#[test]
fn moving_widens_the_spread() {
    let ak = weapon("AK-47");
    assert_eq!(calculate_spread(&ak.stats, false), 40);
    assert_eq!(calculate_spread(&ak.stats, true), 190);
}

#[test]
fn knife_strikes_without_ammo() {
    let mut knife = weapon("Knife");
    assert_eq!(attempt_fire(&mut knife, true), FireResult::MeleeStrike);
}

#[test]
fn reload_moves_ammo_from_reserve_without_losing_any() {
    let mut ak = weapon("AK-47");
    ak.ammo.bullets_in_magazine = 10;
    let stats = ak.stats.clone();
    assert!(attempt_reload(&mut ak.ammo, &stats));
    assert!(ak.ammo.is_reloading());
    assert!(!attempt_reload(&mut ak.ammo, &stats));
    ak.ammo.tick(2400, &stats);
    assert!(!ak.ammo.is_reloading());
    assert_eq!(ak.ammo.bullets_in_magazine, 30);
    assert_eq!(ak.ammo.reserve_bullets, 70);
    assert_eq!(ak.ammo.bullets_in_magazine + ak.ammo.reserve_bullets, 100);
}

#[test]
fn empty_magazine_cannot_fire() {
    let mut ak = weapon("AK-47");
    ak.ammo = AmmoState { bullets_in_magazine: 0, reserve_bullets: 0, reload_remaining_ms: None, cooldown_remaining_ms: 0 };
    assert_eq!(attempt_fire(&mut ak, false), FireResult::EmptyMagazine);
    let stats = ak.stats.clone();
    assert!(!attempt_reload(&mut ak.ammo, &stats));
}

#[test]
fn headshot_damage_and_helmet() {
    // 36 HP, 77.5% armor penetration, head multiplier 4x
    let bare = compute_hit_damage(3600, 775, HitZone::Head, false, false);
    assert!(bare.hit && bare.is_headshot);
    assert_eq!(bare.raw_damage, 14400);
    assert_eq!(bare.final_damage, 14400);
    let helmet = compute_hit_damage(3600, 775, HitZone::Head, true, true);
    // 14400 * (0.775 * 0.5 + 0.5) = 12780
    assert_eq!(helmet.final_damage, 12780);
    assert!(helmet.penetrated_armor);
    let leg = compute_hit_damage(3600, 775, HitZone::LeftLeg, true, true);
    assert_eq!(leg.final_damage, leg.raw_damage);
}

#[test]
fn the_rifle_shelf_is_cheapest_first() {
    let cat = WeaponCatalog::new();
    let names: Vec<String> = cat.by_price_of_kind(WeaponKind::Rifle).iter().map(|w| w.name.clone()).collect();
    assert_eq!(names, vec!["Galil AR", "FAMAS", "AK-47", "M4A1-S", "SG 553", "M4A4", "AUG"]);
    let knives = cat.by_price_of_kind(WeaponKind::Knife);
    assert_eq!(knives.len(), 1);
    // Equal prices keep catalog order.
    let pistols: Vec<String> = cat.by_price_of_kind(WeaponKind::Pistol).iter().map(|w| w.name.clone()).collect();
    assert_eq!(pistols, vec!["Glock-18", "USP-S", "P250", "Desert Eagle"]);
}
