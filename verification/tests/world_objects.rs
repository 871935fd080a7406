use game_cs::game::drops::DropZone;
use game_cs::game::grenade::{GrenadeSim, GrenadeState, GrenadeType};
use game_cs::game::types::{CTWinReason, RoundResult, TWinReason, Team, Vec3, ViewAngles};
use game_cs::map::bomb::{BombAction, BombPhase, BombState};
use game_cs::map::maps::MapRegistry;
use game_cs::map::types::AABB;
use game_cs::player::types::{Player, PlayerProfile};
use game_cs::weapons::catalog::WeaponCatalog;
use game_cs::weapons::types::Weapon;

#[test]
fn map_registry_lists_the_pool_in_order() {
    let reg = MapRegistry::new();
    assert_eq!(reg.list(), vec!["de_dust2", "de_inferno", "de_mirage", "de_nuke", "de_overpass"]);
    let dust2 = reg.get("de_dust2").unwrap();
    assert_eq!(dust2.bomb_sites.len(), 2);
    assert_eq!(dust2.bomb_site_at(&Vec3::new(-20000, 280000, 0)).unwrap().label, 'A');
    assert!(dust2.bomb_site_at(&Vec3::new(0, 0, 0)).is_none());
    assert_eq!(dust2.spawn_for(Team::T, 5), dust2.spawn_for(Team::T, 0));
    assert_eq!(dust2.spawn_for(Team::Spectator, 3), Vec3::zero());
    assert!(reg.get("de_cache").is_none());
}

#[test]
fn boxes_contain_their_corners_and_center() {
    let b = AABB::new(Vec3::new(-100, -100, -100), Vec3::new(300, 100, 101));
    assert!(b.contains(&Vec3::new(-100, 100, 0)));
    assert!(!b.contains(&Vec3::new(301, 0, 0)));
    assert_eq!(b.center(), Vec3::new(100, 0, 0));
}

#[test]
fn distances_are_exact_integers() {
    let a = Vec3::new(0, 0, 0);
    let b = Vec3::new(300, 400, 0);
    assert_eq!(a.distance_sq_to(&b), 250000);
    assert_eq!(a.distance_to(&b), 500);
    assert_eq!(b.distance_to(&a), 500);
    assert!(a.is_within(&b, 500));
    assert!(!a.is_within(&b, 499));
}

#[test]
fn the_bomb_plants_explodes_or_is_defused() {
    let map = MapRegistry::new().get("de_dust2").unwrap().clone();
    let mut bomb = BombState::new(40000, 3000, 10000, 5000);
    assert!(!bomb.is_planted());
    bomb.apply(BombAction::StartPlant { player_id: "t".into(), position: Vec3::new(-20000, 280000, 0) }, &map).unwrap();
    assert_eq!(bomb.phase, BombPhase::Planting);
    assert_eq!(bomb.tick(3000), None);
    assert_eq!(bomb.phase, BombPhase::Planted);
    assert_eq!(bomb.timer_ms, 40000);
    bomb.apply(BombAction::StartDefuse { player_id: "ct".into(), has_kit: true }, &map).unwrap();
    assert_eq!(bomb.timer_ms, 5000);
    assert_eq!(bomb.tick(5000), Some(RoundResult::CTWin(CTWinReason::BombDefused)));
    assert!(bomb.is_done());
    assert_eq!(bomb.tick(1000), None);
    assert_eq!(bomb.phase, BombPhase::Defused);

    let mut boom = BombState::new(40000, 3000, 10000, 5000);
    boom.apply(BombAction::StartPlant { player_id: "t".into(), position: Vec3::new(-20000, 280000, 0) }, &map).unwrap();
    boom.tick(3000);
    assert_eq!(boom.tick(39999), None);
    assert_eq!(boom.tick(1), Some(RoundResult::TWin(TWinReason::BombExploded)));
    assert_eq!(boom.phase, BombPhase::Exploded);
}

#[test]
fn dropped_weapons_are_picked_up_by_id() {
    let cat = WeaponCatalog::new();
    let mut zone = DropZone::new();
    let a = zone.add("p1".into(), Weapon::new(cat.get("AK-47").unwrap().clone()), Vec3::new(0, 0, 0));
    let b = zone.add("p2".into(), Weapon::new(cat.get("AWP").unwrap().clone()), Vec3::new(5000, 0, 0));
    assert_eq!((a, b), (0, 1));
    assert_eq!(zone.count(), 2);
    assert_eq!(zone.nearest_in_range(&Vec3::new(4000, 0, 0)), Some(1));
    assert_eq!(zone.nearest_in_range(&Vec3::new(100000, 0, 0)), None);
    let taken = zone.take(0).unwrap();
    assert_eq!(taken.weapon.stats.name, "AK-47");
    assert!(zone.take(0).is_none());
    assert_eq!(zone.count(), 1);
    zone.clear();
    assert_eq!(zone.count(), 0);
    assert_eq!(zone.next_drop_id(), 2);
}

#[test]
fn smoke_lingers_and_fire_burns() {
    let mut sim = GrenadeSim::new();
    let mut victim = Player::new(PlayerProfile::new("v".into(), "V".into()), Team::CT, 800);
    victim.position = Vec3::new(0, 0, 0);
    let players = vec![victim];
    sim.throw(GrenadeType::Smoke, "t".into(), Vec3::new(0, 0, 0));
    sim.throw(GrenadeType::Molotov, "t".into(), Vec3::new(100, 0, 0));
    assert_eq!(sim.next_grenade_id(), 2);
    let events = sim.tick(2000, &players);
    assert_eq!(events.len(), 1);
    assert!(events[0].is_smoke);
    assert_eq!(sim.active_smokes(), vec![Vec3::new(0, 0, 0)]);
    let events = sim.tick(1000, &players);
    // The molotov bursts: an instant 15 HP to those near its center.
    assert_eq!(events.len(), 1);
    assert_eq!(events[0].damage_map, vec![("v".to_string(), 1500)]);
    assert_eq!(sim.active_fires().len(), 1);
    let events = sim.tick(500, &players);
    // 40 HP per second of burning.
    assert_eq!(events[0].damage_map, vec![("v".to_string(), 2000)]);
    assert_eq!(sim.live_count(), 2);
    let _ = GrenadeState::Active;
}

#[test]
fn the_detonation_countdown_runs_on_during_a_defuse() {
    let map = MapRegistry::new().get("de_dust2").unwrap().clone();
    let mut bomb = BombState::new(40000, 3000, 10000, 5000);
    bomb.apply(BombAction::StartPlant { player_id: "t".into(), position: Vec3::new(-20000, 280000, 0) }, &map).unwrap();
    bomb.tick(3000);
    assert_eq!(bomb.tick(32000), None);
    assert_eq!(bomb.timer_ms, 8000);
    // Starting and cancelling a defuse keeps the detonation countdown.
    bomb.apply(BombAction::StartDefuse { player_id: "ct".into(), has_kit: false }, &map).unwrap();
    assert_eq!(bomb.timer_ms, 10000);
    assert_eq!(bomb.tick(1000), None);
    bomb.apply(BombAction::CancelDefuse, &map).unwrap();
    assert_eq!(bomb.phase, BombPhase::Planted);
    assert!(bomb.defuser_id.is_none());
    assert_eq!(bomb.timer_ms, 7000);
    // A defuse that cannot finish in time: the bomb explodes mid-defuse.
    bomb.apply(BombAction::StartDefuse { player_id: "ct".into(), has_kit: false }, &map).unwrap();
    assert_eq!(bomb.tick(7000), Some(RoundResult::TWin(TWinReason::BombExploded)));
    assert_eq!(bomb.phase, BombPhase::Exploded);
}

#[test]
fn view_angles_wrap_the_yaw_into_a_full_turn() {
    let v = ViewAngles::new(12000, -9000);
    assert_eq!(v.pitch, 9000);
    assert_eq!(v.yaw, 27000);
    assert_eq!(ViewAngles::new(0, 36000).yaw, 0);
    assert_eq!(ViewAngles::new(-10000, 45000).yaw, 9000);
    assert_eq!(ViewAngles::new(-10000, 45000).pitch, -9000);
    assert_eq!(ViewAngles::new(0, -36000).yaw, 0);
}

#[test]
fn detonating_grenades_stay_or_go_by_kind() {
    let mut sim = GrenadeSim::new();
    let players: Vec<Player> = Vec::new();
    let he = sim.throw(GrenadeType::HE, "t".into(), Vec3::new(0, 0, 0));
    let smoke = sim.throw(GrenadeType::Smoke, "t".into(), Vec3::new(0, 0, 0));
    let flash = sim.throw(GrenadeType::Flash, "t".into(), Vec3::new(0, 0, 0));
    assert_eq!((he, smoke, flash), (0, 1, 2));
    // Every fuse runs out: each grenade reports once, and only the smoke stays.
    let events = sim.tick(3000, &players);
    let ids: Vec<u32> = events.iter().map(|e| e.grenade_id).collect();
    assert_eq!(ids, vec![0, 1, 2]);
    assert_eq!(sim.live_count(), 1);
    assert_eq!(sim.active_smokes().len(), 1);
    // The smoke lasts its full 18 seconds from now.
    sim.tick(17999, &players);
    assert_eq!(sim.live_count(), 1);
    sim.tick(1, &players);
    assert_eq!(sim.live_count(), 0);
}
