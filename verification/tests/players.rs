use game_cs::game::types::{HitZone, Team, Vec3};
use game_cs::player::actions::{apply_shot_to_player, player_fire, player_reload, tick_player_weapons};
use game_cs::weapons::fire::FireResult;
use game_cs::GameError;
use game_cs::player::inventory::{ActiveSlot, Inventory};
use game_cs::player::movement::{determine_movement_state, MoveInput};
use game_cs::player::types::{ArmorState, MovementState, Player, PlayerProfile, PlayerState};
use game_cs::weapons::catalog::WeaponCatalog;
use game_cs::weapons::types::Weapon;

fn player(id: &str, team: Team) -> Player {
    Player::new(PlayerProfile::new(id.to_string(), format!("{}-nick", id)), team, 800)
}

#[test]
fn new_player_has_default_loadout() {
    let p = player("a", Team::CT);
    assert_eq!(p.health, 100);
    assert_eq!(p.money, 800);
    assert!(p.is_alive());
    assert!(p.inventory.primary.is_none());
    assert_eq!(p.inventory.melee.as_ref().unwrap().stats.name, "Knife");
    assert_eq!(p.inventory.active_slot, ActiveSlot::Melee);
}

#[test]
fn damage_rounds_up_to_whole_hit_points() {
    let mut p = player("a", Team::CT);
    let died = p.take_damage(2550);
    assert!(!died);
    assert_eq!(p.health, 74);
    assert_eq!(p.round_damage, 2550);
    assert_eq!(p.state, PlayerState::Alive);
}

#[test]
fn lethal_damage_kills_and_counts_a_death() {
    let mut p = player("a", Team::CT);
    assert!(p.take_damage(10000));
    assert_eq!(p.health, 0);
    assert_eq!(p.state, PlayerState::Dead);
    assert_eq!(p.round_deaths, 1);
    // A dead player takes no more damage.
    assert!(!p.take_damage(5000));
    assert_eq!(p.round_deaths, 1);
    assert_eq!(p.health, 0);
}

#[test]
fn money_is_capped_and_spending_checks_funds() {
    let mut p = player("a", Team::T);
    p.add_money(20000, 16000);
    assert_eq!(p.money, 16000);
    assert!(!p.spend_money(16001));
    assert_eq!(p.money, 16000);
    assert!(p.spend_money(2700));
    assert_eq!(p.money, 13300);
    p.add_money(2700, 16000);
    assert_eq!(p.money, 16000);
}

#[test]
fn reset_for_round_restores_health_and_position() {
    let mut p = player("a", Team::T);
    p.take_damage(5000);
    p.is_carrying_bomb = true;
    p.round_kills = 3;
    p.reset_for_round(Vec3::new(100, 200, 300));
    assert_eq!(p.health, 100);
    assert_eq!(p.position, Vec3::new(100, 200, 300));
    assert!(!p.is_carrying_bomb);
    assert_eq!(p.round_kills, 0);
    assert_eq!(p.round_damage, 0);
}

#[test]
fn armor_absorbs_half_and_loses_whole_points() {
    let mut a = ArmorState { vest_hp: 100, has_helmet: false, has_defuse_kit: false };
    assert!(a.has_vest());
    assert_eq!(a.absorb_damage(3000), 1500);
    assert_eq!(a.vest_hp, 85);
    let mut none = ArmorState::default();
    assert_eq!(none.absorb_damage(3000), 0);
    assert_eq!(none.vest_hp, 0);
    // A thin vest absorbs no more than it holds.
    let mut thin = ArmorState { vest_hp: 10, has_helmet: false, has_defuse_kit: false };
    assert_eq!(thin.absorb_damage(10000), 1000);
    assert_eq!(thin.vest_hp, 0);
}

#[test]
fn movement_modes_and_speeds() {
    let mut input = MoveInput::default();
    assert_eq!(determine_movement_state(&input, false), MovementState::InAir);
    assert_eq!(determine_movement_state(&input, true), MovementState::Standing);
    input.forward = true;
    assert_eq!(determine_movement_state(&input, true), MovementState::Running);
    input.walk = true;
    assert_eq!(determine_movement_state(&input, true), MovementState::Walking);
    input.sneak = true;
    assert_eq!(determine_movement_state(&input, true), MovementState::Sneaking);
    input.crouch = true;
    assert_eq!(determine_movement_state(&input, true), MovementState::Crouching);
    assert!(MovementState::Running.makes_noise());
    assert!(MovementState::Walking.makes_noise());
    assert!(!MovementState::Sneaking.makes_noise());
    assert!(!MovementState::Standing.makes_noise());
    let mut p = player("a", Team::CT);
    p.movement = MovementState::Running;
    assert_eq!(p.current_speed(), 25000);
}

#[test]
fn profile_ratios_in_fixed_point() {
    let mut prof = PlayerProfile::new("x".to_string(), "X".to_string());
    prof.total_kills = 30;
    prof.total_deaths = 20;
    prof.total_wins = 7;
    prof.total_matches = 10;
    prof.total_headshots = 12;
    assert_eq!(prof.kd_ratio(), 1500);
    assert_eq!(prof.win_rate(), 7000);
    assert_eq!(prof.headshot_rate(), 4000);
    prof.total_deaths = 0;
    assert_eq!(prof.kd_ratio(), 30000);
}

#[test]
fn equipping_a_rifle_then_dropping_it_gives_it_back() {
    let cat = WeaponCatalog::new();
    let ak = Weapon::new(cat.get("AK-47").unwrap().clone());
    let m4 = Weapon::new(cat.get("M4A4").unwrap().clone());
    let mut inv = Inventory::default_loadout();
    assert!(inv.equip(ak).is_none());
    assert_eq!(inv.active_slot, ActiveSlot::Primary);
    let displaced = inv.equip(m4).unwrap();
    assert_eq!(displaced.stats.name, "AK-47");
    let dropped = inv.drop_primary().unwrap();
    assert_eq!(dropped.stats.name, "M4A4");
    assert!(inv.primary.is_none());
    inv.clear();
    assert_eq!(inv.active_slot, ActiveSlot::Melee);
    assert!(inv.melee.is_some());
}

#[test]
fn firing_and_reloading_through_the_player() {
    let cat = WeaponCatalog::new();
    let mut shooter = player("s", Team::T);
    shooter.inventory.equip(Weapon::new(cat.get("AK-47").unwrap().clone()));
    // Standing still: the base spread.
    assert_eq!(player_fire(&mut shooter).unwrap(), FireResult::Fired { inaccuracy: 40 });
    assert_eq!(shooter.inventory.primary.as_ref().unwrap().ammo.bullets_in_magazine, 29);
    assert!(player_reload(&mut shooter).unwrap());
    tick_player_weapons(&mut shooter, 2400);
    let ammo = shooter.inventory.primary.as_ref().unwrap().ammo;
    assert_eq!(ammo.bullets_in_magazine, 30);
    assert_eq!(ammo.reserve_bullets, 89);
    assert_eq!(ammo.cooldown_remaining_ms, 0);

    // The shot lands: 36 HP to the chest of an unarmored target, counted
    // once in the round damage.
    let mut target = player("t", Team::CT);
    let shot = apply_shot_to_player(&mut target, 3600, 775, HitZone::Chest);
    assert_eq!(shot.final_damage, 3600);
    assert_eq!(target.health, 64);
    assert_eq!(target.round_damage, 3600);

    // Nothing in hand.
    shooter.inventory.drop_primary();
    match player_fire(&mut shooter) {
        Err(GameError::InvalidAction(m)) => assert_eq!(m, "No weapon equipped"),
        other => panic!("unexpected {:?}", other),
    }
    // The dead cannot shoot.
    let mut dead = player("d", Team::CT);
    dead.take_damage(100000);
    assert!(matches!(player_fire(&mut dead), Err(GameError::PlayerDead)));
    assert!(matches!(player_reload(&mut dead), Err(GameError::PlayerDead)));
}
