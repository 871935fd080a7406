use game_cs::economy::shop::{BuyItemKind, BuyMenu};
use game_cs::game::types::{RoundPhase, Team};
use game_cs::player::types::{Player, PlayerProfile};
use game_cs::GameError;

fn player(team: Team, money: u32) -> Player {
    Player::new(PlayerProfile::new("p".to_string(), "P".to_string()), team, money)
}

#[test]
fn buy_menu_lists_weapons_with_descriptions() {
    let menu = BuyMenu::new();
    let items = menu.available_weapons();
    // Every catalog weapon but the free knife is for sale.
    assert_eq!(items.len(), 25);
    let glock = items.iter().find(|i| i.id == "Glock-18").unwrap();
    assert_eq!(glock.kind, BuyItemKind::Weapon);
    assert_eq!(glock.price, 200);
    assert_eq!(glock.description, "Glock-18 | DMG:28 | MAG:20 | $200");
    let ak = items.iter().find(|i| i.id == "AK-47").unwrap();
    assert_eq!(ak.description, "AK-47 | DMG:36 | MAG:30 | $2700");
}

#[test]
fn buying_a_weapon_pays_and_equips() {
    let menu = BuyMenu::new();
    let mut p = player(Team::T, 3000);
    let displaced = menu.buy_weapon(&mut p, "AK-47", RoundPhase::FreezeTime, 16000).unwrap();
    assert!(displaced.is_none());
    assert_eq!(p.money, 300);
    assert_eq!(p.inventory.primary.as_ref().unwrap().stats.name, "AK-47");
    assert_eq!(p.inventory.primary.as_ref().unwrap().ammo.bullets_in_magazine, 30);
}

#[test]
fn purchases_are_refused_outside_freeze_time_or_without_money() {
    let menu = BuyMenu::new();
    let mut p = player(Team::CT, 1000);
    match menu.buy_weapon(&mut p, "AK-47", RoundPhase::Live, 16000) {
        Err(GameError::InvalidAction(m)) => assert_eq!(m, "Can only buy weapons during freeze time"),
        other => panic!("unexpected {:?}", other),
    }
    match menu.buy_weapon(&mut p, "AK-47", RoundPhase::FreezeTime, 16000) {
        Err(GameError::InsufficientFunds { needed, available }) => {
            assert_eq!(needed, 2700);
            assert_eq!(available, 1000);
        }
        other => panic!("unexpected {:?}", other),
    }
    match menu.buy_weapon(&mut p, "Ray Gun", RoundPhase::FreezeTime, 16000) {
        Err(GameError::WeaponNotFound(n)) => assert_eq!(n, "Ray Gun"),
        other => panic!("unexpected {:?}", other),
    }
    assert_eq!(p.money, 1000);
}

#[test]
fn armor_and_kit_purchases() {
    let menu = BuyMenu::new();
    let mut p = player(Team::CT, 2000);
    menu.buy_kevlar(&mut p, RoundPhase::FreezeTime).unwrap();
    assert_eq!(p.money, 1350);
    assert_eq!(p.armor.vest_hp, 100);
    // With a vest already on, the helmet costs 350.
    menu.buy_kevlar_helmet(&mut p, RoundPhase::FreezeTime).unwrap();
    assert_eq!(p.money, 1000);
    assert!(p.armor.has_helmet);
    menu.buy_defuse_kit(&mut p, RoundPhase::FreezeTime).unwrap();
    assert_eq!(p.money, 600);
    assert!(p.armor.has_defuse_kit);
    let mut t = player(Team::T, 2000);
    match menu.buy_defuse_kit(&mut t, RoundPhase::FreezeTime) {
        Err(GameError::InvalidAction(m)) => assert_eq!(m, "Only CTs can buy defuse kits"),
        other => panic!("unexpected {:?}", other),
    }
    // Without a vest, vest and helmet cost 1000 together.
    menu.buy_kevlar_helmet(&mut t, RoundPhase::FreezeTime).unwrap();
    assert_eq!(t.money, 1000);
}
