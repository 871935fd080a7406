use vstd::prelude::*;
use crate::game::error::GameError;
use crate::game::types::{RoundPhase, Team};
use crate::player::inventory::{displaced_by, equipped};
use crate::player::types::{Player, PlayerView};
use crate::weapons::catalog::{first_named, WeaponCatalog};
use crate::weapons::types::{AmmoState, Weapon, WeaponStats, WeaponStatsView};
use crate::util::{decimal, weapon_description};

verus! {

/// Category of item in the buy menu.
#[derive(Debug, Clone, Copy, PartialEq, Eq, Structural)]
pub enum BuyItemKind {
    Weapon,
    Kevlar,
    KevlarHelmet,
    DefuseKit,
    Taser,
}

/// A single item available for purchase.
#[derive(Debug)]
pub struct BuyItem {
    pub id: String,
    pub kind: BuyItemKind,
    pub price: u32,
    pub description: String,
}

/// The plain values of a buy-menu item.
pub struct BuyItemView {
    pub id: Seq<char>,
    pub kind: BuyItemKind,
    pub price: u32,
    pub description: Seq<char>,
}

impl View for BuyItem {
    type V = BuyItemView;

    open spec fn view(&self) -> BuyItemView {
        BuyItemView {
            id: self.id@,
            kind: self.kind,
            price: self.price,
            description: self.description@,
        }
    }
}

/// The weapons of `s` that are for sale (price above 0), in order.
pub open spec fn for_sale(s: Seq<WeaponStatsView>) -> Seq<WeaponStatsView>
    decreases s.len(),
{
    if s.len() == 0 {
        Seq::empty()
    } else if s.last().price > 0 {
        for_sale(s.drop_last()).push(s.last())
    } else {
        for_sale(s.drop_last())
    }
}

/// The damage shown in the menu: base damage in whole hit points, rounded.
pub open spec fn shown_damage(base_damage: u32) -> nat {
    ((base_damage + 50) / 100) as nat
}

/// The menu item that sells weapon `w`.
pub open spec fn weapon_item(w: WeaponStatsView) -> BuyItemView {
    BuyItemView {
        id: w.name,
        kind: BuyItemKind::Weapon,
        price: w.price,
        description: w.name + " | DMG:"@ + decimal(shown_damage(w.base_damage)) + " | MAG:"@
            + decimal(w.magazine_size as nat) + " | $"@ + decimal(w.price as nat),
    }
}

/// Price of a Kevlar vest.
pub const KEVLAR_PRICE: u32 = 650;

/// Price of a defuse kit.
pub const KIT_PRICE: u32 = 400;

/// The buy menu system: handles purchases during freeze time.
pub struct BuyMenu {
    catalog: WeaponCatalog,
}

/// A purchase refused because it is not freeze time.
pub open spec fn refused_phase<T>(r: Result<T, GameError>, msg: Seq<char>) -> bool {
    r matches Err(GameError::InvalidAction(m)) && m@ == msg
}

/// A purchase refused for lack of money.
pub open spec fn refused_funds<T>(r: Result<T, GameError>, needed: u32, available: u32) -> bool {
    r matches Err(GameError::InsufficientFunds { needed: n, available: a }) && n == needed && a
        == available
}

/// The price of full armor: 350 to add a helmet to a vest, else 1000.
pub open spec fn helmet_price(vest_hp: u32) -> u32 {
    if vest_hp > 0 {
        350
    } else {
        1000
    }
}

impl BuyMenu {
    /// The catalog the menu sells from.
    pub closed spec fn catalog_view(&self) -> Seq<WeaponStatsView> {
        self.catalog@
    }

    pub fn new() -> (m: Self)
        ensures
            m.catalog_view() == crate::weapons::catalog::default_weapons(),
    {
        BuyMenu { catalog: WeaponCatalog::new() }
    }

    /// List all weapons for sale (price above 0), in catalog order.
    pub fn available_weapons(&self) -> (items: Vec<BuyItem>)
        ensures
            items@.len() == for_sale(self.catalog_view()).len(),
            forall|k: int|
                0 <= k < items@.len() ==> #[trigger] items@[k]@ == weapon_item(
                    for_sale(self.catalog_view())[k],
                ),
    {
        let all = self.catalog.all();
        let ghost s = self.catalog_view();
        let mut items: Vec<BuyItem> = Vec::new();
        let mut i: usize = 0;
        while i < all.len()
            invariant
                all@.map_values(|w: WeaponStats| w@) == s,
                i <= all@.len(),
                items@.len() == for_sale(s.take(i as int)).len(),
                forall|k: int|
                    0 <= k < items@.len() ==> #[trigger] items@[k]@ == weapon_item(
                        for_sale(s.take(i as int))[k],
                    ),
            decreases all@.len() - i,
        {
            let w = &all[i];
            assert(s.take(i + 1).drop_last() =~= s.take(i as int));
            assert(s.take(i + 1).last() == w@);
            if w.price > 0 {
                let shown: u32 = ((w.base_damage as u64 + 50) / 100) as u32;
                let item = BuyItem {
                    id: w.name.clone(),
                    kind: BuyItemKind::Weapon,
                    price: w.price,
                    description: weapon_description(
                        w.name.as_str(),
                        shown,
                        w.magazine_size,
                        w.price,
                    ),
                };
                items.push(item);
            }
            i = i + 1;
        }
        assert(s.take(all@.len() as int) =~= s);
        items
    }

    /// Purchase a weapon for the player. Only allowed during freeze time.
    ///
    /// On success the price is paid, the weapon (fresh from the catalog) is
    /// equipped, and the weapon it displaced, if any, is returned.
    pub fn buy_weapon(
        &self,
        player: &mut Player,
        weapon_name: &str,
        round_phase: RoundPhase,
        _max_money: u32,
    ) -> (r: Result<Option<Weapon>, GameError>)
        ensures
            round_phase != RoundPhase::FreezeTime ==> refused_phase(
                r,
                "Can only buy weapons during freeze time"@,
            ) && final(player)@ == old(player)@,
            round_phase == RoundPhase::FreezeTime ==> match first_named(
                self.catalog_view(),
                weapon_name@,
            ) {
                None => (r matches Err(GameError::WeaponNotFound(n)) && n@ == weapon_name@)
                    && final(player)@ == old(player)@,
                Some(i) => {
                    let price = self.catalog_view()[i].price;
                    if old(player).money < price {
                        refused_funds(r, price, old(player).money) && final(player)@ == old(
                            player,
                        )@
                    } else {
                        exists|w: Weapon|
                            {
                                &&& w.stats@ == self.catalog_view()[i]
                                &&& w.ammo == (AmmoState {
                                    bullets_in_magazine: w.stats.magazine_size,
                                    reserve_bullets: w.stats.reserve_ammo,
                                    reload_remaining_ms: None,
                                    cooldown_remaining_ms: 0,
                                })
                                &&& r == Ok::<Option<Weapon>, GameError>(
                                    displaced_by(old(player).inventory@, w),
                                )
                                &&& final(player)@ == (PlayerView {
                                    money: (old(player).money - price) as u32,
                                    inventory: equipped(old(player).inventory@, w),
                                    ..old(player)@
                                })
                            }
                    }
                },
            },
    {
        if round_phase != RoundPhase::FreezeTime {
            return Err(
                GameError::InvalidAction("Can only buy weapons during freeze time".to_owned()),
            );
        }
        let stats: WeaponStats = match self.catalog.get(weapon_name) {
            Some(s) => s.clone(),
            None => {
                return Err(GameError::WeaponNotFound(weapon_name.to_owned()));
            },
        };
        let price = stats.price;
        if player.money < price {
            return Err(GameError::InsufficientFunds { needed: price, available: player.money });
        }
        player.spend_money(price);
        let weapon = Weapon::new(stats);
        let displaced = player.inventory.equip(weapon);
        Ok(displaced)
    }

    /// Purchase a Kevlar vest (without helmet) for 650.
    pub fn buy_kevlar(&self, player: &mut Player, round_phase: RoundPhase) -> (r: Result<
        (),
        GameError,
    >)
        ensures
            round_phase != RoundPhase::FreezeTime ==> refused_phase(
                r,
                "Can only buy equipment during freeze time"@,
            ) && final(player)@ == old(player)@,
            round_phase == RoundPhase::FreezeTime && old(player).money < KEVLAR_PRICE ==> refused_funds(
                r,
                KEVLAR_PRICE,
                old(player).money,
            ) && final(player)@ == old(player)@,
            round_phase == RoundPhase::FreezeTime && old(player).money >= KEVLAR_PRICE ==> r is Ok
                && final(player)@ == (PlayerView {
                money: (old(player).money - KEVLAR_PRICE) as u32,
                armor: crate::player::types::ArmorState { vest_hp: 100, ..old(player).armor },
                ..old(player)@
            }),
    {
        if round_phase != RoundPhase::FreezeTime {
            return Err(
                GameError::InvalidAction("Can only buy equipment during freeze time".to_owned()),
            );
        }
        if player.money < KEVLAR_PRICE {
            return Err(
                GameError::InsufficientFunds { needed: KEVLAR_PRICE, available: player.money },
            );
        }
        player.spend_money(KEVLAR_PRICE);
        player.armor.vest_hp = 100;
        Ok(())
    }

    /// Purchase full armor (Kevlar + Helmet): 350 with a vest already worn,
    /// 1000 otherwise.
    pub fn buy_kevlar_helmet(&self, player: &mut Player, round_phase: RoundPhase) -> (r: Result<
        (),
        GameError,
    >)
        ensures
            round_phase != RoundPhase::FreezeTime ==> refused_phase(
                r,
                "Can only buy equipment during freeze time"@,
            ) && final(player)@ == old(player)@,
            round_phase == RoundPhase::FreezeTime && old(player).money < helmet_price(
                old(player).armor.vest_hp,
            ) ==> refused_funds(r, helmet_price(old(player).armor.vest_hp), old(player).money)
                && final(player)@ == old(player)@,
            round_phase == RoundPhase::FreezeTime && old(player).money >= helmet_price(
                old(player).armor.vest_hp,
            ) ==> r is Ok && final(player)@ == (PlayerView {
                money: (old(player).money - helmet_price(old(player).armor.vest_hp)) as u32,
                armor: crate::player::types::ArmorState {
                    vest_hp: 100,
                    has_helmet: true,
                    ..old(player).armor
                },
                ..old(player)@
            }),
    {
        if round_phase != RoundPhase::FreezeTime {
            return Err(
                GameError::InvalidAction("Can only buy equipment during freeze time".to_owned()),
            );
        }
        let price: u32 = if player.armor.vest_hp > 0 {
            350
        } else {
            1000
        };
        if player.money < price {
            return Err(GameError::InsufficientFunds { needed: price, available: player.money });
        }
        player.spend_money(price);
        player.armor.vest_hp = 100;
        player.armor.has_helmet = true;
        Ok(())
    }

    /// Purchase a defuse kit for 400 (CT only).
    pub fn buy_defuse_kit(&self, player: &mut Player, round_phase: RoundPhase) -> (r: Result<
        (),
        GameError,
    >)
        ensures
            round_phase != RoundPhase::FreezeTime ==> refused_phase(
                r,
                "Can only buy equipment during freeze time"@,
            ) && final(player)@ == old(player)@,
            round_phase == RoundPhase::FreezeTime && old(player).team != Team::CT ==> refused_phase(
                r,
                "Only CTs can buy defuse kits"@,
            ) && final(player)@ == old(player)@,
            round_phase == RoundPhase::FreezeTime && old(player).team == Team::CT && old(player).money
                < KIT_PRICE ==> refused_funds(r, KIT_PRICE, old(player).money) && final(player)@
                == old(player)@,
            round_phase == RoundPhase::FreezeTime && old(player).team == Team::CT && old(player).money
                >= KIT_PRICE ==> r is Ok && final(player)@ == (PlayerView {
                money: (old(player).money - KIT_PRICE) as u32,
                armor: crate::player::types::ArmorState { has_defuse_kit: true, ..old(player).armor },
                ..old(player)@
            }),
    {
        if round_phase != RoundPhase::FreezeTime {
            return Err(
                GameError::InvalidAction("Can only buy equipment during freeze time".to_owned()),
            );
        }
        if player.team != Team::CT {
            return Err(GameError::InvalidAction("Only CTs can buy defuse kits".to_owned()));
        }
        if player.money < KIT_PRICE {
            return Err(GameError::InsufficientFunds { needed: KIT_PRICE, available: player.money });
        }
        player.spend_money(KIT_PRICE);
        player.armor.has_defuse_kit = true;
        Ok(())
    }
}

impl Default for BuyMenu {
    fn default() -> (m: Self)
        ensures
            m.catalog_view() == crate::weapons::catalog::default_weapons(),
    {
        Self::new()
    }
}

} // verus!
