use vstd::prelude::*;
use crate::weapons::types::{shot_interval_of, WeaponKind, WeaponSlot, WeaponStats, WeaponStatsView};
use crate::util::str_eq;

verus! {

/// The plain values of one catalog entry.
pub open spec fn stats_view(
    name: Seq<char>,
    kind: WeaponKind,
    slot: WeaponSlot,
    price: u32,
    base_damage: u32,
    armor_penetration: u32,
    fire_rate_rpm: u32,
    magazine_size: u32,
    reserve_ammo: u32,
    reload_time_ms: u32,
    shot_interval_ms: u32,
    recoil: u32,
    base_inaccuracy: u32,
    move_inaccuracy: u32,
    is_automatic: bool,
    kill_reward: u32,
) -> WeaponStatsView {
    WeaponStatsView {
        name,
        kind,
        slot,
        price,
        base_damage,
        armor_penetration,
        fire_rate_rpm,
        magazine_size,
        reserve_ammo,
        reload_time_ms,
        shot_interval_ms,
        recoil,
        base_inaccuracy,
        move_inaccuracy,
        is_automatic,
        kill_reward,
    }
}

/// Entry `i` of the default weapon table.
pub open spec fn default_weapon_at(i: int) -> WeaponStatsView {
    if i == 0 {
        stats_view("Glock-18"@, WeaponKind::Pistol, WeaponSlot::Secondary, 200, 2800, 470, 400, 20, 120, 2200, shot_interval_of(400), 50, 60, 100, true, 300)
    } else if i == 1 {
        stats_view("USP-S"@, WeaponKind::Pistol, WeaponSlot::Secondary, 200, 3500, 500, 352, 12, 24, 2200, shot_interval_of(352), 40, 50, 90, false, 300)
    } else if i == 2 {
        stats_view("Desert Eagle"@, WeaponKind::Pistol, WeaponSlot::Secondary, 700, 6300, 930, 267, 7, 35, 2200, shot_interval_of(267), 150, 90, 200, false, 300)
    } else if i == 3 {
        stats_view("P250"@, WeaponKind::Pistol, WeaponSlot::Secondary, 300, 3800, 940, 400, 13, 26, 2200, shot_interval_of(400), 60, 60, 120, false, 300)
    } else if i == 4 {
        stats_view("MP5-SD"@, WeaponKind::SMG, WeaponSlot::Primary, 1500, 2700, 600, 857, 30, 120, 2100, shot_interval_of(857), 70, 50, 70, true, 600)
    } else if i == 5 {
        stats_view("UMP-45"@, WeaponKind::SMG, WeaponSlot::Primary, 1200, 3500, 650, 667, 25, 100, 3500, shot_interval_of(667), 80, 60, 80, true, 600)
    } else if i == 6 {
        stats_view("AK-47"@, WeaponKind::Rifle, WeaponSlot::Primary, 2700, 3600, 775, 600, 30, 90, 2400, shot_interval_of(600), 120, 40, 150, true, 300)
    } else if i == 7 {
        stats_view("M4A1-S"@, WeaponKind::Rifle, WeaponSlot::Primary, 2900, 3800, 700, 600, 20, 40, 3100, shot_interval_of(600), 90, 30, 120, true, 300)
    } else if i == 8 {
        stats_view("M4A4"@, WeaponKind::Rifle, WeaponSlot::Primary, 3100, 3300, 700, 666, 30, 90, 3100, shot_interval_of(666), 100, 30, 120, true, 300)
    } else if i == 9 {
        stats_view("FAMAS"@, WeaponKind::Rifle, WeaponSlot::Primary, 2050, 3000, 700, 666, 25, 75, 3300, shot_interval_of(666), 90, 40, 130, true, 300)
    } else if i == 10 {
        stats_view("Galil AR"@, WeaponKind::Rifle, WeaponSlot::Primary, 2000, 3000, 775, 666, 35, 90, 3300, shot_interval_of(666), 100, 40, 140, true, 300)
    } else if i == 11 {
        stats_view("SG 553"@, WeaponKind::Rifle, WeaponSlot::Primary, 3000, 3000, 900, 666, 30, 90, 2800, shot_interval_of(666), 100, 40, 120, true, 300)
    } else if i == 12 {
        stats_view("AUG"@, WeaponKind::Rifle, WeaponSlot::Primary, 3300, 2800, 900, 666, 30, 90, 3800, shot_interval_of(666), 80, 30, 110, true, 300)
    } else if i == 13 {
        stats_view("AWP"@, WeaponKind::Sniper, WeaponSlot::Primary, 4750, 11500, 975, 41, 10, 30, 3700, shot_interval_of(41), 300, 0, 500, false, 100)
    } else if i == 14 {
        stats_view("SSG 08"@, WeaponKind::Sniper, WeaponSlot::Primary, 1700, 8800, 975, 48, 10, 90, 3700, shot_interval_of(48), 250, 0, 500, false, 300)
    } else if i == 15 {
        stats_view("SCAR-20"@, WeaponKind::Sniper, WeaponSlot::Primary, 5000, 8000, 975, 240, 20, 90, 3700, shot_interval_of(240), 200, 10, 500, true, 300)
    } else if i == 16 {
        stats_view("Nova"@, WeaponKind::Shotgun, WeaponSlot::Primary, 1050, 2600, 500, 68, 8, 32, 500, shot_interval_of(68), 200, 100, 200, false, 900)
    } else if i == 17 {
        stats_view("XM1014"@, WeaponKind::Shotgun, WeaponSlot::Primary, 2000, 2000, 500, 171, 7, 32, 500, shot_interval_of(171), 180, 100, 180, true, 900)
    } else if i == 18 {
        stats_view("M249"@, WeaponKind::MachineGun, WeaponSlot::Primary, 5200, 3200, 800, 857, 100, 200, 4700, shot_interval_of(857), 150, 50, 200, true, 300)
    } else if i == 19 {
        stats_view("Negev"@, WeaponKind::MachineGun, WeaponSlot::Primary, 1700, 3500, 800, 1000, 150, 300, 5700, shot_interval_of(1000), 200, 70, 250, true, 300)
    } else if i == 20 {
        stats_view("HE Grenade"@, WeaponKind::Throwable, WeaponSlot::Throwable, 300, 9800, 500, 60, 1, 0, 0, 1000, 0, 0, 0, false, 300)
    } else if i == 21 {
        stats_view("Flashbang"@, WeaponKind::Throwable, WeaponSlot::Throwable, 200, 0, 0, 60, 2, 0, 0, 1000, 0, 0, 0, false, 0)
    } else if i == 22 {
        stats_view("Smoke Grenade"@, WeaponKind::Throwable, WeaponSlot::Throwable, 300, 0, 0, 60, 1, 0, 0, 1000, 0, 0, 0, false, 0)
    } else if i == 23 {
        stats_view("Molotov"@, WeaponKind::Throwable, WeaponSlot::Throwable, 400, 4000, 0, 60, 1, 0, 0, 1000, 0, 0, 0, false, 0)
    } else if i == 24 {
        stats_view("Incendiary Grenade"@, WeaponKind::Throwable, WeaponSlot::Throwable, 600, 4000, 0, 60, 1, 0, 0, 1000, 0, 0, 0, false, 0)
    } else {
        stats_view("Knife"@, WeaponKind::Knife, WeaponSlot::Melee, 0, 6500, 1000, 120, 1, 0, 0, shot_interval_of(120), 0, 0, 0, false, 1500)
    }
}

/// The default weapon table: pistols, SMGs, rifles, snipers, shotguns,
/// machine guns, grenades and the knife, in registration order.
pub open spec fn default_weapons() -> Seq<WeaponStatsView> {
    Seq::new(26, |i: int| default_weapon_at(i))
}

/// Entry `w` of a weapon table is consistent: its slot follows its kind
/// (pistols secondary, knives melee, throwables in the throwable slot),
/// only knives are free, the magazine holds at least one round, the armor
/// penetration is at most 1 (1000 thousandths), and the shot interval is
/// the one its fire rate gives.
pub open spec fn entry_consistent(w: WeaponStatsView) -> bool {
    &&& (w.slot == WeaponSlot::Secondary <==> w.kind == WeaponKind::Pistol)
    &&& (w.slot == WeaponSlot::Melee <==> w.kind == WeaponKind::Knife)
    &&& (w.slot == WeaponSlot::Throwable <==> w.kind == WeaponKind::Throwable)
    &&& (w.price == 0 <==> w.kind == WeaponKind::Knife)
    &&& w.magazine_size >= 1
    &&& w.armor_penetration <= 1000
    &&& w.shot_interval_ms == shot_interval_of(w.fire_rate_rpm)
}

/// Every entry of the default weapon table is consistent.
pub proof fn lemma_default_weapons_consistent()
    ensures
        forall|i: int| 0 <= i < default_weapons().len() ==> entry_consistent(
            #[trigger] default_weapons()[i],
        ),
{
    assert forall|i: int| 0 <= i < 26 implies entry_consistent(default_weapon_at(i)) by {
        assert(shot_interval_of(60) == 1000);
    }
}

/// No two entries of the default weapon table share a name, so looking a
/// weapon up by name finds the one entry of that name.
#[verifier::rlimit(100)]
pub proof fn lemma_default_weapon_names_distinct()
    ensures
        forall|i: int, j: int|
            0 <= i < j < default_weapons().len() ==> #[trigger] default_weapons()[i].name
                != #[trigger] default_weapons()[j].name,
{
    reveal_strlit("Glock-18");
    reveal_strlit("USP-S");
    reveal_strlit("Desert Eagle");
    reveal_strlit("P250");
    reveal_strlit("MP5-SD");
    reveal_strlit("UMP-45");
    reveal_strlit("AK-47");
    reveal_strlit("M4A1-S");
    reveal_strlit("M4A4");
    reveal_strlit("FAMAS");
    reveal_strlit("Galil AR");
    reveal_strlit("SG 553");
    reveal_strlit("AUG");
    reveal_strlit("AWP");
    reveal_strlit("SSG 08");
    reveal_strlit("SCAR-20");
    reveal_strlit("Nova");
    reveal_strlit("XM1014");
    reveal_strlit("M249");
    reveal_strlit("Negev");
    reveal_strlit("HE Grenade");
    reveal_strlit("Flashbang");
    reveal_strlit("Smoke Grenade");
    reveal_strlit("Molotov");
    reveal_strlit("Incendiary Grenade");
    reveal_strlit("Knife");
    assert(default_weapon_at(0).name.len() != default_weapon_at(1).name.len());
    assert(default_weapon_at(0).name.len() != default_weapon_at(2).name.len());
    assert(default_weapon_at(0).name.len() != default_weapon_at(3).name.len());
    assert(default_weapon_at(0).name.len() != default_weapon_at(4).name.len());
    assert(default_weapon_at(0).name.len() != default_weapon_at(5).name.len());
    assert(default_weapon_at(0).name.len() != default_weapon_at(6).name.len());
    assert(default_weapon_at(0).name.len() != default_weapon_at(7).name.len());
    assert(default_weapon_at(0).name.len() != default_weapon_at(8).name.len());
    assert(default_weapon_at(0).name.len() != default_weapon_at(9).name.len());
    assert(default_weapon_at(0).name[1] != default_weapon_at(10).name[1]);
    assert(default_weapon_at(0).name.len() != default_weapon_at(11).name.len());
    assert(default_weapon_at(0).name.len() != default_weapon_at(12).name.len());
    assert(default_weapon_at(0).name.len() != default_weapon_at(13).name.len());
    assert(default_weapon_at(0).name.len() != default_weapon_at(14).name.len());
    assert(default_weapon_at(0).name.len() != default_weapon_at(15).name.len());
    assert(default_weapon_at(0).name.len() != default_weapon_at(16).name.len());
    assert(default_weapon_at(0).name.len() != default_weapon_at(17).name.len());
    assert(default_weapon_at(0).name.len() != default_weapon_at(18).name.len());
    assert(default_weapon_at(0).name.len() != default_weapon_at(19).name.len());
    assert(default_weapon_at(0).name.len() != default_weapon_at(20).name.len());
    assert(default_weapon_at(0).name.len() != default_weapon_at(21).name.len());
    assert(default_weapon_at(0).name.len() != default_weapon_at(22).name.len());
    assert(default_weapon_at(0).name.len() != default_weapon_at(23).name.len());
    assert(default_weapon_at(0).name.len() != default_weapon_at(24).name.len());
    assert(default_weapon_at(0).name.len() != default_weapon_at(25).name.len());
    assert(default_weapon_at(1).name.len() != default_weapon_at(2).name.len());
    assert(default_weapon_at(1).name.len() != default_weapon_at(3).name.len());
    assert(default_weapon_at(1).name.len() != default_weapon_at(4).name.len());
    assert(default_weapon_at(1).name.len() != default_weapon_at(5).name.len());
    assert(default_weapon_at(1).name[0] != default_weapon_at(6).name[0]);
    assert(default_weapon_at(1).name.len() != default_weapon_at(7).name.len());
    assert(default_weapon_at(1).name.len() != default_weapon_at(8).name.len());
    assert(default_weapon_at(1).name[0] != default_weapon_at(9).name[0]);
    assert(default_weapon_at(1).name.len() != default_weapon_at(10).name.len());
    assert(default_weapon_at(1).name.len() != default_weapon_at(11).name.len());
    assert(default_weapon_at(1).name.len() != default_weapon_at(12).name.len());
    assert(default_weapon_at(1).name.len() != default_weapon_at(13).name.len());
    assert(default_weapon_at(1).name.len() != default_weapon_at(14).name.len());
    assert(default_weapon_at(1).name.len() != default_weapon_at(15).name.len());
    assert(default_weapon_at(1).name.len() != default_weapon_at(16).name.len());
    assert(default_weapon_at(1).name.len() != default_weapon_at(17).name.len());
    assert(default_weapon_at(1).name.len() != default_weapon_at(18).name.len());
    assert(default_weapon_at(1).name[0] != default_weapon_at(19).name[0]);
    assert(default_weapon_at(1).name.len() != default_weapon_at(20).name.len());
    assert(default_weapon_at(1).name.len() != default_weapon_at(21).name.len());
    assert(default_weapon_at(1).name.len() != default_weapon_at(22).name.len());
    assert(default_weapon_at(1).name.len() != default_weapon_at(23).name.len());
    assert(default_weapon_at(1).name.len() != default_weapon_at(24).name.len());
    assert(default_weapon_at(1).name[0] != default_weapon_at(25).name[0]);
    assert(default_weapon_at(2).name.len() != default_weapon_at(3).name.len());
    assert(default_weapon_at(2).name.len() != default_weapon_at(4).name.len());
    assert(default_weapon_at(2).name.len() != default_weapon_at(5).name.len());
    assert(default_weapon_at(2).name.len() != default_weapon_at(6).name.len());
    assert(default_weapon_at(2).name.len() != default_weapon_at(7).name.len());
    assert(default_weapon_at(2).name.len() != default_weapon_at(8).name.len());
    assert(default_weapon_at(2).name.len() != default_weapon_at(9).name.len());
    assert(default_weapon_at(2).name.len() != default_weapon_at(10).name.len());
    assert(default_weapon_at(2).name.len() != default_weapon_at(11).name.len());
    assert(default_weapon_at(2).name.len() != default_weapon_at(12).name.len());
    assert(default_weapon_at(2).name.len() != default_weapon_at(13).name.len());
    assert(default_weapon_at(2).name.len() != default_weapon_at(14).name.len());
    assert(default_weapon_at(2).name.len() != default_weapon_at(15).name.len());
    assert(default_weapon_at(2).name.len() != default_weapon_at(16).name.len());
    assert(default_weapon_at(2).name.len() != default_weapon_at(17).name.len());
    assert(default_weapon_at(2).name.len() != default_weapon_at(18).name.len());
    assert(default_weapon_at(2).name.len() != default_weapon_at(19).name.len());
    assert(default_weapon_at(2).name.len() != default_weapon_at(20).name.len());
    assert(default_weapon_at(2).name.len() != default_weapon_at(21).name.len());
    assert(default_weapon_at(2).name.len() != default_weapon_at(22).name.len());
    assert(default_weapon_at(2).name.len() != default_weapon_at(23).name.len());
    assert(default_weapon_at(2).name.len() != default_weapon_at(24).name.len());
    assert(default_weapon_at(2).name.len() != default_weapon_at(25).name.len());
    assert(default_weapon_at(3).name.len() != default_weapon_at(4).name.len());
    assert(default_weapon_at(3).name.len() != default_weapon_at(5).name.len());
    assert(default_weapon_at(3).name.len() != default_weapon_at(6).name.len());
    assert(default_weapon_at(3).name.len() != default_weapon_at(7).name.len());
    assert(default_weapon_at(3).name[0] != default_weapon_at(8).name[0]);
    assert(default_weapon_at(3).name.len() != default_weapon_at(9).name.len());
    assert(default_weapon_at(3).name.len() != default_weapon_at(10).name.len());
    assert(default_weapon_at(3).name.len() != default_weapon_at(11).name.len());
    assert(default_weapon_at(3).name.len() != default_weapon_at(12).name.len());
    assert(default_weapon_at(3).name.len() != default_weapon_at(13).name.len());
    assert(default_weapon_at(3).name.len() != default_weapon_at(14).name.len());
    assert(default_weapon_at(3).name.len() != default_weapon_at(15).name.len());
    assert(default_weapon_at(3).name[0] != default_weapon_at(16).name[0]);
    assert(default_weapon_at(3).name.len() != default_weapon_at(17).name.len());
    assert(default_weapon_at(3).name[0] != default_weapon_at(18).name[0]);
    assert(default_weapon_at(3).name.len() != default_weapon_at(19).name.len());
    assert(default_weapon_at(3).name.len() != default_weapon_at(20).name.len());
    assert(default_weapon_at(3).name.len() != default_weapon_at(21).name.len());
    assert(default_weapon_at(3).name.len() != default_weapon_at(22).name.len());
    assert(default_weapon_at(3).name.len() != default_weapon_at(23).name.len());
    assert(default_weapon_at(3).name.len() != default_weapon_at(24).name.len());
    assert(default_weapon_at(3).name.len() != default_weapon_at(25).name.len());
    assert(default_weapon_at(4).name[0] != default_weapon_at(5).name[0]);
    assert(default_weapon_at(4).name.len() != default_weapon_at(6).name.len());
    assert(default_weapon_at(4).name[1] != default_weapon_at(7).name[1]);
    assert(default_weapon_at(4).name.len() != default_weapon_at(8).name.len());
    assert(default_weapon_at(4).name.len() != default_weapon_at(9).name.len());
    assert(default_weapon_at(4).name.len() != default_weapon_at(10).name.len());
    assert(default_weapon_at(4).name[0] != default_weapon_at(11).name[0]);
    assert(default_weapon_at(4).name.len() != default_weapon_at(12).name.len());
    assert(default_weapon_at(4).name.len() != default_weapon_at(13).name.len());
    assert(default_weapon_at(4).name[0] != default_weapon_at(14).name[0]);
    assert(default_weapon_at(4).name.len() != default_weapon_at(15).name.len());
    assert(default_weapon_at(4).name.len() != default_weapon_at(16).name.len());
    assert(default_weapon_at(4).name[0] != default_weapon_at(17).name[0]);
    assert(default_weapon_at(4).name.len() != default_weapon_at(18).name.len());
    assert(default_weapon_at(4).name.len() != default_weapon_at(19).name.len());
    assert(default_weapon_at(4).name.len() != default_weapon_at(20).name.len());
    assert(default_weapon_at(4).name.len() != default_weapon_at(21).name.len());
    assert(default_weapon_at(4).name.len() != default_weapon_at(22).name.len());
    assert(default_weapon_at(4).name.len() != default_weapon_at(23).name.len());
    assert(default_weapon_at(4).name.len() != default_weapon_at(24).name.len());
    assert(default_weapon_at(4).name.len() != default_weapon_at(25).name.len());
    assert(default_weapon_at(5).name.len() != default_weapon_at(6).name.len());
    assert(default_weapon_at(5).name[0] != default_weapon_at(7).name[0]);
    assert(default_weapon_at(5).name.len() != default_weapon_at(8).name.len());
    assert(default_weapon_at(5).name.len() != default_weapon_at(9).name.len());
    assert(default_weapon_at(5).name.len() != default_weapon_at(10).name.len());
    assert(default_weapon_at(5).name[0] != default_weapon_at(11).name[0]);
    assert(default_weapon_at(5).name.len() != default_weapon_at(12).name.len());
    assert(default_weapon_at(5).name.len() != default_weapon_at(13).name.len());
    assert(default_weapon_at(5).name[0] != default_weapon_at(14).name[0]);
    assert(default_weapon_at(5).name.len() != default_weapon_at(15).name.len());
    assert(default_weapon_at(5).name.len() != default_weapon_at(16).name.len());
    assert(default_weapon_at(5).name[0] != default_weapon_at(17).name[0]);
    assert(default_weapon_at(5).name.len() != default_weapon_at(18).name.len());
    assert(default_weapon_at(5).name.len() != default_weapon_at(19).name.len());
    assert(default_weapon_at(5).name.len() != default_weapon_at(20).name.len());
    assert(default_weapon_at(5).name.len() != default_weapon_at(21).name.len());
    assert(default_weapon_at(5).name.len() != default_weapon_at(22).name.len());
    assert(default_weapon_at(5).name.len() != default_weapon_at(23).name.len());
    assert(default_weapon_at(5).name.len() != default_weapon_at(24).name.len());
    assert(default_weapon_at(5).name.len() != default_weapon_at(25).name.len());
    assert(default_weapon_at(6).name.len() != default_weapon_at(7).name.len());
    assert(default_weapon_at(6).name.len() != default_weapon_at(8).name.len());
    assert(default_weapon_at(6).name[0] != default_weapon_at(9).name[0]);
    assert(default_weapon_at(6).name.len() != default_weapon_at(10).name.len());
    assert(default_weapon_at(6).name.len() != default_weapon_at(11).name.len());
    assert(default_weapon_at(6).name.len() != default_weapon_at(12).name.len());
    assert(default_weapon_at(6).name.len() != default_weapon_at(13).name.len());
    assert(default_weapon_at(6).name.len() != default_weapon_at(14).name.len());
    assert(default_weapon_at(6).name.len() != default_weapon_at(15).name.len());
    assert(default_weapon_at(6).name.len() != default_weapon_at(16).name.len());
    assert(default_weapon_at(6).name.len() != default_weapon_at(17).name.len());
    assert(default_weapon_at(6).name.len() != default_weapon_at(18).name.len());
    assert(default_weapon_at(6).name[0] != default_weapon_at(19).name[0]);
    assert(default_weapon_at(6).name.len() != default_weapon_at(20).name.len());
    assert(default_weapon_at(6).name.len() != default_weapon_at(21).name.len());
    assert(default_weapon_at(6).name.len() != default_weapon_at(22).name.len());
    assert(default_weapon_at(6).name.len() != default_weapon_at(23).name.len());
    assert(default_weapon_at(6).name.len() != default_weapon_at(24).name.len());
    assert(default_weapon_at(6).name[0] != default_weapon_at(25).name[0]);
    assert(default_weapon_at(7).name.len() != default_weapon_at(8).name.len());
    assert(default_weapon_at(7).name.len() != default_weapon_at(9).name.len());
    assert(default_weapon_at(7).name.len() != default_weapon_at(10).name.len());
    assert(default_weapon_at(7).name[0] != default_weapon_at(11).name[0]);
    assert(default_weapon_at(7).name.len() != default_weapon_at(12).name.len());
    assert(default_weapon_at(7).name.len() != default_weapon_at(13).name.len());
    assert(default_weapon_at(7).name[0] != default_weapon_at(14).name[0]);
    assert(default_weapon_at(7).name.len() != default_weapon_at(15).name.len());
    assert(default_weapon_at(7).name.len() != default_weapon_at(16).name.len());
    assert(default_weapon_at(7).name[0] != default_weapon_at(17).name[0]);
    assert(default_weapon_at(7).name.len() != default_weapon_at(18).name.len());
    assert(default_weapon_at(7).name.len() != default_weapon_at(19).name.len());
    assert(default_weapon_at(7).name.len() != default_weapon_at(20).name.len());
    assert(default_weapon_at(7).name.len() != default_weapon_at(21).name.len());
    assert(default_weapon_at(7).name.len() != default_weapon_at(22).name.len());
    assert(default_weapon_at(7).name.len() != default_weapon_at(23).name.len());
    assert(default_weapon_at(7).name.len() != default_weapon_at(24).name.len());
    assert(default_weapon_at(7).name.len() != default_weapon_at(25).name.len());
    assert(default_weapon_at(8).name.len() != default_weapon_at(9).name.len());
    assert(default_weapon_at(8).name.len() != default_weapon_at(10).name.len());
    assert(default_weapon_at(8).name.len() != default_weapon_at(11).name.len());
    assert(default_weapon_at(8).name.len() != default_weapon_at(12).name.len());
    assert(default_weapon_at(8).name.len() != default_weapon_at(13).name.len());
    assert(default_weapon_at(8).name.len() != default_weapon_at(14).name.len());
    assert(default_weapon_at(8).name.len() != default_weapon_at(15).name.len());
    assert(default_weapon_at(8).name[0] != default_weapon_at(16).name[0]);
    assert(default_weapon_at(8).name.len() != default_weapon_at(17).name.len());
    assert(default_weapon_at(8).name[1] != default_weapon_at(18).name[1]);
    assert(default_weapon_at(8).name.len() != default_weapon_at(19).name.len());
    assert(default_weapon_at(8).name.len() != default_weapon_at(20).name.len());
    assert(default_weapon_at(8).name.len() != default_weapon_at(21).name.len());
    assert(default_weapon_at(8).name.len() != default_weapon_at(22).name.len());
    assert(default_weapon_at(8).name.len() != default_weapon_at(23).name.len());
    assert(default_weapon_at(8).name.len() != default_weapon_at(24).name.len());
    assert(default_weapon_at(8).name.len() != default_weapon_at(25).name.len());
    assert(default_weapon_at(9).name.len() != default_weapon_at(10).name.len());
    assert(default_weapon_at(9).name.len() != default_weapon_at(11).name.len());
    assert(default_weapon_at(9).name.len() != default_weapon_at(12).name.len());
    assert(default_weapon_at(9).name.len() != default_weapon_at(13).name.len());
    assert(default_weapon_at(9).name.len() != default_weapon_at(14).name.len());
    assert(default_weapon_at(9).name.len() != default_weapon_at(15).name.len());
    assert(default_weapon_at(9).name.len() != default_weapon_at(16).name.len());
    assert(default_weapon_at(9).name.len() != default_weapon_at(17).name.len());
    assert(default_weapon_at(9).name.len() != default_weapon_at(18).name.len());
    assert(default_weapon_at(9).name[0] != default_weapon_at(19).name[0]);
    assert(default_weapon_at(9).name.len() != default_weapon_at(20).name.len());
    assert(default_weapon_at(9).name.len() != default_weapon_at(21).name.len());
    assert(default_weapon_at(9).name.len() != default_weapon_at(22).name.len());
    assert(default_weapon_at(9).name.len() != default_weapon_at(23).name.len());
    assert(default_weapon_at(9).name.len() != default_weapon_at(24).name.len());
    assert(default_weapon_at(9).name[0] != default_weapon_at(25).name[0]);
    assert(default_weapon_at(10).name.len() != default_weapon_at(11).name.len());
    assert(default_weapon_at(10).name.len() != default_weapon_at(12).name.len());
    assert(default_weapon_at(10).name.len() != default_weapon_at(13).name.len());
    assert(default_weapon_at(10).name.len() != default_weapon_at(14).name.len());
    assert(default_weapon_at(10).name.len() != default_weapon_at(15).name.len());
    assert(default_weapon_at(10).name.len() != default_weapon_at(16).name.len());
    assert(default_weapon_at(10).name.len() != default_weapon_at(17).name.len());
    assert(default_weapon_at(10).name.len() != default_weapon_at(18).name.len());
    assert(default_weapon_at(10).name.len() != default_weapon_at(19).name.len());
    assert(default_weapon_at(10).name.len() != default_weapon_at(20).name.len());
    assert(default_weapon_at(10).name.len() != default_weapon_at(21).name.len());
    assert(default_weapon_at(10).name.len() != default_weapon_at(22).name.len());
    assert(default_weapon_at(10).name.len() != default_weapon_at(23).name.len());
    assert(default_weapon_at(10).name.len() != default_weapon_at(24).name.len());
    assert(default_weapon_at(10).name.len() != default_weapon_at(25).name.len());
    assert(default_weapon_at(11).name.len() != default_weapon_at(12).name.len());
    assert(default_weapon_at(11).name.len() != default_weapon_at(13).name.len());
    assert(default_weapon_at(11).name[1] != default_weapon_at(14).name[1]);
    assert(default_weapon_at(11).name.len() != default_weapon_at(15).name.len());
    assert(default_weapon_at(11).name.len() != default_weapon_at(16).name.len());
    assert(default_weapon_at(11).name[0] != default_weapon_at(17).name[0]);
    assert(default_weapon_at(11).name.len() != default_weapon_at(18).name.len());
    assert(default_weapon_at(11).name.len() != default_weapon_at(19).name.len());
    assert(default_weapon_at(11).name.len() != default_weapon_at(20).name.len());
    assert(default_weapon_at(11).name.len() != default_weapon_at(21).name.len());
    assert(default_weapon_at(11).name.len() != default_weapon_at(22).name.len());
    assert(default_weapon_at(11).name.len() != default_weapon_at(23).name.len());
    assert(default_weapon_at(11).name.len() != default_weapon_at(24).name.len());
    assert(default_weapon_at(11).name.len() != default_weapon_at(25).name.len());
    assert(default_weapon_at(12).name[1] != default_weapon_at(13).name[1]);
    assert(default_weapon_at(12).name.len() != default_weapon_at(14).name.len());
    assert(default_weapon_at(12).name.len() != default_weapon_at(15).name.len());
    assert(default_weapon_at(12).name.len() != default_weapon_at(16).name.len());
    assert(default_weapon_at(12).name.len() != default_weapon_at(17).name.len());
    assert(default_weapon_at(12).name.len() != default_weapon_at(18).name.len());
    assert(default_weapon_at(12).name.len() != default_weapon_at(19).name.len());
    assert(default_weapon_at(12).name.len() != default_weapon_at(20).name.len());
    assert(default_weapon_at(12).name.len() != default_weapon_at(21).name.len());
    assert(default_weapon_at(12).name.len() != default_weapon_at(22).name.len());
    assert(default_weapon_at(12).name.len() != default_weapon_at(23).name.len());
    assert(default_weapon_at(12).name.len() != default_weapon_at(24).name.len());
    assert(default_weapon_at(12).name.len() != default_weapon_at(25).name.len());
    assert(default_weapon_at(13).name.len() != default_weapon_at(14).name.len());
    assert(default_weapon_at(13).name.len() != default_weapon_at(15).name.len());
    assert(default_weapon_at(13).name.len() != default_weapon_at(16).name.len());
    assert(default_weapon_at(13).name.len() != default_weapon_at(17).name.len());
    assert(default_weapon_at(13).name.len() != default_weapon_at(18).name.len());
    assert(default_weapon_at(13).name.len() != default_weapon_at(19).name.len());
    assert(default_weapon_at(13).name.len() != default_weapon_at(20).name.len());
    assert(default_weapon_at(13).name.len() != default_weapon_at(21).name.len());
    assert(default_weapon_at(13).name.len() != default_weapon_at(22).name.len());
    assert(default_weapon_at(13).name.len() != default_weapon_at(23).name.len());
    assert(default_weapon_at(13).name.len() != default_weapon_at(24).name.len());
    assert(default_weapon_at(13).name.len() != default_weapon_at(25).name.len());
    assert(default_weapon_at(14).name.len() != default_weapon_at(15).name.len());
    assert(default_weapon_at(14).name.len() != default_weapon_at(16).name.len());
    assert(default_weapon_at(14).name[0] != default_weapon_at(17).name[0]);
    assert(default_weapon_at(14).name.len() != default_weapon_at(18).name.len());
    assert(default_weapon_at(14).name.len() != default_weapon_at(19).name.len());
    assert(default_weapon_at(14).name.len() != default_weapon_at(20).name.len());
    assert(default_weapon_at(14).name.len() != default_weapon_at(21).name.len());
    assert(default_weapon_at(14).name.len() != default_weapon_at(22).name.len());
    assert(default_weapon_at(14).name.len() != default_weapon_at(23).name.len());
    assert(default_weapon_at(14).name.len() != default_weapon_at(24).name.len());
    assert(default_weapon_at(14).name.len() != default_weapon_at(25).name.len());
    assert(default_weapon_at(15).name.len() != default_weapon_at(16).name.len());
    assert(default_weapon_at(15).name.len() != default_weapon_at(17).name.len());
    assert(default_weapon_at(15).name.len() != default_weapon_at(18).name.len());
    assert(default_weapon_at(15).name.len() != default_weapon_at(19).name.len());
    assert(default_weapon_at(15).name.len() != default_weapon_at(20).name.len());
    assert(default_weapon_at(15).name.len() != default_weapon_at(21).name.len());
    assert(default_weapon_at(15).name.len() != default_weapon_at(22).name.len());
    assert(default_weapon_at(15).name[0] != default_weapon_at(23).name[0]);
    assert(default_weapon_at(15).name.len() != default_weapon_at(24).name.len());
    assert(default_weapon_at(15).name.len() != default_weapon_at(25).name.len());
    assert(default_weapon_at(16).name.len() != default_weapon_at(17).name.len());
    assert(default_weapon_at(16).name[0] != default_weapon_at(18).name[0]);
    assert(default_weapon_at(16).name.len() != default_weapon_at(19).name.len());
    assert(default_weapon_at(16).name.len() != default_weapon_at(20).name.len());
    assert(default_weapon_at(16).name.len() != default_weapon_at(21).name.len());
    assert(default_weapon_at(16).name.len() != default_weapon_at(22).name.len());
    assert(default_weapon_at(16).name.len() != default_weapon_at(23).name.len());
    assert(default_weapon_at(16).name.len() != default_weapon_at(24).name.len());
    assert(default_weapon_at(16).name.len() != default_weapon_at(25).name.len());
    assert(default_weapon_at(17).name.len() != default_weapon_at(18).name.len());
    assert(default_weapon_at(17).name.len() != default_weapon_at(19).name.len());
    assert(default_weapon_at(17).name.len() != default_weapon_at(20).name.len());
    assert(default_weapon_at(17).name.len() != default_weapon_at(21).name.len());
    assert(default_weapon_at(17).name.len() != default_weapon_at(22).name.len());
    assert(default_weapon_at(17).name.len() != default_weapon_at(23).name.len());
    assert(default_weapon_at(17).name.len() != default_weapon_at(24).name.len());
    assert(default_weapon_at(17).name.len() != default_weapon_at(25).name.len());
    assert(default_weapon_at(18).name.len() != default_weapon_at(19).name.len());
    assert(default_weapon_at(18).name.len() != default_weapon_at(20).name.len());
    assert(default_weapon_at(18).name.len() != default_weapon_at(21).name.len());
    assert(default_weapon_at(18).name.len() != default_weapon_at(22).name.len());
    assert(default_weapon_at(18).name.len() != default_weapon_at(23).name.len());
    assert(default_weapon_at(18).name.len() != default_weapon_at(24).name.len());
    assert(default_weapon_at(18).name.len() != default_weapon_at(25).name.len());
    assert(default_weapon_at(19).name.len() != default_weapon_at(20).name.len());
    assert(default_weapon_at(19).name.len() != default_weapon_at(21).name.len());
    assert(default_weapon_at(19).name.len() != default_weapon_at(22).name.len());
    assert(default_weapon_at(19).name.len() != default_weapon_at(23).name.len());
    assert(default_weapon_at(19).name.len() != default_weapon_at(24).name.len());
    assert(default_weapon_at(19).name[0] != default_weapon_at(25).name[0]);
    assert(default_weapon_at(20).name.len() != default_weapon_at(21).name.len());
    assert(default_weapon_at(20).name.len() != default_weapon_at(22).name.len());
    assert(default_weapon_at(20).name.len() != default_weapon_at(23).name.len());
    assert(default_weapon_at(20).name.len() != default_weapon_at(24).name.len());
    assert(default_weapon_at(20).name.len() != default_weapon_at(25).name.len());
    assert(default_weapon_at(21).name.len() != default_weapon_at(22).name.len());
    assert(default_weapon_at(21).name.len() != default_weapon_at(23).name.len());
    assert(default_weapon_at(21).name.len() != default_weapon_at(24).name.len());
    assert(default_weapon_at(21).name.len() != default_weapon_at(25).name.len());
    assert(default_weapon_at(22).name.len() != default_weapon_at(23).name.len());
    assert(default_weapon_at(22).name.len() != default_weapon_at(24).name.len());
    assert(default_weapon_at(22).name.len() != default_weapon_at(25).name.len());
    assert(default_weapon_at(23).name.len() != default_weapon_at(24).name.len());
    assert(default_weapon_at(23).name.len() != default_weapon_at(25).name.len());
    assert(default_weapon_at(24).name.len() != default_weapon_at(25).name.len());
    assert forall|i: int, j: int|
        0 <= i < j < default_weapons().len() implies #[trigger] default_weapons()[i].name
            != #[trigger] default_weapons()[j].name by {
        assert(default_weapons()[i] == default_weapon_at(i));
        assert(default_weapons()[j] == default_weapon_at(j));
    }
}

/// Entry `a` of `s` comes before entry `b` on a price-ordered shelf: the
/// cheaper first, and entries of the same price in catalog order.
pub open spec fn cheaper_first(s: Seq<WeaponStatsView>, a: int, b: int) -> bool {
    s[a].price < s[b].price || (s[a].price == s[b].price && a < b)
}

/// `o` lists the indices of all entries of `s` of `kind`, each once, from
/// the cheapest up, entries of the same price in catalog order.
pub open spec fn is_shelf(s: Seq<WeaponStatsView>, kind: WeaponKind, o: Seq<usize>) -> bool {
    &&& forall|k: int| 0 <= k < o.len() ==> #[trigger] o[k] < s.len() && s[o[k] as int].kind == kind
    &&& forall|i: int| 0 <= i < s.len() && #[trigger] s[i].kind == kind ==> o.contains(i as usize)
    &&& forall|a: int, b: int|
        0 <= a < b < o.len() ==> cheaper_first(s, #[trigger] o[a] as int, #[trigger] o[b] as int)
}

/// There is at most one shelf of a kind: any two are the same list.
pub proof fn lemma_shelf_unique(s: Seq<WeaponStatsView>, kind: WeaponKind, o1: Seq<usize>, o2: Seq<usize>)
    requires
        is_shelf(s, kind, o1),
        is_shelf(s, kind, o2),
    ensures
        o1 == o2,
    decreases o1.len(),
{
    assert forall|x: usize| o1.contains(x) <==> o2.contains(x) by {
        if o1.contains(x) {
            let k = choose|k: int| 0 <= k < o1.len() && o1[k] == x;
            assert(s[x as int].kind == kind);
        }
        if o2.contains(x) {
            let k = choose|k: int| 0 <= k < o2.len() && o2[k] == x;
            assert(s[x as int].kind == kind);
        }
    }
    lemma_price_sorted_unique(s, o1, o2);
}

proof fn lemma_price_sorted_unique(s: Seq<WeaponStatsView>, o1: Seq<usize>, o2: Seq<usize>)
    requires
        forall|a: int, b: int|
            0 <= a < b < o1.len() ==> cheaper_first(s, #[trigger] o1[a] as int, #[trigger] o1[b] as int),
        forall|a: int, b: int|
            0 <= a < b < o2.len() ==> cheaper_first(s, #[trigger] o2[a] as int, #[trigger] o2[b] as int),
        forall|x: usize| o1.contains(x) <==> o2.contains(x),
    ensures
        o1 == o2,
    decreases o1.len(),
{
    if o1.len() == 0 {
        if o2.len() > 0 {
            assert(o2.contains(o2[0]));
        }
        assert(o1 =~= o2);
    } else {
        assert(o1.contains(o1[0]));
        assert(o2.contains(o1[0]));
        assert(o2.contains(o2[0]));
        let x = o1[0];
        let y = o2[0];
        if x != y {
            let j = choose|j: int| 0 <= j < o2.len() && o2[j] == x;
            let i = choose|i: int| 0 <= i < o1.len() && o1[i] == y;
            assert(cheaper_first(s, y as int, x as int));
            assert(cheaper_first(s, x as int, y as int));
        }
        let t1 = o1.drop_first();
        let t2 = o2.drop_first();
        assert forall|a: int, b: int| 0 <= a < b < t1.len() implies cheaper_first(
            s,
            #[trigger] t1[a] as int,
            #[trigger] t1[b] as int,
        ) by {
            assert(t1[a] == o1[a + 1] && t1[b] == o1[b + 1]);
        }
        assert forall|a: int, b: int| 0 <= a < b < t2.len() implies cheaper_first(
            s,
            #[trigger] t2[a] as int,
            #[trigger] t2[b] as int,
        ) by {
            assert(t2[a] == o2[a + 1] && t2[b] == o2[b + 1]);
        }
        assert forall|z: usize| t1.contains(z) <==> t2.contains(z) by {
            if t1.contains(z) {
                let k = choose|k: int| 0 <= k < t1.len() && t1[k] == z;
                assert(o1[k + 1] == z);
                assert(o1.contains(z));
                let k2 = choose|k2: int| 0 <= k2 < o2.len() && o2[k2] == z;
                if k2 == 0 {
                    assert(cheaper_first(s, o1[0] as int, o1[k + 1] as int));
                }
                assert(t2[k2 - 1] == z);
            }
            if t2.contains(z) {
                let k = choose|k: int| 0 <= k < t2.len() && t2[k] == z;
                assert(o2[k + 1] == z);
                assert(o2.contains(z));
                let k1 = choose|k1: int| 0 <= k1 < o1.len() && o1[k1] == z;
                if k1 == 0 {
                    assert(cheaper_first(s, o2[0] as int, o2[k + 1] as int));
                }
                assert(t1[k1 - 1] == z);
            }
        }
        lemma_price_sorted_unique(s, t1, t2);
        assert(o1 =~= o2) by {
            assert forall|k: int| 0 <= k < o1.len() implies o1[k] == o2[k] by {
                if k > 0 {
                    assert(o1[k] == t1[k - 1] && o2[k] == t2[k - 1]);
                }
            }
        }
    }
}

fn make_stats(
    name: &str,
    kind: WeaponKind,
    slot: WeaponSlot,
    price: u32,
    base_damage: u32,
    armor_penetration: u32,
    fire_rate_rpm: u32,
    magazine_size: u32,
    reserve_ammo: u32,
    reload_time_ms: u32,
    shot_interval_ms: u32,
    recoil: u32,
    base_inaccuracy: u32,
    move_inaccuracy: u32,
    is_automatic: bool,
    kill_reward: u32,
) -> (w: WeaponStats)
    ensures
        w@ == stats_view(
            name@,
            kind,
            slot,
            price,
            base_damage,
            armor_penetration,
            fire_rate_rpm,
            magazine_size,
            reserve_ammo,
            reload_time_ms,
            shot_interval_ms,
            recoil,
            base_inaccuracy,
            move_inaccuracy,
            is_automatic,
            kill_reward,
        ),
{
    WeaponStats {
        name: name.to_owned(),
        kind,
        slot,
        price,
        base_damage,
        armor_penetration,
        fire_rate_rpm,
        magazine_size,
        reserve_ammo,
        reload_time_ms,
        shot_interval_ms,
        recoil,
        base_inaccuracy,
        move_inaccuracy,
        is_automatic,
        kill_reward,
    }
}

/// Registry of all available weapons with their base stats.
#[derive(Debug, Clone)]
pub struct WeaponCatalog {
    weapons: Vec<WeaponStats>,
}

impl View for WeaponCatalog {
    type V = Seq<WeaponStatsView>;

    closed spec fn view(&self) -> Seq<WeaponStatsView> {
        self.weapons@.map_values(|w: WeaponStats| w@)
    }
}

/// The first index in `s` of an entry named `name`, if any.
pub open spec fn first_named(s: Seq<WeaponStatsView>, name: Seq<char>) -> Option<int>
    decreases s.len(),
{
    if s.len() == 0 {
        None
    } else if s[0].name == name {
        Some(0)
    } else {
        match first_named(s.drop_first(), name) {
            Some(i) => Some(i + 1),
            None => None,
        }
    }
}

/// Where `first_named` finds an entry, that entry carries the name and no
/// earlier one does; where it finds none, no entry carries the name.
pub proof fn lemma_first_named(s: Seq<WeaponStatsView>, name: Seq<char>)
    ensures
        first_named(s, name) matches Some(i) ==> 0 <= i < s.len() && s[i].name == name
            && forall|j: int| 0 <= j < i ==> s[j].name != name,
        first_named(s, name) is None ==> forall|j: int| 0 <= j < s.len() ==> s[j].name != name,
    decreases s.len(),
{
    if s.len() > 0 && s[0].name != name {
        lemma_first_named(s.drop_first(), name);
        if first_named(s, name) is None {
            assert forall|j: int| 0 <= j < s.len() implies s[j].name != name by {
                if j > 0 {
                    assert(s[j] == s.drop_first()[j - 1]);
                }
            }
        } else {
            let i = first_named(s, name)->0;
            assert forall|j: int| 0 <= j < i implies s[j].name != name by {
                if j > 0 {
                    assert(s[j] == s.drop_first()[j - 1]);
                }
            }
        }
    }
}

/// The default table holds the knife as its last entry, and no other entry
/// is named "Knife".
pub proof fn lemma_default_knife()
    ensures
        first_named(default_weapons(), "Knife"@) == Some(25int),
{
    reveal_strlit("Knife");
    let s = default_weapons();
    lemma_default_weapon_names_distinct();
    assert(s[25].name == "Knife"@);
    assert forall|j: int| 0 <= j < 25 implies s[j].name != "Knife"@ by {
        assert(s[j].name != s[25].name);
    }
    lemma_first_named_at(s, "Knife"@, 25);
}

/// An entry carrying the name, with no earlier entry carrying it, is the one
/// `first_named` finds.
pub proof fn lemma_first_named_at(s: Seq<WeaponStatsView>, name: Seq<char>, k: int)
    requires
        0 <= k < s.len(),
        s[k].name == name,
        forall|j: int| 0 <= j < k ==> s[j].name != name,
    ensures
        first_named(s, name) == Some(k),
    decreases k,
{
    if k > 0 {
        assert forall|j: int| 0 <= j < k - 1 implies s.drop_first()[j].name != name by {
            assert(s.drop_first()[j] == s[j + 1]);
        }
        lemma_first_named_at(s.drop_first(), name, k - 1);
    }
}

impl WeaponCatalog {
    /// The catalog holding the default weapon table.
    pub fn new() -> (c: Self)
        ensures
            c@ == default_weapons(),
            forall|i: int| 0 <= i < c@.len() ==> entry_consistent(#[trigger] c@[i]),
            forall|i: int, j: int|
                0 <= i < j < c@.len() ==> #[trigger] c@[i].name != #[trigger] c@[j].name,
    {
        let mut catalog = WeaponCatalog { weapons: Vec::new() };
        catalog.register_defaults();
        catalog
    }

    /// The weapon named `name`: the first catalog entry with that name, or
    /// None when no entry has it.
    pub fn get(&self, name: &str) -> (r: Option<&WeaponStats>)
        ensures
            match first_named(self@, name@) {
                Some(i) => r matches Some(w) && w@ == self@[i],
                None => r is None,
            },
    {
        proof {
            lemma_first_named(self@, name@);
        }
        let mut i: usize = 0;
        while i < self.weapons.len()
            invariant
                0 <= i <= self.weapons@.len(),
                self@.len() == self.weapons@.len(),
                forall|j: int| 0 <= j < i ==> self@[j].name != name@,
                first_named(self@, name@) matches Some(k) ==> 0 <= k < self@.len()
                    && self@[k].name == name@ && forall|j: int| 0 <= j < k ==> self@[j].name != name@,
                first_named(self@, name@) is None ==> forall|j: int|
                    0 <= j < self@.len() ==> self@[j].name != name@,
            decreases self.weapons@.len() - i,
        {
            if str_eq(self.weapons[i].name.as_str(), name) {
                assert(self@[i as int] == self.weapons@[i as int]@);
                return Some(&self.weapons[i]);
            }
            assert(self@[i as int] == self.weapons@[i as int]@);
            i = i + 1;
        }
        None
    }

    /// All catalog entries, in registration order.
    pub fn all(&self) -> (r: &[WeaponStats])
        ensures
            r@.map_values(|w: WeaponStats| w@) == self@,
    {
        self.weapons.as_slice()
    }

    /// The entries of `kind`, cheapest first (entries of the same price in
    /// catalog order): the shelf of a buy menu.
    pub fn by_price_of_kind(&self, kind: WeaponKind) -> (r: Vec<WeaponStats>)
        ensures
            exists|o: Seq<usize>|
                is_shelf(self@, kind, o) && r@.len() == o.len() && forall|k: int|
                    0 <= k < o.len() ==> (#[trigger] r@[k])@ == self@[o[k] as int],
    {
        let ghost s = self@;
        let n = self.weapons.len();
        let mut o: Vec<usize> = Vec::new();
        let mut i: usize = 0;
        while i < n
            invariant
                n == self.weapons@.len(),
                s == self@,
                s.len() == n,
                i <= n,
                forall|k: int| 0 <= k < o@.len() ==> #[trigger] o@[k] < i && s[o@[k] as int].kind == kind,
                forall|j: int| 0 <= j < i && #[trigger] s[j].kind == kind ==> o@.contains(j as usize),
                forall|a: int, b: int|
                    0 <= a < b < o@.len() ==> cheaper_first(s, #[trigger] o@[a] as int, #[trigger] o@[b] as int),
            decreases n - i,
        {
            assert(self@[i as int] == self.weapons@[i as int]@);
            if self.weapons[i].kind == kind {
                let price = self.weapons[i].price;
                // The first place whose entry costs more.
                let mut p: usize = 0;
                while p < o.len() && self.weapons[o[p]].price <= price
                    invariant
                        n == self.weapons@.len(),
                        s == self@,
                        i < n,
                        price == s[i as int].price,
                        p <= o@.len(),
                        forall|k: int| 0 <= k < o@.len() ==> #[trigger] o@[k] < i,
                        forall|k: int| 0 <= k < p ==> s[#[trigger] o@[k] as int].price <= price,
                    decreases o@.len() - p,
                {
                    assert(self@[o@[p as int] as int] == self.weapons@[o@[p as int] as int]@);
                    p = p + 1;
                }
                if p < o.len() {
                    assert(self@[o@[p as int] as int] == self.weapons@[o@[p as int] as int]@);
                }
                let ghost before = o@;
                o.insert(p, i);
                proof {
                    assert forall|k: int| 0 <= k < o@.len() implies #[trigger] o@[k] < i + 1 && s[o@[k]
                        as int].kind == kind by {
                        if k < p {
                            assert(o@[k] == before[k]);
                        } else if k > p {
                            assert(o@[k] == before[k - 1]);
                        }
                    }
                    assert forall|j: int| 0 <= j < i + 1 && #[trigger] s[j].kind == kind implies o@.contains(
                        j as usize,
                    ) by {
                        if j < i {
                            let k = choose|k: int| 0 <= k < before.len() && before[k] == j as usize;
                            if k < p {
                                assert(o@[k] == before[k]);
                            } else {
                                assert(o@[k + 1] == before[k]);
                            }
                        } else {
                            assert(o@[p as int] == i);
                        }
                    }
                    assert forall|a: int, b: int| 0 <= a < b < o@.len() implies cheaper_first(
                        s,
                        #[trigger] o@[a] as int,
                        #[trigger] o@[b] as int,
                    ) by {
                        if b < p {
                            assert(o@[a] == before[a] && o@[b] == before[b]);
                        } else if b == p {
                            assert(o@[a] == before[a]);
                        } else if a < p {
                            assert(o@[a] == before[a] && o@[b] == before[b - 1]);
                        } else if a == p {
                            assert(o@[b] == before[b - 1]);
                            assert(s[before[p as int] as int].price > price);
                            if b - 1 > p {
                                assert(cheaper_first(s, before[p as int] as int, before[b - 1] as int));
                            }
                        } else {
                            assert(o@[a] == before[a - 1] && o@[b] == before[b - 1]);
                        }
                    }
                }
            }
            i = i + 1;
        }
        let mut r: Vec<WeaponStats> = Vec::new();
        let mut k: usize = 0;
        while k < o.len()
            invariant
                n == self.weapons@.len(),
                s == self@,
                k <= o@.len(),
                forall|t: int| 0 <= t < o@.len() ==> #[trigger] o@[t] < n,
                r@.len() == k,
                forall|t: int| 0 <= t < k ==> (#[trigger] r@[t])@ == s[o@[t] as int],
            decreases o@.len() - k,
        {
            assert(self@[o@[k as int] as int] == self.weapons@[o@[k as int] as int]@);
            r.push(self.weapons[o[k]].clone());
            k = k + 1;
        }
        assert(is_shelf(s, kind, o@));
        r
    }

    #[verifier::rlimit(50)]
    fn register_defaults(&mut self)
        requires
            old(self)@.len() == 0,
        ensures
            final(self)@ == default_weapons(),
            forall|i: int| 0 <= i < final(self)@.len() ==> entry_consistent(#[trigger] final(self)@[i]),
            forall|i: int, j: int|
                0 <= i < j < final(self)@.len() ==> #[trigger] final(self)@[i].name
                    != #[trigger] final(self)@[j].name,
    {
        let mut weapons: Vec<WeaponStats> = Vec::new();
        register_default_weapons(&mut weapons);
        self.weapons = weapons;
        assert(self@ =~= default_weapons());
        proof {
            lemma_default_weapons_consistent();
            lemma_default_weapon_names_distinct();
        }
    }
}

#[verifier::rlimit(100)]
fn register_default_weapons(weapons: &mut Vec<WeaponStats>)
    requires
        old(weapons)@.len() == 0,
    ensures
        final(weapons)@.map_values(|w: WeaponStats| w@) == default_weapons(),
{
    push_entry(weapons, make_stats("Glock-18", WeaponKind::Pistol, WeaponSlot::Secondary, 200, 2800, 470, 400, 20, 120, 2200, WeaponStats::from_rpm(400), 50, 60, 100, true, 300));
    push_entry(weapons, make_stats("USP-S", WeaponKind::Pistol, WeaponSlot::Secondary, 200, 3500, 500, 352, 12, 24, 2200, WeaponStats::from_rpm(352), 40, 50, 90, false, 300));
    push_entry(weapons, make_stats("Desert Eagle", WeaponKind::Pistol, WeaponSlot::Secondary, 700, 6300, 930, 267, 7, 35, 2200, WeaponStats::from_rpm(267), 150, 90, 200, false, 300));
    push_entry(weapons, make_stats("P250", WeaponKind::Pistol, WeaponSlot::Secondary, 300, 3800, 940, 400, 13, 26, 2200, WeaponStats::from_rpm(400), 60, 60, 120, false, 300));
    push_entry(weapons, make_stats("MP5-SD", WeaponKind::SMG, WeaponSlot::Primary, 1500, 2700, 600, 857, 30, 120, 2100, WeaponStats::from_rpm(857), 70, 50, 70, true, 600));
    push_entry(weapons, make_stats("UMP-45", WeaponKind::SMG, WeaponSlot::Primary, 1200, 3500, 650, 667, 25, 100, 3500, WeaponStats::from_rpm(667), 80, 60, 80, true, 600));
    push_entry(weapons, make_stats("AK-47", WeaponKind::Rifle, WeaponSlot::Primary, 2700, 3600, 775, 600, 30, 90, 2400, WeaponStats::from_rpm(600), 120, 40, 150, true, 300));
    push_entry(weapons, make_stats("M4A1-S", WeaponKind::Rifle, WeaponSlot::Primary, 2900, 3800, 700, 600, 20, 40, 3100, WeaponStats::from_rpm(600), 90, 30, 120, true, 300));
    push_entry(weapons, make_stats("M4A4", WeaponKind::Rifle, WeaponSlot::Primary, 3100, 3300, 700, 666, 30, 90, 3100, WeaponStats::from_rpm(666), 100, 30, 120, true, 300));
    push_entry(weapons, make_stats("FAMAS", WeaponKind::Rifle, WeaponSlot::Primary, 2050, 3000, 700, 666, 25, 75, 3300, WeaponStats::from_rpm(666), 90, 40, 130, true, 300));
    push_entry(weapons, make_stats("Galil AR", WeaponKind::Rifle, WeaponSlot::Primary, 2000, 3000, 775, 666, 35, 90, 3300, WeaponStats::from_rpm(666), 100, 40, 140, true, 300));
    push_entry(weapons, make_stats("SG 553", WeaponKind::Rifle, WeaponSlot::Primary, 3000, 3000, 900, 666, 30, 90, 2800, WeaponStats::from_rpm(666), 100, 40, 120, true, 300));
    push_entry(weapons, make_stats("AUG", WeaponKind::Rifle, WeaponSlot::Primary, 3300, 2800, 900, 666, 30, 90, 3800, WeaponStats::from_rpm(666), 80, 30, 110, true, 300));
    push_entry(weapons, make_stats("AWP", WeaponKind::Sniper, WeaponSlot::Primary, 4750, 11500, 975, 41, 10, 30, 3700, WeaponStats::from_rpm(41), 300, 0, 500, false, 100));
    push_entry(weapons, make_stats("SSG 08", WeaponKind::Sniper, WeaponSlot::Primary, 1700, 8800, 975, 48, 10, 90, 3700, WeaponStats::from_rpm(48), 250, 0, 500, false, 300));
    push_entry(weapons, make_stats("SCAR-20", WeaponKind::Sniper, WeaponSlot::Primary, 5000, 8000, 975, 240, 20, 90, 3700, WeaponStats::from_rpm(240), 200, 10, 500, true, 300));
    push_entry(weapons, make_stats("Nova", WeaponKind::Shotgun, WeaponSlot::Primary, 1050, 2600, 500, 68, 8, 32, 500, WeaponStats::from_rpm(68), 200, 100, 200, false, 900));
    push_entry(weapons, make_stats("XM1014", WeaponKind::Shotgun, WeaponSlot::Primary, 2000, 2000, 500, 171, 7, 32, 500, WeaponStats::from_rpm(171), 180, 100, 180, true, 900));
    push_entry(weapons, make_stats("M249", WeaponKind::MachineGun, WeaponSlot::Primary, 5200, 3200, 800, 857, 100, 200, 4700, WeaponStats::from_rpm(857), 150, 50, 200, true, 300));
    push_entry(weapons, make_stats("Negev", WeaponKind::MachineGun, WeaponSlot::Primary, 1700, 3500, 800, 1000, 150, 300, 5700, WeaponStats::from_rpm(1000), 200, 70, 250, true, 300));
    push_entry(weapons, make_stats("HE Grenade", WeaponKind::Throwable, WeaponSlot::Throwable, 300, 9800, 500, 60, 1, 0, 0, 1000, 0, 0, 0, false, 300));
    push_entry(weapons, make_stats("Flashbang", WeaponKind::Throwable, WeaponSlot::Throwable, 200, 0, 0, 60, 2, 0, 0, 1000, 0, 0, 0, false, 0));
    push_entry(weapons, make_stats("Smoke Grenade", WeaponKind::Throwable, WeaponSlot::Throwable, 300, 0, 0, 60, 1, 0, 0, 1000, 0, 0, 0, false, 0));
    push_entry(weapons, make_stats("Molotov", WeaponKind::Throwable, WeaponSlot::Throwable, 400, 4000, 0, 60, 1, 0, 0, 1000, 0, 0, 0, false, 0));
    push_entry(weapons, make_stats("Incendiary Grenade", WeaponKind::Throwable, WeaponSlot::Throwable, 600, 4000, 0, 60, 1, 0, 0, 1000, 0, 0, 0, false, 0));
    push_entry(weapons, make_stats("Knife", WeaponKind::Knife, WeaponSlot::Melee, 0, 6500, 1000, 120, 1, 0, 0, WeaponStats::from_rpm(120), 0, 0, 0, false, 1500));
    assert forall|i: int| 0 <= i < 26 implies weapons@.map_values(|w: WeaponStats| w@)[i]
        == default_weapons()[i] by {
        assert(weapons@[i]@ == default_weapon_at(i));
    }
    assert(weapons@.map_values(|w: WeaponStats| w@) =~= default_weapons());
}

fn push_entry(weapons: &mut Vec<WeaponStats>, w: WeaponStats)
    requires
        forall|i: int| 0 <= i < old(weapons)@.len() ==> old(weapons)@[i]@ == default_weapon_at(i),
        w@ == default_weapon_at(old(weapons)@.len() as int),
        old(weapons)@.len() < 26,
    ensures
        final(weapons)@.len() == old(weapons)@.len() + 1,
        forall|i: int| 0 <= i < final(weapons)@.len() ==> final(weapons)@[i]@ == default_weapon_at(i),
{
    weapons.push(w);
}

impl Default for WeaponCatalog {
    fn default() -> (c: Self)
        ensures
            c@ == default_weapons(),
    {
        Self::new()
    }
}

} // verus!
