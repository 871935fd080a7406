use game_cs::game::bots::{
    decide_bot_moves, decide_player_shot, draw_bot_turn, draw_player_shot, BotDraws, BotMove, PlayerHit,
    ShotDraws,
};
use game_cs::game::types::Team;
use game_cs::map::bomb::BombPhase;

fn draws(shoot: u32, hit: u32, headshot: u32, share: u32, plant: u32, defuse: u32) -> BotDraws {
    BotDraws { shoot, victim: 1, hit, headshot, damage_share: share, plant, defuse }
}

#[test]
fn a_bot_that_shoots_and_hits_deals_a_share_of_its_damage() {
    let moves = decide_bot_moves(Team::CT, false, 3600, 3, BombPhase::NotPlanted, 100000, draws(100, 100, 500, 500, 0, 0));
    assert_eq!(moves, vec![BotMove::Shoot { victim: 1, damage: 1800, is_headshot: false }]);
    // A headshot deals 1.2 times the damage.
    let moves = decide_bot_moves(Team::CT, false, 3600, 3, BombPhase::NotPlanted, 100000, draws(100, 100, 50, 500, 0, 0));
    assert_eq!(moves, vec![BotMove::Shoot { victim: 1, damage: 4320, is_headshot: true }]);
    // No shot taken, a miss, or no enemy: nothing.
    assert!(decide_bot_moves(Team::CT, false, 3600, 3, BombPhase::NotPlanted, 100000, draws(550, 0, 0, 500, 0, 999)).is_empty());
    assert!(decide_bot_moves(Team::CT, false, 3600, 3, BombPhase::NotPlanted, 100000, draws(0, 380, 0, 500, 0, 999)).is_empty());
    assert!(decide_bot_moves(Team::CT, false, 3600, 0, BombPhase::NotPlanted, 100000, draws(0, 0, 0, 500, 0, 999)).is_empty());
}

#[test]
fn bots_plant_late_and_defuse_a_planted_bomb() {
    let miss = draws(999, 999, 999, 500, 0, 0);
    assert_eq!(decide_bot_moves(Team::T, true, 3600, 5, BombPhase::NotPlanted, 79999, miss), vec![BotMove::Plant]);
    assert!(decide_bot_moves(Team::T, true, 3600, 5, BombPhase::NotPlanted, 80000, miss).is_empty());
    assert!(decide_bot_moves(Team::T, false, 3600, 5, BombPhase::NotPlanted, 1000, miss).is_empty());
    assert_eq!(decide_bot_moves(Team::CT, false, 3600, 5, BombPhase::Planted, 1000, miss), vec![BotMove::Defuse]);
    assert!(decide_bot_moves(Team::CT, false, 3600, 5, BombPhase::Planted, 1000, draws(999, 999, 999, 500, 0, 250)).is_empty());
}

#[test]
fn the_players_shot_lands_or_misses_by_its_rolls() {
    let d = ShotDraws { target: 2, hit: 100, headshot: 100, damage_share: 800 };
    assert_eq!(decide_player_shot(3600, d), Some(PlayerHit { target: 2, damage: 14400, is_headshot: true }));
    let d = ShotDraws { target: 0, hit: 719, headshot: 250, damage_share: 800 };
    assert_eq!(decide_player_shot(3600, d), Some(PlayerHit { target: 0, damage: 2880, is_headshot: false }));
    let d = ShotDraws { target: 0, hit: 720, headshot: 0, damage_share: 800 };
    assert_eq!(decide_player_shot(3600, d), None);
    assert_eq!(decide_player_shot(u32::MAX, ShotDraws { target: 0, hit: 0, headshot: 0, damage_share: 800 }).unwrap().damage, u32::MAX);
}

#[test]
fn random_draws_stay_in_their_ranges() {
    for _ in 0..200 {
        let d = draw_bot_turn(4);
        assert!(d.victim < 4 && d.shoot < 1000 && d.hit < 1000 && d.plant < 1000 && d.defuse < 1000);
        assert!(400 <= d.damage_share && d.damage_share < 750);
        let s = draw_player_shot(3);
        assert!(s.target < 3 && s.hit < 1000 && s.headshot < 1000);
        assert!(600 <= s.damage_share && s.damage_share < 1000);
    }
    assert_eq!(draw_bot_turn(0).victim, 0);
}
