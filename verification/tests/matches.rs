use game_cs::game::pacing::{frame_step, round_ended, team_picked, PlayPacing, PlayScreenKind};
use game_cs::game::game_match::{Match, MatchState};
use game_cs::game::grenade::GrenadeType;
use game_cs::game::round::Round;
use game_cs::game::types::{
    CTWinReason, HitZone, MatchConfig, RoundPhase, RoundResult, TWinReason, Team, Vec3,
};
use game_cs::map::bomb::{BombAction, BombPhase};
use game_cs::map::maps::MapRegistry;
use game_cs::player::types::{Player, PlayerProfile};
use game_cs::GameError;

fn player(id: &str, team: Team) -> Player {
    Player::new(PlayerProfile::new(id.to_string(), id.to_uppercase()), team, 800)
}

fn new_match(config: MatchConfig) -> Match {
    let map = MapRegistry::new().get("de_dust2").unwrap().clone();
    let mut m = Match::new(config, map);
    m.add_player(player("ct1", Team::CT)).unwrap();
    m.add_player(player("t1", Team::T)).unwrap();
    m
}

#[test]
fn a_new_match_waits_for_players() {
    let m = new_match(MatchConfig::default());
    assert_eq!(m.state, MatchState::WaitingForPlayers);
    assert_eq!(m.players.len(), 2);
    // The match id is a hyphenated UUID.
    assert_eq!(m.id.len(), 36);
    assert_eq!(m.id.chars().filter(|c| *c == '-').count(), 4);
    assert!(m.winner().is_none());
    assert!(m.last_mvp().is_none());
}

#[test]
fn joining_again_replaces_the_player() {
    let mut m = new_match(MatchConfig::default());
    let mut again = player("ct1", Team::CT);
    again.money = 5000;
    m.add_player(again).unwrap();
    assert_eq!(m.players.len(), 2);
    assert_eq!(m.players[0].money, 5000);
}

#[test]
fn starting_begins_round_one_and_hands_out_the_bomb() {
    let mut m = new_match(MatchConfig::default());
    m.start().unwrap();
    assert_eq!(m.state, MatchState::Live);
    assert_eq!(m.round_number, 1);
    let round = m.current_round.as_ref().unwrap();
    assert_eq!(round.phase, RoundPhase::FreezeTime);
    assert_eq!(round.time_remaining_ms, 15000);
    let t = m.players.iter().find(|p| p.team == Team::T).unwrap();
    assert!(t.is_carrying_bomb);
    let ct = m.players.iter().find(|p| p.team == Team::CT).unwrap();
    assert!(!ct.is_carrying_bomb);
    // Round 1 uses the second spawn point of each side (round-robin).
    assert_eq!(ct.position, Vec3::new(39000, 274800, -12700));
    match m.add_player(player("late", Team::CT)) {
        Err(GameError::InvalidAction(msg)) => assert_eq!(msg, "Match already started"),
        other => panic!("unexpected {:?}", other),
    }
    match m.start() {
        Err(GameError::InvalidAction(msg)) => assert_eq!(msg, "Match already started"),
        other => panic!("unexpected {:?}", other),
    }
}

#[test]
fn freeze_time_gives_way_to_the_live_round() {
    let mut m = new_match(MatchConfig::default());
    m.start().unwrap();
    assert_eq!(m.tick(10000), None);
    assert_eq!(m.current_round.as_ref().unwrap().phase, RoundPhase::FreezeTime);
    assert_eq!(m.tick(5000), None);
    let round = m.current_round.as_ref().unwrap();
    assert_eq!(round.phase, RoundPhase::Live);
    assert_eq!(round.time_remaining_ms, 115000);
    assert_eq!(m.match_time_ms, 15000);
}

#[test]
fn eliminating_the_terrorists_wins_the_round_for_ct() {
    let mut m = new_match(MatchConfig::default());
    m.start().unwrap();
    m.tick(15000);
    m.record_kill("ct1", "t1", "AK-47", HitZone::Head, true, 1000).unwrap();
    let t = m.players.iter_mut().find(|p| p.team == Team::T).unwrap();
    t.take_damage(20000);
    let r = m.tick(100);
    assert_eq!(r, Some(RoundResult::CTWin(CTWinReason::TerrorsEliminated)));
    assert_eq!(m.score.ct, 1);
    assert_eq!(m.score.t, 0);
    let summary = m.last_mvp().unwrap();
    assert_eq!(summary.round_number, 1);
    assert_eq!(summary.mvp_id.as_deref(), Some("ct1"));
    assert_eq!(summary.mvp_nickname.as_deref(), Some("CT1"));
    assert_eq!(summary.ct_score, 1);
    // Kill reward 300, then the win: 800 + 300 + 3250.
    let ct = m.players.iter().find(|p| p.team == Team::CT).unwrap();
    assert_eq!(ct.money, 4350);
    // No losses going into the round: 1400 and no loss bonus.
    let t = m.players.iter().find(|p| p.team == Team::T).unwrap();
    assert_eq!(t.money, 2200);
    assert_eq!(m.t_consecutive_losses, 1);
    // The next round has begun.
    assert_eq!(m.round_number, 2);
    assert_eq!(m.state, MatchState::Live);
    assert_eq!(m.current_round.as_ref().unwrap().phase, RoundPhase::FreezeTime);
    assert!(t.is_alive());
}

#[test]
fn running_out_the_clock_is_a_ct_win() {
    let mut m = new_match(MatchConfig::default());
    m.start().unwrap();
    m.tick(15000);
    assert_eq!(m.tick(114999), None);
    assert_eq!(m.tick(1), Some(RoundResult::CTWin(CTWinReason::TimeExpired)));
}

#[test]
fn halftime_swaps_sides_and_the_match_ends_after_the_last_round() {
    let config = MatchConfig { max_rounds: 2, rounds_to_win: 2, ..MatchConfig::default() };
    let mut m = new_match(config);
    m.start().unwrap();
    m.tick(15000);
    let ct = m.players.iter_mut().find(|p| p.team == Team::CT).unwrap();
    ct.take_damage(20000);
    assert_eq!(m.tick(1), Some(RoundResult::TWin(TWinReason::CTsEliminated)));
    assert_eq!(m.state, MatchState::Halftime);
    // Sides swapped, money back to the start amount.
    let first = m.players.iter().find(|p| p.profile.id == "ct1").unwrap();
    assert_eq!(first.team, Team::T);
    assert_eq!(first.money, 800);
    assert_eq!(m.tick(1000), None);
    m.resume_from_halftime().unwrap();
    assert_eq!(m.round_number, 2);
    m.tick(15000);
    let ct = m.players.iter_mut().find(|p| p.team == Team::CT).unwrap();
    ct.take_damage(20000);
    assert_eq!(m.tick(1), Some(RoundResult::TWin(TWinReason::CTsEliminated)));
    assert!(m.is_ended());
    assert_eq!(m.score.t, 2);
    assert_eq!(m.winner(), Some(Team::T));
    match m.resume_from_halftime() {
        Err(GameError::InvalidAction(msg)) => assert_eq!(msg, "Not at halftime"),
        other => panic!("unexpected {:?}", other),
    }
}

#[test]
fn bomb_actions_need_a_round_and_a_site() {
    let mut m = new_match(MatchConfig::default());
    match m.apply_bomb_action(BombAction::CancelPlant) {
        Err(GameError::InvalidAction(msg)) => assert_eq!(msg, "No active round"),
        other => panic!("unexpected {:?}", other),
    }
    m.start().unwrap();
    let away = BombAction::StartPlant { player_id: "t1".to_string(), position: Vec3::new(0, 0, 0) };
    assert!(matches!(m.apply_bomb_action(away), Err(GameError::NotAtBombSite)));
    let at_a = BombAction::StartPlant { player_id: "t1".to_string(), position: Vec3::new(-20000, 280000, 0) };
    m.apply_bomb_action(at_a).unwrap();
    assert_eq!(m.current_round.as_ref().unwrap().bomb.phase, BombPhase::Planting);
    let again = BombAction::StartPlant { player_id: "t1".to_string(), position: Vec3::new(-20000, 280000, 0) };
    assert!(matches!(m.apply_bomb_action(again), Err(GameError::BombAlreadyPlanted)));
    let defuse = BombAction::StartDefuse { player_id: "ct1".to_string(), has_kit: false };
    assert!(matches!(m.apply_bomb_action(defuse), Err(GameError::BombNotPlanted)));
}

#[test]
fn round_grenades_hit_players_in_range() {
    let config = MatchConfig::default();
    let map = MapRegistry::new().get("de_dust2").unwrap().clone();
    let mut round = Round::new(1, &config);
    let mut near = player("near", Team::CT);
    near.position = Vec3::new(10000, 0, 0);
    let mut far = player("far", Team::CT);
    far.position = Vec3::new(100000, 0, 0);
    let mut players = vec![near, far];
    let id = round.throw_grenade("t1".to_string(), GrenadeType::HE, Vec3::new(0, 0, 0));
    assert_eq!(id, 0);
    assert_eq!(round.tick(2999, &mut players, &config, &map), None);
    assert_eq!(players[0].health, 100);
    round.tick(1, &mut players, &config, &map);
    // 98 HP at the center, falling off linearly to 0 at 350 units: 70 HP at 100 units.
    assert_eq!(players[0].health, 30);
    assert_eq!(players[1].health, 100);
    assert_eq!(round.grenades.live_count(), 0);
}

#[test]
fn flashbangs_blind_and_blindness_wears_off() {
    let config = MatchConfig::default();
    let map = MapRegistry::new().get("de_dust2").unwrap().clone();
    let mut round = Round::new(1, &config);
    let mut players = vec![player("a", Team::T)];
    round.throw_grenade("b".to_string(), GrenadeType::Flash, Vec3::new(0, 0, 0));
    round.tick(1500, &mut players, &config, &map);
    // Full blindness (3 s) at the center, run down by nothing yet in this tick.
    assert_eq!(players[0].blind_timer_ms, 1500);
    round.tick(1000, &mut players, &config, &map);
    assert_eq!(players[0].blind_timer_ms, 500);
    round.tick(1000, &mut players, &config, &map);
    assert_eq!(players[0].blind_timer_ms, 0);
}

#[test]
fn an_ended_round_stays_ended() {
    let config = MatchConfig::default();
    let map = MapRegistry::new().get("de_dust2").unwrap().clone();
    let mut round = Round::new(3, &config);
    let mut players = vec![player("a", Team::T)];
    round.tick(15000, &mut players, &config, &map);
    // No CT alive: the terrorists win at once.
    assert_eq!(round.tick(1, &mut players, &config, &map), Some(RoundResult::TWin(TWinReason::CTsEliminated)));
    assert!(round.is_over());
    assert_eq!(round.mvp_id.as_deref(), Some("a"));
    assert_eq!(round.tick(50000, &mut players, &config, &map), Some(RoundResult::TWin(TWinReason::CTsEliminated)));
    assert_eq!(round.time_remaining_ms, 114999);
}

#[test]
fn a_started_plant_completes_through_ticks() {
    let mut m = new_match(MatchConfig::default());
    m.start().unwrap();
    // Freeze time runs out.
    assert_eq!(m.tick(15000), None);
    assert_eq!(m.current_round.as_ref().unwrap().phase, RoundPhase::Live);
    let at_a = BombAction::StartPlant { player_id: "t1".to_string(), position: Vec3::new(-20000, 280000, 0) };
    m.apply_bomb_action(at_a).unwrap();
    assert_eq!(m.tick(2000), None);
    assert_eq!(m.current_round.as_ref().unwrap().bomb.phase, BombPhase::Planting);
    assert_eq!(m.tick(1000), None);
    let round = m.current_round.as_ref().unwrap();
    assert_eq!(round.phase, RoundPhase::BombPlanted);
    assert_eq!(round.bomb.phase, BombPhase::Planted);
    assert_eq!(round.bomb.timer_ms, 40000);
}

#[test]
fn the_play_pacing_runs_bots_and_shows_results() {
    let start = PlayPacing { screen: PlayScreenKind::TeamSelect, bot_elapsed_ms: 0, round_end_elapsed_ms: 0 };
    // Nothing happens before a team is picked.
    let (p, a) = frame_step(start, 2000, MatchState::Live);
    assert_eq!(p, start);
    assert!(!a.tick_match && !a.run_bots);
    let p = team_picked(start);
    let (p, a) = frame_step(p, 1000, MatchState::Live);
    assert!(a.tick_match && !a.run_bots);
    assert_eq!(p.bot_elapsed_ms, 1000);
    let (p, a) = frame_step(p, 600, MatchState::Live);
    assert!(a.run_bots);
    assert_eq!(p.bot_elapsed_ms, 0);
    let (_, a) = frame_step(p, 10, MatchState::Halftime);
    assert!(a.resume_halftime && a.equip_bots && a.tick_match);
    let (q, a) = frame_step(p, 10, MatchState::Ended);
    assert_eq!(q.screen, PlayScreenKind::MatchEnd);
    assert!(!a.tick_match);
    // A round result shows for four seconds.
    let r = round_ended(p);
    let (r, a) = frame_step(r, 3999, MatchState::Live);
    assert_eq!(r.screen, PlayScreenKind::RoundEnd);
    assert!(!a.equip_bots);
    let (r, a) = frame_step(r, 1, MatchState::Live);
    assert_eq!(r.screen, PlayScreenKind::InRound);
    assert!(a.equip_bots);
}
