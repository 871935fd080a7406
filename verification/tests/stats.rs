use game_cs::game::types::{CTWinReason, HitZone, KillEvent, Rank, RoundResult, TWinReason, Team};
use game_cs::player::types::{Player, PlayerProfile};
use game_cs::stats::leaderboard::{Leaderboard, LeaderboardSort};
use game_cs::stats::match_stats::MatchStats;
use game_cs::stats::round_stats::{PlayerRoundStat, RoundStats};

fn player(id: &str, team: Team, kills: u32, deaths: u32, damage: u32) -> Player {
    let mut p = Player::new(PlayerProfile::new(id.to_string(), id.to_uppercase()), team, 800);
    p.round_kills = kills;
    p.round_deaths = deaths;
    p.round_damage = damage;
    p
}

fn kill(killer: &str, victim: &str, headshot: bool) -> KillEvent {
    KillEvent {
        killer_id: killer.to_string(),
        victim_id: victim.to_string(),
        weapon_name: "AK-47".to_string(),
        hit_zone: if headshot { HitZone::Head } else { HitZone::Chest },
        is_headshot: headshot,
        timestamp_ms: 0,
    }
}

#[test]
fn round_stats_count_headshots_and_pick_the_mvp() {
    let mut planter = player("t1", Team::T, 1, 1, 5000);
    planter.is_carrying_bomb = true;
    let players = vec![player("ct1", Team::CT, 2, 0, 20000), planter];
    let log = vec![kill("ct1", "t1", true), kill("ct1", "x", false), kill("t1", "y", true)];
    let rs = RoundStats::compile(4, RoundResult::CTWin(CTWinReason::TerrorsEliminated), &players, log, 90000);
    assert_eq!(rs.player_stats.len(), 2);
    assert_eq!(rs.player_stats[0].headshots, 1);
    assert_eq!(rs.player_stats[1].headshots, 1);
    assert!(rs.player_stats[1].planted_bomb);
    // 2 kills (4 points) + 200 HP (2 points) = 6 points.
    assert_eq!(rs.player_stats[0].contribution_score(), 60000);
    // 1 kill (2) + 50 HP (0.5) + plant (3) = 5.5 points.
    assert_eq!(rs.player_stats[1].contribution_score(), 55000);
    assert_eq!(rs.mvp().unwrap().player_id, "ct1");
    assert_eq!(rs.player_stats[0].headshot_rate(), 5000);
    let board = rs.scoreboard();
    assert_eq!(board[0].player_id, "ct1");
    assert_eq!(board[1].player_id, "t1");
}

#[test]
fn equal_contributions_go_to_the_later_player() {
    let players = vec![player("a", Team::CT, 1, 0, 0), player("b", Team::T, 1, 0, 0)];
    let rs = RoundStats::compile(1, RoundResult::InProgress, &players, Vec::new(), 0);
    assert_eq!(rs.mvp().unwrap().player_id, "b");
    let empty = RoundStats::compile(1, RoundResult::InProgress, &Vec::new(), Vec::new(), 0);
    assert!(empty.mvp().is_none());
}

#[test]
fn match_stats_sum_rounds_per_player() {
    let r1 = RoundStats::compile(
        1,
        RoundResult::CTWin(CTWinReason::TerrorsEliminated),
        &vec![player("ct1", Team::CT, 3, 0, 30000), player("t1", Team::T, 0, 1, 1000)],
        Vec::new(),
        60000,
    );
    let r2 = RoundStats::compile(
        2,
        RoundResult::TWin(TWinReason::BombExploded),
        &vec![player("ct1", Team::CT, 0, 1, 0), player("t1", Team::T, 1, 0, 10000)],
        Vec::new(),
        60000,
    );
    let ms = MatchStats::compile(
        "m".to_string(),
        "de_dust2".to_string(),
        1,
        1,
        None,
        vec![r1, r2],
        120000,
    );
    assert_eq!(ms.total_rounds, 2);
    assert_eq!(ms.round_history, vec![
        RoundResult::CTWin(CTWinReason::TerrorsEliminated),
        RoundResult::TWin(TWinReason::BombExploded)
    ]);
    assert_eq!(ms.player_stats.len(), 2);
    let ct = &ms.player_stats[0];
    assert_eq!(ct.player_id, "ct1");
    assert_eq!(ct.kills, 3);
    assert_eq!(ct.deaths, 1);
    assert_eq!(ct.rounds_played, 2);
    assert_eq!(ct.mvp_count, 1);
    assert_eq!(ct.damage_dealt, 30000);
    assert_eq!(ct.average_damage(), 15000);
    assert_eq!(ct.kd_ratio(), 3000);
    let mvp = ms.mvp.as_ref().unwrap();
    assert_eq!(mvp.player_id, "ct1");
    // 3 kills (6) + 300 HP (1.5) + 1 round MVP (2) = 9.5 points.
    assert_eq!(mvp.score, 190000);
    assert_eq!(ms.scoreboard()[0].player_id, "ct1");
    assert_eq!(ms.rank_change("ct1", Rank::GoldNovaI), 0);
    assert_eq!(ms.rank_change("nobody", Rank::GoldNovaI), 0);
}

#[test]
fn rank_change_by_result_and_kill_death_ratio() {
    let rs = RoundStats::compile(
        1,
        RoundResult::TWin(TWinReason::CTsEliminated),
        &vec![
            player("star", Team::T, 4, 2, 0),
            player("even", Team::T, 3, 2, 0),
            player("weak", Team::CT, 0, 1, 0),
            player("fine", Team::CT, 1, 2, 0),
        ],
        Vec::new(),
        0,
    );
    let ms = MatchStats::compile("m".into(), "de_nuke".into(), 0, 1, Some(Team::T), vec![rs], 0);
    assert_eq!(ms.rank_change("star", Rank::SilverI), 2);
    assert_eq!(ms.rank_change("even", Rank::SilverI), 1);
    assert_eq!(ms.rank_change("weak", Rank::SilverI), -2);
    assert_eq!(ms.rank_change("fine", Rank::SilverI), -1);
}

#[test]
fn player_round_stat_rates() {
    let s = PlayerRoundStat {
        player_id: "a".to_string(),
        nickname: "A".to_string(),
        team: Team::CT,
        kills: 0,
        deaths: 0,
        assists: 2,
        damage_dealt: 0,
        headshots: 0,
        planted_bomb: false,
        defused_bomb: true,
    };
    assert_eq!(s.headshot_rate(), 0);
    // 2 assists (1 point) + defuse (5 points).
    assert_eq!(s.contribution_score(), 60000);
}

fn profile(id: &str, rank: Rank, kills: u64, deaths: u64, matches: u64) -> PlayerProfile {
    let mut p = PlayerProfile::new(id.to_string(), id.to_uppercase());
    p.rank = rank;
    p.total_kills = kills;
    p.total_deaths = deaths;
    p.total_matches = matches;
    p.total_wins = matches / 2;
    p
}

#[test]
fn leaderboard_ranks_eligible_players() {
    let mut lb = Leaderboard::new();
    lb.upsert(&profile("a", Rank::GoldNovaI, 100, 50, 20));
    lb.upsert(&profile("b", Rank::GlobalElite, 50, 100, 30));
    lb.upsert(&profile("c", Rank::SilverI, 300, 10, 5));
    lb.upsert(&profile("d", Rank::GoldNovaI, 80, 80, 12));
    assert_eq!(lb.total_players(), 4);
    let by_rank = lb.top(10, LeaderboardSort::ByRank);
    let ids: Vec<&str> = by_rank.iter().map(|e| e.player_id.as_str()).collect();
    // "c" has too few matches; equal ranks keep the order they were added.
    assert_eq!(ids, vec!["b", "a", "d"]);
    let by_kd = lb.top(2, LeaderboardSort::ByKD);
    assert_eq!(by_kd.len(), 2);
    assert_eq!(by_kd[0].player_id, "a");
    assert_eq!(by_kd[0].kd_ratio, 2000);
    assert_eq!(lb.player_rank_position("d", LeaderboardSort::ByKD), Some(2));
    assert_eq!(lb.player_rank_position("c", LeaderboardSort::ByKD), None);
    lb.upsert(&profile("c", Rank::SilverI, 300, 10, 10));
    assert_eq!(lb.total_players(), 4);
    assert_eq!(lb.player_rank_position("c", LeaderboardSort::ByTotalKills), Some(1));
    lb.remove("c");
    assert_eq!(lb.total_players(), 3);
    assert_eq!(lb.player_rank_position("c", LeaderboardSort::ByTotalKills), None);
}
