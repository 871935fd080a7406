use game_cs::game::types::{GameMode, Rank, Team};
use game_cs::network::matchmaking::{MatchmakingEntry, MatchmakingQueue};
use game_cs::network::room::{Room, RoomConfig, RoomState};
use game_cs::player::types::PlayerProfile;
use game_cs::GameError;

const T0: i64 = 1_700_000_000_000;

fn entry(id: &str, rank: Rank, mode: GameMode, queued_at_ms: i64) -> MatchmakingEntry {
    let mut e = MatchmakingEntry::new(id.to_string(), id.to_uppercase(), rank, mode, 30);
    e.queued_at_ms = queued_at_ms;
    e
}

const LADDER: [Rank; 12] = [
    Rank::SilverI,
    Rank::SilverII,
    Rank::SilverIII,
    Rank::SilverIV,
    Rank::SilverElite,
    Rank::SilverEliteMaster,
    Rank::GoldNovaI,
    Rank::GoldNovaII,
    Rank::GoldNovaIII,
    Rank::GoldNovaMaster,
    Rank::MasterGuardianI,
    Rank::MasterGuardianII,
];

#[test]
fn ten_close_players_form_a_match() {
    let mut q = MatchmakingQueue::new();
    for i in 0..10 {
        q.enqueue(entry(&format!("p{}", i), LADDER[i % 3], GameMode::BombDefusal, T0));
    }
    q.enqueue(entry("dm", Rank::GlobalElite, GameMode::Deathmatch, T0));
    assert_eq!(q.queue_size(), 11);
    assert!(q.is_queued("p3"));
    let r = q.try_form_match_at(T0 + 5_000, &["de_inferno", "de_nuke"]).unwrap();
    assert_eq!(r.player_ids.len(), 10);
    assert_eq!(r.game_mode, GameMode::BombDefusal);
    assert_eq!(r.map_name, "de_inferno");
    // Search order: lowest rank first.
    assert_eq!(r.player_ids[0], "p0");
    assert_eq!(q.queue_size(), 1);
    assert!(!q.is_queued("p3"));
    assert!(q.is_queued("dm"));
}

#[test]
fn same_rank_players_are_ordered_longest_waiting_first() {
    let mut q = MatchmakingQueue::new();
    for i in 0..11 {
        q.enqueue(entry(&format!("p{}", i), Rank::GoldNovaI, GameMode::TeamDeathmatch, T0 + i as i64));
    }
    let r = q.try_form_match_at(T0 + 1_000, &[]).unwrap();
    assert_eq!(r.map_name, "de_dust2");
    assert_eq!(r.game_mode, GameMode::TeamDeathmatch);
    assert_eq!(r.player_ids[0], "p0");
    assert_eq!(r.player_ids[9], "p9");
    assert!(q.is_queued("p10"));
    // The matched players are all different and have left the queue.
    for (i, a) in r.player_ids.iter().enumerate() {
        assert!(!q.is_queued(a));
        for b in r.player_ids.iter().skip(i + 1) {
            assert_ne!(a, b);
        }
    }
}

#[test]
fn same_rank_players_with_lower_ping_come_first() {
    let mut q = MatchmakingQueue::new();
    for i in 0..11 {
        let mut e = entry(&format!("p{}", i), Rank::GoldNovaI, GameMode::BombDefusal, T0 + i as i64);
        e.estimated_ping_ms = 200 - i as u32 * 10;
        q.enqueue(e);
    }
    let r = q.try_form_match_at(T0 + 1_000, &[]).unwrap();
    // The lowest ping first, even though that player queued last.
    assert_eq!(r.player_ids[0], "p10");
    assert_eq!(r.player_ids[9], "p1");
    assert!(q.is_queued("p0"));
}

#[test]
fn wide_rank_spread_waits_until_players_have_waited() {
    let mut q = MatchmakingQueue::new();
    for i in 0..10 {
        q.enqueue(entry(&format!("p{}", i), LADDER[i], GameMode::BombDefusal, T0));
    }
    assert!(q.try_form_match_at(T0 + 10_000, &[]).is_none());
    assert_eq!(q.queue_size(), 10);
    let r = q.try_form_match_at(T0 + 31_000, &[]).unwrap();
    assert_eq!(r.player_ids.len(), 10);
    assert_eq!(q.queue_size(), 0);
}

#[test]
fn timed_out_players_leave_the_queue() {
    let mut q = MatchmakingQueue::new();
    for i in 0..10 {
        q.enqueue(entry(&format!("p{}", i), Rank::SilverI, GameMode::BombDefusal, T0));
    }
    assert!(q.try_form_match_at(T0 + 61_000, &[]).is_none());
    assert_eq!(q.queue_size(), 0);
}

#[test]
fn requeueing_replaces_and_dequeue_removes() {
    let mut q = MatchmakingQueue::new();
    q.enqueue(entry("a", Rank::SilverI, GameMode::BombDefusal, T0));
    q.enqueue(entry("a", Rank::GlobalElite, GameMode::BombDefusal, T0));
    assert_eq!(q.queue_size(), 1);
    assert!(q.dequeue("a"));
    assert!(!q.dequeue("a"));
    assert_eq!(q.queue_size(), 0);
}

#[test]
fn wait_estimates_follow_the_queue_population() {
    let mut q = MatchmakingQueue::new();
    assert_eq!(q.estimated_wait_secs(Rank::GoldNovaI, GameMode::BombDefusal), 45);
    for i in 0..5 {
        q.enqueue(entry(&format!("p{}", i), Rank::GoldNovaII, GameMode::BombDefusal, T0));
    }
    q.enqueue(entry("far", Rank::GlobalElite, GameMode::BombDefusal, T0));
    assert_eq!(q.estimated_wait_secs(Rank::GoldNovaI, GameMode::BombDefusal), 20);
    for i in 5..9 {
        q.enqueue(entry(&format!("p{}", i), Rank::SilverElite, GameMode::BombDefusal, T0));
    }
    assert_eq!(q.estimated_wait_secs(Rank::GoldNovaI, GameMode::BombDefusal), 5);
    assert_eq!(q.estimated_wait_secs(Rank::GoldNovaI, GameMode::Deathmatch), 45);
}

#[test]
fn wait_time_in_whole_seconds() {
    let e = entry("a", Rank::SilverI, GameMode::BombDefusal, T0);
    assert_eq!(e.wait_secs_at(T0 + 2_999), 2);
    assert_eq!(e.wait_secs_at(T0 - 1_500), -1);
}

fn profile(id: &str) -> PlayerProfile {
    PlayerProfile::new(id.to_string(), id.to_uppercase())
}

#[test]
fn rooms_balance_teams_and_check_passwords() {
    let owner = profile("owner");
    let config = RoomConfig { password: Some("secret".to_string()), max_players: 3, ..RoomConfig::default() };
    let mut room = Room::new(&owner, config);
    assert_eq!(room.player_count(), 1);
    assert_eq!(room.state, RoomState::Lobby);
    assert_eq!(room.id.len(), 36);
    assert!(matches!(room.join(&profile("a"), None), Err(GameError::RoomPasswordRequired)));
    assert!(matches!(room.join(&profile("a"), Some("nope")), Err(GameError::WrongRoomPassword)));
    assert_eq!(room.join(&profile("a"), Some("secret")).unwrap(), Team::T);
    assert!(matches!(room.join(&profile("a"), Some("secret")), Err(GameError::PlayerAlreadyInRoom)));
    assert_eq!(room.join(&profile("b"), Some("secret")).unwrap(), Team::CT);
    assert!(room.is_full());
    assert!(matches!(room.join(&profile("c"), Some("secret")), Err(GameError::RoomFull)));
}

#[test]
fn room_owner_controls_and_start() {
    let owner = profile("owner");
    let mut room = Room::new(&owner, RoomConfig::default());
    assert_eq!(room.config.map_name, "de_dust2");
    assert_eq!(room.config.max_players, 10);
    room.join(&profile("a"), None).unwrap();
    assert!(matches!(room.start_game("a"), Err(GameError::NotRoomOwner)));
    match room.start_game("owner") {
        Err(GameError::InvalidAction(m)) => assert_eq!(m, "Not all players are ready"),
        other => panic!("unexpected {:?}", other),
    }
    room.set_ready("owner", true).unwrap();
    room.set_ready("a", true).unwrap();
    assert!(room.all_ready());
    room.change_map("owner", "de_nuke".to_string()).unwrap();
    assert_eq!(room.config.map_name, "de_nuke");
    assert!(!room.all_ready());
    room.set_ready("owner", true).unwrap();
    room.set_ready("a", true).unwrap();
    room.start_game("owner").unwrap();
    assert_eq!(room.state, RoomState::Starting);
    assert!(matches!(room.join(&profile("late"), None), Err(GameError::InvalidAction(_))));
    match room.set_ready("ghost", true) {
        Err(GameError::PlayerNotFound(id)) => assert_eq!(id, "ghost"),
        other => panic!("unexpected {:?}", other),
    }
}

#[test]
fn leaving_owner_hands_over_and_kicks_need_the_owner() {
    let owner = profile("owner");
    let mut room = Room::new(&owner, RoomConfig::default());
    room.join(&profile("a"), None).unwrap();
    room.join(&profile("b"), None).unwrap();
    assert!(matches!(room.kick("a", "b"), Err(GameError::NotRoomOwner)));
    room.kick("owner", "b").unwrap();
    assert_eq!(room.player_count(), 2);
    room.leave("owner").unwrap();
    assert_eq!(room.owner_id, "a");
    assert!(matches!(room.leave("owner"), Err(GameError::PlayerNotFound(_))));
    let last = room.last_activity_ms;
    assert!(room.is_idle_at(last + 60_000, 60));
    assert!(!room.is_idle_at(last + 59_999, 60));
}
