use vstd::prelude::*;
use crate::economy::rewards::{loss_bonus_of, rewards_fit, round_rewards, RoundRewardCalculator};
use crate::game::drops::{DropZone, DroppedWeapon};
use crate::game::error::GameError;
use crate::game::round::{
    find_player, first_player, fresh_round, lemma_first_player, pviews, round_tick_rel, Round,
};
use crate::game::types::{
    HitZone, RoundPhase, KillEvent, MatchConfig, RoundMoneyRewards, RoundResult, RoundSummary, Team,
};
use crate::map::bomb::{bomb_apply, BombAction, BombPhase};
use crate::map::types::{spawn_point, MapDef};
use crate::player::inventory::{cleared, InventoryView};
use crate::player::types::{capped_money, reset_player, sat_add, Player, PlayerState, PlayerView};
use crate::services::{choose_one, new_uuid_string};
use crate::weapons::catalog::{default_weapons, first_named, WeaponCatalog};

verus! {

/// Match-level score tracker.
#[derive(Debug, Clone, Copy, PartialEq, Eq, Structural)]
pub struct Score {
    pub ct: u32,
    pub t: u32,
}

impl Default for Score {
    fn default() -> (s: Score)
        ensures
            s == (Score { ct: 0, t: 0 }),
    {
        Score { ct: 0, t: 0 }
    }
}

/// Overall match state.
#[derive(Debug, Clone, Copy, PartialEq, Eq, Structural)]
pub enum MatchState {
    WaitingForPlayers,
    Warmup,
    Live,
    Halftime,
    Ended,
}

/// Full match, containing all rounds and players.
///
/// The players are kept in the order they joined; a player is found by the
/// first entry with its id, and joining again under an id already present
/// replaces that entry.
pub struct Match {
    pub id: String,
    pub config: MatchConfig,
    pub map: MapDef,
    pub players: Vec<Player>,
    pub score: Score,
    pub state: MatchState,
    pub current_round: Option<Round>,
    pub round_number: u32,
    /// Milliseconds of match time played
    pub match_time_ms: u64,
    /// History of completed rounds (for scoreboard / HUD ring)
    pub round_history: Vec<RoundSummary>,
    /// Weapons currently on the ground
    pub drops: DropZone,
    /// Rounds the CT side has lost in a row
    pub ct_consecutive_losses: u32,
    /// Rounds the T side has lost in a row
    pub t_consecutive_losses: u32,
    pub reward_calculator: RoundRewardCalculator,
}

/// No two players of `ps` share an id.
pub open spec fn ids_unique(ps: Seq<PlayerView>) -> bool {
    forall|i: int, j: int|
        0 <= i < ps.len() && 0 <= j < ps.len() && i != j ==> #[trigger] ps[i].profile.id@
            != #[trigger] ps[j].profile.id@
}

/// `ps` with every player reset for round `round` at their team's spawn point on `m`.
pub open spec fn reset_all(ps: Seq<PlayerView>, m: MapDef, round: u32) -> Seq<PlayerView> {
    ps.map_values(|p: PlayerView| reset_player(p, spawn_point(m, p.team, round)))
}

/// `after` is `before` with the bomb handed to one T-side player, or
/// unchanged when there is none.
pub open spec fn bomb_given(before: Seq<PlayerView>, after: Seq<PlayerView>) -> bool {
    if forall|i: int| 0 <= i < before.len() ==> #[trigger] before[i].team != Team::T {
        after == before
    } else {
        exists|c: int|
            0 <= c < before.len() && #[trigger] before[c].team == Team::T && after == before.update(
                c,
                PlayerView { is_carrying_bomb: true, ..before[c] },
            )
    }
}

/// The (CT, T) consecutive-loss streaks after a round that ended with
/// `result`: the winner's streak restarts, the loser's grows by one (a
/// streak stays at `u32::MAX` once there).
pub open spec fn streaks_after(ct: u32, t: u32, result: RoundResult) -> (u32, u32) {
    match result {
        RoundResult::CTWin(_) => (0, sat_add(t, 1)),
        RoundResult::TWin(_) => (sat_add(ct, 1), 0),
        RoundResult::InProgress => (ct, t),
    }
}

/// The score after a round that ended with `result`.
pub open spec fn scored(s: Score, result: RoundResult) -> Score {
    match result {
        RoundResult::CTWin(_) => Score { ct: (s.ct + 1) as u32, ..s },
        RoundResult::TWin(_) => Score { t: (s.t + 1) as u32, ..s },
        RoundResult::InProgress => s,
    }
}

/// The nickname of the first player with id `id`, if any.
pub open spec fn nickname_of(ps: Seq<PlayerView>, id: Option<String>) -> Option<String> {
    match id {
        Some(i) => match first_player(ps, i@) {
            Some(k) => Some(ps[k].profile.nickname),
            None => None,
        },
        None => None,
    }
}

/// The primary weapons the dead players of `ps` leave on the ground, in
/// player order, numbered from `first_id`.
pub open spec fn dead_drops(ps: Seq<PlayerView>, first_id: int) -> Seq<DroppedWeapon>
    decreases ps.len(),
{
    if ps.len() == 0 {
        Seq::empty()
    } else {
        let prev = dead_drops(ps.drop_last(), first_id);
        let p = ps.last();
        if p.state != PlayerState::Alive && p.inventory.primary is Some {
            prev.push(
                DroppedWeapon {
                    id: (first_id + prev.len()) as u32,
                    original_owner_id: p.profile.id,
                    weapon: p.inventory.primary->0,
                    position: p.position,
                },
            )
        } else {
            prev
        }
    }
}

/// The reward a player of `team` gets when the CT side gets `ct` and the
/// T side `t`; spectators get nothing.
pub open spec fn team_reward(team: Team, ct: u32, t: u32) -> u32 {
    match team {
        Team::CT => ct,
        Team::T => t,
        Team::Spectator => 0,
    }
}

/// Every player of `ps` paid their side's reward, capped at `max`.
pub open spec fn paid_all(ps: Seq<PlayerView>, ct: u32, t: u32, max: u32) -> Seq<PlayerView> {
    ps.map_values(
        |p: PlayerView| PlayerView { money: capped_money(p.money, team_reward(p.team, ct, t), max), ..p },
    )
}

/// The other side; spectators stay spectators.
pub open spec fn other_side(t: Team) -> Team {
    match t {
        Team::CT => Team::T,
        Team::T => Team::CT,
        Team::Spectator => Team::Spectator,
    }
}

/// Every player of `ps` on the other side, with `start` money and only a knife.
pub open spec fn swapped_all(ps: Seq<PlayerView>, start: u32) -> Seq<PlayerView> {
    ps.map_values(
        |p: PlayerView| PlayerView {
            team: other_side(p.team),
            money: start,
            inventory: cleared(p.inventory),
            ..p
        },
    )
}

/// `a` and `b` agree on what no round changes: id, configuration, map and
/// reward table.
pub open spec fn same_setup(a: Match, b: Match) -> bool {
    &&& b.id == a.id
    &&& b.config == a.config
    &&& b.map == a.map
    &&& b.reward_calculator.rewards == a.reward_calculator.rewards
}

/// `post` is `m` with a new round begun: the round number advanced, a fresh
/// round in place, the ground cleared, every player reset at a spawn point
/// for the new round and the bomb handed to a T-side player.
pub open spec fn round_begun(m: Match, post: Match) -> bool {
    &&& same_setup(m, post)
    &&& post.round_number == m.round_number + 1
    &&& (post.current_round matches Some(rd) && fresh_round(rd, post.round_number, m.config))
    &&& post.drops.items().len() == 0
    &&& post.drops.issued() == m.drops.issued()
    &&& bomb_given(reset_all(pviews(m.players@), m.map, post.round_number), pviews(post.players@))
    &&& post.score == m.score
    &&& post.state == m.state
    &&& post.match_time_ms == m.match_time_ms
    &&& post.round_history@ == m.round_history@
    &&& post.ct_consecutive_losses == m.ct_consecutive_losses
    &&& post.t_consecutive_losses == m.t_consecutive_losses
}

/// Reset every player for round `round` at their team's spawn point.
fn reset_players(players: &mut Vec<Player>, map: &MapDef, round: u32)
    ensures
        pviews(final(players)@) == reset_all(pviews(old(players)@), *map, round),
{
    let ghost start = pviews(players@);
    let mut i: usize = 0;
    while i < players.len()
        invariant
            i <= players@.len(),
            players@.len() == start.len(),
            forall|j: int|
                0 <= j < i ==> #[trigger] players@[j]@ == reset_player(
                    start[j],
                    spawn_point(*map, start[j].team, round),
                ),
            forall|j: int| i <= j < players@.len() ==> #[trigger] players@[j]@ == start[j],
        decreases players@.len() - i,
    {
        let spawn = map.spawn_for(players[i].team, round);
        players[i].reset_for_round(spawn);
        i = i + 1;
    }
    assert(pviews(players@) =~= reset_all(start, *map, round));
}

fn give_bomb(p: &mut Player)
    ensures
        final(p)@ == (PlayerView { is_carrying_bomb: true, ..old(p)@ }),
{
    p.is_carrying_bomb = true;
}

/// Hand the bomb to one T-side player, picked at random.
fn assign_bomb_carrier(players: &mut Vec<Player>)
    ensures
        bomb_given(pviews(old(players)@), pviews(final(players)@)),
{
    let ghost start = pviews(players@);
    let mut t_side: Vec<usize> = Vec::new();
    let mut i: usize = 0;
    while i < players.len()
        invariant
            i <= players@.len(),
            start == pviews(players@),
            forall|j: int| 0 <= j < t_side@.len() ==> #[trigger] t_side@[j] < i,
            forall|j: int|
                0 <= j < t_side@.len() ==> #[trigger] start[t_side@[j] as int].team == Team::T,
            t_side@.len() == 0 ==> forall|j: int| 0 <= j < i ==> #[trigger] start[j].team != Team::T,
        decreases players@.len() - i,
    {
        assert(start[i as int] == players@[i as int]@);
        if players[i].team == Team::T {
            t_side.push(i);
            assert(t_side@[t_side@.len() - 1] == i);
        }
        i = i + 1;
    }
    if let Some(c) = choose_one(&t_side) {
        let ghost k = t_side@.index_of(c);
        assert(t_side@[k] == c);
        let ghost before = players@;
        give_bomb(&mut players[c]);
        proof {
            assert(pviews(players@) =~= start.update(
                c as int,
                PlayerView { is_carrying_bomb: true, ..start[c as int] },
            ));
            assert(start[c as int].team == Team::T);
        }
    }
}

/// The reward table pays every loss bonus without overflowing a `u32`.
pub open spec fn table_fits(r: RoundMoneyRewards) -> bool {
    &&& r.t_loss_base + r.loss_bonus_increment * r.max_loss_bonus <= u32::MAX
    &&& r.ct_loss + r.loss_bonus_increment * r.max_loss_bonus <= u32::MAX
}

/// The summary recorded for the round of `m` that ended with `result`.
pub open spec fn round_summary_of(m: Match, result: RoundResult) -> RoundSummary {
    let score = scored(m.score, result);
    let mvp = match m.current_round {
        Some(rd) => rd.mvp_id,
        None => None,
    };
    RoundSummary {
        round_number: m.round_number,
        result,
        mvp_id: mvp,
        mvp_nickname: nickname_of(pviews(m.players@), mvp),
        ct_score: score.ct,
        t_score: score.t,
    }
}

/// The players of `m` paid the end-of-round money for `result`, by the
/// loss streaks going into the round.
pub open spec fn rewarded_players(m: Match, result: RoundResult) -> Seq<PlayerView> {
    let rewards = round_rewards(
        m.reward_calculator.rewards,
        result,
        m.ct_consecutive_losses,
        m.t_consecutive_losses,
    );
    paid_all(
        pviews(m.players@),
        rewards.0.total_reward,
        rewards.1.total_reward,
        m.config.max_money,
    )
}

/// The match of `m` is decided with score `score`: a side has the rounds to
/// win, or the last round has been played.
pub open spec fn match_over(m: Match, score: Score) -> bool {
    score.ct >= m.config.rounds_to_win || score.t >= m.config.rounds_to_win || m.round_number
        >= m.config.max_rounds
}

/// What the end of the current round with `result` makes of match `m`: the
/// score and loss streaks move on, the round is recorded, the dead players'
/// primaries fall to the ground and everyone is paid; then the match ends,
/// or breaks for halftime with the sides swapped, or the next round begins.
pub open spec fn round_end_rel(m: Match, result: RoundResult, post: Match) -> bool {
    let score = scored(m.score, result);
    let streaks = streaks_after(m.ct_consecutive_losses, m.t_consecutive_losses, result);
    let fallen = dead_drops(pviews(m.players@), m.drops.issued() as int);
    let paid = rewarded_players(m, result);
    &&& same_setup(m, post)
    &&& post.score == score
    &&& post.ct_consecutive_losses == streaks.0
    &&& post.t_consecutive_losses == streaks.1
    &&& post.round_history@ == m.round_history@.push(round_summary_of(m, result))
    &&& post.match_time_ms == m.match_time_ms
    &&& post.drops.issued() == m.drops.issued() + fallen.len()
    &&& if match_over(m, score) {
        &&& post.state == MatchState::Ended
        &&& post.round_number == m.round_number
        &&& post.current_round == m.current_round
        &&& post.drops.items() == m.drops.items() + fallen
        &&& pviews(post.players@) == paid
    } else if m.round_number == m.config.max_rounds / 2 {
        &&& post.state == MatchState::Halftime
        &&& post.round_number == m.round_number
        &&& post.current_round == m.current_round
        &&& post.drops.items() == m.drops.items() + fallen
        &&& pviews(post.players@) == swapped_all(paid, m.config.start_money)
    } else {
        &&& post.state == m.state
        &&& post.round_number == m.round_number + 1
        &&& (post.current_round matches Some(rd) && fresh_round(rd, post.round_number, m.config))
        &&& post.drops.items().len() == 0
        &&& bomb_given(reset_all(paid, m.map, post.round_number), pviews(post.players@))
    }
}

/// `mid` is `m` after its current round took a tick of `delta`
/// milliseconds that returned `r`, with the match clock advanced.
pub open spec fn round_ticked(m: Match, mid: Match, delta: u32, r: Option<RoundResult>) -> bool {
    &&& (m.current_round matches Some(a) && (mid.current_round matches Some(b) && round_tick_rel(
        a,
        m.players@,
        b,
        pviews(mid.players@),
        delta,
        m.config,
        r,
    )))
    &&& same_setup(m, mid)
    &&& mid.match_time_ms == m.match_time_ms + delta
    &&& mid.score == m.score
    &&& mid.state == m.state
    &&& mid.round_number == m.round_number
    &&& mid.round_history@ == m.round_history@
    &&& mid.drops == m.drops
    &&& mid.ct_consecutive_losses == m.ct_consecutive_losses
    &&& mid.t_consecutive_losses == m.t_consecutive_losses
}

/// The total of the tick lengths `ds`, in milliseconds.
pub open spec fn total_ms(ds: Seq<u32>) -> int
    decreases ds.len(),
{
    if ds.len() == 0 {
        0
    } else {
        total_ms(ds.drop_last()) + ds.last()
    }
}

/// A chain of match states `ms`, each reached from the one before by a tick
/// of `ds` that ended no round.
pub open spec fn quiet_ticks(ms: Seq<Match>, ds: Seq<u32>) -> bool {
    &&& ms.len() == ds.len() + 1
    &&& forall|i: int| 0 <= i < ds.len() ==> #[trigger] round_ticked(ms[i], ms[i + 1], ds[i], None)
}

proof fn lemma_plant_prefix(ms: Seq<Match>, ds: Seq<u32>, k: int)
    requires
        quiet_ticks(ms, ds),
        0 <= k <= ds.len(),
        ms[0].current_round matches Some(a) && a.phase == RoundPhase::Live && a.bomb.phase
            == BombPhase::Planting,
    ensures
        ms[k].current_round is Some,
        k == 0 || total_ms(ds.take(k)) < ms[0].current_round->0.bomb.timer_ms ==> {
            let b = ms[k].current_round->0;
            &&& b.phase == RoundPhase::Live
            &&& b.bomb.phase == BombPhase::Planting
            &&& b.bomb.timer_ms == ms[0].current_round->0.bomb.timer_ms - total_ms(ds.take(k))
        },
        k > 0 && total_ms(ds.take(k)) >= ms[0].current_round->0.bomb.timer_ms ==> {
            let b = ms[k].current_round->0;
            &&& b.phase == RoundPhase::BombPlanted
            &&& b.bomb.phase == BombPhase::Planted
        },
    decreases k,
{
    if k == 0 {
        assert(ds.take(0) =~= Seq::<u32>::empty());
    } else {
        lemma_plant_prefix(ms, ds, k - 1);
        assert(ds.take(k).drop_last() =~= ds.take(k - 1));
        assert(ds.take(k).last() == ds[k - 1]);
        let i = k - 1;
        assert(round_ticked(ms[i], ms[i + 1], ds[i], None));
        assert(i + 1 == k);
        let a = ms[k - 1].current_round->0;
        let b = ms[k].current_round->0;
        crate::game::round::lemma_plant_step(
            a,
            ms[k - 1].players@,
            b,
            pviews(ms[k].players@),
            ds[k - 1],
            ms[k - 1].config,
        );
    }
}

/// A plant started in a live round completes through the match's ticks:
/// once ticks that end no round add up to the plant time left, the round
/// is in its bomb phase with the bomb planted and counting down.
pub proof fn lemma_plant_completes_over_ticks(ms: Seq<Match>, ds: Seq<u32>)
    requires
        quiet_ticks(ms, ds),
        ds.len() > 0,
        ms[0].current_round matches Some(a) && a.phase == RoundPhase::Live && a.bomb.phase
            == BombPhase::Planting,
        total_ms(ds) >= ms[0].current_round->0.bomb.timer_ms,
    ensures
        ms.last().current_round matches Some(b) && b.phase == RoundPhase::BombPlanted
            && b.bomb.phase == BombPhase::Planted,
{
    lemma_plant_prefix(ms, ds, ds.len() as int);
    assert(ds.take(ds.len() as int) =~= ds);
}

proof fn lemma_table_fits(r: RoundMoneyRewards, result: RoundResult, ct: u32, t: u32)
    requires
        table_fits(r),
    ensures
        rewards_fit(r, result, ct, t),
{
    assert forall|l: int| loss_bonus_of(r, l) <= r.loss_bonus_increment * r.max_loss_bonus by {
        if 0 < l <= r.max_loss_bonus {
            assert(r.loss_bonus_increment * l <= r.loss_bonus_increment * r.max_loss_bonus)
                by (nonlinear_arith)
                requires
                    l <= r.max_loss_bonus,
                    0 <= r.loss_bonus_increment,
            ;
        }
    }
    assert(loss_bonus_of(r, ct as int) <= r.loss_bonus_increment * r.max_loss_bonus);
    assert(loss_bonus_of(r, t as int) <= r.loss_bonus_increment * r.max_loss_bonus);
}

proof fn lemma_dead_drops_len(ps: Seq<PlayerView>, first_id: int)
    ensures
        dead_drops(ps, first_id).len() <= ps.len(),
    decreases ps.len(),
{
    if ps.len() > 0 {
        lemma_dead_drops_len(ps.drop_last(), first_id);
    }
}

/// Leave the primary weapon of every dead player on the ground.
fn drop_dead_weapons(players: &Vec<Player>, drops: &mut DropZone)
    requires
        old(drops).issued() + players@.len() <= u32::MAX,
    ensures
        final(drops).items() == old(drops).items() + dead_drops(
            pviews(players@),
            old(drops).issued() as int,
        ),
        final(drops).issued() == old(drops).issued() + dead_drops(
            pviews(players@),
            old(drops).issued() as int,
        ).len(),
{
    let ghost ps = pviews(players@);
    let ghost first = drops.issued() as int;
    let ghost start = drops.items();
    let mut i: usize = 0;
    assert(ps.take(0) =~= Seq::<PlayerView>::empty());
    assert(start + Seq::<DroppedWeapon>::empty() =~= start);
    while i < players.len()
        invariant
            i <= players@.len(),
            ps == pviews(players@),
            first + players@.len() <= u32::MAX,
            drops.items() == start + dead_drops(ps.take(i as int), first),
            drops.issued() == first + dead_drops(ps.take(i as int), first).len(),
        decreases players@.len() - i,
    {
        let ghost pre = dead_drops(ps.take(i as int), first);
        assert(ps.take(i + 1).drop_last() =~= ps.take(i as int));
        assert(ps.take(i + 1).last() == players@[i as int]@);
        proof {
            lemma_dead_drops_len(ps.take(i as int), first);
        }
        if !players[i].is_alive() {
            if let Some(primary) = &players[i].inventory.primary {
                let w = primary.clone();
                let owner = players[i].profile.id.clone();
                drops.add(owner, w, players[i].position);
                assert(drops.items() =~= start + dead_drops(ps.take(i + 1), first));
            }
        }
        i = i + 1;
    }
    assert(ps.take(players@.len() as int) =~= ps);
}

/// Pay every player their side's reward, capped at `max`.
fn pay_players(players: &mut Vec<Player>, ct: u32, t: u32, max: u32)
    ensures
        pviews(final(players)@) == paid_all(pviews(old(players)@), ct, t, max),
{
    let ghost start = pviews(players@);
    let mut i: usize = 0;
    while i < players.len()
        invariant
            i <= players@.len(),
            players@.len() == start.len(),
            forall|j: int|
                0 <= j < i ==> #[trigger] players@[j]@ == (PlayerView {
                    money: capped_money(start[j].money, team_reward(start[j].team, ct, t), max),
                    ..start[j]
                }),
            forall|j: int| i <= j < players@.len() ==> #[trigger] players@[j]@ == start[j],
        decreases players@.len() - i,
    {
        let reward = match players[i].team {
            Team::CT => ct,
            Team::T => t,
            Team::Spectator => 0,
        };
        players[i].add_money(reward, max);
        i = i + 1;
    }
    assert(pviews(players@) =~= paid_all(start, ct, t, max));
}

fn swap_side(p: &mut Player, start: u32)
    ensures
        final(p)@ == (PlayerView {
            team: other_side(old(p).team),
            money: start,
            inventory: cleared(old(p).inventory@),
            ..old(p)@
        }),
{
    p.team = match p.team {
        Team::CT => Team::T,
        Team::T => Team::CT,
        t => t,
    };
    // Money resets to the starting amount
    p.money = start;
    // Inventory resets to knife only (fresh half)
    p.inventory.clear();
}

/// Swap CT and T sides (halftime) and reset money and inventory to
/// pistol-round values.
fn swap_teams(players: &mut Vec<Player>, start: u32)
    ensures
        pviews(final(players)@) == swapped_all(pviews(old(players)@), start),
{
    let ghost begin = pviews(players@);
    let mut i: usize = 0;
    while i < players.len()
        invariant
            i <= players@.len(),
            players@.len() == begin.len(),
            forall|j: int|
                0 <= j < i ==> #[trigger] players@[j]@ == (PlayerView {
                    team: other_side(begin[j].team),
                    money: start,
                    inventory: cleared(begin[j].inventory),
                    ..begin[j]
                }),
            forall|j: int| i <= j < players@.len() ==> #[trigger] players@[j]@ == begin[j],
        decreases players@.len() - i,
    {
        swap_side(&mut players[i], start);
        i = i + 1;
    }
    assert(pviews(players@) =~= swapped_all(begin, start));
}

fn clone_id(id: &Option<String>) -> (r: Option<String>)
    ensures
        r == *id,
{
    match id {
        Some(s) => Some(s.clone()),
        None => None,
    }
}

/// The kill reward of the weapon named `name` in the default catalog, or
/// 300 for a name it does not hold.
pub open spec fn kill_reward_of(name: Seq<char>) -> u32 {
    match first_named(default_weapons(), name) {
        Some(i) => default_weapons()[i].kill_reward,
        None => 300,
    }
}

/// The kill reward a match pays is the catalog's kill reward of the weapon
/// used (every default weapon has its own entry), and 300 for a weapon the
/// catalog does not hold.
pub proof fn lemma_kill_reward_is_the_weapons(name: Seq<char>)
    ensures
        forall|i: int|
            0 <= i < default_weapons().len() && #[trigger] default_weapons()[i].name == name
                ==> kill_reward_of(name) == default_weapons()[i].kill_reward,
        (forall|i: int| 0 <= i < default_weapons().len() ==> #[trigger] default_weapons()[i].name != name)
            ==> kill_reward_of(name) == 300,
{
    crate::weapons::catalog::lemma_first_named(default_weapons(), name);
    crate::weapons::catalog::lemma_default_weapon_names_distinct();
    assert forall|i: int|
        0 <= i < default_weapons().len() && #[trigger] default_weapons()[i].name == name implies kill_reward_of(
        name,
    ) == default_weapons()[i].kill_reward by {
        let f = first_named(default_weapons(), name);
        if let Some(k) = f {
            if k < i {
                assert(default_weapons()[k].name != default_weapons()[i].name);
            } else if i < k {
                assert(default_weapons()[i].name != name);
            }
        }
    }
}

/// `ps` with the first player named `id` (if any) credited a kill: paid
/// `reward` (capped at `max`) and one more kill this round.
pub open spec fn credit_kill(ps: Seq<PlayerView>, id: Seq<char>, reward: u32, max: u32) -> Seq<PlayerView> {
    match first_player(ps, id) {
        Some(k) => ps.update(
            k,
            PlayerView {
                money: capped_money(ps[k].money, reward, max),
                round_kills: sat_add(ps[k].round_kills, 1),
                ..ps[k]
            },
        ),
        None => ps,
    }
}

/// `ps` with the first player named `id` (if any) charged one more death.
pub open spec fn charge_death(ps: Seq<PlayerView>, id: Seq<char>) -> Seq<PlayerView> {
    match first_player(ps, id) {
        Some(k) => ps.update(k, PlayerView { round_deaths: sat_add(ps[k].round_deaths, 1), ..ps[k] }),
        None => ps,
    }
}

/// Round `b` is `a` with its kill log aside.
pub open spec fn same_round_but_kills(a: Round, b: Round) -> bool {
    &&& b.number == a.number
    &&& b.phase == a.phase
    &&& b.time_remaining_ms == a.time_remaining_ms
    &&& b.result == a.result
    &&& b.bomb == a.bomb
    &&& b.grenades.live() == a.grenades.live()
    &&& b.grenades.issued() == a.grenades.issued()
    &&& b.mvp_id == a.mvp_id
}

/// `b` is `a` with its players and current round aside.
pub open spec fn same_but_play(a: Match, b: Match) -> bool {
    &&& same_setup(a, b)
    &&& b.score == a.score
    &&& b.state == a.state
    &&& b.round_number == a.round_number
    &&& b.match_time_ms == a.match_time_ms
    &&& b.round_history@ == a.round_history@
    &&& b.drops == a.drops
    &&& b.ct_consecutive_losses == a.ct_consecutive_losses
    &&& b.t_consecutive_losses == a.t_consecutive_losses
}

fn credit_killer(p: &mut Player, reward: u32, max: u32)
    ensures
        final(p)@ == (PlayerView {
            money: capped_money(old(p).money, reward, max),
            round_kills: sat_add(old(p).round_kills, 1),
            ..old(p)@
        }),
{
    p.add_money(reward, max);
    p.round_kills = p.round_kills.saturating_add(1);
}

fn charge_victim(p: &mut Player)
    ensures
        final(p)@ == (PlayerView { round_deaths: sat_add(old(p).round_deaths, 1), ..old(p)@ }),
{
    p.round_deaths = p.round_deaths.saturating_add(1);
}

/// The end of a round gives the winning side exactly one more round and
/// restarts its losing streak, leaves the other side's score alone, and
/// records one summary carrying the new score; once a side has the rounds
/// to win, or the last round is played, the match is over.
pub proof fn lemma_round_end_scoring(m: Match, result: RoundResult, post: Match)
    requires
        round_end_rel(m, result, post),
        m.score.ct < u32::MAX,
        m.score.t < u32::MAX,
    ensures
        result is CTWin ==> post.score.ct == m.score.ct + 1 && post.score.t == m.score.t
            && post.ct_consecutive_losses == 0,
        result is TWin ==> post.score.t == m.score.t + 1 && post.score.ct == m.score.ct
            && post.t_consecutive_losses == 0,
        result is InProgress ==> post.score == m.score,
        post.round_history@.len() == m.round_history@.len() + 1,
        post.round_history@.last().ct_score == post.score.ct,
        post.round_history@.last().t_score == post.score.t,
        post.round_history@.last().result == result,
        (post.score.ct >= m.config.rounds_to_win || post.score.t >= m.config.rounds_to_win
            || m.round_number >= m.config.max_rounds) ==> post.state == MatchState::Ended,
{
}

/// At halftime the sides swap: every player moves to the other side with
/// the starting money and only a knife.
pub proof fn lemma_halftime_swaps_sides(m: Match, result: RoundResult, post: Match, i: int)
    requires
        round_end_rel(m, result, post),
        m.state == MatchState::Live,
        post.state == MatchState::Halftime,
        0 <= i < m.players@.len(),
    ensures
        pviews(post.players@).len() == m.players@.len(),
        pviews(post.players@)[i].team == other_side(m.players@[i].team),
        pviews(post.players@)[i].money == m.config.start_money,
        pviews(post.players@)[i].inventory == cleared(m.players@[i].inventory@),
        pviews(post.players@)[i].profile == m.players@[i].profile,
{
    let paid = rewarded_players(m, result);
    assert(paid[i].team == m.players@[i].team);
}

/// The roster after `player` joins it: the player with the same id, if
/// any, is replaced, else `player` joins at the end.
pub open spec fn joined(ps: Seq<Player>, player: Player) -> Seq<Player> {
    match first_player(pviews(ps), player.profile.id@) {
        Some(k) => ps.update(k, player),
        None => ps.push(player),
    }
}

/// A match keeps one entry per player: joining never adds a second player
/// with an id already present, and the joining player is then in the match.
pub proof fn lemma_join_keeps_one_entry_per_player(ps: Seq<Player>, player: Player)
    requires
        ids_unique(pviews(ps)),
    ensures
        ids_unique(pviews(joined(ps, player))),
        exists|i: int|
            0 <= i < joined(ps, player).len() && #[trigger] joined(ps, player)[i].profile.id@
                == player.profile.id@,
{
    lemma_first_player(pviews(ps), player.profile.id@);
    let r = joined(ps, player);
    let vs = pviews(r);
    match first_player(pviews(ps), player.profile.id@) {
        Some(k) => {
            assert(r[k].profile.id@ == player.profile.id@);
            assert forall|i: int, j: int|
                0 <= i < vs.len() && 0 <= j < vs.len() && i != j implies #[trigger] vs[i].profile.id@
                != #[trigger] vs[j].profile.id@ by {
                assert(vs[i] == r[i]@ && vs[j] == r[j]@);
                if i != k && j != k {
                    assert(pviews(ps)[i] == ps[i]@ && pviews(ps)[j] == ps[j]@);
                } else if i == k {
                    assert(pviews(ps)[j] == ps[j]@ && pviews(ps)[k] == ps[k]@);
                } else {
                    assert(pviews(ps)[i] == ps[i]@ && pviews(ps)[k] == ps[k]@);
                }
            }
        },
        None => {
            assert(r[ps.len() as int].profile.id@ == player.profile.id@);
            assert forall|i: int, j: int|
                0 <= i < vs.len() && 0 <= j < vs.len() && i != j implies #[trigger] vs[i].profile.id@
                != #[trigger] vs[j].profile.id@ by {
                assert(vs[i] == r[i]@ && vs[j] == r[j]@);
                if i < ps.len() {
                    assert(pviews(ps)[i] == ps[i]@);
                }
                if j < ps.len() {
                    assert(pviews(ps)[j] == ps[j]@);
                }
            }
        },
    }
}

/// After a round is paid out, nobody holds more than the money cap (at
/// halftime everyone holds the starting money instead).
pub proof fn lemma_round_end_caps_money(m: Match, result: RoundResult, post: Match, i: int)
    requires
        round_end_rel(m, result, post),
        m.state == MatchState::Live,
        0 <= i < post.players@.len(),
    ensures
        post.state == MatchState::Halftime ==> pviews(post.players@)[i].money == m.config.start_money,
        post.state != MatchState::Halftime ==> pviews(post.players@)[i].money <= m.config.max_money,
{
    let paid = rewarded_players(m, result);
    let ps = pviews(m.players@);
    assert forall|j: int| 0 <= j < paid.len() implies #[trigger] paid[j].money <= m.config.max_money by {
        assert(paid[j].money == capped_money(
            ps[j].money,
            team_reward(ps[j].team, round_rewards(
                m.reward_calculator.rewards,
                result,
                m.ct_consecutive_losses,
                m.t_consecutive_losses,
            ).0.total_reward, round_rewards(
                m.reward_calculator.rewards,
                result,
                m.ct_consecutive_losses,
                m.t_consecutive_losses,
            ).1.total_reward),
            m.config.max_money,
        ));
    }
    let score = scored(m.score, result);
    let after = pviews(post.players@);
    assert(after.len() == post.players@.len());
    assert(paid.len() == m.players@.len());
    if !match_over(m, score) && m.round_number != m.config.max_rounds / 2 {
        let reset = reset_all(paid, m.map, post.round_number);
        assert(reset.len() == paid.len());
        if forall|j: int| 0 <= j < reset.len() ==> #[trigger] reset[j].team != Team::T {
            assert(after == reset);
        } else {
            let c = choose|c: int|
                0 <= c < reset.len() && #[trigger] reset[c].team == Team::T && after == reset.update(
                    c,
                    PlayerView { is_carrying_bomb: true, ..reset[c] },
                );
            assert(after[i].money == reset[i].money);
        }
        assert(reset[i].money == paid[i].money);
    }
}

impl Match {
    /// A match waiting for players, with a fresh random id.
    pub fn new(config: MatchConfig, map: MapDef) -> (m: Self)
        ensures
            m.id@.len() == 36,
            m.config == config,
            m.map == map,
            m.players@.len() == 0,
            m.score == (Score { ct: 0, t: 0 }),
            m.state == MatchState::WaitingForPlayers,
            m.current_round is None,
            m.round_number == 0,
            m.match_time_ms == 0,
            m.round_history@.len() == 0,
            m.drops.items().len() == 0,
            m.drops.issued() == 0,
            m.ct_consecutive_losses == 0,
            m.t_consecutive_losses == 0,
            m.reward_calculator.rewards == RoundMoneyRewards::spec_default(),
    {
        Match {
            id: new_uuid_string(),
            reward_calculator: RoundRewardCalculator::new(RoundMoneyRewards::default()),
            config,
            map,
            players: Vec::new(),
            score: Score::default(),
            state: MatchState::WaitingForPlayers,
            current_round: None,
            round_number: 0,
            match_time_ms: 0,
            round_history: Vec::new(),
            drops: DropZone::new(),
            ct_consecutive_losses: 0,
            t_consecutive_losses: 0,
        }
    }

    /// Add a player before the match starts; a player already present under
    /// the same id is replaced.
    pub fn add_player(&mut self, player: Player) -> (r: Result<(), GameError>)
        ensures
            (old(self).state == MatchState::WaitingForPlayers || old(self).state
                == MatchState::Warmup) ==> {
                &&& r is Ok
                &&& final(self).players@ == joined(old(self).players@, player)
            },
            !(old(self).state == MatchState::WaitingForPlayers || old(self).state
                == MatchState::Warmup) ==> {
                &&& (r matches Err(GameError::InvalidAction(m)) && m@ == "Match already started"@)
                &&& final(self).players@ == old(self).players@
            },
            same_setup(*old(self), *final(self)),
            final(self).score == old(self).score,
            final(self).state == old(self).state,
            final(self).current_round == old(self).current_round,
            final(self).round_number == old(self).round_number,
            final(self).match_time_ms == old(self).match_time_ms,
            final(self).round_history@ == old(self).round_history@,
            final(self).drops == old(self).drops,
            final(self).ct_consecutive_losses == old(self).ct_consecutive_losses,
            final(self).t_consecutive_losses == old(self).t_consecutive_losses,
            ids_unique(pviews(old(self).players@)) ==> ids_unique(pviews(final(self).players@)),
    {
        if self.state != MatchState::WaitingForPlayers && self.state != MatchState::Warmup {
            return Err(GameError::InvalidAction("Match already started".to_owned()));
        }
        proof {
            if ids_unique(pviews(self.players@)) {
                lemma_join_keeps_one_entry_per_player(self.players@, player);
            }
        }
        match find_player(&self.players, player.profile.id.as_str()) {
            Some(k) => {
                proof {
                    lemma_first_player(pviews(self.players@), player.profile.id@);
                }
                self.players.set(k, player);
            },
            None => {
                self.players.push(player);
            },
        }
        Ok(())
    }

    /// Start the next round: advance the round number, clear the ground,
    /// reset the players at their spawns and hand out the bomb.
    fn begin_round(&mut self)
        requires
            old(self).round_number < u32::MAX,
        ensures
            round_begun(*old(self), *final(self)),
    {
        self.round_number = self.round_number + 1;
        let round = Round::new(self.round_number, &self.config);
        // Clear dropped weapons from previous round
        self.drops.clear();
        // Reset player state for the new round
        reset_players(&mut self.players, &self.map, self.round_number);
        // Assign bomb carrier: random T-side player
        assign_bomb_carrier(&mut self.players);
        self.current_round = Some(round);
    }

    /// Advance match time by `delta_ms`; returns the result of a round that
    /// ended in this tick.
    pub fn tick(&mut self, delta_ms: u32) -> (r: Option<RoundResult>)
        requires
            table_fits(old(self).reward_calculator.rewards),
            old(self).match_time_ms + delta_ms <= u64::MAX,
            old(self).score.ct < u32::MAX,
            old(self).score.t < u32::MAX,
            old(self).drops.issued() + old(self).players@.len() <= u32::MAX,
        ensures
            old(self).state != MatchState::Live ==> r is None && *final(self) == *old(self),
            old(self).state == MatchState::Live && old(self).current_round is None ==> r is None
                && *final(self) == (Match {
                match_time_ms: (old(self).match_time_ms + delta_ms) as u64,
                ..*old(self)
            }),
            old(self).state == MatchState::Live && old(self).current_round is Some ==> exists|
                mid: Match,
            |
                #[trigger] round_ticked(*old(self), mid, delta_ms, r) && match r {
                    Some(res) => round_end_rel(mid, res, *final(self)),
                    None => *final(self) == mid,
                },
    {
        if self.state != MatchState::Live {
            return None;
        }
        let ghost m0 = *self;
        self.match_time_ms = self.match_time_ms + delta_ms as u64;
        // The round tick needs mutable players for grenade effects
        let round_ended = match self.current_round.take() {
            Some(mut round) => {
                let res = round.tick(delta_ms, &mut self.players, &self.config, &self.map);
                self.current_round = Some(round);
                res
            },
            None => {
                return None;
            },
        };
        let ghost mid = *self;
        assert(round_ticked(m0, mid, delta_ms, round_ended));
        if let Some(result) = round_ended {
            self.handle_round_end(result);
            return Some(result);
        }
        None
    }

    /// Score the round, record it, drop the dead players' weapons, pay
    /// everyone, and then end the match, break for halftime or begin the
    /// next round.
    fn handle_round_end(&mut self, result: RoundResult)
        requires
            table_fits(old(self).reward_calculator.rewards),
            old(self).score.ct < u32::MAX,
            old(self).score.t < u32::MAX,
            old(self).drops.issued() + old(self).players@.len() <= u32::MAX,
        ensures
            round_end_rel(*old(self), result, *final(self)),
    {
        let ghost m0 = *self;
        // The loss streaks going into this round decide the loss bonus.
        let ct_losses_before = self.ct_consecutive_losses;
        let t_losses_before = self.t_consecutive_losses;
        // Collect MVP info before mutating
        let mvp_id: Option<String> = match &self.current_round {
            Some(rd) => clone_id(&rd.mvp_id),
            None => None,
        };
        let mvp_nickname: Option<String> = match &mvp_id {
            Some(id) => match find_player(&self.players, id.as_str()) {
                Some(k) => {
                    proof {
                        lemma_first_player(pviews(self.players@), id@);
                    }
                    Some(self.players[k].profile.nickname.clone())
                },
                None => None,
            },
            None => None,
        };
        // Update score
        match result {
            RoundResult::CTWin(_) => {
                self.score.ct = self.score.ct + 1;
                self.ct_consecutive_losses = 0;
                self.t_consecutive_losses = self.t_consecutive_losses.saturating_add(1);
            },
            RoundResult::TWin(_) => {
                self.score.t = self.score.t + 1;
                self.t_consecutive_losses = 0;
                self.ct_consecutive_losses = self.ct_consecutive_losses.saturating_add(1);
            },
            RoundResult::InProgress => {},
        }
        // Record round summary
        self.round_history.push(
            RoundSummary {
                round_number: self.round_number,
                result,
                mvp_id,
                mvp_nickname,
                ct_score: self.score.ct,
                t_score: self.score.t,
            },
        );
        // Drop weapons from dead players
        drop_dead_weapons(&self.players, &mut self.drops);
        // Distribute end-of-round money
        proof {
            lemma_table_fits(
                self.reward_calculator.rewards,
                result,
                ct_losses_before,
                t_losses_before,
            );
        }
        let (ct_reward, t_reward) = self.reward_calculator.compute(
            result,
            ct_losses_before,
            t_losses_before,
        );
        let max_money = self.config.max_money;
        pay_players(&mut self.players, ct_reward.total_reward, t_reward.total_reward, max_money);
        // Check match win condition
        if self.score.ct >= self.config.rounds_to_win || self.score.t >= self.config.rounds_to_win
            || self.round_number >= self.config.max_rounds {
            self.state = MatchState::Ended;
            return ;
        }
        // Halftime
        let half = self.config.max_rounds / 2;
        if self.round_number == half {
            self.state = MatchState::Halftime;
            swap_teams(&mut self.players, self.config.start_money);
            return ;
        }
        // Start next round
        self.begin_round();
    }

    /// Record a kill in the current round: the killer is paid the weapon's
    /// kill reward and credited the kill, the victim is charged a death,
    /// and the kill joins the round's log.
    pub fn record_kill(
        &mut self,
        killer_id: &str,
        victim_id: &str,
        weapon: &str,
        hit_zone: HitZone,
        is_headshot: bool,
        timestamp_ms: u64,
    ) -> (r: Result<(), GameError>)
        ensures
            r is Ok,
            same_but_play(*old(self), *final(self)),
            pviews(final(self).players@) == charge_death(
                credit_kill(
                    pviews(old(self).players@),
                    killer_id@,
                    kill_reward_of(weapon@),
                    old(self).config.max_money,
                ),
                victim_id@,
            ),
            match old(self).current_round {
                Some(a) => final(self).current_round matches Some(b) && same_round_but_kills(a, b)
                    && b.kill_log@.drop_last() == a.kill_log@ && b.kill_log@.len() == a.kill_log@.len()
                    + 1 && b.kill_log@.last().killer_id@ == killer_id@
                    && b.kill_log@.last().victim_id@ == victim_id@
                    && b.kill_log@.last().weapon_name@ == weapon@
                    && b.kill_log@.last().hit_zone == hit_zone
                    && b.kill_log@.last().is_headshot == is_headshot
                    && b.kill_log@.last().timestamp_ms == timestamp_ms,
                None => final(self).current_round is None,
            },
    {
        let kill_reward = self.config_kill_reward(weapon);
        let max_money = self.config.max_money;
        let ghost ps0 = pviews(self.players@);
        if let Some(k) = find_player(&self.players, killer_id) {
            proof {
                lemma_first_player(ps0, killer_id@);
            }
            credit_killer(&mut self.players[k], kill_reward, max_money);
            assert(pviews(self.players@) =~= credit_kill(ps0, killer_id@, kill_reward, max_money));
        } else {
            assert(pviews(self.players@) =~= credit_kill(ps0, killer_id@, kill_reward, max_money));
        }
        let ghost ps1 = pviews(self.players@);
        if let Some(k) = find_player(&self.players, victim_id) {
            proof {
                lemma_first_player(ps1, victim_id@);
            }
            charge_victim(&mut self.players[k]);
            assert(pviews(self.players@) =~= charge_death(ps1, victim_id@));
        }
        let event = KillEvent {
            killer_id: killer_id.to_owned(),
            victim_id: victim_id.to_owned(),
            weapon_name: weapon.to_owned(),
            hit_zone,
            is_headshot,
            timestamp_ms,
        };
        match self.current_round.take() {
            Some(mut round) => {
                let ghost a = round;
                round.record_kill(event);
                assert(round.kill_log@.drop_last() =~= a.kill_log@);
                self.current_round = Some(round);
            },
            None => {},
        }
        Ok(())
    }

    /// The kill reward of the weapon named `weapon_name`; 300 when the
    /// catalog does not hold it.
    fn config_kill_reward(&self, weapon_name: &str) -> (r: u32)
        ensures
            r == kill_reward_of(weapon_name@),
    {
        let cat = WeaponCatalog::new();
        match cat.get(weapon_name) {
            Some(w) => w.kill_reward,
            None => 300,
        }
    }

    /// Apply a bomb action (plant / defuse / cancel) to the current round;
    /// a bomb that ends up planted moves a live round into its bomb phase.
    pub fn apply_bomb_action(&mut self, action: BombAction) -> (r: Result<(), GameError>)
        ensures
            same_but_play(*old(self), *final(self)),
            final(self).players@ == old(self).players@,
            match old(self).current_round {
                None => (r matches Err(GameError::InvalidAction(m)) && m@ == "No active round"@)
                    && final(self).current_round is None,
                Some(a) => match bomb_apply(a.bomb, action, old(self).map) {
                    Err(e) => r == Err::<(), GameError>(e) && final(self).current_round == Some(a),
                    Ok(nb) => r is Ok && (final(self).current_round matches Some(b) && b.bomb == nb
                        && b.phase == (if nb.phase == BombPhase::Planted && a.phase
                        == RoundPhase::Live {
                        RoundPhase::BombPlanted
                    } else {
                        a.phase
                    }) && b.number == a.number && b.time_remaining_ms == a.time_remaining_ms
                        && b.result == a.result && b.kill_log@ == a.kill_log@ && b.grenades.live()
                        == a.grenades.live() && b.grenades.issued() == a.grenades.issued()
                        && b.mvp_id == a.mvp_id),
                },
            },
    {
        let mut round = match self.current_round.take() {
            Some(rd) => rd,
            None => {
                return Err(GameError::InvalidAction("No active round".to_owned()));
            },
        };
        let applied = round.bomb.apply(action, &self.map);
        let out = match applied {
            Ok(()) => {
                if round.bomb.phase == BombPhase::Planted {
                    round.on_bomb_planted();
                }
                Ok(())
            },
            Err(e) => Err(e),
        };
        self.current_round = Some(round);
        out
    }

    /// Start a match that is waiting for players.
    pub fn start(&mut self) -> (r: Result<(), GameError>)
        requires
            old(self).state == MatchState::WaitingForPlayers ==> old(self).round_number < u32::MAX,
        ensures
            old(self).state == MatchState::WaitingForPlayers ==> r is Ok && round_begun(
                Match { state: MatchState::Live, ..*old(self) },
                *final(self),
            ),
            old(self).state != MatchState::WaitingForPlayers ==> (r matches Err(
                GameError::InvalidAction(m),
            ) && m@ == "Match already started"@) && *final(self) == *old(self),
    {
        if self.state != MatchState::WaitingForPlayers {
            return Err(GameError::InvalidAction("Match already started".to_owned()));
        }
        self.state = MatchState::Live;
        self.begin_round();
        Ok(())
    }

    /// Resume play after halftime with the next round.
    pub fn resume_from_halftime(&mut self) -> (r: Result<(), GameError>)
        requires
            old(self).state == MatchState::Halftime ==> old(self).round_number < u32::MAX,
        ensures
            old(self).state == MatchState::Halftime ==> r is Ok && round_begun(
                Match { state: MatchState::Live, ..*old(self) },
                *final(self),
            ),
            old(self).state != MatchState::Halftime ==> (r matches Err(
                GameError::InvalidAction(m),
            ) && m@ == "Not at halftime"@) && *final(self) == *old(self),
    {
        if self.state != MatchState::Halftime {
            return Err(GameError::InvalidAction("Not at halftime".to_owned()));
        }
        self.state = MatchState::Live;
        self.begin_round();
        Ok(())
    }

    /// Whether the match is over.
    pub fn is_ended(&self) -> (b: bool)
        ensures
            b == (self.state == MatchState::Ended),
    {
        self.state == MatchState::Ended
    }

    /// The side with more rounds once the match is over; none on a draw or
    /// before the end.
    pub fn winner(&self) -> (w: Option<Team>)
        ensures
            w == if self.state != MatchState::Ended {
                None
            } else if self.score.ct > self.score.t {
                Some(Team::CT)
            } else if self.score.t > self.score.ct {
                Some(Team::T)
            } else {
                None
            },
    {
        if self.state != MatchState::Ended {
            return None;
        }
        if self.score.ct > self.score.t {
            Some(Team::CT)
        } else if self.score.t > self.score.ct {
            Some(Team::T)
        } else {
            None
        }
    }

    /// The summary of the latest completed round (with its MVP), if any.
    pub fn last_mvp(&self) -> (r: Option<&RoundSummary>)
        ensures
            self.round_history@.len() == 0 ==> r is None,
            self.round_history@.len() > 0 ==> r == Some(&self.round_history@.last()),
    {
        let n = self.round_history.len();
        if n == 0 {
            None
        } else {
            Some(&self.round_history[n - 1])
        }
    }
}

} // verus!
