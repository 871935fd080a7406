use vstd::prelude::*;
use crate::game::grenade::{
    all_events, live_after, GrenadeEffectEvent, GrenadeEffectView, GrenadeSim, GrenadeType,
    ThrownGrenade, GrenadeState, fuse_of,
};
use crate::game::types::{
    CTWinReason, KillEvent, MatchConfig, RoundPhase, RoundResult, TWinReason, Team, Vec3,
};
use crate::map::bomb::{bomb_after, bomb_tick_result, BombPhase, BombState};
use crate::map::types::MapDef;
use crate::player::types::{after_damage, Player, PlayerState, PlayerView};

verus! {

/// The views of `s`.
pub open spec fn pviews(s: Seq<Player>) -> Seq<PlayerView> {
    s.map_values(|p: Player| p@)
}

/// The index of the first player of `ps` with id `id`, if any.
pub open spec fn first_player(ps: Seq<PlayerView>, id: Seq<char>) -> Option<int>
    decreases ps.len(),
{
    if ps.len() == 0 {
        None
    } else if ps[0].profile.id@ == id {
        Some(0)
    } else {
        match first_player(ps.drop_first(), id) {
            Some(i) => Some(i + 1),
            None => None,
        }
    }
}

/// Where `first_player` finds a player, it carries the id and no earlier
/// one does; where it finds none, no player carries it.
pub proof fn lemma_first_player(ps: Seq<PlayerView>, id: Seq<char>)
    ensures
        first_player(ps, id) matches Some(i) ==> 0 <= i < ps.len() && ps[i].profile.id@ == id
            && forall|j: int| 0 <= j < i ==> #[trigger] ps[j].profile.id@ != id,
        first_player(ps, id) is None ==> forall|j: int|
            0 <= j < ps.len() ==> #[trigger] ps[j].profile.id@ != id,
    decreases ps.len(),
{
    if ps.len() > 0 && ps[0].profile.id@ != id {
        lemma_first_player(ps.drop_first(), id);
        assert forall|j: int| 0 < j < ps.len() implies ps[j] == ps.drop_first()[j - 1] by {}
    }
}

/// The index of the first player of `players` with id `id`, if any.
pub fn find_player(players: &Vec<Player>, id: &str) -> (r: Option<usize>)
    ensures
        match r {
            Some(k) => first_player(pviews(players@), id@) == Some(k as int),
            None => first_player(pviews(players@), id@) is None,
        },
{
    let ghost ps = pviews(players@);
    proof {
        lemma_first_player(ps, id@);
    }
    let mut i: usize = 0;
    while i < players.len()
        invariant
            i <= players@.len(),
            ps == pviews(players@),
            forall|j: int| 0 <= j < i ==> #[trigger] ps[j].profile.id@ != id@,
            first_player(ps, id@) matches Some(k) ==> 0 <= k < ps.len() && ps[k].profile.id@ == id@
                && forall|j: int| 0 <= j < k ==> #[trigger] ps[j].profile.id@ != id@,
            first_player(ps, id@) is None ==> forall|j: int|
                0 <= j < ps.len() ==> #[trigger] ps[j].profile.id@ != id@,
        decreases players@.len() - i,
    {
        assert(ps[i as int] == players@[i as int]@);
        if crate::util::str_eq(players[i].profile.id.as_str(), id) {
            assert(ps[i as int].profile.id@ == id@);
            proof {
                if let Some(k) = first_player(ps, id@) {
                    assert(!(k < i));
                    assert(!(i < k));
                }
            }
            return Some(i);
        }
        i = i + 1;
    }
    proof {
        if let Some(k) = first_player(ps, id@) {
            assert(ps[k].profile.id@ != id@);
        }
    }
    None
}

/// `ps` after the first player with id `id` (if any) takes `dmg`.
pub open spec fn damage_one(ps: Seq<PlayerView>, id: Seq<char>, dmg: u32) -> Seq<PlayerView> {
    match first_player(ps, id) {
        Some(i) => ps.update(i, after_damage(ps[i], dmg)),
        None => ps,
    }
}

/// `ps` after the first player with id `id` (if any) is blinded for `ms`.
pub open spec fn blind_one(ps: Seq<PlayerView>, id: Seq<char>, ms: u32) -> Seq<PlayerView> {
    match first_player(ps, id) {
        Some(i) => ps.update(i, blinded(ps[i], ms)),
        None => ps,
    }
}

/// The damage entries of an effect applied in order.
pub open spec fn apply_damage_entries(ps: Seq<PlayerView>, entries: Seq<(String, u32)>) -> Seq<PlayerView>
    decreases entries.len(),
{
    if entries.len() == 0 {
        ps
    } else {
        damage_one(apply_damage_entries(ps, entries.drop_last()), entries.last().0@, entries.last().1)
    }
}

/// The player blinded for at least `ms` milliseconds.
pub open spec fn blinded(p: PlayerView, ms: u32) -> PlayerView {
    PlayerView {
        blind_timer_ms: if p.blind_timer_ms >= ms {
            p.blind_timer_ms
        } else {
            ms
        },
        ..p
    }
}

/// The blindness entries of an effect applied in order.
pub open spec fn apply_blind_entries(ps: Seq<PlayerView>, entries: Seq<(String, u32)>) -> Seq<PlayerView>
    decreases entries.len(),
{
    if entries.len() == 0 {
        ps
    } else {
        blind_one(apply_blind_entries(ps, entries.drop_last()), entries.last().0@, entries.last().1)
    }
}

/// Grenade effects applied in order: each event's damage, then its blindness.
pub open spec fn apply_effects(ps: Seq<PlayerView>, events: Seq<GrenadeEffectView>) -> Seq<PlayerView>
    decreases events.len(),
{
    if events.len() == 0 {
        ps
    } else {
        let e = events.last();
        apply_blind_entries(apply_damage_entries(apply_effects(ps, events.drop_last()), e.damage_map), e.blind_map)
    }
}

/// `t` reduced by `delta`, stopping at zero.
pub open spec fn tick_down(t: u32, delta: u32) -> u32 {
    if t > delta {
        (t - delta) as u32
    } else {
        0
    }
}

/// The player with blindness and burning run down by `delta` milliseconds.
pub open spec fn status_decayed(p: PlayerView, delta: u32) -> PlayerView {
    PlayerView {
        blind_timer_ms: tick_down(p.blind_timer_ms, delta),
        on_fire_timer_ms: tick_down(p.on_fire_timer_ms, delta),
        ..p
    }
}

/// Some player of `ps` on `team` is alive.
pub open spec fn team_alive(ps: Seq<PlayerView>, team: Team) -> bool {
    exists|i: int| 0 <= i < ps.len() && ps[i].team == team && ps[i].state == PlayerState::Alive
}

/// The round result when a side has no living player: T win if no CT is
/// alive, else CT win if no T is alive.
pub open spec fn elimination(ps: Seq<PlayerView>) -> Option<RoundResult> {
    if !team_alive(ps, Team::CT) {
        Some(RoundResult::TWin(TWinReason::CTsEliminated))
    } else if !team_alive(ps, Team::T) {
        Some(RoundResult::CTWin(CTWinReason::TerrorsEliminated))
    } else {
        None
    }
}

/// Player `a` ranks at least as high as `b` for MVP: more kills, or as many
/// kills and at least as much damage.
pub open spec fn mvp_key_ge(a: PlayerView, b: PlayerView) -> bool {
    a.round_kills > b.round_kills || (a.round_kills == b.round_kills && a.round_damage
        >= b.round_damage)
}

/// The best player of `team` in `ps` (the last of equally good ones), if any.
pub open spec fn best_of_team(ps: Seq<PlayerView>, team: Team) -> Option<int>
    decreases ps.len(),
{
    if ps.len() == 0 {
        None
    } else {
        let rest = best_of_team(ps.drop_last(), team);
        let k = ps.len() - 1;
        if ps[k].team == team && (rest matches Some(j) ==> mvp_key_ge(ps[k], ps[j])) {
            Some(k)
        } else {
            rest
        }
    }
}

/// The round MVP: the defuser of a defused bomb, the planter of an exploded
/// one, else the best player of the winning team.
pub open spec fn mvp_of(result: RoundResult, ps: Seq<PlayerView>, bomb: BombState) -> Option<String> {
    let team = match result {
        RoundResult::CTWin(_) => Team::CT,
        _ => Team::T,
    };
    if result is InProgress {
        None
    } else if result == RoundResult::CTWin(CTWinReason::BombDefused) && bomb.defuser_id is Some {
        bomb.defuser_id
    } else if result == RoundResult::TWin(TWinReason::BombExploded) && bomb.planter_id is Some {
        bomb.planter_id
    } else {
        match best_of_team(ps, team) {
            Some(i) => Some(ps[i].profile.id),
            None => None,
        }
    }
}


/// The best player of a team is a player of that team with the most kills,
/// and of those with that many kills, with the most round damage; there is
/// none exactly when the team has no player.
pub proof fn lemma_best_of_team_is_best(ps: Seq<PlayerView>, team: Team)
    ensures
        best_of_team(ps, team) is None <==> forall|j: int| 0 <= j < ps.len() ==> #[trigger] ps[j].team != team,
        best_of_team(ps, team) matches Some(i) ==> {
            &&& 0 <= i < ps.len()
            &&& ps[i].team == team
            &&& forall|j: int|
                0 <= j < ps.len() && #[trigger] ps[j].team == team ==> ps[j].round_kills < ps[i].round_kills
                    || (ps[j].round_kills == ps[i].round_kills && ps[j].round_damage
                    <= ps[i].round_damage)
        },
    decreases ps.len(),
{
    if ps.len() > 0 {
        let d = ps.drop_last();
        lemma_best_of_team_is_best(d, team);
        let k = ps.len() - 1;
        assert forall|j: int| 0 <= j < d.len() implies d[j] == ps[j] by {}
        match best_of_team(ps, team) {
            Some(i) => {
                assert forall|j: int|
                    0 <= j < ps.len() && #[trigger] ps[j].team == team implies ps[j].round_kills
                    < ps[i].round_kills || (ps[j].round_kills == ps[i].round_kills && ps[j].round_damage
                    <= ps[i].round_damage) by {
                    if j < k {
                        assert(d[j].team == team);
                    }
                }
            },
            None => {
                assert forall|j: int| 0 <= j < ps.len() implies #[trigger] ps[j].team != team by {
                    if j < k {
                        assert(d[j] == ps[j]);
                    }
                }
            },
        }
    }
}

/// The round MVP. A defused bomb makes its defuser the MVP and an exploded
/// one its planter. Otherwise the MVP is a player of the winning side with
/// the most kills, and among those with as many kills, the most round
/// damage; a round still in progress has none, and so does a winning side
/// without players.
pub proof fn lemma_mvp_is_the_best_winner(result: RoundResult, ps: Seq<PlayerView>, bomb: BombState)
    ensures
        result is InProgress ==> mvp_of(result, ps, bomb) is None,
        result == RoundResult::CTWin(CTWinReason::BombDefused) && bomb.defuser_id is Some ==> mvp_of(
            result,
            ps,
            bomb,
        ) == bomb.defuser_id,
        result == RoundResult::TWin(TWinReason::BombExploded) && bomb.planter_id is Some ==> mvp_of(
            result,
            ps,
            bomb,
        ) == bomb.planter_id,
        ({
            let winner = if result is CTWin {
                Team::CT
            } else {
                Team::T
            };
            let credited = (result == RoundResult::CTWin(CTWinReason::BombDefused)
                && bomb.defuser_id is Some) || (result == RoundResult::TWin(TWinReason::BombExploded)
                && bomb.planter_id is Some);
            !(result is InProgress) && !credited ==> match mvp_of(result, ps, bomb) {
                Some(id) => exists|i: int|
                    0 <= i < ps.len() && #[trigger] ps[i].profile.id == id && ps[i].team == winner
                        && forall|j: int|
                        0 <= j < ps.len() && #[trigger] ps[j].team == winner ==> ps[j].round_kills
                            < ps[i].round_kills || (ps[j].round_kills == ps[i].round_kills
                            && ps[j].round_damage <= ps[i].round_damage),
                None => forall|j: int| 0 <= j < ps.len() ==> #[trigger] ps[j].team != winner,
            }
        }),
{
    let winner = if result is CTWin {
        Team::CT
    } else {
        Team::T
    };
    lemma_best_of_team_is_best(ps, winner);
    if let Some(i) = best_of_team(ps, winner) {
        assert(ps[i].profile.id == ps[i].profile.id);
    }
}

/// Every player of `ps` with blindness and burning run down by `delta`.
pub open spec fn decay_all(ps: Seq<PlayerView>, delta: u32) -> Seq<PlayerView> {
    ps.map_values(|p: PlayerView| status_decayed(p, delta))
}

proof fn lemma_pviews_update(s: Seq<Player>, k: int, p: Player)
    requires
        0 <= k < s.len(),
    ensures
        pviews(s.update(k, p)) == pviews(s).update(k, p@),
{
    assert(pviews(s.update(k, p)) =~= pviews(s).update(k, p@));
}

fn blind_at_least(p: &mut Player, ms: u32)
    ensures
        final(p)@ == blinded(old(p)@, ms),
{
    if p.blind_timer_ms < ms {
        p.blind_timer_ms = ms;
    }
}

fn decay_status(p: &mut Player, delta: u32)
    ensures
        final(p)@ == status_decayed(old(p)@, delta),
{
    p.blind_timer_ms = if p.blind_timer_ms > delta {
        p.blind_timer_ms - delta
    } else {
        0
    };
    p.on_fire_timer_ms = if p.on_fire_timer_ms > delta {
        p.on_fire_timer_ms - delta
    } else {
        0
    };
}

/// Apply each damage entry, in order, to the first player with its id.
fn apply_damage_list(players: &mut Vec<Player>, entries: &Vec<(String, u32)>)
    ensures
        pviews(final(players)@) == apply_damage_entries(pviews(old(players)@), entries@),
        final(players)@.len() == old(players)@.len(),
{
    let ghost start = pviews(players@);
    let mut i: usize = 0;
    assert(entries@.take(0) =~= Seq::<(String, u32)>::empty());
    while i < entries.len()
        invariant
            players@.len() == start.len(),
            i <= entries@.len(),
            pviews(players@) == apply_damage_entries(start, entries@.take(i as int)),
        decreases entries@.len() - i,
    {
        assert(entries@.take(i + 1).drop_last() =~= entries@.take(i as int));
        assert(entries@.take(i + 1).last() == entries@[i as int]);
        let dmg: u32 = entries[i].1;
        let ghost cur = pviews(players@);
        if let Some(k) = find_player(players, entries[i].0.as_str()) {
            proof {
                lemma_first_player(cur, entries@[i as int].0@);
            }
            let ghost before = players@;
            players[k].take_damage(dmg);
            proof {
                lemma_pviews_update(before, k as int, players@[k as int]);
                assert(players@ == before.update(k as int, players@[k as int]));
            }
        }
        assert(pviews(players@) == damage_one(cur, entries@[i as int].0@, dmg));
        i = i + 1;
    }
    assert(entries@.take(entries@.len() as int) =~= entries@);
}

/// Apply each blindness entry, in order, to the first player with its id.
fn apply_blind_list(players: &mut Vec<Player>, entries: &Vec<(String, u32)>)
    ensures
        pviews(final(players)@) == apply_blind_entries(pviews(old(players)@), entries@),
        final(players)@.len() == old(players)@.len(),
{
    let ghost start = pviews(players@);
    let mut i: usize = 0;
    assert(entries@.take(0) =~= Seq::<(String, u32)>::empty());
    while i < entries.len()
        invariant
            players@.len() == start.len(),
            i <= entries@.len(),
            pviews(players@) == apply_blind_entries(start, entries@.take(i as int)),
        decreases entries@.len() - i,
    {
        assert(entries@.take(i + 1).drop_last() =~= entries@.take(i as int));
        assert(entries@.take(i + 1).last() == entries@[i as int]);
        let ms: u32 = entries[i].1;
        let ghost cur = pviews(players@);
        if let Some(k) = find_player(players, entries[i].0.as_str()) {
            proof {
                lemma_first_player(cur, entries@[i as int].0@);
            }
            let ghost before = players@;
            blind_at_least(&mut players[k], ms);
            proof {
                lemma_pviews_update(before, k as int, players@[k as int]);
                assert(players@ == before.update(k as int, players@[k as int]));
            }
        }
        assert(pviews(players@) == blind_one(cur, entries@[i as int].0@, ms));
        i = i + 1;
    }
    assert(entries@.take(entries@.len() as int) =~= entries@);
}

/// Apply the damage and then the blindness of each event, in order.
fn apply_events(players: &mut Vec<Player>, events: &Vec<GrenadeEffectEvent>)
    ensures
        pviews(final(players)@) == apply_effects(
            pviews(old(players)@),
            events@.map_values(|e: GrenadeEffectEvent| e@),
        ),
        final(players)@.len() == old(players)@.len(),
{
    let ghost start = pviews(players@);
    let ghost evs = events@.map_values(|e: GrenadeEffectEvent| e@);
    let mut i: usize = 0;
    assert(evs.take(0) =~= Seq::<GrenadeEffectView>::empty());
    while i < events.len()
        invariant
            players@.len() == start.len(),
            i <= events@.len(),
            evs == events@.map_values(|e: GrenadeEffectEvent| e@),
            pviews(players@) == apply_effects(start, evs.take(i as int)),
        decreases events@.len() - i,
    {
        assert(evs.take(i + 1).drop_last() =~= evs.take(i as int));
        assert(evs.take(i + 1).last() == events@[i as int]@);
        apply_damage_list(players, &events[i].damage_map);
        apply_blind_list(players, &events[i].blind_map);
        i = i + 1;
    }
    assert(evs.take(events@.len() as int) =~= evs);
}

/// Run every player's blindness and burning down by `delta`.
fn decay_players(players: &mut Vec<Player>, delta: u32)
    ensures
        pviews(final(players)@) == decay_all(pviews(old(players)@), delta),
        final(players)@.len() == old(players)@.len(),
{
    let ghost start = pviews(players@);
    let mut i: usize = 0;
    while i < players.len()
        invariant
            players@.len() == start.len(),
            i <= players@.len(),
            forall|j: int| 0 <= j < i ==> #[trigger] players@[j]@ == status_decayed(start[j], delta),
            forall|j: int| i <= j < players@.len() ==> #[trigger] players@[j]@ == start[j],
        decreases players@.len() - i,
    {
        decay_status(&mut players[i], delta);
        i = i + 1;
    }
    assert(pviews(players@) =~= decay_all(start, delta));
}

/// The index of the best player of `team` (see `best_of_team`).
fn best_player_of(players: &Vec<Player>, team: Team) -> (r: Option<usize>)
    ensures
        match r {
            Some(k) => k < players@.len() && best_of_team(pviews(players@), team) == Some(k as int),
            None => best_of_team(pviews(players@), team) is None,
        },
{
    let ghost ps = pviews(players@);
    let mut best: Option<usize> = None;
    let mut i: usize = 0;
    assert(ps.take(0) =~= Seq::<PlayerView>::empty());
    while i < players.len()
        invariant
            i <= players@.len(),
            ps == pviews(players@),
            best_of_team(ps.take(i as int), team) == match best {
                Some(j) => Some(j as int),
                None => None::<int>,
            },
            best matches Some(j) ==> j < i,
        decreases players@.len() - i,
    {
        let ghost s1 = ps.take(i + 1);
        assert(s1.drop_last() =~= ps.take(i as int));
        assert(s1[i as int] == players@[i as int]@);
        if players[i].team == team {
            match best {
                Some(j) => {
                    assert(s1[j as int] == players@[j as int]@);
                    let p = &players[i];
                    let q = &players[j];
                    if p.round_kills > q.round_kills || (p.round_kills == q.round_kills
                        && p.round_damage >= q.round_damage) {
                        best = Some(i);
                    }
                },
                None => {
                    best = Some(i);
                },
            }
        }
        i = i + 1;
    }
    assert(ps.take(players@.len() as int) =~= ps);
    best
}

/// `t` reduced by `delta`, stopping at zero.
pub open spec fn time_after(t: u64, delta: u32) -> u64 {
    if t > delta {
        (t - delta) as u64
    } else {
        0
    }
}

/// The result a tick decides for a round in `phase` that has not ended,
/// with `t1` left on the clock after the tick and `ps` the players after it:
/// nothing during freeze time; while live, an elimination, else the clock
/// running out (a CT win); with the bomb planted, what the bomb decides.
pub open spec fn tick_result(
    phase: RoundPhase,
    t1: u64,
    bomb: BombState,
    ps: Seq<PlayerView>,
    delta: u32,
) -> Option<RoundResult> {
    match phase {
        RoundPhase::Live => match elimination(ps) {
            Some(r) => Some(r),
            None => if plant_completes(bomb, delta) {
                None
            } else if t1 == 0 {
                Some(RoundResult::CTWin(CTWinReason::TimeExpired))
            } else {
                None
            },
        },
        RoundPhase::BombPlanted => bomb_tick_result(bomb, delta),
        _ => None,
    }
}

/// Whether some player of `players` on `team` is alive.
fn any_alive(players: &Vec<Player>, team: Team) -> (b: bool)
    ensures
        b == team_alive(pviews(players@), team),
{
    let ghost ps = pviews(players@);
    let mut i: usize = 0;
    while i < players.len()
        invariant
            i <= players@.len(),
            ps == pviews(players@),
            forall|j: int|
                0 <= j < i ==> !(#[trigger] ps[j].team == team && ps[j].state == PlayerState::Alive),
        decreases players@.len() - i,
    {
        assert(ps[i as int] == players@[i as int]@);
        if players[i].team == team && players[i].is_alive() {
            return true;
        }
        i = i + 1;
    }
    false
}

/// All state for a single round.
#[derive(Debug)]
pub struct Round {
    pub number: u32,
    pub phase: RoundPhase,
    /// Milliseconds left in the current phase (freeze time or round time)
    pub time_remaining_ms: u64,
    pub result: RoundResult,
    pub kill_log: Vec<KillEvent>,
    pub bomb: BombState,
    pub grenades: GrenadeSim,
    pub mvp_id: Option<String>,
}

/// Fraction `num / den` in thousandths, limited to 0..=1000.
pub open spec fn frac_milli(num: u64, den: u64) -> u32 {
    if num >= den {
        1000
    } else {
        (num * 1000 / den as int) as u32
    }
}

fn frac_milli_of(num: u64, den: u64) -> (r: u32)
    requires
        den > 0,
    ensures
        r == frac_milli(num, den),
{
    if num >= den {
        1000
    } else {
        assert(num * 1000 / (den as int) < 1000) by (nonlinear_arith)
            requires
                num < den,
                den > 0,
        ;
        ((num as u128 * 1000) / den as u128) as u32
    }
}

/// `r` is a round just begun: number `number`, in freeze time with the
/// configured freeze time on the clock, no kills, no grenades, an unplanted
/// bomb with the configured timings, and no MVP.
pub open spec fn fresh_round(r: Round, number: u32, config: MatchConfig) -> bool {
    &&& r.number == number
    &&& r.phase == RoundPhase::FreezeTime
    &&& r.time_remaining_ms == config.freeze_time_secs * 1000
    &&& r.result == RoundResult::InProgress
    &&& r.kill_log@.len() == 0
    &&& r.bomb == BombState::new_spec(
        (config.bomb_timer_secs * 1000) as u64,
        config.plant_time_ms,
        config.defuse_time_ms,
        config.defuse_kit_time_ms,
    )
    &&& r.grenades.live().len() == 0
    &&& r.grenades.issued() == 0
    &&& r.mvp_id is None
}

/// Whether a plant in progress completes within `delta` milliseconds.
pub open spec fn plant_completes(b: BombState, delta: u32) -> bool {
    b.phase == BombPhase::Planting && b.timer_ms <= delta
}

/// A tick of `delta` milliseconds takes round `a` with players `ps0` to
/// round `b` with players (by view) `ps`, returning `r`. An ended round
/// stays as it is and reports its result. Otherwise the live grenades fire
/// against the players as they were, their damage and then blindness land
/// in order, status effects run down, and the phase moves on: freeze time
/// gives way to the live round when its clock runs out; in a live round a
/// plant in progress advances, and the round ends when a side is
/// eliminated, or else moves into its bomb phase when the plant completes,
/// or else ends when the clock runs out; a planted bomb ends the round when
/// it explodes or is defused. An ending round records its result and its
/// MVP.
pub open spec fn round_tick_rel(
    a: Round,
    ps0: Seq<Player>,
    b: Round,
    ps: Seq<PlayerView>,
    delta: u32,
    config: MatchConfig,
    r: Option<RoundResult>,
) -> bool {
    if a.phase == RoundPhase::Ended {
        r == Some(a.result) && b == a && ps == pviews(ps0)
    } else {
        let ps1 = decay_all(
            apply_effects(pviews(ps0), all_events(a.grenades.live(), delta, ps0)),
            delta,
        );
        let t1 = time_after(a.time_remaining_ms, delta);
        let bomb = if a.phase == RoundPhase::BombPlanted || (a.phase == RoundPhase::Live
            && a.bomb.phase == BombPhase::Planting) {
            bomb_after(a.bomb, delta)
        } else {
            a.bomb
        };
        &&& ps == ps1
        &&& b.grenades.live() == live_after(a.grenades.live(), delta)
        &&& b.grenades.issued() == a.grenades.issued()
        &&& b.number == a.number
        &&& b.kill_log@ == a.kill_log@
        &&& b.bomb == bomb
        &&& r == tick_result(a.phase, t1, a.bomb, ps1, delta)
        &&& match r {
            Some(res) => {
                &&& b.phase == RoundPhase::Ended
                &&& b.result == res
                &&& b.time_remaining_ms == t1
                &&& b.mvp_id == mvp_of(res, ps1, bomb)
            },
            None => {
                &&& b.result == a.result
                &&& b.mvp_id == a.mvp_id
                &&& if a.phase == RoundPhase::FreezeTime && t1 == 0 {
                    &&& b.phase == RoundPhase::Live
                    &&& b.time_remaining_ms == config.round_time_secs * 1000
                } else if a.phase == RoundPhase::Live && plant_completes(a.bomb, delta) {
                    &&& b.phase == RoundPhase::BombPlanted
                    &&& b.time_remaining_ms == t1
                } else {
                    &&& b.phase == a.phase
                    &&& b.time_remaining_ms == t1
                }
            },
        }
    }
}

/// A tick that ends nothing advances a plant in progress in a live round:
/// the plant completes, moving the round into its bomb phase, once its
/// timer has run out, and otherwise its timer runs down by the tick. A
/// planted bomb in the bomb phase stays planted.
pub proof fn lemma_plant_step(
    a: Round,
    ps0: Seq<Player>,
    b: Round,
    ps: Seq<PlayerView>,
    delta: u32,
    config: MatchConfig,
)
    requires
        round_tick_rel(a, ps0, b, ps, delta, config, None),
    ensures
        a.phase == RoundPhase::Live && a.bomb.phase == BombPhase::Planting ==> if a.bomb.timer_ms
            <= delta {
            b.phase == RoundPhase::BombPlanted && b.bomb.phase == BombPhase::Planted
        } else {
            b.phase == RoundPhase::Live && b.bomb.phase == BombPhase::Planting && b.bomb.timer_ms
                == a.bomb.timer_ms - delta
        },
        a.phase == RoundPhase::BombPlanted && a.bomb.phase == BombPhase::Planted ==> b.phase
            == RoundPhase::BombPlanted && b.bomb.phase == BombPhase::Planted,
{
}

/// An ended round is final: a tick changes neither it nor its players and
/// reports its result again.
pub proof fn lemma_ended_round_is_final(
    a: Round,
    ps0: Seq<Player>,
    b: Round,
    ps: Seq<PlayerView>,
    delta: u32,
    config: MatchConfig,
    r: Option<RoundResult>,
)
    requires
        a.phase == RoundPhase::Ended,
        round_tick_rel(a, ps0, b, ps, delta, config, r),
    ensures
        b == a,
        r == Some(a.result),
        ps == pviews(ps0),
{
}

/// A tick of a round in play reports a result exactly when it ends the
/// round, and then the round records that result, which is a win for one
/// side.
pub proof fn lemma_tick_reports_end(
    a: Round,
    ps0: Seq<Player>,
    b: Round,
    ps: Seq<PlayerView>,
    delta: u32,
    config: MatchConfig,
    r: Option<RoundResult>,
)
    requires
        a.phase != RoundPhase::Ended,
        round_tick_rel(a, ps0, b, ps, delta, config, r),
    ensures
        r is Some <==> b.phase == RoundPhase::Ended,
        r matches Some(res) ==> b.result == res && !(res is InProgress),
{
}

impl Round {
    pub fn new(number: u32, config: &MatchConfig) -> (r: Self)
        ensures
            fresh_round(r, number, *config),
    {
        Round {
            number,
            phase: RoundPhase::FreezeTime,
            time_remaining_ms: config.freeze_time_secs as u64 * 1000,
            result: RoundResult::InProgress,
            kill_log: Vec::new(),
            bomb: BombState::new(
                config.bomb_timer_secs as u64 * 1000,
                config.plant_time_ms,
                config.defuse_time_ms,
                config.defuse_kit_time_ms,
            ),
            grenades: GrenadeSim::new(),
            mvp_id: None,
        }
    }

    /// Advance the round by `delta_ms`: grenades fire and their damage and
    /// blindness reach the players, status effects run down, and the phase
    /// moves on. Returns the result once the round has ended.
    pub fn tick(
        &mut self,
        delta_ms: u32,
        players: &mut Vec<Player>,
        config: &MatchConfig,
        map: &MapDef,
    ) -> (r: Option<RoundResult>)
        ensures
            round_tick_rel(
                *old(self),
                old(players)@,
                *final(self),
                pviews(final(players)@),
                delta_ms,
                *config,
                r,
            ),
            old(self).phase == RoundPhase::Ended ==> final(players)@ == old(players)@,
            final(players)@.len() == old(players)@.len(),
    {
        if self.phase == RoundPhase::Ended {
            return Some(self.result);
        }
        self.time_remaining_ms = if self.time_remaining_ms > delta_ms as u64 {
            self.time_remaining_ms - delta_ms as u64
        } else {
            0
        };
        let events = self.grenades.tick(delta_ms, players);
        apply_events(players, &events);
        decay_players(players, delta_ms);
        match self.phase {
            RoundPhase::FreezeTime => {
                if self.time_remaining_ms == 0 {
                    self.phase = RoundPhase::Live;
                    self.time_remaining_ms = config.round_time_secs as u64 * 1000;
                }
                None
            },
            RoundPhase::Live => {
                let planting = self.bomb.phase == BombPhase::Planting;
                if planting {
                    self.bomb.tick(delta_ms);
                }
                if let Some(result) = self.check_elimination(players) {
                    return self.end_round(result, players);
                }
                if planting && self.bomb.phase == BombPhase::Planted {
                    self.phase = RoundPhase::BombPlanted;
                    return None;
                }
                if self.time_remaining_ms == 0 {
                    return self.end_round(RoundResult::CTWin(CTWinReason::TimeExpired), players);
                }
                None
            },
            RoundPhase::BombPlanted => {
                if let Some(result) = self.bomb.tick(delta_ms) {
                    return self.end_round(result, players);
                }
                None
            },
            RoundPhase::Ended => Some(self.result),
        }
    }

    /// The result when one side has no living player left.
    fn check_elimination(&self, players: &Vec<Player>) -> (r: Option<RoundResult>)
        ensures
            r == elimination(pviews(players@)),
    {
        let ct = any_alive(players, Team::CT);
        let t = any_alive(players, Team::T);
        if !ct {
            return Some(RoundResult::TWin(TWinReason::CTsEliminated));
        }
        if !t {
            return Some(RoundResult::CTWin(CTWinReason::TerrorsEliminated));
        }
        None
    }

    fn end_round(&mut self, result: RoundResult, players: &Vec<Player>) -> (r: Option<RoundResult>)
        requires
            !(result is InProgress),
        ensures
            r == Some(result),
            *final(self) == (Round {
                result,
                phase: RoundPhase::Ended,
                mvp_id: mvp_of(result, pviews(players@), old(self).bomb),
                ..*old(self)
            }),
    {
        self.result = result;
        self.phase = RoundPhase::Ended;
        self.mvp_id = self.compute_mvp(result, players);
        Some(result)
    }

    /// The MVP of a round that ended with `result`.
    fn compute_mvp(&self, result: RoundResult, players: &Vec<Player>) -> (r: Option<String>)
        ensures
            r == mvp_of(result, pviews(players@), self.bomb),
    {
        let winning_team = match result {
            RoundResult::CTWin(_) => Team::CT,
            RoundResult::TWin(_) => Team::T,
            RoundResult::InProgress => {
                return None;
            },
        };
        match result {
            RoundResult::CTWin(CTWinReason::BombDefused) => {
                if let Some(id) = &self.bomb.defuser_id {
                    return Some(id.clone());
                }
            },
            RoundResult::TWin(TWinReason::BombExploded) => {
                if let Some(id) = &self.bomb.planter_id {
                    return Some(id.clone());
                }
            },
            _ => {},
        }
        let ghost ps = pviews(players@);
        match best_player_of(players, winning_team) {
            Some(i) => {
                assert(ps[i as int] == players@[i as int]@);
                Some(players[i].profile.id.clone())
            },
            None => None,
        }
    }

    pub fn is_over(&self) -> (b: bool)
        ensures
            b == (self.phase == RoundPhase::Ended),
    {
        self.phase == RoundPhase::Ended
    }

    /// Throw a grenade into the round; returns its id.
    pub fn throw_grenade(&mut self, thrower_id: String, kind: GrenadeType, position: Vec3) -> (id: u32)
        requires
            old(self).grenades.issued() < u32::MAX,
        ensures
            id == old(self).grenades.issued(),
            final(self).grenades.issued() == old(self).grenades.issued() + 1,
            final(self).grenades.live() == old(self).grenades.live().push(
                ThrownGrenade {
                    id,
                    kind,
                    thrower_id,
                    position,
                    state: GrenadeState::Fusing,
                    timer_ms: fuse_of(kind),
                    detonated: false,
                },
            ),
            final(self).number == old(self).number,
            final(self).phase == old(self).phase,
            final(self).time_remaining_ms == old(self).time_remaining_ms,
            final(self).result == old(self).result,
            final(self).kill_log@ == old(self).kill_log@,
            final(self).bomb == old(self).bomb,
            final(self).mvp_id == old(self).mvp_id,
    {
        self.grenades.throw(kind, thrower_id, position)
    }

    /// Move a live round into the bomb-planted phase; other phases stay.
    pub fn on_bomb_planted(&mut self)
        ensures
            final(self).phase == if old(self).phase == RoundPhase::Live {
                RoundPhase::BombPlanted
            } else {
                old(self).phase
            },
            final(self).number == old(self).number,
            final(self).time_remaining_ms == old(self).time_remaining_ms,
            final(self).result == old(self).result,
            final(self).kill_log@ == old(self).kill_log@,
            final(self).bomb == old(self).bomb,
            final(self).grenades.live() == old(self).grenades.live(),
            final(self).grenades.issued() == old(self).grenades.issued(),
            final(self).mvp_id == old(self).mvp_id,
    {
        if self.phase == RoundPhase::Live {
            self.phase = RoundPhase::BombPlanted;
        }
    }

    /// Append a kill to the round's kill log.
    pub fn record_kill(&mut self, event: KillEvent)
        ensures
            final(self).kill_log@ == old(self).kill_log@.push(event),
            final(self).number == old(self).number,
            final(self).phase == old(self).phase,
            final(self).time_remaining_ms == old(self).time_remaining_ms,
            final(self).result == old(self).result,
            final(self).bomb == old(self).bomb,
            final(self).grenades.live() == old(self).grenades.live(),
            final(self).grenades.issued() == old(self).grenades.issued(),
            final(self).mvp_id == old(self).mvp_id,
    {
        self.kill_log.push(event);
    }

    /// Fraction of the detonation countdown left, in thousandths (0 when the
    /// bomb is not planted).
    pub fn bomb_frac(&self) -> (f: u32)
        ensures
            f == if !(self.bomb.phase == BombPhase::Planted || self.bomb.phase == BombPhase::Defusing)
                || self.bomb.detonation_timer_ms == 0 {
                0
            } else {
                frac_milli(
                    if self.bomb.phase == BombPhase::Defusing {
                        self.bomb.countdown_ms
                    } else {
                        self.bomb.timer_ms
                    },
                    self.bomb.detonation_timer_ms,
                )
            },
    {
        if !self.bomb.is_planted() || self.bomb.detonation_timer_ms == 0 {
            return 0;
        }
        let left = if self.bomb.phase == BombPhase::Defusing {
            self.bomb.countdown_ms
        } else {
            self.bomb.timer_ms
        };
        frac_milli_of(left, self.bomb.detonation_timer_ms)
    }

    /// Fraction of a defuse of `total_defuse_ms` left, in thousandths (0 when
    /// nobody is defusing).
    pub fn defuse_frac(&self, total_defuse_ms: u32) -> (f: u32)
        ensures
            f == if self.bomb.phase != BombPhase::Defusing || total_defuse_ms == 0 {
                0
            } else {
                frac_milli(self.bomb.timer_ms, total_defuse_ms as u64)
            },
    {
        if self.bomb.phase != BombPhase::Defusing || total_defuse_ms == 0 {
            return 0;
        }
        frac_milli_of(self.bomb.timer_ms, total_defuse_ms as u64)
    }
}

} // verus!
