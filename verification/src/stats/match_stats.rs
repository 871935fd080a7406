use vstd::prelude::*;
use crate::game::types::{Rank, RoundResult, Team};
use crate::player::types::{percent_centi, percent_centi_of, ratio_milli, ratio_milli_of, sat_add};
use crate::stats::round_stats::{round_mvp_index, PlayerRoundStat, RoundStats};
use crate::util::{desc_before, desc_order, is_desc_order, sort_indices_desc, str_eq};

verus! {

/// MVP designation for the entire match.
#[derive(Debug)]
pub struct MVP {
    pub player_id: String,
    pub nickname: String,
    /// Contribution score, in twenty-thousandths of a point
    pub score: u128,
}

/// Aggregated per-player stats across all rounds.
#[derive(Debug)]
pub struct PlayerMatchStat {
    pub player_id: String,
    pub nickname: String,
    pub team: Team,
    pub kills: u32,
    pub deaths: u32,
    pub assists: u32,
    pub headshots: u32,
    /// Damage dealt, in hundredths of a hit point
    pub damage_dealt: u64,
    pub bomb_plants: u32,
    pub bomb_defuses: u32,
    pub mvp_count: u32,
    pub rounds_played: u32,
}

/// `a + b`, or `u64::MAX` when the sum does not fit.
pub open spec fn sat_add64(a: u64, b: u64) -> u64 {
    if a + b <= u64::MAX {
        (a + b) as u64
    } else {
        u64::MAX
    }
}

/// The contribution of a player to the match, in twenty-thousandths of a
/// point: 2 points a kill, half a point an assist, a two-hundredth of a
/// point per hit point of damage, 3 per plant, 5 per defuse and 2 per round
/// MVP.
pub open spec fn match_contribution(s: PlayerMatchStat) -> int {
    s.kills * 40000 + s.assists * 10000 + s.damage_dealt + s.bomb_plants * 60000 + s.bomb_defuses
        * 100000 + s.mvp_count * 40000
}

impl PlayerMatchStat {
    /// Kills per death, in thousandths (the kills themselves, in
    /// thousandths, without deaths).
    pub fn kd_ratio(&self) -> (r: u128)
        ensures
            r == ratio_milli(self.kills as u64, self.deaths as u64),
    {
        ratio_milli_of(self.kills as u64, self.deaths as u64)
    }

    /// Headshots per kill, in hundredths of a percent (0 without kills).
    pub fn headshot_rate(&self) -> (r: u128)
        ensures
            r == percent_centi(self.headshots as u64, self.kills as u64),
    {
        percent_centi_of(self.headshots as u64, self.kills as u64)
    }

    /// Damage per round played, in hundredths of a hit point (rounded
    /// down; 0 before any round).
    pub fn average_damage(&self) -> (r: u64)
        ensures
            r == if self.rounds_played == 0 {
                0
            } else {
                self.damage_dealt / (self.rounds_played as u64)
            },
    {
        if self.rounds_played == 0 {
            return 0;
        }
        self.damage_dealt / self.rounds_played as u64
    }

    /// Contribution score for the full-match MVP, in twenty-thousandths of
    /// a point.
    pub fn contribution_score(&self) -> (r: u128)
        ensures
            r == match_contribution(*self),
    {
        self.kills as u128 * 40000 + self.assists as u128 * 10000 + self.damage_dealt as u128
            + self.bomb_plants as u128 * 60000 + self.bomb_defuses as u128 * 100000
            + self.mvp_count as u128 * 40000
    }
}

/// A player's match stat before any round is counted.
pub open spec fn fresh_stat(prs: PlayerRoundStat) -> PlayerMatchStat {
    PlayerMatchStat {
        player_id: prs.player_id,
        nickname: prs.nickname,
        team: prs.team,
        kills: 0,
        deaths: 0,
        assists: 0,
        headshots: 0,
        damage_dealt: 0,
        bomb_plants: 0,
        bomb_defuses: 0,
        mvp_count: 0,
        rounds_played: 0,
    }
}

/// `m` with one more round counted from `prs` (counts stay at their
/// maximum once there).
pub open spec fn absorbed(m: PlayerMatchStat, prs: PlayerRoundStat, is_mvp: bool) -> PlayerMatchStat {
    PlayerMatchStat {
        kills: sat_add(m.kills, prs.kills),
        deaths: sat_add(m.deaths, prs.deaths),
        assists: sat_add(m.assists, prs.assists),
        headshots: sat_add(m.headshots, prs.headshots),
        damage_dealt: sat_add64(m.damage_dealt, prs.damage_dealt as u64),
        bomb_plants: if prs.planted_bomb {
            sat_add(m.bomb_plants, 1)
        } else {
            m.bomb_plants
        },
        bomb_defuses: if prs.defused_bomb {
            sat_add(m.bomb_defuses, 1)
        } else {
            m.bomb_defuses
        },
        rounds_played: sat_add(m.rounds_played, 1),
        mvp_count: if is_mvp {
            sat_add(m.mvp_count, 1)
        } else {
            m.mvp_count
        },
        ..m
    }
}

/// The index of the first stat of `s` for player `id`, if any.
pub open spec fn stat_index(s: Seq<PlayerMatchStat>, id: Seq<char>) -> Option<int>
    decreases s.len(),
{
    if s.len() == 0 {
        None
    } else if s[0].player_id@ == id {
        Some(0)
    } else {
        match stat_index(s.drop_first(), id) {
            Some(i) => Some(i + 1),
            None => None,
        }
    }
}

/// Where `stat_index` finds a stat, it is for `id` and no earlier one is;
/// where it finds none, no stat is.
pub proof fn lemma_stat_index(s: Seq<PlayerMatchStat>, id: Seq<char>)
    ensures
        stat_index(s, id) matches Some(i) ==> (0 <= i < s.len() && s[i].player_id@ == id
            && forall|j: int| 0 <= j < i ==> #[trigger] s[j].player_id@ != id),
        stat_index(s, id) is None ==> forall|j: int| 0 <= j < s.len() ==> #[trigger] s[j].player_id@ != id,
    decreases s.len(),
{
    if s.len() > 0 && s[0].player_id@ != id {
        lemma_stat_index(s.drop_first(), id);
        assert forall|j: int| 0 < j < s.len() implies s[j] == s.drop_first()[j - 1] by {}
    }
}

/// `acc` with the round stat `prs` counted for its player, a new entry for
/// a player seen the first time.
pub open spec fn absorb(acc: Seq<PlayerMatchStat>, prs: PlayerRoundStat, mvp: Option<String>) -> Seq<PlayerMatchStat> {
    let is_mvp = mvp matches Some(m) && m@ == prs.player_id@;
    match stat_index(acc, prs.player_id@) {
        Some(k) => acc.update(k, absorbed(acc[k], prs, is_mvp)),
        None => acc.push(absorbed(fresh_stat(prs), prs, is_mvp)),
    }
}

/// `acc` with every stat of one round counted, in order.
pub open spec fn absorb_round(acc: Seq<PlayerMatchStat>, stats: Seq<PlayerRoundStat>, mvp: Option<String>) -> Seq<PlayerMatchStat>
    decreases stats.len(),
{
    if stats.len() == 0 {
        acc
    } else {
        absorb(absorb_round(acc, stats.drop_last(), mvp), stats.last(), mvp)
    }
}

/// The player id of the MVP of round `r`, if any.
pub open spec fn round_mvp_id(r: RoundStats) -> Option<String> {
    match round_mvp_index(r.player_stats@) {
        Some(k) => Some(r.player_stats@[k].player_id),
        None => None,
    }
}

/// The per-player stats of all `rounds`, players in the order first seen.
pub open spec fn aggregate(rounds: Seq<RoundStats>) -> Seq<PlayerMatchStat>
    decreases rounds.len(),
{
    if rounds.len() == 0 {
        Seq::empty()
    } else {
        absorb_round(aggregate(rounds.drop_last()), rounds.last().player_stats@, round_mvp_id(rounds.last()))
    }
}

/// The index of the match MVP of `s`: the highest contribution, the last
/// of equal ones.
pub open spec fn match_mvp_index(s: Seq<PlayerMatchStat>) -> Option<int>
    decreases s.len(),
{
    if s.len() == 0 {
        None
    } else {
        let k = s.len() - 1;
        match match_mvp_index(s.drop_last()) {
            Some(j) => if match_contribution(s[k]) >= match_contribution(s[j]) {
                Some(k)
            } else {
                Some(j)
            },
            None => Some(k),
        }
    }
}

/// The scoreboard key of a match stat: kills first, then damage.
pub open spec fn match_board_key(s: PlayerMatchStat) -> u128 {
    (s.kills * 0x1_0000_0000_0000_0000 + s.damage_dealt) as u128
}

/// The scoreboard keys of `s`, in order.
pub open spec fn match_board_keys(s: Seq<PlayerMatchStat>) -> Seq<u128> {
    s.map_values(|x: PlayerMatchStat| match_board_key(x))
}

/// A kill/death ratio above 1.5 (with no deaths, the kills are the ratio).
pub open spec fn kd_above_one_and_half(kills: u32, deaths: u32) -> bool {
    if deaths == 0 {
        kills >= 2
    } else {
        2 * kills > 3 * deaths
    }
}

/// A kill/death ratio below 0.5 (with no deaths, the kills are the ratio).
pub open spec fn kd_below_half(kills: u32, deaths: u32) -> bool {
    if deaths == 0 {
        kills == 0
    } else {
        2 * kills < deaths
    }
}

/// The rank change of a player with match stat `s` when `winner` won: one
/// up for a win and one down otherwise, one more up for a kill/death ratio
/// above 1.5, one more down for one below 0.5.
pub open spec fn rank_delta(s: PlayerMatchStat, winner: Option<Team>) -> int {
    let base: int = if winner == Some(s.team) {
        1
    } else {
        -1
    };
    let bonus: int = if kd_above_one_and_half(s.kills, s.deaths) {
        1
    } else if kd_below_half(s.kills, s.deaths) {
        -1
    } else {
        0
    };
    base + bonus
}

/// Full post-match statistics.
#[derive(Debug)]
pub struct MatchStats {
    pub match_id: String,
    pub map_name: String,
    pub ct_score: u32,
    pub t_score: u32,
    pub winner: Option<Team>,
    pub total_rounds: u32,
    /// One entry per player, in the order first seen
    pub player_stats: Vec<PlayerMatchStat>,
    pub round_history: Vec<RoundResult>,
    /// Wall-clock duration in milliseconds
    pub duration_ms: u64,
    pub mvp: Option<MVP>,
}

fn absorb_into(m: &mut PlayerMatchStat, prs: &PlayerRoundStat, is_mvp: bool)
    ensures
        *final(m) == absorbed(*old(m), *prs, is_mvp),
{
    m.kills = m.kills.saturating_add(prs.kills);
    m.deaths = m.deaths.saturating_add(prs.deaths);
    m.assists = m.assists.saturating_add(prs.assists);
    m.headshots = m.headshots.saturating_add(prs.headshots);
    m.damage_dealt = m.damage_dealt.saturating_add(prs.damage_dealt as u64);
    if prs.planted_bomb {
        m.bomb_plants = m.bomb_plants.saturating_add(1);
    }
    if prs.defused_bomb {
        m.bomb_defuses = m.bomb_defuses.saturating_add(1);
    }
    m.rounds_played = m.rounds_played.saturating_add(1);
    if is_mvp {
        m.mvp_count = m.mvp_count.saturating_add(1);
    }
}

fn find_stat(acc: &Vec<PlayerMatchStat>, id: &str) -> (r: Option<usize>)
    ensures
        match r {
            Some(k) => stat_index(acc@, id@) == Some(k as int) && k < acc@.len(),
            None => stat_index(acc@, id@) is None,
        },
{
    proof {
        lemma_stat_index(acc@, id@);
    }
    let mut i: usize = 0;
    while i < acc.len()
        invariant
            i <= acc@.len(),
            forall|j: int| 0 <= j < i ==> #[trigger] acc@[j].player_id@ != id@,
            stat_index(acc@, id@) matches Some(k) ==> (0 <= k < acc@.len() && acc@[k].player_id@
                == id@ && forall|j: int| 0 <= j < k ==> #[trigger] acc@[j].player_id@ != id@),
            stat_index(acc@, id@) is None ==> forall|j: int|
                0 <= j < acc@.len() ==> #[trigger] acc@[j].player_id@ != id@,
        decreases acc@.len() - i,
    {
        if str_eq(acc[i].player_id.as_str(), id) {
            proof {
                if let Some(k) = stat_index(acc@, id@) {
                    assert(!(k < i));
                    assert(!(i < k));
                }
            }
            return Some(i);
        }
        i = i + 1;
    }
    None
}

fn clone_id(id: &Option<String>) -> (r: Option<String>)
    ensures
        r == *id,
{
    match id {
        Some(s) => Some(s.clone()),
        None => None,
    }
}

/// Count one round's stats into `acc`.
fn absorb_round_into(acc: &mut Vec<PlayerMatchStat>, stats: &Vec<PlayerRoundStat>, mvp: &Option<String>)
    ensures
        final(acc)@ == absorb_round(old(acc)@, stats@, *mvp),
{
    let ghost start = acc@;
    let mut i: usize = 0;
    assert(stats@.take(0) =~= Seq::<PlayerRoundStat>::empty());
    while i < stats.len()
        invariant
            i <= stats@.len(),
            acc@ == absorb_round(start, stats@.take(i as int), *mvp),
        decreases stats@.len() - i,
    {
        assert(stats@.take(i + 1).drop_last() =~= stats@.take(i as int));
        let prs = &stats[i];
        let is_mvp = match mvp {
            Some(m) => str_eq(m.as_str(), prs.player_id.as_str()),
            None => false,
        };
        let ghost before = acc@;
        match find_stat(acc, prs.player_id.as_str()) {
            Some(k) => {
                absorb_into(&mut acc[k], prs, is_mvp);
                assert(acc@ =~= before.update(k as int, absorbed(before[k as int], *prs, is_mvp)));
            },
            None => {
                let mut fresh = PlayerMatchStat {
                    player_id: prs.player_id.clone(),
                    nickname: prs.nickname.clone(),
                    team: prs.team,
                    kills: 0,
                    deaths: 0,
                    assists: 0,
                    headshots: 0,
                    damage_dealt: 0,
                    bomb_plants: 0,
                    bomb_defuses: 0,
                    mvp_count: 0,
                    rounds_played: 0,
                };
                absorb_into(&mut fresh, prs, is_mvp);
                acc.push(fresh);
            },
        }
        i = i + 1;
    }
    assert(stats@.take(stats@.len() as int) =~= stats@);
}

impl MatchStats {
    /// The statistics of a finished match from its rounds: every round's
    /// player stats summed per player (players in the order first seen),
    /// round MVPs counted, the round results in order, and the match MVP,
    /// the player with the highest contribution.
    pub fn compile(
        match_id: String,
        map_name: String,
        ct_score: u32,
        t_score: u32,
        winner: Option<Team>,
        round_stats_list: Vec<RoundStats>,
        duration_ms: u64,
    ) -> (r: Self)
        ensures
            r.match_id == match_id,
            r.map_name == map_name,
            r.ct_score == ct_score,
            r.t_score == t_score,
            r.winner == winner,
            r.total_rounds == round_stats_list@.len() as u32,
            r.player_stats@ == aggregate(round_stats_list@),
            r.round_history@ == round_stats_list@.map_values(|rs: RoundStats| rs.result),
            r.duration_ms == duration_ms,
            match match_mvp_index(r.player_stats@) {
                Some(k) => r.mvp matches Some(m) && m.player_id == r.player_stats@[k].player_id
                    && m.nickname == r.player_stats@[k].nickname && m.score == match_contribution(
                    r.player_stats@[k],
                ),
                None => r.mvp is None,
            },
    {
        let mut player_stats: Vec<PlayerMatchStat> = Vec::new();
        let mut round_history: Vec<RoundResult> = Vec::new();
        let ghost rounds = round_stats_list@;
        let mut i: usize = 0;
        assert(rounds.take(0) =~= Seq::<RoundStats>::empty());
        while i < round_stats_list.len()
            invariant
                i <= rounds.len(),
                rounds == round_stats_list@,
                player_stats@ == aggregate(rounds.take(i as int)),
                round_history@ == rounds.take(i as int).map_values(|rs: RoundStats| rs.result),
            decreases rounds.len() - i,
        {
            assert(rounds.take(i + 1).drop_last() =~= rounds.take(i as int));
            let round = &round_stats_list[i];
            round_history.push(round.result);
            assert(round_history@ =~= rounds.take(i + 1).map_values(|rs: RoundStats| rs.result));
            // Determine round MVP
            let round_mvp_id: Option<String> = match round.mvp() {
                Some(s) => Some(s.player_id.clone()),
                None => None,
            };
            absorb_round_into(&mut player_stats, &round.player_stats, &round_mvp_id);
            i = i + 1;
        }
        assert(rounds.take(rounds.len() as int) =~= rounds);
        // Compute full-match MVP
        let ghost s = player_stats@;
        let mut best: Option<usize> = None;
        let mut best_score: u128 = 0;
        let mut j: usize = 0;
        assert(s.take(0) =~= Seq::<PlayerMatchStat>::empty());
        while j < player_stats.len()
            invariant
                j <= s.len(),
                s == player_stats@,
                match_mvp_index(s.take(j as int)) == match best {
                    Some(b) => Some(b as int),
                    None => None::<int>,
                },
                best matches Some(b) ==> b < j && best_score == match_contribution(s[b as int]),
            decreases s.len() - j,
        {
            assert(s.take(j + 1).drop_last() =~= s.take(j as int));
            let score = player_stats[j].contribution_score();
            match best {
                Some(b) => {
                    assert(s.take(j + 1)[b as int] == s[b as int]);
                    if score >= best_score {
                        best = Some(j);
                        best_score = score;
                    }
                },
                None => {
                    best = Some(j);
                    best_score = score;
                },
            }
            j = j + 1;
        }
        assert(s.take(s.len() as int) =~= s);
        let mvp = match best {
            Some(b) => Some(
                MVP {
                    player_id: player_stats[b].player_id.clone(),
                    nickname: player_stats[b].nickname.clone(),
                    score: best_score,
                },
            ),
            None => None,
        };
        let total_rounds = round_stats_list.len() as u32;
        MatchStats {
            match_id,
            map_name,
            ct_score,
            t_score,
            winner,
            total_rounds,
            player_stats,
            round_history,
            duration_ms,
            mvp,
        }
    }

    /// The player stats sorted by kills, then damage, both descending
    /// (equal ones in the order first seen).
    pub fn scoreboard(&self) -> (r: Vec<&PlayerMatchStat>)
        ensures
            r@.len() == self.player_stats@.len(),
            forall|k: int|
                0 <= k < r@.len() ==> *#[trigger] r@[k] == self.player_stats@[desc_order(
                    match_board_keys(self.player_stats@),
                )[k] as int],
            forall|a: int, b: int|
                0 <= a < b < r@.len() ==> (#[trigger] r@[a]).kills > (#[trigger] r@[b]).kills || (
                r@[a].kills == r@[b].kills && r@[a].damage_dealt >= r@[b].damage_dealt),
    {
        let mut keys: Vec<u128> = Vec::new();
        let mut i: usize = 0;
        while i < self.player_stats.len()
            invariant
                i <= self.player_stats@.len(),
                keys@ == match_board_keys(self.player_stats@.take(i as int)),
            decreases self.player_stats@.len() - i,
        {
            let s = &self.player_stats[i];
            keys.push(s.kills as u128 * 0x1_0000_0000_0000_0000 + s.damage_dealt as u128);
            assert(keys@ =~= match_board_keys(self.player_stats@.take(i + 1)));
            i = i + 1;
        }
        assert(self.player_stats@.take(self.player_stats@.len() as int) =~= self.player_stats@);
        let order = sort_indices_desc(&keys);
        let mut out: Vec<&PlayerMatchStat> = Vec::new();
        let mut k: usize = 0;
        while k < order.len()
            invariant
                k <= order@.len(),
                order@ == desc_order(match_board_keys(self.player_stats@)),
                order@.len() == self.player_stats@.len(),
                forall|j: int| 0 <= j < order@.len() ==> #[trigger] order@[j] < self.player_stats@.len(),
                out@.len() == k,
                forall|j: int|
                    0 <= j < k ==> *#[trigger] out@[j] == self.player_stats@[order@[j] as int],
                keys@ == match_board_keys(self.player_stats@),
                is_desc_order(keys@, order@),
            decreases order@.len() - k,
        {
            out.push(&self.player_stats[order[k]]);
            k = k + 1;
        }
        assert forall|a: int, b: int| 0 <= a < b < out@.len() implies (#[trigger] out@[a]).kills
            > (#[trigger] out@[b]).kills || (out@[a].kills == out@[b].kills && out@[a].damage_dealt
            >= out@[b].damage_dealt) by {
            assert(desc_before(keys@, order@[a], order@[b]));
            let x = self.player_stats@[order@[a] as int];
            let y = self.player_stats@[order@[b] as int];
            assert(keys@[order@[a] as int] == x.kills * 0x1_0000_0000_0000_0000 + x.damage_dealt);
            assert(keys@[order@[b] as int] == y.kills * 0x1_0000_0000_0000_0000 + y.damage_dealt);
        }
        out
    }

    /// The rank change of a player after this match: 0 for a player not in
    /// it; otherwise +1 for a win and -1 for a loss, plus one for a
    /// kill/death ratio above 1.5 and minus one for one below 0.5.
    pub fn rank_change(&self, player_id: &str, _current_rank: Rank) -> (d: i32)
        ensures
            d == match stat_index(self.player_stats@, player_id@) {
                None => 0,
                Some(k) => rank_delta(self.player_stats@[k], self.winner),
            },
    {
        let k = match find_stat(&self.player_stats, player_id) {
            None => {
                return 0;
            },
            Some(k) => k,
        };
        let stats = &self.player_stats[k];
        let won = match self.winner {
            Some(winning_team) => winning_team == stats.team,
            None => false,
        };
        let base: i32 = if won {
            1
        } else {
            -1
        };
        // Performance bonus/penalty
        let kills = stats.kills as u64;
        let deaths = stats.deaths as u64;
        let above = if deaths == 0 {
            kills >= 2
        } else {
            2 * kills > 3 * deaths
        };
        let below = if deaths == 0 {
            kills == 0
        } else {
            2 * kills < deaths
        };
        let performance_bonus: i32 = if above {
            1
        } else if below {
            -1
        } else {
            0
        };
        base + performance_bonus
    }
}

} // verus!
