use vstd::prelude::*;
use crate::game::round::pviews;
use crate::game::types::{KillEvent, RoundResult, Team};
use crate::player::types::{percent_centi, percent_centi_of, Player, PlayerView};
use crate::util::{desc_before, desc_order, is_desc_order, sort_indices_desc, str_eq};

verus! {

/// Per-player stats for a single round.
#[derive(Debug)]
pub struct PlayerRoundStat {
    pub player_id: String,
    pub nickname: String,
    pub team: Team,
    pub kills: u32,
    pub deaths: u32,
    pub assists: u32,
    /// Damage dealt, in hundredths of a hit point
    pub damage_dealt: u32,
    pub headshots: u32,
    /// Whether this player planted the bomb
    pub planted_bomb: bool,
    /// Whether this player defused the bomb
    pub defused_bomb: bool,
}

/// The contribution of a round stat to its round, in ten-thousandths of a
/// point: 2 points a kill, half a point an assist, a hundredth of a point
/// per hit point of damage, 3 for planting and 5 for defusing the bomb.
pub open spec fn round_contribution(s: PlayerRoundStat) -> int {
    s.kills * 20000 + s.assists * 5000 + s.damage_dealt + (if s.planted_bomb {
        30000int
    } else {
        0
    }) + (if s.defused_bomb {
        50000int
    } else {
        0
    })
}

impl PlayerRoundStat {
    /// Headshots per kill, in hundredths of a percent (0 without kills).
    pub fn headshot_rate(&self) -> (r: u128)
        ensures
            r == percent_centi(self.headshots as u64, self.kills as u64),
    {
        percent_centi_of(self.headshots as u64, self.kills as u64)
    }

    /// Contribution score (for MVP calculation), in ten-thousandths of a point.
    pub fn contribution_score(&self) -> (r: u64)
        ensures
            r == round_contribution(*self),
    {
        let mut score: u64 = self.kills as u64 * 20000 + self.assists as u64 * 5000
            + self.damage_dealt as u64;
        if self.planted_bomb {
            score = score + 30000;
        }
        if self.defused_bomb {
            score = score + 50000;
        }
        score
    }
}

/// Summary of a completed round.
#[derive(Debug)]
pub struct RoundStats {
    pub round_number: u32,
    pub result: RoundResult,
    /// One entry per player, in player order
    pub player_stats: Vec<PlayerRoundStat>,
    pub kill_log: Vec<KillEvent>,
    /// Duration of the round in milliseconds
    pub duration_ms: u32,
}

/// How many kills of `log` by player `id` were headshots.
pub open spec fn headshot_count(log: Seq<KillEvent>, id: Seq<char>) -> nat
    decreases log.len(),
{
    if log.len() == 0 {
        0
    } else {
        headshot_count(log.drop_last(), id) + if log.last().killer_id@ == id
            && log.last().is_headshot {
            1nat
        } else {
            0
        }
    }
}

/// The round stat of player `p`, given the round's kill log.
pub open spec fn stat_of(p: PlayerView, log: Seq<KillEvent>) -> PlayerRoundStat {
    PlayerRoundStat {
        player_id: p.profile.id,
        nickname: p.profile.nickname,
        team: p.team,
        kills: p.round_kills,
        deaths: p.round_deaths,
        assists: p.round_assists,
        damage_dealt: p.round_damage,
        headshots: headshot_count(log, p.profile.id@) as u32,
        planted_bomb: p.is_carrying_bomb,
        defused_bomb: false,
    }
}

/// The index of the round MVP of `s`: the highest contribution, the last
/// of equal ones.
pub open spec fn round_mvp_index(s: Seq<PlayerRoundStat>) -> Option<int>
    decreases s.len(),
{
    if s.len() == 0 {
        None
    } else {
        let k = s.len() - 1;
        match round_mvp_index(s.drop_last()) {
            Some(j) => if round_contribution(s[k]) >= round_contribution(s[j]) {
                Some(k)
            } else {
                Some(j)
            },
            None => Some(k),
        }
    }
}

/// The scoreboard key of a round stat: kills first, then damage.
pub open spec fn round_board_key(s: PlayerRoundStat) -> u128 {
    (s.kills * 0x1_0000_0000 + s.damage_dealt) as u128
}

/// The scoreboard keys of `s`, in order.
pub open spec fn round_board_keys(s: Seq<PlayerRoundStat>) -> Seq<u128> {
    s.map_values(|x: PlayerRoundStat| round_board_key(x))
}

fn count_headshots(log: &Vec<KillEvent>, id: &str) -> (n: u32)
    ensures
        n == headshot_count(log@, id@) as u32,
{
    let mut n: usize = 0;
    let mut i: usize = 0;
    assert(log@.take(0) =~= Seq::<KillEvent>::empty());
    while i < log.len()
        invariant
            i <= log@.len(),
            n == headshot_count(log@.take(i as int), id@),
            n <= i,
        decreases log@.len() - i,
    {
        assert(log@.take(i + 1).drop_last() =~= log@.take(i as int));
        if str_eq(log[i].killer_id.as_str(), id) && log[i].is_headshot {
            n = n + 1;
        }
        i = i + 1;
    }
    assert(log@.take(log@.len() as int) =~= log@);
    n as u32
}

impl RoundStats {
    /// The stats of a finished round: one entry per player, in player
    /// order, with the player's round counters, their headshots from the
    /// kill log, and the bomb carrier marked as the planter.
    pub fn compile(
        round_number: u32,
        result: RoundResult,
        players: &Vec<Player>,
        kill_log: Vec<KillEvent>,
        duration_ms: u32,
    ) -> (r: Self)
        ensures
            r.round_number == round_number,
            r.result == result,
            r.player_stats@ == pviews(players@).map_values(|p: PlayerView| stat_of(p, kill_log@)),
            r.kill_log@ == kill_log@,
            r.duration_ms == duration_ms,
    {
        let mut player_stats: Vec<PlayerRoundStat> = Vec::new();
        let ghost target = pviews(players@).map_values(|p: PlayerView| stat_of(p, kill_log@));
        let mut i: usize = 0;
        while i < players.len()
            invariant
                i <= players@.len(),
                target == pviews(players@).map_values(|p: PlayerView| stat_of(p, kill_log@)),
                player_stats@ == target.take(i as int),
            decreases players@.len() - i,
        {
            let p = &players[i];
            let headshots = count_headshots(&kill_log, p.profile.id.as_str());
            player_stats.push(
                PlayerRoundStat {
                    player_id: p.profile.id.clone(),
                    nickname: p.profile.nickname.clone(),
                    team: p.team,
                    kills: p.round_kills,
                    deaths: p.round_deaths,
                    assists: p.round_assists,
                    damage_dealt: p.round_damage,
                    headshots,
                    planted_bomb: p.is_carrying_bomb,
                    defused_bomb: false,
                },
            );
            assert(player_stats@ =~= target.take(i + 1));
            i = i + 1;
        }
        assert(target.take(players@.len() as int) =~= target);
        RoundStats { round_number, result, player_stats, kill_log, duration_ms }
    }

    /// The MVP of this round: the highest contribution score (the last of
    /// equal ones).
    pub fn mvp(&self) -> (r: Option<&PlayerRoundStat>)
        ensures
            match round_mvp_index(self.player_stats@) {
                Some(k) => r == Some(&self.player_stats@[k]),
                None => r is None,
            },
    {
        let ghost s = self.player_stats@;
        let mut best: Option<usize> = None;
        let mut best_score: u64 = 0;
        let mut i: usize = 0;
        assert(s.take(0) =~= Seq::<PlayerRoundStat>::empty());
        while i < self.player_stats.len()
            invariant
                i <= s.len(),
                s == self.player_stats@,
                round_mvp_index(s.take(i as int)) == match best {
                    Some(j) => Some(j as int),
                    None => None::<int>,
                },
                best matches Some(j) ==> j < i && best_score == round_contribution(s[j as int]),
            decreases s.len() - i,
        {
            assert(s.take(i + 1).drop_last() =~= s.take(i as int));
            let score = self.player_stats[i].contribution_score();
            match best {
                Some(j) => {
                    assert(s.take(i + 1)[j as int] == s[j as int]);
                    if score >= best_score {
                        best = Some(i);
                        best_score = score;
                    }
                },
                None => {
                    best = Some(i);
                    best_score = score;
                },
            }
            i = i + 1;
        }
        assert(s.take(s.len() as int) =~= s);
        match best {
            Some(j) => Some(&self.player_stats[j]),
            None => None,
        }
    }

    /// The stats sorted by kills, then damage, both descending (equal ones
    /// in player order).
    pub fn scoreboard(&self) -> (r: Vec<&PlayerRoundStat>)
        ensures
            r@.len() == self.player_stats@.len(),
            forall|k: int|
                0 <= k < r@.len() ==> *#[trigger] r@[k] == self.player_stats@[desc_order(
                    round_board_keys(self.player_stats@),
                )[k] as int],
            forall|a: int, b: int|
                0 <= a < b < r@.len() ==> (#[trigger] r@[a]).kills > (#[trigger] r@[b]).kills || (
                r@[a].kills == r@[b].kills && r@[a].damage_dealt >= r@[b].damage_dealt),
    {
        let mut keys: Vec<u128> = Vec::new();
        let mut i: usize = 0;
        while i < self.player_stats.len()
            invariant
                i <= self.player_stats@.len(),
                keys@ == round_board_keys(self.player_stats@.take(i as int)),
            decreases self.player_stats@.len() - i,
        {
            let s = &self.player_stats[i];
            keys.push(s.kills as u128 * 0x1_0000_0000 + s.damage_dealt as u128);
            assert(keys@ =~= round_board_keys(self.player_stats@.take(i + 1)));
            i = i + 1;
        }
        assert(self.player_stats@.take(self.player_stats@.len() as int) =~= self.player_stats@);
        let order = sort_indices_desc(&keys);
        let mut out: Vec<&PlayerRoundStat> = Vec::new();
        let mut k: usize = 0;
        while k < order.len()
            invariant
                k <= order@.len(),
                order@ == desc_order(round_board_keys(self.player_stats@)),
                order@.len() == self.player_stats@.len(),
                forall|j: int| 0 <= j < order@.len() ==> #[trigger] order@[j] < self.player_stats@.len(),
                out@.len() == k,
                forall|j: int|
                    0 <= j < k ==> *#[trigger] out@[j] == self.player_stats@[order@[j] as int],
                keys@ == round_board_keys(self.player_stats@),
                is_desc_order(keys@, order@),
            decreases order@.len() - k,
        {
            out.push(&self.player_stats[order[k]]);
            k = k + 1;
        }
        assert forall|a: int, b: int| 0 <= a < b < out@.len() implies (#[trigger] out@[a]).kills
            > (#[trigger] out@[b]).kills || (out@[a].kills == out@[b].kills && out@[a].damage_dealt
            >= out@[b].damage_dealt) by {
            assert(desc_before(keys@, order@[a], order@[b]));
            let x = self.player_stats@[order@[a] as int];
            let y = self.player_stats@[order@[b] as int];
            assert(keys@[order@[a] as int] == x.kills * 0x1_0000_0000 + x.damage_dealt);
            assert(keys@[order@[b] as int] == y.kills * 0x1_0000_0000 + y.damage_dealt);
        }
        out
    }
}

} // verus!
