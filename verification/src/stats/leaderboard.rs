use vstd::prelude::*;
use crate::game::types::{rank_level, Rank};
use crate::player::types::{percent_centi, ratio_milli, PlayerProfile};
use crate::util::{desc_before, desc_order, is_desc_order, lemma_desc_order_exists, sort_indices_desc, str_eq};

verus! {

/// A single entry on the leaderboard.
#[derive(Debug)]
pub struct LeaderboardEntry {
    pub player_id: String,
    pub nickname: String,
    pub rank: Rank,
    /// Kills per death, in thousandths
    pub kd_ratio: u128,
    /// Matches won, in hundredths of a percent
    pub win_rate: u128,
    /// Headshot kills, in hundredths of a percent
    pub headshot_rate: u128,
    pub total_matches: u64,
    pub total_kills: u64,
}

impl LeaderboardEntry {
    /// The leaderboard entry of a profile.
    pub fn from_profile(profile: &PlayerProfile) -> (e: Self)
        ensures
            e.player_id == profile.id,
            e.nickname == profile.nickname,
            e.rank == profile.rank,
            e.kd_ratio == ratio_milli(profile.total_kills, profile.total_deaths),
            e.win_rate == percent_centi(profile.total_wins, profile.total_matches),
            e.headshot_rate == percent_centi(profile.total_headshots, profile.total_kills),
            e.total_matches == profile.total_matches,
            e.total_kills == profile.total_kills,
    {
        LeaderboardEntry {
            player_id: profile.id.clone(),
            nickname: profile.nickname.clone(),
            rank: profile.rank,
            kd_ratio: profile.kd_ratio(),
            win_rate: profile.win_rate(),
            headshot_rate: profile.headshot_rate(),
            total_matches: profile.total_matches,
            total_kills: profile.total_kills,
        }
    }
}

/// Sort criteria for the leaderboard.
#[derive(Debug, Clone, Copy, PartialEq, Eq, Structural)]
pub enum LeaderboardSort {
    ByRank,
    ByKD,
    ByWinRate,
    ByHeadshotRate,
    ByTotalKills,
}

/// The value an entry is ranked by under `sort` (higher ranks first).
pub open spec fn sort_key(e: LeaderboardEntry, sort: LeaderboardSort) -> u128 {
    match sort {
        LeaderboardSort::ByRank => rank_level(e.rank) as u128,
        LeaderboardSort::ByKD => e.kd_ratio,
        LeaderboardSort::ByWinRate => e.win_rate,
        LeaderboardSort::ByHeadshotRate => e.headshot_rate,
        LeaderboardSort::ByTotalKills => e.total_kills as u128,
    }
}

/// The indices of the entries of `s` with at least 10 matches played, in order.
pub open spec fn eligible(s: Seq<LeaderboardEntry>) -> Seq<usize>
    decreases s.len(),
{
    if s.len() == 0 {
        Seq::empty()
    } else if s.last().total_matches >= 10 {
        eligible(s.drop_last()).push((s.len() - 1) as usize)
    } else {
        eligible(s.drop_last())
    }
}

/// The keys of the entries at `idx` under `sort`.
pub open spec fn keys_at(s: Seq<LeaderboardEntry>, idx: Seq<usize>, sort: LeaderboardSort) -> Seq<u128> {
    idx.map_values(|i: usize| sort_key(s[i as int], sort))
}

/// The indices of the eligible entries of `s`, best first under `sort`
/// (equal ones in the order they were added).
pub open spec fn ranked(s: Seq<LeaderboardEntry>, sort: LeaderboardSort) -> Seq<usize> {
    let el = eligible(s);
    desc_order(keys_at(s, el, sort)).map_values(|k: usize| el[k as int])
}

/// The eligible indices are the entries with at least 10 matches, in order.
proof fn lemma_eligible(s: Seq<LeaderboardEntry>)
    requires
        s.len() <= usize::MAX,
    ensures
        eligible(s).len() <= s.len(),
        forall|k: int| 0 <= k < eligible(s).len() ==> #[trigger] eligible(s)[k] < s.len()
            && s[eligible(s)[k] as int].total_matches >= 10,
        forall|i: int|
            0 <= i < s.len() && #[trigger] s[i].total_matches >= 10 ==> eligible(s).contains(i as usize),
    decreases s.len(),
{
    if s.len() > 0 {
        let d = s.drop_last();
        lemma_eligible(d);
        let e = eligible(s);
        let pe = eligible(d);
        assert forall|k: int| 0 <= k < e.len() implies #[trigger] e[k] < s.len() && s[e[k] as int].total_matches
            >= 10 by {
            if k < pe.len() {
                assert(e[k] == pe[k]);
                assert(d[pe[k] as int] == s[pe[k] as int]);
            }
        }
        assert forall|i: int| 0 <= i < s.len() && #[trigger] s[i].total_matches >= 10 implies e.contains(
            i as usize,
        ) by {
            if i < s.len() - 1 {
                assert(d[i] == s[i]);
                assert(pe.contains(i as usize));
                let k = choose|k: int| 0 <= k < pe.len() && pe[k] == i as usize;
                assert(e[k] == pe[k]);
            } else {
                assert(e[e.len() - 1] == i as usize);
            }
        }
    }
}

/// The leaderboard ranking under each order: it holds exactly the entries
/// with at least 10 matches played, and lists them from the highest value
/// of the chosen statistic down (rank, kills per death, win rate, headshot
/// rate or total kills).
pub proof fn lemma_ranked_by_statistic(s: Seq<LeaderboardEntry>, sort: LeaderboardSort)
    requires
        s.len() <= usize::MAX,
    ensures
        forall|k: int| 0 <= k < ranked(s, sort).len() ==> #[trigger] ranked(s, sort)[k] < s.len()
            && s[ranked(s, sort)[k] as int].total_matches >= 10,
        forall|i: int|
            0 <= i < s.len() && #[trigger] s[i].total_matches >= 10 ==> ranked(s, sort).contains(i as usize),
        forall|a: int, b: int|
            0 <= a < b < ranked(s, sort).len() ==> {
                let x = s[#[trigger] ranked(s, sort)[a] as int];
                let y = s[#[trigger] ranked(s, sort)[b] as int];
                &&& sort == LeaderboardSort::ByRank ==> rank_level(x.rank) >= rank_level(y.rank)
                &&& sort == LeaderboardSort::ByKD ==> x.kd_ratio >= y.kd_ratio
                &&& sort == LeaderboardSort::ByWinRate ==> x.win_rate >= y.win_rate
                &&& sort == LeaderboardSort::ByHeadshotRate ==> x.headshot_rate >= y.headshot_rate
                &&& sort == LeaderboardSort::ByTotalKills ==> x.total_kills >= y.total_kills
            },
{
    lemma_eligible(s);
    let el = eligible(s);
    let keys = keys_at(s, el, sort);
    lemma_desc_order_exists(keys);
    let o = desc_order(keys);
    let r = ranked(s, sort);
    assert(r == o.map_values(|k: usize| el[k as int]));
    assert forall|k: int| 0 <= k < r.len() implies #[trigger] r[k] < s.len() && s[r[k] as int].total_matches
        >= 10 by {
        assert(r[k] == el[o[k] as int]);
    }
    assert forall|i: int| 0 <= i < s.len() && #[trigger] s[i].total_matches >= 10 implies r.contains(
        i as usize,
    ) by {
        assert(el.contains(i as usize));
        let m = choose|m: int| 0 <= m < el.len() && el[m] == i as usize;
        assert(o.contains(m as usize));
        let k = choose|k: int| 0 <= k < o.len() && o[k] == m as usize;
        assert(r[k] == i as usize);
    }
    assert forall|a: int, b: int| 0 <= a < b < r.len() implies {
        let x = s[#[trigger] r[a] as int];
        let y = s[#[trigger] r[b] as int];
        &&& sort == LeaderboardSort::ByRank ==> rank_level(x.rank) >= rank_level(y.rank)
        &&& sort == LeaderboardSort::ByKD ==> x.kd_ratio >= y.kd_ratio
        &&& sort == LeaderboardSort::ByWinRate ==> x.win_rate >= y.win_rate
        &&& sort == LeaderboardSort::ByHeadshotRate ==> x.headshot_rate >= y.headshot_rate
        &&& sort == LeaderboardSort::ByTotalKills ==> x.total_kills >= y.total_kills
    } by {
        assert(desc_before(keys, o[a], o[b]));
        assert(r[a] == el[o[a] as int] && r[b] == el[o[b] as int]);
        assert(keys[o[a] as int] == sort_key(s[el[o[a] as int] as int], sort));
        assert(keys[o[b] as int] == sort_key(s[el[o[b] as int] as int], sort));
        assert(0 <= rank_level(s[r[a] as int].rank) && 0 <= rank_level(s[r[b] as int].rank));
    }
}

/// The first position of `r` whose entry is player `id`, if any.
pub open spec fn first_position(s: Seq<LeaderboardEntry>, r: Seq<usize>, id: Seq<char>) -> Option<int>
    decreases r.len(),
{
    if r.len() == 0 {
        None
    } else if s[r[0] as int].player_id@ == id {
        Some(0)
    } else {
        match first_position(s, r.drop_first(), id) {
            Some(i) => Some(i + 1),
            None => None,
        }
    }
}

/// The index of the first entry of `s` for player `id`, if any.
pub open spec fn entry_of(s: Seq<LeaderboardEntry>, id: Seq<char>) -> Option<int>
    decreases s.len(),
{
    if s.len() == 0 {
        None
    } else if s[0].player_id@ == id {
        Some(0)
    } else {
        match entry_of(s.drop_first(), id) {
            Some(i) => Some(i + 1),
            None => None,
        }
    }
}

proof fn lemma_entry_of(s: Seq<LeaderboardEntry>, id: Seq<char>)
    ensures
        entry_of(s, id) matches Some(i) ==> (0 <= i < s.len() && s[i].player_id@ == id
            && forall|j: int| 0 <= j < i ==> #[trigger] s[j].player_id@ != id),
        entry_of(s, id) is None ==> forall|j: int| 0 <= j < s.len() ==> #[trigger] s[j].player_id@ != id,
    decreases s.len(),
{
    if s.len() > 0 && s[0].player_id@ != id {
        lemma_entry_of(s.drop_first(), id);
        assert forall|j: int| 0 < j < s.len() implies s[j] == s.drop_first()[j - 1] by {}
    }
}

/// In-memory leaderboard for fast retrieval.
pub struct Leaderboard {
    entries: Vec<LeaderboardEntry>,
}

fn key_of(e: &LeaderboardEntry, sort: LeaderboardSort) -> (k: u128)
    ensures
        k == sort_key(*e, sort),
{
    match sort {
        LeaderboardSort::ByRank => e.rank.level() as u128,
        LeaderboardSort::ByKD => e.kd_ratio,
        LeaderboardSort::ByWinRate => e.win_rate,
        LeaderboardSort::ByHeadshotRate => e.headshot_rate,
        LeaderboardSort::ByTotalKills => e.total_kills as u128,
    }
}

impl Leaderboard {
    /// The entries, in the order they were added.
    pub closed spec fn entries(&self) -> Seq<LeaderboardEntry> {
        self.entries@
    }

    pub fn new() -> (l: Self)
        ensures
            l.entries().len() == 0,
    {
        Leaderboard { entries: Vec::new() }
    }

    fn index_of(&self, player_id: &str) -> (r: Option<usize>)
        ensures
            match r {
                Some(k) => entry_of(self.entries(), player_id@) == Some(k as int) && k
                    < self.entries().len(),
                None => entry_of(self.entries(), player_id@) is None,
            },
    {
        proof {
            lemma_entry_of(self.entries@, player_id@);
        }
        let mut i: usize = 0;
        while i < self.entries.len()
            invariant
                i <= self.entries@.len(),
                forall|j: int| 0 <= j < i ==> #[trigger] self.entries@[j].player_id@ != player_id@,
                entry_of(self.entries@, player_id@) matches Some(k) ==> (0 <= k
                    < self.entries@.len() && self.entries@[k].player_id@ == player_id@
                    && forall|j: int|
                    0 <= j < k ==> #[trigger] self.entries@[j].player_id@ != player_id@),
                entry_of(self.entries@, player_id@) is None ==> forall|j: int|
                    0 <= j < self.entries@.len() ==> #[trigger] self.entries@[j].player_id@
                        != player_id@,
            decreases self.entries@.len() - i,
        {
            if str_eq(self.entries[i].player_id.as_str(), player_id) {
                proof {
                    if let Some(k) = entry_of(self.entries@, player_id@) {
                        assert(!(k < i));
                        assert(!(i < k));
                    }
                }
                return Some(i);
            }
            i = i + 1;
        }
        None
    }

    /// Add or refresh the entry of a profile.
    pub fn upsert(&mut self, profile: &PlayerProfile)
        ensures
            final(self).entries().len() == match entry_of(old(self).entries(), profile.id@) {
                Some(k) => old(self).entries().len(),
                None => old(self).entries().len() + 1,
            },
            ({
                let k = match entry_of(old(self).entries(), profile.id@) {
                    Some(k) => k,
                    None => old(self).entries().len() as int,
                };
                &&& forall|j: int|
                    0 <= j < old(self).entries().len() && j != k ==> #[trigger] final(self).entries()[j]
                        == old(self).entries()[j]
                &&& final(self).entries()[k].player_id == profile.id
                &&& final(self).entries()[k].nickname == profile.nickname
                &&& final(self).entries()[k].rank == profile.rank
                &&& final(self).entries()[k].kd_ratio == ratio_milli(
                    profile.total_kills,
                    profile.total_deaths,
                )
                &&& final(self).entries()[k].win_rate == percent_centi(
                    profile.total_wins,
                    profile.total_matches,
                )
                &&& final(self).entries()[k].headshot_rate == percent_centi(
                    profile.total_headshots,
                    profile.total_kills,
                )
                &&& final(self).entries()[k].total_matches == profile.total_matches
                &&& final(self).entries()[k].total_kills == profile.total_kills
            }),
    {
        let entry = LeaderboardEntry::from_profile(profile);
        match self.index_of(profile.id.as_str()) {
            Some(k) => {
                self.entries.set(k, entry);
            },
            None => {
                self.entries.push(entry);
            },
        }
    }

    /// Remove a player's entry, if present.
    pub fn remove(&mut self, player_id: &str)
        ensures
            final(self).entries() == match entry_of(old(self).entries(), player_id@) {
                Some(k) => old(self).entries().remove(k),
                None => old(self).entries(),
            },
    {
        if let Some(k) = self.index_of(player_id) {
            self.entries.remove(k);
        }
    }

    /// The eligible entries' indices, best first under `sort`.
    fn ranked_indices(&self, sort: LeaderboardSort) -> (r: Vec<usize>)
        ensures
            r@ == ranked(self.entries(), sort),
            forall|k: int| 0 <= k < r@.len() ==> #[trigger] r@[k] < self.entries().len(),
            forall|k: int|
                0 <= k < r@.len() ==> #[trigger] self.entries()[r@[k] as int].total_matches >= 10,
            forall|a: int, b: int|
                0 <= a < b < r@.len() ==> sort_key(self.entries()[#[trigger] r@[a] as int], sort)
                    >= sort_key(self.entries()[#[trigger] r@[b] as int], sort),
    {
        // Only players with enough matches are on the leaderboard
        let ghost s = self.entries@;
        let mut el: Vec<usize> = Vec::new();
        let mut i: usize = 0;
        assert(s.take(0) =~= Seq::<LeaderboardEntry>::empty());
        while i < self.entries.len()
            invariant
                i <= s.len(),
                s == self.entries@,
                el@ == eligible(s.take(i as int)),
                forall|k: int| 0 <= k < el@.len() ==> #[trigger] el@[k] < i,
                forall|k: int| 0 <= k < el@.len() ==> #[trigger] s[el@[k] as int].total_matches >= 10,
            decreases s.len() - i,
        {
            assert(s.take(i + 1).drop_last() =~= s.take(i as int));
            if self.entries[i].total_matches >= 10 {
                el.push(i);
            }
            i = i + 1;
        }
        assert(s.take(s.len() as int) =~= s);
        let mut keys: Vec<u128> = Vec::new();
        let mut j: usize = 0;
        while j < el.len()
            invariant
                j <= el@.len(),
                s == self.entries@,
                forall|k: int| 0 <= k < el@.len() ==> #[trigger] el@[k] < s.len(),
                forall|k: int| 0 <= k < el@.len() ==> #[trigger] s[el@[k] as int].total_matches >= 10,
                keys@ == keys_at(s, el@.take(j as int), sort),
            decreases el@.len() - j,
        {
            keys.push(key_of(&self.entries[el[j]], sort));
            assert(keys@ =~= keys_at(s, el@.take(j + 1), sort));
            j = j + 1;
        }
        assert(el@.take(el@.len() as int) =~= el@);
        let order = sort_indices_desc(&keys);
        let mut out: Vec<usize> = Vec::new();
        let mut k: usize = 0;
        while k < order.len()
            invariant
                k <= order@.len(),
                order@.len() == el@.len(),
                forall|m: int| 0 <= m < order@.len() ==> #[trigger] order@[m] < el@.len(),
                forall|m: int| 0 <= m < el@.len() ==> #[trigger] el@[m] < s.len(),
                forall|m: int| 0 <= m < el@.len() ==> #[trigger] s[el@[m] as int].total_matches >= 10,
                s == self.entries@,
                keys@ == keys_at(s, el@, sort),
                is_desc_order(keys@, order@),
                out@ == order@.take(k as int).map_values(|x: usize| el@[x as int]),
            decreases order@.len() - k,
        {
            out.push(el[order[k]]);
            assert(out@ =~= order@.take(k + 1).map_values(|x: usize| el@[x as int]));
            k = k + 1;
        }
        assert(order@.take(order@.len() as int) =~= order@);
        assert forall|a: int, b: int| 0 <= a < b < out@.len() implies sort_key(
            s[#[trigger] out@[a] as int],
            sort,
        ) >= sort_key(s[#[trigger] out@[b] as int], sort) by {
            assert(desc_before(keys@, order@[a], order@[b]));
            assert(keys@[order@[a] as int] == sort_key(s[el@[order@[a] as int] as int], sort));
            assert(keys@[order@[b] as int] == sort_key(s[el@[order@[b] as int] as int], sort));
        }
        out
    }

    /// The top `n` players under `sort`; only players with at least 10
    /// matches are listed.
    pub fn top(&self, n: usize, sort: LeaderboardSort) -> (r: Vec<&LeaderboardEntry>)
        ensures
            r@.len() == if n < ranked(self.entries(), sort).len() {
                n as int
            } else {
                ranked(self.entries(), sort).len() as int
            },
            forall|k: int|
                0 <= k < r@.len() ==> *#[trigger] r@[k] == self.entries()[ranked(
                    self.entries(),
                    sort,
                )[k] as int],
            forall|k: int| 0 <= k < r@.len() ==> (#[trigger] r@[k]).total_matches >= 10,
            forall|a: int, b: int|
                0 <= a < b < r@.len() ==> sort_key(*#[trigger] r@[a], sort) >= sort_key(
                    *#[trigger] r@[b],
                    sort,
                ),
    {
        let idx = self.ranked_indices(sort);
        let mut out: Vec<&LeaderboardEntry> = Vec::new();
        let mut k: usize = 0;
        while k < idx.len() && k < n
            invariant
                k <= idx@.len(),
                idx@ == ranked(self.entries@, sort),
                forall|m: int| 0 <= m < idx@.len() ==> #[trigger] idx@[m] < self.entries@.len(),
                out@.len() == k,
                k <= n,
                forall|m: int| 0 <= m < k ==> *#[trigger] out@[m] == self.entries@[idx@[m] as int],
                forall|m: int|
                    0 <= m < idx@.len() ==> #[trigger] self.entries@[idx@[m] as int].total_matches >= 10,
                forall|a: int, b: int|
                    0 <= a < b < idx@.len() ==> sort_key(self.entries@[#[trigger] idx@[a] as int], sort)
                        >= sort_key(self.entries@[#[trigger] idx@[b] as int], sort),
            decreases idx@.len() - k,
        {
            out.push(&self.entries[idx[k]]);
            k = k + 1;
        }
        out
    }

    /// The 1-based position of a player on the leaderboard under `sort`
    /// (None if not ranked).
    pub fn player_rank_position(&self, player_id: &str, sort: LeaderboardSort) -> (r: Option<usize>)
        ensures
            match first_position(self.entries(), ranked(self.entries(), sort), player_id@) {
                Some(i) => r == Some((i + 1) as usize),
                None => r is None,
            },
    {
        let idx = self.ranked_indices(sort);
        let ghost rk = idx@;
        let mut k: usize = 0;
        assert(rk.skip(0) =~= rk);
        while k < idx.len()
            invariant
                k <= rk.len(),
                rk == idx@,
                rk == ranked(self.entries@, sort),
                forall|m: int| 0 <= m < rk.len() ==> #[trigger] rk[m] < self.entries@.len(),
                first_position(self.entries@, rk, player_id@) == match first_position(
                    self.entries@,
                    rk.skip(k as int),
                    player_id@,
                ) {
                    Some(i) => Some(i + k),
                    None => None::<int>,
                },
            decreases rk.len() - k,
        {
            assert(rk.skip(k as int).drop_first() =~= rk.skip(k + 1));
            assert(rk.skip(k as int)[0] == rk[k as int]);
            if str_eq(self.entries[idx[k]].player_id.as_str(), player_id) {
                assert(first_position(self.entries@, rk.skip(k as int), player_id@) == Some(0int));
                return Some(k + 1);
            }
            k = k + 1;
        }
        assert(rk.skip(k as int).len() == 0);
        None
    }

    /// Number of players with an entry.
    pub fn total_players(&self) -> (n: usize)
        ensures
            n == self.entries().len(),
    {
        self.entries.len()
    }
}

impl Default for Leaderboard {
    fn default() -> (l: Self)
        ensures
            l.entries().len() == 0,
    {
        Self::new()
    }
}

} // verus!
