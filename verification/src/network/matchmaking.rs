use vstd::prelude::*;
use crate::game::types::{rank_level, GameMode, Rank};
use crate::services::now_millis;
use crate::util::str_eq;

verus! {

/// A player entry in the matchmaking queue.
#[derive(Debug)]
pub struct MatchmakingEntry {
    pub player_id: String,
    pub nickname: String,
    pub rank: Rank,
    pub game_mode: GameMode,
    /// When the player joined the queue, in milliseconds since the Unix epoch
    pub queued_at_ms: i64,
    /// Estimated ping in ms (used for region matching)
    pub estimated_ping_ms: u32,
}

/// The result of a successful matchmaking session.
#[derive(Debug)]
pub struct MatchmakingResult {
    pub map_name: String,
    pub game_mode: GameMode,
    pub player_ids: Vec<String>,
}

/// Matchmaking timeout in seconds before a queued player is dropped.
pub const MATCHMAKING_TIMEOUT_SECS: i64 = 60;

/// Players per match (5v5).
pub const PLAYERS_PER_MATCH: usize = 10;

/// Maximum rank difference for a balanced match.
pub const MAX_RANK_DIFF: i32 = 3;

/// Whole seconds from `then` to `now` (both in milliseconds), rounded
/// toward zero.
pub open spec fn secs_between(now: i64, then: i64) -> int {
    let d = now - then;
    if d >= 0 {
        d / 1000
    } else {
        -((-d) / 1000)
    }
}

/// How long `e` has waited at time `now`, in whole seconds.
pub open spec fn waited(e: MatchmakingEntry, now: i64) -> int {
    secs_between(now, e.queued_at_ms)
}

impl MatchmakingEntry {
    /// An entry queued now.
    pub fn new(player_id: String, nickname: String, rank: Rank, game_mode: GameMode, ping_ms: u32) -> (e: Self)
        ensures
            e.player_id == player_id,
            e.nickname == nickname,
            e.rank == rank,
            e.game_mode == game_mode,
            e.estimated_ping_ms == ping_ms,
    {
        MatchmakingEntry {
            player_id,
            nickname,
            rank,
            game_mode,
            queued_at_ms: now_millis(),
            estimated_ping_ms: ping_ms,
        }
    }

    /// How long the player has been waiting, in seconds, at time `now_ms`.
    pub fn wait_secs_at(&self, now_ms: i64) -> (s: i64)
        ensures
            s == waited(*self, now_ms),
    {
        let d: i128 = now_ms as i128 - self.queued_at_ms as i128;
        if d >= 0 {
            (d / 1000) as i64
        } else {
            -(((-d) / 1000) as i64)
        }
    }

    /// How long the player has been waiting, in seconds, as of now.
    pub fn wait_secs(&self) -> (s: i64)
        ensures
            exists|now: i64| s == #[trigger] waited(*self, now),
    {
        self.wait_secs_at(now_millis())
    }
}

/// Entry `a` (at index `ia`) goes before entry `b` (at index `ib`) in a
/// match search, by rank proximity, then ping, then wait time: lower rank
/// first; for equal ranks the lower ping first; then the longest waiting
/// (earliest queued) first; then queue order.
pub open spec fn goes_before(a: MatchmakingEntry, ia: int, b: MatchmakingEntry, ib: int) -> bool {
    ||| rank_level(a.rank) < rank_level(b.rank)
    ||| rank_level(a.rank) == rank_level(b.rank) && a.estimated_ping_ms < b.estimated_ping_ms
    ||| rank_level(a.rank) == rank_level(b.rank) && a.estimated_ping_ms == b.estimated_ping_ms
        && a.queued_at_ms < b.queued_at_ms
    ||| rank_level(a.rank) == rank_level(b.rank) && a.estimated_ping_ms == b.estimated_ping_ms
        && a.queued_at_ms == b.queued_at_ms && ia < ib
}

/// The indices `o` into `q` are in strict search order.
pub open spec fn in_search_order(q: Seq<MatchmakingEntry>, o: Seq<usize>) -> bool {
    forall|a: int, b: int|
        0 <= a < b < o.len() ==> goes_before(
            q[#[trigger] o[a] as int],
            o[a] as int,
            q[#[trigger] o[b] as int],
            o[b] as int,
        )
}

/// `o` lists exactly the indices of the entries of `q` in mode `m`, each
/// once, in search order.
pub open spec fn is_mode_order(q: Seq<MatchmakingEntry>, m: GameMode, o: Seq<usize>) -> bool {
    &&& forall|k: int| 0 <= k < o.len() ==> #[trigger] o[k] < q.len() && q[o[k] as int].game_mode == m
    &&& forall|i: int| 0 <= i < q.len() && #[trigger] q[i].game_mode == m ==> o.contains(i as usize)
    &&& in_search_order(q, o)
}

/// The search order of the entries of `q` in mode `m` (there is exactly
/// one; see `lemma_search_order_unique`).
pub open spec fn search_order(q: Seq<MatchmakingEntry>, m: GameMode) -> Seq<usize> {
    choose|o: Seq<usize>| is_mode_order(q, m, o)
}

/// The first window of `PLAYERS_PER_MATCH` consecutive entries of order `o`,
/// starting at or after `start`, whose ranks are at most `MAX_RANK_DIFF` apart.
pub open spec fn window_from(q: Seq<MatchmakingEntry>, o: Seq<usize>, start: int) -> Option<int>
    decreases o.len() - start,
{
    if start < 0 || start + 10 > o.len() {
        None
    } else if rank_level(q[o[start + 9] as int].rank) - rank_level(q[o[start] as int].rank) <= 3 {
        Some(start)
    } else {
        window_from(q, o, start + 1)
    }
}

/// The entries of order `o` that have waited more than 30 seconds at `now`.
pub open spec fn long_waiters(q: Seq<MatchmakingEntry>, o: Seq<usize>, now: i64) -> Seq<usize>
    decreases o.len(),
{
    if o.len() == 0 {
        Seq::empty()
    } else {
        let prev = long_waiters(q, o.drop_last(), now);
        if waited(q[o.last() as int], now) > 30 {
            prev.push(o.last())
        } else {
            prev
        }
    }
}

/// The indices picked for a match from the search order `o`: the first
/// window of close ranks, else the first ten long waiters, else none.
pub open spec fn pick(q: Seq<MatchmakingEntry>, o: Seq<usize>, now: i64) -> Option<Seq<usize>> {
    if o.len() < 10 {
        None
    } else {
        match window_from(q, o, 0) {
            Some(w) => Some(o.subrange(w, w + 10)),
            None => if long_waiters(q, o, now).len() >= 10 {
                Some(long_waiters(q, o, now).take(10))
            } else {
                None
            },
        }
    }
}

/// The mode and the entries of `q` a match is formed from at `now`: the
/// modes are tried in the order bomb defusal, team deathmatch, deathmatch.
pub open spec fn match_pick(q: Seq<MatchmakingEntry>, now: i64) -> Option<(GameMode, Seq<usize>)> {
    match pick(q, search_order(q, GameMode::BombDefusal), now) {
        Some(sel) => Some((GameMode::BombDefusal, sel)),
        None => match pick(q, search_order(q, GameMode::TeamDeathmatch), now) {
            Some(sel) => Some((GameMode::TeamDeathmatch, sel)),
            None => match pick(q, search_order(q, GameMode::Deathmatch), now) {
                Some(sel) => Some((GameMode::Deathmatch, sel)),
                None => None,
            },
        },
    }
}

/// The map a formed match is played on: the first preferred one, else de_dust2.
pub open spec fn map_choice(maps: Seq<&str>) -> Seq<char> {
    if maps.len() > 0 {
        maps[0]@
    } else {
        "de_dust2"@
    }
}

/// The search order is a strict total order on (entry, index) pairs with
/// distinct indices.
proof fn lemma_goes_before_order(
    a: MatchmakingEntry,
    ia: int,
    b: MatchmakingEntry,
    ib: int,
    c: MatchmakingEntry,
    ic: int,
)
    ensures
        !goes_before(a, ia, a, ia),
        goes_before(a, ia, b, ib) ==> !goes_before(b, ib, a, ia),
        ia != ib ==> goes_before(a, ia, b, ib) || goes_before(b, ib, a, ia),
        goes_before(a, ia, b, ib) && goes_before(b, ib, c, ic) ==> goes_before(a, ia, c, ic),
{
}

/// Two lists in strict search order with the same members are the same list.
proof fn lemma_sorted_unique(q: Seq<MatchmakingEntry>, o1: Seq<usize>, o2: Seq<usize>)
    requires
        in_search_order(q, o1),
        in_search_order(q, o2),
        forall|x: usize| o1.contains(x) <==> o2.contains(x),
    ensures
        o1 == o2,
    decreases o1.len(),
{
    if o1.len() == 0 {
        if o2.len() > 0 {
            assert(o2.contains(o2[0]));
        }
        assert(o1 =~= o2);
    } else {
        assert(o1.contains(o1[0]));
        if o2.len() == 0 {
            assert(false);
        }
        assert(o2.contains(o2[0]));
        let x = o1[0];
        let y = o2[0];
        let j = choose|j: int| 0 <= j < o2.len() && o2[j] == x;
        let i = choose|i: int| 0 <= i < o1.len() && o1[i] == y;
        if x != y {
            assert(j > 0 && i > 0);
            assert(goes_before(q[y as int], y as int, q[x as int], x as int));
            assert(goes_before(q[x as int], x as int, q[y as int], y as int));
            lemma_goes_before_order(q[x as int], x as int, q[y as int], y as int, q[x as int], x as int);
        }
        let t1 = o1.drop_first();
        let t2 = o2.drop_first();
        assert forall|a: int, b: int| 0 <= a < b < t1.len() implies goes_before(
            q[t1[a] as int],
            t1[a] as int,
            q[t1[b] as int],
            t1[b] as int,
        ) by {
            assert(t1[a] == o1[a + 1] && t1[b] == o1[b + 1]);
        }
        assert forall|a: int, b: int| 0 <= a < b < t2.len() implies goes_before(
            q[t2[a] as int],
            t2[a] as int,
            q[t2[b] as int],
            t2[b] as int,
        ) by {
            assert(t2[a] == o2[a + 1] && t2[b] == o2[b + 1]);
        }
        assert forall|z: usize| t1.contains(z) <==> t2.contains(z) by {
            if t1.contains(z) {
                let k = choose|k: int| 0 <= k < t1.len() && t1[k] == z;
                assert(o1[k + 1] == z);
                assert(o1.contains(z));
                let k2 = choose|k2: int| 0 <= k2 < o2.len() && o2[k2] == z;
                if k2 == 0 {
                    assert(goes_before(q[o1[0] as int], o1[0] as int, q[o1[k + 1] as int], o1[k + 1] as int));
                    lemma_goes_before_order(q[z as int], z as int, q[z as int], z as int, q[z as int], z as int);
                }
                assert(t2[k2 - 1] == z);
            }
            if t2.contains(z) {
                let k = choose|k: int| 0 <= k < t2.len() && t2[k] == z;
                assert(o2[k + 1] == z);
                assert(o2.contains(z));
                let k1 = choose|k1: int| 0 <= k1 < o1.len() && o1[k1] == z;
                if k1 == 0 {
                    assert(goes_before(q[o2[0] as int], o2[0] as int, q[o2[k + 1] as int], o2[k + 1] as int));
                    lemma_goes_before_order(q[z as int], z as int, q[z as int], z as int, q[z as int], z as int);
                }
                assert(t1[k1 - 1] == z);
            }
        }
        lemma_sorted_unique(q, t1, t2);
        assert(o1 =~= o2) by {
            assert forall|k: int| 0 <= k < o1.len() implies o1[k] == o2[k] by {
                if k > 0 {
                    assert(o1[k] == t1[k - 1] && o2[k] == t2[k - 1]);
                }
            }
        }
    }
}

/// There is at most one search order of the entries in a mode: any two
/// are the same list.
pub proof fn lemma_search_order_unique(
    q: Seq<MatchmakingEntry>,
    m: GameMode,
    o1: Seq<usize>,
    o2: Seq<usize>,
)
    requires
        is_mode_order(q, m, o1),
        is_mode_order(q, m, o2),
    ensures
        o1 == o2,
{
    assert forall|x: usize| o1.contains(x) <==> o2.contains(x) by {
        if o1.contains(x) {
            let k = choose|k: int| 0 <= k < o1.len() && o1[k] == x;
            assert(q[x as int].game_mode == m);
        }
        if o2.contains(x) {
            let k = choose|k: int| 0 <= k < o2.len() && o2[k] == x;
            assert(q[x as int].game_mode == m);
        }
    }
    lemma_sorted_unique(q, o1, o2);
}

proof fn lemma_long_waiters_from(q: Seq<MatchmakingEntry>, o: Seq<usize>, now: i64)
    ensures
        forall|k: int|
            0 <= k < long_waiters(q, o, now).len() ==> o.contains(#[trigger] long_waiters(q, o, now)[k]),
    decreases o.len(),
{
    if o.len() > 0 {
        lemma_long_waiters_from(q, o.drop_last(), now);
        let prev = long_waiters(q, o.drop_last(), now);
        assert forall|k: int| 0 <= k < prev.len() implies o.contains(#[trigger] prev[k]) by {
            let j = choose|j: int| 0 <= j < o.drop_last().len() && o.drop_last()[j] == prev[k];
            assert(o[j] == prev[k]);
        }
        assert(o[o.len() - 1] == o.last());
    }
}

/// A pick is always exactly ten entries, all taken from the search order.
pub proof fn lemma_pick_size(q: Seq<MatchmakingEntry>, o: Seq<usize>, now: i64)
    ensures
        pick(q, o, now) matches Some(sel) ==> sel.len() == 10 && forall|k: int|
            0 <= k < 10 ==> o.contains(#[trigger] sel[k]),
{
    lemma_window_from(q, o, 0);
    lemma_long_waiters_from(q, o, now);
    if let Some(sel) = pick(q, o, now) {
        if let Some(w) = window_from(q, o, 0) {
            assert forall|k: int| 0 <= k < 10 implies o.contains(#[trigger] sel[k]) by {
                assert(sel[k] == o[w + k]);
            }
        } else {
            assert forall|k: int| 0 <= k < 10 implies o.contains(#[trigger] sel[k]) by {
                assert(sel[k] == long_waiters(q, o, now)[k]);
            }
        }
    }
}

proof fn lemma_window_from(q: Seq<MatchmakingEntry>, o: Seq<usize>, start: int)
    ensures
        window_from(q, o, start) matches Some(w) ==> (start <= w && 0 <= w && w + 10 <= o.len()
            && rank_level(q[o[w + 9] as int].rank) - rank_level(q[o[w] as int].rank) <= 3),
    decreases o.len() - start,
{
    if !(start < 0 || start + 10 > o.len()) && !(rank_level(q[o[start + 9] as int].rank)
        - rank_level(q[o[start] as int].rank) <= 3) {
        lemma_window_from(q, o, start + 1);
    }
}

/// A match formed from a window of the search order is balanced: the
/// ranks of any two of its ten players are at most `MAX_RANK_DIFF` apart.
pub proof fn lemma_window_is_balanced(
    q: Seq<MatchmakingEntry>,
    m: GameMode,
    o: Seq<usize>,
    a: int,
    b: int,
)
    requires
        is_mode_order(q, m, o),
        window_from(q, o, 0) is Some,
        window_from(q, o, 0)->0 <= a < window_from(q, o, 0)->0 + 10,
        window_from(q, o, 0)->0 <= b < window_from(q, o, 0)->0 + 10,
    ensures
        -3 <= rank_level(q[o[a] as int].rank) - rank_level(q[o[b] as int].rank) <= 3,
{
    lemma_window_from(q, o, 0);
    let w = window_from(q, o, 0)->0;
    assert forall|x: int, y: int| w <= x <= y < w + 10 implies rank_level(q[o[x] as int].rank)
        <= rank_level(q[o[y] as int].rank) by {
        if x < y {
            assert(goes_before(q[o[x] as int], o[x] as int, q[o[y] as int], o[y] as int));
        }
    }
    assert(rank_level(q[o[w] as int].rank) <= rank_level(q[o[a] as int].rank));
    assert(rank_level(q[o[a] as int].rank) <= rank_level(q[o[w + 9] as int].rank));
    assert(rank_level(q[o[w] as int].rank) <= rank_level(q[o[b] as int].rank));
    assert(rank_level(q[o[b] as int].rank) <= rank_level(q[o[w + 9] as int].rank));
}

/// The entries of `q` still within the matchmaking timeout at `now`.
pub open spec fn not_timed_out(q: Seq<MatchmakingEntry>, now: i64) -> Seq<MatchmakingEntry>
    decreases q.len(),
{
    if q.len() == 0 {
        Seq::empty()
    } else {
        let prev = not_timed_out(q.drop_last(), now);
        if waited(q.last(), now) > 60 {
            prev
        } else {
            prev.push(q.last())
        }
    }
}

/// The entries of `q` whose indices `sel` does not hold.
pub open spec fn without(q: Seq<MatchmakingEntry>, sel: Seq<usize>) -> Seq<MatchmakingEntry>
    decreases q.len(),
{
    if q.len() == 0 {
        Seq::empty()
    } else {
        let prev = without(q.drop_last(), sel);
        if sel.contains((q.len() - 1) as usize) {
            prev
        } else {
            prev.push(q.last())
        }
    }
}

/// The index of the first entry of `q` for player `id`, if any.
pub open spec fn entry_index(q: Seq<MatchmakingEntry>, id: Seq<char>) -> Option<int>
    decreases q.len(),
{
    if q.len() == 0 {
        None
    } else if q[0].player_id@ == id {
        Some(0)
    } else {
        match entry_index(q.drop_first(), id) {
            Some(i) => Some(i + 1),
            None => None,
        }
    }
}

/// Where `entry_index` finds an entry, it is for `id` and no earlier one
/// is; where it finds none, no entry is.
pub proof fn lemma_entry_index(q: Seq<MatchmakingEntry>, id: Seq<char>)
    ensures
        entry_index(q, id) matches Some(i) ==> (0 <= i < q.len() && q[i].player_id@ == id
            && forall|j: int| 0 <= j < i ==> #[trigger] q[j].player_id@ != id),
        entry_index(q, id) is None ==> forall|j: int|
            0 <= j < q.len() ==> #[trigger] q[j].player_id@ != id,
    decreases q.len(),
{
    if q.len() > 0 && q[0].player_id@ != id {
        lemma_entry_index(q.drop_first(), id);
        assert forall|j: int| 0 < j < q.len() implies q[j] == q.drop_first()[j - 1] by {}
    }
}

/// Whether entry `a` goes before entry `b` of `q` in a match search.
fn entry_before(q: &Vec<MatchmakingEntry>, a: usize, b: usize) -> (r: bool)
    requires
        a < q@.len(),
        b < q@.len(),
    ensures
        r == goes_before(q@[a as int], a as int, q@[b as int], b as int),
{
    let ra = q[a].rank.level();
    let rb = q[b].rank.level();
    let pa = q[a].estimated_ping_ms;
    let pb = q[b].estimated_ping_ms;
    ra < rb || (ra == rb && pa < pb) || (ra == rb && pa == pb && q[a].queued_at_ms
        < q[b].queued_at_ms) || (ra == rb && pa == pb && q[a].queued_at_ms == q[b].queued_at_ms
        && a < b)
}

/// The indices of the entries of `q` in mode `m`, in search order.
fn mode_order(q: &Vec<MatchmakingEntry>, m: GameMode) -> (o: Vec<usize>)
    ensures
        is_mode_order(q@, m, o@),
{
    let mut o: Vec<usize> = Vec::new();
    let mut i: usize = 0;
    while i < q.len()
        invariant
            i <= q@.len(),
            forall|k: int| 0 <= k < o@.len() ==> #[trigger] o@[k] < i && q@[o@[k] as int].game_mode == m,
            forall|j: int| 0 <= j < i && #[trigger] q@[j].game_mode == m ==> o@.contains(j as usize),
            in_search_order(q@, o@),
        decreases q@.len() - i,
    {
        if q[i].game_mode == m {
            let mut p: usize = 0;
            while p < o.len() && entry_before(q, o[p], i)
                invariant
                    i < q@.len(),
                    p <= o@.len(),
                    forall|k: int| 0 <= k < o@.len() ==> #[trigger] o@[k] < i,
                    forall|k: int|
                        0 <= k < p ==> goes_before(
                            q@[#[trigger] o@[k] as int],
                            o@[k] as int,
                            q@[i as int],
                            i as int,
                        ),
                decreases o@.len() - p,
            {
                p = p + 1;
            }
            let ghost before = o@;
            proof {
                assert forall|k: int| p <= k < before.len() implies goes_before(
                    q@[i as int],
                    i as int,
                    q@[#[trigger] before[k] as int],
                    before[k] as int,
                ) by {
                    let x = before[p as int];
                    lemma_goes_before_order(q@[x as int], x as int, q@[i as int], i as int, q@[x as int], x as int);
                    if k > p {
                        assert(goes_before(q@[x as int], x as int, q@[before[k] as int], before[k] as int));
                        lemma_goes_before_order(
                            q@[i as int],
                            i as int,
                            q@[x as int],
                            x as int,
                            q@[before[k] as int],
                            before[k] as int,
                        );
                    }
                }
            }
            o.insert(p, i);
            proof {
                assert forall|a: int, b: int| 0 <= a < b < o@.len() implies goes_before(
                    q@[#[trigger] o@[a] as int],
                    o@[a] as int,
                    q@[#[trigger] o@[b] as int],
                    o@[b] as int,
                ) by {
                    if a < p && b < p {
                        assert(o@[a] == before[a] && o@[b] == before[b]);
                    } else if a < p && b == p {
                        assert(o@[a] == before[a]);
                    } else if a < p && b > p {
                        assert(o@[a] == before[a] && o@[b] == before[b - 1]);
                    } else if a == p {
                        assert(o@[b] == before[b - 1]);
                    } else {
                        assert(o@[a] == before[a - 1] && o@[b] == before[b - 1]);
                    }
                }
                assert forall|j: int| 0 <= j <= i && #[trigger] q@[j].game_mode == m implies o@.contains(
                    j as usize,
                ) by {
                    if j == i {
                        assert(o@[p as int] == i);
                    } else {
                        let k = choose|k: int| 0 <= k < before.len() && before[k] == j as usize;
                        if k < p {
                            assert(o@[k] == j as usize);
                        } else {
                            assert(o@[k + 1] == j as usize);
                        }
                    }
                }
                assert forall|k: int| 0 <= k < o@.len() implies #[trigger] o@[k] < i + 1 && q@[o@[k] as int].game_mode == m by {
                    if k < p {
                        assert(o@[k] == before[k]);
                    } else if k > p {
                        assert(o@[k] == before[k - 1]);
                    }
                }
            }
        }
        i = i + 1;
    }
    o
}

/// The indices a match would be formed from, out of the search order `o`.
fn pick_from(q: &Vec<MatchmakingEntry>, o: &Vec<usize>, now_ms: i64) -> (r: Option<Vec<usize>>)
    requires
        forall|k: int| 0 <= k < o@.len() ==> #[trigger] o@[k] < q@.len(),
    ensures
        match pick(q@, o@, now_ms) {
            Some(sel) => r matches Some(v) && v@ == sel,
            None => r is None,
        },
        r matches Some(v) ==> forall|k: int| 0 <= k < v@.len() ==> #[trigger] v@[k] < q@.len(),
{
    let n = o.len();
    if n < PLAYERS_PER_MATCH {
        return None;
    }
    // Greedy window search: the first window with rank spread within MAX_RANK_DIFF
    let mut w: usize = 0;
    while w <= n - PLAYERS_PER_MATCH
        invariant
            n == o@.len(),
            n >= 10,
            w + 10 <= n + 1,
            forall|k: int| 0 <= k < o@.len() ==> #[trigger] o@[k] < q@.len(),
            window_from(q@, o@, 0) == window_from(q@, o@, w as int),
        decreases n - w,
    {
        let min_rank = q[o[w]].rank.level();
        let max_rank = q[o[w + PLAYERS_PER_MATCH - 1]].rank.level();
        if max_rank - min_rank <= MAX_RANK_DIFF {
            let mut sel: Vec<usize> = Vec::new();
            let mut k: usize = w;
            while k < w + PLAYERS_PER_MATCH
                invariant
                    w <= k <= w + 10,
                    w + 10 <= n,
                    n == o@.len(),
                    forall|j: int| 0 <= j < o@.len() ==> #[trigger] o@[j] < q@.len(),
                    sel@ == o@.subrange(w as int, k as int),
                decreases w + 10 - k,
            {
                sel.push(o[k]);
                assert(sel@ =~= o@.subrange(w as int, k + 1));
                k = k + 1;
            }
            return Some(sel);
        }
        w = w + 1;
    }
    assert(window_from(q@, o@, w as int) is None);
    // Expand rank tolerance for long-waiting players (> 30 s)
    let mut waiters: Vec<usize> = Vec::new();
    let mut i: usize = 0;
    assert(o@.take(0) =~= Seq::<usize>::empty());
    while i < n
        invariant
            i <= n,
            n == o@.len(),
            forall|k: int| 0 <= k < o@.len() ==> #[trigger] o@[k] < q@.len(),
            waiters@ == long_waiters(q@, o@.take(i as int), now_ms),
            forall|j: int| 0 <= j < waiters@.len() ==> #[trigger] waiters@[j] < q@.len(),
        decreases n - i,
    {
        assert(o@.take(i + 1).drop_last() =~= o@.take(i as int));
        if q[o[i]].wait_secs_at(now_ms) > 30 {
            waiters.push(o[i]);
        }
        i = i + 1;
    }
    assert(o@.take(n as int) =~= o@);
    if waiters.len() >= PLAYERS_PER_MATCH {
        let mut sel: Vec<usize> = Vec::new();
        let mut k: usize = 0;
        while k < PLAYERS_PER_MATCH
            invariant
                k <= 10,
                waiters@.len() >= 10,
                forall|j: int| 0 <= j < waiters@.len() ==> #[trigger] waiters@[j] < q@.len(),
                sel@ == waiters@.take(k as int),
            decreases 10 - k,
        {
            sel.push(waiters[k]);
            assert(sel@ =~= waiters@.take(k + 1));
            k = k + 1;
        }
        return Some(sel);
    }
    None
}

/// Whether `sel` holds `x`.
fn holds(sel: &Vec<usize>, x: usize) -> (b: bool)
    ensures
        b == sel@.contains(x),
{
    let mut i: usize = 0;
    while i < sel.len()
        invariant
            i <= sel@.len(),
            forall|k: int| 0 <= k < i ==> sel@[k] != x,
        decreases sel@.len() - i,
    {
        if sel[i] == x {
            return true;
        }
        i = i + 1;
    }
    false
}

/// How many entries of `q` are in `mode` within `MAX_RANK_DIFF` of `rank`.
pub open spec fn similar_count(q: Seq<MatchmakingEntry>, rank: Rank, mode: GameMode) -> nat
    decreases q.len(),
{
    if q.len() == 0 {
        0
    } else {
        let prev = similar_count(q.drop_last(), rank, mode);
        let d = rank_level(q.last().rank) - rank_level(rank);
        if q.last().game_mode == mode && -3 <= d <= 3 {
            prev + 1
        } else {
            prev
        }
    }
}

/// The wait estimate for `similar` players near the rank: 5 seconds when
/// nearly a match is there, 20 when half, else 45.
pub open spec fn wait_estimate(similar: nat) -> u32 {
    if similar >= 9 {
        5
    } else if similar >= 5 {
        20
    } else {
        45
    }
}

/// `r` and the queue left behind, `rest`, are what forming a match from the
/// (already pruned) queue `q` at `now` gives: the picked players in pick
/// order, the mode, and the map, with the picked entries gone from the
/// queue; or nothing, with the queue as it was.
pub open spec fn formed(
    q: Seq<MatchmakingEntry>,
    now: i64,
    maps: Seq<&str>,
    r: Option<MatchmakingResult>,
    rest: Seq<MatchmakingEntry>,
) -> bool {
    match match_pick(q, now) {
        Some((m, sel)) => match r {
            Some(res) => {
                &&& res.game_mode == m
                &&& res.map_name@ == map_choice(maps)
                &&& res.player_ids@.len() == sel.len()
                &&& forall|k: int|
                    0 <= k < sel.len() ==> #[trigger] res.player_ids@[k] == q[sel[k] as int].player_id
                &&& rest == without(q, sel)
            },
            None => false,
        },
        None => r is None && rest == q,
    }
}

/// No two entries of `q` are for the same player.
pub open spec fn queue_ids_unique(q: Seq<MatchmakingEntry>) -> bool {
    forall|i: int, j: int|
        0 <= i < q.len() && 0 <= j < q.len() && i != j ==> #[trigger] q[i].player_id@
            != #[trigger] q[j].player_id@
}

/// The queue `q` after `e` joins it: the entry of the same player, if any,
/// is replaced, else `e` joins at the back.
pub open spec fn enqueued(q: Seq<MatchmakingEntry>, e: MatchmakingEntry) -> Seq<MatchmakingEntry> {
    match entry_index(q, e.player_id@) {
        Some(k) => q.update(k, e),
        None => q.push(e),
    }
}

/// A queue keeps one entry per player: joining never adds a second entry
/// for a player, and the joining player is then queued.
pub proof fn lemma_enqueue_keeps_one_entry_per_player(q: Seq<MatchmakingEntry>, e: MatchmakingEntry)
    requires
        queue_ids_unique(q),
    ensures
        queue_ids_unique(enqueued(q, e)),
        exists|i: int|
            0 <= i < enqueued(q, e).len() && #[trigger] enqueued(q, e)[i].player_id@ == e.player_id@,
{
    lemma_entry_index(q, e.player_id@);
    let r = enqueued(q, e);
    match entry_index(q, e.player_id@) {
        Some(k) => {
            assert(r[k].player_id@ == e.player_id@);
        },
        None => {
            assert(r[q.len() as int].player_id@ == e.player_id@);
        },
    }
}

/// Leaving the queue removes the player entirely, once each player has one
/// entry.
pub proof fn lemma_dequeue_removes_player(q: Seq<MatchmakingEntry>, id: Seq<char>)
    requires
        queue_ids_unique(q),
    ensures
        entry_index(q, id) matches Some(k) ==> forall|j: int|
            0 <= j < q.remove(k).len() ==> #[trigger] q.remove(k)[j].player_id@ != id,
{
    lemma_entry_index(q, id);
    if let Some(k) = entry_index(q, id) {
        assert forall|j: int| 0 <= j < q.remove(k).len() implies #[trigger] q.remove(k)[j].player_id@
            != id by {
            if j < k {
                assert(q.remove(k)[j] == q[j]);
            } else {
                assert(q.remove(k)[j] == q[j + 1]);
            }
        }
    }
}

/// A list in strict search order holds no index twice.
proof fn lemma_ordered_distinct(q: Seq<MatchmakingEntry>, o: Seq<usize>)
    requires
        in_search_order(q, o),
    ensures
        forall|a: int, b: int| 0 <= a < b < o.len() ==> #[trigger] o[a] != #[trigger] o[b],
{
    assert forall|a: int, b: int| 0 <= a < b < o.len() implies #[trigger] o[a] != #[trigger] o[b] by {
        assert(goes_before(q[o[a] as int], o[a] as int, q[o[b] as int], o[b] as int));
    }
}

/// The long waiters of a list in search order are in search order too.
proof fn lemma_long_waiters_ordered(q: Seq<MatchmakingEntry>, o: Seq<usize>, now: i64)
    requires
        in_search_order(q, o),
    ensures
        in_search_order(q, long_waiters(q, o, now)),
    decreases o.len(),
{
    if o.len() > 0 {
        let d = o.drop_last();
        assert forall|a: int, b: int| 0 <= a < b < d.len() implies goes_before(
            q[#[trigger] d[a] as int],
            d[a] as int,
            q[#[trigger] d[b] as int],
            d[b] as int,
        ) by {
            assert(d[a] == o[a] && d[b] == o[b]);
        }
        lemma_long_waiters_ordered(q, d, now);
        lemma_long_waiters_from(q, d, now);
        let prev = long_waiters(q, d, now);
        let lw = long_waiters(q, o, now);
        if waited(q[o.last() as int], now) > 30 {
            assert forall|a: int, b: int| 0 <= a < b < lw.len() implies goes_before(
                q[#[trigger] lw[a] as int],
                lw[a] as int,
                q[#[trigger] lw[b] as int],
                lw[b] as int,
            ) by {
                if b < prev.len() {
                    assert(lw[a] == prev[a] && lw[b] == prev[b]);
                } else {
                    assert(lw[a] == prev[a]);
                    assert(d.contains(prev[a]));
                    let j = choose|j: int| 0 <= j < d.len() && d[j] == prev[a];
                    assert(o[j] == prev[a]);
                    assert(lw[b] == o[o.len() - 1]);
                }
            }
        }
    }
}

/// The indices a pick takes from a list in search order are all different.
proof fn lemma_pick_distinct(q: Seq<MatchmakingEntry>, o: Seq<usize>, now: i64)
    requires
        in_search_order(q, o),
    ensures
        pick(q, o, now) matches Some(sel) ==> forall|a: int, b: int|
            0 <= a < b < sel.len() ==> #[trigger] sel[a] != #[trigger] sel[b],
{
    lemma_window_from(q, o, 0);
    if let Some(sel) = pick(q, o, now) {
        if let Some(w) = window_from(q, o, 0) {
            lemma_ordered_distinct(q, o);
            assert forall|a: int, b: int| 0 <= a < b < sel.len() implies #[trigger] sel[a]
                != #[trigger] sel[b] by {
                assert(sel[a] == o[w + a] && sel[b] == o[w + b]);
            }
        } else {
            lemma_long_waiters_ordered(q, o, now);
            let lw = long_waiters(q, o, now);
            lemma_ordered_distinct(q, lw);
            assert forall|a: int, b: int| 0 <= a < b < sel.len() implies #[trigger] sel[a]
                != #[trigger] sel[b] by {
                assert(sel[a] == lw[a] && sel[b] == lw[b]);
            }
        }
    }
}

/// The entries left after removing the indices `sel` from a queue with one
/// entry per player: each is an entry of the queue at an index outside
/// `sel`, and they still hold one entry per player.
proof fn lemma_without_from(q: Seq<MatchmakingEntry>, sel: Seq<usize>)
    requires
        queue_ids_unique(q),
    ensures
        forall|i: int|
            0 <= i < without(q, sel).len() ==> exists|j: int|
                0 <= j < q.len() && !sel.contains(j as usize) && #[trigger] without(q, sel)[i]
                    == q[j],
        queue_ids_unique(without(q, sel)),
    decreases q.len(),
{
    if q.len() > 0 {
        let d = q.drop_last();
        assert forall|i: int, j: int|
            0 <= i < d.len() && 0 <= j < d.len() && i != j implies #[trigger] d[i].player_id@
            != #[trigger] d[j].player_id@ by {
            assert(d[i] == q[i] && d[j] == q[j]);
        }
        lemma_without_from(d, sel);
        let prev = without(d, sel);
        let r = without(q, sel);
        assert forall|i: int| 0 <= i < r.len() implies exists|j: int|
            0 <= j < q.len() && !sel.contains(j as usize) && #[trigger] r[i] == q[j] by {
            if i < prev.len() {
                let j = choose|j: int| 0 <= j < d.len() && !sel.contains(j as usize) && prev[i] == d[j];
                assert(r[i] == q[j]);
            } else {
                assert(r[i] == q[q.len() - 1]);
            }
        }
        if !sel.contains((q.len() - 1) as usize) {
            assert forall|i: int, j: int|
                0 <= i < r.len() && 0 <= j < r.len() && i != j implies #[trigger] r[i].player_id@
                != #[trigger] r[j].player_id@ by {
                if i < prev.len() && j < prev.len() {
                    assert(r[i] == prev[i] && r[j] == prev[j]);
                } else if i < prev.len() {
                    let a = choose|a: int| 0 <= a < d.len() && !sel.contains(a as usize) && prev[i] == d[a];
                    assert(r[i] == q[a]);
                    assert(r[j] == q[q.len() - 1]);
                } else {
                    let a = choose|a: int| 0 <= a < d.len() && !sel.contains(a as usize) && prev[j] == d[a];
                    assert(r[j] == q[a]);
                    assert(r[i] == q[q.len() - 1]);
                }
            }
        }
    }
}

/// The entries still within the timeout, from a queue with one entry per
/// player: each is an entry of the queue, and they still hold one entry
/// per player.
proof fn lemma_not_timed_out_from(q: Seq<MatchmakingEntry>, now: i64)
    requires
        queue_ids_unique(q),
    ensures
        forall|i: int|
            0 <= i < not_timed_out(q, now).len() ==> exists|j: int|
                0 <= j < q.len() && #[trigger] not_timed_out(q, now)[i] == q[j],
        queue_ids_unique(not_timed_out(q, now)),
    decreases q.len(),
{
    if q.len() > 0 {
        let d = q.drop_last();
        assert forall|i: int, j: int|
            0 <= i < d.len() && 0 <= j < d.len() && i != j implies #[trigger] d[i].player_id@
            != #[trigger] d[j].player_id@ by {
            assert(d[i] == q[i] && d[j] == q[j]);
        }
        lemma_not_timed_out_from(d, now);
        let prev = not_timed_out(d, now);
        let r = not_timed_out(q, now);
        assert forall|i: int| 0 <= i < r.len() implies exists|j: int|
            0 <= j < q.len() && #[trigger] r[i] == q[j] by {
            if i < prev.len() {
                let j = choose|j: int| 0 <= j < d.len() && prev[i] == d[j];
                assert(r[i] == q[j]);
            } else {
                assert(r[i] == q[q.len() - 1]);
            }
        }
        if waited(q.last(), now) <= 60 {
            assert forall|i: int, j: int|
                0 <= i < r.len() && 0 <= j < r.len() && i != j implies #[trigger] r[i].player_id@
                != #[trigger] r[j].player_id@ by {
                if i < prev.len() && j < prev.len() {
                    assert(r[i] == prev[i] && r[j] == prev[j]);
                } else if i < prev.len() {
                    let a = choose|a: int| 0 <= a < d.len() && prev[i] == d[a];
                    assert(r[i] == q[a]);
                    assert(r[j] == q[q.len() - 1]);
                } else {
                    let a = choose|a: int| 0 <= a < d.len() && prev[j] == d[a];
                    assert(r[j] == q[a]);
                    assert(r[i] == q[q.len() - 1]);
                }
            }
        }
    }
}

/// From a queue with one entry per player, a formed match holds ten
/// different players, none of whom is left in the queue, and the queue
/// left keeps one entry per player.
proof fn lemma_formed_players(
    q: Seq<MatchmakingEntry>,
    now: i64,
    maps: Seq<&str>,
    r: Option<MatchmakingResult>,
    rest: Seq<MatchmakingEntry>,
)
    requires
        queue_ids_unique(q),
        formed(q, now, maps, r, rest),
        match_pick(q, now) matches Some((m, _)) ==> is_mode_order(q, m, search_order(q, m)),
    ensures
        queue_ids_unique(rest),
        r matches Some(res) ==> matched_apart(res, rest),
{
    match match_pick(q, now) {
        Some((m, sel)) => {
            let o = search_order(q, m);
            let res = r->0;
            assert(pick(q, o, now) == Some(sel)) by {
                if m != GameMode::BombDefusal {
                    assert(pick(q, search_order(q, GameMode::BombDefusal), now) is None);
                }
            }
            lemma_pick_distinct(q, o, now);
            lemma_pick_size(q, o, now);
            lemma_without_from(q, sel);
            assert forall|k: int| 0 <= k < 10 implies #[trigger] sel[k] < q.len() by {
                assert(o.contains(sel[k]));
                let t = choose|t: int| 0 <= t < o.len() && o[t] == sel[k];
                assert(o[t] < q.len());
            }
            assert forall|a: int, b: int|
                0 <= a < res.player_ids@.len() && 0 <= b < res.player_ids@.len() && a != b
                    implies #[trigger] res.player_ids@[a]@ != #[trigger] res.player_ids@[b]@ by {
                assert(res.player_ids@[a] == q[sel[a] as int].player_id);
                assert(res.player_ids@[b] == q[sel[b] as int].player_id);
                if a < b {
                    assert(sel[a] != sel[b]);
                } else {
                    assert(sel[b] != sel[a]);
                }
            }
            assert forall|k: int, j: int| 0 <= k < res.player_ids@.len() && 0 <= j < rest.len()
                implies #[trigger] rest[j].player_id@ != #[trigger] res.player_ids@[k]@ by {
                assert(res.player_ids@[k] == q[sel[k] as int].player_id);
                let i = choose|i: int| 0 <= i < q.len() && !sel.contains(i as usize) && rest[j] == q[i];
                assert(sel.contains(sel[k]));
            }
        },
        None => {},
    }
}

/// The players of match `res` are all different, and none of them is in
/// the queue `rest`.
pub open spec fn matched_apart(res: MatchmakingResult, rest: Seq<MatchmakingEntry>) -> bool {
    &&& forall|a: int, b: int|
        0 <= a < res.player_ids@.len() && 0 <= b < res.player_ids@.len() && a != b
            ==> #[trigger] res.player_ids@[a]@ != #[trigger] res.player_ids@[b]@
    &&& forall|k: int, j: int|
        0 <= k < res.player_ids@.len() && 0 <= j < rest.len() ==> #[trigger] rest[j].player_id@
            != #[trigger] res.player_ids@[k]@
}

/// The global matchmaking queue.
pub struct MatchmakingQueue {
    entries: Vec<MatchmakingEntry>,
}

impl MatchmakingQueue {
    /// The queued entries, in the order they joined.
    pub closed spec fn entries(&self) -> Seq<MatchmakingEntry> {
        self.entries@
    }

    /// The queue holds one entry per player.
    #[verifier::type_invariant]
    spec fn one_entry_per_player(self) -> bool {
        queue_ids_unique(self.entries@)
    }

    pub fn new() -> (q: Self)
        ensures
            q.entries().len() == 0,
            queue_ids_unique(q.entries()),
    {
        MatchmakingQueue { entries: Vec::new() }
    }

    fn index_of(&self, player_id: &str) -> (r: Option<usize>)
        ensures
            match r {
                Some(k) => entry_index(self.entries(), player_id@) == Some(k as int),
                None => entry_index(self.entries(), player_id@) is None,
            },
    {
        proof {
            lemma_entry_index(self.entries@, player_id@);
        }
        let mut i: usize = 0;
        while i < self.entries.len()
            invariant
                i <= self.entries@.len(),
                forall|j: int| 0 <= j < i ==> #[trigger] self.entries@[j].player_id@ != player_id@,
                entry_index(self.entries@, player_id@) matches Some(k) ==> (0 <= k
                    < self.entries@.len() && self.entries@[k].player_id@ == player_id@
                    && forall|j: int|
                    0 <= j < k ==> #[trigger] self.entries@[j].player_id@ != player_id@),
                entry_index(self.entries@, player_id@) is None ==> forall|j: int|
                    0 <= j < self.entries@.len() ==> #[trigger] self.entries@[j].player_id@
                        != player_id@,
            decreases self.entries@.len() - i,
        {
            if str_eq(self.entries[i].player_id.as_str(), player_id) {
                proof {
                    if let Some(k) = entry_index(self.entries@, player_id@) {
                        assert(!(k < i));
                        assert(!(i < k));
                    }
                }
                return Some(i);
            }
            i = i + 1;
        }
        None
    }

    /// Add a player to the queue, replacing an existing entry for the same
    /// player if present.
    pub fn enqueue(&mut self, entry: MatchmakingEntry)
        ensures
            final(self).entries() == enqueued(old(self).entries(), entry),
            queue_ids_unique(final(self).entries()),
    {
        proof {
            use_type_invariant(&*self);
            lemma_enqueue_keeps_one_entry_per_player(self.entries@, entry);
        }
        let found = self.index_of(entry.player_id.as_str());
        proof {
            lemma_entry_index(self.entries@, entry.player_id@);
        }
        let mut es: Vec<MatchmakingEntry> = Vec::new();
        std::mem::swap(&mut es, &mut self.entries);
        match found {
            Some(k) => {
                es.set(k, entry);
            },
            None => {
                es.push(entry);
            },
        }
        self.entries = es;
    }

    /// Remove a player from the queue; returns whether they were queued.
    pub fn dequeue(&mut self, player_id: &str) -> (removed: bool)
        ensures
            removed == entry_index(old(self).entries(), player_id@) is Some,
            final(self).entries() == match entry_index(old(self).entries(), player_id@) {
                Some(k) => old(self).entries().remove(k),
                None => old(self).entries(),
            },
            queue_ids_unique(final(self).entries()),
    {
        proof {
            use_type_invariant(&*self);
        }
        match self.index_of(player_id) {
            Some(k) => {
                proof {
                    lemma_entry_index(self.entries@, player_id@);
                    let q = self.entries@;
                    let r = q.remove(k as int);
                    assert forall|i: int, j: int|
                        0 <= i < r.len() && 0 <= j < r.len() && i != j implies #[trigger] r[i].player_id@
                        != #[trigger] r[j].player_id@ by {
                        let a = if i < k { i } else { i + 1 };
                        let b = if j < k { j } else { j + 1 };
                        assert(r[i] == q[a] && r[j] == q[b]);
                    }
                }
                let mut es: Vec<MatchmakingEntry> = Vec::new();
                std::mem::swap(&mut es, &mut self.entries);
                es.remove(k);
                self.entries = es;
                true
            },
            None => false,
        }
    }

    /// Whether a player is in the queue.
    pub fn is_queued(&self, player_id: &str) -> (b: bool)
        ensures
            b == exists|i: int|
                0 <= i < self.entries().len() && #[trigger] self.entries()[i].player_id@
                    == player_id@,
    {
        proof {
            lemma_entry_index(self.entries@, player_id@);
        }
        let r = self.index_of(player_id);
        proof {
            if let Some(k) = entry_index(self.entries@, player_id@) {
                assert(self.entries@[k].player_id@ == player_id@);
            }
        }
        r.is_some()
    }

    /// Remove entries that have exceeded the matchmaking timeout at `now_ms`.
    fn prune_timed_out(&mut self, now_ms: i64)
        ensures
            final(self).entries() == not_timed_out(old(self).entries(), now_ms),
    {
        proof {
            use_type_invariant(&*self);
            lemma_not_timed_out_from(self.entries@, now_ms);
        }
        let ghost orig = self.entries@;
        let mut rest: Vec<MatchmakingEntry> = Vec::new();
        std::mem::swap(&mut rest, &mut self.entries);
        let mut kept: Vec<MatchmakingEntry> = Vec::new();
        let mut k: usize = 0;
        assert(orig.take(0) =~= Seq::<MatchmakingEntry>::empty());
        assert(orig.skip(0) =~= orig);
        assert(orig.len() == rest.len());
        while rest.len() > 0
            invariant
                k <= orig.len(),
                orig.len() <= usize::MAX,
                rest@ == orig.skip(k as int),
                kept@ == not_timed_out(orig.take(k as int), now_ms),
            decreases rest@.len(),
        {
            let e = rest.remove(0);
            assert(orig.take(k + 1).drop_last() =~= orig.take(k as int));
            assert(orig.skip(k + 1) =~= orig.skip(k as int).drop_first());
            assert(e == orig[k as int]);
            if e.wait_secs_at(now_ms) <= MATCHMAKING_TIMEOUT_SECS {
                kept.push(e);
            }
            k = k + 1;
        }
        assert(orig.take(orig.len() as int) =~= orig);
        self.entries = kept;
    }

    /// Remove the entries at the indices `sel` holds.
    fn remove_selected(&mut self, sel: &Vec<usize>)
        ensures
            final(self).entries() == without(old(self).entries(), sel@),
    {
        proof {
            use_type_invariant(&*self);
            lemma_without_from(self.entries@, sel@);
        }
        let ghost orig = self.entries@;
        let mut rest: Vec<MatchmakingEntry> = Vec::new();
        std::mem::swap(&mut rest, &mut self.entries);
        let mut kept: Vec<MatchmakingEntry> = Vec::new();
        let mut k: usize = 0;
        assert(orig.take(0) =~= Seq::<MatchmakingEntry>::empty());
        assert(orig.skip(0) =~= orig);
        assert(orig.len() == rest.len());
        while rest.len() > 0
            invariant
                k <= orig.len(),
                orig.len() <= usize::MAX,
                rest@ == orig.skip(k as int),
                kept@ == without(orig.take(k as int), sel@),
            decreases rest@.len(),
        {
            let e = rest.remove(0);
            assert(orig.take(k + 1).drop_last() =~= orig.take(k as int));
            assert(orig.skip(k + 1) =~= orig.skip(k as int).drop_first());
            assert(e == orig[k as int]);
            if !holds(sel, k) {
                kept.push(e);
            }
            k = k + 1;
        }
        assert(orig.take(orig.len() as int) =~= orig);
        self.entries = kept;
    }

    /// Attempt to form a match from the queued players at time `now_ms`.
    ///
    /// Timed-out entries leave the queue first. Then each game mode is tried
    /// in turn: its entries are put in search order (rank, then ping, then
    /// the earliest queued first), and the first ten consecutive ones whose ranks
    /// are at most `MAX_RANK_DIFF` apart form the match; failing such a
    /// window, the first ten that have waited more than 30 seconds do. The
    /// matched players leave the queue.
    pub fn try_form_match_at(&mut self, now_ms: i64, preferred_maps: &[&str]) -> (r: Option<
        MatchmakingResult,
    >)
        ensures
            formed(
                not_timed_out(old(self).entries(), now_ms),
                now_ms,
                preferred_maps@,
                r,
                final(self).entries(),
            ),
            r matches Some(res) ==> res.player_ids@.len() == 10 && matched_apart(
                res,
                final(self).entries(),
            ),
            match_pick(not_timed_out(old(self).entries(), now_ms), now_ms) matches Some((m, sel))
                ==> forall|k: int|
                0 <= k < sel.len() ==> #[trigger] not_timed_out(old(self).entries(), now_ms)[sel[k] as int].game_mode == m,
            queue_ids_unique(final(self).entries()),
    {
        proof {
            use_type_invariant(&*self);
            lemma_not_timed_out_from(self.entries@, now_ms);
        }
        // Remove timed-out entries
        self.prune_timed_out(now_ms);
        let ghost q1 = self.entries@;
        let mut mi: usize = 0;
        while mi < 3
            invariant
                mi <= 3,
                self.entries@ == q1,
                q1 == not_timed_out(old(self).entries(), now_ms),
                queue_ids_unique(q1),
                mi >= 1 ==> pick(q1, search_order(q1, GameMode::BombDefusal), now_ms) is None,
                mi >= 2 ==> pick(q1, search_order(q1, GameMode::TeamDeathmatch), now_ms) is None,
                mi >= 3 ==> pick(q1, search_order(q1, GameMode::Deathmatch), now_ms) is None,
            decreases 3 - mi,
        {
            let mode = if mi == 0 {
                GameMode::BombDefusal
            } else if mi == 1 {
                GameMode::TeamDeathmatch
            } else {
                GameMode::Deathmatch
            };
            let order = mode_order(&self.entries, mode);
            proof {
                lemma_search_order_unique(q1, mode, order@, search_order(q1, mode));
            }
            if let Some(sel) = pick_from(&self.entries, &order, now_ms) {
                let mut player_ids: Vec<String> = Vec::new();
                let mut k: usize = 0;
                while k < sel.len()
                    invariant
                        k <= sel@.len(),
                        self.entries@ == q1,
                        forall|j: int| 0 <= j < sel@.len() ==> #[trigger] sel@[j] < q1.len(),
                        player_ids@.len() == k,
                        forall|j: int|
                            0 <= j < k ==> #[trigger] player_ids@[j] == q1[sel@[j] as int].player_id,
                    decreases sel@.len() - k,
                {
                    player_ids.push(self.entries[sel[k]].player_id.clone());
                    k = k + 1;
                }
                // Remove matched players from queue
                self.remove_selected(&sel);
                let map_name = if preferred_maps.len() > 0 {
                    preferred_maps[0].to_owned()
                } else {
                    "de_dust2".to_owned()
                };
                proof {
                    lemma_pick_size(q1, order@, now_ms);
                    assert forall|j: int| 0 <= j < sel@.len() implies #[trigger] q1[sel@[j] as int].game_mode == mode by {
                        assert(order@.contains(sel@[j]));
                        let t = choose|t: int| 0 <= t < order@.len() && order@[t] == sel@[j];
                        assert(q1[order@[t] as int].game_mode == mode);
                    }
                }
                let res = MatchmakingResult { map_name, game_mode: mode, player_ids };
                assert(formed(q1, now_ms, preferred_maps@, Some(res), self.entries@));
                proof {
                    assert(order@ == search_order(q1, mode));
                    lemma_formed_players(q1, now_ms, preferred_maps@, Some(res), self.entries@);
                }
                return Some(res);
            }
            mi = mi + 1;
        }
        None
    }

    /// Attempt to form a match from the queued players now (see
    /// `try_form_match_at`, which this runs at the current time).
    pub fn try_form_match(&mut self, preferred_maps: &[&str]) -> (r: Option<MatchmakingResult>)
        ensures
            exists|now: i64|
                formed(
                    #[trigger] not_timed_out(old(self).entries(), now),
                    now,
                    preferred_maps@,
                    r,
                    final(self).entries(),
                ) && (match_pick(not_timed_out(old(self).entries(), now), now) matches Some((m, sel))
                    ==> forall|k: int|
                    0 <= k < sel.len() ==> #[trigger] not_timed_out(old(self).entries(), now)[sel[k] as int].game_mode
                        == m),
            r matches Some(res) ==> res.player_ids@.len() == 10 && matched_apart(
                res,
                final(self).entries(),
            ),
            queue_ids_unique(final(self).entries()),
    {
        let now = now_millis();
        self.try_form_match_at(now, preferred_maps)
    }

    /// A rough wait estimate, in seconds, for a player of `rank` queueing
    /// for `mode`, from how many queued players are near that rank.
    pub fn estimated_wait_secs(&self, rank: Rank, mode: GameMode) -> (w: u32)
        ensures
            w == wait_estimate(similar_count(self.entries(), rank, mode)),
    {
        let mut count: usize = 0;
        let mut i: usize = 0;
        assert(self.entries@.take(0) =~= Seq::<MatchmakingEntry>::empty());
        while i < self.entries.len()
            invariant
                i <= self.entries@.len(),
                count == similar_count(self.entries@.take(i as int), rank, mode),
                count <= i,
            decreases self.entries@.len() - i,
        {
            assert(self.entries@.take(i + 1).drop_last() =~= self.entries@.take(i as int));
            let diff = self.entries[i].rank.level() - rank.level();
            let close = if diff < 0 {
                -diff <= MAX_RANK_DIFF
            } else {
                diff <= MAX_RANK_DIFF
            };
            if self.entries[i].game_mode == mode && close {
                count = count + 1;
            }
            i = i + 1;
        }
        assert(self.entries@.take(self.entries@.len() as int) =~= self.entries@);
        // Rough estimate based on queue population
        if count >= PLAYERS_PER_MATCH - 1 {
            5
        } else if count >= PLAYERS_PER_MATCH / 2 {
            20
        } else {
            45
        }
    }

    /// Number of queued players.
    pub fn queue_size(&self) -> (n: usize)
        ensures
            n == self.entries().len(),
    {
        self.entries.len()
    }
}

impl Default for MatchmakingQueue {
    fn default() -> (q: Self)
        ensures
            q.entries().len() == 0,
    {
        Self::new()
    }
}

} // verus!
