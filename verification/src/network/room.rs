use vstd::prelude::*;
use crate::game::error::GameError;
use crate::game::types::{GameMode, Rank, Team};
use crate::network::matchmaking::secs_between;
use crate::player::types::PlayerProfile;
use crate::services::{new_uuid_string, now_millis};
use crate::util::str_eq;

verus! {

/// Configuration for a custom room.
#[derive(Debug)]
pub struct RoomConfig {
    pub map_name: String,
    pub game_mode: GameMode,
    pub max_players: u8,
    /// Optional password; None = public room
    pub password: Option<String>,
}

impl Default for RoomConfig {
    fn default() -> (c: RoomConfig)
        ensures
            c.map_name@ == "de_dust2"@,
            c.game_mode == GameMode::BombDefusal,
            c.max_players == 10,
            c.password is None,
    {
        RoomConfig {
            map_name: "de_dust2".to_owned(),
            game_mode: GameMode::BombDefusal,
            max_players: 10,
            password: None,
        }
    }
}

/// Phase of the room lifecycle.
#[derive(Debug, Clone, Copy, PartialEq, Eq, Structural)]
pub enum RoomState {
    Lobby,
    Starting,
    InGame,
    PostGame,
}

/// A player slot in the room.
#[derive(Debug)]
pub struct RoomSlot {
    pub player_id: String,
    pub nickname: String,
    pub team: Team,
    pub is_ready: bool,
    pub rank: Rank,
}

/// A game room / lobby. The slots are kept in the order the players joined.
#[derive(Debug)]
pub struct Room {
    pub id: String,
    pub owner_id: String,
    pub config: RoomConfig,
    pub state: RoomState,
    pub slots: Vec<RoomSlot>,
    /// Creation time, in milliseconds since the Unix epoch
    pub created_at_ms: i64,
    /// Time of the last change, in milliseconds since the Unix epoch
    pub last_activity_ms: i64,
}

/// The index of the first slot of `s` for player `id`, if any.
pub open spec fn slot_index(s: Seq<RoomSlot>, id: Seq<char>) -> Option<int>
    decreases s.len(),
{
    if s.len() == 0 {
        None
    } else if s[0].player_id@ == id {
        Some(0)
    } else {
        match slot_index(s.drop_first(), id) {
            Some(i) => Some(i + 1),
            None => None,
        }
    }
}

/// Where `slot_index` finds a slot, it is for `id` and no earlier one is;
/// where it finds none, no slot is.
pub proof fn lemma_slot_index(s: Seq<RoomSlot>, id: Seq<char>)
    ensures
        slot_index(s, id) matches Some(i) ==> (0 <= i < s.len() && s[i].player_id@ == id
            && forall|j: int| 0 <= j < i ==> #[trigger] s[j].player_id@ != id),
        slot_index(s, id) is None ==> forall|j: int| 0 <= j < s.len() ==> #[trigger] s[j].player_id@ != id,
    decreases s.len(),
{
    if s.len() > 0 && s[0].player_id@ != id {
        lemma_slot_index(s.drop_first(), id);
        assert forall|j: int| 0 < j < s.len() implies s[j] == s.drop_first()[j - 1] by {}
    }
}

/// How many slots of `s` are on `team`.
pub open spec fn team_count(s: Seq<RoomSlot>, team: Team) -> nat
    decreases s.len(),
{
    if s.len() == 0 {
        0
    } else if s.last().team == team {
        team_count(s.drop_last(), team) + 1
    } else {
        team_count(s.drop_last(), team)
    }
}

/// The team a newly joining player gets: T when the T side is smaller,
/// else CT.
pub open spec fn join_team(s: Seq<RoomSlot>) -> Team {
    if team_count(s, Team::T) < team_count(s, Team::CT) {
        Team::T
    } else {
        Team::CT
    }
}

/// The room is full: it has at least `max_players` slots.
pub open spec fn full(r: Room) -> bool {
    r.slots@.len() >= r.config.max_players
}

/// Every slot of `s` is ready, and there are at least two.
pub open spec fn ready_to_start(s: Seq<RoomSlot>) -> bool {
    s.len() >= 2 && forall|i: int| 0 <= i < s.len() ==> #[trigger] s[i].is_ready
}

/// `b` is `a` apart from its slots, owner and last activity.
pub open spec fn room_kept(a: Room, b: Room) -> bool {
    &&& b.id == a.id
    &&& b.config == a.config
    &&& b.state == a.state
    &&& b.created_at_ms == a.created_at_ms
}

/// `s` after the slot at `k` sets its ready flag to `ready`.
pub open spec fn with_ready(s: Seq<RoomSlot>, k: int, ready: bool) -> Seq<RoomSlot> {
    s.update(
        k,
        RoomSlot {
            player_id: s[k].player_id,
            nickname: s[k].nickname,
            team: s[k].team,
            is_ready: ready,
            rank: s[k].rank,
        },
    )
}

/// Slot `b` is slot `a` not ready.
pub open spec fn unreadied(a: RoomSlot, b: RoomSlot) -> bool {
    &&& b.player_id == a.player_id
    &&& b.nickname == a.nickname
    &&& b.team == a.team
    &&& b.rank == a.rank
    &&& !b.is_ready
}

/// `b` holds the slots of `a` with every ready flag cleared.
pub open spec fn all_unready(a: Seq<RoomSlot>, b: Seq<RoomSlot>) -> bool {
    &&& b.len() == a.len()
    &&& forall|i: int| 0 <= i < a.len() ==> unreadied(a[i], #[trigger] b[i])
}

fn slot_for(profile: &PlayerProfile, team: Team) -> (s: RoomSlot)
    ensures
        s.player_id == profile.id,
        s.nickname == profile.nickname,
        s.team == team,
        !s.is_ready,
        s.rank == profile.rank,
{
    RoomSlot {
        player_id: profile.id.clone(),
        nickname: profile.nickname.clone(),
        team,
        is_ready: false,
        rank: profile.rank,
    }
}

fn set_slot_ready(slot: &mut RoomSlot, ready: bool)
    ensures
        final(slot).player_id == old(slot).player_id,
        final(slot).nickname == old(slot).nickname,
        final(slot).team == old(slot).team,
        final(slot).rank == old(slot).rank,
        final(slot).is_ready == ready,
{
    slot.is_ready = ready;
}

/// Clear the ready flag of every slot.
fn unready_all(slots: &mut Vec<RoomSlot>)
    ensures
        all_unready(old(slots)@, final(slots)@),
{
    let ghost before = slots@;
    let mut i: usize = 0;
    while i < slots.len()
        invariant
            i <= slots@.len(),
            slots@.len() == before.len(),
            forall|j: int| 0 <= j < i ==> unreadied(before[j], #[trigger] slots@[j]),
            forall|j: int| i <= j < slots@.len() ==> #[trigger] slots@[j] == before[j],
        decreases slots@.len() - i,
    {
        set_slot_ready(&mut slots[i], false);
        i = i + 1;
    }
}

/// Joining keeps the sides balanced: if the CT and T counts differ by at
/// most one before a player joins on the team `join_team` picks, they
/// differ by at most one after.
pub proof fn lemma_join_keeps_balance(s: Seq<RoomSlot>, joiner: RoomSlot)
    requires
        -1 <= team_count(s, Team::CT) - team_count(s, Team::T) <= 1,
        joiner.team == join_team(s),
    ensures
        -1 <= team_count(s.push(joiner), Team::CT) - team_count(s.push(joiner), Team::T) <= 1,
{
    assert(s.push(joiner).drop_last() =~= s);
}

/// No two slots of `s` are for the same player.
pub open spec fn slots_unique(s: Seq<RoomSlot>) -> bool {
    forall|i: int, j: int|
        0 <= i < s.len() && 0 <= j < s.len() && i != j ==> #[trigger] s[i].player_id@
            != #[trigger] s[j].player_id@
}

/// Removing a slot keeps the players of a room distinct.
proof fn lemma_remove_keeps_players_distinct(s: Seq<RoomSlot>, k: int)
    requires
        slots_unique(s),
        0 <= k < s.len(),
    ensures
        slots_unique(s.remove(k)),
{
    let r = s.remove(k);
    assert forall|i: int, j: int|
        0 <= i < r.len() && 0 <= j < r.len() && i != j implies #[trigger] r[i].player_id@
        != #[trigger] r[j].player_id@ by {
        let a = if i < k { i } else { i + 1 };
        let b = if j < k { j } else { j + 1 };
        assert(r[i] == s[a] && r[j] == s[b]);
    }
}

/// A room holds each player at most once: a player joins only when not yet
/// in the room, so joining keeps the slots distinct.
pub proof fn lemma_join_keeps_players_distinct(s: Seq<RoomSlot>, joiner: RoomSlot)
    requires
        slots_unique(s),
        slot_index(s, joiner.player_id@) is None,
    ensures
        slots_unique(s.push(joiner)),
{
    lemma_slot_index(s, joiner.player_id@);
    let r = s.push(joiner);
    assert forall|i: int, j: int|
        0 <= i < r.len() && 0 <= j < r.len() && i != j implies #[trigger] r[i].player_id@
        != #[trigger] r[j].player_id@ by {
        if i < s.len() && j < s.len() {
            assert(r[i] == s[i] && r[j] == s[j]);
        } else if i < s.len() {
            assert(r[i] == s[i]);
        } else {
            assert(r[j] == s[j]);
        }
    }
}

impl Room {
    /// A room in the lobby owned by `owner`, who takes the first slot on CT.
    pub fn new(owner: &PlayerProfile, config: RoomConfig) -> (r: Self)
        ensures
            r.id@.len() == 36,
            r.owner_id == owner.id,
            r.config == config,
            r.state == RoomState::Lobby,
            r.slots@.len() == 1,
            r.slots@[0].player_id == owner.id,
            r.slots@[0].nickname == owner.nickname,
            r.slots@[0].team == Team::CT,
            !r.slots@[0].is_ready,
            r.slots@[0].rank == owner.rank,
            slots_unique(r.slots@),
    {
        let room_id = new_uuid_string();
        let mut slots: Vec<RoomSlot> = Vec::new();
        slots.push(slot_for(owner, Team::CT));
        Room {
            id: room_id,
            owner_id: owner.id.clone(),
            config,
            state: RoomState::Lobby,
            slots,
            created_at_ms: now_millis(),
            last_activity_ms: now_millis(),
        }
    }

    /// Number of players in the room.
    pub fn player_count(&self) -> (n: usize)
        ensures
            n == self.slots@.len(),
    {
        self.slots.len()
    }

    /// Whether the room has no free slot.
    pub fn is_full(&self) -> (b: bool)
        ensures
            b == full(*self),
    {
        self.slots.len() >= self.config.max_players as usize
    }

    /// Whether at time `now_ms` the room has seen no activity for at least
    /// `secs` whole seconds.
    pub fn is_idle_at(&self, now_ms: i64, secs: i64) -> (b: bool)
        ensures
            b == (secs_between(now_ms, self.last_activity_ms) >= secs),
    {
        let d: i128 = now_ms as i128 - self.last_activity_ms as i128;
        let elapsed: i128 = if d >= 0 {
            d / 1000
        } else {
            -((-d) / 1000)
        };
        elapsed >= secs as i128
    }

    /// Whether the room has seen no activity for at least `secs` seconds
    /// as of now.
    pub fn is_idle_for(&self, secs: i64) -> (b: bool)
        ensures
            exists|now: i64| b == (#[trigger] secs_between(now, self.last_activity_ms) >= secs),
    {
        self.is_idle_at(now_millis(), secs)
    }

    fn slot_of(&self, player_id: &str) -> (r: Option<usize>)
        ensures
            match r {
                Some(k) => slot_index(self.slots@, player_id@) == Some(k as int) && k
                    < self.slots@.len(),
                None => slot_index(self.slots@, player_id@) is None,
            },
    {
        proof {
            lemma_slot_index(self.slots@, player_id@);
        }
        let mut i: usize = 0;
        while i < self.slots.len()
            invariant
                i <= self.slots@.len(),
                forall|j: int| 0 <= j < i ==> #[trigger] self.slots@[j].player_id@ != player_id@,
                slot_index(self.slots@, player_id@) matches Some(k) ==> (0 <= k < self.slots@.len()
                    && self.slots@[k].player_id@ == player_id@ && forall|j: int|
                    0 <= j < k ==> #[trigger] self.slots@[j].player_id@ != player_id@),
                slot_index(self.slots@, player_id@) is None ==> forall|j: int|
                    0 <= j < self.slots@.len() ==> #[trigger] self.slots@[j].player_id@ != player_id@,
            decreases self.slots@.len() - i,
        {
            if str_eq(self.slots[i].player_id.as_str(), player_id) {
                proof {
                    if let Some(k) = slot_index(self.slots@, player_id@) {
                        assert(!(k < i));
                        assert(!(i < k));
                    }
                }
                return Some(i);
            }
            i = i + 1;
        }
        None
    }

    fn count_team(&self, team: Team) -> (n: usize)
        ensures
            n == team_count(self.slots@, team),
    {
        let mut n: usize = 0;
        let mut i: usize = 0;
        assert(self.slots@.take(0) =~= Seq::<RoomSlot>::empty());
        while i < self.slots.len()
            invariant
                i <= self.slots@.len(),
                n == team_count(self.slots@.take(i as int), team),
                n <= i,
            decreases self.slots@.len() - i,
        {
            assert(self.slots@.take(i + 1).drop_last() =~= self.slots@.take(i as int));
            if self.slots[i].team == team {
                n = n + 1;
            }
            i = i + 1;
        }
        assert(self.slots@.take(self.slots@.len() as int) =~= self.slots@);
        n
    }

    /// Record that the room changed just now: `last_activity_ms` takes the
    /// clock's reading and every other field stays as it was. The reading
    /// itself is left unsaid: it depends on the moment of the call.
    fn touch(&mut self)
        ensures
            room_kept(*old(self), *final(self)),
            final(self).owner_id == old(self).owner_id,
            final(self).slots@ == old(self).slots@,
    {
        self.last_activity_ms = now_millis();
    }

    /// Join the room. Returns the assigned team.
    pub fn join(&mut self, profile: &PlayerProfile, password: Option<&str>) -> (r: Result<
        Team,
        GameError,
    >)
        ensures
            old(self).state != RoomState::Lobby ==> (r matches Err(GameError::InvalidAction(m))
                && m@ == "Room is not in lobby state"@),
            old(self).state == RoomState::Lobby && full(*old(self)) ==> r matches Err(
                GameError::RoomFull,
            ),
            old(self).state == RoomState::Lobby && !full(*old(self)) && slot_index(
                old(self).slots@,
                profile.id@,
            ) is Some ==> r matches Err(GameError::PlayerAlreadyInRoom),
            ({
                let open = old(self).state == RoomState::Lobby && !full(*old(self)) && slot_index(
                    old(self).slots@,
                    profile.id@,
                ) is None;
                &&& open && old(self).config.password is Some && password is None ==> (r matches Err(
                    GameError::RoomPasswordRequired,
                ))
                &&& open && old(self).config.password is Some && password is Some
                    && old(self).config.password->0@ != password->0@ ==> (r matches Err(
                    GameError::WrongRoomPassword,
                ))
                &&& open && (old(self).config.password is None || (password is Some
                    && old(self).config.password->0@ == password->0@)) ==> {
                    &&& r == Ok::<Team, GameError>(join_team(old(self).slots@))
                    &&& final(self).slots@.len() == old(self).slots@.len() + 1
                    &&& final(self).slots@.drop_last() == old(self).slots@
                    &&& final(self).slots@.last().player_id == profile.id
                    &&& final(self).slots@.last().nickname == profile.nickname
                    &&& final(self).slots@.last().team == join_team(old(self).slots@)
                    &&& !final(self).slots@.last().is_ready
                    &&& final(self).slots@.last().rank == profile.rank
                }
            }),
            r is Err ==> *final(self) == *old(self),
            room_kept(*old(self), *final(self)),
            final(self).owner_id == old(self).owner_id,
            slots_unique(old(self).slots@) ==> slots_unique(final(self).slots@),
    {
        if self.state != RoomState::Lobby {
            return Err(GameError::InvalidAction("Room is not in lobby state".to_owned()));
        }
        if self.is_full() {
            return Err(GameError::RoomFull);
        }
        if self.slot_of(profile.id.as_str()).is_some() {
            return Err(GameError::PlayerAlreadyInRoom);
        }
        // Check password
        match &self.config.password {
            Some(required) => match password {
                None => {
                    return Err(GameError::RoomPasswordRequired);
                },
                Some(given) => {
                    if !str_eq(required.as_str(), given) {
                        return Err(GameError::WrongRoomPassword);
                    }
                },
            },
            None => {},
        }
        // Auto-assign to smaller team
        let ct_count = self.count_team(Team::CT);
        let t_count = self.count_team(Team::T);
        let team = if t_count < ct_count {
            Team::T
        } else {
            Team::CT
        };
        let ghost before = self.slots@;
        let slot = slot_for(profile, team);
        proof {
            if slots_unique(before) {
                lemma_join_keeps_players_distinct(before, slot);
            }
        }
        self.slots.push(slot);
        assert(self.slots@.drop_last() =~= before);
        self.touch();
        Ok(team)
    }

    /// Leave the room. When the owner leaves, the first remaining player
    /// becomes the owner.
    pub fn leave(&mut self, player_id: &str) -> (r: Result<(), GameError>)
        ensures
            match slot_index(old(self).slots@, player_id@) {
                None => (r matches Err(GameError::PlayerNotFound(m)) && m@ == player_id@)
                    && *final(self) == *old(self),
                Some(k) => {
                    &&& r is Ok
                    &&& final(self).slots@ == old(self).slots@.remove(k)
                    &&& final(self).owner_id == if old(self).owner_id@ == player_id@
                        && final(self).slots@.len() > 0 {
                        final(self).slots@[0].player_id
                    } else {
                        old(self).owner_id
                    }
                    &&& room_kept(*old(self), *final(self))
                },
            },
            slots_unique(old(self).slots@) ==> slots_unique(final(self).slots@),
    {
        let k = match self.slot_of(player_id) {
            Some(k) => k,
            None => {
                return Err(GameError::PlayerNotFound(player_id.to_owned()));
            },
        };
        proof {
            if slots_unique(self.slots@) {
                lemma_remove_keeps_players_distinct(self.slots@, k as int);
            }
        }
        self.slots.remove(k);
        // Transfer ownership if owner leaves
        if str_eq(self.owner_id.as_str(), player_id) {
            if self.slots.len() > 0 {
                self.owner_id = self.slots[0].player_id.clone();
            }
        }
        self.touch();
        Ok(())
    }

    /// Set the ready state of a player.
    pub fn set_ready(&mut self, player_id: &str, ready: bool) -> (r: Result<(), GameError>)
        ensures
            match slot_index(old(self).slots@, player_id@) {
                None => (r matches Err(GameError::PlayerNotFound(m)) && m@ == player_id@)
                    && *final(self) == *old(self),
                Some(k) => {
                    &&& r is Ok
                    &&& final(self).slots@ == with_ready(old(self).slots@, k, ready)
                    &&& final(self).owner_id == old(self).owner_id
                    &&& room_kept(*old(self), *final(self))
                },
            },
    {
        let k = match self.slot_of(player_id) {
            Some(k) => k,
            None => {
                return Err(GameError::PlayerNotFound(player_id.to_owned()));
            },
        };
        let ghost before = self.slots@;
        set_slot_ready(&mut self.slots[k], ready);
        assert(self.slots@ =~= with_ready(before, k as int, ready));
        self.touch();
        Ok(())
    }

    /// Kick a player (owner only).
    pub fn kick(&mut self, requester_id: &str, target_id: &str) -> (r: Result<(), GameError>)
        ensures
            requester_id@ != old(self).owner_id@ ==> (r matches Err(GameError::NotRoomOwner))
                && *final(self) == *old(self),
            requester_id@ == old(self).owner_id@ ==> match slot_index(
                old(self).slots@,
                target_id@,
            ) {
                None => (r matches Err(GameError::PlayerNotFound(m)) && m@ == target_id@)
                    && *final(self) == *old(self),
                Some(k) => {
                    &&& r is Ok
                    &&& final(self).slots@ == old(self).slots@.remove(k)
                    &&& final(self).owner_id == old(self).owner_id
                    &&& room_kept(*old(self), *final(self))
                },
            },
            slots_unique(old(self).slots@) ==> slots_unique(final(self).slots@),
    {
        if !str_eq(requester_id, self.owner_id.as_str()) {
            return Err(GameError::NotRoomOwner);
        }
        let k = match self.slot_of(target_id) {
            Some(k) => k,
            None => {
                return Err(GameError::PlayerNotFound(target_id.to_owned()));
            },
        };
        proof {
            if slots_unique(self.slots@) {
                lemma_remove_keeps_players_distinct(self.slots@, k as int);
            }
        }
        self.slots.remove(k);
        self.touch();
        Ok(())
    }

    /// Change the map (owner only); every player has to ready up again.
    pub fn change_map(&mut self, requester_id: &str, map_name: String) -> (r: Result<(), GameError>)
        ensures
            requester_id@ != old(self).owner_id@ ==> (r matches Err(GameError::NotRoomOwner))
                && *final(self) == *old(self),
            requester_id@ == old(self).owner_id@ ==> {
                &&& r is Ok
                &&& final(self).config.map_name == map_name
                &&& final(self).config.game_mode == old(self).config.game_mode
                &&& final(self).config.max_players == old(self).config.max_players
                &&& final(self).config.password == old(self).config.password
                &&& all_unready(old(self).slots@, final(self).slots@)
                &&& final(self).id == old(self).id
                &&& final(self).owner_id == old(self).owner_id
                &&& final(self).state == old(self).state
                &&& final(self).created_at_ms == old(self).created_at_ms
            },
    {
        if !str_eq(requester_id, self.owner_id.as_str()) {
            return Err(GameError::NotRoomOwner);
        }
        self.config.map_name = map_name;
        // Reset ready states on map change
        unready_all(&mut self.slots);
        self.touch();
        Ok(())
    }

    /// Whether there are at least two players and all are ready.
    pub fn all_ready(&self) -> (b: bool)
        ensures
            b == ready_to_start(self.slots@),
    {
        if self.slots.len() < 2 {
            return false;
        }
        let mut i: usize = 0;
        while i < self.slots.len()
            invariant
                i <= self.slots@.len(),
                forall|j: int| 0 <= j < i ==> #[trigger] self.slots@[j].is_ready,
            decreases self.slots@.len() - i,
        {
            if !self.slots[i].is_ready {
                return false;
            }
            i = i + 1;
        }
        true
    }

    /// Start the game (owner only, all must be ready).
    pub fn start_game(&mut self, requester_id: &str) -> (r: Result<(), GameError>)
        ensures
            requester_id@ != old(self).owner_id@ ==> (r matches Err(GameError::NotRoomOwner))
                && *final(self) == *old(self),
            requester_id@ == old(self).owner_id@ && !ready_to_start(old(self).slots@) ==> (r matches Err(
                GameError::InvalidAction(m),
            ) && m@ == "Not all players are ready"@) && *final(self) == *old(self),
            requester_id@ == old(self).owner_id@ && ready_to_start(old(self).slots@) ==> {
                &&& r is Ok
                &&& final(self).state == RoomState::Starting
                &&& final(self).slots@ == old(self).slots@
                &&& final(self).id == old(self).id
                &&& final(self).owner_id == old(self).owner_id
                &&& final(self).config == old(self).config
                &&& final(self).created_at_ms == old(self).created_at_ms
            },
    {
        if !str_eq(requester_id, self.owner_id.as_str()) {
            return Err(GameError::NotRoomOwner);
        }
        if !self.all_ready() {
            return Err(GameError::InvalidAction("Not all players are ready".to_owned()));
        }
        self.state = RoomState::Starting;
        self.touch();
        Ok(())
    }
}

} // verus!
