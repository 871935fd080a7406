//! Weapon drop / pickup: when a player is killed their weapons fall to the
//! ground, and any living player who walks over a weapon can pick it up.
use vstd::prelude::*;
use crate::game::types::{dist_sq, Vec3};
use crate::weapons::types::Weapon;

verus! {

/// A weapon lying on the ground.
#[derive(Debug)]
pub struct DroppedWeapon {
    pub id: u32,
    /// Original owner (for display / logging)
    pub original_owner_id: String,
    pub weapon: Weapon,
    pub position: Vec3,
}

impl Clone for DroppedWeapon {
    fn clone(&self) -> (r: Self)
        ensures
            r == *self,
    {
        DroppedWeapon {
            id: self.id,
            original_owner_id: self.original_owner_id.clone(),
            weapon: self.weapon.clone(),
            position: self.position,
        }
    }
}

/// How close a player must be to pick up a dropped weapon, in hundredths of
/// a world unit.
pub const PICKUP_RANGE: u32 = 8000;

/// Manages all weapons currently on the ground for a round.
#[derive(Debug)]
pub struct DropZone {
    drops: Vec<DroppedWeapon>,
    next_id: u32,
}

/// Drop `d` lies within pickup range of `p`.
pub open spec fn in_pickup_range(d: DroppedWeapon, p: Vec3) -> bool {
    dist_sq(d.position, p) <= PICKUP_RANGE * PICKUP_RANGE
}

/// The index of the drop of `s` closest to `p` within pickup range (the last
/// one among equally close drops), if any.
pub open spec fn nearest_index(s: Seq<DroppedWeapon>, p: Vec3) -> Option<int>
    decreases s.len(),
{
    if s.len() == 0 {
        None
    } else {
        let rest = nearest_index(s.drop_last(), p);
        let k = s.len() - 1;
        if in_pickup_range(s[k], p) && (rest matches Some(j) ==> dist_sq(s[k].position, p) <= dist_sq(
            s[j].position,
            p,
        )) {
            Some(k)
        } else {
            rest
        }
    }
}

/// The index of the first drop of `s` with id `id`, if any.
pub open spec fn index_of_drop(s: Seq<DroppedWeapon>, id: u32) -> Option<int>
    decreases s.len(),
{
    if s.len() == 0 {
        None
    } else if s[0].id == id {
        Some(0)
    } else {
        match index_of_drop(s.drop_first(), id) {
            Some(i) => Some(i + 1),
            None => None,
        }
    }
}

proof fn lemma_index_of_drop(s: Seq<DroppedWeapon>, id: u32)
    ensures
        index_of_drop(s, id) matches Some(i) ==> 0 <= i < s.len() && s[i].id == id && forall|j: int|
            0 <= j < i ==> #[trigger] s[j].id != id,
        index_of_drop(s, id) is None ==> forall|j: int| 0 <= j < s.len() ==> #[trigger] s[j].id != id,
    decreases s.len(),
{
    if s.len() > 0 && s[0].id != id {
        lemma_index_of_drop(s.drop_first(), id);
        assert forall|j: int| 0 < j < s.len() implies s[j] == s.drop_first()[j - 1] by {}
    }
}

/// The nearest drop is within range, no drop within range is closer, and
/// every later drop is farther away.
pub proof fn lemma_nearest_index(s: Seq<DroppedWeapon>, p: Vec3)
    ensures
        nearest_index(s, p) matches Some(k) ==> {
            &&& 0 <= k < s.len()
            &&& in_pickup_range(s[k], p)
            &&& forall|j: int|
                0 <= j < s.len() && in_pickup_range(#[trigger] s[j], p) ==> dist_sq(s[k].position, p)
                    <= dist_sq(s[j].position, p)
            &&& forall|j: int|
                k < j < s.len() ==> !in_pickup_range(#[trigger] s[j], p) || dist_sq(s[k].position, p)
                    < dist_sq(s[j].position, p)
        },
        nearest_index(s, p) is None ==> forall|j: int|
            0 <= j < s.len() ==> !in_pickup_range(#[trigger] s[j], p),
    decreases s.len(),
{
    if s.len() > 0 {
        lemma_nearest_index(s.drop_last(), p);
        assert forall|j: int| 0 <= j < s.len() - 1 implies s[j] == s.drop_last()[j] by {}
    }
}

impl DropZone {
    /// Every drop on the ground has an id already handed out.
    #[verifier::type_invariant]
    spec fn ids_handed_out(self) -> bool {
        forall|i: int| 0 <= i < self.drops@.len() ==> #[trigger] self.drops@[i].id < self.next_id
    }

    /// The drops on the ground, in the order they fell.
    pub closed spec fn items(&self) -> Seq<DroppedWeapon> {
        self.drops@
    }

    /// The id the next drop gets.
    pub closed spec fn issued(&self) -> u32 {
        self.next_id
    }

    pub fn new() -> (z: Self)
        ensures
            z.items().len() == 0,
            z.issued() == 0,
    {
        DropZone { drops: Vec::new(), next_id: 0 }
    }

    /// The id the next drop gets.
    pub fn next_drop_id(&self) -> (r: u32)
        ensures
            r == self.issued(),
    {
        self.next_id
    }

    /// Add a dropped weapon at the given position; returns its id.
    pub fn add(&mut self, owner_id: String, weapon: Weapon, position: Vec3) -> (id: u32)
        requires
            old(self).issued() < u32::MAX,
        ensures
            id == old(self).issued(),
            final(self).issued() == old(self).issued() + 1,
            final(self).items() == old(self).items().push(
                DroppedWeapon { id, original_owner_id: owner_id, weapon, position },
            ),
            index_of_drop(final(self).items(), id) == Some(old(self).items().len() as int),
    {
        proof {
            use_type_invariant(&*self);
        }
        let id = self.next_id;
        self.next_id = self.next_id + 1;
        let ghost before = self.drops@;
        let mut v: Vec<DroppedWeapon> = Vec::new();
        std::mem::swap(&mut v, &mut self.drops);
        v.push(DroppedWeapon { id, original_owner_id: owner_id, weapon, position });
        self.drops = v;
        proof {
            lemma_index_of_drop(self.drops@, id);
            assert(self.drops@[before.len() as int].id == id);
            if let Some(k) = index_of_drop(self.drops@, id) {
                if k < before.len() {
                    assert(self.drops@[k] == before[k]);
                }
            }
        }
        id
    }

    /// The id of the closest dropped weapon within pickup range of
    /// `player_pos` (the latest among equally close ones), if any.
    pub fn nearest_in_range(&self, player_pos: &Vec3) -> (r: Option<u32>)
        ensures
            match nearest_index(self.items(), *player_pos) {
                Some(k) => r == Some(self.items()[k].id),
                None => r is None,
            },
    {
        let range: u128 = PICKUP_RANGE as u128;
        let mut best_dist: u128 = range * range;
        let mut best_id: Option<u32> = None;
        let mut i: usize = 0;
        while i < self.drops.len()
            invariant
                i <= self.drops@.len(),
                range == PICKUP_RANGE,
                match nearest_index(self.drops@.take(i as int), *player_pos) {
                    Some(k) => best_id == Some(self.drops@[k].id) && best_dist == dist_sq(
                        self.drops@[k].position,
                        *player_pos,
                    ) && 0 <= k < i,
                    None => best_id is None && best_dist == range * range,
                },
            decreases self.drops@.len() - i,
        {
            assert(self.drops@.take(i + 1).drop_last() =~= self.drops@.take(i as int));
            let dist = self.drops[i].position.distance_sq_to(player_pos);
            proof {
                lemma_nearest_index(self.drops@.take(i as int), *player_pos);
            }
            if dist <= best_dist {
                best_dist = dist;
                best_id = Some(self.drops[i].id);
            }
            i = i + 1;
        }
        assert(self.drops@.take(self.drops@.len() as int) =~= self.drops@);
        best_id
    }

    /// Remove and return the dropped weapon with the given id (the first
    /// one with it); None, and nothing changes, when there is none.
    pub fn take(&mut self, id: u32) -> (r: Option<DroppedWeapon>)
        ensures
            match index_of_drop(old(self).items(), id) {
                Some(i) => r == Some(old(self).items()[i]) && final(self).items() == old(
                    self,
                ).items().remove(i),
                None => r is None && final(self).items() == old(self).items(),
            },
            final(self).issued() == old(self).issued(),
    {
        proof {
            lemma_index_of_drop(self.drops@, id);
            use_type_invariant(&*self);
        }
        let mut i: usize = 0;
        while i < self.drops.len()
            invariant
                i <= self.drops@.len(),
                self.drops@ == old(self).drops@,
                forall|j: int| 0 <= j < self.drops@.len() ==> #[trigger] self.drops@[j].id < self.next_id,
                self.next_id == old(self).next_id,
                forall|j: int| 0 <= j < i ==> #[trigger] self.drops@[j].id != id,
            decreases self.drops@.len() - i,
        {
            if self.drops[i].id == id {
                proof {
                    lemma_index_of_drop(self.drops@, id);
                    if let Some(k) = index_of_drop(self.drops@, id) {
                        assert(!(k < i));
                        assert(!(i < k));
                    }
                }
                let mut v: Vec<DroppedWeapon> = Vec::new();
                std::mem::swap(&mut v, &mut self.drops);
                let taken = v.remove(i);
                self.drops = v;
                return Some(taken);
            }
            i = i + 1;
        }
        proof {
            lemma_index_of_drop(self.drops@, id);
            if let Some(k) = index_of_drop(self.drops@, id) {
                assert(self.drops@[k].id != id);
            }
        }
        None
    }

    /// Clear all drops (start of a new round).
    pub fn clear(&mut self)
        ensures
            final(self).items().len() == 0,
            final(self).issued() == old(self).issued(),
    {
        self.drops = Vec::new();
    }

    /// All dropped weapons, in the order they fell.
    pub fn all(&self) -> (r: &[DroppedWeapon])
        ensures
            r@ == self.items(),
    {
        self.drops.as_slice()
    }

    pub fn count(&self) -> (n: usize)
        ensures
            n == self.items().len(),
    {
        self.drops.len()
    }
}

impl Default for DropZone {
    fn default() -> (z: Self)
        ensures
            z.items().len() == 0,
            z.issued() == 0,
    {
        DropZone::new()
    }
}

} // verus!
