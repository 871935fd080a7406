use vstd::prelude::*;
use crate::game::types::{Team, Vec3};

verus! {

/// Axis-aligned bounding box.
#[derive(Debug, Clone, Copy, PartialEq, Eq, Structural)]
pub struct AABB {
    pub min: Vec3,
    pub max: Vec3,
}

/// `p` lies inside `b` (boundaries included).
pub open spec fn in_box(b: AABB, p: Vec3) -> bool {
    b.min.x <= p.x <= b.max.x && b.min.y <= p.y <= b.max.y && b.min.z <= p.z <= b.max.z
}

/// Half of `v`, rounded toward zero.
pub open spec fn half_toward_zero(v: int) -> int {
    if v >= 0 {
        v / 2
    } else {
        -((-v) / 2)
    }
}

fn midpoint(a: i32, b: i32) -> (m: i32)
    ensures
        m == half_toward_zero(a + b),
{
    let s: i64 = a as i64 + b as i64;
    if s >= 0 {
        (s / 2) as i32
    } else {
        let p: i64 = -s;
        let h: i64 = -(p / 2);
        h as i32
    }
}

impl AABB {
    pub fn new(min: Vec3, max: Vec3) -> (b: Self)
        ensures
            b == (AABB { min, max }),
    {
        AABB { min, max }
    }

    pub fn contains(&self, point: &Vec3) -> (b: bool)
        ensures
            b == in_box(*self, *point),
    {
        point.x >= self.min.x && point.x <= self.max.x && point.y >= self.min.y && point.y
            <= self.max.y && point.z >= self.min.z && point.z <= self.max.z
    }

    /// The center of the box (each coordinate rounded toward zero).
    pub fn center(&self) -> (c: Vec3)
        ensures
            c.x == half_toward_zero(self.min.x + self.max.x),
            c.y == half_toward_zero(self.min.y + self.max.y),
            c.z == half_toward_zero(self.min.z + self.max.z),
    {
        Vec3::new(
            midpoint(self.min.x, self.max.x),
            midpoint(self.min.y, self.max.y),
            midpoint(self.min.z, self.max.z),
        )
    }
}

/// A bomb planting site (A or B).
#[derive(Debug, Clone, Copy, PartialEq, Eq, Structural)]
pub struct BombSite {
    pub label: char,
    pub bounds: AABB,
}

impl BombSite {
    pub fn is_inside(&self, pos: &Vec3) -> (b: bool)
        ensures
            b == in_box(self.bounds, *pos),
    {
        self.bounds.contains(pos)
    }
}

/// Spawn zone for a team.
#[derive(Debug, Clone)]
pub struct SpawnZone {
    pub team: Team,
    pub spawns: Vec<Vec3>,
}

/// Map definition: all static data for one game map.
#[derive(Debug, Clone)]
pub struct MapDef {
    pub name: String,
    pub display_name: String,
    pub ct_spawns: SpawnZone,
    pub t_spawns: SpawnZone,
    pub bomb_sites: Vec<BombSite>,
    /// A brief description / layout note
    pub description: String,
}

/// The plain values of a map definition.
pub struct MapDefView {
    pub name: Seq<char>,
    pub display_name: Seq<char>,
    pub ct_team: Team,
    pub ct_spawns: Seq<Vec3>,
    pub t_team: Team,
    pub t_spawns: Seq<Vec3>,
    pub bomb_sites: Seq<BombSite>,
    pub description: Seq<char>,
}

impl View for MapDef {
    type V = MapDefView;

    open spec fn view(&self) -> MapDefView {
        MapDefView {
            name: self.name@,
            display_name: self.display_name@,
            ct_team: self.ct_spawns.team,
            ct_spawns: self.ct_spawns.spawns@,
            t_team: self.t_spawns.team,
            t_spawns: self.t_spawns.spawns@,
            bomb_sites: self.bomb_sites@,
            description: self.description@,
        }
    }
}

/// The first site of `sites` that contains `p`, if any.
pub open spec fn first_site_at(sites: Seq<BombSite>, p: Vec3) -> Option<int>
    decreases sites.len(),
{
    if sites.len() == 0 {
        None
    } else if in_box(sites[0].bounds, p) {
        Some(0)
    } else {
        match first_site_at(sites.drop_first(), p) {
            Some(i) => Some(i + 1),
            None => None,
        }
    }
}

/// Where `first_site_at` finds a site it contains the point and no earlier
/// site does; where it finds none, no site contains the point.
pub proof fn lemma_first_site_at(sites: Seq<BombSite>, p: Vec3)
    ensures
        first_site_at(sites, p) matches Some(i) ==> 0 <= i < sites.len() && in_box(sites[i].bounds, p)
            && forall|j: int| 0 <= j < i ==> !in_box(#[trigger] sites[j].bounds, p),
        first_site_at(sites, p) is None ==> forall|j: int|
            0 <= j < sites.len() ==> !in_box(#[trigger] sites[j].bounds, p),
    decreases sites.len(),
{
    if sites.len() > 0 && !in_box(sites[0].bounds, p) {
        lemma_first_site_at(sites.drop_first(), p);
        assert forall|j: int| 0 < j < sites.len() implies sites[j] == sites.drop_first()[j - 1] by {}
    }
}

/// The spawn point of `zone` for round `round`: round-robin over the zone's
/// spawn points, or the origin when the zone has none.
pub open spec fn spawn_in(spawns: Seq<Vec3>, round: u32) -> Vec3 {
    if spawns.len() == 0 {
        Vec3 { x: 0, y: 0, z: 0 }
    } else {
        spawns[(round as int) % (spawns.len() as int)]
    }
}

/// The spawn point of `team` on `m` for round `round`; spectators spawn at the origin.
pub open spec fn spawn_point(m: MapDef, team: Team, round: u32) -> Vec3 {
    match team {
        Team::CT => spawn_in(m.ct_spawns.spawns@, round),
        Team::T => spawn_in(m.t_spawns.spawns@, round),
        Team::Spectator => Vec3 { x: 0, y: 0, z: 0 },
    }
}

impl MapDef {
    /// The bomb site that contains `position`, if any (the first one listed).
    pub fn bomb_site_at(&self, position: &Vec3) -> (r: Option<&BombSite>)
        ensures
            match first_site_at(self.bomb_sites@, *position) {
                Some(i) => r == Some(&self.bomb_sites@[i]),
                None => r is None,
            },
    {
        proof {
            lemma_first_site_at(self.bomb_sites@, *position);
        }
        let mut i: usize = 0;
        while i < self.bomb_sites.len()
            invariant
                i <= self.bomb_sites@.len(),
                forall|j: int| 0 <= j < i ==> !in_box(#[trigger] self.bomb_sites@[j].bounds, *position),
            decreases self.bomb_sites@.len() - i,
        {
            if self.bomb_sites[i].is_inside(position) {
                assert(first_site_at(self.bomb_sites@, *position) == Some(i as int)) by {
                    lemma_first_site_at(self.bomb_sites@, *position);
                    if let Some(k) = first_site_at(self.bomb_sites@, *position) {
                        assert(!(k < i));
                        assert(!(i < k));
                    }
                };
                return Some(&self.bomb_sites[i]);
            }
            i = i + 1;
        }
        None
    }

    /// A spawn point for the given team (round-robin via the round number).
    pub fn spawn_for(&self, team: Team, round: u32) -> (v: Vec3)
        ensures
            v == spawn_point(*self, team, round),
    {
        let zone = match team {
            Team::CT => &self.ct_spawns,
            Team::T => &self.t_spawns,
            Team::Spectator => {
                return Vec3::zero();
            },
        };
        if zone.spawns.len() == 0 {
            return Vec3::zero();
        }
        zone.spawns[(round as usize) % zone.spawns.len()]
    }
}

} // verus!
