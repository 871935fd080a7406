use vstd::prelude::*;
use crate::game::types::{Team, Vec3};
use crate::map::types::{BombSite, MapDef, MapDefView, SpawnZone, AABB};
use crate::util::{sorted_strs, sort_strs, str_eq, str_views};

verus! {

/// The plain values of a map with CT and T spawn zones.
pub open spec fn map_view(
    name: Seq<char>,
    display_name: Seq<char>,
    description: Seq<char>,
    ct_spawns: Seq<Vec3>,
    t_spawns: Seq<Vec3>,
    bomb_sites: Seq<BombSite>,
) -> MapDefView {
    MapDefView {
        name,
        display_name,
        ct_team: Team::CT,
        ct_spawns,
        t_team: Team::T,
        t_spawns,
        bomb_sites,
        description,
    }
}

/// Map `i` of the built-in map pool (coordinates in hundredths of a unit).
pub open spec fn default_map_at(i: int) -> MapDefView {
    if i == 0 {
        map_view(
            "de_dust2"@,
            "Dust II"@,
            "Classic desert map with symmetrical mid control. Long A, Catwalk, and B tunnels define the tactical meta."@,
            Seq::empty().push(Vec3 { x: 25800i32, y: 274800i32, z: -12700i32 }).push(Vec3 { x: 39000i32, y: 274800i32, z: -12700i32 }).push(Vec3 { x: 31000i32, y: 282000i32, z: -12700i32 }).push(Vec3 { x: 43000i32, y: 282000i32, z: -12700i32 }).push(Vec3 { x: 20000i32, y: 282000i32, z: -12700i32 }),
            Seq::empty().push(Vec3 { x: -158000i32, y: 58000i32, z: -12700i32 }).push(Vec3 { x: -146000i32, y: 58000i32, z: -12700i32 }).push(Vec3 { x: -152000i32, y: 50000i32, z: -12700i32 }).push(Vec3 { x: -140000i32, y: 50000i32, z: -12700i32 }).push(Vec3 { x: -164000i32, y: 50000i32, z: -12700i32 }),
            Seq::empty().push(BombSite { label: 'A', bounds: AABB { min: Vec3 { x: -48000i32, y: 268000i32, z: -20000i32 }, max: Vec3 { x: 10000i32, y: 308000i32, z: 20000i32 } } }).push(BombSite { label: 'B', bounds: AABB { min: Vec3 { x: -215000i32, y: 160000i32, z: -20000i32 }, max: Vec3 { x: -154000i32, y: 240000i32, z: 20000i32 } } }),
        )
    } else if i == 1 {
        map_view(
            "de_inferno"@,
            "Inferno"@,
            "Italian village with tight Apartments, Banana, and mid. Heavily favors CTs at B short."@,
            Seq::empty().push(Vec3 { x: 110000i32, y: 70000i32, z: -6400i32 }).push(Vec3 { x: 120000i32, y: 70000i32, z: -6400i32 }).push(Vec3 { x: 115000i32, y: 78000i32, z: -6400i32 }).push(Vec3 { x: 105000i32, y: 78000i32, z: -6400i32 }).push(Vec3 { x: 125000i32, y: 78000i32, z: -6400i32 }),
            Seq::empty().push(Vec3 { x: -178000i32, y: 50000i32, z: -6400i32 }).push(Vec3 { x: -168000i32, y: 50000i32, z: -6400i32 }).push(Vec3 { x: -173000i32, y: 42000i32, z: -6400i32 }).push(Vec3 { x: -163000i32, y: 42000i32, z: -6400i32 }).push(Vec3 { x: -183000i32, y: 42000i32, z: -6400i32 }),
            Seq::empty().push(BombSite { label: 'A', bounds: AABB { min: Vec3 { x: 60000i32, y: 50000i32, z: -20000i32 }, max: Vec3 { x: 120000i32, y: 90000i32, z: 20000i32 } } }).push(BombSite { label: 'B', bounds: AABB { min: Vec3 { x: -50000i32, y: -30000i32, z: -20000i32 }, max: Vec3 { x: 20000i32, y: 40000i32, z: 20000i32 } } }),
        )
    } else if i == 2 {
        map_view(
            "de_mirage"@,
            "Mirage"@,
            "Middle-eastern market. Famous for mid window control, A ramp, and short-A rushes."@,
            Seq::empty().push(Vec3 { x: -73000i32, y: 50000i32, z: -6400i32 }).push(Vec3 { x: -63000i32, y: 50000i32, z: -6400i32 }).push(Vec3 { x: -68000i32, y: 58000i32, z: -6400i32 }).push(Vec3 { x: -78000i32, y: 58000i32, z: -6400i32 }).push(Vec3 { x: -58000i32, y: 58000i32, z: -6400i32 }),
            Seq::empty().push(Vec3 { x: -287000i32, y: 90000i32, z: -6400i32 }).push(Vec3 { x: -277000i32, y: 90000i32, z: -6400i32 }).push(Vec3 { x: -282000i32, y: 98000i32, z: -6400i32 }).push(Vec3 { x: -272000i32, y: 98000i32, z: -6400i32 }).push(Vec3 { x: -292000i32, y: 98000i32, z: -6400i32 }),
            Seq::empty().push(BombSite { label: 'A', bounds: AABB { min: Vec3 { x: -120000i32, y: 20000i32, z: -20000i32 }, max: Vec3 { x: -60000i32, y: 80000i32, z: 20000i32 } } }).push(BombSite { label: 'B', bounds: AABB { min: Vec3 { x: -240000i32, y: 20000i32, z: -20000i32 }, max: Vec3 { x: -180000i32, y: 80000i32, z: 20000i32 } } }),
        )
    } else if i == 3 {
        map_view(
            "de_nuke"@,
            "Nuke"@,
            "Nuclear facility with stacked A-site (upper) and B-site (lower). Vents and ramp create unique vertical gameplay."@,
            Seq::empty().push(Vec3 { x: 70000i32, y: 100000i32, z: -6400i32 }).push(Vec3 { x: 80000i32, y: 100000i32, z: -6400i32 }).push(Vec3 { x: 75000i32, y: 108000i32, z: -6400i32 }).push(Vec3 { x: 65000i32, y: 108000i32, z: -6400i32 }).push(Vec3 { x: 85000i32, y: 108000i32, z: -6400i32 }),
            Seq::empty().push(Vec3 { x: -30000i32, y: 100000i32, z: -6400i32 }).push(Vec3 { x: -20000i32, y: 100000i32, z: -6400i32 }).push(Vec3 { x: -25000i32, y: 108000i32, z: -6400i32 }).push(Vec3 { x: -15000i32, y: 108000i32, z: -6400i32 }).push(Vec3 { x: -35000i32, y: 108000i32, z: -6400i32 }),
            Seq::empty().push(BombSite { label: 'A', bounds: AABB { min: Vec3 { x: 30000i32, y: 80000i32, z: -20000i32 }, max: Vec3 { x: 90000i32, y: 140000i32, z: 20000i32 } } }).push(BombSite { label: 'B', bounds: AABB { min: Vec3 { x: 30000i32, y: 80000i32, z: -60000i32 }, max: Vec3 { x: 90000i32, y: 140000i32, z: -20000i32 } } }),
        )
    } else {
        map_view(
            "de_overpass"@,
            "Overpass"@,
            "German park with water canal, connector, and long B site. Known for diverse utility usage."@,
            Seq::empty().push(Vec3 { x: 0i32, y: 100000i32, z: -6400i32 }).push(Vec3 { x: 10000i32, y: 100000i32, z: -6400i32 }).push(Vec3 { x: 5000i32, y: 108000i32, z: -6400i32 }).push(Vec3 { x: -5000i32, y: 108000i32, z: -6400i32 }).push(Vec3 { x: 15000i32, y: 108000i32, z: -6400i32 }),
            Seq::empty().push(Vec3 { x: -150000i32, y: 100000i32, z: -6400i32 }).push(Vec3 { x: -140000i32, y: 100000i32, z: -6400i32 }).push(Vec3 { x: -145000i32, y: 108000i32, z: -6400i32 }).push(Vec3 { x: -135000i32, y: 108000i32, z: -6400i32 }).push(Vec3 { x: -155000i32, y: 108000i32, z: -6400i32 }),
            Seq::empty().push(BombSite { label: 'A', bounds: AABB { min: Vec3 { x: -60000i32, y: 60000i32, z: -20000i32 }, max: Vec3 { x: 10000i32, y: 120000i32, z: 20000i32 } } }).push(BombSite { label: 'B', bounds: AABB { min: Vec3 { x: -210000i32, y: 60000i32, z: -20000i32 }, max: Vec3 { x: -140000i32, y: 120000i32, z: 20000i32 } } }),
        )
    }
}

/// The built-in map pool: Dust II, Inferno, Mirage, Nuke and Overpass.
pub open spec fn default_maps() -> Seq<MapDefView> {
    Seq::new(5, |i: int| default_map_at(i))
}

/// The first map of `s` named `name`, if any.
pub open spec fn first_map_named(s: Seq<MapDefView>, name: Seq<char>) -> Option<int>
    decreases s.len(),
{
    if s.len() == 0 {
        None
    } else if s[0].name == name {
        Some(0)
    } else {
        match first_map_named(s.drop_first(), name) {
            Some(i) => Some(i + 1),
            None => None,
        }
    }
}

/// Where `first_map_named` finds a map it carries the name and no earlier
/// one does; where it finds none, no map carries the name.
pub proof fn lemma_first_map_named(s: Seq<MapDefView>, name: Seq<char>)
    ensures
        first_map_named(s, name) matches Some(i) ==> 0 <= i < s.len() && s[i].name == name
            && forall|j: int| 0 <= j < i ==> #[trigger] s[j].name != name,
        first_map_named(s, name) is None ==> forall|j: int|
            0 <= j < s.len() ==> #[trigger] s[j].name != name,
    decreases s.len(),
{
    if s.len() > 0 && s[0].name != name {
        lemma_first_map_named(s.drop_first(), name);
        assert forall|j: int| 0 < j < s.len() implies s[j] == s.drop_first()[j - 1] by {}
    }
}

/// Registry holding all available map definitions.
pub struct MapRegistry {
    maps: Vec<MapDef>,
}

impl View for MapRegistry {
    type V = Seq<MapDefView>;

    closed spec fn view(&self) -> Seq<MapDefView> {
        self.maps@.map_values(|m: MapDef| m@)
    }
}

impl MapRegistry {
    /// The registry of the built-in map pool.
    pub fn new() -> (r: Self)
        ensures
            r@ == default_maps(),
    {
        let mut r = MapRegistry { maps: Vec::new() };
        r.register_all();
        r
    }

    /// The map named `name` (the first one registered under that name).
    pub fn get(&self, name: &str) -> (r: Option<&MapDef>)
        ensures
            match first_map_named(self@, name@) {
                Some(i) => r matches Some(m) && m@ == self@[i],
                None => r is None,
            },
    {
        let mut i: usize = 0;
        while i < self.maps.len()
            invariant
                i <= self.maps@.len(),
                self@.len() == self.maps@.len(),
                forall|j: int| 0 <= j < i ==> #[trigger] self@[j].name != name@,
            decreases self.maps@.len() - i,
        {
            assert(self@[i as int] == self.maps@[i as int]@);
            if str_eq(self.maps[i].name.as_str(), name) {
                assert(self@[i as int].name == name@);
                proof {
                    lemma_first_map_named(self@, name@);
                    if let Some(k) = first_map_named(self@, name@) {
                        assert(!(k < i));
                        assert(!(i < k));
                    }
                }
                return Some(&self.maps[i]);
            }
            i = i + 1;
        }
        proof {
            lemma_first_map_named(self@, name@);
            if let Some(k) = first_map_named(self@, name@) {
                assert(self@[k].name != name@);
            }
        }
        None
    }

    /// The names of all registered maps, in ascending order.
    pub fn list(&self) -> (names: Vec<&str>)
        ensures
            names@.len() == self@.len(),
            sorted_strs(names@),
            str_views(names@).to_multiset() == self@.map_values(|m: MapDefView| m.name).to_multiset(),
    {
        let mut names: Vec<&str> = Vec::new();
        let mut i: usize = 0;
        while i < self.maps.len()
            invariant
                i <= self.maps@.len(),
                self@.len() == self.maps@.len(),
                names@.len() == i,
                forall|j: int| 0 <= j < i ==> #[trigger] names@[j]@ == self@[j].name,
            decreases self.maps@.len() - i,
        {
            assert(self@[i as int] == self.maps@[i as int]@);
            names.push(self.maps[i].name.as_str());
            i = i + 1;
        }
        assert(str_views(names@) =~= self@.map_values(|m: MapDefView| m.name));
        sort_strs(&names)
    }

    fn add(&mut self, map: MapDef)
        ensures
            final(self)@ == old(self)@.push(map@),
    {
        self.maps.push(map);
        assert(self@ =~= old(self)@.push(map@));
    }

    fn register_all(&mut self)
        requires
            old(self)@.len() == 0,
        ensures
            final(self)@ == default_maps(),
    {
        self.add(dust2());
        self.add(inferno());
        self.add(mirage());
        self.add(nuke());
        self.add(overpass());
        assert(self@ =~= default_maps());
    }
}

impl Default for MapRegistry {
    fn default() -> (r: Self)
        ensures
            r@ == default_maps(),
    {
        Self::new()
    }
}

/// Dust II (de_dust2).
fn dust2() -> (m: MapDef)
    ensures
        m@ == default_map_at(0),
{
    let mut ct: Vec<Vec3> = Vec::new();
    ct.push(Vec3::new(25800, 274800, -12700));
    ct.push(Vec3::new(39000, 274800, -12700));
    ct.push(Vec3::new(31000, 282000, -12700));
    ct.push(Vec3::new(43000, 282000, -12700));
    ct.push(Vec3::new(20000, 282000, -12700));
    let mut t: Vec<Vec3> = Vec::new();
    t.push(Vec3::new(-158000, 58000, -12700));
    t.push(Vec3::new(-146000, 58000, -12700));
    t.push(Vec3::new(-152000, 50000, -12700));
    t.push(Vec3::new(-140000, 50000, -12700));
    t.push(Vec3::new(-164000, 50000, -12700));
    let mut sites: Vec<BombSite> = Vec::new();
    sites.push(BombSite {
        label: 'A',
        bounds: AABB::new(Vec3::new(-48000, 268000, -20000), Vec3::new(10000, 308000, 20000)),
    });
    sites.push(BombSite {
        label: 'B',
        bounds: AABB::new(Vec3::new(-215000, 160000, -20000), Vec3::new(-154000, 240000, 20000)),
    });
    MapDef {
        name: "de_dust2".to_owned(),
        display_name: "Dust II".to_owned(),
        ct_spawns: SpawnZone { team: Team::CT, spawns: ct },
        t_spawns: SpawnZone { team: Team::T, spawns: t },
        bomb_sites: sites,
        description: "Classic desert map with symmetrical mid control. Long A, Catwalk, and B tunnels define the tactical meta.".to_owned(),
    }
}

/// Inferno (de_inferno).
fn inferno() -> (m: MapDef)
    ensures
        m@ == default_map_at(1),
{
    let mut ct: Vec<Vec3> = Vec::new();
    ct.push(Vec3::new(110000, 70000, -6400));
    ct.push(Vec3::new(120000, 70000, -6400));
    ct.push(Vec3::new(115000, 78000, -6400));
    ct.push(Vec3::new(105000, 78000, -6400));
    ct.push(Vec3::new(125000, 78000, -6400));
    let mut t: Vec<Vec3> = Vec::new();
    t.push(Vec3::new(-178000, 50000, -6400));
    t.push(Vec3::new(-168000, 50000, -6400));
    t.push(Vec3::new(-173000, 42000, -6400));
    t.push(Vec3::new(-163000, 42000, -6400));
    t.push(Vec3::new(-183000, 42000, -6400));
    let mut sites: Vec<BombSite> = Vec::new();
    sites.push(BombSite {
        label: 'A',
        bounds: AABB::new(Vec3::new(60000, 50000, -20000), Vec3::new(120000, 90000, 20000)),
    });
    sites.push(BombSite {
        label: 'B',
        bounds: AABB::new(Vec3::new(-50000, -30000, -20000), Vec3::new(20000, 40000, 20000)),
    });
    MapDef {
        name: "de_inferno".to_owned(),
        display_name: "Inferno".to_owned(),
        ct_spawns: SpawnZone { team: Team::CT, spawns: ct },
        t_spawns: SpawnZone { team: Team::T, spawns: t },
        bomb_sites: sites,
        description: "Italian village with tight Apartments, Banana, and mid. Heavily favors CTs at B short.".to_owned(),
    }
}

/// Mirage (de_mirage).
fn mirage() -> (m: MapDef)
    ensures
        m@ == default_map_at(2),
{
    let mut ct: Vec<Vec3> = Vec::new();
    ct.push(Vec3::new(-73000, 50000, -6400));
    ct.push(Vec3::new(-63000, 50000, -6400));
    ct.push(Vec3::new(-68000, 58000, -6400));
    ct.push(Vec3::new(-78000, 58000, -6400));
    ct.push(Vec3::new(-58000, 58000, -6400));
    let mut t: Vec<Vec3> = Vec::new();
    t.push(Vec3::new(-287000, 90000, -6400));
    t.push(Vec3::new(-277000, 90000, -6400));
    t.push(Vec3::new(-282000, 98000, -6400));
    t.push(Vec3::new(-272000, 98000, -6400));
    t.push(Vec3::new(-292000, 98000, -6400));
    let mut sites: Vec<BombSite> = Vec::new();
    sites.push(BombSite {
        label: 'A',
        bounds: AABB::new(Vec3::new(-120000, 20000, -20000), Vec3::new(-60000, 80000, 20000)),
    });
    sites.push(BombSite {
        label: 'B',
        bounds: AABB::new(Vec3::new(-240000, 20000, -20000), Vec3::new(-180000, 80000, 20000)),
    });
    MapDef {
        name: "de_mirage".to_owned(),
        display_name: "Mirage".to_owned(),
        ct_spawns: SpawnZone { team: Team::CT, spawns: ct },
        t_spawns: SpawnZone { team: Team::T, spawns: t },
        bomb_sites: sites,
        description: "Middle-eastern market. Famous for mid window control, A ramp, and short-A rushes.".to_owned(),
    }
}

/// Nuke (de_nuke).
fn nuke() -> (m: MapDef)
    ensures
        m@ == default_map_at(3),
{
    let mut ct: Vec<Vec3> = Vec::new();
    ct.push(Vec3::new(70000, 100000, -6400));
    ct.push(Vec3::new(80000, 100000, -6400));
    ct.push(Vec3::new(75000, 108000, -6400));
    ct.push(Vec3::new(65000, 108000, -6400));
    ct.push(Vec3::new(85000, 108000, -6400));
    let mut t: Vec<Vec3> = Vec::new();
    t.push(Vec3::new(-30000, 100000, -6400));
    t.push(Vec3::new(-20000, 100000, -6400));
    t.push(Vec3::new(-25000, 108000, -6400));
    t.push(Vec3::new(-15000, 108000, -6400));
    t.push(Vec3::new(-35000, 108000, -6400));
    let mut sites: Vec<BombSite> = Vec::new();
    sites.push(BombSite {
        label: 'A',
        bounds: AABB::new(Vec3::new(30000, 80000, -20000), Vec3::new(90000, 140000, 20000)),
    });
    sites.push(BombSite {
        label: 'B',
        bounds: AABB::new(Vec3::new(30000, 80000, -60000), Vec3::new(90000, 140000, -20000)),
    });
    MapDef {
        name: "de_nuke".to_owned(),
        display_name: "Nuke".to_owned(),
        ct_spawns: SpawnZone { team: Team::CT, spawns: ct },
        t_spawns: SpawnZone { team: Team::T, spawns: t },
        bomb_sites: sites,
        description: "Nuclear facility with stacked A-site (upper) and B-site (lower). Vents and ramp create unique vertical gameplay.".to_owned(),
    }
}

/// Overpass (de_overpass).
fn overpass() -> (m: MapDef)
    ensures
        m@ == default_map_at(4),
{
    let mut ct: Vec<Vec3> = Vec::new();
    ct.push(Vec3::new(0, 100000, -6400));
    ct.push(Vec3::new(10000, 100000, -6400));
    ct.push(Vec3::new(5000, 108000, -6400));
    ct.push(Vec3::new(-5000, 108000, -6400));
    ct.push(Vec3::new(15000, 108000, -6400));
    let mut t: Vec<Vec3> = Vec::new();
    t.push(Vec3::new(-150000, 100000, -6400));
    t.push(Vec3::new(-140000, 100000, -6400));
    t.push(Vec3::new(-145000, 108000, -6400));
    t.push(Vec3::new(-135000, 108000, -6400));
    t.push(Vec3::new(-155000, 108000, -6400));
    let mut sites: Vec<BombSite> = Vec::new();
    sites.push(BombSite {
        label: 'A',
        bounds: AABB::new(Vec3::new(-60000, 60000, -20000), Vec3::new(10000, 120000, 20000)),
    });
    sites.push(BombSite {
        label: 'B',
        bounds: AABB::new(Vec3::new(-210000, 60000, -20000), Vec3::new(-140000, 120000, 20000)),
    });
    MapDef {
        name: "de_overpass".to_owned(),
        display_name: "Overpass".to_owned(),
        ct_spawns: SpawnZone { team: Team::CT, spawns: ct },
        t_spawns: SpawnZone { team: Team::T, spawns: t },
        bomb_sites: sites,
        description: "German park with water canal, connector, and long B site. Known for diverse utility usage.".to_owned(),
    }
}

} // verus!
