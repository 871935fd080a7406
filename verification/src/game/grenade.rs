use vstd::prelude::*;
use crate::game::types::{dist_sq, Vec3};
use crate::player::types::{Player, PlayerState};
use crate::util::is_isqrt;

verus! {

/// Grenade categories.
#[derive(Debug, Clone, Copy, PartialEq, Eq, Structural)]
pub enum GrenadeType {
    /// High-Explosive: damages all players in radius
    HE,
    /// Flashbang: blinds players near the detonation
    Flash,
    /// Smoke: creates an 18-second obscuring cloud
    Smoke,
    /// Molotov / Incendiary: burns an area for 8 seconds
    Molotov,
}

/// Fuse time, in milliseconds.
pub open spec fn fuse_of(k: GrenadeType) -> u32 {
    match k {
        GrenadeType::HE | GrenadeType::Molotov => 3000,
        GrenadeType::Flash => 1500,
        GrenadeType::Smoke => 2000,
    }
}

/// Effect radius, in hundredths of a world unit.
pub open spec fn radius_of(k: GrenadeType) -> u32 {
    match k {
        GrenadeType::HE => 35000,
        GrenadeType::Flash => 70000,
        GrenadeType::Smoke => 20000,
        GrenadeType::Molotov => 15000,
    }
}

/// Maximum damage (HE) or damage per second (Molotov), in hundredths of a hit point.
pub open spec fn max_damage_of(k: GrenadeType) -> u32 {
    match k {
        GrenadeType::HE => 9800,
        GrenadeType::Molotov => 4000,
        _ => 0,
    }
}

/// Duration of the persistent effect (or maximum blindness), in milliseconds.
pub open spec fn effect_duration_of(k: GrenadeType) -> u32 {
    match k {
        GrenadeType::Smoke => 18000,
        GrenadeType::Molotov => 8000,
        GrenadeType::Flash => 3000,
        GrenadeType::HE => 0,
    }
}

impl GrenadeType {
    /// Fuse time in milliseconds (time from throw to detonation).
    pub fn fuse_ms(self) -> (r: u32)
        ensures
            r == fuse_of(self),
    {
        match self {
            GrenadeType::HE | GrenadeType::Molotov => 3000,
            GrenadeType::Flash => 1500,
            GrenadeType::Smoke => 2000,
        }
    }

    /// Explosion / effect radius, in hundredths of a world unit.
    pub fn radius(self) -> (r: u32)
        ensures
            r == radius_of(self),
    {
        match self {
            GrenadeType::HE => 35000,
            GrenadeType::Flash => 70000,
            GrenadeType::Smoke => 20000,
            GrenadeType::Molotov => 15000,
        }
    }

    /// Maximum damage at point-blank (HE) or burn damage per second
    /// (Molotov), in hundredths of a hit point.
    pub fn max_damage(self) -> (r: u32)
        ensures
            r == max_damage_of(self),
    {
        match self {
            GrenadeType::HE => 9800,
            GrenadeType::Molotov => 4000,
            _ => 0,
        }
    }

    /// Duration of the persistent effect in milliseconds (Smoke / Molotov),
    /// or the longest blindness (Flash).
    pub fn effect_duration(self) -> (r: u32)
        ensures
            r == effect_duration_of(self),
    {
        match self {
            GrenadeType::Smoke => 18000,
            GrenadeType::Molotov => 8000,
            GrenadeType::Flash => 3000,
            GrenadeType::HE => 0,
        }
    }
}

/// Life stage of a thrown grenade.
#[derive(Debug, Clone, Copy, PartialEq, Eq, Structural)]
pub enum GrenadeState {
    /// In flight / counting down
    Fusing,
    /// Persistent effect ongoing (smoke / fire)
    Active,
    /// Done; safe to remove
    Expired,
}

/// A grenade that has been thrown and is live in the world.
#[derive(Debug)]
pub struct ThrownGrenade {
    pub id: u32,
    pub kind: GrenadeType,
    pub thrower_id: String,
    pub position: Vec3,
    pub state: GrenadeState,
    /// Fuse / effect timer remaining, in milliseconds
    pub timer_ms: u32,
    /// Whether the initial detonation has already been applied
    pub detonated: bool,
}

impl Clone for ThrownGrenade {
    fn clone(&self) -> (r: Self)
        ensures
            r == *self,
    {
        ThrownGrenade {
            id: self.id,
            kind: self.kind,
            thrower_id: self.thrower_id.clone(),
            position: self.position,
            state: self.state,
            timer_ms: self.timer_ms,
            detonated: self.detonated,
        }
    }
}

impl ThrownGrenade {
    pub fn new(id: u32, kind: GrenadeType, thrower_id: String, position: Vec3) -> (g: Self)
        ensures
            g == (ThrownGrenade {
                id,
                kind,
                thrower_id,
                position,
                state: GrenadeState::Fusing,
                timer_ms: fuse_of(kind),
                detonated: false,
            }),
    {
        ThrownGrenade {
            id,
            kind,
            thrower_id,
            position,
            state: GrenadeState::Fusing,
            timer_ms: kind.fuse_ms(),
            detonated: false,
        }
    }

    pub fn is_expired(&self) -> (b: bool)
        ensures
            b == (self.state == GrenadeState::Expired),
    {
        self.state == GrenadeState::Expired
    }
}

/// The result of a grenade detonating or ticking its persistent effect.
#[derive(Debug, Clone)]
pub struct GrenadeEffectEvent {
    pub grenade_id: u32,
    pub kind: GrenadeType,
    pub position: Vec3,
    /// Damage to apply to each affected player (player id, hundredths of a hit point)
    pub damage_map: Vec<(String, u32)>,
    /// Blind duration for each affected player (player id, milliseconds)
    pub blind_map: Vec<(String, u32)>,
    /// Whether the grenade created / is sustaining a smoke cloud
    pub is_smoke: bool,
}

/// The plain values of an effect event.
pub struct GrenadeEffectView {
    pub grenade_id: u32,
    pub kind: GrenadeType,
    pub position: Vec3,
    pub damage_map: Seq<(String, u32)>,
    pub blind_map: Seq<(String, u32)>,
    pub is_smoke: bool,
}

impl View for GrenadeEffectEvent {
    type V = GrenadeEffectView;

    open spec fn view(&self) -> GrenadeEffectView {
        GrenadeEffectView {
            grenade_id: self.grenade_id,
            kind: self.kind,
            position: self.position,
            damage_map: self.damage_map@,
            blind_map: self.blind_map@,
            is_smoke: self.is_smoke,
        }
    }
}

/// `v` scaled by how close a point at distance `d` is to the center of a
/// radius `r`: full at the center, nothing at the edge.
pub open spec fn falloff(v: u32, d: int, r: u32) -> int {
    if r == 0 || d >= r {
        0
    } else {
        v * (r - d) / (r as int)
    }
}

/// What a detonation does to one player at squared distance `dsq`:
/// (damage in hundredths of a hit point, blindness in milliseconds); 0 means
/// no entry. `d` is the distance rounded down.
pub open spec fn detonation_effect(kind: GrenadeType, d: int) -> (int, int) {
    match kind {
        GrenadeType::HE => {
            let dmg = falloff(max_damage_of(kind), d, radius_of(kind));
            (if dmg > 100 { dmg } else { 0 }, 0)
        },
        GrenadeType::Flash => {
            let blind = falloff(effect_duration_of(kind), d, radius_of(kind));
            (0, if blind > 200 { blind } else { 0 })
        },
        GrenadeType::Molotov => (if d < radius_of(kind) / 2 { 1500 } else { 0 }, 0),
        GrenadeType::Smoke => (0, 0),
    }
}

/// How detonations fall off with distance `d` (whole units of a hundredth).
/// A flashbang blinds for `duration * (radius - d) / radius` milliseconds
/// inside its radius (under 0.2 s counts as none), an HE grenade deals
/// `max * (radius - d) / radius` (under 1 HP counts as none); beyond the
/// radius nothing happens. Farther away never means more, and away from
/// the center it is strictly less than the full amount. A flash does no
/// damage and an HE grenade does not blind.
pub proof fn lemma_detonation_falls_off(d1: int, d2: int)
    requires
        0 <= d1 <= d2,
    ensures
        ({
            let dur = effect_duration_of(GrenadeType::Flash) as int;
            let r = radius_of(GrenadeType::Flash) as int;
            let b = detonation_effect(GrenadeType::Flash, d1).1;
            &&& detonation_effect(GrenadeType::Flash, d1).0 == 0
            &&& d1 < r ==> b == (if dur * (r - d1) / r > 200 {
                dur * (r - d1) / r
            } else {
                0
            })
            &&& d1 >= r ==> b == 0
            &&& 0 <= b <= dur
            &&& d1 > 0 ==> b < dur
            &&& detonation_effect(GrenadeType::Flash, d2).1 <= b
        }),
        ({
            let m = max_damage_of(GrenadeType::HE) as int;
            let r = radius_of(GrenadeType::HE) as int;
            let h = detonation_effect(GrenadeType::HE, d1).0;
            &&& detonation_effect(GrenadeType::HE, d1).1 == 0
            &&& d1 < r ==> h == (if m * (r - d1) / r > 100 {
                m * (r - d1) / r
            } else {
                0
            })
            &&& d1 >= r ==> h == 0
            &&& 0 <= h <= m
            &&& d1 > 0 ==> h < m
            &&& detonation_effect(GrenadeType::HE, d2).0 <= h
        }),
{
    lemma_falloff_shape(effect_duration_of(GrenadeType::Flash), d1, d2, radius_of(GrenadeType::Flash));
    lemma_falloff_shape(max_damage_of(GrenadeType::HE), d1, d2, radius_of(GrenadeType::HE));
}

/// `falloff` is full at the center, less anywhere else, and shrinks with
/// distance.
proof fn lemma_falloff_shape(v: u32, d1: int, d2: int, r: u32)
    requires
        0 <= d1 <= d2,
        v > 0,
        r > 0,
    ensures
        d1 < r ==> falloff(v, d1, r) == v * (r - d1) / (r as int),
        d1 >= r ==> falloff(v, d1, r) == 0,
        0 <= falloff(v, d1, r) <= v,
        d1 > 0 ==> falloff(v, d1, r) < v,
        falloff(v, d2, r) <= falloff(v, d1, r),
{
    if d1 < r {
        assert(0 <= v * (r - d1) / (r as int) <= v) by (nonlinear_arith)
            requires
                0 <= d1 < r,
                v > 0,
        ;
        if d1 > 0 {
            assert(v * (r - d1) / (r as int) < v) by (nonlinear_arith)
                requires
                    0 < d1 < r,
                    v > 0,
            ;
        }
        if d2 < r {
            assert(v * (r - d2) / (r as int) <= v * (r - d1) / (r as int)) by (nonlinear_arith)
                requires
                    d1 <= d2 < r,
                    v > 0,
                    r > 0,
            {
                assert(v * (r - d2) <= v * (r - d1));
                vstd::arithmetic::div_mod::lemma_div_is_ordered(v * (r - d2), v * (r - d1), r as int);
            }
        }
    }
}

/// A flashbang at `at` blinds a living player at distance `d` (rounded
/// down) inside its radius for `duration * (radius - d) / radius`
/// milliseconds, or not at all when that is under 0.2 s.
pub proof fn lemma_flash_blinds_by_distance(at: Vec3, p: Player, d: int)
    requires
        p.state == PlayerState::Alive,
        is_isqrt(dist_sq(p.position, at), d),
        d < radius_of(GrenadeType::Flash),
    ensures
        ({
            let dur = effect_duration_of(GrenadeType::Flash) as int;
            let r = radius_of(GrenadeType::Flash) as int;
            (detonation_blind(GrenadeType::Flash, at))(p) == if dur * (r - d) / r > 200 {
                dur * (r - d) / r
            } else {
                0
            }
        }),
{
    let r = radius_of(GrenadeType::Flash) as int;
    assert(dist_sq(p.position, at) <= r * r) by (nonlinear_arith)
        requires
            dist_sq(p.position, at) < (d + 1) * (d + 1),
            0 <= d < r,
    ;
    let c = choose|c: int| is_isqrt(dist_sq(p.position, at), c);
    lemma_isqrt_unique(dist_sq(p.position, at), c, d);
    lemma_detonation_falls_off(d, d);
}

/// Player `p` is alive and within the effect radius of a grenade at `at`.
pub open spec fn in_blast(p: Player, kind: GrenadeType, at: Vec3) -> bool {
    p.state == PlayerState::Alive && dist_sq(p.position, at) <= radius_of(kind) * radius_of(kind)
}

/// Burn damage over `delta` milliseconds, in hundredths of a hit point
/// (stopping at `u32::MAX`).
pub open spec fn burn_damage(delta: u32) -> u32 {
    if max_damage_of(GrenadeType::Molotov) * delta / 1000 <= u32::MAX {
        (max_damage_of(GrenadeType::Molotov) * delta / 1000) as u32
    } else {
        u32::MAX
    }
}

/// Entries of an effect map: the ids of `players`, in order, that `pick`
/// gives a positive amount, each with that amount.
pub open spec fn effect_entries(players: Seq<Player>, amount: spec_fn(Player) -> int) -> Seq<(String, u32)>
    decreases players.len(),
{
    if players.len() == 0 {
        Seq::empty()
    } else {
        let rest = effect_entries(players.drop_last(), amount);
        let p = players.last();
        if amount(p) > 0 {
            rest.push((p.profile.id, amount(p) as u32))
        } else {
            rest
        }
    }
}

/// The damage a detonation deals player `p` (0 for none).
pub open spec fn detonation_damage(kind: GrenadeType, at: Vec3) -> spec_fn(Player) -> int {
    |p: Player|
        if in_blast(p, kind, at) {
            detonation_effect(kind, choose|d: int| is_isqrt(dist_sq(p.position, at), d)).0
        } else {
            0
        }
}

/// The blindness a detonation inflicts on player `p` (0 for none).
pub open spec fn detonation_blind(kind: GrenadeType, at: Vec3) -> spec_fn(Player) -> int {
    |p: Player|
        if in_blast(p, kind, at) {
            detonation_effect(kind, choose|d: int| is_isqrt(dist_sq(p.position, at), d)).1
        } else {
            0
        }
}

/// The burn damage of a fire at `at` over `delta` milliseconds to player `p`.
pub open spec fn burn_of(at: Vec3, delta: u32) -> spec_fn(Player) -> int {
    |p: Player|
        if in_blast(p, GrenadeType::Molotov, at) {
            burn_damage(delta) as int
        } else {
            0
        }
}

/// The event of grenade `g` detonating among `players`.
pub open spec fn detonation_event(g: ThrownGrenade, players: Seq<Player>) -> GrenadeEffectView {
    GrenadeEffectView {
        grenade_id: g.id,
        kind: g.kind,
        position: g.position,
        damage_map: effect_entries(players, detonation_damage(g.kind, g.position)),
        blind_map: effect_entries(players, detonation_blind(g.kind, g.position)),
        is_smoke: g.kind == GrenadeType::Smoke,
    }
}

/// The event of fire `g` burning `players` for `delta` milliseconds.
pub open spec fn burn_event(g: ThrownGrenade, players: Seq<Player>, delta: u32) -> GrenadeEffectView {
    GrenadeEffectView {
        grenade_id: g.id,
        kind: g.kind,
        position: g.position,
        damage_map: effect_entries(players, burn_of(g.position, delta)),
        blind_map: Seq::empty(),
        is_smoke: false,
    }
}

proof fn lemma_isqrt_unique(n: int, a: int, b: int)
    requires
        is_isqrt(n, a),
        is_isqrt(n, b),
    ensures
        a == b,
{
    if a < b {
        assert((a + 1) * (a + 1) <= b * b) by (nonlinear_arith)
            requires
                0 <= a < b,
        ;
    } else if b < a {
        assert((b + 1) * (b + 1) <= a * a) by (nonlinear_arith)
            requires
                0 <= b < a,
        ;
    }
}

fn falloff_of(v: u32, d: u64, r: u32) -> (out: u32)
    ensures
        out == falloff(v, d as int, r),
{
    if r == 0 || d >= r as u64 {
        0
    } else {
        assert(v * (r - d) <= v * r) by (nonlinear_arith)
            requires
                d < r,
        ;
        assert(v * r <= 0xffff_ffff * 0xffff_ffff) by (nonlinear_arith)
            requires
                v <= 0xffff_ffff,
                r <= 0xffff_ffff,
        ;
        assert(v * (r - d) / (r as int) <= v) by (nonlinear_arith)
            requires
                d < r,
                r > 0,
        ;
        let num: u64 = v as u64 * (r as u64 - d);
        (num / r as u64) as u32
    }
}

/// The event of grenade `nade` detonating among `players`.
fn detonate(nade: &ThrownGrenade, players: &Vec<Player>) -> (e: GrenadeEffectEvent)
    ensures
        e@ == detonation_event(*nade, players@),
{
    let radius = nade.kind.radius();
    let mut damage_map: Vec<(String, u32)> = Vec::new();
    let mut blind_map: Vec<(String, u32)> = Vec::new();
    let mut i: usize = 0;
    while i < players.len()
        invariant
            i <= players@.len(),
            radius == radius_of(nade.kind),
            damage_map@ == effect_entries(
                players@.take(i as int),
                detonation_damage(nade.kind, nade.position),
            ),
            blind_map@ == effect_entries(
                players@.take(i as int),
                detonation_blind(nade.kind, nade.position),
            ),
        decreases players@.len() - i,
    {
        let player = &players[i];
        assert(players@.take(i + 1).drop_last() =~= players@.take(i as int));
        assert(players@.take(i + 1).last() == *player);
        if player.is_alive() && player.position.is_within(&nade.position, radius) {
            let d = player.position.distance_to(&nade.position);
            proof {
                let c = choose|x: int| is_isqrt(dist_sq(player.position, nade.position), x);
                lemma_isqrt_unique(dist_sq(player.position, nade.position), c, d as int);
            }
            match nade.kind {
                GrenadeType::HE => {
                    // Damage falls off linearly with distance
                    let dmg = falloff_of(nade.kind.max_damage(), d, radius);
                    if dmg > 100 {
                        damage_map.push((player.profile.id.clone(), dmg));
                    }
                },
                GrenadeType::Flash => {
                    // Blindness falls off with distance
                    let blind = falloff_of(nade.kind.effect_duration(), d, radius);
                    if blind > 200 {
                        blind_map.push((player.profile.id.clone(), blind));
                    }
                },
                GrenadeType::Molotov => {
                    // Initial burst damage
                    if d < (radius / 2) as u64 {
                        damage_map.push((player.profile.id.clone(), 1500));
                    }
                },
                GrenadeType::Smoke => {},
            }
        }
        i = i + 1;
    }
    assert(players@.take(players@.len() as int) =~= players@);
    GrenadeEffectEvent {
        grenade_id: nade.id,
        kind: nade.kind,
        position: nade.position,
        damage_map,
        blind_map,
        is_smoke: nade.kind == GrenadeType::Smoke,
    }
}

/// The event of fire `nade` burning `players` for `delta_ms` milliseconds.
fn burn_tick(nade: &ThrownGrenade, players: &Vec<Player>, delta_ms: u32) -> (e: GrenadeEffectEvent)
    requires
        nade.kind == GrenadeType::Molotov,
    ensures
        e@ == burn_event(*nade, players@, delta_ms),
{
    let radius = nade.kind.radius();
    let full: u64 = nade.kind.max_damage() as u64 * delta_ms as u64 / 1000;
    let dmg: u32 = if full <= u32::MAX as u64 {
        full as u32
    } else {
        u32::MAX
    };
    let mut damage_map: Vec<(String, u32)> = Vec::new();
    let mut i: usize = 0;
    while i < players.len()
        invariant
            i <= players@.len(),
            nade.kind == GrenadeType::Molotov,
            radius == radius_of(nade.kind),
            dmg == burn_damage(delta_ms),
            damage_map@ == effect_entries(players@.take(i as int), burn_of(nade.position, delta_ms)),
        decreases players@.len() - i,
    {
        let player = &players[i];
        assert(players@.take(i + 1).drop_last() =~= players@.take(i as int));
        assert(players@.take(i + 1).last() == *player);
        if player.is_alive() && player.position.is_within(&nade.position, radius) {
            if dmg > 0 {
                damage_map.push((player.profile.id.clone(), dmg));
            }
        }
        i = i + 1;
    }
    assert(players@.take(players@.len() as int) =~= players@);
    GrenadeEffectEvent {
        grenade_id: nade.id,
        kind: nade.kind,
        position: nade.position,
        damage_map,
        blind_map: Vec::new(),
        is_smoke: false,
    }
}

/// `t` reduced by `delta`, stopping at zero.
pub open spec fn run_down(t: u32, delta: u32) -> u32 {
    if t > delta {
        (t - delta) as u32
    } else {
        0
    }
}

/// Grenade `g` after `delta` milliseconds.
pub open spec fn grenade_after(g: ThrownGrenade, delta: u32) -> ThrownGrenade {
    let t = run_down(g.timer_ms, delta);
    match g.state {
        GrenadeState::Expired => g,
        GrenadeState::Fusing => if t == 0 {
            match g.kind {
                GrenadeType::Smoke | GrenadeType::Molotov => ThrownGrenade {
                    state: GrenadeState::Active,
                    timer_ms: effect_duration_of(g.kind),
                    detonated: true,
                    ..g
                },
                _ => ThrownGrenade {
                    state: GrenadeState::Expired,
                    timer_ms: t,
                    detonated: true,
                    ..g
                },
            }
        } else {
            ThrownGrenade { timer_ms: t, ..g }
        },
        GrenadeState::Active => ThrownGrenade {
            timer_ms: t,
            state: if t == 0 {
                GrenadeState::Expired
            } else {
                GrenadeState::Active
            },
            ..g
        },
    }
}

/// The events grenade `g` emits over `delta` milliseconds among `players`:
/// its detonation when the fuse runs out, and a burn each tick while a fire
/// is active.
pub open spec fn grenade_events(g: ThrownGrenade, delta: u32, players: Seq<Player>) -> Seq<GrenadeEffectView> {
    let t = run_down(g.timer_ms, delta);
    match g.state {
        GrenadeState::Expired => Seq::empty(),
        GrenadeState::Fusing => if t == 0 {
            seq![detonation_event(g, players)]
        } else {
            Seq::empty()
        },
        GrenadeState::Active => if g.kind == GrenadeType::Molotov {
            seq![burn_event(g, players, delta)]
        } else {
            Seq::empty()
        },
    }
}

/// The events all of `gs` emit, in order.
pub open spec fn all_events(gs: Seq<ThrownGrenade>, delta: u32, players: Seq<Player>) -> Seq<GrenadeEffectView>
    decreases gs.len(),
{
    if gs.len() == 0 {
        Seq::empty()
    } else {
        all_events(gs.drop_last(), delta, players) + grenade_events(gs.last(), delta, players)
    }
}

/// The grenades of `gs` after `delta` milliseconds, without those that expired.
pub open spec fn live_after(gs: Seq<ThrownGrenade>, delta: u32) -> Seq<ThrownGrenade>
    decreases gs.len(),
{
    if gs.len() == 0 {
        Seq::empty()
    } else {
        let g = grenade_after(gs.last(), delta);
        if g.state == GrenadeState::Expired {
            live_after(gs.drop_last(), delta)
        } else {
            live_after(gs.drop_last(), delta).push(g)
        }
    }
}

/// The positions of the grenades of `gs` of kind `k` in the active state.
pub open spec fn active_positions(gs: Seq<ThrownGrenade>, k: GrenadeType) -> Seq<Vec3>
    decreases gs.len(),
{
    if gs.len() == 0 {
        Seq::empty()
    } else if gs.last().kind == k && gs.last().state == GrenadeState::Active {
        active_positions(gs.drop_last(), k).push(gs.last().position)
    } else {
        active_positions(gs.drop_last(), k)
    }
}

/// The grenades `gs` carry ids in strictly increasing throw order, each
/// below `next`, the id the next throw gets; so no two share an id.
pub open spec fn grenade_ids_ordered(gs: Seq<ThrownGrenade>, next: u32) -> bool {
    &&& forall|i: int, j: int| 0 <= i < j < gs.len() ==> #[trigger] gs[i].id < #[trigger] gs[j].id
    &&& forall|i: int| 0 <= i < gs.len() ==> #[trigger] gs[i].id < next
}

/// Ticking keeps each grenade's id, and so keeps the ids in order.
proof fn lemma_live_after_ids(gs: Seq<ThrownGrenade>, delta: u32, next: u32)
    requires
        grenade_ids_ordered(gs, next),
    ensures
        forall|i: int|
            0 <= i < live_after(gs, delta).len() ==> exists|j: int|
                0 <= j < gs.len() && #[trigger] live_after(gs, delta)[i].id == gs[j].id,
        grenade_ids_ordered(live_after(gs, delta), next),
    decreases gs.len(),
{
    if gs.len() > 0 {
        let d = gs.drop_last();
        assert forall|i: int, j: int| 0 <= i < j < d.len() implies #[trigger] d[i].id < #[trigger] d[j].id by {
            assert(d[i] == gs[i] && d[j] == gs[j]);
        }
        assert forall|i: int| 0 <= i < d.len() implies #[trigger] d[i].id < next by {
            assert(d[i] == gs[i]);
        }
        lemma_live_after_ids(d, delta, next);
        let prev = live_after(d, delta);
        let r = live_after(gs, delta);
        let last = gs.len() - 1;
        assert(grenade_after(gs.last(), delta).id == gs[last].id);
        assert forall|i: int| 0 <= i < r.len() implies exists|j: int|
            0 <= j < gs.len() && #[trigger] r[i].id == gs[j].id by {
            if i < prev.len() {
                let j = choose|j: int| 0 <= j < d.len() && prev[i].id == d[j].id;
                assert(r[i] == prev[i] && d[j] == gs[j]);
            } else {
                assert(r[i].id == gs[last].id);
            }
        }
        assert forall|i: int, j: int| 0 <= i < j < r.len() implies #[trigger] r[i].id < #[trigger] r[j].id by {
            if j < prev.len() {
                assert(r[i] == prev[i] && r[j] == prev[j]);
            } else {
                let a = choose|a: int| 0 <= a < d.len() && prev[i].id == d[a].id;
                assert(r[i] == prev[i] && d[a] == gs[a]);
                assert(gs[a].id < gs[last].id);
            }
        }
        assert forall|i: int| 0 <= i < r.len() implies #[trigger] r[i].id < next by {
            let j = choose|j: int| 0 <= j < gs.len() && r[i].id == gs[j].id;
        }
    }
}

/// What a tick does to grenades, proved by induction over the list: no
/// more grenades stay than there were, each one that stays is a grenade of
/// the list after the tick and not expired, and the events come from
/// grenades that had not expired, in rising order of their ids.
proof fn lemma_tick_shape(gs: Seq<ThrownGrenade>, delta: u32, next: u32, players: Seq<Player>)
    requires
        grenade_ids_ordered(gs, next),
    ensures
        live_after(gs, delta).len() <= gs.len(),
        forall|i: int|
            0 <= i < live_after(gs, delta).len() ==> (#[trigger] live_after(gs, delta)[i]).state
                != GrenadeState::Expired && exists|j: int|
                0 <= j < gs.len() && live_after(gs, delta)[i] == grenade_after(gs[j], delta),
        forall|i: int|
            0 <= i < all_events(gs, delta, players).len() ==> exists|j: int|
                0 <= j < gs.len() && gs[j].state != GrenadeState::Expired && (#[trigger] all_events(
                    gs,
                    delta,
                    players,
                )[i]).grenade_id == gs[j].id,
        forall|i: int, k: int|
            0 <= i < k < all_events(gs, delta, players).len() ==> (#[trigger] all_events(
                gs,
                delta,
                players,
            )[i]).grenade_id < (#[trigger] all_events(gs, delta, players)[k]).grenade_id,
    decreases gs.len(),
{
    if gs.len() > 0 {
        let d = gs.drop_last();
        let last = gs.len() - 1;
        assert forall|i: int, j: int| 0 <= i < j < d.len() implies #[trigger] d[i].id < #[trigger] d[j].id by {
            assert(d[i] == gs[i] && d[j] == gs[j]);
        }
        assert forall|i: int| 0 <= i < d.len() implies #[trigger] d[i].id < next by {
            assert(d[i] == gs[i]);
        }
        lemma_tick_shape(d, delta, next, players);
        let prev = live_after(d, delta);
        let la = live_after(gs, delta);
        assert forall|i: int| 0 <= i < la.len() implies (#[trigger] la[i]).state != GrenadeState::Expired
            && exists|j: int| 0 <= j < gs.len() && la[i] == grenade_after(gs[j], delta) by {
            if i < prev.len() {
                assert(la[i] == prev[i]);
                let j = choose|j: int| 0 <= j < d.len() && prev[i] == grenade_after(d[j], delta);
                assert(d[j] == gs[j]);
            } else {
                assert(la[i] == grenade_after(gs[last], delta));
            }
        }
        let pe = all_events(d, delta, players);
        let ge = grenade_events(gs[last], delta, players);
        let ev = all_events(gs, delta, players);
        assert(ev == pe + ge);
        assert(ge.len() <= 1);
        assert(ge.len() == 1 ==> ge[0].grenade_id == gs[last].id && gs[last].state != GrenadeState::Expired);
        assert forall|i: int| 0 <= i < ev.len() implies exists|j: int|
            0 <= j < gs.len() && gs[j].state != GrenadeState::Expired && (#[trigger] ev[i]).grenade_id
                == gs[j].id by {
            if i < pe.len() {
                assert(ev[i] == pe[i]);
                let j = choose|j: int|
                    0 <= j < d.len() && d[j].state != GrenadeState::Expired && pe[i].grenade_id == d[j].id;
                assert(d[j] == gs[j]);
            } else {
                assert(ev[i] == ge[0]);
            }
        }
        assert forall|i: int, k: int| 0 <= i < k < ev.len() implies (#[trigger] ev[i]).grenade_id
            < (#[trigger] ev[k]).grenade_id by {
            if k < pe.len() {
                assert(ev[i] == pe[i] && ev[k] == pe[k]);
            } else {
                assert(ev[k] == ge[0]);
                assert(ev[i] == pe[i]);
                let j = choose|j: int|
                    0 <= j < d.len() && d[j].state != GrenadeState::Expired && pe[i].grenade_id == d[j].id;
                assert(d[j] == gs[j]);
            }
        }
    }
}

/// A tick of the grenades of a round, whose ids rise in throw order: no
/// grenade is added; each grenade that stays has not expired and carries
/// the id of a grenade from before; the events name distinct grenades from
/// before that had not expired; a smoke or fire whose fuse runs out now
/// stays, active, for its full effect time; any other grenade whose fuse
/// runs out now is gone.
pub proof fn lemma_grenade_tick(gs: Seq<ThrownGrenade>, delta: u32, next: u32, players: Seq<Player>)
    requires
        grenade_ids_ordered(gs, next),
    ensures
        live_after(gs, delta).len() <= gs.len(),
        forall|i: int|
            0 <= i < live_after(gs, delta).len() ==> (#[trigger] live_after(gs, delta)[i]).state
                != GrenadeState::Expired && exists|j: int|
                0 <= j < gs.len() && live_after(gs, delta)[i].id == gs[j].id,
        forall|i: int|
            0 <= i < all_events(gs, delta, players).len() ==> exists|j: int|
                0 <= j < gs.len() && gs[j].state != GrenadeState::Expired && (#[trigger] all_events(
                    gs,
                    delta,
                    players,
                )[i]).grenade_id == gs[j].id,
        forall|i: int, k: int|
            0 <= i < all_events(gs, delta, players).len() && 0 <= k < all_events(gs, delta, players).len()
                && i != k ==> (#[trigger] all_events(gs, delta, players)[i]).grenade_id != (
            #[trigger] all_events(gs, delta, players)[k]).grenade_id,
        forall|j: int|
            0 <= j < gs.len() && (#[trigger] gs[j]).state == GrenadeState::Fusing && run_down(
                gs[j].timer_ms,
                delta,
            ) == 0 ==> if gs[j].kind == GrenadeType::Smoke || gs[j].kind == GrenadeType::Molotov {
                exists|i: int|
                    0 <= i < live_after(gs, delta).len() && #[trigger] live_after(gs, delta)[i].id
                        == gs[j].id && live_after(gs, delta)[i].state == GrenadeState::Active
                        && live_after(gs, delta)[i].timer_ms == effect_duration_of(gs[j].kind)
            } else {
                forall|i: int|
                    0 <= i < live_after(gs, delta).len() ==> #[trigger] live_after(gs, delta)[i].id
                        != gs[j].id
            },
{
    let la = live_after(gs, delta);
    let ev = all_events(gs, delta, players);
    assert(la.len() <= gs.len()) by {
        lemma_tick_shape(gs, delta, next, players);
    }
    assert forall|i: int|
        0 <= i < la.len() implies (#[trigger] la[i]).state != GrenadeState::Expired && exists|j: int|
        0 <= j < gs.len() && la[i].id == gs[j].id by {
        lemma_kept_from(gs, delta, next, players, i);
    }
    assert forall|i: int| 0 <= i < ev.len() implies exists|j: int|
        0 <= j < gs.len() && gs[j].state != GrenadeState::Expired && (#[trigger] ev[i]).grenade_id
            == gs[j].id by {
        lemma_tick_shape(gs, delta, next, players);
    }
    assert forall|i: int, k: int|
        0 <= i < ev.len() && 0 <= k < ev.len() && i != k implies (#[trigger] ev[i]).grenade_id != (
    #[trigger] ev[k]).grenade_id by {
        lemma_tick_shape(gs, delta, next, players);
        if i < k {
            assert(ev[i].grenade_id < ev[k].grenade_id);
        } else {
            assert(ev[k].grenade_id < ev[i].grenade_id);
        }
    }
    assert forall|j: int|
        0 <= j < gs.len() && (#[trigger] gs[j]).state == GrenadeState::Fusing && run_down(
            gs[j].timer_ms,
            delta,
        ) == 0 implies if gs[j].kind == GrenadeType::Smoke || gs[j].kind == GrenadeType::Molotov {
        exists|i: int|
            0 <= i < la.len() && #[trigger] la[i].id == gs[j].id && la[i].state == GrenadeState::Active
                && la[i].timer_ms == effect_duration_of(gs[j].kind)
    } else {
        forall|i: int| 0 <= i < la.len() ==> #[trigger] la[i].id != gs[j].id
    } by {
        lemma_detonation_outcome(gs, delta, next, players, j);
    }
}

/// Each grenade kept after a tick has not expired and carries the id of a
/// grenade from before.
proof fn lemma_kept_from(gs: Seq<ThrownGrenade>, delta: u32, next: u32, players: Seq<Player>, i: int)
    requires
        grenade_ids_ordered(gs, next),
        0 <= i < live_after(gs, delta).len(),
    ensures
        live_after(gs, delta)[i].state != GrenadeState::Expired,
        exists|j: int| 0 <= j < gs.len() && live_after(gs, delta)[i].id == #[trigger] gs[j].id,
{
    lemma_tick_shape(gs, delta, next, players);
    let la = live_after(gs, delta);
    let j = choose|j: int| 0 <= j < gs.len() && la[i] == grenade_after(gs[j], delta);
    assert(la[i].id == gs[j].id);
}

/// What becomes of grenade `j` when its fuse runs out in this tick: a
/// smoke or fire stays, active for its full effect time; any other is gone.
proof fn lemma_detonation_outcome(
    gs: Seq<ThrownGrenade>,
    delta: u32,
    next: u32,
    players: Seq<Player>,
    j: int,
)
    requires
        grenade_ids_ordered(gs, next),
        0 <= j < gs.len(),
        gs[j].state == GrenadeState::Fusing,
        run_down(gs[j].timer_ms, delta) == 0,
    ensures
        if gs[j].kind == GrenadeType::Smoke || gs[j].kind == GrenadeType::Molotov {
            exists|i: int|
                0 <= i < live_after(gs, delta).len() && #[trigger] live_after(gs, delta)[i].id
                    == gs[j].id && live_after(gs, delta)[i].state == GrenadeState::Active
                    && live_after(gs, delta)[i].timer_ms == effect_duration_of(gs[j].kind)
        } else {
            forall|i: int|
                0 <= i < live_after(gs, delta).len() ==> #[trigger] live_after(gs, delta)[i].id
                    != gs[j].id
        },
{
    let la = live_after(gs, delta);
    lemma_live_after_contains(gs, delta, j);
    if gs[j].kind == GrenadeType::Smoke || gs[j].kind == GrenadeType::Molotov {
        let i = choose|i: int| 0 <= i < la.len() && #[trigger] la[i] == grenade_after(gs[j], delta);
        assert(la[i].id == gs[j].id);
    } else {
        lemma_tick_shape(gs, delta, next, players);
        assert forall|i: int| 0 <= i < la.len() implies #[trigger] la[i].id != gs[j].id by {
            let m = choose|m: int| 0 <= m < gs.len() && la[i] == grenade_after(gs[m], delta);
            if m != j {
                if m < j {
                    assert(gs[m].id < gs[j].id);
                } else {
                    assert(gs[j].id < gs[m].id);
                }
            }
        }
    }
}

/// A grenade that has not expired after the tick is kept in the list.
proof fn lemma_live_after_contains(gs: Seq<ThrownGrenade>, delta: u32, j: int)
    requires
        0 <= j < gs.len(),
    ensures
        grenade_after(gs[j], delta).state != GrenadeState::Expired ==> exists|i: int|
            0 <= i < live_after(gs, delta).len() && #[trigger] live_after(gs, delta)[i]
                == grenade_after(gs[j], delta),
    decreases gs.len(),
{
    let la = live_after(gs, delta);
    if j == gs.len() - 1 {
        if grenade_after(gs[j], delta).state != GrenadeState::Expired {
            assert(la[la.len() - 1] == grenade_after(gs[j], delta));
        }
    } else {
        let d = gs.drop_last();
        assert(d[j] == gs[j]);
        lemma_live_after_contains(d, delta, j);
        if grenade_after(gs[j], delta).state != GrenadeState::Expired {
            let i = choose|i: int| 0 <= i < live_after(d, delta).len() && #[trigger] live_after(d, delta)[i]
                == grenade_after(d[j], delta);
            assert(la[i] == live_after(d, delta)[i]);
        }
    }
}

/// Manages all live grenades for a single round.
#[derive(Debug)]
pub struct GrenadeSim {
    grenades: Vec<ThrownGrenade>,
    next_id: u32,
}

impl GrenadeSim {
    /// The live grenades, in throw order.
    pub closed spec fn live(&self) -> Seq<ThrownGrenade> {
        self.grenades@
    }

    /// Ids are handed out in order and never reused.
    #[verifier::type_invariant]
    spec fn ids_in_order(self) -> bool {
        grenade_ids_ordered(self.grenades@, self.next_id)
    }

    /// The id the next thrown grenade gets.
    pub closed spec fn issued(&self) -> u32 {
        self.next_id
    }

    pub fn new() -> (g: Self)
        ensures
            g.live().len() == 0,
            g.issued() == 0,
            grenade_ids_ordered(g.live(), g.issued()),
    {
        GrenadeSim { grenades: Vec::new(), next_id: 0 }
    }

    /// The id the next thrown grenade gets.
    pub fn next_grenade_id(&self) -> (r: u32)
        ensures
            r == self.issued(),
    {
        self.next_id
    }

    /// Register a newly thrown grenade; returns its id.
    pub fn throw(&mut self, kind: GrenadeType, thrower_id: String, position: Vec3) -> (id: u32)
        requires
            old(self).issued() < u32::MAX,
        ensures
            id == old(self).issued(),
            final(self).issued() == old(self).issued() + 1,
            final(self).live() == old(self).live().push(
                ThrownGrenade {
                    id,
                    kind,
                    thrower_id,
                    position,
                    state: GrenadeState::Fusing,
                    timer_ms: fuse_of(kind),
                    detonated: false,
                },
            ),
            grenade_ids_ordered(final(self).live(), final(self).issued()),
    {
        proof {
            use_type_invariant(&*self);
        }
        let id = self.next_id;
        self.next_id = self.next_id + 1;
        let mut gs: Vec<ThrownGrenade> = Vec::new();
        std::mem::swap(&mut gs, &mut self.grenades);
        gs.push(ThrownGrenade::new(id, kind, thrower_id, position));
        self.grenades = gs;
        id
    }

    /// Advance all grenade timers by `delta_ms` and return the effect events
    /// that fired, in throw order; expired grenades are removed.
    pub fn tick(&mut self, delta_ms: u32, players: &Vec<Player>) -> (events: Vec<GrenadeEffectEvent>)
        ensures
            events@.map_values(|e: GrenadeEffectEvent| e@) == all_events(
                old(self).live(),
                delta_ms,
                players@,
            ),
            final(self).live() == live_after(old(self).live(), delta_ms),
            final(self).issued() == old(self).issued(),
            grenade_ids_ordered(old(self).live(), old(self).issued()),
            grenade_ids_ordered(final(self).live(), final(self).issued()),
    {
        proof {
            use_type_invariant(&*self);
            lemma_live_after_ids(self.grenades@, delta_ms, self.next_id);
        }
        let mut events: Vec<GrenadeEffectEvent> = Vec::new();
        let mut kept: Vec<ThrownGrenade> = Vec::new();
        let mut i: usize = 0;
        while i < self.grenades.len()
            invariant
                i <= self.grenades@.len(),
                self.grenades@ == old(self).grenades@,
                events@.map_values(|e: GrenadeEffectEvent| e@) == all_events(
                    self.grenades@.take(i as int),
                    delta_ms,
                    players@,
                ),
                kept@ == live_after(self.grenades@.take(i as int), delta_ms),
            decreases self.grenades@.len() - i,
        {
            let ghost before_events = events@;
            let mut nade = self.grenades[i].clone();
            let ghost g0 = nade;
            assert(self.grenades@.take(i + 1).drop_last() =~= self.grenades@.take(i as int));
            assert(self.grenades@.take(i + 1).last() == g0);
            if nade.state != GrenadeState::Expired {
                nade.timer_ms = if nade.timer_ms > delta_ms {
                    nade.timer_ms - delta_ms
                } else {
                    0
                };
                match nade.state {
                    GrenadeState::Fusing => {
                        if nade.timer_ms == 0 {
                            // Detonate
                            let event = detonate(&nade, players);
                            nade.detonated = true;
                            match nade.kind {
                                GrenadeType::Smoke | GrenadeType::Molotov => {
                                    // Persistent effect
                                    nade.state = GrenadeState::Active;
                                    nade.timer_ms = nade.kind.effect_duration();
                                },
                                _ => {
                                    nade.state = GrenadeState::Expired;
                                },
                            }
                            events.push(event);
                        }
                    },
                    GrenadeState::Active => {
                        // A fire burns everyone in range on every tick
                        if nade.kind == GrenadeType::Molotov {
                            let event = burn_tick(&nade, players, delta_ms);
                            events.push(event);
                        }
                        if nade.timer_ms == 0 {
                            nade.state = GrenadeState::Expired;
                        }
                    },
                    GrenadeState::Expired => {},
                }
            }
            assert(nade == grenade_after(g0, delta_ms));
            assert(events@.map_values(|e: GrenadeEffectEvent| e@) =~= before_events.map_values(
                |e: GrenadeEffectEvent| e@,
            ) + grenade_events(g0, delta_ms, players@));
            if nade.state != GrenadeState::Expired {
                kept.push(nade);
            }
            i = i + 1;
        }
        assert(self.grenades@.take(self.grenades@.len() as int) =~= self.grenades@);
        self.grenades = kept;
        events
    }

    /// Positions of the smoke clouds currently active.
    pub fn active_smokes(&self) -> (r: Vec<Vec3>)
        ensures
            r@ == active_positions(self.live(), GrenadeType::Smoke),
    {
        self.active_of(GrenadeType::Smoke)
    }

    /// Positions of the fires currently burning.
    pub fn active_fires(&self) -> (r: Vec<Vec3>)
        ensures
            r@ == active_positions(self.live(), GrenadeType::Molotov),
    {
        self.active_of(GrenadeType::Molotov)
    }

    fn active_of(&self, kind: GrenadeType) -> (r: Vec<Vec3>)
        ensures
            r@ == active_positions(self.live(), kind),
    {
        let mut out: Vec<Vec3> = Vec::new();
        let mut i: usize = 0;
        while i < self.grenades.len()
            invariant
                i <= self.grenades@.len(),
                out@ == active_positions(self.grenades@.take(i as int), kind),
            decreases self.grenades@.len() - i,
        {
            assert(self.grenades@.take(i + 1).drop_last() =~= self.grenades@.take(i as int));
            let g = &self.grenades[i];
            if g.kind == kind && g.state == GrenadeState::Active {
                out.push(g.position);
            }
            i = i + 1;
        }
        assert(self.grenades@.take(self.grenades@.len() as int) =~= self.grenades@);
        out
    }

    /// Number of grenades still live.
    pub fn live_count(&self) -> (n: usize)
        ensures
            n == self.live().len(),
    {
        self.grenades.len()
    }
}

impl Default for GrenadeSim {
    fn default() -> (g: Self)
        ensures
            g.live().len() == 0,
            g.issued() == 0,
    {
        GrenadeSim::new()
    }
}

} // verus!
