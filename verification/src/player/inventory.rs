use vstd::prelude::*;
use crate::weapons::catalog::{default_weapon_at, lemma_default_knife, WeaponCatalog};
use crate::weapons::types::{AmmoState, Weapon, WeaponSlot};

verus! {

/// Which slot is currently active.
#[derive(Debug, Clone, Copy, PartialEq, Eq, Structural)]
pub enum ActiveSlot {
    Primary,
    Secondary,
    Melee,
    Throwable,
}

impl Default for ActiveSlot {
    fn default() -> (s: Self)
        ensures
            s == ActiveSlot::Primary,
    {
        ActiveSlot::Primary
    }
}

/// A player's weapon inventory (primary, secondary, melee, throwables).
#[derive(Debug)]
pub struct Inventory {
    pub primary: Option<Weapon>,
    pub secondary: Option<Weapon>,
    pub melee: Option<Weapon>,
    pub throwables: Vec<Weapon>,
    /// Index into throwables of the active throwable
    pub active_throwable: Option<usize>,
    /// Which slot is currently active
    pub active_slot: ActiveSlot,
}

/// The plain contents of an inventory, with the throwables as a sequence.
pub struct InventoryView {
    pub primary: Option<Weapon>,
    pub secondary: Option<Weapon>,
    pub melee: Option<Weapon>,
    pub throwables: Seq<Weapon>,
    pub active_throwable: Option<usize>,
    pub active_slot: ActiveSlot,
}

impl View for Inventory {
    type V = InventoryView;

    open spec fn view(&self) -> InventoryView {
        InventoryView {
            primary: self.primary,
            secondary: self.secondary,
            melee: self.melee,
            throwables: self.throwables@,
            active_throwable: self.active_throwable,
            active_slot: self.active_slot,
        }
    }
}

fn clone_opt(w: &Option<Weapon>) -> (r: Option<Weapon>)
    ensures
        r == *w,
{
    match w {
        Some(x) => Some(x.clone()),
        None => None,
    }
}

fn clone_weapons(v: &Vec<Weapon>) -> (r: Vec<Weapon>)
    ensures
        r@ == v@,
{
    let mut out: Vec<Weapon> = Vec::new();
    let mut i: usize = 0;
    while i < v.len()
        invariant
            i <= v@.len(),
            out@ == v@.subrange(0, i as int),
        decreases v@.len() - i,
    {
        out.push(v[i].clone());
        i = i + 1;
        assert(out@ =~= v@.subrange(0, i as int));
    }
    assert(out@ =~= v@);
    out
}

impl Clone for Inventory {
    fn clone(&self) -> (r: Self)
        ensures
            r@ == self@,
    {
        let t = clone_weapons(&self.throwables);
        Inventory {
            primary: clone_opt(&self.primary),
            secondary: clone_opt(&self.secondary),
            melee: clone_opt(&self.melee),
            throwables: t,
            active_throwable: self.active_throwable,
            active_slot: self.active_slot,
        }
    }
}

impl Default for Inventory {
    fn default() -> (inv: Self)
        ensures
            inv.primary is None,
            inv.secondary is None,
            inv.melee is None,
            inv.throwables@.len() == 0,
            inv.active_throwable is None,
            inv.active_slot == ActiveSlot::Primary,
    {
        Inventory {
            primary: None,
            secondary: None,
            melee: None,
            throwables: Vec::new(),
            active_throwable: None,
            active_slot: ActiveSlot::Primary,
        }
    }
}

/// The knife of the default catalog, fresh from the rack.
pub open spec fn is_default_knife(w: Weapon) -> bool {
    &&& w.stats@ == default_weapon_at(25)
    &&& w.ammo == (AmmoState {
        bullets_in_magazine: w.stats.magazine_size,
        reserve_bullets: w.stats.reserve_ammo,
        reload_remaining_ms: None,
        cooldown_remaining_ms: 0,
    })
}

/// The weapon the active slot points at, if there is one.
pub open spec fn active_of(inv: InventoryView) -> Option<Weapon> {
    match inv.active_slot {
        ActiveSlot::Primary => inv.primary,
        ActiveSlot::Secondary => inv.secondary,
        ActiveSlot::Melee => inv.melee,
        ActiveSlot::Throwable => match inv.active_throwable {
            Some(i) => if i < inv.throwables.len() {
                Some(inv.throwables[i as int])
            } else {
                None
            },
            None => None,
        },
    }
}

/// The inventory with the weapon in the active slot replaced by `w`
/// (meaningful where `active_of(inv)` is some weapon).
pub open spec fn with_active(inv: InventoryView, w: Weapon) -> InventoryView {
    match inv.active_slot {
        ActiveSlot::Primary => InventoryView { primary: Some(w), ..inv },
        ActiveSlot::Secondary => InventoryView { secondary: Some(w), ..inv },
        ActiveSlot::Melee => InventoryView { melee: Some(w), ..inv },
        ActiveSlot::Throwable => InventoryView {
            throwables: inv.throwables.update(inv.active_throwable.unwrap() as int, w),
            ..inv
        },
    }
}

/// What equipping `w` does to `inv`: the weapon goes to the slot it belongs
/// to (a throwable joins the throwables and becomes the active one) and that
/// slot becomes active.
pub open spec fn equipped(inv: InventoryView, w: Weapon) -> InventoryView {
    match w.stats.slot {
        WeaponSlot::Primary => InventoryView { primary: Some(w), active_slot: ActiveSlot::Primary, ..inv },
        WeaponSlot::Secondary => InventoryView {
            secondary: Some(w),
            active_slot: ActiveSlot::Secondary,
            ..inv
        },
        WeaponSlot::Melee => InventoryView { melee: Some(w), active_slot: ActiveSlot::Melee, ..inv },
        WeaponSlot::Throwable => InventoryView {
            throwables: inv.throwables.push(w),
            active_throwable: Some(inv.throwables.len() as usize),
            active_slot: ActiveSlot::Throwable,
            ..inv
        },
    }
}

/// The weapon that equipping `w` pushes out of its slot.
pub open spec fn displaced_by(inv: InventoryView, w: Weapon) -> Option<Weapon> {
    match w.stats.slot {
        WeaponSlot::Primary => inv.primary,
        WeaponSlot::Secondary => inv.secondary,
        WeaponSlot::Melee => inv.melee,
        WeaponSlot::Throwable => None,
    }
}

/// The inventory with everything but the knife gone and the knife in hand.
pub open spec fn cleared(inv: InventoryView) -> InventoryView {
    InventoryView {
        primary: None,
        secondary: None,
        throwables: Seq::empty(),
        active_throwable: None,
        active_slot: ActiveSlot::Melee,
        ..inv
    }
}

/// Whether `slot` holds a weapon in `inv`.
pub open spec fn slot_filled(inv: InventoryView, slot: ActiveSlot) -> bool {
    match slot {
        ActiveSlot::Primary => inv.primary is Some,
        ActiveSlot::Secondary => inv.secondary is Some,
        ActiveSlot::Melee => inv.melee is Some,
        ActiveSlot::Throwable => inv.throwables.len() > 0,
    }
}

/// An equipped weapon lands in its slot and is the one in hand, and the
/// weapon it displaces is exactly the one that slot held before; for a
/// throwable, nothing is displaced and it joins the others.
pub proof fn lemma_equip_puts_weapon_in_hand(inv: InventoryView, w: Weapon)
    requires
        inv.throwables.len() < usize::MAX,
    ensures
        active_of(equipped(inv, w)) == Some(w),
        w.stats.slot == WeaponSlot::Primary ==> equipped(inv, w).primary == Some(w)
            && displaced_by(inv, w) == inv.primary,
        w.stats.slot == WeaponSlot::Secondary ==> equipped(inv, w).secondary == Some(w)
            && displaced_by(inv, w) == inv.secondary,
        w.stats.slot == WeaponSlot::Throwable ==> displaced_by(inv, w) is None
            && equipped(inv, w).throwables == inv.throwables.push(w),
{
}

impl Inventory {
    /// The starting loadout: only the knife, which is active.
    pub open spec fn is_default_loadout(&self) -> bool {
        &&& self.primary is None
        &&& self.secondary is None
        &&& self.melee matches Some(k) && is_default_knife(k)
        &&& self.throwables@.len() == 0
        &&& self.active_throwable is None
        &&& self.active_slot == ActiveSlot::Melee
    }

    /// Starting loadout with only a knife.
    pub fn default_loadout() -> (inv: Self)
        ensures
            inv.is_default_loadout(),
    {
        let catalog = WeaponCatalog::new();
        proof {
            lemma_default_knife();
        }
        // The default catalog always holds the knife.
        let stats = catalog.get("Knife").unwrap();
        let knife = Weapon::new(stats.clone());
        Inventory {
            primary: None,
            secondary: None,
            melee: Some(knife),
            throwables: Vec::new(),
            active_throwable: None,
            active_slot: ActiveSlot::Melee,
        }
    }

    /// Add a weapon to the slot it belongs to. Returns the old weapon that
    /// was displaced (if any).
    pub fn equip(&mut self, weapon: Weapon) -> (old_weapon: Option<Weapon>)
        ensures
            old_weapon == displaced_by(old(self)@, weapon),
            final(self)@ == equipped(old(self)@, weapon),
    {
        match weapon.stats.slot {
            WeaponSlot::Primary => {
                let old = self.primary.take();
                self.primary = Some(weapon);
                self.active_slot = ActiveSlot::Primary;
                old
            },
            WeaponSlot::Secondary => {
                let old = self.secondary.take();
                self.secondary = Some(weapon);
                self.active_slot = ActiveSlot::Secondary;
                old
            },
            WeaponSlot::Melee => {
                let old = self.melee.take();
                self.melee = Some(weapon);
                self.active_slot = ActiveSlot::Melee;
                old
            },
            WeaponSlot::Throwable => {
                let ghost len = self.throwables@.len();
                self.throwables.push(weapon);
                self.active_throwable = Some(self.throwables.len() - 1);
                self.active_slot = ActiveSlot::Throwable;
                None
            },
        }
    }

    /// Drop the primary weapon; returns it if present.
    pub fn drop_primary(&mut self) -> (w: Option<Weapon>)
        ensures
            w == old(self).primary,
            final(self)@ == (InventoryView { primary: None, ..old(self)@ }),
    {
        self.primary.take()
    }

    /// Drop the secondary weapon; returns it if present.
    pub fn drop_secondary(&mut self) -> (w: Option<Weapon>)
        ensures
            w == old(self).secondary,
            final(self)@ == (InventoryView { secondary: None, ..old(self)@ }),
    {
        self.secondary.take()
    }

    /// A reference to the currently active weapon.
    pub fn active_weapon(&self) -> (w: Option<&Weapon>)
        ensures
            match active_of(self@) {
                Some(a) => w matches Some(x) && *x == a,
                None => w is None,
            },
    {
        match self.active_slot {
            ActiveSlot::Primary => self.primary.as_ref(),
            ActiveSlot::Secondary => self.secondary.as_ref(),
            ActiveSlot::Melee => self.melee.as_ref(),
            ActiveSlot::Throwable => match self.active_throwable {
                Some(i) => if i < self.throwables.len() {
                    Some(&self.throwables[i])
                } else {
                    None
                },
                None => None,
            },
        }
    }

    /// A mutable reference to the currently active weapon; whatever is
    /// written through it lands in the active slot.
    pub fn active_weapon_mut(&mut self) -> (w: Option<&mut Weapon>)
        ensures
            w is Some <==> active_of(old(self)@) is Some,
            w is Some ==> *w.unwrap() == active_of(old(self)@).unwrap() && final(self)@
                == with_active(old(self)@, *final(w.unwrap())),
            w is None ==> final(self)@ == old(self)@,
    {
        match self.active_slot {
            ActiveSlot::Primary => self.primary.as_mut(),
            ActiveSlot::Secondary => self.secondary.as_mut(),
            ActiveSlot::Melee => self.melee.as_mut(),
            ActiveSlot::Throwable => match self.active_throwable {
                Some(i) => if i < self.throwables.len() {
                    Some(&mut self.throwables[i])
                } else {
                    None
                },
                None => None,
            },
        }
    }

    /// Switch to a different slot; returns false (and stays) if that slot is empty.
    pub fn switch_to(&mut self, slot: ActiveSlot) -> (switched: bool)
        ensures
            switched == slot_filled(old(self)@, slot),
            switched ==> final(self)@ == (InventoryView { active_slot: slot, ..old(self)@ }),
            !switched ==> final(self)@ == old(self)@,
    {
        let has_weapon = match slot {
            ActiveSlot::Primary => self.primary.is_some(),
            ActiveSlot::Secondary => self.secondary.is_some(),
            ActiveSlot::Melee => self.melee.is_some(),
            ActiveSlot::Throwable => self.throwables.len() != 0,
        };
        if has_weapon {
            self.active_slot = slot;
        }
        has_weapon
    }

    /// Switch to the next throwable (wrapping around) and make it active.
    pub fn cycle_throwable(&mut self)
        ensures
            old(self).throwables@.len() == 0 ==> final(self)@ == old(self)@,
            old(self).throwables@.len() > 0 ==> final(self)@ == (InventoryView {
                active_throwable: Some(
                    match old(self).active_throwable {
                        None => 0usize,
                        Some(i) => ((i + 1) % old(self).throwables@.len() as int) as usize,
                    },
                ),
                active_slot: ActiveSlot::Throwable,
                ..old(self)@
            }),
    {
        if self.throwables.len() == 0 {
            return;
        }
        let next = match self.active_throwable {
            None => 0,
            Some(i) => {
                let len = self.throwables.len();
                if i < len {
                    (i + 1) % len
                } else {
                    // i + 1 may not fit: reduce first, as (i + 1) % len
                    (i % len + 1) % len
                }
            },
        };
        proof {
            if let Some(i) = old(self).active_throwable {
                let len = old(self).throwables@.len() as int;
                if i >= len {
                    vstd::arithmetic::div_mod::lemma_add_mod_noop_right(1, i as int, len);
                }
            }
        }
        self.active_throwable = Some(next);
        self.active_slot = ActiveSlot::Throwable;
    }

    /// Remove and return the currently active throwable after throwing it.
    pub fn use_throwable(&mut self) -> (w: Option<Weapon>)
        ensures
            match old(self).active_throwable {
                Some(idx) => if idx < old(self).throwables@.len() {
                    &&& w == Some(old(self).throwables@[idx as int])
                    &&& final(self).throwables@ == old(self).throwables@.remove(idx as int)
                    &&& final(self).active_throwable == if final(self).throwables@.len() == 0 {
                        None
                    } else if idx < final(self).throwables@.len() {
                        Some(idx)
                    } else {
                        Some((final(self).throwables@.len() - 1) as usize)
                    }
                    &&& final(self).primary == old(self).primary
                    &&& final(self).secondary == old(self).secondary
                    &&& final(self).melee == old(self).melee
                    &&& final(self).active_slot == old(self).active_slot
                } else {
                    w is None && final(self)@ == old(self)@
                },
                None => w is None && final(self)@ == old(self)@,
            },
    {
        if let Some(idx) = self.active_throwable {
            if idx < self.throwables.len() {
                let thrown = self.throwables.remove(idx);
                self.active_throwable = if self.throwables.len() == 0 {
                    None
                } else if idx < self.throwables.len() {
                    Some(idx)
                } else {
                    Some(self.throwables.len() - 1)
                };
                return Some(thrown);
            }
        }
        None
    }

    /// Clear everything but the knife (on death / round end); the knife
    /// becomes active.
    pub fn clear(&mut self)
        ensures
            final(self)@ == cleared(old(self)@),
    {
        self.primary = None;
        self.secondary = None;
        self.throwables.clear();
        self.active_throwable = None;
        // Keep knife
        self.active_slot = ActiveSlot::Melee;
    }
}

} // verus!
