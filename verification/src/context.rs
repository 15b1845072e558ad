//! The read-only per-calculation input.
//!
//! A `Context` carries the weapon's flavour tags, the PvP flag, and the full
//! active-perk-to-rank map in insertion order. The map is visible to every
//! computation, because some perks must inspect *other* perks' ranks to
//! implement cross-perk exclusion. It is created once per calculation and
//! never mutated during it.
use vstd::prelude::*;

use crate::ids::{AmmoType, DamageType, PerkId, WeaponType};

verus! {

/// The rank at which `p` stands in an active-perk list: the first entry's
/// rank, or 0 (inactive) when the perk is absent.
pub open spec fn rank_in(perks: Seq<(PerkId, u32)>, p: PerkId) -> u32
    decreases perks.len(),
{
    if perks.len() == 0 {
        0
    } else if perks[0].0 == p {
        perks[0].1
    } else {
        rank_in(perks.skip(1), p)
    }
}

/// Whether `p` has an entry in an active-perk list.
pub open spec fn has_perk(perks: Seq<(PerkId, u32)>, p: PerkId) -> bool {
    exists|i: int| 0 <= i < perks.len() && perks[i].0 == p
}

/// Read-only input for one calculation.
pub struct Context {
    pub weapon_type: WeaponType,
    pub ammo_type: AmmoType,
    pub damage_type: DamageType,
    pub pvp: bool,
    /// Remaining health fraction in thousandths (1000 = full health); read by
    /// the low-health-gated computations.
    pub health: u32,
    /// The weapon's intrinsic identifier hash; a few computations key on it.
    pub intrinsic_hash: u32,
    /// Active perks and their ranks, in insertion order. Rank 0 means
    /// inactive. Insertion order is preserved because it is the order in
    /// which the composer issues same-family requests.
    pub perks: Vec<(PerkId, u32)>,
}

impl Context {
    /// Each perk has at most one entry.
    pub open spec fn wf(self) -> bool {
        forall|i: int, j: int|
            0 <= i < j < self.perks@.len() ==> self.perks@[i].0 != self.perks@[j].0
    }

    /// A context with no active perks, full health, and no intrinsic hash.
    pub fn new(
        weapon_type: WeaponType,
        ammo_type: AmmoType,
        damage_type: DamageType,
        pvp: bool,
    ) -> (r: Context)
        ensures
            r.weapon_type == weapon_type,
            r.ammo_type == ammo_type,
            r.damage_type == damage_type,
            r.pvp == pvp,
            r.health == 1000,
            r.intrinsic_hash == 0,
            r.perks@ == Seq::<(PerkId, u32)>::empty(),
            r.wf(),
    {
        let perks: Vec<(PerkId, u32)> = Vec::new();
        Context { weapon_type, ammo_type, damage_type, pvp, health: 1000, intrinsic_hash: 0, perks }
    }

    fn find_perk(&self, p: PerkId) -> (r: bool)
        ensures
            r == has_perk(self.perks@, p),
    {
        let mut i: usize = 0;
        while i < self.perks.len()
            invariant
                0 <= i <= self.perks@.len(),
                forall|j: int| 0 <= j < i ==> self.perks@[j].0 != p,
            decreases self.perks@.len() - i,
        {
            if self.perks[i].0 == p {
                return true;
            }
            i = i + 1;
        }
        false
    }

    /// Appends one active perk. A perk already present keeps its first entry:
    /// the list stays a map and keeps its insertion order.
    pub fn add_perk(&mut self, p: PerkId, rank: u32) -> (added: bool)
        ensures
            added == !has_perk(old(self).perks@, p),
            added ==> final(self).perks@ == old(self).perks@.push((p, rank)),
            !added ==> *final(self) == *old(self),
            final(self).weapon_type == old(self).weapon_type,
            final(self).ammo_type == old(self).ammo_type,
            final(self).damage_type == old(self).damage_type,
            final(self).pvp == old(self).pvp,
            final(self).health == old(self).health,
            final(self).intrinsic_hash == old(self).intrinsic_hash,
            old(self).wf() ==> final(self).wf(),
    {
        if self.find_perk(p) {
            false
        } else {
            self.perks.push((p, rank));
            true
        }
    }

    /// The rank at which `p` stands in this calculation; 0 when inactive.
    pub fn get_rank(&self, p: PerkId) -> (r: u32)
        ensures
            r == rank_in(self.perks@, p),
    {
        let mut i: usize = 0;
        proof {
            assert(self.perks@.skip(0) =~= self.perks@);
        }
        while i < self.perks.len()
            invariant
                0 <= i <= self.perks@.len(),
                rank_in(self.perks@, p) == rank_in(self.perks@.skip(i as int), p),
            decreases self.perks@.len() - i,
        {
            if self.perks[i].0 == p {
                assert(self.perks@.skip(i as int)[0] == self.perks@[i as int]);
                return self.perks[i].1;
            }
            proof {
                assert(self.perks@.skip(i as int).skip(1) =~= self.perks@.skip(i as int + 1));
            }
            i = i + 1;
        }
        proof {
            assert(self.perks@.skip(i as int).len() == 0);
        }
        0
    }
}

} // verus!
