//! The modifier registry: an immutable table of which (perk, outcome
//! category) pairs carry a computation.
//!
//! The registry is built once at startup by a deterministic builder and is
//! read-only afterwards. Registering the same pair twice is a programmer
//! error and fails fast at build time; a missing entry is not an error, it is
//! the identity modifier by design.
use vstd::prelude::*;

use crate::buff_perks::{buff_perk_entries, buff_perks};
use crate::exotic_armor::{exotic_armor, exotic_armor_entries};
use crate::ids::{OutcomeCategory, PerkId};

verus! {

/// A handle to the one computation registered for a (perk, category) pair.
#[derive(Clone, Copy, Debug, PartialEq, Eq, Structural)]
pub struct Computation {
    pub perk: PerkId,
    pub category: OutcomeCategory,
}

/// The one failure class of the registry: a duplicate registration.
#[derive(Clone, Copy, Debug, PartialEq, Eq, Structural)]
pub enum RegistryError {
    Duplicate(PerkId, OutcomeCategory),
}

/// Appending to a sequence extends what it contains by exactly the appended
/// element.
pub proof fn lemma_push_contains<T>(s: Seq<T>, e: T, x: T)
    ensures
        s.push(e).contains(x) <==> (s.contains(x) || x == e),
{
    if s.push(e).contains(x) {
        let i = choose|i: int| 0 <= i < s.push(e).len() && s.push(e)[i] == x;
        if i < s.len() {
            assert(s[i] == x);
        }
    }
    if s.contains(x) {
        let i = choose|i: int| 0 <= i < s.len() && s[i] == x;
        assert(s.push(e)[i] == x);
    }
    assert(s.push(e)[s.len() as int] == e);
}

/// The immutable table mapping (perk, category) to its computation.
pub struct Registry {
    entries: Vec<(PerkId, OutcomeCategory)>,
}

impl Registry {
    /// Whether a computation is registered for the pair.
    pub closed spec fn registered(self, p: PerkId, c: OutcomeCategory) -> bool {
        self.entries@.contains((p, c))
    }

    /// An empty registry.
    pub fn new() -> (r: Registry)
        ensures
            forall|p: PerkId, c: OutcomeCategory| !r.registered(p, c),
    {
        Registry { entries: Vec::new() }
    }

    fn find(&self, p: PerkId, c: OutcomeCategory) -> (r: bool)
        ensures
            r == self.registered(p, c),
    {
        let mut i: usize = 0;
        while i < self.entries.len()
            invariant
                0 <= i <= self.entries@.len(),
                forall|j: int| 0 <= j < i ==> self.entries@[j] != (p, c),
            decreases self.entries@.len() - i,
        {
            let e = self.entries[i];
            if e.0 == p && e.1 == c {
                assert(self.entries@[i as int] == (p, c));
                return true;
            }
            i = i + 1;
        }
        proof {
            if self.entries@.contains((p, c)) {
                let j = choose|j: int|
                    0 <= j < self.entries@.len() && self.entries@[j] == (p, c);
                assert(false);
            }
        }
        false
    }

    /// Adds one computation to the table. At most one computation may stand
    /// per (perk, category) pair: a second registration of the same pair is a
    /// programmer error reported at once, and the table is left unchanged.
    pub fn register(&mut self, p: PerkId, c: OutcomeCategory) -> (r: Result<(), RegistryError>)
        ensures
            old(self).registered(p, c) ==> r == Result::<(), RegistryError>::Err(
                RegistryError::Duplicate(p, c),
            ) && *final(self) == *old(self),
            !old(self).registered(p, c) ==> r == Result::<(), RegistryError>::Ok(()) && (forall|
                q: PerkId,
                d: OutcomeCategory,
            |
                final(self).registered(q, d) <==> (old(self).registered(q, d) || (q == p && d
                    == c))),
    {
        if self.find(p, c) {
            Err(RegistryError::Duplicate(p, c))
        } else {
            let ghost before = self.entries@;
            self.entries.push((p, c));
            proof {
                assert forall|q: PerkId, d: OutcomeCategory|
                    self.registered(q, d) <==> (before.contains((q, d)) || (q == p && d
                        == c)) by {
                    lemma_push_contains(before, (p, c), (q, d));
                }
            }
            Ok(())
        }
    }

    /// Looks the pair up: the registered computation's handle, or `None` when
    /// the perk has no computation for that category (the common case).
    pub fn lookup(&self, p: PerkId, c: OutcomeCategory) -> (r: Option<Computation>)
        ensures
            r == if self.registered(p, c) {
                Option::Some(Computation { perk: p, category: c })
            } else {
                Option::<Computation>::None
            },
    {
        if self.find(p, c) {
            Some(Computation { perk: p, category: c })
        } else {
            None
        }
    }
}

/// No pair registers twice.
pub open spec fn entries_distinct(s: Seq<(PerkId, OutcomeCategory)>) -> bool {
    forall|i: int, j: int| 0 <= i < j < s.len() ==> s[i] != s[j]
}

/// Everything the standard catalogue registers, in registration order.
pub open spec fn all_entries() -> Seq<(PerkId, OutcomeCategory)> {
    buff_perk_entries() + exotic_armor_entries()
}

/// Builds the process-wide registry from the standard catalogue. The build
/// succeeds exactly when no (perk, category) pair is registered twice, and
/// then the registry holds exactly the catalogue's pairs; a duplicate is
/// reported as the error it is.
pub fn build_registry() -> (r: Result<Registry, RegistryError>)
    ensures
        r is Ok <==> entries_distinct(all_entries()),
        r matches Ok(reg) ==> forall|p: PerkId, c: OutcomeCategory|
            reg.registered(p, c) <==> all_entries().contains((p, c)),
{
    let mut all = buff_perks();
    let exotics = exotic_armor();
    let mut k: usize = 0;
    proof {
        assert(all@ + exotics@.take(0) =~= all@);
    }
    while k < exotics.len()
        invariant
            0 <= k <= exotics@.len(),
            exotics@ == exotic_armor_entries(),
            all@ == buff_perk_entries() + exotics@.take(k as int),
        decreases exotics@.len() - k,
    {
        proof {
            assert((buff_perk_entries() + exotics@.take(k as int)).push(exotics@[k as int])
                =~= buff_perk_entries() + exotics@.take(k as int + 1));
        }
        all.push(exotics[k]);
        k = k + 1;
    }
    proof {
        assert(exotics@.take(exotics@.len() as int) =~= exotics@);
        assert(all@ == all_entries());
    }

    let mut reg = Registry::new();
    let mut i: usize = 0;
    proof {
        assert(entries_distinct(all@.take(0)));
    }
    while i < all.len()
        invariant
            0 <= i <= all@.len(),
            all@ == all_entries(),
            forall|p: PerkId, c: OutcomeCategory|
                reg.registered(p, c) <==> all@.take(i as int).contains((p, c)),
            entries_distinct(all@.take(i as int)),
        decreases all@.len() - i,
    {
        let (p, c) = all[i];
        let ghost taken = all@.take(i as int);
        match reg.register(p, c) {
            Err(e) => {
                proof {
                    let j = choose|j: int| 0 <= j < taken.len() && taken[j] == (p, c);
                    assert(all@[j] == all@[i as int]);
                    assert(!entries_distinct(all_entries()));
                }
                return Err(e);
            },
            Ok(_u) => {
                proof {
                    assert(all@.take(i as int + 1) =~= taken.push(all@[i as int]));
                    assert forall|q: PerkId, d: OutcomeCategory|
                        reg.registered(q, d) <==> all@.take(i as int + 1).contains(
                            (q, d),
                        ) by {
                        lemma_push_contains(taken, (p, c), (q, d));
                    }
                    assert forall|a: int, b: int|
                        0 <= a < b < i as int + 1 implies #[trigger] all@.take(i as int + 1)[a]
                        != #[trigger] all@.take(i as int + 1)[b] by {
                        if b == i as int {
                            assert(taken[a] == all@.take(i as int + 1)[a]);
                            if all@.take(i as int + 1)[a] == (p, c) {
                                assert(taken.contains((p, c)));
                            }
                        }
                    }
                }
            },
        }
        i = i + 1;
    }
    proof {
        assert(all@.take(all@.len() as int) =~= all@);
    }
    Ok(reg)
}

} // verus!
