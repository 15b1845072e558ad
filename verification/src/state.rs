//! Per-calculation buff-family state and the stacking resolvers.
//!
//! `CategoryState` remembers, for each mutually-exclusive buff family, the
//! highest multiplier granted so far in the current calculation. A resolver
//! turns a *desired* multiplier into the *incremental* factor still owed:
//! when an earlier, stronger grant already covers the request, the factor is
//! exactly 1.0 and the state is untouched; otherwise the state ratchets up to
//! the desired value and the factor is the exact ratio `desired / current`.
//! Returning the incremental ratio makes the outer composer's running product
//! order-safe: however the same-family requests are interleaved, the factors
//! multiply out to the strongest request and nothing more.
use vstd::prelude::*;

use crate::ids::BuffFamily;
use crate::scale::Scale;

verus! {

broadcast use vstd::seq_lib::group_to_multiset_ensures;

/// The highest multiplier (in thousandths) granted so far per buff family,
/// plus the radiance marker that one computation leaves for its companions.
/// Created fresh per calculation, ratcheted upward during it, then discarded.
#[derive(Clone, Copy, Debug, PartialEq, Eq, Structural)]
pub struct CategoryState {
    pub empowering: u32,
    pub surge: u32,
    pub debuff: u32,
    pub radiant: bool,
}

impl CategoryState {
    /// The state at the start of a calculation: every family at 1.0.
    pub open spec fn initial() -> CategoryState {
        CategoryState { empowering: 1000, surge: 1000, debuff: 1000, radiant: false }
    }

    /// Family multipliers only ever ratchet from 1.0 up to the strongest
    /// multiplier any registered computation can request.
    pub open spec fn wf(self) -> bool {
        &&& 1000 <= self.empowering <= 1500
        &&& 1000 <= self.surge <= 1500
        &&& 1000 <= self.debuff <= 1500
    }

    pub fn new() -> (r: CategoryState)
        ensures
            r == CategoryState::initial(),
    {
        CategoryState { empowering: 1000, surge: 1000, debuff: 1000, radiant: false }
    }
}

/// The multiplier a family currently stands at.
pub open spec fn family_cur(st: CategoryState, family: BuffFamily) -> u32 {
    match family {
        BuffFamily::Empowering => st.empowering,
        BuffFamily::Surge => st.surge,
        BuffFamily::Debuff => st.debuff,
    }
}

/// `st` with one family's multiplier replaced.
pub open spec fn with_family(st: CategoryState, family: BuffFamily, v: u32) -> CategoryState {
    match family {
        BuffFamily::Empowering => CategoryState { empowering: v, ..st },
        BuffFamily::Surge => CategoryState { surge: v, ..st },
        BuffFamily::Debuff => CategoryState { debuff: v, ..st },
    }
}

/// The incremental factor still owed when `desired` is requested against a
/// family standing at `cur`: 1.0 if subsumed, else exactly `desired / cur`.
pub open spec fn ratchet_factor(cur: u32, desired: u32) -> Scale {
    if cur >= desired {
        Scale { num: 1000, den: 1000 }
    } else {
        Scale { num: desired as u128, den: cur as u128 }
    }
}

/// The family multiplier after the request: it never decreases.
pub open spec fn ratchet_next(cur: u32, desired: u32) -> u32 {
    if cur >= desired {
        cur
    } else {
        desired
    }
}

/// One ratchet-to-desired step against one family.
pub open spec fn spec_ratchet(st: CategoryState, family: BuffFamily, desired: u32) -> (
    Scale,
    CategoryState,
) {
    (
        ratchet_factor(family_cur(st, family), desired),
        with_family(st, family, ratchet_next(family_cur(st, family), desired)),
    )
}

/// Ratchet-to-desired against one family. Returns the incremental factor and
/// updates only that family's entry.
pub fn ratchet(state: &mut CategoryState, family: BuffFamily, desired: u32) -> (r: Scale)
    ensures
        (r, *final(state)) == spec_ratchet(*old(state), family, desired),
        family_cur(*final(state), family) >= family_cur(*old(state), family),
{
    let cur: u32 = match family {
        BuffFamily::Empowering => state.empowering,
        BuffFamily::Surge => state.surge,
        BuffFamily::Debuff => state.debuff,
    };
    if cur >= desired {
        Scale { num: 1000, den: 1000 }
    } else {
        match family {
            BuffFamily::Empowering => state.empowering = desired,
            BuffFamily::Surge => state.surge = desired,
            BuffFamily::Debuff => state.debuff = desired,
        }
        Scale { num: desired as u128, den: cur as u128 }
    }
}

/// Empowering-style buffs ratchet against the empowering family.
pub open spec fn spec_emp_buff(st: CategoryState, desired: u32) -> (Scale, CategoryState) {
    spec_ratchet(st, BuffFamily::Empowering, desired)
}

pub fn emp_buff(state: &mut CategoryState, desired: u32) -> (r: Scale)
    ensures
        (r, *final(state)) == spec_emp_buff(*old(state), desired),
{
    ratchet(state, BuffFamily::Empowering, desired)
}

/// The surge table: tier 0 is always 1.0; tiers above the highest defined
/// tier saturate to that tier's value; the crucible (PvP) column is capped
/// far below the PvE column.
pub open spec fn surge_desired(pvp: bool, tier: u32) -> u32 {
    if tier == 0 {
        1000
    } else if pvp {
        if tier == 1 {
            1030
        } else if tier == 2 {
            1045
        } else if tier == 3 {
            1055
        } else {
            1060
        }
    } else {
        if tier == 1 {
            1100
        } else if tier == 2 {
            1170
        } else if tier == 3 {
            1220
        } else {
            1250
        }
    }
}

#[verifier::when_used_as_spec(surge_desired)]
pub fn surge_multiplier(pvp: bool, tier: u32) -> (r: u32)
    ensures
        r == surge_desired(pvp, tier),
{
    if tier == 0 {
        1000
    } else if pvp {
        if tier == 1 {
            1030
        } else if tier == 2 {
            1045
        } else if tier == 3 {
            1055
        } else {
            1060
        }
    } else {
        if tier == 1 {
            1100
        } else if tier == 2 {
            1170
        } else if tier == 3 {
            1220
        } else {
            1250
        }
    }
}

/// The surge table's fixed anchors: tier 4 is 1.25 in PvE and 1.060 in PvP,
/// and every tier above the table's highest defined tier saturates to the
/// tier-4 value instead of erring.
pub proof fn lemma_surge_table(pvp: bool, tier: u32)
    ensures
        surge_desired(false, 4) == 1250,
        surge_desired(true, 4) == 1060,
        tier >= 4 ==> surge_desired(pvp, tier) == surge_desired(pvp, 4),
        surge_desired(pvp, 0) == 1000,
{
}

/// Tiered-surge buffs map (pvp, tier) through the table, then ratchet
/// against the surge family.
pub open spec fn spec_surge_buff(st: CategoryState, tier: u32, pvp: bool) -> (
    Scale,
    CategoryState,
) {
    spec_ratchet(st, BuffFamily::Surge, surge_desired(pvp, tier))
}

pub fn surge_buff(state: &mut CategoryState, value: u32, pvp: bool) -> (r: Scale)
    ensures
        (r, *final(state)) == spec_surge_buff(*old(state), value, pvp),
{
    let desired = surge_multiplier(pvp, value);
    ratchet(state, BuffFamily::Surge, desired)
}

/// Global debuffs ratchet against their own family so that buffs and debuffs
/// never suppress each other.
pub open spec fn spec_gbl_debuff(st: CategoryState, desired: u32) -> (Scale, CategoryState) {
    spec_ratchet(st, BuffFamily::Debuff, desired)
}

pub fn gbl_debuff(state: &mut CategoryState, desired: u32) -> (r: Scale)
    ensures
        (r, *final(state)) == spec_gbl_debuff(*old(state), desired),
{
    ratchet(state, BuffFamily::Debuff, desired)
}

/// Issuing the same desired multiplier twice returns the real incremental
/// ratio on the first call and exactly 1.0 on the second: after the first
/// request the family stands at least at `desired`, so the repeat is
/// subsumed.
pub proof fn lemma_ratchet_idempotent(cur: u32, desired: u32)
    ensures
        cur < desired ==> ratchet_factor(cur, desired) == (Scale {
            num: desired as u128,
            den: cur as u128,
        }),
        cur >= desired ==> ratchet_factor(cur, desired) == (Scale { num: 1000, den: 1000 }),
        ratchet_factor(ratchet_next(cur, desired), desired) == (Scale { num: 1000, den: 1000 }),
{
}

/// A surge grant and a debuff grant issued in the same calculation compose by
/// straight multiplication: each family's ratchet reads and writes only its
/// own entry, so either grant returns the same factor whether it is issued
/// before or after the other, and the final state is the same in both orders.
pub proof fn lemma_cross_family_independence(
    st: CategoryState,
    tier: u32,
    pvp: bool,
    desired: u32,
)
    ensures
        spec_gbl_debuff(spec_surge_buff(st, tier, pvp).1, desired).0 == spec_gbl_debuff(
            st,
            desired,
        ).0,
        spec_surge_buff(spec_gbl_debuff(st, desired).1, tier, pvp).0 == spec_surge_buff(
            st,
            tier,
            pvp,
        ).0,
        spec_gbl_debuff(spec_surge_buff(st, tier, pvp).1, desired).1 == spec_surge_buff(
            spec_gbl_debuff(st, desired).1,
            tier,
            pvp,
        ).1,
{
}

/// The strongest multiplier in a run of requests, floored at the fresh value
/// 1.0 (in thousandths).
pub open spec fn chain_max(ds: Seq<u32>) -> u32
    decreases ds.len(),
{
    if ds.len() == 0 {
        1000
    } else {
        let m = chain_max(ds.drop_last());
        if ds.last() > m {
            ds.last()
        } else {
            m
        }
    }
}

/// One family's ratchet run over a whole calculation, starting fresh at 1.0:
/// the exact product of the returned incremental factors (as numerator and
/// denominator) and the family's final stored multiplier.
pub open spec fn ratchet_run(ds: Seq<u32>) -> (int, int, u32)
    decreases ds.len(),
{
    if ds.len() == 0 {
        (1, 1, 1000)
    } else {
        let prev = ratchet_run(ds.drop_last());
        let f = ratchet_factor(prev.2, ds.last());
        (prev.0 * f.num as int, prev.1 * f.den as int, ratchet_next(prev.2, ds.last()))
    }
}

pub proof fn lemma_chain_max_bounds(ds: Seq<u32>)
    ensures
        chain_max(ds) >= 1000,
        forall|i: int| 0 <= i < ds.len() ==> ds[i] <= chain_max(ds),
        chain_max(ds) == 1000 || exists|i: int| 0 <= i < ds.len() && ds[i] == chain_max(ds),
    decreases ds.len(),
{
    if ds.len() > 0 {
        lemma_chain_max_bounds(ds.drop_last());
        assert(forall|i: int| 0 <= i < ds.len() - 1 ==> ds[i] == ds.drop_last()[i]);
        if chain_max(ds) != 1000 {
            if ds.last() > chain_max(ds.drop_last()) {
                assert(ds[ds.len() - 1] == chain_max(ds));
            } else {
                let j = choose|j: int|
                    0 <= j < ds.drop_last().len() && ds.drop_last()[j] == chain_max(
                        ds.drop_last(),
                    );
                assert(ds[j] == chain_max(ds));
            }
        }
    }
}

/// For any run of desired multipliers against one family, the product of the
/// returned incremental factors is exactly `max(requests) / 1.0`, and the
/// family finishes standing at that maximum. Since a maximum does not depend
/// on the order of the requests, neither does the product: stacking is
/// order-invariant within a family.
pub proof fn lemma_ratchet_telescopes(ds: Seq<u32>)
    ensures
        ratchet_run(ds).2 == chain_max(ds),
        ratchet_run(ds).1 >= 1,
        ratchet_run(ds).0 * 1000 == ratchet_run(ds).1 * chain_max(ds),
    decreases ds.len(),
{
    lemma_chain_max_bounds(ds);
    if ds.len() > 0 {
        lemma_ratchet_telescopes(ds.drop_last());
        lemma_chain_max_bounds(ds.drop_last());
        let prev = ratchet_run(ds.drop_last());
        let n = prev.0;
        let d = prev.1;
        let c = prev.2;
        let last = ds.last();
        if c >= last {
            assert(ratchet_run(ds).0 == n * 1000);
            assert(ratchet_run(ds).1 == d * 1000);
            assert(chain_max(ds) == c);
            assert(n * 1000 * 1000 == d * 1000 * c) by (nonlinear_arith)
                requires
                    n * 1000 == d * c,
            ;
            assert(d * 1000 >= 1) by (nonlinear_arith)
                requires
                    d >= 1,
            ;
        } else {
            assert(ratchet_run(ds).0 == n * (last as int));
            assert(ratchet_run(ds).1 == d * (c as int));
            assert(chain_max(ds) == last);
            assert(n * (last as int) * 1000 == d * (c as int) * (last as int)) by (nonlinear_arith)
                requires
                    n * 1000 == d * c,
            ;
            assert(d * (c as int) >= 1) by (nonlinear_arith)
                requires
                    d >= 1,
                    c >= 1000,
            ;
        }
    }
}

/// Two runs over the same multiset of requests, in any two orders, have the
/// same maximum.
pub proof fn lemma_chain_max_permutation(ds1: Seq<u32>, ds2: Seq<u32>)
    requires
        ds1.to_multiset() == ds2.to_multiset(),
    ensures
        chain_max(ds1) == chain_max(ds2),
{
    lemma_chain_max_bounds(ds1);
    lemma_chain_max_bounds(ds2);
    ds1.to_multiset_ensures();
    ds2.to_multiset_ensures();
    if chain_max(ds1) > chain_max(ds2) {
        assert(chain_max(ds1) != 1000);
        let i = choose|i: int| 0 <= i < ds1.len() && ds1[i] == chain_max(ds1);
        assert(ds1.contains(chain_max(ds1)));
        assert(ds1.to_multiset().count(chain_max(ds1)) > 0);
        assert(ds2.to_multiset().count(chain_max(ds1)) > 0);
        assert(ds2.contains(chain_max(ds1)));
        let j = choose|j: int| 0 <= j < ds2.len() && ds2[j] == chain_max(ds1);
        assert(ds2[j] <= chain_max(ds2));
        assert(false);
    }
    if chain_max(ds2) > chain_max(ds1) {
        assert(chain_max(ds2) != 1000);
        let i = choose|i: int| 0 <= i < ds2.len() && ds2[i] == chain_max(ds2);
        assert(ds2.contains(chain_max(ds2)));
        assert(ds2.to_multiset().count(chain_max(ds2)) > 0);
        assert(ds1.to_multiset().count(chain_max(ds2)) > 0);
        assert(ds1.contains(chain_max(ds2)));
        let j = choose|j: int| 0 <= j < ds1.len() && ds1[j] == chain_max(ds2);
        assert(ds1[j] <= chain_max(ds1));
        assert(false);
    }
}

/// Ratchet order-invariance within a family: for any two orders of the same
/// requests, the products of the returned incremental factors are equal as
/// exact rationals (they cross-multiply equal), both being `max / 1.0`.
pub proof fn lemma_ratchet_order_invariance(ds1: Seq<u32>, ds2: Seq<u32>)
    requires
        ds1.to_multiset() == ds2.to_multiset(),
    ensures
        ratchet_run(ds1).0 * ratchet_run(ds2).1 == ratchet_run(ds2).0 * ratchet_run(ds1).1,
{
    lemma_ratchet_telescopes(ds1);
    lemma_ratchet_telescopes(ds2);
    lemma_chain_max_permutation(ds1, ds2);
    lemma_chain_max_bounds(ds1);
    let n1 = ratchet_run(ds1).0;
    let d1 = ratchet_run(ds1).1;
    let n2 = ratchet_run(ds2).0;
    let d2 = ratchet_run(ds2).1;
    let m = chain_max(ds1) as int;
    assert(n1 * d2 == n2 * d1) by (nonlinear_arith)
        requires
            n1 * 1000 == d1 * m,
            n2 * 1000 == d2 * m,
            d1 >= 1,
            d2 >= 1,
            m >= 1000,
    ;
}

} // verus!
