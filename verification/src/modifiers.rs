//! Per-category modifier values.
//!
//! Each outcome category has one small value type. The same type serves both
//! as a single computation's response and as the composer's aggregate:
//! multiplicative fields hold exact rational factors, additive fields hold
//! integer deltas, stat bumps hold a bag of per-stat deltas whose meaning is
//! the per-stat sum, and the override categories hold a first-non-default
//! record.
use vstd::prelude::*;

use crate::ids::StatId;
use crate::scale::{spec_one, wf_unit, Scale};

verus! {

/// Damage scaling: a pair of multiplicative factors, composed by exact
/// multiplication across perks.
#[derive(Clone, Copy, Debug, PartialEq, Eq, Structural)]
pub struct DamageMod {
    pub impact: Scale,
    pub explosive: Scale,
}

impl DamageMod {
    pub open spec fn identity() -> DamageMod {
        DamageMod { impact: spec_one(), explosive: spec_one() }
    }

    /// A single computation's damage response keeps both factors near 1.0.
    pub open spec fn wf(self) -> bool {
        wf_unit(self.impact) && wf_unit(self.explosive)
    }

    pub fn new() -> (r: DamageMod)
        ensures
            r == DamageMod::identity(),
    {
        DamageMod { impact: Scale { num: 1, den: 1 }, explosive: Scale { num: 1, den: 1 } }
    }

    /// Both scales buffed by the same factor: the common shape of a basic
    /// damage buff or debuff.
    pub open spec fn spec_basic(f: Scale) -> DamageMod {
        DamageMod { impact: f, explosive: f }
    }

    #[verifier::when_used_as_spec(spec_basic)]
    pub fn basic_dmg_buff(f: Scale) -> (r: DamageMod)
        ensures
            r == DamageMod::spec_basic(f),
    {
        DamageMod { impact: f, explosive: f }
    }
}

/// The per-stat sum of the deltas in a bag: duplicate stat keys accumulate.
pub open spec fn bump_total(s: Seq<(StatId, i32)>, k: StatId) -> int
    decreases s.len(),
{
    if s.len() == 0 {
        0
    } else {
        bump_total(s.drop_last(), k) + if s.last().0 == k {
            s.last().1 as int
        } else {
            0int
        }
    }
}

/// Every delta in the bag is small.
pub open spec fn bumps_bounded(s: Seq<(StatId, i32)>) -> bool {
    forall|i: int| 0 <= i < s.len() ==> -1000 <= #[trigger] s[i].1 <= 1000
}

/// Stat bumps: a mapping from stat identifier to an additive delta, held as
/// a bag of per-perk deltas; duplicate keys accumulate by summation.
#[derive(Debug, PartialEq, Eq)]
pub struct StatMods {
    pub deltas: Vec<(StatId, i32)>,
}

impl StatMods {
    /// The aggregate of one whole calculation stays small: at most a handful
    /// of entries per perk, each delta within three digits.
    pub open spec fn wf(self) -> bool {
        self.deltas@.len() <= 64 && bumps_bounded(self.deltas@)
    }

    pub fn new() -> (r: StatMods)
        ensures
            r.deltas@ == Seq::<(StatId, i32)>::empty(),
            r.wf(),
    {
        StatMods { deltas: Vec::new() }
    }

    /// The aggregated delta for one stat.
    pub fn total(&self, k: StatId) -> (r: i32)
        requires
            self.wf(),
        ensures
            r == bump_total(self.deltas@, k),
    {
        let mut acc: i32 = 0;
        let mut i: usize = 0;
        proof {
            assert(self.deltas@.take(0) =~= Seq::<(StatId, i32)>::empty());
        }
        while i < self.deltas.len()
            invariant
                0 <= i <= self.deltas@.len() <= 64,
                bumps_bounded(self.deltas@),
                acc == bump_total(self.deltas@.take(i as int), k),
                -1000 * i <= acc <= 1000 * i,
            decreases self.deltas@.len() - i,
        {
            proof {
                assert(self.deltas@.take(i as int + 1).drop_last() =~= self.deltas@.take(i as int));
                assert(self.deltas@.take(i as int + 1).last() == self.deltas@[i as int]);
            }
            let (key, v) = self.deltas[i];
            if key == k {
                acc = acc + v;
            }
            i = i + 1;
        }
        proof {
            assert(self.deltas@.take(self.deltas@.len() as int) =~= self.deltas@);
        }
        acc
    }
}

/// Appends every delta of `src` to `dst`: the per-stat sums add up.
pub fn push_bumps(dst: &mut Vec<(StatId, i32)>, src: &Vec<(StatId, i32)>)
    ensures
        final(dst)@ == old(dst)@ + src@,
{
    let mut i: usize = 0;
    proof {
        assert(old(dst)@ + src@.take(0) =~= old(dst)@);
    }
    while i < src.len()
        invariant
            0 <= i <= src@.len(),
            dst@ == old(dst)@ + src@.take(i as int),
        decreases src@.len() - i,
    {
        proof {
            assert((old(dst)@ + src@.take(i as int)).push(src@[i as int]) =~= old(dst)@
                + src@.take(i as int + 1));
        }
        dst.push(src[i]);
        i = i + 1;
    }
    proof {
        assert(old(dst)@ + src@.take(src@.len() as int) =~= old(dst)@ + src@);
    }
}

/// Handling: additive stat deltas and multiplicative time factors, each field
/// composed independently.
#[derive(Clone, Copy, Debug, PartialEq, Eq, Structural)]
pub struct HandlingMod {
    pub stat_add: i32,
    pub draw_add: i32,
    pub stow_add: i32,
    pub ads_scale: Scale,
    pub draw_scale: Scale,
    pub stow_scale: Scale,
}

impl HandlingMod {
    pub open spec fn identity() -> HandlingMod {
        HandlingMod {
            stat_add: 0,
            draw_add: 0,
            stow_add: 0,
            ads_scale: spec_one(),
            draw_scale: spec_one(),
            stow_scale: spec_one(),
        }
    }

    pub open spec fn wf(self) -> bool {
        &&& -1000 <= self.stat_add <= 1000
        &&& -1000 <= self.draw_add <= 1000
        &&& -1000 <= self.stow_add <= 1000
        &&& wf_unit(self.ads_scale)
        &&& wf_unit(self.draw_scale)
        &&& wf_unit(self.stow_scale)
    }

    pub fn new() -> (r: HandlingMod)
        ensures
            r == HandlingMod::identity(),
    {
        HandlingMod {
            stat_add: 0,
            draw_add: 0,
            stow_add: 0,
            ads_scale: Scale { num: 1, den: 1 },
            draw_scale: Scale { num: 1, den: 1 },
            stow_scale: Scale { num: 1, den: 1 },
        }
    }
}

/// Reload: an additive reload-stat delta and a multiplicative reload-time
/// factor.
#[derive(Clone, Copy, Debug, PartialEq, Eq, Structural)]
pub struct ReloadMod {
    pub reload_stat_add: i32,
    pub reload_time_scale: Scale,
}

impl ReloadMod {
    pub open spec fn identity() -> ReloadMod {
        ReloadMod { reload_stat_add: 0, reload_time_scale: spec_one() }
    }

    pub open spec fn wf(self) -> bool {
        -1000 <= self.reload_stat_add <= 1000 && wf_unit(self.reload_time_scale)
    }

    pub fn new() -> (r: ReloadMod)
        ensures
            r == ReloadMod::identity(),
    {
        ReloadMod { reload_stat_add: 0, reload_time_scale: Scale { num: 1, den: 1 } }
    }
}

/// Range: an additive range-stat delta and multiplicative range factors.
#[derive(Clone, Copy, Debug, PartialEq, Eq, Structural)]
pub struct RangeMod {
    pub range_stat_add: i32,
    pub range_all_scale: Scale,
    pub range_hip_scale: Scale,
    pub range_zoom_scale: Scale,
}

impl RangeMod {
    pub open spec fn identity() -> RangeMod {
        RangeMod {
            range_stat_add: 0,
            range_all_scale: spec_one(),
            range_hip_scale: spec_one(),
            range_zoom_scale: spec_one(),
        }
    }

    pub open spec fn wf(self) -> bool {
        &&& -1000 <= self.range_stat_add <= 1000
        &&& wf_unit(self.range_all_scale)
        &&& wf_unit(self.range_hip_scale)
        &&& wf_unit(self.range_zoom_scale)
    }

    pub fn new() -> (r: RangeMod)
        ensures
            r == RangeMod::identity(),
    {
        RangeMod {
            range_stat_add: 0,
            range_all_scale: Scale { num: 1, den: 1 },
            range_hip_scale: Scale { num: 1, den: 1 },
            range_zoom_scale: Scale { num: 1, den: 1 },
        }
    }
}

/// Firing cadence: additive burst deltas (in thousandths of a second or in
/// shots) and multiplicative delay factors.
#[derive(Clone, Copy, Debug, PartialEq, Eq, Structural)]
pub struct FiringMod {
    pub burst_delay_add: i32,
    pub burst_size_add: i32,
    pub burst_delay_scale: Scale,
    pub inner_burst_scale: Scale,
}

impl FiringMod {
    pub open spec fn identity() -> FiringMod {
        FiringMod {
            burst_delay_add: 0,
            burst_size_add: 0,
            burst_delay_scale: spec_one(),
            inner_burst_scale: spec_one(),
        }
    }

    pub open spec fn wf(self) -> bool {
        &&& -1000 <= self.burst_delay_add <= 1000
        &&& -1000 <= self.burst_size_add <= 1000
        &&& wf_unit(self.burst_delay_scale)
        &&& wf_unit(self.inner_burst_scale)
    }

    pub fn new() -> (r: FiringMod)
        ensures
            r == FiringMod::identity(),
    {
        FiringMod {
            burst_delay_add: 0,
            burst_size_add: 0,
            burst_delay_scale: Scale { num: 1, den: 1 },
            inner_burst_scale: Scale { num: 1, den: 1 },
        }
    }
}

/// Flinch resistance: one multiplicative factor.
#[derive(Clone, Copy, Debug, PartialEq, Eq, Structural)]
pub struct FlinchMod {
    pub flinch_scale: Scale,
}

impl FlinchMod {
    pub open spec fn identity() -> FlinchMod {
        FlinchMod { flinch_scale: spec_one() }
    }

    pub open spec fn wf(self) -> bool {
        wf_unit(self.flinch_scale)
    }

    pub fn new() -> (r: FlinchMod)
        ensures
            r == FlinchMod::identity(),
    {
        FlinchMod { flinch_scale: Scale { num: 1, den: 1 } }
    }
}

/// Extra-damage override: at most one perk per calculation meaningfully sets
/// it, so the composer keeps the first non-default record.
#[derive(Clone, Copy, Debug, PartialEq, Eq, Structural)]
pub struct ExtraDamageMod {
    /// Additional damage in thousandths of the base hit.
    pub additive_damage: u32,
    pub times_to_hit: u32,
}

impl ExtraDamageMod {
    pub open spec fn identity() -> ExtraDamageMod {
        ExtraDamageMod { additive_damage: 0, times_to_hit: 0 }
    }

    pub fn new() -> (r: ExtraDamageMod)
        ensures
            r == ExtraDamageMod::identity(),
    {
        ExtraDamageMod { additive_damage: 0, times_to_hit: 0 }
    }
}

/// Ammo-refund override; first non-default record wins.
#[derive(Clone, Copy, Debug, PartialEq, Eq, Structural)]
pub struct RefundMod {
    pub crit: bool,
    pub requirement: u32,
    pub refund_mag: u32,
    pub refund_reserves: u32,
}

impl RefundMod {
    pub open spec fn identity() -> RefundMod {
        RefundMod { crit: false, requirement: 0, refund_mag: 0, refund_reserves: 0 }
    }

    pub fn new() -> (r: RefundMod)
        ensures
            r == RefundMod::identity(),
    {
        RefundMod { crit: false, requirement: 0, refund_mag: 0, refund_reserves: 0 }
    }
}

/// Reload-override record; first non-default record wins.
#[derive(Clone, Copy, Debug, PartialEq, Eq, Structural)]
pub struct ReloadOverrideMod {
    pub valid: bool,
    /// Overridden reload time in thousandths of a second.
    pub reload_time: u32,
    pub count_as_reload: bool,
}

impl ReloadOverrideMod {
    pub open spec fn identity() -> ReloadOverrideMod {
        ReloadOverrideMod { valid: false, reload_time: 0, count_as_reload: false }
    }

    pub fn new() -> (r: ReloadOverrideMod)
        ensures
            r == ReloadOverrideMod::identity(),
    {
        ReloadOverrideMod { valid: false, reload_time: 0, count_as_reload: false }
    }
}

} // verus!
