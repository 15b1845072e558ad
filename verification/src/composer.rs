//! The modifier composer.
//!
//! For each outcome category the composer walks the calculation's active
//! perks in insertion order, invokes each registered computation once, and
//! folds the responses with the category's composition rule: scale factors
//! multiply exactly, additive deltas sum, stat bumps accumulate per stat, and
//! the override categories keep the first non-default record. One
//! `CategoryState`, fresh at the start, is threaded through the whole
//! calculation and discarded at the end.
use vstd::prelude::*;

use crate::context::Context;
use crate::damage::{lemma_damage_formula_wf, damage_formula, spec_damage_formula};
use crate::ids::{OutcomeCategory, PerkId, StatId};
use crate::modifiers::{
    bumps_bounded, push_bumps, DamageMod, ExtraDamageMod, FiringMod, FlinchMod, HandlingMod,
    RangeMod, RefundMod, ReloadMod, ReloadOverrideMod, StatMods,
};
use crate::registry::Registry;
use crate::scale::{lemma_unit_pow_mono, mul_unit, unit_pow};
use crate::state::CategoryState;
use crate::stats::{lemma_stat_formula_wf, spec_stat_formula, stat_formula};
use crate::support::{
    extra_damage_formula, firing_formula, flinch_formula, handling_formula, range_formula,
    refund_formula, reload_formula, reload_override_formula, spec_extra_damage_formula,
    spec_firing_formula, spec_flinch_formula, spec_handling_formula, spec_range_formula,
    spec_refund_formula, spec_reload_formula, spec_reload_override_formula,
};

verus! {

/// Rank 0 is semantically inert for every registered computation: it yields
/// the identity element of its category and leaves the family state
/// untouched, whatever the context.
pub proof fn lemma_rank_zero_inert(p: PerkId, ctx: Context, st: CategoryState)
    ensures
        spec_damage_formula(p, 0, ctx, st) == (DamageMod::identity(), st),
        spec_stat_formula(p, 0, ctx) == Seq::<(StatId, i32)>::empty(),
        spec_handling_formula(p, 0, ctx) == HandlingMod::identity(),
        spec_reload_formula(p, 0, ctx) == ReloadMod::identity(),
        spec_range_formula(p, 0, ctx) == RangeMod::identity(),
        spec_firing_formula(p, 0, ctx) == FiringMod::identity(),
        spec_flinch_formula(p, 0, ctx) == FlinchMod::identity(),
        spec_extra_damage_formula(p, 0, ctx) == ExtraDamageMod::identity(),
        spec_refund_formula(p, 0, ctx) == RefundMod::identity(),
        spec_reload_override_formula(p, 0, ctx) == ReloadOverrideMod::identity(),
{
}

/// The exact running damage products of one calculation, as mathematical
/// integers.
pub struct DamageTotals {
    pub impact_num: int,
    pub impact_den: int,
    pub explosive_num: int,
    pub explosive_den: int,
}

/// The damage pass over a prefix of the active-perk list: each active perk
/// with a registered damage computation multiplies its factors into the
/// running products and may ratchet the family state forward.
pub open spec fn damage_pass(
    reg: Registry,
    ctx: Context,
    perks: Seq<(PerkId, u32)>,
    st0: CategoryState,
) -> (DamageTotals, CategoryState)
    decreases perks.len(),
{
    if perks.len() == 0 {
        (DamageTotals { impact_num: 1, impact_den: 1, explosive_num: 1, explosive_den: 1 }, st0)
    } else {
        let prev = damage_pass(reg, ctx, perks.drop_last(), st0);
        let pr = perks.last();
        if pr.1 > 0 && reg.registered(pr.0, OutcomeCategory::DamageScale) {
            let fm = spec_damage_formula(pr.0, pr.1, ctx, prev.1);
            (
                DamageTotals {
                    impact_num: prev.0.impact_num * fm.0.impact.num as int,
                    impact_den: prev.0.impact_den * fm.0.impact.den as int,
                    explosive_num: prev.0.explosive_num * fm.0.explosive.num as int,
                    explosive_den: prev.0.explosive_den * fm.0.explosive.den as int,
                },
                fm.1,
            )
        } else {
            prev
        }
    }
}

/// Folds the damage-scale responses of every active perk, in insertion
/// order, into one exact pair of products; ratchets the family state as it
/// goes.
pub fn damage_total(reg: &Registry, ctx: &Context, state: &mut CategoryState) -> (r: DamageMod)
    requires
        ctx.perks@.len() <= 10,
        old(state).wf(),
    ensures
        ({
            let pass = damage_pass(*reg, *ctx, ctx.perks@, *old(state));
            &&& r.impact.num == pass.0.impact_num
            &&& r.impact.den == pass.0.impact_den
            &&& r.explosive.num == pass.0.explosive_num
            &&& r.explosive.den == pass.0.explosive_den
            &&& *final(state) == pass.1
            &&& final(state).wf()
        }),
{
    let ghost st0 = *state;
    let mut acc = DamageMod::new();
    let mut i: usize = 0;
    proof {
        assert(ctx.perks@.take(0) =~= Seq::<(PerkId, u32)>::empty());
    }
    while i < ctx.perks.len()
        invariant
            0 <= i <= ctx.perks@.len() <= 10,
            state.wf(),
            ({
                let pass = damage_pass(*reg, *ctx, ctx.perks@.take(i as int), st0);
                &&& acc.impact.num == pass.0.impact_num
                &&& acc.impact.den == pass.0.impact_den
                &&& acc.explosive.num == pass.0.explosive_num
                &&& acc.explosive.den == pass.0.explosive_den
                &&& *state == pass.1
            }),
            acc.impact.num <= unit_pow(i as nat),
            acc.impact.den <= unit_pow(i as nat),
            acc.explosive.num <= unit_pow(i as nat),
            acc.explosive.den <= unit_pow(i as nat),
        decreases ctx.perks@.len() - i,
    {
        proof {
            assert(ctx.perks@.take(i as int + 1).drop_last() =~= ctx.perks@.take(i as int));
            assert(ctx.perks@.take(i as int + 1).last() == ctx.perks@[i as int]);
        }
        let (p, rank) = ctx.perks[i];
        if rank > 0 {
            match reg.lookup(p, OutcomeCategory::DamageScale) {
                Some(comp) => {
                    proof {
                        lemma_damage_formula_wf(p, rank, *ctx, *state);
                    }
                    let m = damage_formula(comp.perk, rank, ctx, state);
                    acc = DamageMod {
                        impact: mul_unit(acc.impact, m.impact, Ghost(i as nat)),
                        explosive: mul_unit(acc.explosive, m.explosive, Ghost(i as nat)),
                    };
                },
                None => {},
            }
        }
        proof {
            lemma_unit_pow_mono(i as nat, (i + 1) as nat);
        }
        i = i + 1;
    }
    proof {
        assert(ctx.perks@.take(ctx.perks@.len() as int) =~= ctx.perks@);
    }
    acc
}

/// The stat-bump pass over a prefix of the active-perk list: the
/// concatenation, in insertion order, of every registered computation's
/// delta list; its meaning is the per-stat sum.
pub open spec fn stat_pass(reg: Registry, ctx: Context, perks: Seq<(PerkId, u32)>) -> Seq<
    (StatId, i32),
>
    decreases perks.len(),
{
    if perks.len() == 0 {
        Seq::<(StatId, i32)>::empty()
    } else {
        let prev = stat_pass(reg, ctx, perks.drop_last());
        let pr = perks.last();
        if pr.1 > 0 && reg.registered(pr.0, OutcomeCategory::StatBump) {
            prev + spec_stat_formula(pr.0, pr.1, ctx)
        } else {
            prev
        }
    }
}

/// Accumulates the stat bumps of every active perk; duplicate stat keys
/// accumulate by summation.
pub fn stats_total(reg: &Registry, ctx: &Context) -> (r: StatMods)
    requires
        ctx.perks@.len() <= 10,
    ensures
        r.deltas@ == stat_pass(*reg, *ctx, ctx.perks@),
        r.wf(),
{
    let mut deltas: Vec<(StatId, i32)> = Vec::new();
    let mut i: usize = 0;
    proof {
        assert(ctx.perks@.take(0) =~= Seq::<(PerkId, u32)>::empty());
    }
    while i < ctx.perks.len()
        invariant
            0 <= i <= ctx.perks@.len() <= 10,
            deltas@ == stat_pass(*reg, *ctx, ctx.perks@.take(i as int)),
            deltas@.len() <= 4 * i,
            bumps_bounded(deltas@),
        decreases ctx.perks@.len() - i,
    {
        proof {
            assert(ctx.perks@.take(i as int + 1).drop_last() =~= ctx.perks@.take(i as int));
            assert(ctx.perks@.take(i as int + 1).last() == ctx.perks@[i as int]);
        }
        let (p, rank) = ctx.perks[i];
        if rank > 0 {
            match reg.lookup(p, OutcomeCategory::StatBump) {
                Some(comp) => {
                    proof {
                        lemma_stat_formula_wf(p, rank, *ctx);
                    }
                    let ghost before = deltas@;
                    let bumps = stat_formula(comp.perk, rank, ctx);
                    push_bumps(&mut deltas, &bumps);
                    proof {
                        assert forall|j: int|
                            0 <= j < deltas@.len() implies -1000 <= #[trigger] deltas@[j].1
                            <= 1000 by {
                            if j < before.len() {
                                assert(deltas@[j] == before[j]);
                            } else {
                                assert(deltas@[j] == bumps@[j - before.len()]);
                            }
                        }
                    }
                },
                None => {},
            }
        }
        i = i + 1;
    }
    proof {
        assert(ctx.perks@.take(ctx.perks@.len() as int) =~= ctx.perks@);
    }
    StatMods { deltas }
}

/// The exact running handling totals of one calculation.
pub struct HandlingTotals {
    pub stat_add: int,
    pub draw_add: int,
    pub stow_add: int,
    pub ads_num: int,
    pub ads_den: int,
    pub draw_num: int,
    pub draw_den: int,
    pub stow_num: int,
    pub stow_den: int,
}

/// The handling pass over a prefix of the active-perk list: additive fields
/// sum, multiplicative fields multiply.
pub open spec fn handling_pass(reg: Registry, ctx: Context, perks: Seq<(PerkId, u32)>)
    -> HandlingTotals
    decreases perks.len(),
{
    if perks.len() == 0 {
        HandlingTotals {
            stat_add: 0,
            draw_add: 0,
            stow_add: 0,
            ads_num: 1,
            ads_den: 1,
            draw_num: 1,
            draw_den: 1,
            stow_num: 1,
            stow_den: 1,
        }
    } else {
        let prev = handling_pass(reg, ctx, perks.drop_last());
        let pr = perks.last();
        if pr.1 > 0 && reg.registered(pr.0, OutcomeCategory::Handling) {
            let m = spec_handling_formula(pr.0, pr.1, ctx);
            HandlingTotals {
                stat_add: prev.stat_add + m.stat_add as int,
                draw_add: prev.draw_add + m.draw_add as int,
                stow_add: prev.stow_add + m.stow_add as int,
                ads_num: prev.ads_num * m.ads_scale.num as int,
                ads_den: prev.ads_den * m.ads_scale.den as int,
                draw_num: prev.draw_num * m.draw_scale.num as int,
                draw_den: prev.draw_den * m.draw_scale.den as int,
                stow_num: prev.stow_num * m.stow_scale.num as int,
                stow_den: prev.stow_den * m.stow_scale.den as int,
            }
        } else {
            prev
        }
    }
}

/// Folds the handling responses of every active perk: stat deltas sum, the
/// three time factors multiply exactly.
pub fn handling_total(reg: &Registry, ctx: &Context) -> (r: HandlingMod)
    requires
        ctx.perks@.len() <= 10,
    ensures
        ({
            let pass = handling_pass(*reg, *ctx, ctx.perks@);
            &&& r.stat_add == pass.stat_add
            &&& r.draw_add == pass.draw_add
            &&& r.stow_add == pass.stow_add
            &&& r.ads_scale.num == pass.ads_num
            &&& r.ads_scale.den == pass.ads_den
            &&& r.draw_scale.num == pass.draw_num
            &&& r.draw_scale.den == pass.draw_den
            &&& r.stow_scale.num == pass.stow_num
            &&& r.stow_scale.den == pass.stow_den
        }),
{
    let mut acc = HandlingMod::new();
    let mut i: usize = 0;
    proof {
        assert(ctx.perks@.take(0) =~= Seq::<(PerkId, u32)>::empty());
    }
    while i < ctx.perks.len()
        invariant
            0 <= i <= ctx.perks@.len() <= 10,
            ({
                let pass = handling_pass(*reg, *ctx, ctx.perks@.take(i as int));
                &&& acc.stat_add == pass.stat_add
                &&& acc.draw_add == pass.draw_add
                &&& acc.stow_add == pass.stow_add
                &&& acc.ads_scale.num == pass.ads_num
                &&& acc.ads_scale.den == pass.ads_den
                &&& acc.draw_scale.num == pass.draw_num
                &&& acc.draw_scale.den == pass.draw_den
                &&& acc.stow_scale.num == pass.stow_num
                &&& acc.stow_scale.den == pass.stow_den
            }),
            -1000 * i <= acc.stat_add <= 1000 * i,
            -1000 * i <= acc.draw_add <= 1000 * i,
            -1000 * i <= acc.stow_add <= 1000 * i,
            acc.ads_scale.num <= unit_pow(i as nat),
            acc.ads_scale.den <= unit_pow(i as nat),
            acc.draw_scale.num <= unit_pow(i as nat),
            acc.draw_scale.den <= unit_pow(i as nat),
            acc.stow_scale.num <= unit_pow(i as nat),
            acc.stow_scale.den <= unit_pow(i as nat),
        decreases ctx.perks@.len() - i,
    {
        proof {
            assert(ctx.perks@.take(i as int + 1).drop_last() =~= ctx.perks@.take(i as int));
            assert(ctx.perks@.take(i as int + 1).last() == ctx.perks@[i as int]);
        }
        let (p, rank) = ctx.perks[i];
        if rank > 0 {
            match reg.lookup(p, OutcomeCategory::Handling) {
                Some(comp) => {
                    proof {
                        crate::support::lemma_handling_formula_wf(p, rank, *ctx);
                    }
                    let m = handling_formula(comp.perk, rank, ctx);
                    acc = HandlingMod {
                        stat_add: acc.stat_add + m.stat_add,
                        draw_add: acc.draw_add + m.draw_add,
                        stow_add: acc.stow_add + m.stow_add,
                        ads_scale: mul_unit(acc.ads_scale, m.ads_scale, Ghost(i as nat)),
                        draw_scale: mul_unit(acc.draw_scale, m.draw_scale, Ghost(i as nat)),
                        stow_scale: mul_unit(acc.stow_scale, m.stow_scale, Ghost(i as nat)),
                    };
                },
                None => {},
            }
        }
        proof {
            lemma_unit_pow_mono(i as nat, (i + 1) as nat);
        }
        i = i + 1;
    }
    proof {
        assert(ctx.perks@.take(ctx.perks@.len() as int) =~= ctx.perks@);
    }
    acc
}

/// The exact running reload totals of one calculation.
pub struct ReloadTotals {
    pub stat_add: int,
    pub time_num: int,
    pub time_den: int,
}

/// The reload pass over a prefix of the active-perk list.
pub open spec fn reload_pass(reg: Registry, ctx: Context, perks: Seq<(PerkId, u32)>)
    -> ReloadTotals
    decreases perks.len(),
{
    if perks.len() == 0 {
        ReloadTotals { stat_add: 0, time_num: 1, time_den: 1 }
    } else {
        let prev = reload_pass(reg, ctx, perks.drop_last());
        let pr = perks.last();
        if pr.1 > 0 && reg.registered(pr.0, OutcomeCategory::Reload) {
            let m = spec_reload_formula(pr.0, pr.1, ctx);
            ReloadTotals {
                stat_add: prev.stat_add + m.reload_stat_add as int,
                time_num: prev.time_num * m.reload_time_scale.num as int,
                time_den: prev.time_den * m.reload_time_scale.den as int,
            }
        } else {
            prev
        }
    }
}

/// Folds the reload responses of every active perk.
pub fn reload_total(reg: &Registry, ctx: &Context) -> (r: ReloadMod)
    requires
        ctx.perks@.len() <= 10,
    ensures
        ({
            let pass = reload_pass(*reg, *ctx, ctx.perks@);
            &&& r.reload_stat_add == pass.stat_add
            &&& r.reload_time_scale.num == pass.time_num
            &&& r.reload_time_scale.den == pass.time_den
        }),
{
    let mut acc = ReloadMod::new();
    let mut i: usize = 0;
    proof {
        assert(ctx.perks@.take(0) =~= Seq::<(PerkId, u32)>::empty());
    }
    while i < ctx.perks.len()
        invariant
            0 <= i <= ctx.perks@.len() <= 10,
            ({
                let pass = reload_pass(*reg, *ctx, ctx.perks@.take(i as int));
                &&& acc.reload_stat_add == pass.stat_add
                &&& acc.reload_time_scale.num == pass.time_num
                &&& acc.reload_time_scale.den == pass.time_den
            }),
            -1000 * i <= acc.reload_stat_add <= 1000 * i,
            acc.reload_time_scale.num <= unit_pow(i as nat),
            acc.reload_time_scale.den <= unit_pow(i as nat),
        decreases ctx.perks@.len() - i,
    {
        proof {
            assert(ctx.perks@.take(i as int + 1).drop_last() =~= ctx.perks@.take(i as int));
            assert(ctx.perks@.take(i as int + 1).last() == ctx.perks@[i as int]);
        }
        let (p, rank) = ctx.perks[i];
        if rank > 0 {
            match reg.lookup(p, OutcomeCategory::Reload) {
                Some(comp) => {
                    proof {
                        crate::support::lemma_reload_formula_wf(p, rank, *ctx);
                    }
                    let m = reload_formula(comp.perk, rank, ctx);
                    acc = ReloadMod {
                        reload_stat_add: acc.reload_stat_add + m.reload_stat_add,
                        reload_time_scale: mul_unit(
                            acc.reload_time_scale,
                            m.reload_time_scale,
                            Ghost(i as nat),
                        ),
                    };
                },
                None => {},
            }
        }
        proof {
            lemma_unit_pow_mono(i as nat, (i + 1) as nat);
        }
        i = i + 1;
    }
    proof {
        assert(ctx.perks@.take(ctx.perks@.len() as int) =~= ctx.perks@);
    }
    acc
}

/// The exact running range totals of one calculation.
pub struct RangeTotals {
    pub stat_add: int,
    pub all_num: int,
    pub all_den: int,
    pub hip_num: int,
    pub hip_den: int,
    pub zoom_num: int,
    pub zoom_den: int,
}

/// The range pass over a prefix of the active-perk list.
pub open spec fn range_pass(reg: Registry, ctx: Context, perks: Seq<(PerkId, u32)>) -> RangeTotals
    decreases perks.len(),
{
    if perks.len() == 0 {
        RangeTotals {
            stat_add: 0,
            all_num: 1,
            all_den: 1,
            hip_num: 1,
            hip_den: 1,
            zoom_num: 1,
            zoom_den: 1,
        }
    } else {
        let prev = range_pass(reg, ctx, perks.drop_last());
        let pr = perks.last();
        if pr.1 > 0 && reg.registered(pr.0, OutcomeCategory::Range) {
            let m = spec_range_formula(pr.0, pr.1, ctx);
            RangeTotals {
                stat_add: prev.stat_add + m.range_stat_add as int,
                all_num: prev.all_num * m.range_all_scale.num as int,
                all_den: prev.all_den * m.range_all_scale.den as int,
                hip_num: prev.hip_num * m.range_hip_scale.num as int,
                hip_den: prev.hip_den * m.range_hip_scale.den as int,
                zoom_num: prev.zoom_num * m.range_zoom_scale.num as int,
                zoom_den: prev.zoom_den * m.range_zoom_scale.den as int,
            }
        } else {
            prev
        }
    }
}

/// Folds the range responses of every active perk.
pub fn range_total(reg: &Registry, ctx: &Context) -> (r: RangeMod)
    requires
        ctx.perks@.len() <= 10,
    ensures
        ({
            let pass = range_pass(*reg, *ctx, ctx.perks@);
            &&& r.range_stat_add == pass.stat_add
            &&& r.range_all_scale.num == pass.all_num
            &&& r.range_all_scale.den == pass.all_den
            &&& r.range_hip_scale.num == pass.hip_num
            &&& r.range_hip_scale.den == pass.hip_den
            &&& r.range_zoom_scale.num == pass.zoom_num
            &&& r.range_zoom_scale.den == pass.zoom_den
        }),
{
    let mut acc = RangeMod::new();
    let mut i: usize = 0;
    proof {
        assert(ctx.perks@.take(0) =~= Seq::<(PerkId, u32)>::empty());
    }
    while i < ctx.perks.len()
        invariant
            0 <= i <= ctx.perks@.len() <= 10,
            ({
                let pass = range_pass(*reg, *ctx, ctx.perks@.take(i as int));
                &&& acc.range_stat_add == pass.stat_add
                &&& acc.range_all_scale.num == pass.all_num
                &&& acc.range_all_scale.den == pass.all_den
                &&& acc.range_hip_scale.num == pass.hip_num
                &&& acc.range_hip_scale.den == pass.hip_den
                &&& acc.range_zoom_scale.num == pass.zoom_num
                &&& acc.range_zoom_scale.den == pass.zoom_den
            }),
            -1000 * i <= acc.range_stat_add <= 1000 * i,
            acc.range_all_scale.num <= unit_pow(i as nat),
            acc.range_all_scale.den <= unit_pow(i as nat),
            acc.range_hip_scale.num <= unit_pow(i as nat),
            acc.range_hip_scale.den <= unit_pow(i as nat),
            acc.range_zoom_scale.num <= unit_pow(i as nat),
            acc.range_zoom_scale.den <= unit_pow(i as nat),
        decreases ctx.perks@.len() - i,
    {
        proof {
            assert(ctx.perks@.take(i as int + 1).drop_last() =~= ctx.perks@.take(i as int));
            assert(ctx.perks@.take(i as int + 1).last() == ctx.perks@[i as int]);
        }
        let (p, rank) = ctx.perks[i];
        if rank > 0 {
            match reg.lookup(p, OutcomeCategory::Range) {
                Some(comp) => {
                    proof {
                        crate::support::lemma_range_formula_wf(p, rank, *ctx);
                    }
                    let m = range_formula(comp.perk, rank, ctx);
                    acc = RangeMod {
                        range_stat_add: acc.range_stat_add + m.range_stat_add,
                        range_all_scale: mul_unit(
                            acc.range_all_scale,
                            m.range_all_scale,
                            Ghost(i as nat),
                        ),
                        range_hip_scale: mul_unit(
                            acc.range_hip_scale,
                            m.range_hip_scale,
                            Ghost(i as nat),
                        ),
                        range_zoom_scale: mul_unit(
                            acc.range_zoom_scale,
                            m.range_zoom_scale,
                            Ghost(i as nat),
                        ),
                    };
                },
                None => {},
            }
        }
        proof {
            lemma_unit_pow_mono(i as nat, (i + 1) as nat);
        }
        i = i + 1;
    }
    proof {
        assert(ctx.perks@.take(ctx.perks@.len() as int) =~= ctx.perks@);
    }
    acc
}

/// The exact running firing totals of one calculation.
pub struct FiringTotals {
    pub delay_add: int,
    pub size_add: int,
    pub delay_num: int,
    pub delay_den: int,
    pub inner_num: int,
    pub inner_den: int,
}

/// The firing pass over a prefix of the active-perk list.
pub open spec fn firing_pass(reg: Registry, ctx: Context, perks: Seq<(PerkId, u32)>)
    -> FiringTotals
    decreases perks.len(),
{
    if perks.len() == 0 {
        FiringTotals {
            delay_add: 0,
            size_add: 0,
            delay_num: 1,
            delay_den: 1,
            inner_num: 1,
            inner_den: 1,
        }
    } else {
        let prev = firing_pass(reg, ctx, perks.drop_last());
        let pr = perks.last();
        if pr.1 > 0 && reg.registered(pr.0, OutcomeCategory::Firing) {
            let m = spec_firing_formula(pr.0, pr.1, ctx);
            FiringTotals {
                delay_add: prev.delay_add + m.burst_delay_add as int,
                size_add: prev.size_add + m.burst_size_add as int,
                delay_num: prev.delay_num * m.burst_delay_scale.num as int,
                delay_den: prev.delay_den * m.burst_delay_scale.den as int,
                inner_num: prev.inner_num * m.inner_burst_scale.num as int,
                inner_den: prev.inner_den * m.inner_burst_scale.den as int,
            }
        } else {
            prev
        }
    }
}

/// Folds the firing responses of every active perk.
pub fn firing_total(reg: &Registry, ctx: &Context) -> (r: FiringMod)
    requires
        ctx.perks@.len() <= 10,
    ensures
        ({
            let pass = firing_pass(*reg, *ctx, ctx.perks@);
            &&& r.burst_delay_add == pass.delay_add
            &&& r.burst_size_add == pass.size_add
            &&& r.burst_delay_scale.num == pass.delay_num
            &&& r.burst_delay_scale.den == pass.delay_den
            &&& r.inner_burst_scale.num == pass.inner_num
            &&& r.inner_burst_scale.den == pass.inner_den
        }),
{
    let mut acc = FiringMod::new();
    let mut i: usize = 0;
    proof {
        assert(ctx.perks@.take(0) =~= Seq::<(PerkId, u32)>::empty());
    }
    while i < ctx.perks.len()
        invariant
            0 <= i <= ctx.perks@.len() <= 10,
            ({
                let pass = firing_pass(*reg, *ctx, ctx.perks@.take(i as int));
                &&& acc.burst_delay_add == pass.delay_add
                &&& acc.burst_size_add == pass.size_add
                &&& acc.burst_delay_scale.num == pass.delay_num
                &&& acc.burst_delay_scale.den == pass.delay_den
                &&& acc.inner_burst_scale.num == pass.inner_num
                &&& acc.inner_burst_scale.den == pass.inner_den
            }),
            -1000 * i <= acc.burst_delay_add <= 1000 * i,
            -1000 * i <= acc.burst_size_add <= 1000 * i,
            acc.burst_delay_scale.num <= unit_pow(i as nat),
            acc.burst_delay_scale.den <= unit_pow(i as nat),
            acc.inner_burst_scale.num <= unit_pow(i as nat),
            acc.inner_burst_scale.den <= unit_pow(i as nat),
        decreases ctx.perks@.len() - i,
    {
        proof {
            assert(ctx.perks@.take(i as int + 1).drop_last() =~= ctx.perks@.take(i as int));
            assert(ctx.perks@.take(i as int + 1).last() == ctx.perks@[i as int]);
        }
        let (p, rank) = ctx.perks[i];
        if rank > 0 {
            match reg.lookup(p, OutcomeCategory::Firing) {
                Some(comp) => {
                    proof {
                        crate::support::lemma_firing_formula_wf(p, rank, *ctx);
                    }
                    let m = firing_formula(comp.perk, rank, ctx);
                    acc = FiringMod {
                        burst_delay_add: acc.burst_delay_add + m.burst_delay_add,
                        burst_size_add: acc.burst_size_add + m.burst_size_add,
                        burst_delay_scale: mul_unit(
                            acc.burst_delay_scale,
                            m.burst_delay_scale,
                            Ghost(i as nat),
                        ),
                        inner_burst_scale: mul_unit(
                            acc.inner_burst_scale,
                            m.inner_burst_scale,
                            Ghost(i as nat),
                        ),
                    };
                },
                None => {},
            }
        }
        proof {
            lemma_unit_pow_mono(i as nat, (i + 1) as nat);
        }
        i = i + 1;
    }
    proof {
        assert(ctx.perks@.take(ctx.perks@.len() as int) =~= ctx.perks@);
    }
    acc
}

/// The flinch pass over a prefix of the active-perk list: one product.
pub open spec fn flinch_pass(reg: Registry, ctx: Context, perks: Seq<(PerkId, u32)>) -> (int, int)
    decreases perks.len(),
{
    if perks.len() == 0 {
        (1, 1)
    } else {
        let prev = flinch_pass(reg, ctx, perks.drop_last());
        let pr = perks.last();
        if pr.1 > 0 && reg.registered(pr.0, OutcomeCategory::Flinch) {
            let m = spec_flinch_formula(pr.0, pr.1, ctx);
            (prev.0 * m.flinch_scale.num as int, prev.1 * m.flinch_scale.den as int)
        } else {
            prev
        }
    }
}

/// Folds the flinch responses of every active perk into one exact factor.
pub fn flinch_total(reg: &Registry, ctx: &Context) -> (r: FlinchMod)
    requires
        ctx.perks@.len() <= 10,
    ensures
        r.flinch_scale.num == flinch_pass(*reg, *ctx, ctx.perks@).0,
        r.flinch_scale.den == flinch_pass(*reg, *ctx, ctx.perks@).1,
{
    let mut acc = FlinchMod::new();
    let mut i: usize = 0;
    proof {
        assert(ctx.perks@.take(0) =~= Seq::<(PerkId, u32)>::empty());
    }
    while i < ctx.perks.len()
        invariant
            0 <= i <= ctx.perks@.len() <= 10,
            acc.flinch_scale.num == flinch_pass(*reg, *ctx, ctx.perks@.take(i as int)).0,
            acc.flinch_scale.den == flinch_pass(*reg, *ctx, ctx.perks@.take(i as int)).1,
            acc.flinch_scale.num <= unit_pow(i as nat),
            acc.flinch_scale.den <= unit_pow(i as nat),
        decreases ctx.perks@.len() - i,
    {
        proof {
            assert(ctx.perks@.take(i as int + 1).drop_last() =~= ctx.perks@.take(i as int));
            assert(ctx.perks@.take(i as int + 1).last() == ctx.perks@[i as int]);
        }
        let (p, rank) = ctx.perks[i];
        if rank > 0 {
            match reg.lookup(p, OutcomeCategory::Flinch) {
                Some(comp) => {
                    proof {
                        crate::support::lemma_flinch_formula_wf(p, rank, *ctx);
                    }
                    let m = flinch_formula(comp.perk, rank, ctx);
                    acc = FlinchMod {
                        flinch_scale: mul_unit(acc.flinch_scale, m.flinch_scale, Ghost(i as nat)),
                    };
                },
                None => {},
            }
        }
        proof {
            lemma_unit_pow_mono(i as nat, (i + 1) as nat);
        }
        i = i + 1;
    }
    proof {
        assert(ctx.perks@.take(ctx.perks@.len() as int) =~= ctx.perks@);
    }
    acc
}

/// The extra-damage pass: the first non-default record wins, later ones are
/// ignored; the override effects are mutually exclusive by construction.
pub open spec fn extra_damage_pass(reg: Registry, ctx: Context, perks: Seq<(PerkId, u32)>)
    -> ExtraDamageMod
    decreases perks.len(),
{
    if perks.len() == 0 {
        ExtraDamageMod::identity()
    } else {
        let prev = extra_damage_pass(reg, ctx, perks.drop_last());
        if prev != ExtraDamageMod::identity() {
            prev
        } else {
            let pr = perks.last();
            if pr.1 > 0 && reg.registered(pr.0, OutcomeCategory::ExtraDamage) {
                spec_extra_damage_formula(pr.0, pr.1, ctx)
            } else {
                ExtraDamageMod::identity()
            }
        }
    }
}

/// Keeps the first non-default extra-damage record.
pub fn extra_damage_total(reg: &Registry, ctx: &Context) -> (r: ExtraDamageMod)
    ensures
        r == extra_damage_pass(*reg, *ctx, ctx.perks@),
{
    let mut acc = ExtraDamageMod::new();
    let mut i: usize = 0;
    proof {
        assert(ctx.perks@.take(0) =~= Seq::<(PerkId, u32)>::empty());
    }
    while i < ctx.perks.len()
        invariant
            0 <= i <= ctx.perks@.len(),
            acc == extra_damage_pass(*reg, *ctx, ctx.perks@.take(i as int)),
        decreases ctx.perks@.len() - i,
    {
        proof {
            assert(ctx.perks@.take(i as int + 1).drop_last() =~= ctx.perks@.take(i as int));
            assert(ctx.perks@.take(i as int + 1).last() == ctx.perks@[i as int]);
        }
        let (p, rank) = ctx.perks[i];
        let ident = ExtraDamageMod::new();
        if acc == ident && rank > 0 {
            match reg.lookup(p, OutcomeCategory::ExtraDamage) {
                Some(comp) => {
                    acc = extra_damage_formula(comp.perk, rank, ctx);
                },
                None => {},
            }
        }
        i = i + 1;
    }
    proof {
        assert(ctx.perks@.take(ctx.perks@.len() as int) =~= ctx.perks@);
    }
    acc
}

/// The refund pass: the first non-default record wins.
pub open spec fn refund_pass(reg: Registry, ctx: Context, perks: Seq<(PerkId, u32)>) -> RefundMod
    decreases perks.len(),
{
    if perks.len() == 0 {
        RefundMod::identity()
    } else {
        let prev = refund_pass(reg, ctx, perks.drop_last());
        if prev != RefundMod::identity() {
            prev
        } else {
            let pr = perks.last();
            if pr.1 > 0 && reg.registered(pr.0, OutcomeCategory::Refund) {
                spec_refund_formula(pr.0, pr.1, ctx)
            } else {
                RefundMod::identity()
            }
        }
    }
}

/// Keeps the first non-default refund record.
pub fn refund_total(reg: &Registry, ctx: &Context) -> (r: RefundMod)
    ensures
        r == refund_pass(*reg, *ctx, ctx.perks@),
{
    let mut acc = RefundMod::new();
    let mut i: usize = 0;
    proof {
        assert(ctx.perks@.take(0) =~= Seq::<(PerkId, u32)>::empty());
    }
    while i < ctx.perks.len()
        invariant
            0 <= i <= ctx.perks@.len(),
            acc == refund_pass(*reg, *ctx, ctx.perks@.take(i as int)),
        decreases ctx.perks@.len() - i,
    {
        proof {
            assert(ctx.perks@.take(i as int + 1).drop_last() =~= ctx.perks@.take(i as int));
            assert(ctx.perks@.take(i as int + 1).last() == ctx.perks@[i as int]);
        }
        let (p, rank) = ctx.perks[i];
        let ident = RefundMod::new();
        if acc == ident && rank > 0 {
            match reg.lookup(p, OutcomeCategory::Refund) {
                Some(comp) => {
                    acc = refund_formula(comp.perk, rank, ctx);
                },
                None => {},
            }
        }
        i = i + 1;
    }
    proof {
        assert(ctx.perks@.take(ctx.perks@.len() as int) =~= ctx.perks@);
    }
    acc
}

/// The reload-override pass: the first non-default record wins.
pub open spec fn reload_override_pass(reg: Registry, ctx: Context, perks: Seq<(PerkId, u32)>)
    -> ReloadOverrideMod
    decreases perks.len(),
{
    if perks.len() == 0 {
        ReloadOverrideMod::identity()
    } else {
        let prev = reload_override_pass(reg, ctx, perks.drop_last());
        if prev != ReloadOverrideMod::identity() {
            prev
        } else {
            let pr = perks.last();
            if pr.1 > 0 && reg.registered(pr.0, OutcomeCategory::ReloadOverride) {
                spec_reload_override_formula(pr.0, pr.1, ctx)
            } else {
                ReloadOverrideMod::identity()
            }
        }
    }
}

/// Keeps the first non-default reload-override record.
pub fn reload_override_total(reg: &Registry, ctx: &Context) -> (r: ReloadOverrideMod)
    ensures
        r == reload_override_pass(*reg, *ctx, ctx.perks@),
{
    let mut acc = ReloadOverrideMod::new();
    let mut i: usize = 0;
    proof {
        assert(ctx.perks@.take(0) =~= Seq::<(PerkId, u32)>::empty());
    }
    while i < ctx.perks.len()
        invariant
            0 <= i <= ctx.perks@.len(),
            acc == reload_override_pass(*reg, *ctx, ctx.perks@.take(i as int)),
        decreases ctx.perks@.len() - i,
    {
        proof {
            assert(ctx.perks@.take(i as int + 1).drop_last() =~= ctx.perks@.take(i as int));
            assert(ctx.perks@.take(i as int + 1).last() == ctx.perks@[i as int]);
        }
        let (p, rank) = ctx.perks[i];
        let ident = ReloadOverrideMod::new();
        if acc == ident && rank > 0 {
            match reg.lookup(p, OutcomeCategory::ReloadOverride) {
                Some(comp) => {
                    acc = reload_override_formula(comp.perk, rank, ctx);
                },
                None => {},
            }
        }
        i = i + 1;
    }
    proof {
        assert(ctx.perks@.take(ctx.perks@.len() as int) =~= ctx.perks@);
    }
    acc
}

/// One aggregated modifier value per outcome category: the result of a whole
/// calculation.
pub struct ModifierBundle {
    pub damage: DamageMod,
    pub stats: StatMods,
    pub handling: HandlingMod,
    pub reload: ReloadMod,
    pub range: RangeMod,
    pub firing: FiringMod,
    pub flinch: FlinchMod,
    pub extra_damage: ExtraDamageMod,
    pub refund: RefundMod,
    pub reload_override: ReloadOverrideMod,
}

/// One whole calculation: for every outcome category, every active perk's
/// registered computation is invoked once, in insertion order, and the
/// responses are folded with the category's composition rule. The buff-family
/// state starts fresh, is threaded through the damage pass (the only pass
/// whose computations consult it), and is discarded at the end.
///
/// The active-perk count is bounded by the game's equip limits; the bound of
/// ten keeps the exact products within their 128-bit carriers.
pub fn compose(reg: &Registry, ctx: &Context) -> (r: ModifierBundle)
    requires
        ctx.perks@.len() <= 10,
    ensures
        ({
            let pass = damage_pass(*reg, *ctx, ctx.perks@, CategoryState::initial());
            &&& r.damage.impact.num == pass.0.impact_num
            &&& r.damage.impact.den == pass.0.impact_den
            &&& r.damage.explosive.num == pass.0.explosive_num
            &&& r.damage.explosive.den == pass.0.explosive_den
        }),
        r.stats.deltas@ == stat_pass(*reg, *ctx, ctx.perks@),
        r.stats.wf(),
        ({
            let pass = handling_pass(*reg, *ctx, ctx.perks@);
            &&& r.handling.stat_add == pass.stat_add
            &&& r.handling.draw_add == pass.draw_add
            &&& r.handling.stow_add == pass.stow_add
            &&& r.handling.ads_scale.num == pass.ads_num
            &&& r.handling.ads_scale.den == pass.ads_den
            &&& r.handling.draw_scale.num == pass.draw_num
            &&& r.handling.draw_scale.den == pass.draw_den
            &&& r.handling.stow_scale.num == pass.stow_num
            &&& r.handling.stow_scale.den == pass.stow_den
        }),
        ({
            let pass = reload_pass(*reg, *ctx, ctx.perks@);
            &&& r.reload.reload_stat_add == pass.stat_add
            &&& r.reload.reload_time_scale.num == pass.time_num
            &&& r.reload.reload_time_scale.den == pass.time_den
        }),
        ({
            let pass = range_pass(*reg, *ctx, ctx.perks@);
            &&& r.range.range_stat_add == pass.stat_add
            &&& r.range.range_all_scale.num == pass.all_num
            &&& r.range.range_all_scale.den == pass.all_den
            &&& r.range.range_hip_scale.num == pass.hip_num
            &&& r.range.range_hip_scale.den == pass.hip_den
            &&& r.range.range_zoom_scale.num == pass.zoom_num
            &&& r.range.range_zoom_scale.den == pass.zoom_den
        }),
        ({
            let pass = firing_pass(*reg, *ctx, ctx.perks@);
            &&& r.firing.burst_delay_add == pass.delay_add
            &&& r.firing.burst_size_add == pass.size_add
            &&& r.firing.burst_delay_scale.num == pass.delay_num
            &&& r.firing.burst_delay_scale.den == pass.delay_den
            &&& r.firing.inner_burst_scale.num == pass.inner_num
            &&& r.firing.inner_burst_scale.den == pass.inner_den
        }),
        r.flinch.flinch_scale.num == flinch_pass(*reg, *ctx, ctx.perks@).0,
        r.flinch.flinch_scale.den == flinch_pass(*reg, *ctx, ctx.perks@).1,
        r.extra_damage == extra_damage_pass(*reg, *ctx, ctx.perks@),
        r.refund == refund_pass(*reg, *ctx, ctx.perks@),
        r.reload_override == reload_override_pass(*reg, *ctx, ctx.perks@),
{
    let mut state = CategoryState::new();
    let damage = damage_total(reg, ctx, &mut state);
    let stats = stats_total(reg, ctx);
    let handling = handling_total(reg, ctx);
    let reload = reload_total(reg, ctx);
    let range = range_total(reg, ctx);
    let firing = firing_total(reg, ctx);
    let flinch = flinch_total(reg, ctx);
    let extra_damage = extra_damage_total(reg, ctx);
    let refund = refund_total(reg, ctx);
    let reload_override = reload_override_total(reg, ctx);
    ModifierBundle {
        damage,
        stats,
        handling,
        reload,
        range,
        firing,
        flinch,
        extra_damage,
        refund,
        reload_override,
    }
}


/// Over a whole damage pass the family state only ratchets upward: the state
/// a calculation ends with stands at least as high, family by family, as the
/// state it began with.
pub proof fn lemma_damage_pass_monotone(
    reg: Registry,
    ctx: Context,
    perks: Seq<(PerkId, u32)>,
    st0: CategoryState,
)
    ensures
        crate::damage::monotone(st0, damage_pass(reg, ctx, perks, st0).1),
    decreases perks.len(),
{
    if perks.len() > 0 {
        lemma_damage_pass_monotone(reg, ctx, perks.drop_last(), st0);
        let pr = perks.last();
        let prev = damage_pass(reg, ctx, perks.drop_last(), st0);
        if pr.1 > 0 && reg.registered(pr.0, OutcomeCategory::DamageScale) {
            crate::damage::lemma_damage_formula_monotone(pr.0, pr.1, ctx, prev.1);
        }
    }
}

} // verus!
