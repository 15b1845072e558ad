//! The handling, reload, range, firing, flinch and override computations.
//!
//! These categories never consult the buff-family state: their effects are
//! perk-exclusive, so each computation is a pure function of rank and
//! context. Rank 0 yields the identity for every one of them.
use vstd::prelude::*;

use crate::context::Context;
use crate::ids::{PerkId, WeaponType};
use crate::modifiers::{
    ExtraDamageMod, FiringMod, FlinchMod, HandlingMod, RangeMod, RefundMod, ReloadMod,
    ReloadOverrideMod,
};
use crate::scale::Scale;

verus! {

/// The handling-stat table of speedloader slacks, clamped at its last entry.
pub open spec fn speedloader_handling(rank: u32) -> i32 {
    if rank == 1 {
        40
    } else if rank == 2 {
        40
    } else if rank == 3 {
        45
    } else if rank == 4 {
        50
    } else {
        55
    }
}

/// The handling computation registered for `p`.
pub open spec fn spec_handling_formula(p: PerkId, rank: u32, ctx: Context) -> HandlingMod {
    if rank == 0 {
        HandlingMod::identity()
    } else {
        match p {
            PerkId::AeonForce => HandlingMod { stat_add: 40, ..HandlingMod::identity() },
            PerkId::MechaneersTricksleeves => {
                if ctx.weapon_type == WeaponType::Sidearm {
                    HandlingMod { stat_add: 100, ..HandlingMod::identity() }
                } else {
                    HandlingMod::identity()
                }
            },
            PerkId::LuckyPants => {
                if ctx.weapon_type == WeaponType::HandCannon {
                    HandlingMod {
                        draw_add: 100,
                        draw_scale: Scale { num: 600, den: 1000 },
                        ..HandlingMod::identity()
                    }
                } else {
                    HandlingMod::identity()
                }
            },
            PerkId::Peacekeepers => {
                if ctx.weapon_type == WeaponType::SubmachineGun {
                    HandlingMod {
                        stat_add: 50,
                        ads_scale: Scale { num: 1000, den: 1000 },
                        draw_scale: Scale { num: 800, den: 1000 },
                        stow_scale: Scale { num: 800, den: 1000 },
                        ..HandlingMod::identity()
                    }
                } else {
                    HandlingMod::identity()
                }
            },
            PerkId::AstrocyteVerse => HandlingMod { draw_add: 100, ..HandlingMod::identity() },
            PerkId::SpeedloaderSlacks => HandlingMod {
                stat_add: speedloader_handling(rank),
                ..HandlingMod::identity()
            },
            _ => HandlingMod::identity(),
        }
    }
}

/// Runs the handling computation registered for `p`. Rank 0 is inert.
pub fn handling_formula(p: PerkId, rank: u32, ctx: &Context) -> (r: HandlingMod)
    ensures
        r == spec_handling_formula(p, rank, *ctx),
        rank == 0 ==> r == HandlingMod::identity(),
{
    if rank == 0 {
        return HandlingMod::new();
    }
    match p {
        PerkId::AeonForce => {
            let mut m = HandlingMod::new();
            m.stat_add = 40;
            m
        },
        PerkId::MechaneersTricksleeves => {
            if ctx.weapon_type == WeaponType::Sidearm {
                let mut m = HandlingMod::new();
                m.stat_add = 100;
                m
            } else {
                HandlingMod::new()
            }
        },
        PerkId::LuckyPants => {
            if ctx.weapon_type == WeaponType::HandCannon {
                let mut m = HandlingMod::new();
                m.draw_add = 100;
                m.draw_scale = Scale { num: 600, den: 1000 };
                m
            } else {
                HandlingMod::new()
            }
        },
        PerkId::Peacekeepers => {
            if ctx.weapon_type == WeaponType::SubmachineGun {
                let mut m = HandlingMod::new();
                m.stat_add = 50;
                m.ads_scale = Scale { num: 1000, den: 1000 };
                m.draw_scale = Scale { num: 800, den: 1000 };
                m.stow_scale = Scale { num: 800, den: 1000 };
                m
            } else {
                HandlingMod::new()
            }
        },
        PerkId::AstrocyteVerse => {
            let mut m = HandlingMod::new();
            m.draw_add = 100;
            m
        },
        PerkId::SpeedloaderSlacks => {
            let mut m = HandlingMod::new();
            m.stat_add = if rank == 1 {
                40
            } else if rank == 2 {
                40
            } else if rank == 3 {
                45
            } else if rank == 4 {
                50
            } else {
                55
            };
            m
        },
        _ => HandlingMod::new(),
    }
}

pub proof fn lemma_handling_formula_wf(p: PerkId, rank: u32, ctx: Context)
    ensures
        spec_handling_formula(p, rank, ctx).wf(),
{
}

/// The (reload stat, reload time scale in thousandths) table of speedloader
/// slacks, clamped at its last entry.
pub open spec fn speedloader_reload(rank: u32) -> (i32, u32) {
    if rank == 1 {
        (40, 1000)
    } else if rank == 2 {
        (40, 925)
    } else if rank == 3 {
        (45, 915)
    } else if rank == 4 {
        (50, 910)
    } else {
        (55, 890)
    }
}

/// The reload computation registered for `p`.
pub open spec fn spec_reload_formula(p: PerkId, rank: u32, ctx: Context) -> ReloadMod {
    if rank == 0 {
        ReloadMod::identity()
    } else {
        match p {
            PerkId::AeonForce => ReloadMod {
                reload_stat_add: 30,
                reload_time_scale: Scale { num: 850, den: 1000 },
            },
            PerkId::MechaneersTricksleeves => {
                if ctx.weapon_type == WeaponType::Sidearm {
                    ReloadMod { reload_stat_add: 100, ..ReloadMod::identity() }
                } else {
                    ReloadMod::identity()
                }
            },
            PerkId::SpeedloaderSlacks => {
                let m = speedloader_reload(rank);
                ReloadMod {
                    reload_stat_add: m.0,
                    reload_time_scale: Scale { num: m.1 as u128, den: 1000 },
                }
            },
            PerkId::LunaFaction => ReloadMod {
                reload_stat_add: 100,
                reload_time_scale: Scale { num: 900, den: 1000 },
            },
            _ => ReloadMod::identity(),
        }
    }
}

/// Runs the reload computation registered for `p`. Rank 0 is inert.
pub fn reload_formula(p: PerkId, rank: u32, ctx: &Context) -> (r: ReloadMod)
    ensures
        r == spec_reload_formula(p, rank, *ctx),
        rank == 0 ==> r == ReloadMod::identity(),
{
    if rank == 0 {
        return ReloadMod::new();
    }
    match p {
        PerkId::AeonForce => ReloadMod {
            reload_stat_add: 30,
            reload_time_scale: Scale { num: 850, den: 1000 },
        },
        PerkId::MechaneersTricksleeves => {
            if ctx.weapon_type == WeaponType::Sidearm {
                let mut m = ReloadMod::new();
                m.reload_stat_add = 100;
                m
            } else {
                ReloadMod::new()
            }
        },
        PerkId::SpeedloaderSlacks => {
            let stat: i32 = if rank == 1 {
                40
            } else if rank == 2 {
                40
            } else if rank == 3 {
                45
            } else if rank == 4 {
                50
            } else {
                55
            };
            let scale: u32 = if rank == 1 {
                1000
            } else if rank == 2 {
                925
            } else if rank == 3 {
                915
            } else if rank == 4 {
                910
            } else {
                890
            };
            ReloadMod { reload_stat_add: stat, reload_time_scale: Scale::thousandths(scale) }
        },
        PerkId::LunaFaction => ReloadMod {
            reload_stat_add: 100,
            reload_time_scale: Scale { num: 900, den: 1000 },
        },
        _ => ReloadMod::new(),
    }
}

pub proof fn lemma_reload_formula_wf(p: PerkId, rank: u32, ctx: Context)
    ensures
        spec_reload_formula(p, rank, ctx).wf(),
{
}

/// The range computation registered for `p`: only the second tier of the
/// lunafaction effect doubles all range falloff.
pub open spec fn spec_range_formula(p: PerkId, rank: u32, ctx: Context) -> RangeMod {
    if rank == 0 {
        RangeMod::identity()
    } else {
        match p {
            PerkId::LunaFaction => {
                if rank >= 2 {
                    RangeMod {
                        range_all_scale: Scale { num: 2000, den: 1000 },
                        ..RangeMod::identity()
                    }
                } else {
                    RangeMod::identity()
                }
            },
            _ => RangeMod::identity(),
        }
    }
}

/// Runs the range computation registered for `p`. Rank 0 is inert.
pub fn range_formula(p: PerkId, rank: u32, ctx: &Context) -> (r: RangeMod)
    ensures
        r == spec_range_formula(p, rank, *ctx),
        rank == 0 ==> r == RangeMod::identity(),
{
    if rank == 0 {
        return RangeMod::new();
    }
    match p {
        PerkId::LunaFaction => {
            if rank >= 2 {
                let mut m = RangeMod::new();
                m.range_all_scale = Scale { num: 2000, den: 1000 };
                m
            } else {
                RangeMod::new()
            }
        },
        _ => RangeMod::new(),
    }
}

pub proof fn lemma_range_formula_wf(p: PerkId, rank: u32, ctx: Context)
    ensures
        spec_range_formula(p, rank, ctx).wf(),
{
}

/// The flinch computation registered for `p`: an active tome of dawn cuts
/// incoming flinch to 0.8.
pub open spec fn spec_flinch_formula(p: PerkId, rank: u32, ctx: Context) -> FlinchMod {
    if rank == 0 {
        FlinchMod::identity()
    } else {
        match p {
            PerkId::TomeOfDawn => FlinchMod { flinch_scale: Scale { num: 800, den: 1000 } },
            _ => FlinchMod::identity(),
        }
    }
}

/// Runs the flinch computation registered for `p`. Rank 0 is inert.
pub fn flinch_formula(p: PerkId, rank: u32, ctx: &Context) -> (r: FlinchMod)
    ensures
        r == spec_flinch_formula(p, rank, *ctx),
        rank == 0 ==> r == FlinchMod::identity(),
{
    if rank == 0 {
        return FlinchMod::new();
    }
    match p {
        PerkId::TomeOfDawn => FlinchMod { flinch_scale: Scale { num: 800, den: 1000 } },
        _ => FlinchMod::new(),
    }
}

pub proof fn lemma_flinch_formula_wf(p: PerkId, rank: u32, ctx: Context)
    ensures
        spec_flinch_formula(p, rank, ctx).wf(),
{
}

/// The firing-cadence computation registered for `p`: no perk in the current
/// catalogue registers one, so every perk yields the identity.
pub open spec fn spec_firing_formula(p: PerkId, rank: u32, ctx: Context) -> FiringMod {
    FiringMod::identity()
}

pub fn firing_formula(p: PerkId, rank: u32, ctx: &Context) -> (r: FiringMod)
    ensures
        r == spec_firing_formula(p, rank, *ctx),
        rank == 0 ==> r == FiringMod::identity(),
{
    FiringMod::new()
}

pub proof fn lemma_firing_formula_wf(p: PerkId, rank: u32, ctx: Context)
    ensures
        spec_firing_formula(p, rank, ctx).wf(),
{
}

/// The extra-damage override registered for `p`: none in the current
/// catalogue.
pub open spec fn spec_extra_damage_formula(p: PerkId, rank: u32, ctx: Context) -> ExtraDamageMod {
    ExtraDamageMod::identity()
}

pub fn extra_damage_formula(p: PerkId, rank: u32, ctx: &Context) -> (r: ExtraDamageMod)
    ensures
        r == spec_extra_damage_formula(p, rank, *ctx),
        rank == 0 ==> r == ExtraDamageMod::identity(),
{
    ExtraDamageMod::new()
}

/// The refund override registered for `p`: none in the current catalogue.
pub open spec fn spec_refund_formula(p: PerkId, rank: u32, ctx: Context) -> RefundMod {
    RefundMod::identity()
}

pub fn refund_formula(p: PerkId, rank: u32, ctx: &Context) -> (r: RefundMod)
    ensures
        r == spec_refund_formula(p, rank, *ctx),
        rank == 0 ==> r == RefundMod::identity(),
{
    RefundMod::new()
}

/// The reload override registered for `p`: none in the current catalogue.
pub open spec fn spec_reload_override_formula(p: PerkId, rank: u32, ctx: Context) -> ReloadOverrideMod {
    ReloadOverrideMod::identity()
}

pub fn reload_override_formula(p: PerkId, rank: u32, ctx: &Context) -> (r: ReloadOverrideMod)
    ensures
        r == spec_reload_override_formula(p, rank, *ctx),
        rank == 0 ==> r == ReloadOverrideMod::identity(),
{
    ReloadOverrideMod::new()
}

} // verus!
