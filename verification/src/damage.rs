//! The damage-scale computations, one per registered perk.
//!
//! Each computation is a pure function of (rank, context, buff-family state):
//! it may gate on the weapon's flavour tags or on other perks' ranks, route a
//! desired multiplier through a stacking resolver when it participates in a
//! shared family, or return a direct factor when it is perk-exclusive. Rank 0
//! is semantically inert for every computation: it returns the identity and
//! leaves the family state untouched.
use vstd::prelude::*;

use crate::context::{rank_in, Context};
use crate::ids::{AmmoType, DamageType, PerkId, WeaponType};
use crate::modifiers::DamageMod;
use crate::scale::{spec_clamp, spec_one, Scale};
use crate::state::{spec_emp_buff, spec_gbl_debuff, spec_surge_buff, CategoryState};
use crate::state::{emp_buff, gbl_debuff, surge_buff};

verus! {

/// The empowering-buff table of umbral sharpening, indexed by rank and
/// clamped at its last entry.
pub open spec fn umbral_desired(rank: u32) -> u32 {
    let idx = spec_clamp(rank, 0, 3);
    if idx == 0 {
        1200
    } else if idx == 1 {
        1250
    } else if idx == 2 {
        1350
    } else {
        1400
    }
}

/// The debuff table of the enhanced scanner augment, indexed by rank and
/// clamped at its last entry.
pub open spec fn scanner_desired(rank: u32) -> u32 {
    let idx = spec_clamp(rank, 0, 4);
    if idx == 0 {
        1080
    } else if idx == 1 {
        1137
    } else if idx == 2 {
        1173
    } else if idx == 3 {
        1193
    } else {
        1200
    }
}

/// The empowering-buff table of burning fists: a PvE and a PvP multiplier per
/// rank, clamped at the last entry.
pub open spec fn burning_fists_desired(rank: u32, pvp: bool) -> u32 {
    if rank <= 1 {
        1000
    } else if rank == 2 {
        if pvp {
            1000
        } else {
            1200
        }
    } else if rank == 3 {
        if pvp {
            1200
        } else {
            1250
        }
    } else if rank == 4 {
        if pvp {
            1250
        } else {
            1300
        }
    } else {
        if pvp {
            1250
        } else {
            1350
        }
    }
}

/// The damage-scale computation registered for `p`, as a function of rank,
/// context and incoming family state; yields the response and the state the
/// computation leaves behind. Perks with no damage registration yield the
/// identity.
pub open spec fn spec_damage_formula(p: PerkId, rank: u32, ctx: Context, st: CategoryState) -> (
    DamageMod,
    CategoryState,
) {
    if rank == 0 {
        (DamageMod::identity(), st)
    } else {
        match p {
            PerkId::WellOfRadiance => {
                let fs = spec_emp_buff(st, 1250);
                (DamageMod::spec_basic(fs.0), fs.1)
            },
            PerkId::NobleRounds => {
                let fs = spec_emp_buff(st, if ctx.pvp { 1150 } else { 1350 });
                (DamageMod::spec_basic(fs.0), fs.1)
            },
            PerkId::Radiant => {
                let fs = spec_emp_buff(st, if ctx.pvp { 1100 } else { 1200 });
                (DamageMod::spec_basic(fs.0), CategoryState { radiant: true, ..fs.1 })
            },
            PerkId::PathOfTheBurningSteps => {
                if ctx.damage_type != DamageType::Solar {
                    (DamageMod::identity(), st)
                } else {
                    let fs = spec_surge_buff(st, rank, ctx.pvp);
                    (DamageMod::spec_basic(fs.0), fs.1)
                }
            },
            PerkId::BannerShield => {
                let fs = spec_emp_buff(st, if ctx.pvp { 1350 } else { 1400 });
                (DamageMod::spec_basic(fs.0), fs.1)
            },
            PerkId::EmpRift => {
                let fs = spec_emp_buff(st, if ctx.pvp { 1150 } else { 1200 });
                (DamageMod::spec_basic(fs.0), fs.1)
            },
            PerkId::WardOfDawn => {
                let fs = spec_emp_buff(st, 1250);
                (DamageMod::spec_basic(fs.0), fs.1)
            },
            PerkId::Gyrfalcon => {
                let fs = spec_emp_buff(st, if ctx.pvp { 1000 } else { 1350 });
                (DamageMod::spec_basic(fs.0), fs.1)
            },
            PerkId::AeonInsight => {
                let fs = spec_emp_buff(st, if ctx.pvp { 1000 } else { 1350 });
                (DamageMod::spec_basic(fs.0), fs.1)
            },
            PerkId::UmbralSharpening => {
                let fs = spec_emp_buff(st, if ctx.pvp { 1000 } else { umbral_desired(rank) });
                (DamageMod::spec_basic(fs.0), fs.1)
            },
            PerkId::WormByproduct => {
                (DamageMod::spec_basic(Scale { num: 1150, den: 1000 }), st)
            },
            PerkId::Weaken => {
                let fs = spec_gbl_debuff(st, if ctx.pvp { 1075 } else { 1150 });
                (DamageMod::spec_basic(fs.0), fs.1)
            },
            PerkId::TractorCannon => {
                let fs = spec_gbl_debuff(st, if ctx.pvp { 1500 } else { 1300 });
                (DamageMod::spec_basic(fs.0), fs.1)
            },
            PerkId::MoebiusQuiver => {
                let fs = spec_gbl_debuff(st, if ctx.pvp { 1500 } else { 1300 });
                (DamageMod::spec_basic(fs.0), fs.1)
            },
            PerkId::DeadFall => {
                let fs = spec_gbl_debuff(st, if ctx.pvp { 1500 } else { 1300 });
                (DamageMod::spec_basic(fs.0), fs.1)
            },
            PerkId::Felwinters => {
                let fs = spec_gbl_debuff(st, 1300);
                (DamageMod::spec_basic(fs.0), fs.1)
            },
            PerkId::EnhancedScannerAugment => {
                let fs = spec_gbl_debuff(st, if ctx.pvp { 1000 } else { scanner_desired(rank) });
                (DamageMod::spec_basic(fs.0), fs.1)
            },
            PerkId::SurgeMod => {
                let fs = spec_surge_buff(st, rank, ctx.pvp);
                (DamageMod::spec_basic(fs.0), fs.1)
            },
            PerkId::EternalWarrior => {
                let fs = spec_surge_buff(st, rank, ctx.pvp);
                (DamageMod::spec_basic(fs.0), fs.1)
            },
            PerkId::MantleOfBattleHarmony => {
                let fs = spec_surge_buff(st, 4, ctx.pvp);
                (DamageMod::spec_basic(fs.0), fs.1)
            },
            PerkId::MaskOfBakris => {
                if ctx.damage_type == DamageType::Stasis || ctx.damage_type == DamageType::Arc {
                    let fs = spec_surge_buff(st, 4, ctx.pvp);
                    (DamageMod::spec_basic(fs.0), fs.1)
                } else {
                    (DamageMod::identity(), st)
                }
            },
            PerkId::SanguineAlchemy => {
                if ctx.damage_type == DamageType::Kinetic {
                    (DamageMod::identity(), st)
                } else {
                    let fs = spec_surge_buff(st, 4, ctx.pvp);
                    (DamageMod::spec_basic(fs.0), fs.1)
                }
            },
            PerkId::Foetracers => {
                let fs = spec_surge_buff(st, 4, ctx.pvp);
                (DamageMod::spec_basic(fs.0), fs.1)
            },
            PerkId::GlacialGuard => {
                if ctx.damage_type != DamageType::Stasis {
                    (DamageMod::identity(), st)
                } else {
                    let fs = spec_surge_buff(st, 4, ctx.pvp);
                    (DamageMod::spec_basic(fs.0), fs.1)
                }
            },
            PerkId::NoBackupPlans => {
                if ctx.weapon_type != WeaponType::Shotgun {
                    (DamageMod::identity(), st)
                } else {
                    let fs = spec_emp_buff(st, if ctx.pvp { 1100 } else { 1350 });
                    (DamageMod::spec_basic(fs.0), fs.1)
                }
            },
            PerkId::DoomFang => {
                if ctx.damage_type != DamageType::Void {
                    (DamageMod::identity(), st)
                } else {
                    let fs = spec_surge_buff(st, rank, ctx.pvp);
                    (DamageMod::spec_basic(fs.0), fs.1)
                }
            },
            PerkId::BurningFists => {
                let fs = spec_emp_buff(st, burning_fists_desired(rank, ctx.pvp));
                (DamageMod::spec_basic(fs.0), fs.1)
            },
            PerkId::BallindorseWrathweavers => {
                if ctx.damage_type == DamageType::Stasis {
                    (
                        DamageMod::spec_basic(
                            Scale { num: if ctx.pvp { 1050 } else { 1150 }, den: 1000 },
                        ),
                        st,
                    )
                } else {
                    (DamageMod::identity(), st)
                }
            },
            PerkId::LuckyPants => {
                if rank_in(ctx.perks@, PerkId::ParacausalShot) > 0 || rank_in(
                    ctx.perks@,
                    PerkId::StormAndStress,
                ) > 0 || ctx.pvp {
                    (DamageMod::identity(), st)
                } else {
                    let per_shot: u32 = if ctx.ammo_type == AmmoType::Special {
                        300
                    } else {
                        450
                    };
                    (
                        DamageMod {
                            impact: Scale {
                                num: (1000 + per_shot * spec_clamp(rank, 0, 10)) as u128,
                                den: 1000,
                            },
                            explosive: spec_one(),
                        },
                        st,
                    )
                }
            },
            PerkId::KnuckleheadRadar => {
                if ctx.health >= 300 {
                    (DamageMod::identity(), st)
                } else {
                    (
                        DamageMod::spec_basic(
                            Scale { num: (1300 - ctx.health) as u128, den: 1000 },
                        ),
                        st,
                    )
                }
            },
            PerkId::MechaneersTricksleeves => {
                if ctx.weapon_type != WeaponType::Sidearm {
                    (DamageMod::identity(), st)
                } else {
                    (
                        DamageMod::spec_basic(
                            Scale { num: if ctx.pvp { 1100 } else { 2000 }, den: 1000 },
                        ),
                        st,
                    )
                }
            },
            PerkId::SealedAhamkaraGrasps => {
                (
                    DamageMod::spec_basic(
                        Scale { num: if ctx.pvp { 1200 } else { 1350 }, den: 1000 },
                    ),
                    st,
                )
            },
            _ => (DamageMod::identity(), st),
        }
    }
}

/// Runs the damage-scale computation registered for `p`. Rank 0 is inert:
/// it returns the identity and leaves the family state untouched.
pub fn damage_formula(p: PerkId, rank: u32, ctx: &Context, state: &mut CategoryState) -> (r:
    DamageMod)
    ensures
        (r, *final(state)) == spec_damage_formula(p, rank, *ctx, *old(state)),
        rank == 0 ==> r == DamageMod::identity() && *final(state) == *old(state),
{
    if rank == 0 {
        return DamageMod::new();
    }
    match p {
        PerkId::WellOfRadiance => {
            let f = emp_buff(state, 1250);
            DamageMod::basic_dmg_buff(f)
        },
        PerkId::NobleRounds => {
            let f = emp_buff(state, if ctx.pvp { 1150 } else { 1350 });
            DamageMod::basic_dmg_buff(f)
        },
        PerkId::Radiant => {
            let f = emp_buff(state, if ctx.pvp { 1100 } else { 1200 });
            state.radiant = true;
            DamageMod::basic_dmg_buff(f)
        },
        PerkId::PathOfTheBurningSteps => {
            if ctx.damage_type != DamageType::Solar {
                DamageMod::new()
            } else {
                let f = surge_buff(state, rank, ctx.pvp);
                DamageMod::basic_dmg_buff(f)
            }
        },
        PerkId::BannerShield => {
            let f = emp_buff(state, if ctx.pvp { 1350 } else { 1400 });
            DamageMod::basic_dmg_buff(f)
        },
        PerkId::EmpRift => {
            let f = emp_buff(state, if ctx.pvp { 1150 } else { 1200 });
            DamageMod::basic_dmg_buff(f)
        },
        PerkId::WardOfDawn => {
            let f = emp_buff(state, 1250);
            DamageMod::basic_dmg_buff(f)
        },
        PerkId::Gyrfalcon => {
            let f = emp_buff(state, if ctx.pvp { 1000 } else { 1350 });
            DamageMod::basic_dmg_buff(f)
        },
        PerkId::AeonInsight => {
            let f = emp_buff(state, if ctx.pvp { 1000 } else { 1350 });
            DamageMod::basic_dmg_buff(f)
        },
        PerkId::UmbralSharpening => {
            let desired: u32 = if ctx.pvp {
                1000
            } else {
                let idx = crate::scale::clamp(rank, 0, 3);
                if idx == 0 {
                    1200
                } else if idx == 1 {
                    1250
                } else if idx == 2 {
                    1350
                } else {
                    1400
                }
            };
            let f = emp_buff(state, desired);
            DamageMod::basic_dmg_buff(f)
        },
        PerkId::WormByproduct => {
            DamageMod::basic_dmg_buff(Scale { num: 1150, den: 1000 })
        },
        PerkId::Weaken => {
            let f = gbl_debuff(state, if ctx.pvp { 1075 } else { 1150 });
            DamageMod::basic_dmg_buff(f)
        },
        PerkId::TractorCannon => {
            let f = gbl_debuff(state, if ctx.pvp { 1500 } else { 1300 });
            DamageMod::basic_dmg_buff(f)
        },
        PerkId::MoebiusQuiver => {
            let f = gbl_debuff(state, if ctx.pvp { 1500 } else { 1300 });
            DamageMod::basic_dmg_buff(f)
        },
        PerkId::DeadFall => {
            let f = gbl_debuff(state, if ctx.pvp { 1500 } else { 1300 });
            DamageMod::basic_dmg_buff(f)
        },
        PerkId::Felwinters => {
            let f = gbl_debuff(state, 1300);
            DamageMod::basic_dmg_buff(f)
        },
        PerkId::EnhancedScannerAugment => {
            let desired: u32 = if ctx.pvp {
                1000
            } else {
                let idx = crate::scale::clamp(rank, 0, 4);
                if idx == 0 {
                    1080
                } else if idx == 1 {
                    1137
                } else if idx == 2 {
                    1173
                } else if idx == 3 {
                    1193
                } else {
                    1200
                }
            };
            let f = gbl_debuff(state, desired);
            DamageMod::basic_dmg_buff(f)
        },
        PerkId::SurgeMod => {
            let f = surge_buff(state, rank, ctx.pvp);
            DamageMod::basic_dmg_buff(f)
        },
        PerkId::EternalWarrior => {
            let f = surge_buff(state, rank, ctx.pvp);
            DamageMod::basic_dmg_buff(f)
        },
        PerkId::MantleOfBattleHarmony => {
            let f = surge_buff(state, 4, ctx.pvp);
            DamageMod::basic_dmg_buff(f)
        },
        PerkId::MaskOfBakris => {
            if ctx.damage_type == DamageType::Stasis || ctx.damage_type == DamageType::Arc {
                let f = surge_buff(state, 4, ctx.pvp);
                DamageMod::basic_dmg_buff(f)
            } else {
                DamageMod::new()
            }
        },
        PerkId::SanguineAlchemy => {
            if ctx.damage_type == DamageType::Kinetic {
                DamageMod::new()
            } else {
                let f = surge_buff(state, 4, ctx.pvp);
                DamageMod::basic_dmg_buff(f)
            }
        },
        PerkId::Foetracers => {
            let f = surge_buff(state, 4, ctx.pvp);
            DamageMod::basic_dmg_buff(f)
        },
        PerkId::GlacialGuard => {
            if ctx.damage_type != DamageType::Stasis {
                DamageMod::new()
            } else {
                let f = surge_buff(state, 4, ctx.pvp);
                DamageMod::basic_dmg_buff(f)
            }
        },
        PerkId::NoBackupPlans => {
            if ctx.weapon_type != WeaponType::Shotgun {
                DamageMod::new()
            } else {
                let f = emp_buff(state, if ctx.pvp { 1100 } else { 1350 });
                DamageMod::basic_dmg_buff(f)
            }
        },
        PerkId::DoomFang => {
            if ctx.damage_type != DamageType::Void {
                DamageMod::new()
            } else {
                let f = surge_buff(state, rank, ctx.pvp);
                DamageMod::basic_dmg_buff(f)
            }
        },
        PerkId::BurningFists => {
            let desired: u32 = if rank <= 1 {
                1000
            } else if rank == 2 {
                if ctx.pvp {
                    1000
                } else {
                    1200
                }
            } else if rank == 3 {
                if ctx.pvp {
                    1200
                } else {
                    1250
                }
            } else if rank == 4 {
                if ctx.pvp {
                    1250
                } else {
                    1300
                }
            } else {
                if ctx.pvp {
                    1250
                } else {
                    1350
                }
            };
            let f = emp_buff(state, desired);
            DamageMod::basic_dmg_buff(f)
        },
        PerkId::BallindorseWrathweavers => {
            if ctx.damage_type == DamageType::Stasis {
                let v: u32 = if ctx.pvp {
                    1050
                } else {
                    1150
                };
                DamageMod::basic_dmg_buff(Scale::thousandths(v))
            } else {
                DamageMod::new()
            }
        },
        PerkId::LuckyPants => {
            let paracausal = ctx.get_rank(PerkId::ParacausalShot);
            let storm = ctx.get_rank(PerkId::StormAndStress);
            if paracausal > 0 || storm > 0 || ctx.pvp {
                DamageMod::new()
            } else {
                let per_shot: u32 = if ctx.ammo_type == AmmoType::Special {
                    300
                } else {
                    450
                };
                let num: u32 = 1000 + per_shot * crate::scale::clamp(rank, 0, 10);
                DamageMod { impact: Scale::thousandths(num), explosive: Scale { num: 1, den: 1 } }
            }
        },
        PerkId::KnuckleheadRadar => {
            if ctx.health >= 300 {
                DamageMod::new()
            } else {
                DamageMod::basic_dmg_buff(Scale::thousandths(1300 - ctx.health))
            }
        },
        PerkId::MechaneersTricksleeves => {
            if ctx.weapon_type != WeaponType::Sidearm {
                DamageMod::new()
            } else {
                let v: u32 = if ctx.pvp {
                    1100
                } else {
                    2000
                };
                DamageMod::basic_dmg_buff(Scale::thousandths(v))
            }
        },
        PerkId::SealedAhamkaraGrasps => {
            let v: u32 = if ctx.pvp {
                1200
            } else {
                1350
            };
            DamageMod::basic_dmg_buff(Scale::thousandths(v))
        },
        _ => DamageMod::new(),
    }
}


/// `after` stands at least as high as `before` in every buff family.
pub open spec fn monotone(before: CategoryState, after: CategoryState) -> bool {
    &&& after.empowering >= before.empowering
    &&& after.surge >= before.surge
    &&& after.debuff >= before.debuff
}

/// Every damage computation keeps its response factors near 1.0 and leaves
/// the family state well-formed: desired multipliers never exceed the
/// strongest tabled value.
#[verifier::rlimit(100)]
pub proof fn lemma_damage_formula_wf(p: PerkId, rank: u32, ctx: Context, st: CategoryState)
    requires
        st.wf(),
    ensures
        spec_damage_formula(p, rank, ctx, st).0.wf(),
        spec_damage_formula(p, rank, ctx, st).1.wf(),
{
    if rank != 0 {
        match p {
            PerkId::LuckyPants => {
                assert(spec_clamp(rank, 0, 10) <= 10);
                assert(spec_damage_formula(p, rank, ctx, st).0.wf());
                assert(spec_damage_formula(p, rank, ctx, st).1.wf());
            },
            PerkId::WellOfRadiance => {
                assert(spec_damage_formula(p, rank, ctx, st).0.wf());
                assert(spec_damage_formula(p, rank, ctx, st).1.wf());
            },
            PerkId::NobleRounds => {
                assert(spec_damage_formula(p, rank, ctx, st).0.wf());
                assert(spec_damage_formula(p, rank, ctx, st).1.wf());
            },
            PerkId::Radiant => {
                assert(spec_damage_formula(p, rank, ctx, st).0.wf());
                assert(spec_damage_formula(p, rank, ctx, st).1.wf());
            },
            PerkId::PathOfTheBurningSteps => {
                assert(spec_damage_formula(p, rank, ctx, st).0.wf());
                assert(spec_damage_formula(p, rank, ctx, st).1.wf());
            },
            PerkId::BannerShield => {
                assert(spec_damage_formula(p, rank, ctx, st).0.wf());
                assert(spec_damage_formula(p, rank, ctx, st).1.wf());
            },
            PerkId::EmpRift => {
                assert(spec_damage_formula(p, rank, ctx, st).0.wf());
                assert(spec_damage_formula(p, rank, ctx, st).1.wf());
            },
            PerkId::WardOfDawn => {
                assert(spec_damage_formula(p, rank, ctx, st).0.wf());
                assert(spec_damage_formula(p, rank, ctx, st).1.wf());
            },
            PerkId::Gyrfalcon => {
                assert(spec_damage_formula(p, rank, ctx, st).0.wf());
                assert(spec_damage_formula(p, rank, ctx, st).1.wf());
            },
            PerkId::AeonInsight => {
                assert(spec_damage_formula(p, rank, ctx, st).0.wf());
                assert(spec_damage_formula(p, rank, ctx, st).1.wf());
            },
            PerkId::UmbralSharpening => {
                assert(spec_damage_formula(p, rank, ctx, st).0.wf());
                assert(spec_damage_formula(p, rank, ctx, st).1.wf());
            },
            PerkId::WormByproduct => {
                assert(spec_damage_formula(p, rank, ctx, st).0.wf());
                assert(spec_damage_formula(p, rank, ctx, st).1.wf());
            },
            PerkId::Weaken => {
                assert(spec_damage_formula(p, rank, ctx, st).0.wf());
                assert(spec_damage_formula(p, rank, ctx, st).1.wf());
            },
            PerkId::TractorCannon => {
                assert(spec_damage_formula(p, rank, ctx, st).0.wf());
                assert(spec_damage_formula(p, rank, ctx, st).1.wf());
            },
            PerkId::MoebiusQuiver => {
                assert(spec_damage_formula(p, rank, ctx, st).0.wf());
                assert(spec_damage_formula(p, rank, ctx, st).1.wf());
            },
            PerkId::DeadFall => {
                assert(spec_damage_formula(p, rank, ctx, st).0.wf());
                assert(spec_damage_formula(p, rank, ctx, st).1.wf());
            },
            PerkId::Felwinters => {
                assert(spec_damage_formula(p, rank, ctx, st).0.wf());
                assert(spec_damage_formula(p, rank, ctx, st).1.wf());
            },
            PerkId::EnhancedScannerAugment => {
                assert(spec_damage_formula(p, rank, ctx, st).0.wf());
                assert(spec_damage_formula(p, rank, ctx, st).1.wf());
            },
            PerkId::SurgeMod => {
                assert(spec_damage_formula(p, rank, ctx, st).0.wf());
                assert(spec_damage_formula(p, rank, ctx, st).1.wf());
            },
            PerkId::EternalWarrior => {
                assert(spec_damage_formula(p, rank, ctx, st).0.wf());
                assert(spec_damage_formula(p, rank, ctx, st).1.wf());
            },
            PerkId::MantleOfBattleHarmony => {
                assert(spec_damage_formula(p, rank, ctx, st).0.wf());
                assert(spec_damage_formula(p, rank, ctx, st).1.wf());
            },
            PerkId::MaskOfBakris => {
                assert(spec_damage_formula(p, rank, ctx, st).0.wf());
                assert(spec_damage_formula(p, rank, ctx, st).1.wf());
            },
            PerkId::SanguineAlchemy => {
                assert(spec_damage_formula(p, rank, ctx, st).0.wf());
                assert(spec_damage_formula(p, rank, ctx, st).1.wf());
            },
            PerkId::Foetracers => {
                assert(spec_damage_formula(p, rank, ctx, st).0.wf());
                assert(spec_damage_formula(p, rank, ctx, st).1.wf());
            },
            PerkId::GlacialGuard => {
                assert(spec_damage_formula(p, rank, ctx, st).0.wf());
                assert(spec_damage_formula(p, rank, ctx, st).1.wf());
            },
            PerkId::NoBackupPlans => {
                assert(spec_damage_formula(p, rank, ctx, st).0.wf());
                assert(spec_damage_formula(p, rank, ctx, st).1.wf());
            },
            PerkId::DoomFang => {
                assert(spec_damage_formula(p, rank, ctx, st).0.wf());
                assert(spec_damage_formula(p, rank, ctx, st).1.wf());
            },
            PerkId::BurningFists => {
                assert(spec_damage_formula(p, rank, ctx, st).0.wf());
                assert(spec_damage_formula(p, rank, ctx, st).1.wf());
            },
            PerkId::BallindorseWrathweavers => {
                assert(spec_damage_formula(p, rank, ctx, st).0.wf());
                assert(spec_damage_formula(p, rank, ctx, st).1.wf());
            },
            PerkId::KnuckleheadRadar => {
                assert(spec_damage_formula(p, rank, ctx, st).0.wf());
                assert(spec_damage_formula(p, rank, ctx, st).1.wf());
            },
            PerkId::MechaneersTricksleeves => {
                assert(spec_damage_formula(p, rank, ctx, st).0.wf());
                assert(spec_damage_formula(p, rank, ctx, st).1.wf());
            },
            PerkId::SealedAhamkaraGrasps => {
                assert(spec_damage_formula(p, rank, ctx, st).0.wf());
                assert(spec_damage_formula(p, rank, ctx, st).1.wf());
            },
            _ => {
                assert(spec_damage_formula(p, rank, ctx, st).0.wf());
                assert(spec_damage_formula(p, rank, ctx, st).1.wf());
            },
        }
    }
}


/// Within one calculation the family state is ratchet-only: no damage
/// computation ever lowers a family's stored multiplier.
#[verifier::rlimit(100)]
pub proof fn lemma_damage_formula_monotone(p: PerkId, rank: u32, ctx: Context, st: CategoryState)
    ensures
        monotone(st, spec_damage_formula(p, rank, ctx, st).1),
{
    if rank != 0 {
        match p {
            PerkId::WellOfRadiance => {
                assert(monotone(st, spec_damage_formula(p, rank, ctx, st).1));
            },
            PerkId::NobleRounds => {
                assert(monotone(st, spec_damage_formula(p, rank, ctx, st).1));
            },
            PerkId::Radiant => {
                assert(monotone(st, spec_damage_formula(p, rank, ctx, st).1));
            },
            PerkId::PathOfTheBurningSteps => {
                assert(monotone(st, spec_damage_formula(p, rank, ctx, st).1));
            },
            PerkId::BannerShield => {
                assert(monotone(st, spec_damage_formula(p, rank, ctx, st).1));
            },
            PerkId::EmpRift => {
                assert(monotone(st, spec_damage_formula(p, rank, ctx, st).1));
            },
            PerkId::WardOfDawn => {
                assert(monotone(st, spec_damage_formula(p, rank, ctx, st).1));
            },
            PerkId::Gyrfalcon => {
                assert(monotone(st, spec_damage_formula(p, rank, ctx, st).1));
            },
            PerkId::AeonInsight => {
                assert(monotone(st, spec_damage_formula(p, rank, ctx, st).1));
            },
            PerkId::UmbralSharpening => {
                assert(monotone(st, spec_damage_formula(p, rank, ctx, st).1));
            },
            PerkId::WormByproduct => {
                assert(monotone(st, spec_damage_formula(p, rank, ctx, st).1));
            },
            PerkId::Weaken => {
                assert(monotone(st, spec_damage_formula(p, rank, ctx, st).1));
            },
            PerkId::TractorCannon => {
                assert(monotone(st, spec_damage_formula(p, rank, ctx, st).1));
            },
            PerkId::MoebiusQuiver => {
                assert(monotone(st, spec_damage_formula(p, rank, ctx, st).1));
            },
            PerkId::DeadFall => {
                assert(monotone(st, spec_damage_formula(p, rank, ctx, st).1));
            },
            PerkId::Felwinters => {
                assert(monotone(st, spec_damage_formula(p, rank, ctx, st).1));
            },
            PerkId::EnhancedScannerAugment => {
                assert(monotone(st, spec_damage_formula(p, rank, ctx, st).1));
            },
            PerkId::SurgeMod => {
                assert(monotone(st, spec_damage_formula(p, rank, ctx, st).1));
            },
            PerkId::EternalWarrior => {
                assert(monotone(st, spec_damage_formula(p, rank, ctx, st).1));
            },
            PerkId::MantleOfBattleHarmony => {
                assert(monotone(st, spec_damage_formula(p, rank, ctx, st).1));
            },
            PerkId::MaskOfBakris => {
                assert(monotone(st, spec_damage_formula(p, rank, ctx, st).1));
            },
            PerkId::SanguineAlchemy => {
                assert(monotone(st, spec_damage_formula(p, rank, ctx, st).1));
            },
            PerkId::Foetracers => {
                assert(monotone(st, spec_damage_formula(p, rank, ctx, st).1));
            },
            PerkId::GlacialGuard => {
                assert(monotone(st, spec_damage_formula(p, rank, ctx, st).1));
            },
            PerkId::NoBackupPlans => {
                assert(monotone(st, spec_damage_formula(p, rank, ctx, st).1));
            },
            PerkId::DoomFang => {
                assert(monotone(st, spec_damage_formula(p, rank, ctx, st).1));
            },
            PerkId::BurningFists => {
                assert(monotone(st, spec_damage_formula(p, rank, ctx, st).1));
            },
            PerkId::BallindorseWrathweavers => {
                assert(monotone(st, spec_damage_formula(p, rank, ctx, st).1));
            },
            PerkId::LuckyPants => {
                assert(monotone(st, spec_damage_formula(p, rank, ctx, st).1));
            },
            PerkId::KnuckleheadRadar => {
                assert(monotone(st, spec_damage_formula(p, rank, ctx, st).1));
            },
            PerkId::MechaneersTricksleeves => {
                assert(monotone(st, spec_damage_formula(p, rank, ctx, st).1));
            },
            PerkId::SealedAhamkaraGrasps => {
                assert(monotone(st, spec_damage_formula(p, rank, ctx, st).1));
            },
            _ => {
                assert(monotone(st, spec_damage_formula(p, rank, ctx, st).1));
            },
        }
    }
}

} // verus!
