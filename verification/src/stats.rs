//! The stat-bump computations, one per registered perk.
//!
//! Each yields a small list of (stat, additive delta) pairs; the composer
//! accumulates the lists and sums deltas per stat. Rank 0 yields the empty
//! list and no computation touches the buff-family state.
use vstd::prelude::*;

use crate::context::Context;
use crate::ids::{PerkId, StatId, WeaponType};
use crate::modifiers::{bump_total, bumps_bounded};

verus! {

/// A one-entry bump list.
pub open spec fn s1(k0: StatId, v0: i32) -> Seq<(StatId, i32)> {
    Seq::<(StatId, i32)>::empty().push((k0, v0))
}

/// A two-entry bump list.
pub open spec fn s2(k0: StatId, v0: i32, k1: StatId, v1: i32) -> Seq<(StatId, i32)> {
    s1(k0, v0).push((k1, v1))
}

/// A three-entry bump list.
pub open spec fn s3(k0: StatId, v0: i32, k1: StatId, v1: i32, k2: StatId, v2: i32) -> Seq<
    (StatId, i32),
> {
    s2(k0, v0, k1, v1).push((k2, v2))
}

fn v1(k0: StatId, v0: i32) -> (r: Vec<(StatId, i32)>)
    ensures
        r@ == s1(k0, v0),
{
    let mut v: Vec<(StatId, i32)> = Vec::new();
    v.push((k0, v0));
    v
}

fn v2(k0: StatId, v0: i32, k1: StatId, v1_: i32) -> (r: Vec<(StatId, i32)>)
    ensures
        r@ == s2(k0, v0, k1, v1_),
{
    let mut v: Vec<(StatId, i32)> = Vec::new();
    v.push((k0, v0));
    v.push((k1, v1_));
    v
}

fn v3(k0: StatId, v0: i32, k1: StatId, v1_: i32, k2: StatId, v2_: i32) -> (r: Vec<(StatId, i32)>)
    ensures
        r@ == s3(k0, v0, k1, v1_, k2, v2_),
{
    let mut v: Vec<(StatId, i32)> = Vec::new();
    v.push((k0, v0));
    v.push((k1, v1_));
    v.push((k2, v2_));
    v
}

/// The charge-rate table of lucent blades, clamped at its last entry.
pub open spec fn lucent_blades_bump(rank: u32) -> i32 {
    if rank == 1 {
        30
    } else if rank == 2 {
        50
    } else {
        60
    }
}

/// The (reload, handling, airborne) table of speedloader slacks, clamped at
/// its last entry.
pub open spec fn speedloader_bumps(rank: u32) -> (i32, i32, i32) {
    if rank == 1 {
        (40, 40, 30)
    } else if rank == 2 {
        (40, 40, 35)
    } else if rank == 3 {
        (45, 45, 40)
    } else if rank == 4 {
        (50, 50, 45)
    } else {
        (55, 55, 50)
    }
}

/// The stat-bump computation registered for `p`: the list of per-stat deltas
/// it grants at `rank` in `ctx`. Perks with no stat-bump registration, and
/// every perk at rank 0, yield the empty list.
pub open spec fn spec_stat_formula(p: PerkId, rank: u32, ctx: Context) -> Seq<(StatId, i32)> {
    if rank == 0 {
        Seq::<(StatId, i32)>::empty()
    } else {
        match p {
            PerkId::LucentBlades => {
                if ctx.weapon_type != WeaponType::Sword {
                    Seq::<(StatId, i32)>::empty()
                } else {
                    s1(StatId::ChargeRate, lucent_blades_bump(rank))
                }
            },
            PerkId::AeonForce => s2(StatId::Reload, 30, StatId::Handling, 40),
            PerkId::TomeOfDawn => s1(StatId::Airborne, 50),
            PerkId::KnuckleheadRadar => s1(StatId::Airborne, 20),
            PerkId::MechaneersTricksleeves => {
                if ctx.weapon_type == WeaponType::Sidearm {
                    s3(StatId::Airborne, 50, StatId::Handling, 100, StatId::Reload, 100)
                } else {
                    Seq::<(StatId, i32)>::empty()
                }
            },
            PerkId::Oathkeeper => {
                if ctx.weapon_type == WeaponType::Bow {
                    s2(StatId::Airborne, 40, StatId::DrawTime, 10)
                } else {
                    Seq::<(StatId, i32)>::empty()
                }
            },
            PerkId::SealedAhamkaraGrasps => s1(StatId::Airborne, 50),
            PerkId::LuckyPants => {
                if ctx.weapon_type == WeaponType::HandCannon {
                    s2(StatId::Airborne, 20, StatId::Handling, 100)
                } else {
                    Seq::<(StatId, i32)>::empty()
                }
            },
            PerkId::NoBackupPlans => {
                if ctx.weapon_type == WeaponType::Shotgun {
                    s1(StatId::Airborne, 30)
                } else {
                    Seq::<(StatId, i32)>::empty()
                }
            },
            PerkId::ActiumWarRig => {
                if ctx.weapon_type == WeaponType::AutoRifle || ctx.weapon_type
                    == WeaponType::MachineGun {
                    s1(StatId::Airborne, 30)
                } else {
                    Seq::<(StatId, i32)>::empty()
                }
            },
            PerkId::HallowfireHeart => s1(StatId::Airborne, 20),
            PerkId::LionRampart => s1(StatId::Airborne, 50),
            PerkId::Peacekeepers => {
                if ctx.weapon_type == WeaponType::SubmachineGun {
                    s2(StatId::Airborne, 40, StatId::Handling, 50)
                } else {
                    Seq::<(StatId, i32)>::empty()
                }
            },
            PerkId::PeregrineGreaves => s1(StatId::Airborne, 20),
            PerkId::EyeOfAnotherWorld => s1(StatId::Airborne, 15),
            PerkId::AstrocyteVerse => s2(StatId::Airborne, 30, StatId::Handling, 100),
            PerkId::NecroticGrips => {
                if ctx.intrinsic_hash == 1863355414 || ctx.intrinsic_hash == 2965975126
                    || ctx.intrinsic_hash == 2724693746 || ctx.intrinsic_hash == 4184462049 {
                    s1(StatId::Airborne, 30)
                } else {
                    Seq::<(StatId, i32)>::empty()
                }
            },
            PerkId::BootsOfTheAssembler => {
                if ctx.intrinsic_hash == 2144092201 {
                    s1(StatId::Airborne, 30)
                } else {
                    Seq::<(StatId, i32)>::empty()
                }
            },
            PerkId::RainOfFire => {
                if ctx.weapon_type == WeaponType::FusionRifle || ctx.weapon_type
                    == WeaponType::LinearFusionRifle {
                    s1(StatId::Airborne, 30)
                } else {
                    Seq::<(StatId, i32)>::empty()
                }
            },
            PerkId::SpeedloaderSlacks => {
                let m = speedloader_bumps(rank);
                s3(StatId::Reload, m.0, StatId::Handling, m.1, StatId::Airborne, m.2)
            },
            PerkId::TritonVice => {
                if ctx.weapon_type == WeaponType::Glaive {
                    s1(StatId::Reload, 50)
                } else {
                    Seq::<(StatId, i32)>::empty()
                }
            },
            _ => Seq::<(StatId, i32)>::empty(),
        }
    }
}

/// Runs the stat-bump computation registered for `p`. Rank 0 is inert.
pub fn stat_formula(p: PerkId, rank: u32, ctx: &Context) -> (r: Vec<(StatId, i32)>)
    ensures
        r@ == spec_stat_formula(p, rank, *ctx),
        rank == 0 ==> r@ == Seq::<(StatId, i32)>::empty(),
{
    if rank == 0 {
        return Vec::new();
    }
    match p {
        PerkId::LucentBlades => {
            if ctx.weapon_type != WeaponType::Sword {
                Vec::new()
            } else {
                let bump: i32 = if rank == 1 {
                    30
                } else if rank == 2 {
                    50
                } else {
                    60
                };
                v1(StatId::ChargeRate, bump)
            }
        },
        PerkId::AeonForce => v2(StatId::Reload, 30, StatId::Handling, 40),
        PerkId::TomeOfDawn => v1(StatId::Airborne, 50),
        PerkId::KnuckleheadRadar => v1(StatId::Airborne, 20),
        PerkId::MechaneersTricksleeves => {
            if ctx.weapon_type == WeaponType::Sidearm {
                v3(StatId::Airborne, 50, StatId::Handling, 100, StatId::Reload, 100)
            } else {
                Vec::new()
            }
        },
        PerkId::Oathkeeper => {
            if ctx.weapon_type == WeaponType::Bow {
                v2(StatId::Airborne, 40, StatId::DrawTime, 10)
            } else {
                Vec::new()
            }
        },
        PerkId::SealedAhamkaraGrasps => v1(StatId::Airborne, 50),
        PerkId::LuckyPants => {
            if ctx.weapon_type == WeaponType::HandCannon {
                v2(StatId::Airborne, 20, StatId::Handling, 100)
            } else {
                Vec::new()
            }
        },
        PerkId::NoBackupPlans => {
            if ctx.weapon_type == WeaponType::Shotgun {
                v1(StatId::Airborne, 30)
            } else {
                Vec::new()
            }
        },
        PerkId::ActiumWarRig => {
            if ctx.weapon_type == WeaponType::AutoRifle || ctx.weapon_type
                == WeaponType::MachineGun {
                v1(StatId::Airborne, 30)
            } else {
                Vec::new()
            }
        },
        PerkId::HallowfireHeart => v1(StatId::Airborne, 20),
        PerkId::LionRampart => v1(StatId::Airborne, 50),
        PerkId::Peacekeepers => {
            if ctx.weapon_type == WeaponType::SubmachineGun {
                v2(StatId::Airborne, 40, StatId::Handling, 50)
            } else {
                Vec::new()
            }
        },
        PerkId::PeregrineGreaves => v1(StatId::Airborne, 20),
        PerkId::EyeOfAnotherWorld => v1(StatId::Airborne, 15),
        PerkId::AstrocyteVerse => v2(StatId::Airborne, 30, StatId::Handling, 100),
        PerkId::NecroticGrips => {
            if ctx.intrinsic_hash == 1863355414 || ctx.intrinsic_hash == 2965975126
                || ctx.intrinsic_hash == 2724693746 || ctx.intrinsic_hash == 4184462049 {
                v1(StatId::Airborne, 30)
            } else {
                Vec::new()
            }
        },
        PerkId::BootsOfTheAssembler => {
            if ctx.intrinsic_hash == 2144092201 {
                v1(StatId::Airborne, 30)
            } else {
                Vec::new()
            }
        },
        PerkId::RainOfFire => {
            if ctx.weapon_type == WeaponType::FusionRifle || ctx.weapon_type
                == WeaponType::LinearFusionRifle {
                v1(StatId::Airborne, 30)
            } else {
                Vec::new()
            }
        },
        PerkId::SpeedloaderSlacks => {
            let reload: i32 = if rank == 1 {
                40
            } else if rank == 2 {
                40
            } else if rank == 3 {
                45
            } else if rank == 4 {
                50
            } else {
                55
            };
            let handling: i32 = reload;
            let airborne: i32 = if rank == 1 {
                30
            } else if rank == 2 {
                35
            } else if rank == 3 {
                40
            } else if rank == 4 {
                45
            } else {
                50
            };
            v3(StatId::Reload, reload, StatId::Handling, handling, StatId::Airborne, airborne)
        },
        PerkId::TritonVice => {
            if ctx.weapon_type == WeaponType::Glaive {
                v1(StatId::Reload, 50)
            } else {
                Vec::new()
            }
        },
        _ => Vec::new(),
    }
}

/// Every stat-bump computation yields at most a few entries, each delta
/// within three digits.
#[verifier::rlimit(60)]
pub proof fn lemma_stat_formula_wf(p: PerkId, rank: u32, ctx: Context)
    ensures
        spec_stat_formula(p, rank, ctx).len() <= 4,
        bumps_bounded(spec_stat_formula(p, rank, ctx)),
{
}

} // verus!
