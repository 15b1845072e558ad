//! The registrations contributed by the buff- and debuff-perk set: which
//! (perk, outcome category) pairs of that set carry a computation.
use vstd::prelude::*;

use crate::ids::{OutcomeCategory, PerkId};

verus! {

/// The (perk, category) pairs the buff-perk set registers, in registration
/// order.
pub open spec fn buff_perk_entries() -> Seq<(PerkId, OutcomeCategory)> {
    Seq::<(PerkId, OutcomeCategory)>::empty().push(
        (PerkId::WellOfRadiance, OutcomeCategory::DamageScale),
    ).push((PerkId::NobleRounds, OutcomeCategory::DamageScale)).push(
        (PerkId::Radiant, OutcomeCategory::DamageScale),
    ).push((PerkId::PathOfTheBurningSteps, OutcomeCategory::DamageScale)).push(
        (PerkId::BannerShield, OutcomeCategory::DamageScale),
    ).push((PerkId::EmpRift, OutcomeCategory::DamageScale)).push(
        (PerkId::WardOfDawn, OutcomeCategory::DamageScale),
    ).push((PerkId::Gyrfalcon, OutcomeCategory::DamageScale)).push(
        (PerkId::AeonInsight, OutcomeCategory::DamageScale),
    ).push((PerkId::UmbralSharpening, OutcomeCategory::DamageScale)).push(
        (PerkId::WormByproduct, OutcomeCategory::DamageScale),
    ).push((PerkId::Weaken, OutcomeCategory::DamageScale)).push(
        (PerkId::TractorCannon, OutcomeCategory::DamageScale),
    ).push((PerkId::MoebiusQuiver, OutcomeCategory::DamageScale)).push(
        (PerkId::DeadFall, OutcomeCategory::DamageScale),
    ).push((PerkId::Felwinters, OutcomeCategory::DamageScale)).push(
        (PerkId::EnhancedScannerAugment, OutcomeCategory::DamageScale),
    ).push((PerkId::SurgeMod, OutcomeCategory::DamageScale)).push(
        (PerkId::LucentBlades, OutcomeCategory::StatBump),
    ).push((PerkId::EternalWarrior, OutcomeCategory::DamageScale)).push(
        (PerkId::MantleOfBattleHarmony, OutcomeCategory::DamageScale),
    ).push((PerkId::MaskOfBakris, OutcomeCategory::DamageScale)).push(
        (PerkId::SanguineAlchemy, OutcomeCategory::DamageScale),
    ).push((PerkId::Foetracers, OutcomeCategory::DamageScale)).push(
        (PerkId::GlacialGuard, OutcomeCategory::DamageScale),
    ).push((PerkId::NoBackupPlans, OutcomeCategory::DamageScale)).push(
        (PerkId::AeonForce, OutcomeCategory::Reload),
    ).push((PerkId::AeonForce, OutcomeCategory::StatBump)).push(
        (PerkId::AeonForce, OutcomeCategory::Handling),
    ).push((PerkId::DoomFang, OutcomeCategory::DamageScale)).push(
        (PerkId::BurningFists, OutcomeCategory::DamageScale),
    )
}

/// The buff- and debuff-perk registrations, ready to be folded into the
/// registry by its builder.
pub fn buff_perks() -> (r: Vec<(PerkId, OutcomeCategory)>)
    ensures
        r@ == buff_perk_entries(),
{
    let mut v: Vec<(PerkId, OutcomeCategory)> = Vec::new();
    v.push((PerkId::WellOfRadiance, OutcomeCategory::DamageScale));
    v.push((PerkId::NobleRounds, OutcomeCategory::DamageScale));
    v.push((PerkId::Radiant, OutcomeCategory::DamageScale));
    v.push((PerkId::PathOfTheBurningSteps, OutcomeCategory::DamageScale));
    v.push((PerkId::BannerShield, OutcomeCategory::DamageScale));
    v.push((PerkId::EmpRift, OutcomeCategory::DamageScale));
    v.push((PerkId::WardOfDawn, OutcomeCategory::DamageScale));
    v.push((PerkId::Gyrfalcon, OutcomeCategory::DamageScale));
    v.push((PerkId::AeonInsight, OutcomeCategory::DamageScale));
    v.push((PerkId::UmbralSharpening, OutcomeCategory::DamageScale));
    v.push((PerkId::WormByproduct, OutcomeCategory::DamageScale));
    v.push((PerkId::Weaken, OutcomeCategory::DamageScale));
    v.push((PerkId::TractorCannon, OutcomeCategory::DamageScale));
    v.push((PerkId::MoebiusQuiver, OutcomeCategory::DamageScale));
    v.push((PerkId::DeadFall, OutcomeCategory::DamageScale));
    v.push((PerkId::Felwinters, OutcomeCategory::DamageScale));
    v.push((PerkId::EnhancedScannerAugment, OutcomeCategory::DamageScale));
    v.push((PerkId::SurgeMod, OutcomeCategory::DamageScale));
    v.push((PerkId::LucentBlades, OutcomeCategory::StatBump));
    v.push((PerkId::EternalWarrior, OutcomeCategory::DamageScale));
    v.push((PerkId::MantleOfBattleHarmony, OutcomeCategory::DamageScale));
    v.push((PerkId::MaskOfBakris, OutcomeCategory::DamageScale));
    v.push((PerkId::SanguineAlchemy, OutcomeCategory::DamageScale));
    v.push((PerkId::Foetracers, OutcomeCategory::DamageScale));
    v.push((PerkId::GlacialGuard, OutcomeCategory::DamageScale));
    v.push((PerkId::NoBackupPlans, OutcomeCategory::DamageScale));
    v.push((PerkId::AeonForce, OutcomeCategory::Reload));
    v.push((PerkId::AeonForce, OutcomeCategory::StatBump));
    v.push((PerkId::AeonForce, OutcomeCategory::Handling));
    v.push((PerkId::DoomFang, OutcomeCategory::DamageScale));
    v.push((PerkId::BurningFists, OutcomeCategory::DamageScale));
    v
}

} // verus!
