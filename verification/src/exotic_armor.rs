//! The registrations contributed by the exotic-armor set: which (perk,
//! outcome category) pairs of that set carry a computation.
use vstd::prelude::*;

use crate::ids::{OutcomeCategory, PerkId};

verus! {

/// The (perk, category) pairs the exotic-armor set registers, in
/// registration order.
pub open spec fn exotic_armor_entries() -> Seq<(PerkId, OutcomeCategory)> {
    Seq::<(PerkId, OutcomeCategory)>::empty().push(
        (PerkId::BallindorseWrathweavers, OutcomeCategory::DamageScale),
    ).push((PerkId::LuckyPants, OutcomeCategory::DamageScale)).push(
        (PerkId::TomeOfDawn, OutcomeCategory::StatBump),
    ).push((PerkId::TomeOfDawn, OutcomeCategory::Flinch)).push(
        (PerkId::KnuckleheadRadar, OutcomeCategory::StatBump),
    ).push((PerkId::KnuckleheadRadar, OutcomeCategory::DamageScale)).push(
        (PerkId::MechaneersTricksleeves, OutcomeCategory::StatBump),
    ).push((PerkId::MechaneersTricksleeves, OutcomeCategory::Handling)).push(
        (PerkId::MechaneersTricksleeves, OutcomeCategory::Reload),
    ).push((PerkId::MechaneersTricksleeves, OutcomeCategory::DamageScale)).push(
        (PerkId::Oathkeeper, OutcomeCategory::StatBump),
    ).push((PerkId::SealedAhamkaraGrasps, OutcomeCategory::StatBump)).push(
        (PerkId::SealedAhamkaraGrasps, OutcomeCategory::DamageScale),
    ).push((PerkId::LuckyPants, OutcomeCategory::StatBump)).push(
        (PerkId::LuckyPants, OutcomeCategory::Handling),
    ).push((PerkId::NoBackupPlans, OutcomeCategory::StatBump)).push(
        (PerkId::ActiumWarRig, OutcomeCategory::StatBump),
    ).push((PerkId::HallowfireHeart, OutcomeCategory::StatBump)).push(
        (PerkId::LionRampart, OutcomeCategory::StatBump),
    ).push((PerkId::Peacekeepers, OutcomeCategory::StatBump)).push(
        (PerkId::Peacekeepers, OutcomeCategory::Handling),
    ).push((PerkId::PeregrineGreaves, OutcomeCategory::StatBump)).push(
        (PerkId::EyeOfAnotherWorld, OutcomeCategory::StatBump),
    ).push((PerkId::AstrocyteVerse, OutcomeCategory::StatBump)).push(
        (PerkId::AstrocyteVerse, OutcomeCategory::Handling),
    ).push((PerkId::NecroticGrips, OutcomeCategory::StatBump)).push(
        (PerkId::BootsOfTheAssembler, OutcomeCategory::StatBump),
    ).push((PerkId::RainOfFire, OutcomeCategory::StatBump)).push(
        (PerkId::SpeedloaderSlacks, OutcomeCategory::StatBump),
    ).push((PerkId::SpeedloaderSlacks, OutcomeCategory::Handling)).push(
        (PerkId::SpeedloaderSlacks, OutcomeCategory::Reload),
    ).push((PerkId::LunaFaction, OutcomeCategory::StatBump)).push(
        (PerkId::LunaFaction, OutcomeCategory::Reload),
    ).push((PerkId::LunaFaction, OutcomeCategory::Range)).push(
        (PerkId::TritonVice, OutcomeCategory::StatBump),
    )
}

/// The exotic-armor registrations, ready to be folded into the registry by
/// its builder.
pub fn exotic_armor() -> (r: Vec<(PerkId, OutcomeCategory)>)
    ensures
        r@ == exotic_armor_entries(),
{
    let mut v: Vec<(PerkId, OutcomeCategory)> = Vec::new();
    v.push((PerkId::BallindorseWrathweavers, OutcomeCategory::DamageScale));
    v.push((PerkId::LuckyPants, OutcomeCategory::DamageScale));
    v.push((PerkId::TomeOfDawn, OutcomeCategory::StatBump));
    v.push((PerkId::TomeOfDawn, OutcomeCategory::Flinch));
    v.push((PerkId::KnuckleheadRadar, OutcomeCategory::StatBump));
    v.push((PerkId::KnuckleheadRadar, OutcomeCategory::DamageScale));
    v.push((PerkId::MechaneersTricksleeves, OutcomeCategory::StatBump));
    v.push((PerkId::MechaneersTricksleeves, OutcomeCategory::Handling));
    v.push((PerkId::MechaneersTricksleeves, OutcomeCategory::Reload));
    v.push((PerkId::MechaneersTricksleeves, OutcomeCategory::DamageScale));
    v.push((PerkId::Oathkeeper, OutcomeCategory::StatBump));
    v.push((PerkId::SealedAhamkaraGrasps, OutcomeCategory::StatBump));
    v.push((PerkId::SealedAhamkaraGrasps, OutcomeCategory::DamageScale));
    v.push((PerkId::LuckyPants, OutcomeCategory::StatBump));
    v.push((PerkId::LuckyPants, OutcomeCategory::Handling));
    v.push((PerkId::NoBackupPlans, OutcomeCategory::StatBump));
    v.push((PerkId::ActiumWarRig, OutcomeCategory::StatBump));
    v.push((PerkId::HallowfireHeart, OutcomeCategory::StatBump));
    v.push((PerkId::LionRampart, OutcomeCategory::StatBump));
    v.push((PerkId::Peacekeepers, OutcomeCategory::StatBump));
    v.push((PerkId::Peacekeepers, OutcomeCategory::Handling));
    v.push((PerkId::PeregrineGreaves, OutcomeCategory::StatBump));
    v.push((PerkId::EyeOfAnotherWorld, OutcomeCategory::StatBump));
    v.push((PerkId::AstrocyteVerse, OutcomeCategory::StatBump));
    v.push((PerkId::AstrocyteVerse, OutcomeCategory::Handling));
    v.push((PerkId::NecroticGrips, OutcomeCategory::StatBump));
    v.push((PerkId::BootsOfTheAssembler, OutcomeCategory::StatBump));
    v.push((PerkId::RainOfFire, OutcomeCategory::StatBump));
    v.push((PerkId::SpeedloaderSlacks, OutcomeCategory::StatBump));
    v.push((PerkId::SpeedloaderSlacks, OutcomeCategory::Handling));
    v.push((PerkId::SpeedloaderSlacks, OutcomeCategory::Reload));
    v.push((PerkId::LunaFaction, OutcomeCategory::StatBump));
    v.push((PerkId::LunaFaction, OutcomeCategory::Reload));
    v.push((PerkId::LunaFaction, OutcomeCategory::Range));
    v.push((PerkId::TritonVice, OutcomeCategory::StatBump));
    v
}

} // verus!
