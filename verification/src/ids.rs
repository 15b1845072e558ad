//! Closed identifier sets: perks, outcome categories, buff families, and the
//! read-only flavour tags (weapon, ammo, damage type) that computations gate on.
use vstd::prelude::*;

verus! {

/// One named game effect (buff, debuff, or exotic-armor trait) that can be
/// active at an integer rank. The catalogue is game data, supplied whole.
#[derive(Clone, Copy, Debug, PartialEq, Eq, Structural)]
pub enum PerkId {
    WellOfRadiance,
    NobleRounds,
    Radiant,
    PathOfTheBurningSteps,
    BannerShield,
    EmpRift,
    WardOfDawn,
    Gyrfalcon,
    AeonInsight,
    UmbralSharpening,
    WormByproduct,
    Weaken,
    TractorCannon,
    MoebiusQuiver,
    DeadFall,
    Felwinters,
    EnhancedScannerAugment,
    SurgeMod,
    LucentBlades,
    EternalWarrior,
    MantleOfBattleHarmony,
    MaskOfBakris,
    SanguineAlchemy,
    Foetracers,
    GlacialGuard,
    NoBackupPlans,
    AeonForce,
    DoomFang,
    BurningFists,
    BallindorseWrathweavers,
    LuckyPants,
    TomeOfDawn,
    KnuckleheadRadar,
    MechaneersTricksleeves,
    Oathkeeper,
    SealedAhamkaraGrasps,
    ActiumWarRig,
    HallowfireHeart,
    LionRampart,
    Peacekeepers,
    PeregrineGreaves,
    EyeOfAnotherWorld,
    AstrocyteVerse,
    NecroticGrips,
    BootsOfTheAssembler,
    RainOfFire,
    SpeedloaderSlacks,
    LunaFaction,
    TritonVice,
    ParacausalShot,
    StormAndStress,
}

/// The fixed, closed set of measurable outcome kinds a perk can modify.
#[derive(Clone, Copy, Debug, PartialEq, Eq, Structural)]
pub enum OutcomeCategory {
    DamageScale,
    StatBump,
    Handling,
    Reload,
    Range,
    Firing,
    Flinch,
    ExtraDamage,
    Refund,
    ReloadOverride,
}

/// The closed set of mutually-exclusive buff families whose strongest member
/// wins within one calculation.
#[derive(Clone, Copy, Debug, PartialEq, Eq, Structural)]
pub enum BuffFamily {
    Empowering,
    Surge,
    Debuff,
}

/// Stat identifiers that stat-bump computations add deltas to.
#[derive(Clone, Copy, Debug, PartialEq, Eq, Structural)]
pub enum StatId {
    Airborne,
    Handling,
    Reload,
    DrawTime,
    ChargeRate,
}

/// Weapon archetypes that computations gate on.
#[derive(Clone, Copy, Debug, PartialEq, Eq, Structural)]
pub enum WeaponType {
    AutoRifle,
    Bow,
    FusionRifle,
    Glaive,
    GrenadeLauncher,
    HandCannon,
    LinearFusionRifle,
    MachineGun,
    PulseRifle,
    RocketLauncher,
    ScoutRifle,
    Shotgun,
    Sidearm,
    SniperRifle,
    SubmachineGun,
    Sword,
    TraceRifle,
}

/// Ammo classes that computations gate on.
#[derive(Clone, Copy, Debug, PartialEq, Eq, Structural)]
pub enum AmmoType {
    Primary,
    Special,
    Heavy,
}

/// Damage elements that computations gate on.
#[derive(Clone, Copy, Debug, PartialEq, Eq, Structural)]
pub enum DamageType {
    Kinetic,
    Arc,
    Solar,
    Void,
    Stasis,
    Strand,
}

} // verus!
