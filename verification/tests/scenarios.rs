//! End-to-end calculations through the registry and the composer, plus the
//! per-formula tables and gates.
use perk_engine::composer::compose;
use perk_engine::context::Context;
use perk_engine::damage::damage_formula;
use perk_engine::ids::{AmmoType, DamageType, OutcomeCategory, PerkId, StatId, WeaponType};
use perk_engine::registry::{build_registry, Registry, RegistryError};
use perk_engine::state::CategoryState;
use perk_engine::stats::stat_formula;
use perk_engine::support::{
    flinch_formula, handling_formula, range_formula, reload_formula,
};

#[test]
fn build_registry_succeeds() {
    assert!(build_registry().is_ok());
}

#[test]
fn registry_rejects_duplicate_registration() {
    let mut reg = Registry::new();
    assert!(reg.register(PerkId::SurgeMod, OutcomeCategory::DamageScale).is_ok());
    let second = reg.register(PerkId::SurgeMod, OutcomeCategory::DamageScale);
    assert_eq!(
        second,
        Err(RegistryError::Duplicate(PerkId::SurgeMod, OutcomeCategory::DamageScale))
    );
    // a different category for the same perk is fine
    assert!(reg.register(PerkId::SurgeMod, OutcomeCategory::Handling).is_ok());
}

#[test]
fn registry_lookup_hit_and_miss() {
    let reg = build_registry().unwrap();
    let hit = reg.lookup(PerkId::SurgeMod, OutcomeCategory::DamageScale);
    assert!(hit.is_some());
    let comp = hit.unwrap();
    assert_eq!(comp.perk, PerkId::SurgeMod);
    assert_eq!(comp.category, OutcomeCategory::DamageScale);
    assert!(reg.lookup(PerkId::SurgeMod, OutcomeCategory::Handling).is_none());
    assert!(reg.lookup(PerkId::ParacausalShot, OutcomeCategory::DamageScale).is_none());
}

#[test]
fn pve_tier_two_surge_yields_exact_factor() {
    let reg = build_registry().unwrap();
    let mut ctx = Context::new(WeaponType::HandCannon, AmmoType::Primary, DamageType::Solar, false);
    ctx.add_perk(PerkId::SurgeMod, 2);
    let b = compose(&reg, &ctx);
    assert_eq!(b.damage.impact.num, 1170);
    assert_eq!(b.damage.impact.den, 1000);
    assert_eq!(b.damage.explosive.num, 1170);
    assert_eq!(b.damage.explosive.den, 1000);
}

#[test]
fn two_surge_perks_stack_once() {
    let reg = build_registry().unwrap();
    let mut ctx = Context::new(WeaponType::HandCannon, AmmoType::Primary, DamageType::Solar, false);
    ctx.add_perk(PerkId::SurgeMod, 2);
    ctx.add_perk(PerkId::EternalWarrior, 2);
    let b = compose(&reg, &ctx);
    // the second grant is subsumed: the combined factor is still exactly 1.17
    assert_eq!(b.damage.impact.num * 1000, 1170 * b.damage.impact.den);
    assert_eq!(b.damage.impact.num, 1170 * 1000);
    assert_eq!(b.damage.impact.den, 1000 * 1000);
}

#[test]
fn pvp_empowering_subsumes_weaker_grant() {
    let reg = build_registry().unwrap();
    let mut ctx = Context::new(WeaponType::HandCannon, AmmoType::Primary, DamageType::Solar, true);
    ctx.add_perk(PerkId::BannerShield, 1);
    ctx.add_perk(PerkId::NobleRounds, 1);
    let b = compose(&reg, &ctx);
    // 1.35 then 1.15: the weaker request returns 1.0, the product is 1.35
    assert_eq!(b.damage.impact.num * 1000, 1350 * b.damage.impact.den);
}

#[test]
fn sidearm_gated_perk_on_bow_is_identity_everywhere() {
    let reg = build_registry().unwrap();
    let mut ctx = Context::new(WeaponType::Bow, AmmoType::Primary, DamageType::Kinetic, false);
    ctx.add_perk(PerkId::MechaneersTricksleeves, 3);
    let b = compose(&reg, &ctx);
    assert_eq!(b.damage.impact.num, b.damage.impact.den);
    assert_eq!(b.damage.explosive.num, b.damage.explosive.den);
    assert_eq!(b.stats.total(StatId::Airborne), 0);
    assert_eq!(b.stats.total(StatId::Handling), 0);
    assert_eq!(b.stats.total(StatId::Reload), 0);
    assert_eq!(b.handling.stat_add, 0);
    assert_eq!(b.handling.draw_add, 0);
    assert_eq!(b.handling.draw_scale.num, b.handling.draw_scale.den);
    assert_eq!(b.reload.reload_stat_add, 0);
    assert_eq!(b.reload.reload_time_scale.num, b.reload.reload_time_scale.den);
}

#[test]
fn surge_and_debuff_compose_by_multiplication() {
    let reg = build_registry().unwrap();
    let mut ctx = Context::new(WeaponType::HandCannon, AmmoType::Primary, DamageType::Solar, false);
    ctx.add_perk(PerkId::SurgeMod, 2);
    ctx.add_perk(PerkId::Weaken, 1);
    let b = compose(&reg, &ctx);
    // 1.17 * 1.15 = 1.3455 exactly
    assert_eq!(b.damage.impact.num * 10000, 13455 * b.damage.impact.den);
}

#[test]
fn stat_bumps_accumulate_across_perks() {
    let reg = build_registry().unwrap();
    let mut ctx = Context::new(WeaponType::HandCannon, AmmoType::Primary, DamageType::Solar, false);
    ctx.add_perk(PerkId::TomeOfDawn, 1);
    ctx.add_perk(PerkId::KnuckleheadRadar, 1);
    let b = compose(&reg, &ctx);
    assert_eq!(b.stats.total(StatId::Airborne), 70);
    assert_eq!(b.stats.total(StatId::Handling), 0);
}

#[test]
fn umbral_sharpening_clamps_to_table_end() {
    let reg = build_registry().unwrap();
    let mut ctx = Context::new(WeaponType::HandCannon, AmmoType::Primary, DamageType::Void, false);
    ctx.add_perk(PerkId::UmbralSharpening, 9);
    let b = compose(&reg, &ctx);
    assert_eq!(b.damage.impact.num, 1400);
    assert_eq!(b.damage.impact.den, 1000);
}

#[test]
fn scanner_augment_uses_exact_table_value() {
    let reg = build_registry().unwrap();
    let mut ctx = Context::new(WeaponType::HandCannon, AmmoType::Primary, DamageType::Void, false);
    ctx.add_perk(PerkId::EnhancedScannerAugment, 3);
    let b = compose(&reg, &ctx);
    assert_eq!(b.damage.impact.num, 1193);
    assert_eq!(b.damage.impact.den, 1000);
}

#[test]
fn lucky_pants_scales_with_clamped_rank() {
    let reg = build_registry().unwrap();
    let mut ctx = Context::new(
        WeaponType::HandCannon,
        AmmoType::Primary,
        DamageType::Kinetic,
        false,
    );
    ctx.add_perk(PerkId::LuckyPants, 20);
    let b = compose(&reg, &ctx);
    // 1.0 + 0.45 per stack, clamped at ten stacks; impact only
    assert_eq!(b.damage.impact.num, 5500);
    assert_eq!(b.damage.impact.den, 1000);
    assert_eq!(b.damage.explosive.num, b.damage.explosive.den);
}

#[test]
fn lucky_pants_special_ammo_rate() {
    let reg = build_registry().unwrap();
    let mut ctx = Context::new(
        WeaponType::HandCannon,
        AmmoType::Special,
        DamageType::Kinetic,
        false,
    );
    ctx.add_perk(PerkId::LuckyPants, 2);
    let b = compose(&reg, &ctx);
    // 1.0 + 0.3 * 2
    assert_eq!(b.damage.impact.num, 1600);
    assert_eq!(b.damage.impact.den, 1000);
}

#[test]
fn lucky_pants_suppressed_by_cross_perk() {
    let reg = build_registry().unwrap();
    let mut ctx = Context::new(
        WeaponType::HandCannon,
        AmmoType::Primary,
        DamageType::Kinetic,
        false,
    );
    ctx.add_perk(PerkId::LuckyPants, 5);
    ctx.add_perk(PerkId::ParacausalShot, 1);
    let b = compose(&reg, &ctx);
    assert_eq!(b.damage.impact.num, b.damage.impact.den);
}

#[test]
fn knucklehead_radar_low_health_buff() {
    let reg = build_registry().unwrap();
    let mut ctx = Context::new(WeaponType::HandCannon, AmmoType::Primary, DamageType::Solar, false);
    ctx.health = 100;
    ctx.add_perk(PerkId::KnuckleheadRadar, 1);
    let b = compose(&reg, &ctx);
    // 1.0 + (0.3 - 0.1)
    assert_eq!(b.damage.impact.num, 1200);
    assert_eq!(b.damage.impact.den, 1000);
}

#[test]
fn knucklehead_radar_full_health_is_identity() {
    let reg = build_registry().unwrap();
    let mut ctx = Context::new(WeaponType::HandCannon, AmmoType::Primary, DamageType::Solar, false);
    ctx.add_perk(PerkId::KnuckleheadRadar, 1);
    let b = compose(&reg, &ctx);
    assert_eq!(b.damage.impact.num, b.damage.impact.den);
}

#[test]
fn tome_of_dawn_reduces_flinch() {
    let reg = build_registry().unwrap();
    let mut ctx = Context::new(WeaponType::HandCannon, AmmoType::Primary, DamageType::Solar, false);
    ctx.add_perk(PerkId::TomeOfDawn, 1);
    let b = compose(&reg, &ctx);
    assert_eq!(b.flinch.flinch_scale.num, 800);
    assert_eq!(b.flinch.flinch_scale.den, 1000);
    assert_eq!(b.stats.total(StatId::Airborne), 50);
}

#[test]
fn lunafaction_second_tier_doubles_range() {
    let reg = build_registry().unwrap();
    let mut ctx = Context::new(WeaponType::HandCannon, AmmoType::Primary, DamageType::Solar, false);
    ctx.add_perk(PerkId::LunaFaction, 2);
    let b = compose(&reg, &ctx);
    assert_eq!(b.range.range_all_scale.num, 2000);
    assert_eq!(b.range.range_all_scale.den, 1000);
    assert_eq!(b.reload.reload_stat_add, 100);
    assert_eq!(b.reload.reload_time_scale.num, 900);
    assert_eq!(b.reload.reload_time_scale.den, 1000);
}

#[test]
fn lunafaction_first_tier_leaves_range_alone() {
    let reg = build_registry().unwrap();
    let mut ctx = Context::new(WeaponType::HandCannon, AmmoType::Primary, DamageType::Solar, false);
    ctx.add_perk(PerkId::LunaFaction, 1);
    let b = compose(&reg, &ctx);
    assert_eq!(b.range.range_all_scale.num, b.range.range_all_scale.den);
    assert_eq!(b.reload.reload_stat_add, 100);
}

#[test]
fn speedloader_slacks_tables() {
    let reg = build_registry().unwrap();
    let mut ctx = Context::new(WeaponType::HandCannon, AmmoType::Primary, DamageType::Solar, false);
    ctx.add_perk(PerkId::SpeedloaderSlacks, 2);
    let b = compose(&reg, &ctx);
    assert_eq!(b.reload.reload_stat_add, 40);
    assert_eq!(b.reload.reload_time_scale.num, 925);
    assert_eq!(b.reload.reload_time_scale.den, 1000);
    assert_eq!(b.handling.stat_add, 40);
    assert_eq!(b.stats.total(StatId::Reload), 40);
    assert_eq!(b.stats.total(StatId::Handling), 40);
    assert_eq!(b.stats.total(StatId::Airborne), 35);
}

#[test]
fn aeon_force_grants_reload_handling_and_bumps() {
    let reg = build_registry().unwrap();
    let mut ctx = Context::new(WeaponType::HandCannon, AmmoType::Primary, DamageType::Solar, false);
    ctx.add_perk(PerkId::AeonForce, 1);
    let b = compose(&reg, &ctx);
    assert_eq!(b.reload.reload_stat_add, 30);
    assert_eq!(b.reload.reload_time_scale.num, 850);
    assert_eq!(b.handling.stat_add, 40);
    assert_eq!(b.stats.total(StatId::Reload), 30);
    assert_eq!(b.stats.total(StatId::Handling), 40);
}

#[test]
fn tractor_cannon_debuff_differs_by_mode() {
    let reg = build_registry().unwrap();
    let mut pve = Context::new(WeaponType::HandCannon, AmmoType::Primary, DamageType::Void, false);
    pve.add_perk(PerkId::TractorCannon, 1);
    let b = compose(&reg, &pve);
    assert_eq!(b.damage.impact.num, 1300);
    let mut pvp = Context::new(WeaponType::HandCannon, AmmoType::Primary, DamageType::Void, true);
    pvp.add_perk(PerkId::TractorCannon, 1);
    let b2 = compose(&reg, &pvp);
    assert_eq!(b2.damage.impact.num, 1500);
}

#[test]
fn burning_fists_table_and_pvp_column() {
    let reg = build_registry().unwrap();
    let mut pve = Context::new(WeaponType::Sword, AmmoType::Heavy, DamageType::Arc, false);
    pve.add_perk(PerkId::BurningFists, 5);
    let b = compose(&reg, &pve);
    assert_eq!(b.damage.impact.num, 1350);
    let mut pvp = Context::new(WeaponType::Sword, AmmoType::Heavy, DamageType::Arc, true);
    pvp.add_perk(PerkId::BurningFists, 2);
    let b2 = compose(&reg, &pvp);
    assert_eq!(b2.damage.impact.num, b2.damage.impact.den);
}

#[test]
fn path_of_the_burning_steps_requires_solar() {
    let reg = build_registry().unwrap();
    let mut solar = Context::new(WeaponType::HandCannon, AmmoType::Primary, DamageType::Solar, false);
    solar.add_perk(PerkId::PathOfTheBurningSteps, 2);
    let b = compose(&reg, &solar);
    assert_eq!(b.damage.impact.num, 1170);
    let mut arc = Context::new(WeaponType::HandCannon, AmmoType::Primary, DamageType::Arc, false);
    arc.add_perk(PerkId::PathOfTheBurningSteps, 2);
    let b2 = compose(&reg, &arc);
    assert_eq!(b2.damage.impact.num, b2.damage.impact.den);
}

#[test]
fn composing_no_perks_yields_identity_bundle() {
    let reg = build_registry().unwrap();
    let ctx = Context::new(WeaponType::HandCannon, AmmoType::Primary, DamageType::Solar, false);
    let b = compose(&reg, &ctx);
    assert_eq!(b.damage.impact.num, 1);
    assert_eq!(b.damage.impact.den, 1);
    assert_eq!(b.stats.total(StatId::Airborne), 0);
    assert_eq!(b.handling.stat_add, 0);
    assert_eq!(b.flinch.flinch_scale.num, 1);
    assert!(!b.reload_override.valid);
    assert_eq!(b.extra_damage.times_to_hit, 0);
    assert_eq!(b.refund.refund_mag, 0);
}

#[test]
fn rank_zero_is_inert_for_every_category() {
    let ctx = Context::new(WeaponType::Sidearm, AmmoType::Primary, DamageType::Solar, false);
    let sample = [
        PerkId::WellOfRadiance,
        PerkId::SurgeMod,
        PerkId::Weaken,
        PerkId::MechaneersTricksleeves,
        PerkId::SpeedloaderSlacks,
        PerkId::TomeOfDawn,
        PerkId::LunaFaction,
        PerkId::LuckyPants,
        PerkId::AeonForce,
        PerkId::KnuckleheadRadar,
    ];
    for p in sample.iter() {
        let mut st = CategoryState::new();
        let before = st;
        let d = damage_formula(*p, 0, &ctx, &mut st);
        assert_eq!(d.impact.num, d.impact.den);
        assert_eq!(d.explosive.num, d.explosive.den);
        assert_eq!(st, before);
        assert!(stat_formula(*p, 0, &ctx).is_empty());
        let h = handling_formula(*p, 0, &ctx);
        assert_eq!(h.stat_add, 0);
        assert_eq!(h.draw_add, 0);
        let rl = reload_formula(*p, 0, &ctx);
        assert_eq!(rl.reload_stat_add, 0);
        let rg = range_formula(*p, 0, &ctx);
        assert_eq!(rg.range_stat_add, 0);
        let fl = flinch_formula(*p, 0, &ctx);
        assert_eq!(fl.flinch_scale.num, fl.flinch_scale.den);
    }
}

#[test]
fn radiant_marks_the_state_and_buffs() {
    let ctx = Context::new(WeaponType::HandCannon, AmmoType::Primary, DamageType::Solar, false);
    let mut st = CategoryState::new();
    let d = damage_formula(PerkId::Radiant, 1, &ctx, &mut st);
    assert_eq!(d.impact.num, 1200);
    assert_eq!(d.impact.den, 1000);
    assert!(st.radiant);
    assert_eq!(st.empowering, 1200);
}

#[test]
fn gyrfalcon_grants_nothing_in_pvp() {
    let reg = build_registry().unwrap();
    let mut ctx = Context::new(WeaponType::HandCannon, AmmoType::Primary, DamageType::Void, true);
    ctx.add_perk(PerkId::Gyrfalcon, 1);
    let b = compose(&reg, &ctx);
    assert_eq!(b.damage.impact.num, b.damage.impact.den);
}

#[test]
fn add_perk_keeps_the_first_entry() {
    let mut ctx = Context::new(WeaponType::HandCannon, AmmoType::Primary, DamageType::Solar, false);
    assert!(ctx.add_perk(PerkId::SurgeMod, 2));
    assert!(!ctx.add_perk(PerkId::SurgeMod, 5));
    assert_eq!(ctx.get_rank(PerkId::SurgeMod), 2);
    assert_eq!(ctx.get_rank(PerkId::Weaken), 0);
}

#[test]
fn empowering_chain_telescopes_to_strongest() {
    let reg = build_registry().unwrap();
    let mut ctx = Context::new(WeaponType::HandCannon, AmmoType::Primary, DamageType::Solar, false);
    // 1.25 first, then 1.40: the second grant owes only 1.40 / 1.25, so the
    // product is exactly 1.40 despite the non-trivial intermediate ratio
    ctx.add_perk(PerkId::UmbralSharpening, 1);
    ctx.add_perk(PerkId::BannerShield, 1);
    let b = compose(&reg, &ctx);
    assert_eq!(b.damage.impact.num, 1250 * 1400);
    assert_eq!(b.damage.impact.den, 1000 * 1250);
    assert_eq!(b.damage.impact.num * 1000, 1400 * b.damage.impact.den);
}

#[test]
fn doom_fang_needs_void_and_uses_its_rank() {
    let reg = build_registry().unwrap();
    let mut void = Context::new(WeaponType::HandCannon, AmmoType::Primary, DamageType::Void, false);
    void.add_perk(PerkId::DoomFang, 3);
    let b = compose(&reg, &void);
    assert_eq!(b.damage.impact.num, 1220);
    assert_eq!(b.damage.impact.den, 1000);
    let mut solar = Context::new(WeaponType::HandCannon, AmmoType::Primary, DamageType::Solar, false);
    solar.add_perk(PerkId::DoomFang, 3);
    let b2 = compose(&reg, &solar);
    assert_eq!(b2.damage.impact.num, b2.damage.impact.den);
}

#[test]
fn mask_of_bakris_gates_on_damage_type() {
    let reg = build_registry().unwrap();
    let mut arc = Context::new(WeaponType::HandCannon, AmmoType::Primary, DamageType::Arc, false);
    arc.add_perk(PerkId::MaskOfBakris, 1);
    let b = compose(&reg, &arc);
    assert_eq!(b.damage.impact.num, 1250);
    let mut solar = Context::new(WeaponType::HandCannon, AmmoType::Primary, DamageType::Solar, false);
    solar.add_perk(PerkId::MaskOfBakris, 1);
    let b2 = compose(&reg, &solar);
    assert_eq!(b2.damage.impact.num, b2.damage.impact.den);
}
