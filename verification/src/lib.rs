//! A verified perk-modifier registry and buff-stacking resolution engine.
//!
//! For one in-game weapon configuration, the engine computes the net
//! multiplicative and additive effect of every active perk on a fixed set of
//! outcome categories (damage scaling, stat bumps, handling, reload, range,
//! firing cadence, flinch, and override categories). Its core is the
//! ratchet-based stacking resolution that keeps mutually-exclusive buff
//! families from over- or under-counting when several same-family effects
//! occur in one calculation pass.

pub mod buff_perks;
pub mod composer;
pub mod context;
pub mod damage;
pub mod exotic_armor;
pub mod ids;
pub mod modifiers;
pub mod registry;
pub mod scale;
pub mod state;
pub mod stats;
pub mod support;
