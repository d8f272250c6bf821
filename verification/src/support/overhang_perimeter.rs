//! Overhang tiers of perimeters and their cooling adjustments.

use vstd::prelude::*;

verus! {

/// Severity tier of a perimeter overhang, by its angle from vertical.
#[derive(Debug, Clone, Copy, PartialEq, Eq, Structural)]
pub enum OverhangTier {
    /// No overhang or negligible (0-22.5 degrees from vertical): no adjustment.
    NoOverhang,
    /// Mild overhang (22.5-45 degrees): fan at least 70%.
    Mild,
    /// Moderate overhang (45-67.5 degrees): fan at least 86%.
    Moderate,
    /// Steep overhang (67.5-90 degrees): fan 100%.
    Steep,
    /// Severe overhang (near bridge territory): fan 100%.
    Severe,
}

/// The fan speed used on a perimeter of the given tier.
pub open spec fn fan_for_tier(tier: OverhangTier, base_fan: u8) -> u8 {
    match tier {
        OverhangTier::NoOverhang => base_fan,
        OverhangTier::Mild => if base_fan >= 180 { base_fan } else { 180 },
        OverhangTier::Moderate => if base_fan >= 220 { base_fan } else { 220 },
        OverhangTier::Steep => 255,
        OverhangTier::Severe => 255,
    }
}

/// Returns the fan speed (0-255) for an overhang tier: at least the tier's
/// minimum, never below the base speed.
pub fn overhang_fan_override(tier: OverhangTier, base_fan: u8) -> (r: u8)
    ensures
        r == fan_for_tier(tier, base_fan),
{
    match tier {
        OverhangTier::NoOverhang => base_fan,
        OverhangTier::Mild => if base_fan >= 180 { base_fan } else { 180 },
        OverhangTier::Moderate => if base_fan >= 220 { base_fan } else { 220 },
        OverhangTier::Steep => 255,
        OverhangTier::Severe => 255,
    }
}

/// The order of tiers by severity.
pub open spec fn tier_rank(tier: OverhangTier) -> int {
    match tier {
        OverhangTier::NoOverhang => 0,
        OverhangTier::Mild => 1,
        OverhangTier::Moderate => 2,
        OverhangTier::Steep => 3,
        OverhangTier::Severe => 4,
    }
}

/// The fan override never lowers the fan, and a more severe tier never gets
/// less fan than a milder one.
pub proof fn lemma_fan_override_monotone(a: OverhangTier, b: OverhangTier, base_fan: u8)
    ensures
        fan_for_tier(a, base_fan) >= base_fan,
        tier_rank(a) <= tier_rank(b) ==> fan_for_tier(a, base_fan) <= fan_for_tier(b, base_fan),
{
}

} // verus!
