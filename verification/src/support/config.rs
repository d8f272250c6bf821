//! Support generation settings.

use vstd::prelude::*;

verus! {

/// Which kind of support structure is generated.
#[derive(Debug, Clone, Copy, PartialEq, Eq, Structural)]
pub enum SupportType {
    /// Automatically select between traditional and tree based on geometry.
    Auto,
    /// Column-based support with configurable pattern fill.
    Traditional,
    /// Tree-branching support for minimal contact area.
    Tree,
    /// Explicitly disable support (overrides the enabled flag).
    NoSupport,
}

impl Default for SupportType {
    fn default() -> (r: Self)
        ensures
            r == SupportType::Auto,
    {
        SupportType::Auto
    }
}

/// Fill pattern for the support body (non-interface layers).
#[derive(Debug, Clone, Copy, PartialEq, Eq, Structural)]
pub enum SupportPattern {
    /// Grid pattern (perpendicular crossing lines).
    Grid,
    /// Single-direction lines (easier to remove).
    Line,
    /// Alternating-angle rectilinear fill.
    Rectilinear,
    /// Hexagonal cells.
    Honeycomb,
    /// Sparse tree-like fill.
    Lightning,
}

impl Default for SupportPattern {
    fn default() -> (r: Self)
        ensures
            r == SupportPattern::Line,
    {
        SupportPattern::Line
    }
}

/// Fill pattern for support interface layers (contact surfaces).
#[derive(Debug, Clone, Copy, PartialEq, Eq, Structural)]
pub enum InterfacePattern {
    /// Alternating-angle rectilinear (default, good surface quality).
    Rectilinear,
    /// Concentric rings following the support boundary.
    Concentric,
    /// Grid pattern for maximum coverage.
    Grid,
}

impl Default for InterfacePattern {
    fn default() -> (r: Self)
        ensures
            r == InterfacePattern::Rectilinear,
    {
        InterfacePattern::Rectilinear
    }
}

/// Tree support branch growth style.
#[derive(Debug, Clone, Copy, PartialEq, Eq, Structural)]
pub enum TreeBranchStyle {
    /// Automatically select between organic and geometric based on model.
    Auto,
    /// Smooth, curved branches (better aesthetics, harder to remove).
    Organic,
    /// Straight, angular branches (easier to remove, faster to generate).
    Geometric,
}

impl Default for TreeBranchStyle {
    fn default() -> (r: Self)
        ensures
            r == TreeBranchStyle::Auto,
    {
        TreeBranchStyle::Auto
    }
}

/// Taper method for tree support trunks: how the trunk diameter decreases
/// from base to tip.
#[derive(Debug, Clone, Copy, PartialEq, Eq, Structural)]
pub enum TaperMethod {
    /// Automatically select taper method (defaults to linear).
    Auto,
    /// Linear diameter reduction from base to tip.
    Linear,
    /// Exponential diameter reduction (faster narrowing near tip).
    Exponential,
    /// Load-based taper considering supported weight distribution.
    LoadBased,
}

impl Default for TaperMethod {
    fn default() -> (r: Self)
        ensures
            r == TaperMethod::Auto,
    {
        TaperMethod::Auto
    }
}

/// Quality preset that adjusts several support parameters at once.
#[derive(Debug, Clone, Copy, PartialEq, Eq, Structural)]
pub enum QualityPreset {
    /// Fast removal: lower density, fewer interface layers, larger gaps.
    Low,
    /// Balanced defaults.
    Medium,
    /// Maximum surface quality: higher density, more interface layers.
    High,
}

/// Strategy for resolving conflicting support configuration values.
#[derive(Debug, Clone, Copy, PartialEq, Eq, Structural)]
pub enum ConflictResolution {
    /// Warn when conflicting settings are detected (default).
    WarnOnConflict,
    /// Automatically merge conflicting settings using priority rules.
    SmartMerge,
}

impl Default for ConflictResolution {
    fn default() -> (r: Self)
        ensures
            r == ConflictResolution::WarnOnConflict,
    {
        ConflictResolution::WarnOnConflict
    }
}

} // verus!
