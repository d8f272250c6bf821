//! Manual support overrides: enforcer and blocker volumes.

use vstd::prelude::*;

verus! {

/// Geometric shape of a volume modifier.
#[derive(Debug, Clone, Copy, PartialEq, Structural)]
pub enum VolumeShape {
    /// Axis-aligned box (width x depth x height).
    Box,
    /// Vertical cylinder (radius x radius x height).
    Cylinder,
    /// Sphere (radius x radius x radius).
    Sphere,
}

/// Role of an override modifier: an enforcer adds support, a blocker removes it.
#[derive(Debug, Clone, Copy, PartialEq, Eq, Structural)]
pub enum OverrideRole {
    /// Adds support in the specified region.
    Enforcer,
    /// Removes support from the specified region.
    Blocker,
}

} // verus!
