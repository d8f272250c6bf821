//! Setting values that imported profiles map onto.
//!
//! Each enum lists the choices a print setting can take; the profile
//! importers translate the vendor names of these choices into them.

use vstd::prelude::*;

verus! {

/// Top/bottom surface fill pattern.
#[derive(Debug, Clone, Copy, PartialEq, Eq, Structural)]
pub enum SurfacePattern {
    /// Parallel lines alternating direction.
    Rectilinear,
    /// Lines printed in one direction only.
    Monotonic,
    /// Monotonic lines joined into a single path.
    MonotonicLine,
    /// Rings following the outline.
    Concentric,
    /// Hilbert space-filling curve.
    Hilbert,
    /// Archimedean chords.
    Archimedean,
}

/// Build plate surface.
#[derive(Debug, Clone, Copy, PartialEq, Eq, Structural)]
pub enum BedType {
    /// Cool plate.
    CoolPlate,
    /// Engineering plate.
    EngineeringPlate,
    /// High-temperature plate.
    HighTempPlate,
    /// Textured PEI sheet.
    TexturedPei,
    /// Smooth PEI sheet.
    SmoothPei,
    /// Satin PEI sheet.
    SatinPei,
}

/// Internal bridge detection mode.
#[derive(Debug, Clone, Copy, PartialEq, Eq, Structural)]
pub enum InternalBridgeMode {
    /// Never print internal bridges.
    Off,
    /// Print internal bridges where detected.
    Auto,
    /// Always print internal bridges.
    Always,
}

/// Where a brim is placed.
#[derive(Debug, Clone, Copy, PartialEq, Eq, Structural)]
pub enum BrimType {
    /// No brim.
    NoBrim,
    /// Brim around the outside only.
    Outer,
    /// Brim inside holes only.
    Inner,
    /// Brim both outside and inside.
    Both,
}

/// Sparse infill pattern.
#[derive(Debug, Clone, Copy, PartialEq, Eq, Structural)]
pub enum InfillPattern {
    /// Parallel lines alternating direction per layer.
    Rectilinear,
    /// Crossing lines on every layer.
    Grid,
    /// Hexagonal cells.
    Honeycomb,
    /// Gyroid surface.
    Gyroid,
    /// Cubic cells.
    Cubic,
    /// Cubic cells that grow coarser away from surfaces.
    AdaptiveCubic,
    /// Tree-like infill that only supports top surfaces.
    Lightning,
    /// Lines printed in one direction only.
    Monotonic,
}

/// G-code flavor of the printer firmware.
#[derive(Debug, Clone, Copy, PartialEq, Eq, Structural)]
pub enum GcodeDialect {
    /// Marlin firmware.
    Marlin,
    /// Klipper firmware.
    Klipper,
    /// RepRapFirmware.
    RepRapFirmware,
}

} // verus!
