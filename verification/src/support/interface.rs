//! Support interface settings per material.

use vstd::prelude::*;

verus! {

/// 3D printing material type for material-specific support defaults.
#[derive(Debug, Clone, Copy, PartialEq, Eq, Structural)]
pub enum Material {
    /// PLA (Polylactic Acid), the most common FDM material.
    Pla,
    /// PETG (Polyethylene Terephthalate Glycol), strong and flexible.
    Petg,
    /// ABS (Acrylonitrile Butadiene Styrene), heat-resistant.
    Abs,
    /// TPU (Thermoplastic Polyurethane), flexible.
    Tpu,
    /// Nylon (Polyamide), strong and durable.
    Nylon,
    /// Generic material with conservative defaults.
    Generic,
}

/// Provider of material-specific default gap values for support structures.
pub struct MaterialDefaults;

} // verus!
