//! Print statistics: feature classification, naming and time display.

use vstd::prelude::*;
use crate::text::{decimal, push_digits, push_padded, string_from_chars, zero_pad};

verus! {

/// The kind of extrusion or motion a toolpath segment performs.
#[derive(Debug, Clone, Copy, PartialEq, Eq, Hash, Structural)]
pub enum FeatureType {
    /// Outermost perimeter.
    OuterPerimeter,
    /// Inner perimeters.
    InnerPerimeter,
    /// Perimeter with varying extrusion width.
    VariableWidthPerimeter,
    /// Sparse interior infill.
    SparseInfill,
    /// Solid interior infill.
    SolidInfill,
    /// Solid infill of top surfaces.
    TopSolidInfill,
    /// Bridge extrusion over empty space.
    Bridge,
    /// Gap fill between perimeters.
    GapFill,
    /// Ironing pass over top surfaces.
    Ironing,
    /// Support body.
    Support,
    /// Support interface layers.
    SupportInterface,
    /// Purge (wipe) tower.
    PurgeTower,
    /// Skirt around the print.
    Skirt,
    /// Brim attached to the print.
    Brim,
    /// Non-extruding travel move.
    Travel,
}

/// Display name and machine key of each feature.
pub open spec fn feature_names(feature: FeatureType) -> (Seq<char>, Seq<char>) {
    match feature {
        FeatureType::OuterPerimeter => ("Outer wall"@, "outer_wall"@),
        FeatureType::InnerPerimeter => ("Inner wall"@, "inner_wall"@),
        FeatureType::SolidInfill => ("Internal solid infill"@, "internal_solid_infill"@),
        FeatureType::TopSolidInfill => ("Top solid infill"@, "top_solid_infill"@),
        FeatureType::SparseInfill => ("Sparse infill"@, "sparse_infill"@),
        FeatureType::Skirt => ("Skirt"@, "skirt"@),
        FeatureType::Brim => ("Brim"@, "brim"@),
        FeatureType::GapFill => ("Gap infill"@, "gap_infill"@),
        FeatureType::VariableWidthPerimeter => ("Variable width wall"@, "variable_width_wall"@),
        FeatureType::Support => ("Support"@, "support"@),
        FeatureType::SupportInterface => ("Support interface"@, "support_interface"@),
        FeatureType::Bridge => ("Bridge"@, "bridge"@),
        FeatureType::Ironing => ("Ironing"@, "ironing"@),
        FeatureType::PurgeTower => ("Purge tower"@, "purge_tower"@),
        FeatureType::Travel => ("Travel"@, "travel"@),
    }
}

/// Returns the (display name, machine key) of a feature type.
pub fn feature_display_name(feature: FeatureType) -> (r: (&'static str, &'static str))
    ensures
        (r.0@, r.1@) == feature_names(feature),
{
    match feature {
        FeatureType::OuterPerimeter => ("Outer wall", "outer_wall"),
        FeatureType::InnerPerimeter => ("Inner wall", "inner_wall"),
        FeatureType::SolidInfill => ("Internal solid infill", "internal_solid_infill"),
        FeatureType::TopSolidInfill => ("Top solid infill", "top_solid_infill"),
        FeatureType::SparseInfill => ("Sparse infill", "sparse_infill"),
        FeatureType::Skirt => ("Skirt", "skirt"),
        FeatureType::Brim => ("Brim", "brim"),
        FeatureType::GapFill => ("Gap infill", "gap_infill"),
        FeatureType::VariableWidthPerimeter => ("Variable width wall", "variable_width_wall"),
        FeatureType::Support => ("Support", "support"),
        FeatureType::SupportInterface => ("Support interface", "support_interface"),
        FeatureType::Bridge => ("Bridge", "bridge"),
        FeatureType::Ironing => ("Ironing", "ironing"),
        FeatureType::PurgeTower => ("Purge tower", "purge_tower"),
        FeatureType::Travel => ("Travel", "travel"),
    }
}

/// The default logical print sequence of the features.
pub open spec fn feature_order() -> Seq<FeatureType> {
    seq![
        FeatureType::OuterPerimeter,
        FeatureType::InnerPerimeter,
        FeatureType::VariableWidthPerimeter,
        FeatureType::SparseInfill,
        FeatureType::SolidInfill,
        FeatureType::TopSolidInfill,
        FeatureType::Bridge,
        FeatureType::GapFill,
        FeatureType::Ironing,
        FeatureType::Support,
        FeatureType::SupportInterface,
        FeatureType::PurgeTower,
        FeatureType::Skirt,
        FeatureType::Brim,
        FeatureType::Travel,
    ]
}

/// Returns features in the default logical print sequence order.
pub fn default_feature_order() -> (r: Vec<FeatureType>)
    ensures
        r@ == feature_order(),
{
    let r = vec![
        FeatureType::OuterPerimeter,
        FeatureType::InnerPerimeter,
        FeatureType::VariableWidthPerimeter,
        FeatureType::SparseInfill,
        FeatureType::SolidInfill,
        FeatureType::TopSolidInfill,
        FeatureType::Bridge,
        FeatureType::GapFill,
        FeatureType::Ironing,
        FeatureType::Support,
        FeatureType::SupportInterface,
        FeatureType::PurgeTower,
        FeatureType::Skirt,
        FeatureType::Brim,
        FeatureType::Travel,
    ];
    assert(r@ =~= feature_order());
    r
}

/// The default order lists every feature type exactly once.
pub proof fn lemma_feature_order_complete(f: FeatureType)
    ensures
        feature_order().contains(f),
        feature_order().no_duplicates(),
        feature_order().len() == 15,
{
    let o = feature_order();
    match f {
        FeatureType::OuterPerimeter => assert(o[0] == f),
        FeatureType::InnerPerimeter => assert(o[1] == f),
        FeatureType::VariableWidthPerimeter => assert(o[2] == f),
        FeatureType::SparseInfill => assert(o[3] == f),
        FeatureType::SolidInfill => assert(o[4] == f),
        FeatureType::TopSolidInfill => assert(o[5] == f),
        FeatureType::Bridge => assert(o[6] == f),
        FeatureType::GapFill => assert(o[7] == f),
        FeatureType::Ironing => assert(o[8] == f),
        FeatureType::Support => assert(o[9] == f),
        FeatureType::SupportInterface => assert(o[10] == f),
        FeatureType::PurgeTower => assert(o[11] == f),
        FeatureType::Skirt => assert(o[12] == f),
        FeatureType::Brim => assert(o[13] == f),
        FeatureType::Travel => assert(o[14] == f),
    }
}

/// The machine-key character of a display-name character: ASCII capitals
/// lowered, spaces as underscores, anything else kept.
pub open spec fn key_char(c: char) -> char {
    if 'A' <= c && c <= 'Z' {
        ((c as int) + 32) as char
    } else if c == ' ' {
        '_'
    } else {
        c
    }
}

/// The snake-case machine key of a display name.
pub open spec fn key_of_name(name: Seq<char>) -> Seq<char> {
    name.map_values(|c: char| key_char(c))
}

/// Every feature has a non-empty display name; its machine key is the
/// snake-case form of that name, and different features have different keys.
pub proof fn lemma_feature_names(f: FeatureType, g: FeatureType)
    ensures
        feature_names(f).0.len() > 0,
        feature_names(f).1 == key_of_name(feature_names(f).0),
        f != g ==> feature_names(f).1 != feature_names(g).1,
{
    reveal_strlit("Outer wall");
    reveal_strlit("outer_wall");
    reveal_strlit("Inner wall");
    reveal_strlit("inner_wall");
    reveal_strlit("Internal solid infill");
    reveal_strlit("internal_solid_infill");
    reveal_strlit("Top solid infill");
    reveal_strlit("top_solid_infill");
    reveal_strlit("Sparse infill");
    reveal_strlit("sparse_infill");
    reveal_strlit("Skirt");
    reveal_strlit("skirt");
    reveal_strlit("Brim");
    reveal_strlit("brim");
    reveal_strlit("Gap infill");
    reveal_strlit("gap_infill");
    reveal_strlit("Variable width wall");
    reveal_strlit("variable_width_wall");
    reveal_strlit("Support");
    reveal_strlit("support");
    reveal_strlit("Support interface");
    reveal_strlit("support_interface");
    reveal_strlit("Bridge");
    reveal_strlit("bridge");
    reveal_strlit("Ironing");
    reveal_strlit("ironing");
    reveal_strlit("Purge tower");
    reveal_strlit("purge_tower");
    reveal_strlit("Travel");
    reveal_strlit("travel");
    assert(feature_names(f).1 =~= key_of_name(feature_names(f).0));
    if f != g && feature_names(f).1 == feature_names(g).1 {
        let kf = feature_names(f).1;
        let kg = feature_names(g).1;
        assert(kf.len() == kg.len() && kf[0] == kg[0]);
        match f {
            FeatureType::OuterPerimeter => {},
            FeatureType::InnerPerimeter => {},
            FeatureType::VariableWidthPerimeter => {},
            FeatureType::SparseInfill => {},
            FeatureType::SolidInfill => {},
            FeatureType::TopSolidInfill => {},
            FeatureType::Bridge => {},
            FeatureType::GapFill => {},
            FeatureType::Ironing => {},
            FeatureType::Support => {},
            FeatureType::SupportInterface => {},
            FeatureType::PurgeTower => {},
            FeatureType::Skirt => {},
            FeatureType::Brim => {},
            FeatureType::Travel => {},
        }
    }
}

/// Support, support interface and purge tower are the support features.
pub open spec fn is_support(feature: FeatureType) -> bool {
    feature == FeatureType::Support || feature == FeatureType::SupportInterface || feature
        == FeatureType::PurgeTower
}

/// Returns true if the feature is a support-related feature (for subtotaling).
pub fn is_support_feature(feature: FeatureType) -> (r: bool)
    ensures
        r == is_support(feature),
{
    match feature {
        FeatureType::Support | FeatureType::SupportInterface | FeatureType::PurgeTower => true,
        _ => false,
    }
}

/// Configurable time display precision for statistics output.
#[derive(Debug, Clone, Copy, PartialEq, Eq, Structural)]
pub enum TimePrecision {
    /// Display time in whole seconds.
    Seconds,
    /// Display time with one decimal place (deciseconds).
    Deciseconds,
    /// Display time with three decimal places (milliseconds).
    Milliseconds,
}

/// Configurable sort order for per-feature statistics display.
#[derive(Debug, Clone, Copy, PartialEq, Eq, Structural)]
pub enum StatsSortOrder {
    /// Default logical print sequence order.
    Default,
    /// Sort by time descending (highest first).
    TimeDesc,
    /// Sort by filament usage descending (highest first).
    FilamentDesc,
    /// Sort alphabetically by feature display name.
    Alphabetical,
}

/// `H:MM:SS` when there is at least an hour, else `M:SS`.
pub open spec fn duration_text(total: nat) -> Seq<char> {
    let hours = total / 3600;
    let mins = (total % 3600) / 60;
    let secs = total % 60;
    if hours > 0 {
        decimal(hours) + seq![':'] + zero_pad(decimal(mins), 2) + seq![':'] + zero_pad(
            decimal(secs),
            2,
        )
    } else {
        decimal(mins) + seq![':'] + zero_pad(decimal(secs), 2)
    }
}

/// Formats a whole number of seconds as `H:MM:SS` (or `M:SS` under an hour).
pub fn format_duration_secs(total_secs: u64) -> (r: String)
    ensures
        r@ == duration_text(total_secs as nat),
{
    let hours = total_secs / 3600;
    let mins = (total_secs % 3600) / 60;
    let secs = total_secs % 60;
    let mut v: Vec<char> = Vec::new();
    if hours > 0 {
        push_digits(&mut v, hours);
        v.push(':');
        push_padded(&mut v, mins, 2);
        v.push(':');
        push_padded(&mut v, secs, 2);
    } else {
        push_digits(&mut v, mins);
        v.push(':');
        push_padded(&mut v, secs, 2);
    }
    assert(v@ =~= duration_text(total_secs as nat));
    string_from_chars(v.as_slice())
}

} // verus!
