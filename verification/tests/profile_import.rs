use slicecore_engine::config::{
    BedType, BrimType, GcodeDialect, InfillPattern, InternalBridgeMode, SurfacePattern,
};
use slicecore_engine::profile_import::{
    detect_config_format, map_bed_type, map_brim_type, map_gcode_dialect, map_infill_pattern,
    map_interface_pattern, map_internal_bridge_mode, map_seam_position, map_support_pattern,
    map_support_type, map_surface_pattern, upstream_key_to_config_field, ConfigFormat,
    ProfileMetadata,
};
use slicecore_engine::seam::SeamPosition;
use slicecore_engine::support::config::{InterfacePattern, SupportPattern, SupportType};

#[test]
fn test_detect_format_json() {
    assert_eq!(detect_config_format(b"{}"), ConfigFormat::Json);
    assert_eq!(detect_config_format(b"  {\"type\": \"filament\"}"), ConfigFormat::Json);
    assert_eq!(detect_config_format(b"\xEF\xBB\xBF{\"key\": 1}"), ConfigFormat::Json);
    assert_eq!(detect_config_format(b"\n\t  {\"a\":1}"), ConfigFormat::Json);
}

#[test]
fn test_detect_format_toml() {
    assert_eq!(detect_config_format(b"layer_height = 0.2"), ConfigFormat::Toml);
    assert_eq!(detect_config_format(b"# comment"), ConfigFormat::Toml);
    assert_eq!(detect_config_format(b""), ConfigFormat::Toml);
    assert_eq!(detect_config_format(b"  layer_height = 0.2"), ConfigFormat::Toml);
}

#[test]
fn detect_format_edge_cases() {
    // A BOM alone, or a BOM followed by blanks, is TOML.
    assert_eq!(detect_config_format(b"\xEF\xBB\xBF"), ConfigFormat::Toml);
    assert_eq!(detect_config_format(b"\xEF\xBB\xBF \r\n{"), ConfigFormat::Json);
    // A partial BOM is not skipped.
    assert_eq!(detect_config_format(b"\xEF\xBB{"), ConfigFormat::Toml);
    // A BOM after whitespace is not skipped.
    assert_eq!(detect_config_format(b" \xEF\xBB\xBF{"), ConfigFormat::Toml);
    // Only space, tab, newline and carriage return are skipped.
    assert_eq!(detect_config_format(b"\x0C{"), ConfigFormat::Toml);
    assert_eq!(detect_config_format(b"   "), ConfigFormat::Toml);
}

#[test]
fn test_enum_mapping_infill() {
    assert_eq!(map_infill_pattern("grid"), Some(InfillPattern::Grid));
    assert_eq!(map_infill_pattern("honeycomb"), Some(InfillPattern::Honeycomb));
    assert_eq!(map_infill_pattern("gyroid"), Some(InfillPattern::Gyroid));
    assert_eq!(map_infill_pattern("cubic"), Some(InfillPattern::Cubic));
    assert_eq!(map_infill_pattern("adaptivecubic"), Some(InfillPattern::AdaptiveCubic));
    assert_eq!(map_infill_pattern("lightning"), Some(InfillPattern::Lightning));
    assert_eq!(map_infill_pattern("monotonic"), Some(InfillPattern::Monotonic));
    assert_eq!(map_infill_pattern("zig-zag"), Some(InfillPattern::Rectilinear));
    assert_eq!(map_infill_pattern("rectilinear"), Some(InfillPattern::Rectilinear));
    assert_eq!(map_infill_pattern("line"), Some(InfillPattern::Rectilinear));
    assert_eq!(map_infill_pattern("unknown_pattern"), None);
}

#[test]
fn test_enum_mapping_seam() {
    assert_eq!(map_seam_position("aligned"), Some(SeamPosition::Aligned));
    assert_eq!(map_seam_position("random"), Some(SeamPosition::Random));
    assert_eq!(map_seam_position("rear"), Some(SeamPosition::Rear));
    assert_eq!(map_seam_position("nearest"), Some(SeamPosition::NearestCorner));
    assert_eq!(map_seam_position("unknown"), None);
}

#[test]
fn test_enum_mapping_gcode_dialect() {
    assert_eq!(map_gcode_dialect("marlin"), Some(GcodeDialect::Marlin));
    assert_eq!(map_gcode_dialect("klipper"), Some(GcodeDialect::Klipper));
    assert_eq!(map_gcode_dialect("reprapfirmware"), Some(GcodeDialect::RepRapFirmware));
    assert_eq!(map_gcode_dialect("reprap"), Some(GcodeDialect::RepRapFirmware));
    assert_eq!(map_gcode_dialect("unknown_dialect"), None);
}

#[test]
fn upstream_names_are_case_insensitive() {
    assert_eq!(map_infill_pattern("GYROID"), Some(InfillPattern::Gyroid));
    assert_eq!(map_seam_position("Aligned"), Some(SeamPosition::Aligned));
    assert_eq!(map_gcode_dialect("Klipper"), Some(GcodeDialect::Klipper));
    // Upstream "marlin2" is not a known name (PrusaSlicer's table knows it).
    assert_eq!(map_gcode_dialect("marlin2"), None);
}

#[test]
fn surface_bridge_brim_bed_mappings() {
    assert_eq!(map_surface_pattern("zig-zag"), Some(SurfacePattern::Rectilinear));
    assert_eq!(map_surface_pattern("MonotonicLine"), Some(SurfacePattern::MonotonicLine));
    assert_eq!(map_surface_pattern("monotonic_line"), Some(SurfacePattern::MonotonicLine));
    assert_eq!(map_surface_pattern("hilbertcurve"), Some(SurfacePattern::Hilbert));
    assert_eq!(map_surface_pattern("archimedean"), Some(SurfacePattern::Archimedean));
    assert_eq!(map_surface_pattern("concentric"), Some(SurfacePattern::Concentric));
    assert_eq!(map_surface_pattern("spiral"), None);

    assert_eq!(map_internal_bridge_mode("0"), Some(InternalBridgeMode::Off));
    assert_eq!(map_internal_bridge_mode("Disabled"), Some(InternalBridgeMode::Off));
    assert_eq!(map_internal_bridge_mode("TRUE"), Some(InternalBridgeMode::Auto));
    assert_eq!(map_internal_bridge_mode("2"), Some(InternalBridgeMode::Always));
    assert_eq!(map_internal_bridge_mode("3"), None);

    assert_eq!(map_brim_type("No Brim"), Some(BrimType::NoBrim));
    assert_eq!(map_brim_type("outer_only"), Some(BrimType::Outer));
    assert_eq!(map_brim_type("Inner Only"), Some(BrimType::Inner));
    assert_eq!(map_brim_type("outer and inner"), Some(BrimType::Both));
    assert_eq!(map_brim_type("auto"), None);

    assert_eq!(map_bed_type("Cool Plate"), Some(BedType::CoolPlate));
    assert_eq!(map_bed_type("Engineering Plate"), Some(BedType::EngineeringPlate));
    assert_eq!(map_bed_type("High Temp Plate"), Some(BedType::HighTempPlate));
    assert_eq!(map_bed_type("Textured PEI Plate"), Some(BedType::TexturedPei));
    assert_eq!(map_bed_type("smooth_pei"), Some(BedType::SmoothPei));
    assert_eq!(map_bed_type("satinpei"), Some(BedType::SatinPei));
    assert_eq!(map_bed_type("glass"), None);
}

#[test]
fn support_mappings() {
    assert_eq!(map_support_type("none"), Some(SupportType::NoSupport));
    assert_eq!(map_support_type("0"), Some(SupportType::NoSupport));
    assert_eq!(map_support_type("1"), Some(SupportType::Auto));
    assert_eq!(map_support_type("normal(auto)"), Some(SupportType::Traditional));
    assert_eq!(map_support_type("Snug"), Some(SupportType::Traditional));
    assert_eq!(map_support_type("tree(auto)"), Some(SupportType::Tree));
    assert_eq!(map_support_type("organic"), Some(SupportType::Tree));
    assert_eq!(map_support_type("hybrid"), None);

    assert_eq!(map_support_pattern("default"), Some(SupportPattern::Line));
    assert_eq!(map_support_pattern("rectilinear"), Some(SupportPattern::Rectilinear));
    assert_eq!(map_support_pattern("Grid"), Some(SupportPattern::Grid));
    assert_eq!(map_support_pattern("honeycomb"), Some(SupportPattern::Honeycomb));
    assert_eq!(map_support_pattern("lightning"), Some(SupportPattern::Lightning));
    assert_eq!(map_support_pattern("gyroid"), None);

    assert_eq!(map_interface_pattern("auto"), Some(InterfacePattern::Rectilinear));
    assert_eq!(map_interface_pattern("grid"), Some(InterfacePattern::Grid));
    assert_eq!(map_interface_pattern("Concentric"), Some(InterfacePattern::Concentric));
    assert_eq!(map_interface_pattern("line"), None);
}

#[test]
fn upstream_key_table() {
    assert_eq!(upstream_key_to_config_field("layer_height"), Some("layer_height"));
    assert_eq!(upstream_key_to_config_field("wall_loops"), Some("wall_count"));
    assert_eq!(upstream_key_to_config_field("outer_wall_speed"), Some("speeds.perimeter"));
    assert_eq!(upstream_key_to_config_field("initial_layer_print_height"), Some("first_layer_height"));
    assert_eq!(upstream_key_to_config_field("support_material_pattern"), Some("support.support_pattern"));
    assert_eq!(upstream_key_to_config_field("not_a_key"), None);
    assert_eq!(upstream_key_to_config_field(""), None);
}

#[test]
fn metadata_default_is_empty() {
    let m = ProfileMetadata::default();
    assert!(m.name.is_none() && m.profile_type.is_none() && m.inherits.is_none());
}

#[test]
fn blank_prefix_and_bom_do_not_change_detection() {
    for body in [&b"{}"[..], b"x = 1", b"", b"  {"] {
        let mut blank = vec![b'\t'];
        blank.extend_from_slice(body);
        assert_eq!(detect_config_format(&blank), detect_config_format(body));
        let mut bom = vec![0xEF, 0xBB, 0xBF];
        bom.extend_from_slice(body);
        assert_eq!(detect_config_format(&bom), detect_config_format(body));
    }
}
