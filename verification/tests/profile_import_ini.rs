use slicecore_engine::config::{GcodeDialect, InfillPattern};
use slicecore_engine::field_map::FieldMap;
use slicecore_engine::profile_import_ini::{
    build_section_lookup, first_comma_value, ini_profile_metadata, is_ini_metadata_key, map_gcode_dialect_prusaslicer,
    map_infill_pattern_prusaslicer, map_seam_position_prusaslicer, parse_bool, parse_inherits,
    parse_prusaslicer_ini, parse_section_header, profile_type_for_section,
    prusaslicer_key_to_config_field, resolve_ini_inheritance, SectionLookup,
};
use slicecore_engine::seam::SeamPosition;

#[test]
fn test_parse_multi_section_ini() {
    let ini = "\
[vendor]
name = PrusaResearch
config_version = 1.0.0

[print:*common*]
layer_height = 0.2
perimeters = 2
fill_density = 15%

[print:0.20mm NORMAL]
inherits = *common*
perimeter_speed = 45

[filament:Prusament PLA]
temperature = 215
bed_temperature = 60
filament_density = 1.24
";

    let sections = parse_prusaslicer_ini(ini);
    assert_eq!(sections.len(), 4);

    assert_eq!(sections[0].section_type, "vendor");
    assert_eq!(sections[0].name, "");
    assert!(!sections[0].is_abstract);

    assert_eq!(sections[1].section_type, "print");
    assert_eq!(sections[1].name, "*common*");
    assert!(sections[1].is_abstract);
    assert_eq!(sections[1].fields.get("layer_height").unwrap(), "0.2");
    assert_eq!(sections[1].fields.get("fill_density").unwrap(), "15%");

    assert_eq!(sections[2].section_type, "print");
    assert_eq!(sections[2].name, "0.20mm NORMAL");
    assert!(!sections[2].is_abstract);
    assert_eq!(sections[2].fields.get("inherits").unwrap(), "*common*");

    assert_eq!(sections[3].section_type, "filament");
    assert_eq!(sections[3].name, "Prusament PLA");
    assert!(!sections[3].is_abstract);
    assert_eq!(sections[3].fields.get("temperature").unwrap(), "215");
}

#[test]
fn test_abstract_vs_concrete_detection() {
    let ini = "\
[print:*common*]
layer_height = 0.2

[print:*PLA*]
fill_density = 20%

[print:0.20mm NORMAL]
perimeters = 3

[filament:Prusament PLA @MK4S]
temperature = 215
";

    let sections = parse_prusaslicer_ini(ini);
    assert_eq!(sections.len(), 4);

    assert!(sections[0].is_abstract);
    assert!(sections[1].is_abstract);
    assert!(!sections[2].is_abstract);
    assert!(!sections[3].is_abstract);
}

#[test]
fn test_multi_parent_inheritance() {
    let ini = "\
[print:*base*]
layer_height = 0.2
perimeters = 2
fill_density = 15%
perimeter_speed = 40

[print:*quality*]
perimeters = 3
perimeter_speed = 30

[print:0.20mm QUALITY]
inherits = *base*; *quality*
fill_density = 20%
";

    let sections = parse_prusaslicer_ini(ini);
    let lookup = build_section_lookup(&sections);

    let resolved = resolve_ini_inheritance(&sections[2], &sections, &lookup, 0);

    assert_eq!(resolved.get("layer_height").unwrap(), "0.2");
    assert_eq!(resolved.get("perimeters").unwrap(), "3");
    assert_eq!(resolved.get("perimeter_speed").unwrap(), "30");
    assert_eq!(resolved.get("fill_density").unwrap(), "20%");
}

#[test]
fn test_comment_handling() {
    let ini = "\
# This is a comment
; This is also a comment
[print:test]
## Section comment
layer_height = 0.2
# inline is not a key
perimeters = 3
";

    let sections = parse_prusaslicer_ini(ini);
    assert_eq!(sections.len(), 1);
    assert_eq!(sections[0].name, "test");
    assert_eq!(sections[0].fields.len(), 2);
    assert_eq!(sections[0].fields.get("layer_height").unwrap(), "0.2");
    assert_eq!(sections[0].fields.get("perimeters").unwrap(), "3");
}

#[test]
fn test_gcode_newline_escape_preserved() {
    let ini = "\
[printer:TestPrinter]
start_gcode = G28\\nG1 Z5 F3000\\nG1 X10 Y10
end_gcode = G91\\nG1 E-2 F2700\\nG28 X
";

    let sections = parse_prusaslicer_ini(ini);
    assert_eq!(sections.len(), 1);

    let start = sections[0].fields.get("start_gcode").unwrap();
    assert!(
        start.contains("\\n"),
        "Expected \\n to be preserved in G-code value, got: {}",
        start
    );
    assert_eq!(start, "G28\\nG1 Z5 F3000\\nG1 X10 Y10");

    let end = sections[0].fields.get("end_gcode").unwrap();
    assert!(end.contains("\\n"));
}

#[test]
fn test_inheritance_depth_guard() {
    let ini = "\
[print:*level0*]
layer_height = 0.1

[print:*level1*]
inherits = *level0*
perimeters = 1

[print:*level2*]
inherits = *level1*
perimeters = 2

[print:leaf]
inherits = *level2*
fill_density = 10%
";

    let sections = parse_prusaslicer_ini(ini);
    let lookup = build_section_lookup(&sections);

    let resolved = resolve_ini_inheritance(&sections[3], &sections, &lookup, 0);
    assert_eq!(resolved.get("layer_height").unwrap(), "0.1");
    assert_eq!(resolved.get("perimeters").unwrap(), "2");
    assert_eq!(resolved.get("fill_density").unwrap(), "10%");
}

#[test]
fn test_gcode_flavor_mapping() {
    assert_eq!(map_gcode_dialect_prusaslicer("marlin"), Some(GcodeDialect::Marlin));
    assert_eq!(map_gcode_dialect_prusaslicer("klipper"), Some(GcodeDialect::Klipper));
    assert_eq!(
        map_gcode_dialect_prusaslicer("reprapfirmware"),
        Some(GcodeDialect::RepRapFirmware)
    );
    assert_eq!(map_gcode_dialect_prusaslicer("some_unknown_flavor"), None);
}

#[test]
fn test_infill_pattern_mapping() {
    assert_eq!(map_infill_pattern_prusaslicer("gyroid"), Some(InfillPattern::Gyroid));
    assert_eq!(map_infill_pattern_prusaslicer("cubic"), Some(InfillPattern::Cubic));
    assert_eq!(map_infill_pattern_prusaslicer("honeycomb"), Some(InfillPattern::Honeycomb));
    assert_eq!(map_infill_pattern_prusaslicer("rectilinear"), Some(InfillPattern::Rectilinear));
    assert_eq!(map_infill_pattern_prusaslicer("line"), Some(InfillPattern::Rectilinear));
    assert_eq!(map_infill_pattern_prusaslicer("grid"), Some(InfillPattern::Grid));
    assert_eq!(map_infill_pattern_prusaslicer("lightning"), Some(InfillPattern::Lightning));
}

#[test]
fn test_seam_position_mapping() {
    assert_eq!(map_seam_position_prusaslicer("aligned"), Some(SeamPosition::Aligned));
    assert_eq!(map_seam_position_prusaslicer("random"), Some(SeamPosition::Random));
    assert_eq!(map_seam_position_prusaslicer("nearest"), Some(SeamPosition::NearestCorner));
    assert_eq!(map_seam_position_prusaslicer("rear"), Some(SeamPosition::Rear));
}

#[test]
fn test_prusaslicer_key_to_config_field() {
    assert_eq!(prusaslicer_key_to_config_field("perimeters"), Some("wall_count"));
    assert_eq!(prusaslicer_key_to_config_field("fill_density"), Some("infill_density"));
    assert_eq!(prusaslicer_key_to_config_field("temperature"), Some("nozzle_temp"));
    assert_eq!(prusaslicer_key_to_config_field("retract_lift"), Some("retract_z_hop"));
    assert_eq!(
        prusaslicer_key_to_config_field("retract_before_travel"),
        Some("min_travel_for_retract")
    );
    assert_eq!(prusaslicer_key_to_config_field("unknown_field"), None);
}

#[test]
fn test_parse_bool_helper() {
    assert_eq!(parse_bool("1"), Some(true));
    assert_eq!(parse_bool("0"), Some(false));
    assert_eq!(parse_bool("true"), Some(true));
    assert_eq!(parse_bool("false"), Some(false));
    assert_eq!(parse_bool("maybe"), None);
}

#[test]
fn parse_bool_ignores_surrounding_whitespace() {
    assert_eq!(parse_bool("  1 "), Some(true));
    assert_eq!(parse_bool("\tfalse\n"), Some(false));
    assert_eq!(parse_bool("TRUE"), None);
    assert_eq!(parse_bool(""), None);
}

#[test]
fn key_table_alternative_names() {
    assert_eq!(prusaslicer_key_to_config_field("top_infill_speed"), Some("speeds.top_surface"));
    assert_eq!(prusaslicer_key_to_config_field("top_solid_infill_speed"), Some("speeds.top_surface"));
    assert_eq!(prusaslicer_key_to_config_field("machine_max_feedrate_e"), Some("machine.max_speed_e"));
    assert_eq!(prusaslicer_key_to_config_field("detect_thin_wall"), Some("detect_thin_wall"));
    assert_eq!(prusaslicer_key_to_config_field("elephant_foot_compensation"), Some("elefant_foot_compensation"));
    assert_eq!(prusaslicer_key_to_config_field(""), None);
    assert_eq!(prusaslicer_key_to_config_field("Perimeters"), None);
}

#[test]
fn first_comma_value_takes_first_trimmed() {
    assert_eq!(first_comma_value("0.4,0.6"), "0.4");
    assert_eq!(first_comma_value("  200 , 210"), "200");
    assert_eq!(first_comma_value(" 8 "), "8");
    assert_eq!(first_comma_value(""), "");
    assert_eq!(first_comma_value(",5"), "");
}

#[test]
fn parse_inherits_splits_and_trims() {
    assert_eq!(parse_inherits("*base*; *quality*"), vec!["*base*".to_string(), "*quality*".to_string()]);
    assert_eq!(parse_inherits("a;b"), vec!["a".to_string(), "b".to_string()]);
    assert_eq!(parse_inherits(" ; ;"), Vec::<String>::new());
    assert_eq!(parse_inherits(""), Vec::<String>::new());
    assert_eq!(parse_inherits("single"), vec!["single".to_string()]);
}

#[test]
fn section_header_forms() {
    assert_eq!(parse_section_header("[print:0.20mm]"), Some(("print".to_string(), "0.20mm".to_string())));
    assert_eq!(parse_section_header("[vendor]"), Some(("vendor".to_string(), String::new())));
    assert_eq!(parse_section_header("[a:b:c]"), Some(("a".to_string(), "b:c".to_string())));
    assert_eq!(parse_section_header("[]"), Some((String::new(), String::new())));
    assert_eq!(parse_section_header("["), None);
    assert_eq!(parse_section_header("key = value"), None);
}

#[test]
fn lines_before_first_header_and_bad_lines_are_ignored() {
    let ini = "orphan = 1\n[print:p]\nno equals sign\n = empty key\nk = v\r\nk = w\n[print:*]\n";
    let sections = parse_prusaslicer_ini(ini);
    assert_eq!(sections.len(), 2);
    assert_eq!(sections[0].fields.len(), 1);
    assert_eq!(sections[0].fields.get("k").unwrap(), "w");
    assert!(sections[0].fields.get("orphan").is_none());
    assert_eq!(sections[1].name, "*");
    assert!(!sections[1].is_abstract);
    assert!(parse_prusaslicer_ini("").is_empty());
}

#[test]
fn lookup_prefers_last_duplicate_section() {
    let ini = "[print:a]\nx = 1\n[print:a]\nx = 2\n[filament:a]\nx = 3\n";
    let sections = parse_prusaslicer_ini(ini);
    let lookup = build_section_lookup(&sections);
    assert_eq!(lookup.get("print", "a"), Some(1));
    assert_eq!(lookup.get("filament", "a"), Some(2));
    assert_eq!(lookup.get("printer", "a"), None);
}

#[test]
fn child_overrides_parent_and_inherits_key_dropped() {
    let ini = "[print:*p*]\na = 1\nb = 1\n[print:c]\ninherits = *p*; *missing*\nb = 2\n";
    let sections = parse_prusaslicer_ini(ini);
    let lookup = build_section_lookup(&sections);
    let r = resolve_ini_inheritance(&sections[1], &sections, &lookup, 0);
    assert_eq!(r.get("a").unwrap(), "1");
    assert_eq!(r.get("b").unwrap(), "2");
    assert!(r.get("inherits").is_none());
    assert_eq!(r.len(), 2);
}

#[test]
fn parent_of_other_type_is_not_used() {
    let ini = "[filament:*p*]\na = 1\n[print:c]\ninherits = *p*\nb = 2\n";
    let sections = parse_prusaslicer_ini(ini);
    let lookup = build_section_lookup(&sections);
    let r = resolve_ini_inheritance(&sections[1], &sections, &lookup, 0);
    assert!(r.get("a").is_none());
    assert_eq!(r.len(), 1);
}

#[test]
fn depth_past_limit_returns_own_fields() {
    let ini = "[print:*p*]\na = 1\n[print:c]\ninherits = *p*\nb = 2\n";
    let sections = parse_prusaslicer_ini(ini);
    let lookup = build_section_lookup(&sections);
    let r = resolve_ini_inheritance(&sections[1], &sections, &lookup, 11);
    assert_eq!(r.get("inherits").unwrap(), "*p*");
    assert_eq!(r.get("b").unwrap(), "2");
    assert!(r.get("a").is_none());
}

#[test]
fn circular_inheritance_terminates() {
    let ini = "[print:a]\ninherits = b\nx = a\n[print:b]\ninherits = a\nx = b\ny = b\n";
    let sections = parse_prusaslicer_ini(ini);
    let lookup = build_section_lookup(&sections);
    let r = resolve_ini_inheritance(&sections[0], &sections, &lookup, 0);
    assert_eq!(r.get("x").unwrap(), "a");
    assert_eq!(r.get("y").unwrap(), "b");
    // The section cut off at the depth limit keeps its own `inherits` field,
    // and nothing above it removes that inherited key.
    assert_eq!(r.get("inherits").unwrap(), "a");
}

#[test]
fn manual_lookup_insert_replaces() {
    let mut lk = SectionLookup::new();
    lk.insert("print".to_string(), "a".to_string(), 3);
    lk.insert("print".to_string(), "a".to_string(), 0);
    assert_eq!(lk.get("print", "a"), Some(0));
}

#[test]
fn metadata_of_ini_profile() {
    let mut fields = FieldMap::new();
    fields.insert("inherits".to_string(), "*common*".to_string());
    let m = ini_profile_metadata(&fields, "0.20mm NORMAL", "print");
    assert_eq!(m.name.as_deref(), Some("0.20mm NORMAL"));
    assert_eq!(m.profile_type.as_deref(), Some("process"));
    assert_eq!(m.inherits.as_deref(), Some("*common*"));
    let m = ini_profile_metadata(&FieldMap::new(), "X", "vendor");
    assert_eq!(m.profile_type.as_deref(), Some("vendor"));
    assert!(m.inherits.is_none());
    assert_eq!(profile_type_for_section("printer"), "machine");
    assert_eq!(profile_type_for_section("filament"), "filament");
}

#[test]
fn prusaslicer_names_are_case_insensitive() {
    assert_eq!(map_infill_pattern_prusaslicer("GYROID"), Some(InfillPattern::Gyroid));
    assert_eq!(map_infill_pattern_prusaslicer("AdaptiveCubic"), Some(InfillPattern::AdaptiveCubic));
    assert_eq!(map_infill_pattern_prusaslicer("zig-zag"), None);
    assert_eq!(map_seam_position_prusaslicer("Rear"), Some(SeamPosition::Rear));
    assert_eq!(map_gcode_dialect_prusaslicer("Marlin2"), Some(GcodeDialect::Marlin));
    assert_eq!(map_gcode_dialect_prusaslicer("RepRap"), Some(GcodeDialect::RepRapFirmware));
}

#[test]
fn metadata_keys_are_recognized() {
    for k in [
        "inherits",
        "compatible_printers",
        "compatible_printers_condition",
        "compatible_prints",
        "compatible_prints_condition",
        "renamed_from",
    ] {
        assert!(is_ini_metadata_key(k), "{}", k);
    }
    assert!(!is_ini_metadata_key("layer_height"));
    assert!(!is_ini_metadata_key("Inherits"));
}
