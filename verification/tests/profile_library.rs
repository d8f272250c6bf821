use slicecore_engine::profile_import_ini::parse_prusaslicer_ini;
use slicecore_engine::profile_library::{index_entry_id, index_entry_path, is_convertible_ini_section, is_instantiated};
use slicecore_engine::profile_library::{
    entries_to_keep, merge_field_lists, extract_material_from_name, extract_printer_model, extract_quality_from_name,
    layer_height_text_from_name, material_in_uppercase, nozzle_size_text_from_name,
    quality_in_lowercase, sanitize_filename,
};

fn parse_number(text: Option<String>) -> Option<f64> {
    text.and_then(|t| t.parse::<f64>().ok())
}

#[test]
fn test_sanitize_filename() {
    assert_eq!(sanitize_filename("Bambu PLA Basic @BBL A1"), "Bambu_PLA_Basic_BBL_A1");
    assert_eq!(sanitize_filename("Generic (PLA) Profile"), "Generic_PLA_Profile");
    assert_eq!(sanitize_filename("Profile/SubName"), "Profile_SubName");
    assert_eq!(sanitize_filename("simple"), "simple");
}

#[test]
fn test_sanitize_filename_with_ampersands() {
    assert_eq!(
        sanitize_filename("Original Prusa i3 MK3S && MK3S+"),
        "Original_Prusa_i3_MK3S__and__MK3S+"
    );
    assert_eq!(sanitize_filename("MK3.9 && MK3.9+"), "MK3.9__and__MK3.9+");
    assert_eq!(sanitize_filename("A & B"), "A_&_B");
}

#[test]
fn sanitize_filename_edge_cases() {
    assert_eq!(sanitize_filename(""), "");
    assert_eq!(sanitize_filename("&&&"), "_and_&");
    assert_eq!(sanitize_filename("&&&&"), "_and__and_");
    assert_eq!(sanitize_filename("@()"), "");
    assert_eq!(sanitize_filename("é/ü"), "é_ü");
}

#[test]
fn test_extract_material() {
    assert_eq!(extract_material_from_name("Bambu PLA Basic @BBL A1"), Some("PLA".to_string()));
    assert_eq!(extract_material_from_name("Generic PETG"), Some("PETG".to_string()));
    assert_eq!(extract_material_from_name("Bambu PLA-CF @BBL X1C"), Some("PLA-CF".to_string()));
    assert_eq!(extract_material_from_name("Generic ABS @BBL X1C"), Some("ABS".to_string()));
    assert_eq!(extract_material_from_name("Some Unknown Material"), None);
    assert_eq!(extract_material_from_name("Bambu TPU 95A @BBL A1"), Some("TPU".to_string()));
}

#[test]
fn material_matching_ignores_case_and_prefers_longer_names() {
    assert_eq!(extract_material_from_name("generic petg-cf"), Some("PETG-CF".to_string()));
    assert_eq!(extract_material_from_name("my pla+ spool"), Some("PLA+".to_string()));
    assert_eq!(material_in_uppercase("PA-CF"), Some("PA-CF".to_string()));
    assert_eq!(material_in_uppercase("HIPS"), Some("HIPS".to_string()));
    assert_eq!(material_in_uppercase("pla"), None);
}

#[test]
fn test_extract_layer_height() {
    assert_eq!(parse_number(layer_height_text_from_name("0.20mm Standard")), Some(0.20));
    assert_eq!(parse_number(layer_height_text_from_name("0.08mm Extra Fine @BBL X1C")), Some(0.08));
    assert_eq!(parse_number(layer_height_text_from_name("0.28mm Initial")), Some(0.28));
    assert_eq!(parse_number(layer_height_text_from_name("Standard Profile")), None);
}

#[test]
fn layer_height_text_edge_cases() {
    assert_eq!(layer_height_text_from_name("  0.12mm"), Some("0.12".to_string()));
    assert_eq!(layer_height_text_from_name("mm only"), None);
    assert_eq!(layer_height_text_from_name("Fine 0.1 mm"), None);
    assert_eq!(layer_height_text_from_name("x1.2.3mm"), Some("1.2.3".to_string()));
}

#[test]
fn test_extract_nozzle_size() {
    assert_eq!(parse_number(nozzle_size_text_from_name("0.4 nozzle")), Some(0.4));
    assert_eq!(parse_number(nozzle_size_text_from_name("Profile for 0.6 nozzle @BBL X1C")), Some(0.6));
    assert_eq!(parse_number(nozzle_size_text_from_name("no nozzle info")), None);
}

#[test]
fn nozzle_size_text_is_case_insensitive() {
    assert_eq!(nozzle_size_text_from_name("0.25 NOZZLE"), Some("0.25".to_string()));
    assert_eq!(nozzle_size_text_from_name("0.8Nozzle"), Some("0.8".to_string()));
    assert_eq!(nozzle_size_text_from_name("0.4"), None);
}

#[test]
fn test_extract_quality() {
    assert_eq!(extract_quality_from_name("0.20mm Standard @BBL X1C"), Some("Standard".to_string()));
    assert_eq!(extract_quality_from_name("0.08mm Extra Fine"), Some("Extra Fine".to_string()));
    assert_eq!(extract_quality_from_name("0.30mm Draft"), Some("Draft".to_string()));
    assert_eq!(extract_quality_from_name("0.40mm Super Draft"), Some("Super Draft".to_string()));
    assert_eq!(extract_quality_from_name("0.12mm Fine"), Some("Fine".to_string()));
    assert_eq!(extract_quality_from_name("Generic PLA"), None);
}

#[test]
fn test_extract_quality_prusaslicer_terms() {
    assert_eq!(extract_quality_from_name("0.05mm ULTRADETAIL @0.25 nozzle"), Some("Ultra Detail".to_string()));
    assert_eq!(extract_quality_from_name("0.10mm DETAIL @MK4S"), Some("Detail".to_string()));
    assert_eq!(extract_quality_from_name("0.15mm OPTIMAL @MK4S"), Some("Optimal".to_string()));
    assert_eq!(extract_quality_from_name("0.20mm NORMAL"), Some("Normal".to_string()));
    assert_eq!(extract_quality_from_name("0.30mm SPEED @MK4S"), Some("Speed".to_string()));
    assert_eq!(extract_quality_from_name("0.35mm FAST"), Some("Fast".to_string()));
    assert_eq!(extract_quality_from_name("ULTRADETAIL profile"), Some("Ultra Detail".to_string()));
}

#[test]
fn quality_of_lowercase_text() {
    assert_eq!(quality_in_lowercase("high quality"), Some("High Quality".to_string()));
    assert_eq!(quality_in_lowercase("HIGH QUALITY"), None);
}

#[test]
fn test_extract_printer_model() {
    assert_eq!(extract_printer_model("Bambu ABS @BBL X1C"), Some("BBL X1C".to_string()));
    assert_eq!(extract_printer_model("Generic PLA @Creality K1"), Some("Creality K1".to_string()));
    assert_eq!(extract_printer_model("Generic PLA"), None);
}

#[test]
fn printer_model_edge_cases() {
    assert_eq!(extract_printer_model("Name @   "), None);
    assert_eq!(extract_printer_model("a@b@c"), Some("b@c".to_string()));
    assert_eq!(extract_printer_model("@X"), Some("X".to_string()));
}

#[test]
fn merged_field_lists_keep_order_and_skip_duplicates() {
    let base = vec!["a".to_string(), "b".to_string()];
    let extra = vec!["b".to_string(), "c".to_string(), "c".to_string(), "a".to_string(), "d".to_string()];
    assert_eq!(
        merge_field_lists(base, &extra),
        vec!["a".to_string(), "b".to_string(), "c".to_string(), "d".to_string()]
    );
    assert_eq!(merge_field_lists(Vec::new(), &[]), Vec::<String>::new());
}

#[test]
fn sanitized_names_hold_no_unsafe_characters() {
    for name in ["a b/c@d(e)f", "  @@ ", "(x) && (y)", "plain"] {
        let s = sanitize_filename(name);
        assert!(!s.contains(|c: char| c == ' ' || c == '/' || c == '@' || c == '(' || c == ')'), "{}", s);
    }
}

#[test]
fn merged_index_keeps_entries_with_fresh_ids() {
    let existing = vec!["a".to_string(), "b".to_string(), "c".to_string()];
    let new_ids = vec!["b".to_string(), "d".to_string()];
    assert_eq!(entries_to_keep(&existing, &new_ids), vec![0, 2]);
    assert_eq!(entries_to_keep(&existing, &[]), vec![0, 1, 2]);
    assert_eq!(entries_to_keep(&[], &new_ids), Vec::<usize>::new());
}

#[test]
fn index_entry_ids_and_paths() {
    assert_eq!(
        index_entry_id("orcaslicer", "BBL", "filament", "Bambu PLA Basic @BBL A1"),
        "orcaslicer/BBL/filament/Bambu_PLA_Basic_BBL_A1"
    );
    assert_eq!(
        index_entry_path("prusaslicer", "Prusa", "process", "0.20mm NORMAL"),
        "prusaslicer/Prusa/process/0.20mm_NORMAL.toml"
    );
    assert!(is_instantiated(Some("true")));
    assert!(!is_instantiated(Some("false")));
    assert!(!is_instantiated(Some("True")));
    assert!(!is_instantiated(None));
}

#[test]
fn convertible_ini_sections() {
    let ini = "[vendor]\n[print:*common*]\n[print:0.20mm]\n[filament:PLA]\n[printer:MK4]\n[printer_model:MK4]\n[print:]\n";
    let s = parse_prusaslicer_ini(ini);
    let flags: Vec<bool> = s.iter().map(is_convertible_ini_section).collect();
    assert_eq!(flags, vec![false, false, true, true, true, false, false]);
}
