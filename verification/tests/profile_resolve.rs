use slicecore_engine::profile_resolve::{
    compute_checksum, extract_profile_type, format_hint, profile_inherits, format_suggestions, hex_lower, is_path_query, mismatch_hint,
    parent_reference, select_matches, unique_exact_match, ParentReference, ProfileError,
    ProfileSource, SearchCandidate,
};

fn candidate(keys: &[&str], name: &str, available: bool) -> SearchCandidate {
    SearchCandidate {
        exact_keys: keys.iter().map(|k| k.to_string()).collect(),
        name: name.to_string(),
        available,
    }
}

#[test]
fn checksum_is_consistent() {
    let content = "profile_type = \"filament\"\nname = \"test\"\n";
    let r1 = compute_checksum(content);
    let r2 = compute_checksum(content);
    assert_eq!(r1, r2);
    assert!(!r1.is_empty());
}

#[test]
fn checksum_known_digests() {
    assert_eq!(
        compute_checksum(""),
        "e3b0c44298fc1c149afbf4c8996fb92427ae41e4649b934ca495991b7852b855"
    );
    assert_eq!(
        compute_checksum("hello"),
        "2cf24dba5fb0a30e26e83b2ac5b9e29e1b161e5c1fa7425e73043362938b9824"
    );
    assert_eq!(compute_checksum("hello").len(), 64);
}

#[test]
fn hex_lower_pads_each_byte() {
    assert_eq!(hex_lower(&[0x00, 0x0a, 0xff, 0x10]), "000aff10");
    assert_eq!(hex_lower(&[]), "");
}

#[test]
fn profile_source_display() {
    assert_eq!(ProfileSource::User.to_display_string(), "user");
    assert_eq!(ProfileSource::BuiltIn.to_display_string(), "built-in");
    assert_eq!(
        ProfileSource::Library { vendor: "BBL".to_string() }.to_display_string(),
        "library/BBL"
    );
}

#[test]
fn suggestion_and_hint_suffixes() {
    assert_eq!(format_suggestions(&[]), "");
    assert_eq!(format_suggestions(&["a".to_string()]), ". Did you mean: a?");
    assert_eq!(
        format_suggestions(&["PLA Basic".to_string(), "PLA Matte".to_string()]),
        ". Did you mean: PLA Basic, PLA Matte?"
    );
    assert_eq!(format_hint(&None), "");
    assert_eq!(format_hint(&Some("did you mean --filament?".to_string())), " (did you mean --filament?)");
}

#[test]
fn error_messages() {
    let e = ProfileError::NotFound { query: "pla".to_string(), suggestions: vec!["PLA Basic".to_string()] };
    assert_eq!(e.message(), "profile not found: 'pla'. Did you mean: PLA Basic?");
    let e = ProfileError::Ambiguous { query: "pla".to_string(), matches: vec!["A".to_string(), "B".to_string()] };
    assert_eq!(e.message(), "ambiguous profile query 'pla', matches: A, B");
    let e = ProfileError::TypeMismatch {
        query: "pla".to_string(),
        expected_type: "process".to_string(),
        actual_type: "filament".to_string(),
        hint: Some("did you mean --filament?".to_string()),
    };
    assert_eq!(e.message(), "profile 'pla' is a filament profile, not process (did you mean --filament?)");
    let e = ProfileError::CircularInheritance { chain: vec!["a".to_string(), "b".to_string(), "a".to_string()] };
    assert_eq!(e.message(), "circular inheritance detected: a -> b -> a");
    let e = ProfileError::Parse("bad".to_string());
    assert_eq!(e.message(), "failed to parse profile TOML: bad");
    let e = ProfileError::Io(std::io::Error::new(std::io::ErrorKind::NotFound, "gone"));
    assert_eq!(e.message(), "IO error reading profile: gone");
}

#[test]
fn path_queries() {
    assert!(is_path_query("dir/profile"));
    assert!(is_path_query("profile.toml"));
    assert!(!is_path_query("PLA Basic"));
    assert!(!is_path_query("toml"));
    assert!(!is_path_query("a.TOML"));
}

#[test]
fn name_search_prefers_first_available_exact_match() {
    let cands = vec![
        candidate(&["pla basic"], "PLA Basic", true),
        candidate(&["PLA"], "PLA", false),
        candidate(&["x", "pla"], "Generic PLA", true),
        candidate(&["pla"], "PLA again", true),
    ];
    assert_eq!(select_matches(&cands, "PLA"), vec![2]);
    assert_eq!(select_matches(&cands, "basic"), vec![0]);
    assert_eq!(select_matches(&cands, "a"), vec![0, 2, 3]);
    assert_eq!(select_matches(&cands, "zzz"), Vec::<usize>::new());
}

#[test]
fn unique_exact_only_when_one() {
    let cands = vec![
        candidate(&["a", "A.toml"], "a", true),
        candidate(&["b"], "b", false),
        candidate(&["B"], "b2", true),
    ];
    assert_eq!(unique_exact_match(&cands, "A"), Some(0));
    assert_eq!(unique_exact_match(&cands, "b"), None);
    assert_eq!(unique_exact_match(&cands, "c"), None);
    assert_eq!(unique_exact_match(&[], "c"), None);
}

#[test]
fn hints_and_parent_references() {
    assert_eq!(mismatch_hint("filament"), "did you mean --filament?");
    assert_eq!(parent_reference("base"), ParentReference::Sibling("base.toml".to_string()));
    assert_eq!(parent_reference("../base.toml"), ParentReference::Path("../base.toml".to_string()));
}

#[test]
fn profile_file_entries() {
    let content = "profile_type = \"filament\"\ninherits = \"base\"\nlayer = 1\n";
    assert_eq!(extract_profile_type(content), Some("filament".to_string()));
    assert_eq!(profile_inherits(content).unwrap(), Some("base".to_string()));
    assert_eq!(extract_profile_type("layer = 1"), None);
    assert_eq!(profile_inherits("layer = 1").unwrap(), None);
    assert_eq!(extract_profile_type("profile_type = 3"), None);
    assert_eq!(extract_profile_type("not [ toml"), None);
    assert!(profile_inherits("not [ toml").is_err());
}
