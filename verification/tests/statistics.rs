use slicecore_engine::statistics::{
    default_feature_order, feature_display_name, format_duration_secs, is_support_feature,
    FeatureType,
};

#[test]
fn feature_display_name_covers_all_variants() {
    let all_features = default_feature_order();
    assert_eq!(all_features.len(), 15, "Should have 15 feature types");

    for feature in &all_features {
        let (name, key) = feature_display_name(*feature);
        assert!(!name.is_empty(), "Display name should not be empty for {:?}", feature);
        assert!(!key.is_empty(), "Machine key should not be empty for {:?}", feature);
    }
}

#[test]
fn feature_display_name_specific_values() {
    assert_eq!(feature_display_name(FeatureType::OuterPerimeter), ("Outer wall", "outer_wall"));
    assert_eq!(feature_display_name(FeatureType::InnerPerimeter), ("Inner wall", "inner_wall"));
    assert_eq!(feature_display_name(FeatureType::SparseInfill), ("Sparse infill", "sparse_infill"));
    assert_eq!(feature_display_name(FeatureType::Travel), ("Travel", "travel"));
}

#[test]
fn is_support_feature_classification() {
    assert!(is_support_feature(FeatureType::Support));
    assert!(is_support_feature(FeatureType::SupportInterface));
    assert!(is_support_feature(FeatureType::PurgeTower));

    assert!(!is_support_feature(FeatureType::OuterPerimeter));
    assert!(!is_support_feature(FeatureType::InnerPerimeter));
    assert!(!is_support_feature(FeatureType::SparseInfill));
    assert!(!is_support_feature(FeatureType::Travel));
    assert!(!is_support_feature(FeatureType::Bridge));
}

#[test]
fn format_time_display_works() {
    assert_eq!(format_duration_secs(3661.0f64 as u64), "1:01:01");
    assert_eq!(format_duration_secs(125.0f64 as u64), "2:05");
    assert_eq!(format_duration_secs(59.0f64 as u64), "0:59");
}

#[test]
fn duration_formatting_edges() {
    assert_eq!(format_duration_secs(0), "0:00");
    assert_eq!(format_duration_secs(3600), "1:00:00");
    assert_eq!(format_duration_secs(3599), "59:59");
    assert_eq!(format_duration_secs(360000), "100:00:00");
}

#[test]
fn default_order_has_each_feature_once() {
    let order = default_feature_order();
    for (i, a) in order.iter().enumerate() {
        for b in &order[i + 1..] {
            assert_ne!(a, b);
        }
    }
    assert_eq!(order[0], FeatureType::OuterPerimeter);
    assert_eq!(order[14], FeatureType::Travel);
}

#[test]
fn feature_keys_are_distinct_snake_case_names() {
    let order = default_feature_order();
    let mut keys = Vec::new();
    for f in &order {
        let (name, key) = feature_display_name(*f);
        assert_eq!(key, name.to_lowercase().replace(' ', "_"));
        assert!(!keys.contains(&key));
        keys.push(key);
    }
}
