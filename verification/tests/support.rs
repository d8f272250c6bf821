use slicecore_engine::support::config::{
    ConflictResolution, InterfacePattern, SupportPattern, SupportType, TaperMethod,
    TreeBranchStyle,
};
use slicecore_engine::support::overhang_perimeter::{overhang_fan_override, OverhangTier};

#[test]
fn fan_override_steep_always_255() {
    assert_eq!(overhang_fan_override(OverhangTier::Steep, 0), 255, "Steep tier should override fan to 255 regardless of base");
    assert_eq!(overhang_fan_override(OverhangTier::Steep, 128), 255, "Steep tier should override fan to 255 regardless of base");
}

#[test]
fn fan_override_mild_minimum_180() {
    assert_eq!(overhang_fan_override(OverhangTier::Mild, 100), 180, "Mild tier should ensure fan >= 180");
    assert_eq!(overhang_fan_override(OverhangTier::Mild, 200), 200, "Mild tier should keep higher base fan");
}

#[test]
fn fan_override_none_no_change() {
    assert_eq!(overhang_fan_override(OverhangTier::NoOverhang, 42), 42, "None tier should not change fan speed");
}

#[test]
fn fan_override_other_tiers() {
    assert_eq!(overhang_fan_override(OverhangTier::Moderate, 0), 220);
    assert_eq!(overhang_fan_override(OverhangTier::Moderate, 230), 230);
    assert_eq!(overhang_fan_override(OverhangTier::Severe, 17), 255);
    assert_eq!(overhang_fan_override(OverhangTier::Mild, 180), 180);
    assert_eq!(overhang_fan_override(OverhangTier::NoOverhang, 255), 255);
}

#[test]
fn support_setting_defaults() {
    assert_eq!(SupportType::default(), SupportType::Auto);
    assert_eq!(SupportPattern::default(), SupportPattern::Line);
    assert_eq!(InterfacePattern::default(), InterfacePattern::Rectilinear);
    assert_eq!(TreeBranchStyle::default(), TreeBranchStyle::Auto);
    assert_eq!(TaperMethod::default(), TaperMethod::Auto);
    assert_eq!(ConflictResolution::default(), ConflictResolution::WarnOnConflict);
}
