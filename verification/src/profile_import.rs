//! Upstream (OrcaSlicer / BambuStudio) profile import.

use vstd::prelude::*;
use crate::text::{lowercase_of, remove_char, str_eq, to_lowercase, without_char};
use crate::config::{BedType, BrimType, GcodeDialect, InfillPattern, InternalBridgeMode, SurfacePattern};
use crate::seam::SeamPosition;
use crate::support::config::{InterfacePattern, SupportPattern, SupportType};

verus! {

/// Detected configuration file format.
#[derive(Debug, Clone, Copy, PartialEq, Eq, Structural)]
pub enum ConfigFormat {
    /// TOML configuration format.
    Toml,
    /// JSON configuration format (native or upstream slicer).
    Json,
}

/// The content after a leading UTF-8 byte order mark, if there is one.
pub open spec fn without_bom(d: Seq<u8>) -> Seq<u8> {
    if starts_with_bom(d) {
        d.skip(3)
    } else {
        d
    }
}

/// Space, tab, newline or carriage return.
pub open spec fn is_blank_byte(b: u8) -> bool {
    b == 0x20u8 || b == 0x09u8 || b == 0x0Au8 || b == 0x0Du8
}

/// `body[i]` is a `{` preceded only by blank bytes.
pub open spec fn brace_first_at(body: Seq<u8>, i: int) -> bool {
    &&& 0 <= i < body.len()
    &&& body[i] == 0x7Bu8
    &&& forall|j: int| 0 <= j < i ==> is_blank_byte(#[trigger] body[j])
}

/// JSON when the first non-blank byte after an optional byte order mark is
/// `{`; TOML otherwise (empty content included).
pub open spec fn config_format_of(d: Seq<u8>) -> ConfigFormat {
    if exists|i: int| brace_first_at(without_bom(d), i) {
        ConfigFormat::Json
    } else {
        ConfigFormat::Toml
    }
}

/// Whether the content begins with a UTF-8 byte order mark.
pub open spec fn starts_with_bom(d: Seq<u8>) -> bool {
    d.len() >= 3 && d[0] == 0xEFu8 && d[1] == 0xBBu8 && d[2] == 0xBFu8
}

/// Leading blank bytes and a leading byte order mark do not change the
/// detected format.
pub proof fn lemma_format_ignores_prefix(d: Seq<u8>, b: u8)
    requires
        !starts_with_bom(d),
        is_blank_byte(b),
    ensures
        config_format_of(seq![b] + d) == config_format_of(d),
        config_format_of(seq![0xEFu8, 0xBBu8, 0xBFu8] + d) == config_format_of(d),
{
    let p = seq![b] + d;
    assert(without_bom(d) == d);
    assert(!starts_with_bom(p));
    assert(without_bom(p) == p);
    assert forall|i: int| brace_first_at(d, i) implies brace_first_at(p, i + 1) by {
        assert forall|j: int| 0 <= j < i + 1 implies is_blank_byte(#[trigger] p[j]) by {
            if j > 0 {
                assert(p[j] == d[j - 1]);
            }
        }
        assert(p[i + 1] == d[i]);
    }
    assert forall|i: int| brace_first_at(p, i) implies brace_first_at(d, i - 1) by {
        assert(i != 0);
        assert forall|j: int| 0 <= j < i - 1 implies is_blank_byte(#[trigger] d[j]) by {
            assert(p[j + 1] == d[j]);
        }
        assert(p[i] == d[i - 1]);
    }
    if exists|i: int| brace_first_at(d, i) {
        let i = choose|i: int| brace_first_at(d, i);
        assert(brace_first_at(p, i + 1));
    }
    if exists|i: int| brace_first_at(p, i) {
        let i = choose|i: int| brace_first_at(p, i);
        assert(brace_first_at(d, i - 1));
    }
    let q = seq![0xEFu8, 0xBBu8, 0xBFu8] + d;
    assert(without_bom(q) =~= d);
}

/// Detect the config format from file content.
///
/// JSON files start with `{` (after optional whitespace and UTF-8 BOM).
/// Everything else is treated as TOML; empty content defaults to TOML.
pub fn detect_config_format(data: &[u8]) -> (r: ConfigFormat)
    ensures
        r == config_format_of(data@),
{
    let has_bom = data.len() >= 3 && data[0] == 0xEFu8 && data[1] == 0xBBu8 && data[2] == 0xBFu8;
    let start: usize = if has_bom { 3 } else { 0 };
    let ghost body = without_bom(data@);
    assert(body =~= data@.skip(start as int));
    let mut i = start;
    while i < data.len()
        invariant
            start <= i <= data@.len(),
            body == without_bom(data@),
            body == data@.skip(start as int),
            forall|j: int| 0 <= j < i - start ==> is_blank_byte(#[trigger] body[j]),
        decreases data@.len() - i,
    {
        let b = data[i];
        assert(body[i - start] == b);
        if b == 0x20u8 || b == 0x09u8 || b == 0x0Au8 || b == 0x0Du8 {
            i = i + 1;
        } else if b == 0x7Bu8 {
            assert(brace_first_at(body, i - start));
            return ConfigFormat::Json;
        } else {
            proof {
                assert forall|k: int| !brace_first_at(body, k) by {
                    if 0 <= k < body.len() && k > i - start {
                        assert(!is_blank_byte(body[i - start]));
                    }
                    if 0 <= k < i - start {
                        assert(is_blank_byte(body[k]));
                    }
                }
            }
            return ConfigFormat::Toml;
        }
    }
    assert forall|k: int| !brace_first_at(body, k) by {
        if 0 <= k < body.len() {
            assert(is_blank_byte(body[k]));
        }
    }
    ConfigFormat::Toml
}

/// Metadata extracted from an upstream slicer profile.
#[derive(Debug, Clone)]
pub struct ProfileMetadata {
    /// Profile name (e.g. "Generic PLA", "0.20mm Standard").
    pub name: Option<String>,
    /// Profile type (e.g. "filament", "machine", "process").
    pub profile_type: Option<String>,
    /// Parent profile name for inheritance resolution.
    pub inherits: Option<String>,
}

impl Default for ProfileMetadata {
    fn default() -> (r: Self)
        ensures
            r.name is None,
            r.profile_type is None,
            r.inherits is None,
    {
        ProfileMetadata { name: None, profile_type: None, inherits: None }
    }
}


/// The configuration field an upstream JSON key maps to, if any.
pub open spec fn upstream_field_of(key: Seq<char>) -> Option<Seq<char>> {
    if key == "layer_height"@ {
        Some("layer_height"@)
    } else if key == "initial_layer_print_height"@ {
        Some("first_layer_height"@)
    } else if key == "wall_loops"@ {
        Some("wall_count"@)
    } else if key == "sparse_infill_density"@ {
        Some("infill_density"@)
    } else if key == "sparse_infill_pattern"@ {
        Some("infill_pattern"@)
    } else if key == "top_shell_layers"@ {
        Some("top_solid_layers"@)
    } else if key == "bottom_shell_layers"@ {
        Some("bottom_solid_layers"@)
    } else if key == "outer_wall_speed"@ {
        Some("speeds.perimeter"@)
    } else if key == "sparse_infill_speed"@ {
        Some("speeds.infill"@)
    } else if key == "travel_speed"@ {
        Some("speeds.travel"@)
    } else if key == "initial_layer_speed"@ {
        Some("speeds.first_layer"@)
    } else if key == "skirt_loops"@ {
        Some("skirt_loops"@)
    } else if key == "skirt_distance"@ {
        Some("skirt_distance"@)
    } else if key == "brim_width"@ {
        Some("brim_width"@)
    } else if key == "default_acceleration"@ {
        Some("accel.print"@)
    } else if key == "travel_acceleration"@ {
        Some("accel.travel"@)
    } else if key == "enable_arc_fitting"@ {
        Some("arc_fitting_enabled"@)
    } else if key == "adaptive_layer_height"@ {
        Some("adaptive_layer_height"@)
    } else if key == "wall_generator"@ {
        Some("arachne_enabled"@)
    } else if key == "seam_position"@ {
        Some("seam_position"@)
    } else if key == "bridge_speed"@ {
        Some("speeds.bridge"@)
    } else if key == "inner_wall_speed"@ {
        Some("speeds.inner_wall"@)
    } else if key == "gap_infill_speed"@ {
        Some("speeds.gap_fill"@)
    } else if key == "top_surface_speed"@ {
        Some("speeds.top_surface"@)
    } else if key == "internal_solid_infill_speed"@ {
        Some("speeds.internal_solid_infill"@)
    } else if key == "initial_layer_infill_speed"@ {
        Some("speeds.initial_layer_infill"@)
    } else if key == "support_speed"@ {
        Some("speeds.support"@)
    } else if key == "support_interface_speed"@ {
        Some("speeds.support_interface"@)
    } else if key == "small_perimeter_speed"@ {
        Some("speeds.small_perimeter"@)
    } else if key == "solid_infill_speed"@ {
        Some("speeds.solid_infill"@)
    } else if key == "overhang_1_4_speed"@ || key == "overhang_speed_0"@ {
        Some("speeds.overhang_1_4"@)
    } else if key == "overhang_2_4_speed"@ || key == "overhang_speed_1"@ {
        Some("speeds.overhang_2_4"@)
    } else if key == "overhang_3_4_speed"@ || key == "overhang_speed_2"@ {
        Some("speeds.overhang_3_4"@)
    } else if key == "overhang_4_4_speed"@ || key == "overhang_speed_3"@ {
        Some("speeds.overhang_4_4"@)
    } else if key == "travel_speed_z"@ {
        Some("speeds.travel_z"@)
    } else if key == "line_width"@ || key == "extrusion_width"@ {
        Some("line_widths.outer_wall"@)
    } else if key == "outer_wall_line_width"@ {
        Some("line_widths.outer_wall"@)
    } else if key == "inner_wall_line_width"@ {
        Some("line_widths.inner_wall"@)
    } else if key == "sparse_infill_line_width"@ {
        Some("line_widths.infill"@)
    } else if key == "top_surface_line_width"@ {
        Some("line_widths.top_surface"@)
    } else if key == "initial_layer_line_width"@ {
        Some("line_widths.initial_layer"@)
    } else if key == "internal_solid_infill_line_width"@ {
        Some("line_widths.internal_solid_infill"@)
    } else if key == "support_line_width"@ {
        Some("line_widths.support"@)
    } else if key == "fan_max_speed"@ {
        Some("cooling.fan_max_speed"@)
    } else if key == "fan_min_speed"@ {
        Some("cooling.fan_min_speed"@)
    } else if key == "slow_down_layer_time"@ || key == "slowdown_below_layer_time"@ {
        Some("cooling.slow_down_layer_time"@)
    } else if key == "slow_down_min_speed"@ || key == "min_print_speed"@ {
        Some("cooling.slow_down_min_speed"@)
    } else if key == "overhang_fan_speed"@ {
        Some("cooling.overhang_fan_speed"@)
    } else if key == "overhang_fan_threshold"@ {
        Some("cooling.overhang_fan_threshold"@)
    } else if key == "full_fan_speed_layer"@ || key == "disable_fan_first_layers"@ {
        Some("cooling.full_fan_speed_layer"@)
    } else if key == "slow_down_for_layer_cooling"@ {
        Some("cooling.slow_down_for_layer_cooling"@)
    } else if key == "deretraction_speed"@ {
        Some("retraction.deretraction_speed"@)
    } else if key == "retract_before_wipe"@ {
        Some("retraction.retract_before_wipe"@)
    } else if key == "retract_when_changing_layer"@ {
        Some("retraction.retract_when_changing_layer"@)
    } else if key == "wipe"@ {
        Some("retraction.wipe"@)
    } else if key == "wipe_distance"@ {
        Some("retraction.wipe_distance"@)
    } else if key == "machine_start_gcode"@ || key == "start_gcode"@ {
        Some("machine.start_gcode"@)
    } else if key == "machine_end_gcode"@ || key == "end_gcode"@ {
        Some("machine.end_gcode"@)
    } else if key == "layer_change_gcode"@ || key == "layer_gcode"@ {
        Some("machine.layer_change_gcode"@)
    } else if key == "printable_height"@ || key == "max_print_height"@ {
        Some("machine.printable_height"@)
    } else if key == "machine_max_acceleration_x"@ {
        Some("machine.max_acceleration_x"@)
    } else if key == "machine_max_acceleration_y"@ {
        Some("machine.max_acceleration_y"@)
    } else if key == "machine_max_acceleration_z"@ {
        Some("machine.max_acceleration_z"@)
    } else if key == "machine_max_acceleration_e"@ {
        Some("machine.max_acceleration_e"@)
    } else if key == "machine_max_acceleration_extruding"@ {
        Some("machine.max_acceleration_extruding"@)
    } else if key == "machine_max_acceleration_retracting"@ {
        Some("machine.max_acceleration_retracting"@)
    } else if key == "machine_max_acceleration_travel"@ {
        Some("machine.max_acceleration_travel"@)
    } else if key == "machine_max_speed_x"@ {
        Some("machine.max_speed_x"@)
    } else if key == "machine_max_speed_y"@ {
        Some("machine.max_speed_y"@)
    } else if key == "machine_max_speed_z"@ {
        Some("machine.max_speed_z"@)
    } else if key == "machine_max_speed_e"@ {
        Some("machine.max_speed_e"@)
    } else if key == "nozzle_type"@ {
        Some("machine.nozzle_type"@)
    } else if key == "printer_model"@ || key == "printer_model_id"@ {
        Some("machine.printer_model"@)
    } else if key == "bed_shape"@ || key == "printable_area"@ {
        Some("machine.bed_shape"@)
    } else if key == "min_layer_height"@ {
        Some("machine.min_layer_height"@)
    } else if key == "max_layer_height"@ {
        Some("machine.max_layer_height"@)
    } else if key == "extruder_clearance_radius"@ || key == "extruder_clearance_max_radius"@ {
        Some("sequential.extruder_clearance_radius"@)
    } else if key == "extruder_clearance_height_to_rod"@ || key == "extruder_clearance_height_to_lid"@ || key == "extruder_clearance_height"@ {
        Some("sequential.extruder_clearance_height"@)
    } else if key == "gantry_width"@ {
        Some("sequential.gantry_width"@)
    } else if key == "outer_wall_acceleration"@ {
        Some("accel.outer_wall"@)
    } else if key == "inner_wall_acceleration"@ {
        Some("accel.inner_wall"@)
    } else if key == "initial_layer_acceleration"@ {
        Some("accel.initial_layer"@)
    } else if key == "initial_layer_travel_acceleration"@ || key == "initial_layer_travel_speed"@ {
        Some("accel.initial_layer_travel"@)
    } else if key == "top_surface_acceleration"@ {
        Some("accel.top_surface"@)
    } else if key == "sparse_infill_acceleration"@ {
        Some("accel.sparse_infill"@)
    } else if key == "bridge_acceleration"@ {
        Some("accel.bridge"@)
    } else if key == "nozzle_temperature"@ || key == "temperature"@ {
        Some("filament.nozzle_temperatures"@)
    } else if key == "nozzle_temperature_initial_layer"@ || key == "first_layer_temperature"@ {
        Some("filament.first_layer_nozzle_temperatures"@)
    } else if key == "hot_plate_temp"@ || key == "bed_temperature"@ {
        Some("filament.bed_temperatures"@)
    } else if key == "hot_plate_temp_initial_layer"@ || key == "bed_temperature_initial_layer"@ || key == "first_layer_bed_temperature"@ {
        Some("filament.first_layer_bed_temperatures"@)
    } else if key == "filament_density"@ {
        Some("filament.density"@)
    } else if key == "filament_diameter"@ {
        Some("filament.diameter"@)
    } else if key == "filament_cost"@ {
        Some("filament.cost_per_kg"@)
    } else if key == "filament_flow_ratio"@ {
        Some("extrusion_multiplier"@)
    } else if key == "close_fan_the_first_x_layers"@ {
        Some("cooling.disable_fan_first_layers"@)
    } else if key == "fan_cooling_layer_time"@ {
        Some("cooling.fan_below_layer_time"@)
    } else if key == "filament_type"@ {
        Some("filament.filament_type"@)
    } else if key == "filament_vendor"@ {
        Some("filament.filament_vendor"@)
    } else if key == "filament_max_volumetric_speed"@ {
        Some("filament.max_volumetric_speed"@)
    } else if key == "nozzle_temperature_range_low"@ {
        Some("filament.nozzle_temperature_range_low"@)
    } else if key == "nozzle_temperature_range_high"@ {
        Some("filament.nozzle_temperature_range_high"@)
    } else if key == "filament_retraction_length"@ {
        Some("filament.filament_retraction_length"@)
    } else if key == "filament_retraction_speed"@ {
        Some("filament.filament_retraction_speed"@)
    } else if key == "filament_start_gcode"@ {
        Some("filament.filament_start_gcode"@)
    } else if key == "filament_end_gcode"@ {
        Some("filament.filament_end_gcode"@)
    } else if key == "nozzle_diameter"@ {
        Some("machine.nozzle_diameters"@)
    } else if key == "retraction_length"@ {
        Some("retraction.length"@)
    } else if key == "retraction_speed"@ {
        Some("retraction.speed"@)
    } else if key == "z_hop"@ {
        Some("retraction.z_hop"@)
    } else if key == "retraction_minimum_travel"@ {
        Some("retraction.min_travel"@)
    } else if key == "gcode_flavor"@ {
        Some("gcode_dialect"@)
    } else if key == "machine_max_jerk_x"@ {
        Some("machine.jerk_values_x"@)
    } else if key == "machine_max_jerk_y"@ {
        Some("machine.jerk_values_y"@)
    } else if key == "machine_max_jerk_z"@ {
        Some("machine.jerk_values_z"@)
    } else if key == "machine_max_jerk_e"@ {
        Some("machine.jerk_values_e"@)
    } else if key == "bridge_flow"@ || key == "bridge_flow_ratio"@ {
        Some("bridge_flow"@)
    } else if key == "elefant_foot_compensation"@ {
        Some("elefant_foot_compensation"@)
    } else if key == "infill_direction"@ {
        Some("infill_direction"@)
    } else if key == "infill_wall_overlap"@ || key == "infill_overlap"@ {
        Some("infill_wall_overlap"@)
    } else if key == "spiral_mode"@ || key == "spiral_vase"@ {
        Some("spiral_mode"@)
    } else if key == "only_one_wall_top"@ {
        Some("only_one_wall_top"@)
    } else if key == "resolution"@ {
        Some("resolution"@)
    } else if key == "raft_layers"@ {
        Some("raft_layers"@)
    } else if key == "detect_thin_wall"@ || key == "thin_walls"@ {
        Some("detect_thin_wall"@)
    } else if key == "xy_hole_compensation"@ {
        Some("dimensional_compensation.xy_hole_compensation"@)
    } else if key == "xy_contour_compensation"@ {
        Some("dimensional_compensation.xy_contour_compensation"@)
    } else if key == "top_surface_pattern"@ {
        Some("top_surface_pattern"@)
    } else if key == "bottom_surface_pattern"@ {
        Some("bottom_surface_pattern"@)
    } else if key == "internal_solid_infill_pattern"@ {
        Some("solid_infill_pattern"@)
    } else if key == "extra_perimeters_on_overhangs"@ {
        Some("extra_perimeters_on_overhangs"@)
    } else if key == "internal_bridge_speed"@ {
        Some("speeds.internal_bridge_speed"@)
    } else if key == "internal_bridge_support_enabled"@ {
        Some("internal_bridge_support"@)
    } else if key == "filament_shrinkage_compensation"@ {
        Some("filament.filament_shrink"@)
    } else if key == "z_offset"@ {
        Some("z_offset"@)
    } else if key == "precise_z_height"@ {
        Some("precise_z_height"@)
    } else if key == "min_length_factor"@ {
        Some("accel.min_length_factor"@)
    } else if key == "chamber_temperature"@ {
        Some("filament.chamber_temperature"@)
    } else if key == "curr_bed_type"@ {
        Some("machine.curr_bed_type"@)
    } else if key == "cool_plate_temp"@ {
        Some("filament.cool_plate_temp"@)
    } else if key == "eng_plate_temp"@ {
        Some("filament.eng_plate_temp"@)
    } else if key == "textured_plate_temp"@ {
        Some("filament.textured_plate_temp"@)
    } else if key == "cool_plate_temp_initial_layer"@ {
        Some("filament.cool_plate_temp_initial_layer"@)
    } else if key == "eng_plate_temp_initial_layer"@ {
        Some("filament.eng_plate_temp_initial_layer"@)
    } else if key == "textured_plate_temp_initial_layer"@ {
        Some("filament.textured_plate_temp_initial_layer"@)
    } else if key == "fuzzy_skin"@ {
        Some("fuzzy_skin.enabled"@)
    } else if key == "fuzzy_skin_thickness"@ {
        Some("fuzzy_skin.thickness"@)
    } else if key == "fuzzy_skin_point_dist"@ {
        Some("fuzzy_skin.point_distance"@)
    } else if key == "brim_type"@ {
        Some("brim_skirt.brim_type"@)
    } else if key == "brim_ears"@ {
        Some("brim_skirt.brim_ears"@)
    } else if key == "brim_ears_max_angle"@ {
        Some("brim_skirt.brim_ears_max_angle"@)
    } else if key == "skirt_height"@ {
        Some("brim_skirt.skirt_height"@)
    } else if key == "accel_to_decel_enable"@ {
        Some("input_shaping.accel_to_decel_enable"@)
    } else if key == "accel_to_decel_factor"@ {
        Some("input_shaping.accel_to_decel_factor"@)
    } else if key == "retraction_distances_when_cut"@ {
        Some("multi_material.tool_change_retraction.retraction_distance_when_cut"@)
    } else if key == "long_retractions_when_cut"@ {
        Some("multi_material.tool_change_retraction.long_retraction_when_cut"@)
    } else if key == "internal_solid_infill_acceleration"@ {
        Some("accel.internal_solid_infill_acceleration"@)
    } else if key == "support_acceleration"@ {
        Some("accel.support_acceleration"@)
    } else if key == "support_interface_acceleration"@ {
        Some("accel.support_interface_acceleration"@)
    } else if key == "additional_cooling_fan_speed"@ {
        Some("cooling.additional_cooling_fan_speed"@)
    } else if key == "auxiliary_fan"@ {
        Some("cooling.auxiliary_fan"@)
    } else if key == "enable_overhang_speed"@ {
        Some("speeds.enable_overhang_speed"@)
    } else if key == "filament_colour"@ {
        Some("filament.filament_colour"@)
    } else if key == "wall_filament"@ {
        Some("multi_material.wall_filament"@)
    } else if key == "solid_infill_filament"@ {
        Some("multi_material.solid_infill_filament"@)
    } else if key == "support_filament"@ {
        Some("multi_material.support_filament"@)
    } else if key == "support_interface_filament"@ {
        Some("multi_material.support_interface_filament"@)
    } else if key == "precise_outer_wall"@ {
        Some("precise_outer_wall"@)
    } else if key == "draft_shield"@ {
        Some("draft_shield"@)
    } else if key == "ooze_prevention"@ {
        Some("ooze_prevention"@)
    } else if key == "infill_combination"@ || key == "infill_every_layers"@ {
        Some("infill_combination"@)
    } else if key == "infill_anchor_max"@ {
        Some("infill_anchor_max"@)
    } else if key == "min_bead_width"@ {
        Some("min_bead_width"@)
    } else if key == "min_feature_size"@ {
        Some("min_feature_size"@)
    } else if key == "support_bottom_interface_layers"@ {
        Some("support.support_bottom_interface_layers"@)
    } else if key == "enable_support"@ || key == "support_material"@ {
        Some("support.enabled"@)
    } else if key == "support_type"@ || key == "support_material_type"@ || key == "support_style"@ || key == "support_material_style"@ {
        Some("support.support_type"@)
    } else if key == "support_threshold_angle"@ || key == "support_angle"@ || key == "support_material_threshold"@ {
        Some("support.overhang_angle"@)
    } else if key == "support_base_pattern"@ || key == "support_material_pattern"@ {
        Some("support.support_pattern"@)
    } else if key == "support_on_build_plate_only"@ || key == "support_material_buildplate_only"@ {
        Some("support.build_plate_only"@)
    } else if key == "support_top_z_distance"@ || key == "support_material_contact_distance"@ {
        Some("support.z_gap"@)
    } else if key == "support_bottom_z_distance"@ || key == "support_material_bottom_contact_distance"@ {
        Some("support.bottom_z_gap"@)
    } else if key == "support_object_xy_distance"@ || key == "support_material_xy_spacing"@ {
        Some("support.xy_gap"@)
    } else if key == "support_interface_top_layers"@ || key == "support_material_interface_layers"@ {
        Some("support.interface_layers"@)
    } else if key == "support_interface_bottom_layers"@ || key == "support_material_bottom_interface_layers"@ {
        Some("support.support_bottom_interface_layers"@)
    } else if key == "support_interface_pattern"@ || key == "support_material_interface_pattern"@ {
        Some("support.interface_pattern"@)
    } else if key == "support_base_pattern_spacing"@ || key == "support_material_spacing"@ {
        Some("support.support_density"@)
    } else if key == "support_interface_spacing"@ || key == "support_material_interface_spacing"@ {
        Some("support.interface_density"@)
    } else if key == "support_expansion"@ {
        Some("support.expansion"@)
    } else if key == "support_critical_regions_only"@ {
        Some("support.critical_regions_only"@)
    } else if key == "support_remove_small_overhang"@ {
        Some("support.remove_small_overhang"@)
    } else if key == "support_flow_ratio"@ || key == "support_material_flow"@ {
        Some("support.flow_ratio"@)
    } else if key == "support_interface_flow_ratio"@ || key == "support_material_interface_flow"@ {
        Some("support.interface_flow_ratio"@)
    } else if key == "support_material_synchronize_layers"@ {
        Some("support.synchronize_layers"@)
    } else if key == "enforce_support_layers"@ || key == "support_material_enforce_layers"@ {
        Some("support.enforce_layers"@)
    } else if key == "support_closing_radius"@ || key == "support_material_closing_radius"@ {
        Some("support.closing_radius"@)
    } else if key == "support_material_auto"@ {
        Some("support.support_type"@)
    } else if key == "raft_first_layer_expansion"@ {
        Some("support.raft_expansion"@)
    } else if key == "bridge_angle"@ {
        Some("support.bridge.angle"@)
    } else if key == "bridge_density"@ {
        Some("support.bridge.density"@)
    } else if key == "thick_bridges"@ {
        Some("support.bridge.thick_bridges"@)
    } else if key == "bridge_no_support"@ {
        Some("support.bridge.no_support"@)
    } else if key == "bridge_fan_speed"@ {
        Some("support.bridge.fan_speed"@)
    } else if key == "tree_support_branch_angle"@ || key == "support_tree_angle"@ {
        Some("support.tree.branch_angle"@)
    } else if key == "tree_support_branch_diameter"@ || key == "support_tree_branch_diameter"@ {
        Some("support.tree.max_trunk_diameter"@)
    } else if key == "tree_support_tip_diameter"@ {
        Some("support.tree.tip_diameter"@)
    } else if key == "tree_support_branch_distance"@ || key == "support_tree_top_rate"@ {
        Some("support.tree.branch_distance"@)
    } else if key == "tree_support_branch_diameter_angle"@ {
        Some("support.tree.branch_diameter_angle"@)
    } else if key == "tree_support_wall_count"@ {
        Some("support.tree.wall_count"@)
    } else if key == "tree_support_auto_brim"@ {
        Some("support.tree.auto_brim"@)
    } else if key == "tree_support_brim_width"@ {
        Some("support.tree.brim_width"@)
    } else if key == "tree_support_adaptive_layer_height"@ {
        Some("support.tree.adaptive_layer_height"@)
    } else if key == "tree_support_angle_slow"@ {
        Some("support.tree.angle_slow"@)
    } else if key == "tree_support_top_rate"@ {
        Some("support.tree.top_rate"@)
    } else if key == "tree_support_with_infill"@ {
        Some("support.tree.with_infill"@)
    } else {
        None
    }
}

/// Map an upstream JSON key name to the corresponding configuration field name.
///
/// Returns `None` for keys that do not map to a simple field.
pub fn upstream_key_to_config_field(key: &str) -> (r: Option<&'static str>)
    ensures
        match r {
            Some(f) => upstream_field_of(key@) == Some(f@),
            None => upstream_field_of(key@) is None,
        },
{
    if str_eq(key, "layer_height") {
        return Some("layer_height");
    }
    if str_eq(key, "initial_layer_print_height") {
        return Some("first_layer_height");
    }
    if str_eq(key, "wall_loops") {
        return Some("wall_count");
    }
    if str_eq(key, "sparse_infill_density") {
        return Some("infill_density");
    }
    if str_eq(key, "sparse_infill_pattern") {
        return Some("infill_pattern");
    }
    if str_eq(key, "top_shell_layers") {
        return Some("top_solid_layers");
    }
    if str_eq(key, "bottom_shell_layers") {
        return Some("bottom_solid_layers");
    }
    if str_eq(key, "outer_wall_speed") {
        return Some("speeds.perimeter");
    }
    if str_eq(key, "sparse_infill_speed") {
        return Some("speeds.infill");
    }
    if str_eq(key, "travel_speed") {
        return Some("speeds.travel");
    }
    if str_eq(key, "initial_layer_speed") {
        return Some("speeds.first_layer");
    }
    if str_eq(key, "skirt_loops") {
        return Some("skirt_loops");
    }
    if str_eq(key, "skirt_distance") {
        return Some("skirt_distance");
    }
    if str_eq(key, "brim_width") {
        return Some("brim_width");
    }
    if str_eq(key, "default_acceleration") {
        return Some("accel.print");
    }
    if str_eq(key, "travel_acceleration") {
        return Some("accel.travel");
    }
    if str_eq(key, "enable_arc_fitting") {
        return Some("arc_fitting_enabled");
    }
    if str_eq(key, "adaptive_layer_height") {
        return Some("adaptive_layer_height");
    }
    if str_eq(key, "wall_generator") {
        return Some("arachne_enabled");
    }
    if str_eq(key, "seam_position") {
        return Some("seam_position");
    }
    if str_eq(key, "bridge_speed") {
        return Some("speeds.bridge");
    }
    if str_eq(key, "inner_wall_speed") {
        return Some("speeds.inner_wall");
    }
    if str_eq(key, "gap_infill_speed") {
        return Some("speeds.gap_fill");
    }
    if str_eq(key, "top_surface_speed") {
        return Some("speeds.top_surface");
    }
    if str_eq(key, "internal_solid_infill_speed") {
        return Some("speeds.internal_solid_infill");
    }
    if str_eq(key, "initial_layer_infill_speed") {
        return Some("speeds.initial_layer_infill");
    }
    if str_eq(key, "support_speed") {
        return Some("speeds.support");
    }
    if str_eq(key, "support_interface_speed") {
        return Some("speeds.support_interface");
    }
    if str_eq(key, "small_perimeter_speed") {
        return Some("speeds.small_perimeter");
    }
    if str_eq(key, "solid_infill_speed") {
        return Some("speeds.solid_infill");
    }
    if str_eq(key, "overhang_1_4_speed") || str_eq(key, "overhang_speed_0") {
        return Some("speeds.overhang_1_4");
    }
    if str_eq(key, "overhang_2_4_speed") || str_eq(key, "overhang_speed_1") {
        return Some("speeds.overhang_2_4");
    }
    if str_eq(key, "overhang_3_4_speed") || str_eq(key, "overhang_speed_2") {
        return Some("speeds.overhang_3_4");
    }
    if str_eq(key, "overhang_4_4_speed") || str_eq(key, "overhang_speed_3") {
        return Some("speeds.overhang_4_4");
    }
    if str_eq(key, "travel_speed_z") {
        return Some("speeds.travel_z");
    }
    if str_eq(key, "line_width") || str_eq(key, "extrusion_width") {
        return Some("line_widths.outer_wall");
    }
    if str_eq(key, "outer_wall_line_width") {
        return Some("line_widths.outer_wall");
    }
    if str_eq(key, "inner_wall_line_width") {
        return Some("line_widths.inner_wall");
    }
    if str_eq(key, "sparse_infill_line_width") {
        return Some("line_widths.infill");
    }
    if str_eq(key, "top_surface_line_width") {
        return Some("line_widths.top_surface");
    }
    if str_eq(key, "initial_layer_line_width") {
        return Some("line_widths.initial_layer");
    }
    if str_eq(key, "internal_solid_infill_line_width") {
        return Some("line_widths.internal_solid_infill");
    }
    if str_eq(key, "support_line_width") {
        return Some("line_widths.support");
    }
    if str_eq(key, "fan_max_speed") {
        return Some("cooling.fan_max_speed");
    }
    if str_eq(key, "fan_min_speed") {
        return Some("cooling.fan_min_speed");
    }
    if str_eq(key, "slow_down_layer_time") || str_eq(key, "slowdown_below_layer_time") {
        return Some("cooling.slow_down_layer_time");
    }
    if str_eq(key, "slow_down_min_speed") || str_eq(key, "min_print_speed") {
        return Some("cooling.slow_down_min_speed");
    }
    if str_eq(key, "overhang_fan_speed") {
        return Some("cooling.overhang_fan_speed");
    }
    if str_eq(key, "overhang_fan_threshold") {
        return Some("cooling.overhang_fan_threshold");
    }
    if str_eq(key, "full_fan_speed_layer") || str_eq(key, "disable_fan_first_layers") {
        return Some("cooling.full_fan_speed_layer");
    }
    if str_eq(key, "slow_down_for_layer_cooling") {
        return Some("cooling.slow_down_for_layer_cooling");
    }
    if str_eq(key, "deretraction_speed") {
        return Some("retraction.deretraction_speed");
    }
    if str_eq(key, "retract_before_wipe") {
        return Some("retraction.retract_before_wipe");
    }
    if str_eq(key, "retract_when_changing_layer") {
        return Some("retraction.retract_when_changing_layer");
    }
    if str_eq(key, "wipe") {
        return Some("retraction.wipe");
    }
    if str_eq(key, "wipe_distance") {
        return Some("retraction.wipe_distance");
    }
    if str_eq(key, "machine_start_gcode") || str_eq(key, "start_gcode") {
        return Some("machine.start_gcode");
    }
    if str_eq(key, "machine_end_gcode") || str_eq(key, "end_gcode") {
        return Some("machine.end_gcode");
    }
    if str_eq(key, "layer_change_gcode") || str_eq(key, "layer_gcode") {
        return Some("machine.layer_change_gcode");
    }
    if str_eq(key, "printable_height") || str_eq(key, "max_print_height") {
        return Some("machine.printable_height");
    }
    if str_eq(key, "machine_max_acceleration_x") {
        return Some("machine.max_acceleration_x");
    }
    if str_eq(key, "machine_max_acceleration_y") {
        return Some("machine.max_acceleration_y");
    }
    if str_eq(key, "machine_max_acceleration_z") {
        return Some("machine.max_acceleration_z");
    }
    if str_eq(key, "machine_max_acceleration_e") {
        return Some("machine.max_acceleration_e");
    }
    if str_eq(key, "machine_max_acceleration_extruding") {
        return Some("machine.max_acceleration_extruding");
    }
    if str_eq(key, "machine_max_acceleration_retracting") {
        return Some("machine.max_acceleration_retracting");
    }
    if str_eq(key, "machine_max_acceleration_travel") {
        return Some("machine.max_acceleration_travel");
    }
    if str_eq(key, "machine_max_speed_x") {
        return Some("machine.max_speed_x");
    }
    if str_eq(key, "machine_max_speed_y") {
        return Some("machine.max_speed_y");
    }
    if str_eq(key, "machine_max_speed_z") {
        return Some("machine.max_speed_z");
    }
    if str_eq(key, "machine_max_speed_e") {
        return Some("machine.max_speed_e");
    }
    if str_eq(key, "nozzle_type") {
        return Some("machine.nozzle_type");
    }
    if str_eq(key, "printer_model") || str_eq(key, "printer_model_id") {
        return Some("machine.printer_model");
    }
    if str_eq(key, "bed_shape") || str_eq(key, "printable_area") {
        return Some("machine.bed_shape");
    }
    if str_eq(key, "min_layer_height") {
        return Some("machine.min_layer_height");
    }
    if str_eq(key, "max_layer_height") {
        return Some("machine.max_layer_height");
    }
    if str_eq(key, "extruder_clearance_radius") || str_eq(key, "extruder_clearance_max_radius") {
        return Some("sequential.extruder_clearance_radius");
    }
    if str_eq(key, "extruder_clearance_height_to_rod") || str_eq(key, "extruder_clearance_height_to_lid") || str_eq(key, "extruder_clearance_height") {
        return Some("sequential.extruder_clearance_height");
    }
    if str_eq(key, "gantry_width") {
        return Some("sequential.gantry_width");
    }
    if str_eq(key, "outer_wall_acceleration") {
        return Some("accel.outer_wall");
    }
    if str_eq(key, "inner_wall_acceleration") {
        return Some("accel.inner_wall");
    }
    if str_eq(key, "initial_layer_acceleration") {
        return Some("accel.initial_layer");
    }
    if str_eq(key, "initial_layer_travel_acceleration") || str_eq(key, "initial_layer_travel_speed") {
        return Some("accel.initial_layer_travel");
    }
    if str_eq(key, "top_surface_acceleration") {
        return Some("accel.top_surface");
    }
    if str_eq(key, "sparse_infill_acceleration") {
        return Some("accel.sparse_infill");
    }
    if str_eq(key, "bridge_acceleration") {
        return Some("accel.bridge");
    }
    if str_eq(key, "nozzle_temperature") || str_eq(key, "temperature") {
        return Some("filament.nozzle_temperatures");
    }
    if str_eq(key, "nozzle_temperature_initial_layer") || str_eq(key, "first_layer_temperature") {
        return Some("filament.first_layer_nozzle_temperatures");
    }
    if str_eq(key, "hot_plate_temp") || str_eq(key, "bed_temperature") {
        return Some("filament.bed_temperatures");
    }
    if str_eq(key, "hot_plate_temp_initial_layer") || str_eq(key, "bed_temperature_initial_layer") || str_eq(key, "first_layer_bed_temperature") {
        return Some("filament.first_layer_bed_temperatures");
    }
    if str_eq(key, "filament_density") {
        return Some("filament.density");
    }
    if str_eq(key, "filament_diameter") {
        return Some("filament.diameter");
    }
    if str_eq(key, "filament_cost") {
        return Some("filament.cost_per_kg");
    }
    if str_eq(key, "filament_flow_ratio") {
        return Some("extrusion_multiplier");
    }
    if str_eq(key, "close_fan_the_first_x_layers") {
        return Some("cooling.disable_fan_first_layers");
    }
    if str_eq(key, "fan_cooling_layer_time") {
        return Some("cooling.fan_below_layer_time");
    }
    if str_eq(key, "filament_type") {
        return Some("filament.filament_type");
    }
    if str_eq(key, "filament_vendor") {
        return Some("filament.filament_vendor");
    }
    if str_eq(key, "filament_max_volumetric_speed") {
        return Some("filament.max_volumetric_speed");
    }
    if str_eq(key, "nozzle_temperature_range_low") {
        return Some("filament.nozzle_temperature_range_low");
    }
    if str_eq(key, "nozzle_temperature_range_high") {
        return Some("filament.nozzle_temperature_range_high");
    }
    if str_eq(key, "filament_retraction_length") {
        return Some("filament.filament_retraction_length");
    }
    if str_eq(key, "filament_retraction_speed") {
        return Some("filament.filament_retraction_speed");
    }
    if str_eq(key, "filament_start_gcode") {
        return Some("filament.filament_start_gcode");
    }
    if str_eq(key, "filament_end_gcode") {
        return Some("filament.filament_end_gcode");
    }
    if str_eq(key, "nozzle_diameter") {
        return Some("machine.nozzle_diameters");
    }
    if str_eq(key, "retraction_length") {
        return Some("retraction.length");
    }
    if str_eq(key, "retraction_speed") {
        return Some("retraction.speed");
    }
    if str_eq(key, "z_hop") {
        return Some("retraction.z_hop");
    }
    if str_eq(key, "retraction_minimum_travel") {
        return Some("retraction.min_travel");
    }
    if str_eq(key, "gcode_flavor") {
        return Some("gcode_dialect");
    }
    if str_eq(key, "machine_max_jerk_x") {
        return Some("machine.jerk_values_x");
    }
    if str_eq(key, "machine_max_jerk_y") {
        return Some("machine.jerk_values_y");
    }
    if str_eq(key, "machine_max_jerk_z") {
        return Some("machine.jerk_values_z");
    }
    if str_eq(key, "machine_max_jerk_e") {
        return Some("machine.jerk_values_e");
    }
    if str_eq(key, "bridge_flow") || str_eq(key, "bridge_flow_ratio") {
        return Some("bridge_flow");
    }
    if str_eq(key, "elefant_foot_compensation") {
        return Some("elefant_foot_compensation");
    }
    if str_eq(key, "infill_direction") {
        return Some("infill_direction");
    }
    if str_eq(key, "infill_wall_overlap") || str_eq(key, "infill_overlap") {
        return Some("infill_wall_overlap");
    }
    if str_eq(key, "spiral_mode") || str_eq(key, "spiral_vase") {
        return Some("spiral_mode");
    }
    if str_eq(key, "only_one_wall_top") {
        return Some("only_one_wall_top");
    }
    if str_eq(key, "resolution") {
        return Some("resolution");
    }
    if str_eq(key, "raft_layers") {
        return Some("raft_layers");
    }
    if str_eq(key, "detect_thin_wall") || str_eq(key, "thin_walls") {
        return Some("detect_thin_wall");
    }
    if str_eq(key, "xy_hole_compensation") {
        return Some("dimensional_compensation.xy_hole_compensation");
    }
    if str_eq(key, "xy_contour_compensation") {
        return Some("dimensional_compensation.xy_contour_compensation");
    }
    if str_eq(key, "top_surface_pattern") {
        return Some("top_surface_pattern");
    }
    if str_eq(key, "bottom_surface_pattern") {
        return Some("bottom_surface_pattern");
    }
    if str_eq(key, "internal_solid_infill_pattern") {
        return Some("solid_infill_pattern");
    }
    if str_eq(key, "extra_perimeters_on_overhangs") {
        return Some("extra_perimeters_on_overhangs");
    }
    if str_eq(key, "internal_bridge_speed") {
        return Some("speeds.internal_bridge_speed");
    }
    if str_eq(key, "internal_bridge_support_enabled") {
        return Some("internal_bridge_support");
    }
    if str_eq(key, "filament_shrinkage_compensation") {
        return Some("filament.filament_shrink");
    }
    if str_eq(key, "z_offset") {
        return Some("z_offset");
    }
    if str_eq(key, "precise_z_height") {
        return Some("precise_z_height");
    }
    if str_eq(key, "min_length_factor") {
        return Some("accel.min_length_factor");
    }
    if str_eq(key, "chamber_temperature") {
        return Some("filament.chamber_temperature");
    }
    if str_eq(key, "curr_bed_type") {
        return Some("machine.curr_bed_type");
    }
    if str_eq(key, "cool_plate_temp") {
        return Some("filament.cool_plate_temp");
    }
    if str_eq(key, "eng_plate_temp") {
        return Some("filament.eng_plate_temp");
    }
    if str_eq(key, "textured_plate_temp") {
        return Some("filament.textured_plate_temp");
    }
    if str_eq(key, "cool_plate_temp_initial_layer") {
        return Some("filament.cool_plate_temp_initial_layer");
    }
    if str_eq(key, "eng_plate_temp_initial_layer") {
        return Some("filament.eng_plate_temp_initial_layer");
    }
    if str_eq(key, "textured_plate_temp_initial_layer") {
        return Some("filament.textured_plate_temp_initial_layer");
    }
    if str_eq(key, "fuzzy_skin") {
        return Some("fuzzy_skin.enabled");
    }
    if str_eq(key, "fuzzy_skin_thickness") {
        return Some("fuzzy_skin.thickness");
    }
    if str_eq(key, "fuzzy_skin_point_dist") {
        return Some("fuzzy_skin.point_distance");
    }
    if str_eq(key, "brim_type") {
        return Some("brim_skirt.brim_type");
    }
    if str_eq(key, "brim_ears") {
        return Some("brim_skirt.brim_ears");
    }
    if str_eq(key, "brim_ears_max_angle") {
        return Some("brim_skirt.brim_ears_max_angle");
    }
    if str_eq(key, "skirt_height") {
        return Some("brim_skirt.skirt_height");
    }
    if str_eq(key, "accel_to_decel_enable") {
        return Some("input_shaping.accel_to_decel_enable");
    }
    if str_eq(key, "accel_to_decel_factor") {
        return Some("input_shaping.accel_to_decel_factor");
    }
    if str_eq(key, "retraction_distances_when_cut") {
        return Some("multi_material.tool_change_retraction.retraction_distance_when_cut");
    }
    if str_eq(key, "long_retractions_when_cut") {
        return Some("multi_material.tool_change_retraction.long_retraction_when_cut");
    }
    if str_eq(key, "internal_solid_infill_acceleration") {
        return Some("accel.internal_solid_infill_acceleration");
    }
    if str_eq(key, "support_acceleration") {
        return Some("accel.support_acceleration");
    }
    if str_eq(key, "support_interface_acceleration") {
        return Some("accel.support_interface_acceleration");
    }
    if str_eq(key, "additional_cooling_fan_speed") {
        return Some("cooling.additional_cooling_fan_speed");
    }
    if str_eq(key, "auxiliary_fan") {
        return Some("cooling.auxiliary_fan");
    }
    if str_eq(key, "enable_overhang_speed") {
        return Some("speeds.enable_overhang_speed");
    }
    if str_eq(key, "filament_colour") {
        return Some("filament.filament_colour");
    }
    if str_eq(key, "wall_filament") {
        return Some("multi_material.wall_filament");
    }
    if str_eq(key, "solid_infill_filament") {
        return Some("multi_material.solid_infill_filament");
    }
    if str_eq(key, "support_filament") {
        return Some("multi_material.support_filament");
    }
    if str_eq(key, "support_interface_filament") {
        return Some("multi_material.support_interface_filament");
    }
    if str_eq(key, "precise_outer_wall") {
        return Some("precise_outer_wall");
    }
    if str_eq(key, "draft_shield") {
        return Some("draft_shield");
    }
    if str_eq(key, "ooze_prevention") {
        return Some("ooze_prevention");
    }
    if str_eq(key, "infill_combination") || str_eq(key, "infill_every_layers") {
        return Some("infill_combination");
    }
    if str_eq(key, "infill_anchor_max") {
        return Some("infill_anchor_max");
    }
    if str_eq(key, "min_bead_width") {
        return Some("min_bead_width");
    }
    if str_eq(key, "min_feature_size") {
        return Some("min_feature_size");
    }
    if str_eq(key, "support_bottom_interface_layers") {
        return Some("support.support_bottom_interface_layers");
    }
    if str_eq(key, "enable_support") || str_eq(key, "support_material") {
        return Some("support.enabled");
    }
    if str_eq(key, "support_type") || str_eq(key, "support_material_type") || str_eq(key, "support_style") || str_eq(key, "support_material_style") {
        return Some("support.support_type");
    }
    if str_eq(key, "support_threshold_angle") || str_eq(key, "support_angle") || str_eq(key, "support_material_threshold") {
        return Some("support.overhang_angle");
    }
    if str_eq(key, "support_base_pattern") || str_eq(key, "support_material_pattern") {
        return Some("support.support_pattern");
    }
    if str_eq(key, "support_on_build_plate_only") || str_eq(key, "support_material_buildplate_only") {
        return Some("support.build_plate_only");
    }
    if str_eq(key, "support_top_z_distance") || str_eq(key, "support_material_contact_distance") {
        return Some("support.z_gap");
    }
    if str_eq(key, "support_bottom_z_distance") || str_eq(key, "support_material_bottom_contact_distance") {
        return Some("support.bottom_z_gap");
    }
    if str_eq(key, "support_object_xy_distance") || str_eq(key, "support_material_xy_spacing") {
        return Some("support.xy_gap");
    }
    if str_eq(key, "support_interface_top_layers") || str_eq(key, "support_material_interface_layers") {
        return Some("support.interface_layers");
    }
    if str_eq(key, "support_interface_bottom_layers") || str_eq(key, "support_material_bottom_interface_layers") {
        return Some("support.support_bottom_interface_layers");
    }
    if str_eq(key, "support_interface_pattern") || str_eq(key, "support_material_interface_pattern") {
        return Some("support.interface_pattern");
    }
    if str_eq(key, "support_base_pattern_spacing") || str_eq(key, "support_material_spacing") {
        return Some("support.support_density");
    }
    if str_eq(key, "support_interface_spacing") || str_eq(key, "support_material_interface_spacing") {
        return Some("support.interface_density");
    }
    if str_eq(key, "support_expansion") {
        return Some("support.expansion");
    }
    if str_eq(key, "support_critical_regions_only") {
        return Some("support.critical_regions_only");
    }
    if str_eq(key, "support_remove_small_overhang") {
        return Some("support.remove_small_overhang");
    }
    if str_eq(key, "support_flow_ratio") || str_eq(key, "support_material_flow") {
        return Some("support.flow_ratio");
    }
    if str_eq(key, "support_interface_flow_ratio") || str_eq(key, "support_material_interface_flow") {
        return Some("support.interface_flow_ratio");
    }
    if str_eq(key, "support_material_synchronize_layers") {
        return Some("support.synchronize_layers");
    }
    if str_eq(key, "enforce_support_layers") || str_eq(key, "support_material_enforce_layers") {
        return Some("support.enforce_layers");
    }
    if str_eq(key, "support_closing_radius") || str_eq(key, "support_material_closing_radius") {
        return Some("support.closing_radius");
    }
    if str_eq(key, "support_material_auto") {
        return Some("support.support_type");
    }
    if str_eq(key, "raft_first_layer_expansion") {
        return Some("support.raft_expansion");
    }
    if str_eq(key, "bridge_angle") {
        return Some("support.bridge.angle");
    }
    if str_eq(key, "bridge_density") {
        return Some("support.bridge.density");
    }
    if str_eq(key, "thick_bridges") {
        return Some("support.bridge.thick_bridges");
    }
    if str_eq(key, "bridge_no_support") {
        return Some("support.bridge.no_support");
    }
    if str_eq(key, "bridge_fan_speed") {
        return Some("support.bridge.fan_speed");
    }
    if str_eq(key, "tree_support_branch_angle") || str_eq(key, "support_tree_angle") {
        return Some("support.tree.branch_angle");
    }
    if str_eq(key, "tree_support_branch_diameter") || str_eq(key, "support_tree_branch_diameter") {
        return Some("support.tree.max_trunk_diameter");
    }
    if str_eq(key, "tree_support_tip_diameter") {
        return Some("support.tree.tip_diameter");
    }
    if str_eq(key, "tree_support_branch_distance") || str_eq(key, "support_tree_top_rate") {
        return Some("support.tree.branch_distance");
    }
    if str_eq(key, "tree_support_branch_diameter_angle") {
        return Some("support.tree.branch_diameter_angle");
    }
    if str_eq(key, "tree_support_wall_count") {
        return Some("support.tree.wall_count");
    }
    if str_eq(key, "tree_support_auto_brim") {
        return Some("support.tree.auto_brim");
    }
    if str_eq(key, "tree_support_brim_width") {
        return Some("support.tree.brim_width");
    }
    if str_eq(key, "tree_support_adaptive_layer_height") {
        return Some("support.tree.adaptive_layer_height");
    }
    if str_eq(key, "tree_support_angle_slow") {
        return Some("support.tree.angle_slow");
    }
    if str_eq(key, "tree_support_top_rate") {
        return Some("support.tree.top_rate");
    }
    if str_eq(key, "tree_support_with_infill") {
        return Some("support.tree.with_infill");
    }
    None
}

/// Two upstream keys are synonyms: different spellings of one setting.
pub open spec fn upstream_synonyms(a: Seq<char>, b: Seq<char>) -> bool {
    ((a == "overhang_1_4_speed"@ || a == "overhang_speed_0"@) && (b == "overhang_1_4_speed"@ || b == "overhang_speed_0"@))
        || ((a == "overhang_2_4_speed"@ || a == "overhang_speed_1"@) && (b == "overhang_2_4_speed"@ || b == "overhang_speed_1"@))
        || ((a == "overhang_3_4_speed"@ || a == "overhang_speed_2"@) && (b == "overhang_3_4_speed"@ || b == "overhang_speed_2"@))
        || ((a == "overhang_4_4_speed"@ || a == "overhang_speed_3"@) && (b == "overhang_4_4_speed"@ || b == "overhang_speed_3"@))
        || ((a == "line_width"@ || a == "extrusion_width"@ || a == "outer_wall_line_width"@) && (b == "line_width"@ || b == "extrusion_width"@ || b == "outer_wall_line_width"@))
        || ((a == "slow_down_layer_time"@ || a == "slowdown_below_layer_time"@) && (b == "slow_down_layer_time"@ || b == "slowdown_below_layer_time"@))
        || ((a == "slow_down_min_speed"@ || a == "min_print_speed"@) && (b == "slow_down_min_speed"@ || b == "min_print_speed"@))
        || ((a == "full_fan_speed_layer"@ || a == "disable_fan_first_layers"@) && (b == "full_fan_speed_layer"@ || b == "disable_fan_first_layers"@))
        || ((a == "machine_start_gcode"@ || a == "start_gcode"@) && (b == "machine_start_gcode"@ || b == "start_gcode"@))
        || ((a == "machine_end_gcode"@ || a == "end_gcode"@) && (b == "machine_end_gcode"@ || b == "end_gcode"@))
        || ((a == "layer_change_gcode"@ || a == "layer_gcode"@) && (b == "layer_change_gcode"@ || b == "layer_gcode"@))
        || ((a == "printable_height"@ || a == "max_print_height"@) && (b == "printable_height"@ || b == "max_print_height"@))
        || ((a == "printer_model"@ || a == "printer_model_id"@) && (b == "printer_model"@ || b == "printer_model_id"@))
        || ((a == "bed_shape"@ || a == "printable_area"@) && (b == "bed_shape"@ || b == "printable_area"@))
        || ((a == "extruder_clearance_radius"@ || a == "extruder_clearance_max_radius"@) && (b == "extruder_clearance_radius"@ || b == "extruder_clearance_max_radius"@))
        || ((a == "extruder_clearance_height_to_rod"@ || a == "extruder_clearance_height_to_lid"@ || a == "extruder_clearance_height"@) && (b == "extruder_clearance_height_to_rod"@ || b == "extruder_clearance_height_to_lid"@ || b == "extruder_clearance_height"@))
        || ((a == "initial_layer_travel_acceleration"@ || a == "initial_layer_travel_speed"@) && (b == "initial_layer_travel_acceleration"@ || b == "initial_layer_travel_speed"@))
        || ((a == "nozzle_temperature"@ || a == "temperature"@) && (b == "nozzle_temperature"@ || b == "temperature"@))
        || ((a == "nozzle_temperature_initial_layer"@ || a == "first_layer_temperature"@) && (b == "nozzle_temperature_initial_layer"@ || b == "first_layer_temperature"@))
        || ((a == "hot_plate_temp"@ || a == "bed_temperature"@) && (b == "hot_plate_temp"@ || b == "bed_temperature"@))
        || ((a == "hot_plate_temp_initial_layer"@ || a == "bed_temperature_initial_layer"@ || a == "first_layer_bed_temperature"@) && (b == "hot_plate_temp_initial_layer"@ || b == "bed_temperature_initial_layer"@ || b == "first_layer_bed_temperature"@))
        || ((a == "bridge_flow"@ || a == "bridge_flow_ratio"@) && (b == "bridge_flow"@ || b == "bridge_flow_ratio"@))
        || ((a == "infill_wall_overlap"@ || a == "infill_overlap"@) && (b == "infill_wall_overlap"@ || b == "infill_overlap"@))
        || ((a == "spiral_mode"@ || a == "spiral_vase"@) && (b == "spiral_mode"@ || b == "spiral_vase"@))
        || ((a == "detect_thin_wall"@ || a == "thin_walls"@) && (b == "detect_thin_wall"@ || b == "thin_walls"@))
        || ((a == "infill_combination"@ || a == "infill_every_layers"@) && (b == "infill_combination"@ || b == "infill_every_layers"@))
        || ((a == "support_bottom_interface_layers"@ || a == "support_interface_bottom_layers"@ || a == "support_material_bottom_interface_layers"@) && (b == "support_bottom_interface_layers"@ || b == "support_interface_bottom_layers"@ || b == "support_material_bottom_interface_layers"@))
        || ((a == "enable_support"@ || a == "support_material"@) && (b == "enable_support"@ || b == "support_material"@))
        || ((a == "support_type"@ || a == "support_material_type"@ || a == "support_style"@ || a == "support_material_style"@ || a == "support_material_auto"@) && (b == "support_type"@ || b == "support_material_type"@ || b == "support_style"@ || b == "support_material_style"@ || b == "support_material_auto"@))
        || ((a == "support_threshold_angle"@ || a == "support_angle"@ || a == "support_material_threshold"@) && (b == "support_threshold_angle"@ || b == "support_angle"@ || b == "support_material_threshold"@))
        || ((a == "support_base_pattern"@ || a == "support_material_pattern"@) && (b == "support_base_pattern"@ || b == "support_material_pattern"@))
        || ((a == "support_on_build_plate_only"@ || a == "support_material_buildplate_only"@) && (b == "support_on_build_plate_only"@ || b == "support_material_buildplate_only"@))
        || ((a == "support_top_z_distance"@ || a == "support_material_contact_distance"@) && (b == "support_top_z_distance"@ || b == "support_material_contact_distance"@))
        || ((a == "support_bottom_z_distance"@ || a == "support_material_bottom_contact_distance"@) && (b == "support_bottom_z_distance"@ || b == "support_material_bottom_contact_distance"@))
        || ((a == "support_object_xy_distance"@ || a == "support_material_xy_spacing"@) && (b == "support_object_xy_distance"@ || b == "support_material_xy_spacing"@))
        || ((a == "support_interface_top_layers"@ || a == "support_material_interface_layers"@) && (b == "support_interface_top_layers"@ || b == "support_material_interface_layers"@))
        || ((a == "support_interface_pattern"@ || a == "support_material_interface_pattern"@) && (b == "support_interface_pattern"@ || b == "support_material_interface_pattern"@))
        || ((a == "support_base_pattern_spacing"@ || a == "support_material_spacing"@) && (b == "support_base_pattern_spacing"@ || b == "support_material_spacing"@))
        || ((a == "support_interface_spacing"@ || a == "support_material_interface_spacing"@) && (b == "support_interface_spacing"@ || b == "support_material_interface_spacing"@))
        || ((a == "support_flow_ratio"@ || a == "support_material_flow"@) && (b == "support_flow_ratio"@ || b == "support_material_flow"@))
        || ((a == "support_interface_flow_ratio"@ || a == "support_material_interface_flow"@) && (b == "support_interface_flow_ratio"@ || b == "support_material_interface_flow"@))
        || ((a == "enforce_support_layers"@ || a == "support_material_enforce_layers"@) && (b == "enforce_support_layers"@ || b == "support_material_enforce_layers"@))
        || ((a == "support_closing_radius"@ || a == "support_material_closing_radius"@) && (b == "support_closing_radius"@ || b == "support_material_closing_radius"@))
        || ((a == "tree_support_branch_angle"@ || a == "support_tree_angle"@) && (b == "tree_support_branch_angle"@ || b == "support_tree_angle"@))
        || ((a == "tree_support_branch_diameter"@ || a == "support_tree_branch_diameter"@) && (b == "tree_support_branch_diameter"@ || b == "support_tree_branch_diameter"@))
        || ((a == "tree_support_branch_distance"@ || a == "support_tree_top_rate"@) && (b == "tree_support_branch_distance"@ || b == "support_tree_top_rate"@))
}

/// The upstream keys that feed each configuration field.
spec fn upstream_source(f: Seq<char>, key: Seq<char>) -> bool {
    (f == "layer_height"@ && (key == "layer_height"@))
        || (f == "first_layer_height"@ && (key == "initial_layer_print_height"@))
        || (f == "wall_count"@ && (key == "wall_loops"@))
        || (f == "infill_density"@ && (key == "sparse_infill_density"@))
        || (f == "infill_pattern"@ && (key == "sparse_infill_pattern"@))
        || (f == "top_solid_layers"@ && (key == "top_shell_layers"@))
        || (f == "bottom_solid_layers"@ && (key == "bottom_shell_layers"@))
        || (f == "speeds.perimeter"@ && (key == "outer_wall_speed"@))
        || (f == "speeds.infill"@ && (key == "sparse_infill_speed"@))
        || (f == "speeds.travel"@ && (key == "travel_speed"@))
        || (f == "speeds.first_layer"@ && (key == "initial_layer_speed"@))
        || (f == "skirt_loops"@ && (key == "skirt_loops"@))
        || (f == "skirt_distance"@ && (key == "skirt_distance"@))
        || (f == "brim_width"@ && (key == "brim_width"@))
        || (f == "accel.print"@ && (key == "default_acceleration"@))
        || (f == "accel.travel"@ && (key == "travel_acceleration"@))
        || (f == "arc_fitting_enabled"@ && (key == "enable_arc_fitting"@))
        || (f == "adaptive_layer_height"@ && (key == "adaptive_layer_height"@))
        || (f == "arachne_enabled"@ && (key == "wall_generator"@))
        || (f == "seam_position"@ && (key == "seam_position"@))
        || (f == "speeds.bridge"@ && (key == "bridge_speed"@))
        || (f == "speeds.inner_wall"@ && (key == "inner_wall_speed"@))
        || (f == "speeds.gap_fill"@ && (key == "gap_infill_speed"@))
        || (f == "speeds.top_surface"@ && (key == "top_surface_speed"@))
        || (f == "speeds.internal_solid_infill"@ && (key == "internal_solid_infill_speed"@))
        || (f == "speeds.initial_layer_infill"@ && (key == "initial_layer_infill_speed"@))
        || (f == "speeds.support"@ && (key == "support_speed"@))
        || (f == "speeds.support_interface"@ && (key == "support_interface_speed"@))
        || (f == "speeds.small_perimeter"@ && (key == "small_perimeter_speed"@))
        || (f == "speeds.solid_infill"@ && (key == "solid_infill_speed"@))
        || (f == "speeds.overhang_1_4"@ && (key == "overhang_1_4_speed"@ || key == "overhang_speed_0"@))
        || (f == "speeds.overhang_2_4"@ && (key == "overhang_2_4_speed"@ || key == "overhang_speed_1"@))
        || (f == "speeds.overhang_3_4"@ && (key == "overhang_3_4_speed"@ || key == "overhang_speed_2"@))
        || (f == "speeds.overhang_4_4"@ && (key == "overhang_4_4_speed"@ || key == "overhang_speed_3"@))
        || (f == "speeds.travel_z"@ && (key == "travel_speed_z"@))
        || (f == "line_widths.outer_wall"@ && (key == "line_width"@ || key == "extrusion_width"@ || key == "outer_wall_line_width"@))
        || (f == "line_widths.inner_wall"@ && (key == "inner_wall_line_width"@))
        || (f == "line_widths.infill"@ && (key == "sparse_infill_line_width"@))
        || (f == "line_widths.top_surface"@ && (key == "top_surface_line_width"@))
        || (f == "line_widths.initial_layer"@ && (key == "initial_layer_line_width"@))
        || (f == "line_widths.internal_solid_infill"@ && (key == "internal_solid_infill_line_width"@))
        || (f == "line_widths.support"@ && (key == "support_line_width"@))
        || (f == "cooling.fan_max_speed"@ && (key == "fan_max_speed"@))
        || (f == "cooling.fan_min_speed"@ && (key == "fan_min_speed"@))
        || (f == "cooling.slow_down_layer_time"@ && (key == "slow_down_layer_time"@ || key == "slowdown_below_layer_time"@))
        || (f == "cooling.slow_down_min_speed"@ && (key == "slow_down_min_speed"@ || key == "min_print_speed"@))
        || (f == "cooling.overhang_fan_speed"@ && (key == "overhang_fan_speed"@))
        || (f == "cooling.overhang_fan_threshold"@ && (key == "overhang_fan_threshold"@))
        || (f == "cooling.full_fan_speed_layer"@ && (key == "full_fan_speed_layer"@ || key == "disable_fan_first_layers"@))
        || (f == "cooling.slow_down_for_layer_cooling"@ && (key == "slow_down_for_layer_cooling"@))
        || (f == "retraction.deretraction_speed"@ && (key == "deretraction_speed"@))
        || (f == "retraction.retract_before_wipe"@ && (key == "retract_before_wipe"@))
        || (f == "retraction.retract_when_changing_layer"@ && (key == "retract_when_changing_layer"@))
        || (f == "retraction.wipe"@ && (key == "wipe"@))
        || (f == "retraction.wipe_distance"@ && (key == "wipe_distance"@))
        || (f == "machine.start_gcode"@ && (key == "machine_start_gcode"@ || key == "start_gcode"@))
        || (f == "machine.end_gcode"@ && (key == "machine_end_gcode"@ || key == "end_gcode"@))
        || (f == "machine.layer_change_gcode"@ && (key == "layer_change_gcode"@ || key == "layer_gcode"@))
        || (f == "machine.printable_height"@ && (key == "printable_height"@ || key == "max_print_height"@))
        || (f == "machine.max_acceleration_x"@ && (key == "machine_max_acceleration_x"@))
        || (f == "machine.max_acceleration_y"@ && (key == "machine_max_acceleration_y"@))
        || (f == "machine.max_acceleration_z"@ && (key == "machine_max_acceleration_z"@))
        || (f == "machine.max_acceleration_e"@ && (key == "machine_max_acceleration_e"@))
        || (f == "machine.max_acceleration_extruding"@ && (key == "machine_max_acceleration_extruding"@))
        || (f == "machine.max_acceleration_retracting"@ && (key == "machine_max_acceleration_retracting"@))
        || (f == "machine.max_acceleration_travel"@ && (key == "machine_max_acceleration_travel"@))
        || (f == "machine.max_speed_x"@ && (key == "machine_max_speed_x"@))
        || (f == "machine.max_speed_y"@ && (key == "machine_max_speed_y"@))
        || (f == "machine.max_speed_z"@ && (key == "machine_max_speed_z"@))
        || (f == "machine.max_speed_e"@ && (key == "machine_max_speed_e"@))
        || (f == "machine.nozzle_type"@ && (key == "nozzle_type"@))
        || (f == "machine.printer_model"@ && (key == "printer_model"@ || key == "printer_model_id"@))
        || (f == "machine.bed_shape"@ && (key == "bed_shape"@ || key == "printable_area"@))
        || (f == "machine.min_layer_height"@ && (key == "min_layer_height"@))
        || (f == "machine.max_layer_height"@ && (key == "max_layer_height"@))
        || (f == "sequential.extruder_clearance_radius"@ && (key == "extruder_clearance_radius"@ || key == "extruder_clearance_max_radius"@))
        || (f == "sequential.extruder_clearance_height"@ && (key == "extruder_clearance_height_to_rod"@ || key == "extruder_clearance_height_to_lid"@ || key == "extruder_clearance_height"@))
        || (f == "sequential.gantry_width"@ && (key == "gantry_width"@))
        || (f == "accel.outer_wall"@ && (key == "outer_wall_acceleration"@))
        || (f == "accel.inner_wall"@ && (key == "inner_wall_acceleration"@))
        || (f == "accel.initial_layer"@ && (key == "initial_layer_acceleration"@))
        || (f == "accel.initial_layer_travel"@ && (key == "initial_layer_travel_acceleration"@ || key == "initial_layer_travel_speed"@))
        || (f == "accel.top_surface"@ && (key == "top_surface_acceleration"@))
        || (f == "accel.sparse_infill"@ && (key == "sparse_infill_acceleration"@))
        || (f == "accel.bridge"@ && (key == "bridge_acceleration"@))
        || (f == "filament.nozzle_temperatures"@ && (key == "nozzle_temperature"@ || key == "temperature"@))
        || (f == "filament.first_layer_nozzle_temperatures"@ && (key == "nozzle_temperature_initial_layer"@ || key == "first_layer_temperature"@))
        || (f == "filament.bed_temperatures"@ && (key == "hot_plate_temp"@ || key == "bed_temperature"@))
        || (f == "filament.first_layer_bed_temperatures"@ && (key == "hot_plate_temp_initial_layer"@ || key == "bed_temperature_initial_layer"@ || key == "first_layer_bed_temperature"@))
        || (f == "filament.density"@ && (key == "filament_density"@))
        || (f == "filament.diameter"@ && (key == "filament_diameter"@))
        || (f == "filament.cost_per_kg"@ && (key == "filament_cost"@))
        || (f == "extrusion_multiplier"@ && (key == "filament_flow_ratio"@))
        || (f == "cooling.disable_fan_first_layers"@ && (key == "close_fan_the_first_x_layers"@))
        || (f == "cooling.fan_below_layer_time"@ && (key == "fan_cooling_layer_time"@))
        || (f == "filament.filament_type"@ && (key == "filament_type"@))
        || (f == "filament.filament_vendor"@ && (key == "filament_vendor"@))
        || (f == "filament.max_volumetric_speed"@ && (key == "filament_max_volumetric_speed"@))
        || (f == "filament.nozzle_temperature_range_low"@ && (key == "nozzle_temperature_range_low"@))
        || (f == "filament.nozzle_temperature_range_high"@ && (key == "nozzle_temperature_range_high"@))
        || (f == "filament.filament_retraction_length"@ && (key == "filament_retraction_length"@))
        || (f == "filament.filament_retraction_speed"@ && (key == "filament_retraction_speed"@))
        || (f == "filament.filament_start_gcode"@ && (key == "filament_start_gcode"@))
        || (f == "filament.filament_end_gcode"@ && (key == "filament_end_gcode"@))
        || (f == "machine.nozzle_diameters"@ && (key == "nozzle_diameter"@))
        || (f == "retraction.length"@ && (key == "retraction_length"@))
        || (f == "retraction.speed"@ && (key == "retraction_speed"@))
        || (f == "retraction.z_hop"@ && (key == "z_hop"@))
        || (f == "retraction.min_travel"@ && (key == "retraction_minimum_travel"@))
        || (f == "gcode_dialect"@ && (key == "gcode_flavor"@))
        || (f == "machine.jerk_values_x"@ && (key == "machine_max_jerk_x"@))
        || (f == "machine.jerk_values_y"@ && (key == "machine_max_jerk_y"@))
        || (f == "machine.jerk_values_z"@ && (key == "machine_max_jerk_z"@))
        || (f == "machine.jerk_values_e"@ && (key == "machine_max_jerk_e"@))
        || (f == "bridge_flow"@ && (key == "bridge_flow"@ || key == "bridge_flow_ratio"@))
        || (f == "elefant_foot_compensation"@ && (key == "elefant_foot_compensation"@))
        || (f == "infill_direction"@ && (key == "infill_direction"@))
        || (f == "infill_wall_overlap"@ && (key == "infill_wall_overlap"@ || key == "infill_overlap"@))
        || (f == "spiral_mode"@ && (key == "spiral_mode"@ || key == "spiral_vase"@))
        || (f == "only_one_wall_top"@ && (key == "only_one_wall_top"@))
        || (f == "resolution"@ && (key == "resolution"@))
        || (f == "raft_layers"@ && (key == "raft_layers"@))
        || (f == "detect_thin_wall"@ && (key == "detect_thin_wall"@ || key == "thin_walls"@))
        || (f == "dimensional_compensation.xy_hole_compensation"@ && (key == "xy_hole_compensation"@))
        || (f == "dimensional_compensation.xy_contour_compensation"@ && (key == "xy_contour_compensation"@))
        || (f == "top_surface_pattern"@ && (key == "top_surface_pattern"@))
        || (f == "bottom_surface_pattern"@ && (key == "bottom_surface_pattern"@))
        || (f == "solid_infill_pattern"@ && (key == "internal_solid_infill_pattern"@))
        || (f == "extra_perimeters_on_overhangs"@ && (key == "extra_perimeters_on_overhangs"@))
        || (f == "speeds.internal_bridge_speed"@ && (key == "internal_bridge_speed"@))
        || (f == "internal_bridge_support"@ && (key == "internal_bridge_support_enabled"@))
        || (f == "filament.filament_shrink"@ && (key == "filament_shrinkage_compensation"@))
        || (f == "z_offset"@ && (key == "z_offset"@))
        || (f == "precise_z_height"@ && (key == "precise_z_height"@))
        || (f == "accel.min_length_factor"@ && (key == "min_length_factor"@))
        || (f == "filament.chamber_temperature"@ && (key == "chamber_temperature"@))
        || (f == "machine.curr_bed_type"@ && (key == "curr_bed_type"@))
        || (f == "filament.cool_plate_temp"@ && (key == "cool_plate_temp"@))
        || (f == "filament.eng_plate_temp"@ && (key == "eng_plate_temp"@))
        || (f == "filament.textured_plate_temp"@ && (key == "textured_plate_temp"@))
        || (f == "filament.cool_plate_temp_initial_layer"@ && (key == "cool_plate_temp_initial_layer"@))
        || (f == "filament.eng_plate_temp_initial_layer"@ && (key == "eng_plate_temp_initial_layer"@))
        || (f == "filament.textured_plate_temp_initial_layer"@ && (key == "textured_plate_temp_initial_layer"@))
        || (f == "fuzzy_skin.enabled"@ && (key == "fuzzy_skin"@))
        || (f == "fuzzy_skin.thickness"@ && (key == "fuzzy_skin_thickness"@))
        || (f == "fuzzy_skin.point_distance"@ && (key == "fuzzy_skin_point_dist"@))
        || (f == "brim_skirt.brim_type"@ && (key == "brim_type"@))
        || (f == "brim_skirt.brim_ears"@ && (key == "brim_ears"@))
        || (f == "brim_skirt.brim_ears_max_angle"@ && (key == "brim_ears_max_angle"@))
        || (f == "brim_skirt.skirt_height"@ && (key == "skirt_height"@))
        || (f == "input_shaping.accel_to_decel_enable"@ && (key == "accel_to_decel_enable"@))
        || (f == "input_shaping.accel_to_decel_factor"@ && (key == "accel_to_decel_factor"@))
        || (f == "multi_material.tool_change_retraction.retraction_distance_when_cut"@ && (key == "retraction_distances_when_cut"@))
        || (f == "multi_material.tool_change_retraction.long_retraction_when_cut"@ && (key == "long_retractions_when_cut"@))
        || (f == "accel.internal_solid_infill_acceleration"@ && (key == "internal_solid_infill_acceleration"@))
        || (f == "accel.support_acceleration"@ && (key == "support_acceleration"@))
        || (f == "accel.support_interface_acceleration"@ && (key == "support_interface_acceleration"@))
        || (f == "cooling.additional_cooling_fan_speed"@ && (key == "additional_cooling_fan_speed"@))
        || (f == "cooling.auxiliary_fan"@ && (key == "auxiliary_fan"@))
        || (f == "speeds.enable_overhang_speed"@ && (key == "enable_overhang_speed"@))
        || (f == "filament.filament_colour"@ && (key == "filament_colour"@))
        || (f == "multi_material.wall_filament"@ && (key == "wall_filament"@))
        || (f == "multi_material.solid_infill_filament"@ && (key == "solid_infill_filament"@))
        || (f == "multi_material.support_filament"@ && (key == "support_filament"@))
        || (f == "multi_material.support_interface_filament"@ && (key == "support_interface_filament"@))
        || (f == "precise_outer_wall"@ && (key == "precise_outer_wall"@))
        || (f == "draft_shield"@ && (key == "draft_shield"@))
        || (f == "ooze_prevention"@ && (key == "ooze_prevention"@))
        || (f == "infill_combination"@ && (key == "infill_combination"@ || key == "infill_every_layers"@))
        || (f == "infill_anchor_max"@ && (key == "infill_anchor_max"@))
        || (f == "min_bead_width"@ && (key == "min_bead_width"@))
        || (f == "min_feature_size"@ && (key == "min_feature_size"@))
        || (f == "support.support_bottom_interface_layers"@ && (key == "support_bottom_interface_layers"@ || key == "support_interface_bottom_layers"@ || key == "support_material_bottom_interface_layers"@))
        || (f == "support.enabled"@ && (key == "enable_support"@ || key == "support_material"@))
        || (f == "support.support_type"@ && (key == "support_type"@ || key == "support_material_type"@ || key == "support_style"@ || key == "support_material_style"@ || key == "support_material_auto"@))
        || (f == "support.overhang_angle"@ && (key == "support_threshold_angle"@ || key == "support_angle"@ || key == "support_material_threshold"@))
        || (f == "support.support_pattern"@ && (key == "support_base_pattern"@ || key == "support_material_pattern"@))
        || (f == "support.build_plate_only"@ && (key == "support_on_build_plate_only"@ || key == "support_material_buildplate_only"@))
        || (f == "support.z_gap"@ && (key == "support_top_z_distance"@ || key == "support_material_contact_distance"@))
        || (f == "support.bottom_z_gap"@ && (key == "support_bottom_z_distance"@ || key == "support_material_bottom_contact_distance"@))
        || (f == "support.xy_gap"@ && (key == "support_object_xy_distance"@ || key == "support_material_xy_spacing"@))
        || (f == "support.interface_layers"@ && (key == "support_interface_top_layers"@ || key == "support_material_interface_layers"@))
        || (f == "support.interface_pattern"@ && (key == "support_interface_pattern"@ || key == "support_material_interface_pattern"@))
        || (f == "support.support_density"@ && (key == "support_base_pattern_spacing"@ || key == "support_material_spacing"@))
        || (f == "support.interface_density"@ && (key == "support_interface_spacing"@ || key == "support_material_interface_spacing"@))
        || (f == "support.expansion"@ && (key == "support_expansion"@))
        || (f == "support.critical_regions_only"@ && (key == "support_critical_regions_only"@))
        || (f == "support.remove_small_overhang"@ && (key == "support_remove_small_overhang"@))
        || (f == "support.flow_ratio"@ && (key == "support_flow_ratio"@ || key == "support_material_flow"@))
        || (f == "support.interface_flow_ratio"@ && (key == "support_interface_flow_ratio"@ || key == "support_material_interface_flow"@))
        || (f == "support.synchronize_layers"@ && (key == "support_material_synchronize_layers"@))
        || (f == "support.enforce_layers"@ && (key == "enforce_support_layers"@ || key == "support_material_enforce_layers"@))
        || (f == "support.closing_radius"@ && (key == "support_closing_radius"@ || key == "support_material_closing_radius"@))
        || (f == "support.raft_expansion"@ && (key == "raft_first_layer_expansion"@))
        || (f == "support.bridge.angle"@ && (key == "bridge_angle"@))
        || (f == "support.bridge.density"@ && (key == "bridge_density"@))
        || (f == "support.bridge.thick_bridges"@ && (key == "thick_bridges"@))
        || (f == "support.bridge.no_support"@ && (key == "bridge_no_support"@))
        || (f == "support.bridge.fan_speed"@ && (key == "bridge_fan_speed"@))
        || (f == "support.tree.branch_angle"@ && (key == "tree_support_branch_angle"@ || key == "support_tree_angle"@))
        || (f == "support.tree.max_trunk_diameter"@ && (key == "tree_support_branch_diameter"@ || key == "support_tree_branch_diameter"@))
        || (f == "support.tree.tip_diameter"@ && (key == "tree_support_tip_diameter"@))
        || (f == "support.tree.branch_distance"@ && (key == "tree_support_branch_distance"@ || key == "support_tree_top_rate"@))
        || (f == "support.tree.branch_diameter_angle"@ && (key == "tree_support_branch_diameter_angle"@))
        || (f == "support.tree.wall_count"@ && (key == "tree_support_wall_count"@))
        || (f == "support.tree.auto_brim"@ && (key == "tree_support_auto_brim"@))
        || (f == "support.tree.brim_width"@ && (key == "tree_support_brim_width"@))
        || (f == "support.tree.adaptive_layer_height"@ && (key == "tree_support_adaptive_layer_height"@))
        || (f == "support.tree.angle_slow"@ && (key == "tree_support_angle_slow"@))
        || (f == "support.tree.top_rate"@ && (key == "tree_support_top_rate"@))
        || (f == "support.tree.with_infill"@ && (key == "tree_support_with_infill"@))
}

/// The keys of one stretch of the upstream key table.
spec fn upstream_keys_1(key: Seq<char>) -> bool {
    key == "layer_height"@
        || key == "initial_layer_print_height"@
        || key == "wall_loops"@
        || key == "sparse_infill_density"@
        || key == "sparse_infill_pattern"@
        || key == "top_shell_layers"@
        || key == "bottom_shell_layers"@
        || key == "outer_wall_speed"@
        || key == "sparse_infill_speed"@
        || key == "travel_speed"@
        || key == "initial_layer_speed"@
        || key == "skirt_loops"@
        || key == "skirt_distance"@
        || key == "brim_width"@
        || key == "default_acceleration"@
        || key == "travel_acceleration"@
        || key == "enable_arc_fitting"@
        || key == "adaptive_layer_height"@
        || key == "wall_generator"@
        || key == "seam_position"@
        || key == "bridge_speed"@
        || key == "inner_wall_speed"@
        || key == "gap_infill_speed"@
        || key == "top_surface_speed"@
        || key == "internal_solid_infill_speed"@
        || key == "initial_layer_infill_speed"@
        || key == "support_speed"@
        || key == "support_interface_speed"@
        || key == "small_perimeter_speed"@
        || key == "solid_infill_speed"@
        || key == "overhang_1_4_speed"@
        || key == "overhang_speed_0"@
        || key == "overhang_2_4_speed"@
        || key == "overhang_speed_1"@
        || key == "overhang_3_4_speed"@
        || key == "overhang_speed_2"@
        || key == "overhang_4_4_speed"@
        || key == "overhang_speed_3"@
        || key == "travel_speed_z"@
        || key == "line_width"@
        || key == "extrusion_width"@
        || key == "outer_wall_line_width"@
        || key == "inner_wall_line_width"@
        || key == "sparse_infill_line_width"@
        || key == "top_surface_line_width"@
        || key == "initial_layer_line_width"@
        || key == "internal_solid_infill_line_width"@
        || key == "support_line_width"@
        || key == "fan_max_speed"@
        || key == "fan_min_speed"@
        || key == "slow_down_layer_time"@
        || key == "slowdown_below_layer_time"@
        || key == "slow_down_min_speed"@
        || key == "min_print_speed"@
        || key == "overhang_fan_speed"@
        || key == "overhang_fan_threshold"@
        || key == "full_fan_speed_layer"@
        || key == "disable_fan_first_layers"@
        || key == "slow_down_for_layer_cooling"@
        || key == "deretraction_speed"@
}

/// The keys of one stretch of the upstream key table.
spec fn upstream_keys_2(key: Seq<char>) -> bool {
    key == "retract_before_wipe"@
        || key == "retract_when_changing_layer"@
        || key == "wipe"@
        || key == "wipe_distance"@
        || key == "machine_start_gcode"@
        || key == "start_gcode"@
        || key == "machine_end_gcode"@
        || key == "end_gcode"@
        || key == "layer_change_gcode"@
        || key == "layer_gcode"@
        || key == "printable_height"@
        || key == "max_print_height"@
        || key == "machine_max_acceleration_x"@
        || key == "machine_max_acceleration_y"@
        || key == "machine_max_acceleration_z"@
        || key == "machine_max_acceleration_e"@
        || key == "machine_max_acceleration_extruding"@
        || key == "machine_max_acceleration_retracting"@
        || key == "machine_max_acceleration_travel"@
        || key == "machine_max_speed_x"@
        || key == "machine_max_speed_y"@
        || key == "machine_max_speed_z"@
        || key == "machine_max_speed_e"@
        || key == "nozzle_type"@
        || key == "printer_model"@
        || key == "printer_model_id"@
        || key == "bed_shape"@
        || key == "printable_area"@
        || key == "min_layer_height"@
        || key == "max_layer_height"@
        || key == "extruder_clearance_radius"@
        || key == "extruder_clearance_max_radius"@
        || key == "extruder_clearance_height_to_rod"@
        || key == "extruder_clearance_height_to_lid"@
        || key == "extruder_clearance_height"@
        || key == "gantry_width"@
        || key == "outer_wall_acceleration"@
        || key == "inner_wall_acceleration"@
        || key == "initial_layer_acceleration"@
        || key == "initial_layer_travel_acceleration"@
        || key == "initial_layer_travel_speed"@
        || key == "top_surface_acceleration"@
        || key == "sparse_infill_acceleration"@
        || key == "bridge_acceleration"@
        || key == "nozzle_temperature"@
        || key == "temperature"@
        || key == "nozzle_temperature_initial_layer"@
        || key == "first_layer_temperature"@
        || key == "hot_plate_temp"@
        || key == "bed_temperature"@
        || key == "hot_plate_temp_initial_layer"@
        || key == "bed_temperature_initial_layer"@
        || key == "first_layer_bed_temperature"@
        || key == "filament_density"@
        || key == "filament_diameter"@
        || key == "filament_cost"@
        || key == "filament_flow_ratio"@
        || key == "close_fan_the_first_x_layers"@
        || key == "fan_cooling_layer_time"@
        || key == "filament_type"@
}

/// The keys of one stretch of the upstream key table.
spec fn upstream_keys_3(key: Seq<char>) -> bool {
    key == "filament_vendor"@
        || key == "filament_max_volumetric_speed"@
        || key == "nozzle_temperature_range_low"@
        || key == "nozzle_temperature_range_high"@
        || key == "filament_retraction_length"@
        || key == "filament_retraction_speed"@
        || key == "filament_start_gcode"@
        || key == "filament_end_gcode"@
        || key == "nozzle_diameter"@
        || key == "retraction_length"@
        || key == "retraction_speed"@
        || key == "z_hop"@
        || key == "retraction_minimum_travel"@
        || key == "gcode_flavor"@
        || key == "machine_max_jerk_x"@
        || key == "machine_max_jerk_y"@
        || key == "machine_max_jerk_z"@
        || key == "machine_max_jerk_e"@
        || key == "bridge_flow"@
        || key == "bridge_flow_ratio"@
        || key == "elefant_foot_compensation"@
        || key == "infill_direction"@
        || key == "infill_wall_overlap"@
        || key == "infill_overlap"@
        || key == "spiral_mode"@
        || key == "spiral_vase"@
        || key == "only_one_wall_top"@
        || key == "resolution"@
        || key == "raft_layers"@
        || key == "detect_thin_wall"@
        || key == "thin_walls"@
        || key == "xy_hole_compensation"@
        || key == "xy_contour_compensation"@
        || key == "top_surface_pattern"@
        || key == "bottom_surface_pattern"@
        || key == "internal_solid_infill_pattern"@
        || key == "extra_perimeters_on_overhangs"@
        || key == "internal_bridge_speed"@
        || key == "internal_bridge_support_enabled"@
        || key == "filament_shrinkage_compensation"@
        || key == "z_offset"@
        || key == "precise_z_height"@
        || key == "min_length_factor"@
        || key == "chamber_temperature"@
        || key == "curr_bed_type"@
        || key == "cool_plate_temp"@
        || key == "eng_plate_temp"@
        || key == "textured_plate_temp"@
        || key == "cool_plate_temp_initial_layer"@
        || key == "eng_plate_temp_initial_layer"@
        || key == "textured_plate_temp_initial_layer"@
        || key == "fuzzy_skin"@
        || key == "fuzzy_skin_thickness"@
        || key == "fuzzy_skin_point_dist"@
        || key == "brim_type"@
        || key == "brim_ears"@
        || key == "brim_ears_max_angle"@
        || key == "skirt_height"@
        || key == "accel_to_decel_enable"@
        || key == "accel_to_decel_factor"@
}

/// The keys of one stretch of the upstream key table.
spec fn upstream_keys_4(key: Seq<char>) -> bool {
    key == "retraction_distances_when_cut"@
        || key == "long_retractions_when_cut"@
        || key == "internal_solid_infill_acceleration"@
        || key == "support_acceleration"@
        || key == "support_interface_acceleration"@
        || key == "additional_cooling_fan_speed"@
        || key == "auxiliary_fan"@
        || key == "enable_overhang_speed"@
        || key == "filament_colour"@
        || key == "wall_filament"@
        || key == "solid_infill_filament"@
        || key == "support_filament"@
        || key == "support_interface_filament"@
        || key == "precise_outer_wall"@
        || key == "draft_shield"@
        || key == "ooze_prevention"@
        || key == "infill_combination"@
        || key == "infill_every_layers"@
        || key == "infill_anchor_max"@
        || key == "min_bead_width"@
        || key == "min_feature_size"@
        || key == "support_bottom_interface_layers"@
        || key == "enable_support"@
        || key == "support_material"@
        || key == "support_type"@
        || key == "support_material_type"@
        || key == "support_style"@
        || key == "support_material_style"@
        || key == "support_threshold_angle"@
        || key == "support_angle"@
        || key == "support_material_threshold"@
        || key == "support_base_pattern"@
        || key == "support_material_pattern"@
        || key == "support_on_build_plate_only"@
        || key == "support_material_buildplate_only"@
        || key == "support_top_z_distance"@
        || key == "support_material_contact_distance"@
        || key == "support_bottom_z_distance"@
        || key == "support_material_bottom_contact_distance"@
        || key == "support_object_xy_distance"@
        || key == "support_material_xy_spacing"@
        || key == "support_interface_top_layers"@
        || key == "support_material_interface_layers"@
        || key == "support_interface_bottom_layers"@
        || key == "support_material_bottom_interface_layers"@
        || key == "support_interface_pattern"@
        || key == "support_material_interface_pattern"@
        || key == "support_base_pattern_spacing"@
        || key == "support_material_spacing"@
        || key == "support_interface_spacing"@
        || key == "support_material_interface_spacing"@
        || key == "support_expansion"@
        || key == "support_critical_regions_only"@
        || key == "support_remove_small_overhang"@
        || key == "support_flow_ratio"@
        || key == "support_material_flow"@
        || key == "support_interface_flow_ratio"@
        || key == "support_material_interface_flow"@
        || key == "support_material_synchronize_layers"@
        || key == "enforce_support_layers"@
}

/// The keys of one stretch of the upstream key table.
spec fn upstream_keys_5(key: Seq<char>) -> bool {
    key == "support_material_enforce_layers"@
        || key == "support_closing_radius"@
        || key == "support_material_closing_radius"@
        || key == "support_material_auto"@
        || key == "raft_first_layer_expansion"@
        || key == "bridge_angle"@
        || key == "bridge_density"@
        || key == "thick_bridges"@
        || key == "bridge_no_support"@
        || key == "bridge_fan_speed"@
        || key == "tree_support_branch_angle"@
        || key == "support_tree_angle"@
        || key == "tree_support_branch_diameter"@
        || key == "support_tree_branch_diameter"@
        || key == "tree_support_tip_diameter"@
        || key == "tree_support_branch_distance"@
        || key == "support_tree_top_rate"@
        || key == "tree_support_branch_diameter_angle"@
        || key == "tree_support_wall_count"@
        || key == "tree_support_auto_brim"@
        || key == "tree_support_brim_width"@
        || key == "tree_support_adaptive_layer_height"@
        || key == "tree_support_angle_slow"@
        || key == "tree_support_top_rate"@
        || key == "tree_support_with_infill"@
}

/// Every mapped key of one stretch of the table is a source of its field.
proof fn lemma_upstream_source_1(key: Seq<char>)
    requires
        upstream_keys_1(key),
    ensures
        upstream_field_of(key) matches Some(f) ==> upstream_source(f, key),
{
}

/// Every mapped key of one stretch of the table is a source of its field.
proof fn lemma_upstream_source_2(key: Seq<char>)
    requires
        !upstream_keys_1(key),
        upstream_keys_2(key),
    ensures
        upstream_field_of(key) matches Some(f) ==> upstream_source(f, key),
{
}

/// Every mapped key of one stretch of the table is a source of its field.
proof fn lemma_upstream_source_3(key: Seq<char>)
    requires
        !upstream_keys_1(key),
        !upstream_keys_2(key),
        upstream_keys_3(key),
    ensures
        upstream_field_of(key) matches Some(f) ==> upstream_source(f, key),
{
}

/// Every mapped key of one stretch of the table is a source of its field.
proof fn lemma_upstream_source_4(key: Seq<char>)
    requires
        !upstream_keys_1(key),
        !upstream_keys_2(key),
        !upstream_keys_3(key),
        upstream_keys_4(key),
    ensures
        upstream_field_of(key) matches Some(f) ==> upstream_source(f, key),
{
}

/// Every mapped key of one stretch of the table is a source of its field.
proof fn lemma_upstream_source_5(key: Seq<char>)
    requires
        !upstream_keys_1(key),
        !upstream_keys_2(key),
        !upstream_keys_3(key),
        !upstream_keys_4(key),
        upstream_keys_5(key),
    ensures
        upstream_field_of(key) matches Some(f) ==> upstream_source(f, key),
{
}

/// Every mapped key is a source of its field.
proof fn lemma_upstream_source(key: Seq<char>)
    ensures
        upstream_field_of(key) matches Some(f) ==> upstream_source(f, key),
{
    if upstream_keys_1(key) {
        lemma_upstream_source_1(key);
    } else if upstream_keys_2(key) {
        lemma_upstream_source_2(key);
    } else if upstream_keys_3(key) {
        lemma_upstream_source_3(key);
    } else if upstream_keys_4(key) {
        lemma_upstream_source_4(key);
    } else if upstream_keys_5(key) {
        lemma_upstream_source_5(key);
    }
}

/// Keys that feed one field are synonyms.
#[verifier::rlimit(100)]
proof fn lemma_upstream_source_unique(f: Seq<char>, a: Seq<char>, b: Seq<char>)
    requires
        upstream_source(f, a),
        upstream_source(f, b),
    ensures
        a == b || upstream_synonyms(a, b),
{
    reveal_strlit("layer_height");
    reveal_strlit("first_layer_height");
    reveal_strlit("wall_count");
    reveal_strlit("infill_density");
    reveal_strlit("infill_pattern");
    reveal_strlit("top_solid_layers");
    reveal_strlit("bottom_solid_layers");
    reveal_strlit("speeds.perimeter");
    reveal_strlit("speeds.infill");
    reveal_strlit("speeds.travel");
    reveal_strlit("speeds.first_layer");
    reveal_strlit("skirt_loops");
    reveal_strlit("skirt_distance");
    reveal_strlit("brim_width");
    reveal_strlit("accel.print");
    reveal_strlit("accel.travel");
    reveal_strlit("arc_fitting_enabled");
    reveal_strlit("adaptive_layer_height");
    reveal_strlit("arachne_enabled");
    reveal_strlit("seam_position");
    reveal_strlit("speeds.bridge");
    reveal_strlit("speeds.inner_wall");
    reveal_strlit("speeds.gap_fill");
    reveal_strlit("speeds.top_surface");
    reveal_strlit("speeds.internal_solid_infill");
    reveal_strlit("speeds.initial_layer_infill");
    reveal_strlit("speeds.support");
    reveal_strlit("speeds.support_interface");
    reveal_strlit("speeds.small_perimeter");
    reveal_strlit("speeds.solid_infill");
    reveal_strlit("speeds.overhang_1_4");
    reveal_strlit("speeds.overhang_2_4");
    reveal_strlit("speeds.overhang_3_4");
    reveal_strlit("speeds.overhang_4_4");
    reveal_strlit("speeds.travel_z");
    reveal_strlit("line_widths.outer_wall");
    reveal_strlit("line_widths.inner_wall");
    reveal_strlit("line_widths.infill");
    reveal_strlit("line_widths.top_surface");
    reveal_strlit("line_widths.initial_layer");
    reveal_strlit("line_widths.internal_solid_infill");
    reveal_strlit("line_widths.support");
    reveal_strlit("cooling.fan_max_speed");
    reveal_strlit("cooling.fan_min_speed");
    reveal_strlit("cooling.slow_down_layer_time");
    reveal_strlit("cooling.slow_down_min_speed");
    reveal_strlit("cooling.overhang_fan_speed");
    reveal_strlit("cooling.overhang_fan_threshold");
    reveal_strlit("cooling.full_fan_speed_layer");
    reveal_strlit("cooling.slow_down_for_layer_cooling");
    reveal_strlit("retraction.deretraction_speed");
    reveal_strlit("retraction.retract_before_wipe");
    reveal_strlit("retraction.retract_when_changing_layer");
    reveal_strlit("retraction.wipe");
    reveal_strlit("retraction.wipe_distance");
    reveal_strlit("machine.start_gcode");
    reveal_strlit("machine.end_gcode");
    reveal_strlit("machine.layer_change_gcode");
    reveal_strlit("machine.printable_height");
    reveal_strlit("machine.max_acceleration_x");
    reveal_strlit("machine.max_acceleration_y");
    reveal_strlit("machine.max_acceleration_z");
    reveal_strlit("machine.max_acceleration_e");
    reveal_strlit("machine.max_acceleration_extruding");
    reveal_strlit("machine.max_acceleration_retracting");
    reveal_strlit("machine.max_acceleration_travel");
    reveal_strlit("machine.max_speed_x");
    reveal_strlit("machine.max_speed_y");
    reveal_strlit("machine.max_speed_z");
    reveal_strlit("machine.max_speed_e");
    reveal_strlit("machine.nozzle_type");
    reveal_strlit("machine.printer_model");
    reveal_strlit("machine.bed_shape");
    reveal_strlit("machine.min_layer_height");
    reveal_strlit("machine.max_layer_height");
    reveal_strlit("sequential.extruder_clearance_radius");
    reveal_strlit("sequential.extruder_clearance_height");
    reveal_strlit("sequential.gantry_width");
    reveal_strlit("accel.outer_wall");
    reveal_strlit("accel.inner_wall");
    reveal_strlit("accel.initial_layer");
    reveal_strlit("accel.initial_layer_travel");
    reveal_strlit("accel.top_surface");
    reveal_strlit("accel.sparse_infill");
    reveal_strlit("accel.bridge");
    reveal_strlit("filament.nozzle_temperatures");
    reveal_strlit("filament.first_layer_nozzle_temperatures");
    reveal_strlit("filament.bed_temperatures");
    reveal_strlit("filament.first_layer_bed_temperatures");
    reveal_strlit("filament.density");
    reveal_strlit("filament.diameter");
    reveal_strlit("filament.cost_per_kg");
    reveal_strlit("extrusion_multiplier");
    reveal_strlit("cooling.disable_fan_first_layers");
    reveal_strlit("cooling.fan_below_layer_time");
    reveal_strlit("filament.filament_type");
    reveal_strlit("filament.filament_vendor");
    reveal_strlit("filament.max_volumetric_speed");
    reveal_strlit("filament.nozzle_temperature_range_low");
    reveal_strlit("filament.nozzle_temperature_range_high");
    reveal_strlit("filament.filament_retraction_length");
    reveal_strlit("filament.filament_retraction_speed");
    reveal_strlit("filament.filament_start_gcode");
    reveal_strlit("filament.filament_end_gcode");
    reveal_strlit("machine.nozzle_diameters");
    reveal_strlit("retraction.length");
    reveal_strlit("retraction.speed");
    reveal_strlit("retraction.z_hop");
    reveal_strlit("retraction.min_travel");
    reveal_strlit("gcode_dialect");
    reveal_strlit("machine.jerk_values_x");
    reveal_strlit("machine.jerk_values_y");
    reveal_strlit("machine.jerk_values_z");
    reveal_strlit("machine.jerk_values_e");
    reveal_strlit("bridge_flow");
    reveal_strlit("elefant_foot_compensation");
    reveal_strlit("infill_direction");
    reveal_strlit("infill_wall_overlap");
    reveal_strlit("spiral_mode");
    reveal_strlit("only_one_wall_top");
    reveal_strlit("resolution");
    reveal_strlit("raft_layers");
    reveal_strlit("detect_thin_wall");
    reveal_strlit("dimensional_compensation.xy_hole_compensation");
    reveal_strlit("dimensional_compensation.xy_contour_compensation");
    reveal_strlit("top_surface_pattern");
    reveal_strlit("bottom_surface_pattern");
    reveal_strlit("solid_infill_pattern");
    reveal_strlit("extra_perimeters_on_overhangs");
    reveal_strlit("speeds.internal_bridge_speed");
    reveal_strlit("internal_bridge_support");
    reveal_strlit("filament.filament_shrink");
    reveal_strlit("z_offset");
    reveal_strlit("precise_z_height");
    reveal_strlit("accel.min_length_factor");
    reveal_strlit("filament.chamber_temperature");
    reveal_strlit("machine.curr_bed_type");
    reveal_strlit("filament.cool_plate_temp");
    reveal_strlit("filament.eng_plate_temp");
    reveal_strlit("filament.textured_plate_temp");
    reveal_strlit("filament.cool_plate_temp_initial_layer");
    reveal_strlit("filament.eng_plate_temp_initial_layer");
    reveal_strlit("filament.textured_plate_temp_initial_layer");
    reveal_strlit("fuzzy_skin.enabled");
    reveal_strlit("fuzzy_skin.thickness");
    reveal_strlit("fuzzy_skin.point_distance");
    reveal_strlit("brim_skirt.brim_type");
    reveal_strlit("brim_skirt.brim_ears");
    reveal_strlit("brim_skirt.brim_ears_max_angle");
    reveal_strlit("brim_skirt.skirt_height");
    reveal_strlit("input_shaping.accel_to_decel_enable");
    reveal_strlit("input_shaping.accel_to_decel_factor");
    reveal_strlit("multi_material.tool_change_retraction.retraction_distance_when_cut");
    reveal_strlit("multi_material.tool_change_retraction.long_retraction_when_cut");
    reveal_strlit("accel.internal_solid_infill_acceleration");
    reveal_strlit("accel.support_acceleration");
    reveal_strlit("accel.support_interface_acceleration");
    reveal_strlit("cooling.additional_cooling_fan_speed");
    reveal_strlit("cooling.auxiliary_fan");
    reveal_strlit("speeds.enable_overhang_speed");
    reveal_strlit("filament.filament_colour");
    reveal_strlit("multi_material.wall_filament");
    reveal_strlit("multi_material.solid_infill_filament");
    reveal_strlit("multi_material.support_filament");
    reveal_strlit("multi_material.support_interface_filament");
    reveal_strlit("precise_outer_wall");
    reveal_strlit("draft_shield");
    reveal_strlit("ooze_prevention");
    reveal_strlit("infill_combination");
    reveal_strlit("infill_anchor_max");
    reveal_strlit("min_bead_width");
    reveal_strlit("min_feature_size");
    reveal_strlit("support.support_bottom_interface_layers");
    reveal_strlit("support.enabled");
    reveal_strlit("support.support_type");
    reveal_strlit("support.overhang_angle");
    reveal_strlit("support.support_pattern");
    reveal_strlit("support.build_plate_only");
    reveal_strlit("support.z_gap");
    reveal_strlit("support.bottom_z_gap");
    reveal_strlit("support.xy_gap");
    reveal_strlit("support.interface_layers");
    reveal_strlit("support.interface_pattern");
    reveal_strlit("support.support_density");
    reveal_strlit("support.interface_density");
    reveal_strlit("support.expansion");
    reveal_strlit("support.critical_regions_only");
    reveal_strlit("support.remove_small_overhang");
    reveal_strlit("support.flow_ratio");
    reveal_strlit("support.interface_flow_ratio");
    reveal_strlit("support.synchronize_layers");
    reveal_strlit("support.enforce_layers");
    reveal_strlit("support.closing_radius");
    reveal_strlit("support.raft_expansion");
    reveal_strlit("support.bridge.angle");
    reveal_strlit("support.bridge.density");
    reveal_strlit("support.bridge.thick_bridges");
    reveal_strlit("support.bridge.no_support");
    reveal_strlit("support.bridge.fan_speed");
    reveal_strlit("support.tree.branch_angle");
    reveal_strlit("support.tree.max_trunk_diameter");
    reveal_strlit("support.tree.tip_diameter");
    reveal_strlit("support.tree.branch_distance");
    reveal_strlit("support.tree.branch_diameter_angle");
    reveal_strlit("support.tree.wall_count");
    reveal_strlit("support.tree.auto_brim");
    reveal_strlit("support.tree.brim_width");
    reveal_strlit("support.tree.adaptive_layer_height");
    reveal_strlit("support.tree.angle_slow");
    reveal_strlit("support.tree.top_rate");
    reveal_strlit("support.tree.with_infill");
    assert("layer_height"@.len() == 12
        && "first_layer_height"@.len() == 18
        && "wall_count"@.len() == 10
        && "infill_density"@.len() == 14
        && "infill_pattern"@.len() == 14
        && "top_solid_layers"@.len() == 16
        && "bottom_solid_layers"@.len() == 19
        && "speeds.perimeter"@.len() == 16
        && "speeds.infill"@.len() == 13
        && "speeds.travel"@.len() == 13
        && "speeds.first_layer"@.len() == 18
        && "skirt_loops"@.len() == 11
        && "skirt_distance"@.len() == 14
        && "brim_width"@.len() == 10
        && "accel.print"@.len() == 11
        && "accel.travel"@.len() == 12
        && "arc_fitting_enabled"@.len() == 19
        && "adaptive_layer_height"@.len() == 21
        && "arachne_enabled"@.len() == 15
        && "seam_position"@.len() == 13
        && "speeds.bridge"@.len() == 13
        && "speeds.inner_wall"@.len() == 17
        && "speeds.gap_fill"@.len() == 15
        && "speeds.top_surface"@.len() == 18
        && "speeds.internal_solid_infill"@.len() == 28
        && "speeds.initial_layer_infill"@.len() == 27
        && "speeds.support"@.len() == 14
        && "speeds.support_interface"@.len() == 24
        && "speeds.small_perimeter"@.len() == 22
        && "speeds.solid_infill"@.len() == 19
        && "speeds.overhang_1_4"@.len() == 19
        && "speeds.overhang_2_4"@.len() == 19
        && "speeds.overhang_3_4"@.len() == 19
        && "speeds.overhang_4_4"@.len() == 19
        && "speeds.travel_z"@.len() == 15
        && "line_widths.outer_wall"@.len() == 22
        && "line_widths.inner_wall"@.len() == 22
        && "line_widths.infill"@.len() == 18
        && "line_widths.top_surface"@.len() == 23
        && "line_widths.initial_layer"@.len() == 25);
    assert("line_widths.internal_solid_infill"@.len() == 33
        && "line_widths.support"@.len() == 19
        && "cooling.fan_max_speed"@.len() == 21
        && "cooling.fan_min_speed"@.len() == 21
        && "cooling.slow_down_layer_time"@.len() == 28
        && "cooling.slow_down_min_speed"@.len() == 27
        && "cooling.overhang_fan_speed"@.len() == 26
        && "cooling.overhang_fan_threshold"@.len() == 30
        && "cooling.full_fan_speed_layer"@.len() == 28
        && "cooling.slow_down_for_layer_cooling"@.len() == 35
        && "retraction.deretraction_speed"@.len() == 29
        && "retraction.retract_before_wipe"@.len() == 30
        && "retraction.retract_when_changing_layer"@.len() == 38
        && "retraction.wipe"@.len() == 15
        && "retraction.wipe_distance"@.len() == 24
        && "machine.start_gcode"@.len() == 19
        && "machine.end_gcode"@.len() == 17
        && "machine.layer_change_gcode"@.len() == 26
        && "machine.printable_height"@.len() == 24
        && "machine.max_acceleration_x"@.len() == 26
        && "machine.max_acceleration_y"@.len() == 26
        && "machine.max_acceleration_z"@.len() == 26
        && "machine.max_acceleration_e"@.len() == 26
        && "machine.max_acceleration_extruding"@.len() == 34
        && "machine.max_acceleration_retracting"@.len() == 35
        && "machine.max_acceleration_travel"@.len() == 31
        && "machine.max_speed_x"@.len() == 19
        && "machine.max_speed_y"@.len() == 19
        && "machine.max_speed_z"@.len() == 19
        && "machine.max_speed_e"@.len() == 19
        && "machine.nozzle_type"@.len() == 19
        && "machine.printer_model"@.len() == 21
        && "machine.bed_shape"@.len() == 17
        && "machine.min_layer_height"@.len() == 24
        && "machine.max_layer_height"@.len() == 24
        && "sequential.extruder_clearance_radius"@.len() == 36
        && "sequential.extruder_clearance_height"@.len() == 36
        && "sequential.gantry_width"@.len() == 23
        && "accel.outer_wall"@.len() == 16
        && "accel.inner_wall"@.len() == 16);
    assert("accel.initial_layer"@.len() == 19
        && "accel.initial_layer_travel"@.len() == 26
        && "accel.top_surface"@.len() == 17
        && "accel.sparse_infill"@.len() == 19
        && "accel.bridge"@.len() == 12
        && "filament.nozzle_temperatures"@.len() == 28
        && "filament.first_layer_nozzle_temperatures"@.len() == 40
        && "filament.bed_temperatures"@.len() == 25
        && "filament.first_layer_bed_temperatures"@.len() == 37
        && "filament.density"@.len() == 16
        && "filament.diameter"@.len() == 17
        && "filament.cost_per_kg"@.len() == 20
        && "extrusion_multiplier"@.len() == 20
        && "cooling.disable_fan_first_layers"@.len() == 32
        && "cooling.fan_below_layer_time"@.len() == 28
        && "filament.filament_type"@.len() == 22
        && "filament.filament_vendor"@.len() == 24
        && "filament.max_volumetric_speed"@.len() == 29
        && "filament.nozzle_temperature_range_low"@.len() == 37
        && "filament.nozzle_temperature_range_high"@.len() == 38
        && "filament.filament_retraction_length"@.len() == 35
        && "filament.filament_retraction_speed"@.len() == 34
        && "filament.filament_start_gcode"@.len() == 29
        && "filament.filament_end_gcode"@.len() == 27
        && "machine.nozzle_diameters"@.len() == 24
        && "retraction.length"@.len() == 17
        && "retraction.speed"@.len() == 16
        && "retraction.z_hop"@.len() == 16
        && "retraction.min_travel"@.len() == 21
        && "gcode_dialect"@.len() == 13
        && "machine.jerk_values_x"@.len() == 21
        && "machine.jerk_values_y"@.len() == 21
        && "machine.jerk_values_z"@.len() == 21
        && "machine.jerk_values_e"@.len() == 21
        && "bridge_flow"@.len() == 11
        && "elefant_foot_compensation"@.len() == 25
        && "infill_direction"@.len() == 16
        && "infill_wall_overlap"@.len() == 19
        && "spiral_mode"@.len() == 11
        && "only_one_wall_top"@.len() == 17);
    assert("resolution"@.len() == 10
        && "raft_layers"@.len() == 11
        && "detect_thin_wall"@.len() == 16
        && "dimensional_compensation.xy_hole_compensation"@.len() == 45
        && "dimensional_compensation.xy_contour_compensation"@.len() == 48
        && "top_surface_pattern"@.len() == 19
        && "bottom_surface_pattern"@.len() == 22
        && "solid_infill_pattern"@.len() == 20
        && "extra_perimeters_on_overhangs"@.len() == 29
        && "speeds.internal_bridge_speed"@.len() == 28
        && "internal_bridge_support"@.len() == 23
        && "filament.filament_shrink"@.len() == 24
        && "z_offset"@.len() == 8
        && "precise_z_height"@.len() == 16
        && "accel.min_length_factor"@.len() == 23
        && "filament.chamber_temperature"@.len() == 28
        && "machine.curr_bed_type"@.len() == 21
        && "filament.cool_plate_temp"@.len() == 24
        && "filament.eng_plate_temp"@.len() == 23
        && "filament.textured_plate_temp"@.len() == 28
        && "filament.cool_plate_temp_initial_layer"@.len() == 38
        && "filament.eng_plate_temp_initial_layer"@.len() == 37
        && "filament.textured_plate_temp_initial_layer"@.len() == 42
        && "fuzzy_skin.enabled"@.len() == 18
        && "fuzzy_skin.thickness"@.len() == 20
        && "fuzzy_skin.point_distance"@.len() == 25
        && "brim_skirt.brim_type"@.len() == 20
        && "brim_skirt.brim_ears"@.len() == 20
        && "brim_skirt.brim_ears_max_angle"@.len() == 30
        && "brim_skirt.skirt_height"@.len() == 23
        && "input_shaping.accel_to_decel_enable"@.len() == 35
        && "input_shaping.accel_to_decel_factor"@.len() == 35
        && "multi_material.tool_change_retraction.retraction_distance_when_cut"@.len() == 66
        && "multi_material.tool_change_retraction.long_retraction_when_cut"@.len() == 62
        && "accel.internal_solid_infill_acceleration"@.len() == 40
        && "accel.support_acceleration"@.len() == 26
        && "accel.support_interface_acceleration"@.len() == 36
        && "cooling.additional_cooling_fan_speed"@.len() == 36
        && "cooling.auxiliary_fan"@.len() == 21
        && "speeds.enable_overhang_speed"@.len() == 28);
    assert("filament.filament_colour"@.len() == 24
        && "multi_material.wall_filament"@.len() == 28
        && "multi_material.solid_infill_filament"@.len() == 36
        && "multi_material.support_filament"@.len() == 31
        && "multi_material.support_interface_filament"@.len() == 41
        && "precise_outer_wall"@.len() == 18
        && "draft_shield"@.len() == 12
        && "ooze_prevention"@.len() == 15
        && "infill_combination"@.len() == 18
        && "infill_anchor_max"@.len() == 17
        && "min_bead_width"@.len() == 14
        && "min_feature_size"@.len() == 16
        && "support.support_bottom_interface_layers"@.len() == 39
        && "support.enabled"@.len() == 15
        && "support.support_type"@.len() == 20
        && "support.overhang_angle"@.len() == 22
        && "support.support_pattern"@.len() == 23
        && "support.build_plate_only"@.len() == 24
        && "support.z_gap"@.len() == 13
        && "support.bottom_z_gap"@.len() == 20
        && "support.xy_gap"@.len() == 14
        && "support.interface_layers"@.len() == 24
        && "support.interface_pattern"@.len() == 25
        && "support.support_density"@.len() == 23
        && "support.interface_density"@.len() == 25
        && "support.expansion"@.len() == 17
        && "support.critical_regions_only"@.len() == 29
        && "support.remove_small_overhang"@.len() == 29
        && "support.flow_ratio"@.len() == 18
        && "support.interface_flow_ratio"@.len() == 28
        && "support.synchronize_layers"@.len() == 26
        && "support.enforce_layers"@.len() == 22
        && "support.closing_radius"@.len() == 22
        && "support.raft_expansion"@.len() == 22
        && "support.bridge.angle"@.len() == 20
        && "support.bridge.density"@.len() == 22
        && "support.bridge.thick_bridges"@.len() == 28
        && "support.bridge.no_support"@.len() == 25
        && "support.bridge.fan_speed"@.len() == 24
        && "support.tree.branch_angle"@.len() == 25);
    assert("support.tree.max_trunk_diameter"@.len() == 31
        && "support.tree.tip_diameter"@.len() == 25
        && "support.tree.branch_distance"@.len() == 28
        && "support.tree.branch_diameter_angle"@.len() == 34
        && "support.tree.wall_count"@.len() == 23
        && "support.tree.auto_brim"@.len() == 22
        && "support.tree.brim_width"@.len() == 23
        && "support.tree.adaptive_layer_height"@.len() == 34
        && "support.tree.angle_slow"@.len() == 23
        && "support.tree.top_rate"@.len() == 21
        && "support.tree.with_infill"@.len() == 24
        && "accel.bridge"@[0] == 'a'
        && "accel.bridge"@[6] == 'b'
        && "accel.travel"@[0] == 'a'
        && "accel.travel"@[6] == 't'
        && "draft_shield"@[0] == 'd'
        && "draft_shield"@[6] == 's'
        && "layer_height"@[0] == 'l'
        && "layer_height"@[6] == 'h'
        && "accel.initial_layer"@[0] == 'a'
        && "accel.initial_layer"@[1] == 'c'
        && "accel.initial_layer"@[6] == 'i'
        && "accel.initial_layer"@[7] == 'n'
        && "accel.initial_layer"@[8] == 'i'
        && "accel.initial_layer"@[16] == 'y'
        && "accel.initial_layer"@[18] == 'r'
        && "accel.sparse_infill"@[0] == 'a'
        && "accel.sparse_infill"@[1] == 'c'
        && "accel.sparse_infill"@[6] == 's'
        && "accel.sparse_infill"@[7] == 'p'
        && "accel.sparse_infill"@[8] == 'a'
        && "accel.sparse_infill"@[16] == 'i'
        && "accel.sparse_infill"@[18] == 'l'
        && "arc_fitting_enabled"@[0] == 'a'
        && "arc_fitting_enabled"@[1] == 'r'
        && "arc_fitting_enabled"@[6] == 't'
        && "arc_fitting_enabled"@[7] == 't'
        && "arc_fitting_enabled"@[8] == 'i'
        && "arc_fitting_enabled"@[16] == 'l'
        && "arc_fitting_enabled"@[18] == 'd');
    assert("bottom_solid_layers"@[0] == 'b'
        && "bottom_solid_layers"@[1] == 'o'
        && "bottom_solid_layers"@[6] == '_'
        && "bottom_solid_layers"@[7] == 's'
        && "bottom_solid_layers"@[8] == 'o'
        && "bottom_solid_layers"@[16] == 'e'
        && "bottom_solid_layers"@[18] == 's'
        && "infill_wall_overlap"@[0] == 'i'
        && "infill_wall_overlap"@[1] == 'n'
        && "infill_wall_overlap"@[6] == '_'
        && "infill_wall_overlap"@[7] == 'w'
        && "infill_wall_overlap"@[8] == 'a'
        && "infill_wall_overlap"@[16] == 'l'
        && "infill_wall_overlap"@[18] == 'p'
        && "line_widths.support"@[0] == 'l'
        && "line_widths.support"@[1] == 'i'
        && "line_widths.support"@[6] == 'i'
        && "line_widths.support"@[7] == 'd'
        && "line_widths.support"@[8] == 't'
        && "line_widths.support"@[16] == 'o'
        && "line_widths.support"@[18] == 't'
        && "machine.max_speed_e"@[0] == 'm'
        && "machine.max_speed_e"@[1] == 'a'
        && "machine.max_speed_e"@[6] == 'e'
        && "machine.max_speed_e"@[7] == '.'
        && "machine.max_speed_e"@[8] == 'm'
        && "machine.max_speed_e"@[16] == 'd'
        && "machine.max_speed_e"@[18] == 'e'
        && "machine.max_speed_x"@[0] == 'm'
        && "machine.max_speed_x"@[1] == 'a'
        && "machine.max_speed_x"@[6] == 'e'
        && "machine.max_speed_x"@[7] == '.'
        && "machine.max_speed_x"@[8] == 'm'
        && "machine.max_speed_x"@[16] == 'd'
        && "machine.max_speed_x"@[18] == 'x'
        && "machine.max_speed_y"@[0] == 'm'
        && "machine.max_speed_y"@[1] == 'a'
        && "machine.max_speed_y"@[6] == 'e'
        && "machine.max_speed_y"@[7] == '.'
        && "machine.max_speed_y"@[8] == 'm');
    assert("machine.max_speed_y"@[16] == 'd'
        && "machine.max_speed_y"@[18] == 'y'
        && "machine.max_speed_z"@[0] == 'm'
        && "machine.max_speed_z"@[1] == 'a'
        && "machine.max_speed_z"@[6] == 'e'
        && "machine.max_speed_z"@[7] == '.'
        && "machine.max_speed_z"@[8] == 'm'
        && "machine.max_speed_z"@[16] == 'd'
        && "machine.max_speed_z"@[18] == 'z'
        && "machine.nozzle_type"@[0] == 'm'
        && "machine.nozzle_type"@[1] == 'a'
        && "machine.nozzle_type"@[6] == 'e'
        && "machine.nozzle_type"@[7] == '.'
        && "machine.nozzle_type"@[8] == 'n'
        && "machine.nozzle_type"@[16] == 'y'
        && "machine.nozzle_type"@[18] == 'e'
        && "machine.start_gcode"@[0] == 'm'
        && "machine.start_gcode"@[1] == 'a'
        && "machine.start_gcode"@[6] == 'e'
        && "machine.start_gcode"@[7] == '.'
        && "machine.start_gcode"@[8] == 's'
        && "machine.start_gcode"@[16] == 'o'
        && "machine.start_gcode"@[18] == 'e'
        && "speeds.overhang_1_4"@[0] == 's'
        && "speeds.overhang_1_4"@[1] == 'p'
        && "speeds.overhang_1_4"@[6] == '.'
        && "speeds.overhang_1_4"@[7] == 'o'
        && "speeds.overhang_1_4"@[8] == 'v'
        && "speeds.overhang_1_4"@[16] == '1'
        && "speeds.overhang_1_4"@[18] == '4'
        && "speeds.overhang_2_4"@[0] == 's'
        && "speeds.overhang_2_4"@[1] == 'p'
        && "speeds.overhang_2_4"@[6] == '.'
        && "speeds.overhang_2_4"@[7] == 'o'
        && "speeds.overhang_2_4"@[8] == 'v'
        && "speeds.overhang_2_4"@[16] == '2'
        && "speeds.overhang_2_4"@[18] == '4'
        && "speeds.overhang_3_4"@[0] == 's'
        && "speeds.overhang_3_4"@[1] == 'p'
        && "speeds.overhang_3_4"@[6] == '.');
    assert("speeds.overhang_3_4"@[7] == 'o'
        && "speeds.overhang_3_4"@[8] == 'v'
        && "speeds.overhang_3_4"@[16] == '3'
        && "speeds.overhang_3_4"@[18] == '4'
        && "speeds.overhang_4_4"@[0] == 's'
        && "speeds.overhang_4_4"@[1] == 'p'
        && "speeds.overhang_4_4"@[6] == '.'
        && "speeds.overhang_4_4"@[7] == 'o'
        && "speeds.overhang_4_4"@[8] == 'v'
        && "speeds.overhang_4_4"@[16] == '4'
        && "speeds.overhang_4_4"@[18] == '4'
        && "speeds.solid_infill"@[0] == 's'
        && "speeds.solid_infill"@[1] == 'p'
        && "speeds.solid_infill"@[6] == '.'
        && "speeds.solid_infill"@[7] == 's'
        && "speeds.solid_infill"@[8] == 'o'
        && "speeds.solid_infill"@[16] == 'i'
        && "speeds.solid_infill"@[18] == 'l'
        && "top_surface_pattern"@[0] == 't'
        && "top_surface_pattern"@[1] == 'o'
        && "top_surface_pattern"@[6] == 'r'
        && "top_surface_pattern"@[7] == 'f'
        && "top_surface_pattern"@[8] == 'a'
        && "top_surface_pattern"@[16] == 'e'
        && "top_surface_pattern"@[18] == 'n'
        && "accel.initial_layer_travel"@[0] == 'a'
        && "accel.initial_layer_travel"@[6] == 'i'
        && "accel.initial_layer_travel"@[8] == 'i'
        && "accel.initial_layer_travel"@[25] == 'l'
        && "accel.support_acceleration"@[0] == 'a'
        && "accel.support_acceleration"@[6] == 's'
        && "accel.support_acceleration"@[8] == 'p'
        && "accel.support_acceleration"@[25] == 'n'
        && "cooling.overhang_fan_speed"@[0] == 'c'
        && "cooling.overhang_fan_speed"@[6] == 'g'
        && "cooling.overhang_fan_speed"@[8] == 'o'
        && "cooling.overhang_fan_speed"@[25] == 'd'
        && "machine.layer_change_gcode"@[0] == 'm'
        && "machine.layer_change_gcode"@[6] == 'e'
        && "machine.layer_change_gcode"@[8] == 'l');
    assert("machine.layer_change_gcode"@[25] == 'e'
        && "machine.max_acceleration_e"@[0] == 'm'
        && "machine.max_acceleration_e"@[6] == 'e'
        && "machine.max_acceleration_e"@[8] == 'm'
        && "machine.max_acceleration_e"@[25] == 'e'
        && "machine.max_acceleration_x"@[0] == 'm'
        && "machine.max_acceleration_x"@[6] == 'e'
        && "machine.max_acceleration_x"@[8] == 'm'
        && "machine.max_acceleration_x"@[25] == 'x'
        && "machine.max_acceleration_y"@[0] == 'm'
        && "machine.max_acceleration_y"@[6] == 'e'
        && "machine.max_acceleration_y"@[8] == 'm'
        && "machine.max_acceleration_y"@[25] == 'y'
        && "machine.max_acceleration_z"@[0] == 'm'
        && "machine.max_acceleration_z"@[6] == 'e'
        && "machine.max_acceleration_z"@[8] == 'm'
        && "machine.max_acceleration_z"@[25] == 'z'
        && "support.synchronize_layers"@[0] == 's'
        && "support.synchronize_layers"@[6] == 't'
        && "support.synchronize_layers"@[8] == 's'
        && "support.synchronize_layers"@[25] == 's'
        && "accel.inner_wall"@[0] == 'a'
        && "accel.inner_wall"@[6] == 'i'
        && "accel.inner_wall"@[11] == '_'
        && "accel.outer_wall"@[0] == 'a'
        && "accel.outer_wall"@[6] == 'o'
        && "accel.outer_wall"@[11] == '_'
        && "detect_thin_wall"@[0] == 'd'
        && "detect_thin_wall"@[6] == '_'
        && "detect_thin_wall"@[11] == '_'
        && "filament.density"@[0] == 'f'
        && "filament.density"@[6] == 'n'
        && "filament.density"@[11] == 'n'
        && "infill_direction"@[0] == 'i'
        && "infill_direction"@[6] == '_'
        && "infill_direction"@[11] == 'c'
        && "min_feature_size"@[0] == 'm'
        && "min_feature_size"@[6] == 'a'
        && "min_feature_size"@[11] == '_'
        && "precise_z_height"@[0] == 'p');
    assert("precise_z_height"@[6] == 'e'
        && "precise_z_height"@[11] == 'e'
        && "retraction.speed"@[0] == 'r'
        && "retraction.speed"@[6] == 't'
        && "retraction.speed"@[11] == 's'
        && "retraction.z_hop"@[0] == 'r'
        && "retraction.z_hop"@[6] == 't'
        && "retraction.z_hop"@[11] == 'z'
        && "speeds.perimeter"@[0] == 's'
        && "speeds.perimeter"@[6] == '.'
        && "speeds.perimeter"@[11] == 'm'
        && "top_solid_layers"@[0] == 't'
        && "top_solid_layers"@[6] == 'l'
        && "top_solid_layers"@[11] == 'a'
        && "accel.internal_solid_infill_acceleration"@[0] == 'a'
        && "filament.first_layer_nozzle_temperatures"@[0] == 'f'
        && "accel.min_length_factor"@[0] == 'a'
        && "accel.min_length_factor"@[1] == 'c'
        && "accel.min_length_factor"@[8] == 'n'
        && "accel.min_length_factor"@[13] == 'g'
        && "accel.min_length_factor"@[16] == '_'
        && "brim_skirt.skirt_height"@[0] == 'b'
        && "brim_skirt.skirt_height"@[1] == 'r'
        && "brim_skirt.skirt_height"@[8] == 'r'
        && "brim_skirt.skirt_height"@[13] == 'i'
        && "brim_skirt.skirt_height"@[16] == '_'
        && "filament.eng_plate_temp"@[0] == 'f'
        && "filament.eng_plate_temp"@[1] == 'i'
        && "filament.eng_plate_temp"@[8] == '.'
        && "filament.eng_plate_temp"@[13] == 'p'
        && "filament.eng_plate_temp"@[16] == 't'
        && "internal_bridge_support"@[0] == 'i'
        && "internal_bridge_support"@[1] == 'n'
        && "internal_bridge_support"@[8] == '_'
        && "internal_bridge_support"@[13] == 'g'
        && "internal_bridge_support"@[16] == 's'
        && "line_widths.top_surface"@[0] == 'l'
        && "line_widths.top_surface"@[1] == 'i'
        && "line_widths.top_surface"@[8] == 't'
        && "line_widths.top_surface"@[13] == 'o');
    assert("line_widths.top_surface"@[16] == 's'
        && "sequential.gantry_width"@[0] == 's'
        && "sequential.gantry_width"@[1] == 'e'
        && "sequential.gantry_width"@[8] == 'a'
        && "sequential.gantry_width"@[13] == 'n'
        && "sequential.gantry_width"@[16] == 'y'
        && "support.support_density"@[0] == 's'
        && "support.support_density"@[1] == 'u'
        && "support.support_density"@[8] == 's'
        && "support.support_density"@[13] == 'r'
        && "support.support_density"@[16] == 'd'
        && "support.support_pattern"@[0] == 's'
        && "support.support_pattern"@[1] == 'u'
        && "support.support_pattern"@[8] == 's'
        && "support.support_pattern"@[13] == 'r'
        && "support.support_pattern"@[16] == 'p'
        && "support.tree.angle_slow"@[0] == 's'
        && "support.tree.angle_slow"@[1] == 'u'
        && "support.tree.angle_slow"@[8] == 't'
        && "support.tree.angle_slow"@[13] == 'a'
        && "support.tree.angle_slow"@[16] == 'l'
        && "support.tree.brim_width"@[0] == 's'
        && "support.tree.brim_width"@[1] == 'u'
        && "support.tree.brim_width"@[8] == 't'
        && "support.tree.brim_width"@[13] == 'b'
        && "support.tree.brim_width"@[16] == 'm'
        && "support.tree.wall_count"@[0] == 's'
        && "support.tree.wall_count"@[1] == 'u'
        && "support.tree.wall_count"@[8] == 't'
        && "support.tree.wall_count"@[13] == 'w'
        && "support.tree.wall_count"@[16] == 'l'
        && "accel.print"@[0] == 'a'
        && "accel.print"@[1] == 'c'
        && "bridge_flow"@[0] == 'b'
        && "bridge_flow"@[1] == 'r'
        && "raft_layers"@[0] == 'r'
        && "raft_layers"@[1] == 'a'
        && "skirt_loops"@[0] == 's'
        && "skirt_loops"@[1] == 'k'
        && "spiral_mode"@[0] == 's');
    assert("spiral_mode"@[1] == 'p'
        && "accel.support_interface_acceleration"@[0] == 'a'
        && "accel.support_interface_acceleration"@[30] == 'r'
        && "cooling.additional_cooling_fan_speed"@[0] == 'c'
        && "cooling.additional_cooling_fan_speed"@[30] == '_'
        && "multi_material.solid_infill_filament"@[0] == 'm'
        && "multi_material.solid_infill_filament"@[30] == 'l'
        && "sequential.extruder_clearance_height"@[0] == 's'
        && "sequential.extruder_clearance_height"@[30] == 'h'
        && "sequential.extruder_clearance_radius"@[0] == 's'
        && "sequential.extruder_clearance_radius"@[30] == 'r'
        && "accel.top_surface"@[0] == 'a'
        && "accel.top_surface"@[1] == 'c'
        && "accel.top_surface"@[8] == 'p'
        && "filament.diameter"@[0] == 'f'
        && "filament.diameter"@[1] == 'i'
        && "filament.diameter"@[8] == '.'
        && "infill_anchor_max"@[0] == 'i'
        && "infill_anchor_max"@[1] == 'n'
        && "infill_anchor_max"@[8] == 'n'
        && "machine.bed_shape"@[0] == 'm'
        && "machine.bed_shape"@[1] == 'a'
        && "machine.bed_shape"@[8] == 'b'
        && "machine.end_gcode"@[0] == 'm'
        && "machine.end_gcode"@[1] == 'a'
        && "machine.end_gcode"@[8] == 'e'
        && "only_one_wall_top"@[0] == 'o'
        && "only_one_wall_top"@[1] == 'n'
        && "only_one_wall_top"@[8] == '_'
        && "retraction.length"@[0] == 'r'
        && "retraction.length"@[1] == 'e'
        && "retraction.length"@[8] == 'o'
        && "speeds.inner_wall"@[0] == 's'
        && "speeds.inner_wall"@[1] == 'p'
        && "speeds.inner_wall"@[8] == 'n'
        && "support.expansion"@[0] == 's'
        && "support.expansion"@[1] == 'u'
        && "support.expansion"@[8] == 'e'
        && "adaptive_layer_height"@[0] == 'a'
        && "adaptive_layer_height"@[8] == '_');
    assert("adaptive_layer_height"@[13] == 'r'
        && "adaptive_layer_height"@[20] == 't'
        && "cooling.auxiliary_fan"@[0] == 'c'
        && "cooling.auxiliary_fan"@[8] == 'a'
        && "cooling.auxiliary_fan"@[13] == 'i'
        && "cooling.auxiliary_fan"@[20] == 'n'
        && "cooling.fan_max_speed"@[0] == 'c'
        && "cooling.fan_max_speed"@[8] == 'f'
        && "cooling.fan_max_speed"@[13] == 'a'
        && "cooling.fan_max_speed"@[20] == 'd'
        && "cooling.fan_min_speed"@[0] == 'c'
        && "cooling.fan_min_speed"@[8] == 'f'
        && "cooling.fan_min_speed"@[13] == 'i'
        && "cooling.fan_min_speed"@[20] == 'd'
        && "machine.curr_bed_type"@[0] == 'm'
        && "machine.curr_bed_type"@[8] == 'c'
        && "machine.curr_bed_type"@[13] == 'b'
        && "machine.curr_bed_type"@[20] == 'e'
        && "machine.jerk_values_e"@[0] == 'm'
        && "machine.jerk_values_e"@[8] == 'j'
        && "machine.jerk_values_e"@[13] == 'v'
        && "machine.jerk_values_e"@[20] == 'e'
        && "machine.jerk_values_x"@[0] == 'm'
        && "machine.jerk_values_x"@[8] == 'j'
        && "machine.jerk_values_x"@[13] == 'v'
        && "machine.jerk_values_x"@[20] == 'x'
        && "machine.jerk_values_y"@[0] == 'm'
        && "machine.jerk_values_y"@[8] == 'j'
        && "machine.jerk_values_y"@[13] == 'v'
        && "machine.jerk_values_y"@[20] == 'y'
        && "machine.jerk_values_z"@[0] == 'm'
        && "machine.jerk_values_z"@[8] == 'j'
        && "machine.jerk_values_z"@[13] == 'v'
        && "machine.jerk_values_z"@[20] == 'z'
        && "machine.printer_model"@[0] == 'm'
        && "machine.printer_model"@[8] == 'p'
        && "machine.printer_model"@[13] == 'e'
        && "machine.printer_model"@[20] == 'l'
        && "retraction.min_travel"@[0] == 'r'
        && "retraction.min_travel"@[8] == 'o');
    assert("retraction.min_travel"@[13] == 'n'
        && "retraction.min_travel"@[20] == 'l'
        && "support.tree.top_rate"@[0] == 's'
        && "support.tree.top_rate"@[8] == 't'
        && "support.tree.top_rate"@[13] == 't'
        && "support.tree.top_rate"@[20] == 'e'
        && "arachne_enabled"@[0] == 'a'
        && "arachne_enabled"@[1] == 'r'
        && "arachne_enabled"@[7] == '_'
        && "ooze_prevention"@[0] == 'o'
        && "ooze_prevention"@[1] == 'o'
        && "ooze_prevention"@[7] == 'e'
        && "retraction.wipe"@[0] == 'r'
        && "retraction.wipe"@[1] == 'e'
        && "retraction.wipe"@[7] == 'i'
        && "speeds.gap_fill"@[0] == 's'
        && "speeds.gap_fill"@[1] == 'p'
        && "speeds.gap_fill"@[7] == 'g'
        && "speeds.travel_z"@[0] == 's'
        && "speeds.travel_z"@[1] == 'p'
        && "speeds.travel_z"@[7] == 't'
        && "support.enabled"@[0] == 's'
        && "support.enabled"@[1] == 'u'
        && "support.enabled"@[7] == '.'
        && "bottom_surface_pattern"@[0] == 'b'
        && "bottom_surface_pattern"@[1] == 'o'
        && "bottom_surface_pattern"@[8] == 'u'
        && "bottom_surface_pattern"@[12] == 'c'
        && "filament.filament_type"@[0] == 'f'
        && "filament.filament_type"@[1] == 'i'
        && "filament.filament_type"@[8] == '.'
        && "filament.filament_type"@[12] == 'a'
        && "line_widths.inner_wall"@[0] == 'l'
        && "line_widths.inner_wall"@[1] == 'i'
        && "line_widths.inner_wall"@[8] == 't'
        && "line_widths.inner_wall"@[12] == 'i'
        && "line_widths.outer_wall"@[0] == 'l'
        && "line_widths.outer_wall"@[1] == 'i'
        && "line_widths.outer_wall"@[8] == 't'
        && "line_widths.outer_wall"@[12] == 'o');
    assert("speeds.small_perimeter"@[0] == 's'
        && "speeds.small_perimeter"@[1] == 'p'
        && "speeds.small_perimeter"@[8] == 'm'
        && "speeds.small_perimeter"@[12] == '_'
        && "support.bridge.density"@[0] == 's'
        && "support.bridge.density"@[1] == 'u'
        && "support.bridge.density"@[8] == 'b'
        && "support.bridge.density"@[12] == 'g'
        && "support.closing_radius"@[0] == 's'
        && "support.closing_radius"@[1] == 'u'
        && "support.closing_radius"@[8] == 'c'
        && "support.closing_radius"@[12] == 'i'
        && "support.enforce_layers"@[0] == 's'
        && "support.enforce_layers"@[1] == 'u'
        && "support.enforce_layers"@[8] == 'e'
        && "support.enforce_layers"@[12] == 'r'
        && "support.overhang_angle"@[0] == 's'
        && "support.overhang_angle"@[1] == 'u'
        && "support.overhang_angle"@[8] == 'o'
        && "support.overhang_angle"@[12] == 'h'
        && "support.raft_expansion"@[0] == 's'
        && "support.raft_expansion"@[1] == 'u'
        && "support.raft_expansion"@[8] == 'r'
        && "support.raft_expansion"@[12] == '_'
        && "support.tree.auto_brim"@[0] == 's'
        && "support.tree.auto_brim"@[1] == 'u'
        && "support.tree.auto_brim"@[8] == 't'
        && "support.tree.auto_brim"@[12] == '.'
        && "brim_skirt.brim_ears"@[0] == 'b'
        && "brim_skirt.brim_ears"@[1] == 'r'
        && "brim_skirt.brim_ears"@[8] == 'r'
        && "brim_skirt.brim_ears"@[9] == 't'
        && "brim_skirt.brim_ears"@[16] == 'e'
        && "brim_skirt.brim_type"@[0] == 'b'
        && "brim_skirt.brim_type"@[1] == 'r'
        && "brim_skirt.brim_type"@[8] == 'r'
        && "brim_skirt.brim_type"@[9] == 't'
        && "brim_skirt.brim_type"@[16] == 't'
        && "extrusion_multiplier"@[0] == 'e'
        && "extrusion_multiplier"@[1] == 'x');
    assert("extrusion_multiplier"@[8] == 'n'
        && "extrusion_multiplier"@[9] == '_'
        && "extrusion_multiplier"@[16] == 'l'
        && "filament.cost_per_kg"@[0] == 'f'
        && "filament.cost_per_kg"@[1] == 'i'
        && "filament.cost_per_kg"@[8] == '.'
        && "filament.cost_per_kg"@[9] == 'c'
        && "filament.cost_per_kg"@[16] == 'r'
        && "fuzzy_skin.thickness"@[0] == 'f'
        && "fuzzy_skin.thickness"@[1] == 'u'
        && "fuzzy_skin.thickness"@[8] == 'i'
        && "fuzzy_skin.thickness"@[9] == 'n'
        && "fuzzy_skin.thickness"@[16] == 'n'
        && "solid_infill_pattern"@[0] == 's'
        && "solid_infill_pattern"@[1] == 'o'
        && "solid_infill_pattern"@[8] == 'f'
        && "solid_infill_pattern"@[9] == 'i'
        && "solid_infill_pattern"@[16] == 't'
        && "support.bottom_z_gap"@[0] == 's'
        && "support.bottom_z_gap"@[1] == 'u'
        && "support.bottom_z_gap"@[8] == 'b'
        && "support.bottom_z_gap"@[9] == 'o'
        && "support.bottom_z_gap"@[16] == '_'
        && "support.bridge.angle"@[0] == 's'
        && "support.bridge.angle"@[1] == 'u'
        && "support.bridge.angle"@[8] == 'b'
        && "support.bridge.angle"@[9] == 'r'
        && "support.bridge.angle"@[16] == 'n'
        && "support.support_type"@[0] == 's'
        && "support.support_type"@[1] == 'u'
        && "support.support_type"@[8] == 's'
        && "support.support_type"@[9] == 'u'
        && "support.support_type"@[16] == 't'
        && "brim_skirt.brim_ears_max_angle"@[0] == 'b'
        && "cooling.overhang_fan_threshold"@[0] == 'c'
        && "retraction.retract_before_wipe"@[0] == 'r'
        && "brim_width"@[0] == 'b'
        && "resolution"@[0] == 'r'
        && "wall_count"@[0] == 'w'
        && "cooling.fan_below_layer_time"@[0] == 'c');
    assert("cooling.fan_below_layer_time"@[1] == 'o'
        && "cooling.fan_below_layer_time"@[7] == '.'
        && "cooling.fan_below_layer_time"@[8] == 'f'
        && "cooling.fan_below_layer_time"@[9] == 'a'
        && "cooling.fan_below_layer_time"@[16] == 'w'
        && "cooling.full_fan_speed_layer"@[0] == 'c'
        && "cooling.full_fan_speed_layer"@[1] == 'o'
        && "cooling.full_fan_speed_layer"@[7] == '.'
        && "cooling.full_fan_speed_layer"@[8] == 'f'
        && "cooling.full_fan_speed_layer"@[9] == 'u'
        && "cooling.full_fan_speed_layer"@[16] == '_'
        && "cooling.slow_down_layer_time"@[0] == 'c'
        && "cooling.slow_down_layer_time"@[1] == 'o'
        && "cooling.slow_down_layer_time"@[7] == '.'
        && "cooling.slow_down_layer_time"@[8] == 's'
        && "cooling.slow_down_layer_time"@[9] == 'l'
        && "cooling.slow_down_layer_time"@[16] == 'n'
        && "filament.chamber_temperature"@[0] == 'f'
        && "filament.chamber_temperature"@[1] == 'i'
        && "filament.chamber_temperature"@[7] == 't'
        && "filament.chamber_temperature"@[8] == '.'
        && "filament.chamber_temperature"@[9] == 'c'
        && "filament.chamber_temperature"@[16] == '_'
        && "filament.nozzle_temperatures"@[0] == 'f'
        && "filament.nozzle_temperatures"@[1] == 'i'
        && "filament.nozzle_temperatures"@[7] == 't'
        && "filament.nozzle_temperatures"@[8] == '.'
        && "filament.nozzle_temperatures"@[9] == 'n'
        && "filament.nozzle_temperatures"@[16] == 't'
        && "filament.textured_plate_temp"@[0] == 'f'
        && "filament.textured_plate_temp"@[1] == 'i'
        && "filament.textured_plate_temp"@[7] == 't'
        && "filament.textured_plate_temp"@[8] == '.'
        && "filament.textured_plate_temp"@[9] == 't'
        && "filament.textured_plate_temp"@[16] == 'd'
        && "multi_material.wall_filament"@[0] == 'm'
        && "multi_material.wall_filament"@[1] == 'u'
        && "multi_material.wall_filament"@[7] == 'a'
        && "multi_material.wall_filament"@[8] == 't'
        && "multi_material.wall_filament"@[9] == 'e');
    assert("multi_material.wall_filament"@[16] == 'a'
        && "speeds.enable_overhang_speed"@[0] == 's'
        && "speeds.enable_overhang_speed"@[1] == 'p'
        && "speeds.enable_overhang_speed"@[7] == 'e'
        && "speeds.enable_overhang_speed"@[8] == 'n'
        && "speeds.enable_overhang_speed"@[9] == 'a'
        && "speeds.enable_overhang_speed"@[16] == 'e'
        && "speeds.internal_bridge_speed"@[0] == 's'
        && "speeds.internal_bridge_speed"@[1] == 'p'
        && "speeds.internal_bridge_speed"@[7] == 'i'
        && "speeds.internal_bridge_speed"@[8] == 'n'
        && "speeds.internal_bridge_speed"@[9] == 't'
        && "speeds.internal_bridge_speed"@[16] == 'b'
        && "speeds.internal_solid_infill"@[0] == 's'
        && "speeds.internal_solid_infill"@[1] == 'p'
        && "speeds.internal_solid_infill"@[7] == 'i'
        && "speeds.internal_solid_infill"@[8] == 'n'
        && "speeds.internal_solid_infill"@[9] == 't'
        && "speeds.internal_solid_infill"@[16] == 's'
        && "support.bridge.thick_bridges"@[0] == 's'
        && "support.bridge.thick_bridges"@[1] == 'u'
        && "support.bridge.thick_bridges"@[7] == '.'
        && "support.bridge.thick_bridges"@[8] == 'b'
        && "support.bridge.thick_bridges"@[9] == 'r'
        && "support.bridge.thick_bridges"@[16] == 'h'
        && "support.interface_flow_ratio"@[0] == 's'
        && "support.interface_flow_ratio"@[1] == 'u'
        && "support.interface_flow_ratio"@[7] == '.'
        && "support.interface_flow_ratio"@[8] == 'i'
        && "support.interface_flow_ratio"@[9] == 'n'
        && "support.interface_flow_ratio"@[16] == 'e'
        && "support.tree.branch_distance"@[0] == 's'
        && "support.tree.branch_distance"@[1] == 'u'
        && "support.tree.branch_distance"@[7] == '.'
        && "support.tree.branch_distance"@[8] == 't'
        && "support.tree.branch_distance"@[9] == 'r'
        && "support.tree.branch_distance"@[16] == 'n'
        && "cooling.slow_down_for_layer_cooling"@[0] == 'c'
        && "cooling.slow_down_for_layer_cooling"@[29] == 'o'
        && "filament.filament_retraction_length"@[0] == 'f');
    assert("filament.filament_retraction_length"@[29] == 'l'
        && "input_shaping.accel_to_decel_enable"@[0] == 'i'
        && "input_shaping.accel_to_decel_enable"@[29] == 'e'
        && "input_shaping.accel_to_decel_factor"@[0] == 'i'
        && "input_shaping.accel_to_decel_factor"@[29] == 'f'
        && "machine.max_acceleration_retracting"@[0] == 'm'
        && "machine.max_acceleration_retracting"@[29] == 'a'
        && "cooling.slow_down_min_speed"@[0] == 'c'
        && "filament.filament_end_gcode"@[0] == 'f'
        && "speeds.initial_layer_infill"@[0] == 's'
        && "elefant_foot_compensation"@[0] == 'e'
        && "elefant_foot_compensation"@[1] == 'l'
        && "elefant_foot_compensation"@[8] == 'f'
        && "elefant_foot_compensation"@[13] == 'c'
        && "elefant_foot_compensation"@[18] == 'n'
        && "filament.bed_temperatures"@[0] == 'f'
        && "filament.bed_temperatures"@[1] == 'i'
        && "filament.bed_temperatures"@[8] == '.'
        && "filament.bed_temperatures"@[13] == 't'
        && "filament.bed_temperatures"@[18] == 'r'
        && "fuzzy_skin.point_distance"@[0] == 'f'
        && "fuzzy_skin.point_distance"@[1] == 'u'
        && "fuzzy_skin.point_distance"@[8] == 'i'
        && "fuzzy_skin.point_distance"@[13] == 'i'
        && "fuzzy_skin.point_distance"@[18] == 'i'
        && "line_widths.initial_layer"@[0] == 'l'
        && "line_widths.initial_layer"@[1] == 'i'
        && "line_widths.initial_layer"@[8] == 't'
        && "line_widths.initial_layer"@[13] == 'n'
        && "line_widths.initial_layer"@[18] == 'l'
        && "support.bridge.no_support"@[0] == 's'
        && "support.bridge.no_support"@[1] == 'u'
        && "support.bridge.no_support"@[8] == 'b'
        && "support.bridge.no_support"@[13] == 'e'
        && "support.bridge.no_support"@[18] == 's'
        && "support.interface_density"@[0] == 's'
        && "support.interface_density"@[1] == 'u'
        && "support.interface_density"@[8] == 'i'
        && "support.interface_density"@[13] == 'f'
        && "support.interface_density"@[18] == 'd');
    assert("support.interface_pattern"@[0] == 's'
        && "support.interface_pattern"@[1] == 'u'
        && "support.interface_pattern"@[8] == 'i'
        && "support.interface_pattern"@[13] == 'f'
        && "support.interface_pattern"@[18] == 'p'
        && "support.tree.branch_angle"@[0] == 's'
        && "support.tree.branch_angle"@[1] == 'u'
        && "support.tree.branch_angle"@[8] == 't'
        && "support.tree.branch_angle"@[13] == 'b'
        && "support.tree.branch_angle"@[18] == 'h'
        && "support.tree.tip_diameter"@[0] == 's'
        && "support.tree.tip_diameter"@[1] == 'u'
        && "support.tree.tip_diameter"@[8] == 't'
        && "support.tree.tip_diameter"@[13] == 't'
        && "support.tree.tip_diameter"@[18] == 'i'
        && "extra_perimeters_on_overhangs"@[0] == 'e'
        && "extra_perimeters_on_overhangs"@[8] == 'r'
        && "extra_perimeters_on_overhangs"@[9] == 'i'
        && "filament.filament_start_gcode"@[0] == 'f'
        && "filament.filament_start_gcode"@[8] == '.'
        && "filament.filament_start_gcode"@[9] == 'f'
        && "filament.max_volumetric_speed"@[0] == 'f'
        && "filament.max_volumetric_speed"@[8] == '.'
        && "filament.max_volumetric_speed"@[9] == 'm'
        && "retraction.deretraction_speed"@[0] == 'r'
        && "retraction.deretraction_speed"@[8] == 'o'
        && "retraction.deretraction_speed"@[9] == 'n'
        && "support.critical_regions_only"@[0] == 's'
        && "support.critical_regions_only"@[8] == 'c'
        && "support.critical_regions_only"@[9] == 'r'
        && "support.remove_small_overhang"@[0] == 's'
        && "support.remove_small_overhang"@[8] == 'r'
        && "support.remove_small_overhang"@[9] == 'e'
        && "filament.cool_plate_temp"@[0] == 'f'
        && "filament.cool_plate_temp"@[1] == 'i'
        && "filament.cool_plate_temp"@[8] == '.'
        && "filament.cool_plate_temp"@[9] == 'c'
        && "filament.cool_plate_temp"@[18] == 'e'
        && "filament.filament_colour"@[0] == 'f'
        && "filament.filament_colour"@[1] == 'i');
    assert("filament.filament_colour"@[8] == '.'
        && "filament.filament_colour"@[9] == 'f'
        && "filament.filament_colour"@[18] == 'c'
        && "filament.filament_shrink"@[0] == 'f'
        && "filament.filament_shrink"@[1] == 'i'
        && "filament.filament_shrink"@[8] == '.'
        && "filament.filament_shrink"@[9] == 'f'
        && "filament.filament_shrink"@[18] == 's'
        && "filament.filament_vendor"@[0] == 'f'
        && "filament.filament_vendor"@[1] == 'i'
        && "filament.filament_vendor"@[8] == '.'
        && "filament.filament_vendor"@[9] == 'f'
        && "filament.filament_vendor"@[18] == 'v'
        && "machine.max_layer_height"@[0] == 'm'
        && "machine.max_layer_height"@[1] == 'a'
        && "machine.max_layer_height"@[8] == 'm'
        && "machine.max_layer_height"@[9] == 'a'
        && "machine.max_layer_height"@[18] == 'h'
        && "machine.min_layer_height"@[0] == 'm'
        && "machine.min_layer_height"@[1] == 'a'
        && "machine.min_layer_height"@[8] == 'm'
        && "machine.min_layer_height"@[9] == 'i'
        && "machine.min_layer_height"@[18] == 'h'
        && "machine.nozzle_diameters"@[0] == 'm'
        && "machine.nozzle_diameters"@[1] == 'a'
        && "machine.nozzle_diameters"@[8] == 'n'
        && "machine.nozzle_diameters"@[9] == 'o'
        && "machine.nozzle_diameters"@[18] == 'm'
        && "machine.printable_height"@[0] == 'm'
        && "machine.printable_height"@[1] == 'a'
        && "machine.printable_height"@[8] == 'p'
        && "machine.printable_height"@[9] == 'r'
        && "machine.printable_height"@[18] == 'h'
        && "retraction.wipe_distance"@[0] == 'r'
        && "retraction.wipe_distance"@[1] == 'e'
        && "retraction.wipe_distance"@[8] == 'o'
        && "retraction.wipe_distance"@[9] == 'n'
        && "retraction.wipe_distance"@[18] == 's'
        && "speeds.support_interface"@[0] == 's'
        && "speeds.support_interface"@[1] == 'p');
    assert("speeds.support_interface"@[8] == 'u'
        && "speeds.support_interface"@[9] == 'p'
        && "speeds.support_interface"@[18] == 'e'
        && "support.bridge.fan_speed"@[0] == 's'
        && "support.bridge.fan_speed"@[1] == 'u'
        && "support.bridge.fan_speed"@[8] == 'b'
        && "support.bridge.fan_speed"@[9] == 'r'
        && "support.bridge.fan_speed"@[18] == '_'
        && "support.build_plate_only"@[0] == 's'
        && "support.build_plate_only"@[1] == 'u'
        && "support.build_plate_only"@[8] == 'b'
        && "support.build_plate_only"@[9] == 'u'
        && "support.build_plate_only"@[18] == 'e'
        && "support.interface_layers"@[0] == 's'
        && "support.interface_layers"@[1] == 'u'
        && "support.interface_layers"@[8] == 'i'
        && "support.interface_layers"@[9] == 'n'
        && "support.interface_layers"@[18] == 'l'
        && "support.tree.with_infill"@[0] == 's'
        && "support.tree.with_infill"@[1] == 'u'
        && "support.tree.with_infill"@[8] == 't'
        && "support.tree.with_infill"@[9] == 'r'
        && "support.tree.with_infill"@[18] == 'i'
        && "filament.cool_plate_temp_initial_layer"@[0] == 'f'
        && "filament.cool_plate_temp_initial_layer"@[9] == 'c'
        && "filament.nozzle_temperature_range_high"@[0] == 'f'
        && "filament.nozzle_temperature_range_high"@[9] == 'n'
        && "retraction.retract_when_changing_layer"@[0] == 'r'
        && "retraction.retract_when_changing_layer"@[9] == 'n'
        && "filament.eng_plate_temp_initial_layer"@[9] == 'e'
        && "filament.first_layer_bed_temperatures"@[9] == 'f'
        && "filament.nozzle_temperature_range_low"@[9] == 'n'
        && "filament.filament_retraction_speed"@[0] == 'f'
        && "filament.filament_retraction_speed"@[13] == 'm'
        && "machine.max_acceleration_extruding"@[0] == 'm'
        && "machine.max_acceleration_extruding"@[13] == 'c'
        && "support.tree.adaptive_layer_height"@[0] == 's'
        && "support.tree.adaptive_layer_height"@[13] == 'a'
        && "support.tree.branch_diameter_angle"@[0] == 's'
        && "support.tree.branch_diameter_angle"@[13] == 'b');
    assert("first_layer_height"@[0] == 'f'
        && "first_layer_height"@[1] == 'i'
        && "first_layer_height"@[7] == 'a'
        && "fuzzy_skin.enabled"@[0] == 'f'
        && "fuzzy_skin.enabled"@[1] == 'u'
        && "fuzzy_skin.enabled"@[7] == 'k'
        && "infill_combination"@[0] == 'i'
        && "infill_combination"@[1] == 'n'
        && "infill_combination"@[7] == 'c'
        && "line_widths.infill"@[0] == 'l'
        && "line_widths.infill"@[1] == 'i'
        && "line_widths.infill"@[7] == 'd'
        && "precise_outer_wall"@[0] == 'p'
        && "precise_outer_wall"@[1] == 'r'
        && "precise_outer_wall"@[7] == '_'
        && "speeds.first_layer"@[0] == 's'
        && "speeds.first_layer"@[1] == 'p'
        && "speeds.first_layer"@[7] == 'f'
        && "speeds.top_surface"@[0] == 's'
        && "speeds.top_surface"@[1] == 'p'
        && "speeds.top_surface"@[7] == 't'
        && "support.flow_ratio"@[0] == 's'
        && "support.flow_ratio"@[1] == 'u'
        && "support.flow_ratio"@[7] == '.'
        && "gcode_dialect"@[0] == 'g'
        && "gcode_dialect"@[1] == 'c'
        && "gcode_dialect"@[7] == 'i'
        && "seam_position"@[0] == 's'
        && "seam_position"@[1] == 'e'
        && "seam_position"@[7] == 's'
        && "speeds.bridge"@[0] == 's'
        && "speeds.bridge"@[1] == 'p'
        && "speeds.bridge"@[7] == 'b'
        && "speeds.infill"@[0] == 's'
        && "speeds.infill"@[1] == 'p'
        && "speeds.infill"@[7] == 'i'
        && "speeds.travel"@[0] == 's'
        && "speeds.travel"@[1] == 'p'
        && "speeds.travel"@[7] == 't'
        && "support.z_gap"@[0] == 's');
    assert("support.z_gap"@[1] == 'u'
        && "support.z_gap"@[7] == '.'
        && "infill_density"@[0] == 'i'
        && "infill_density"@[1] == 'n'
        && "infill_density"@[7] == 'd'
        && "infill_pattern"@[0] == 'i'
        && "infill_pattern"@[1] == 'n'
        && "infill_pattern"@[7] == 'p'
        && "min_bead_width"@[0] == 'm'
        && "min_bead_width"@[1] == 'i'
        && "min_bead_width"@[7] == 'd'
        && "skirt_distance"@[0] == 's'
        && "skirt_distance"@[1] == 'k'
        && "skirt_distance"@[7] == 'i'
        && "speeds.support"@[0] == 's'
        && "speeds.support"@[1] == 'p'
        && "speeds.support"@[7] == 's'
        && "support.xy_gap"@[0] == 's'
        && "support.xy_gap"@[1] == 'u'
        && "support.xy_gap"@[7] == '.'
        && "machine.max_acceleration_travel"@[0] == 'm'
        && "machine.max_acceleration_travel"@[1] == 'a'
        && "multi_material.support_filament"@[0] == 'm'
        && "multi_material.support_filament"@[1] == 'u'
        && "support.tree.max_trunk_diameter"@[0] == 's'
        && "support.tree.max_trunk_diameter"@[1] == 'u');
}

/// Two upstream keys map to the same configuration field only when they are
/// the same key or synonyms: different settings never share a field.
pub proof fn lemma_upstream_fields_distinct(a: Seq<char>, b: Seq<char>)
    requires
        upstream_field_of(a) is Some,
        upstream_field_of(a) == upstream_field_of(b),
    ensures
        a == b || upstream_synonyms(a, b),
{
    lemma_upstream_source(a);
    lemma_upstream_source(b);
    lemma_upstream_source_unique(upstream_field_of(a)->0, a, b);
}


/// The surface pattern an upstream lowercase name denotes, if any.
pub open spec fn upstream_surface_pattern(name: Seq<char>) -> Option<SurfacePattern> {
    if name == "rectilinear"@ || name == "zig-zag"@ || name == "line"@ {
        Some(SurfacePattern::Rectilinear)
    } else if name == "monotonic"@ {
        Some(SurfacePattern::Monotonic)
    } else if name == "monotonicline"@ || name == "monotonic_line"@ {
        Some(SurfacePattern::MonotonicLine)
    } else if name == "concentric"@ {
        Some(SurfacePattern::Concentric)
    } else if name == "hilbertcurve"@ || name == "hilbert"@ {
        Some(SurfacePattern::Hilbert)
    } else if name == "archimedeanchords"@ || name == "archimedean"@ {
        Some(SurfacePattern::Archimedean)
    } else {
        None
    }
}

/// The surface pattern an upstream lowercase name denotes, if any.
pub fn upstream_surface_pattern_of_normalized(name: &str) -> (r: Option<SurfacePattern>)
    ensures
        r == upstream_surface_pattern(name@),
{
    if str_eq(name, "rectilinear") || str_eq(name, "zig-zag") || str_eq(name, "line") {
        return Some(SurfacePattern::Rectilinear);
    }
    if str_eq(name, "monotonic") {
        return Some(SurfacePattern::Monotonic);
    }
    if str_eq(name, "monotonicline") || str_eq(name, "monotonic_line") {
        return Some(SurfacePattern::MonotonicLine);
    }
    if str_eq(name, "concentric") {
        return Some(SurfacePattern::Concentric);
    }
    if str_eq(name, "hilbertcurve") || str_eq(name, "hilbert") {
        return Some(SurfacePattern::Hilbert);
    }
    if str_eq(name, "archimedeanchords") || str_eq(name, "archimedean") {
        return Some(SurfacePattern::Archimedean);
    }
    None
}

/// Map an upstream surface pattern name (any letter case) to its setting value.
pub fn map_surface_pattern(value: &str) -> (r: Option<SurfacePattern>)
    ensures
        r == upstream_surface_pattern(lowercase_of(value@)),
{
    let lower = to_lowercase(value);
    upstream_surface_pattern_of_normalized(lower.as_str())
}

/// The bed type an upstream lowercase name without spaces denotes, if any.
pub open spec fn upstream_bed_type(name: Seq<char>) -> Option<BedType> {
    if name == "coolplate"@ || name == "cool_plate"@ {
        Some(BedType::CoolPlate)
    } else if name == "engineeringplate"@ || name == "engineering_plate"@ || name == "epplate"@ {
        Some(BedType::EngineeringPlate)
    } else if name == "hightempplate"@ || name == "high_temp_plate"@ || name == "hotplate"@ {
        Some(BedType::HighTempPlate)
    } else if name == "texturedpeiplate"@ || name == "textured_pei"@ || name == "texturedpei"@ {
        Some(BedType::TexturedPei)
    } else if name == "smoothpeiplate"@ || name == "smooth_pei"@ || name == "smoothpei"@ {
        Some(BedType::SmoothPei)
    } else if name == "satinpeiplate"@ || name == "satin_pei"@ || name == "satinpei"@ {
        Some(BedType::SatinPei)
    } else {
        None
    }
}

/// The bed type an upstream lowercase name without spaces denotes, if any.
pub fn upstream_bed_type_of_normalized(name: &str) -> (r: Option<BedType>)
    ensures
        r == upstream_bed_type(name@),
{
    if str_eq(name, "coolplate") || str_eq(name, "cool_plate") {
        return Some(BedType::CoolPlate);
    }
    if str_eq(name, "engineeringplate") || str_eq(name, "engineering_plate") || str_eq(name, "epplate") {
        return Some(BedType::EngineeringPlate);
    }
    if str_eq(name, "hightempplate") || str_eq(name, "high_temp_plate") || str_eq(name, "hotplate") {
        return Some(BedType::HighTempPlate);
    }
    if str_eq(name, "texturedpeiplate") || str_eq(name, "textured_pei") || str_eq(name, "texturedpei") {
        return Some(BedType::TexturedPei);
    }
    if str_eq(name, "smoothpeiplate") || str_eq(name, "smooth_pei") || str_eq(name, "smoothpei") {
        return Some(BedType::SmoothPei);
    }
    if str_eq(name, "satinpeiplate") || str_eq(name, "satin_pei") || str_eq(name, "satinpei") {
        return Some(BedType::SatinPei);
    }
    None
}

/// Map an upstream bed type name (any letter case, spaces ignored) to its setting value.
pub fn map_bed_type(value: &str) -> (r: Option<BedType>)
    ensures
        r == upstream_bed_type(without_char(lowercase_of(value@), ' ')),
{
    let lower = to_lowercase(value);
    let compact = remove_char(lower.as_str(), ' ');
    upstream_bed_type_of_normalized(compact.as_str())
}

/// The internal bridge mode an upstream lowercase name denotes, if any.
pub open spec fn upstream_internal_bridge_mode(name: Seq<char>) -> Option<InternalBridgeMode> {
    if name == "0"@ || name == "false"@ || name == "off"@ || name == "disabled"@ {
        Some(InternalBridgeMode::Off)
    } else if name == "1"@ || name == "true"@ || name == "auto"@ {
        Some(InternalBridgeMode::Auto)
    } else if name == "2"@ || name == "always"@ {
        Some(InternalBridgeMode::Always)
    } else {
        None
    }
}

/// The internal bridge mode an upstream lowercase name denotes, if any.
pub fn upstream_internal_bridge_mode_of_normalized(name: &str) -> (r: Option<InternalBridgeMode>)
    ensures
        r == upstream_internal_bridge_mode(name@),
{
    if str_eq(name, "0") || str_eq(name, "false") || str_eq(name, "off") || str_eq(name, "disabled") {
        return Some(InternalBridgeMode::Off);
    }
    if str_eq(name, "1") || str_eq(name, "true") || str_eq(name, "auto") {
        return Some(InternalBridgeMode::Auto);
    }
    if str_eq(name, "2") || str_eq(name, "always") {
        return Some(InternalBridgeMode::Always);
    }
    None
}

/// Map an upstream internal bridge mode name (any letter case) to its setting value.
pub fn map_internal_bridge_mode(value: &str) -> (r: Option<InternalBridgeMode>)
    ensures
        r == upstream_internal_bridge_mode(lowercase_of(value@)),
{
    let lower = to_lowercase(value);
    upstream_internal_bridge_mode_of_normalized(lower.as_str())
}

/// The brim type an upstream lowercase name without spaces denotes, if any.
pub open spec fn upstream_brim_type(name: Seq<char>) -> Option<BrimType> {
    if name == "no_brim"@ || name == "nobrim"@ || name == "none"@ {
        Some(BrimType::NoBrim)
    } else if name == "outer_only"@ || name == "outeronly"@ || name == "outer"@ {
        Some(BrimType::Outer)
    } else if name == "inner_only"@ || name == "inneronly"@ || name == "inner"@ {
        Some(BrimType::Inner)
    } else if name == "outer_and_inner"@ || name == "outerandinner"@ || name == "both"@ {
        Some(BrimType::Both)
    } else {
        None
    }
}

/// The brim type an upstream lowercase name without spaces denotes, if any.
pub fn upstream_brim_type_of_normalized(name: &str) -> (r: Option<BrimType>)
    ensures
        r == upstream_brim_type(name@),
{
    if str_eq(name, "no_brim") || str_eq(name, "nobrim") || str_eq(name, "none") {
        return Some(BrimType::NoBrim);
    }
    if str_eq(name, "outer_only") || str_eq(name, "outeronly") || str_eq(name, "outer") {
        return Some(BrimType::Outer);
    }
    if str_eq(name, "inner_only") || str_eq(name, "inneronly") || str_eq(name, "inner") {
        return Some(BrimType::Inner);
    }
    if str_eq(name, "outer_and_inner") || str_eq(name, "outerandinner") || str_eq(name, "both") {
        return Some(BrimType::Both);
    }
    None
}

/// Map an upstream brim type name (any letter case, spaces ignored) to its setting value.
pub fn map_brim_type(value: &str) -> (r: Option<BrimType>)
    ensures
        r == upstream_brim_type(without_char(lowercase_of(value@), ' ')),
{
    let lower = to_lowercase(value);
    let compact = remove_char(lower.as_str(), ' ');
    upstream_brim_type_of_normalized(compact.as_str())
}

/// The infill pattern an upstream lowercase name denotes, if any.
pub open spec fn upstream_infill_pattern(name: Seq<char>) -> Option<InfillPattern> {
    if name == "grid"@ {
        Some(InfillPattern::Grid)
    } else if name == "honeycomb"@ {
        Some(InfillPattern::Honeycomb)
    } else if name == "gyroid"@ {
        Some(InfillPattern::Gyroid)
    } else if name == "cubic"@ {
        Some(InfillPattern::Cubic)
    } else if name == "adaptivecubic"@ {
        Some(InfillPattern::AdaptiveCubic)
    } else if name == "lightning"@ {
        Some(InfillPattern::Lightning)
    } else if name == "monotonic"@ {
        Some(InfillPattern::Monotonic)
    } else if name == "zig-zag"@ || name == "rectilinear"@ || name == "line"@ {
        Some(InfillPattern::Rectilinear)
    } else {
        None
    }
}

/// The infill pattern an upstream lowercase name denotes, if any.
pub fn upstream_infill_pattern_of_normalized(name: &str) -> (r: Option<InfillPattern>)
    ensures
        r == upstream_infill_pattern(name@),
{
    if str_eq(name, "grid") {
        return Some(InfillPattern::Grid);
    }
    if str_eq(name, "honeycomb") {
        return Some(InfillPattern::Honeycomb);
    }
    if str_eq(name, "gyroid") {
        return Some(InfillPattern::Gyroid);
    }
    if str_eq(name, "cubic") {
        return Some(InfillPattern::Cubic);
    }
    if str_eq(name, "adaptivecubic") {
        return Some(InfillPattern::AdaptiveCubic);
    }
    if str_eq(name, "lightning") {
        return Some(InfillPattern::Lightning);
    }
    if str_eq(name, "monotonic") {
        return Some(InfillPattern::Monotonic);
    }
    if str_eq(name, "zig-zag") || str_eq(name, "rectilinear") || str_eq(name, "line") {
        return Some(InfillPattern::Rectilinear);
    }
    None
}

/// Map an upstream infill pattern name (any letter case) to its setting value.
pub fn map_infill_pattern(value: &str) -> (r: Option<InfillPattern>)
    ensures
        r == upstream_infill_pattern(lowercase_of(value@)),
{
    let lower = to_lowercase(value);
    upstream_infill_pattern_of_normalized(lower.as_str())
}

/// The seam position an upstream lowercase name denotes, if any.
pub open spec fn upstream_seam_position(name: Seq<char>) -> Option<SeamPosition> {
    if name == "aligned"@ {
        Some(SeamPosition::Aligned)
    } else if name == "random"@ {
        Some(SeamPosition::Random)
    } else if name == "rear"@ {
        Some(SeamPosition::Rear)
    } else if name == "nearest"@ {
        Some(SeamPosition::NearestCorner)
    } else {
        None
    }
}

/// The seam position an upstream lowercase name denotes, if any.
pub fn upstream_seam_position_of_normalized(name: &str) -> (r: Option<SeamPosition>)
    ensures
        r == upstream_seam_position(name@),
{
    if str_eq(name, "aligned") {
        return Some(SeamPosition::Aligned);
    }
    if str_eq(name, "random") {
        return Some(SeamPosition::Random);
    }
    if str_eq(name, "rear") {
        return Some(SeamPosition::Rear);
    }
    if str_eq(name, "nearest") {
        return Some(SeamPosition::NearestCorner);
    }
    None
}

/// Map an upstream seam position name (any letter case) to its setting value.
pub fn map_seam_position(value: &str) -> (r: Option<SeamPosition>)
    ensures
        r == upstream_seam_position(lowercase_of(value@)),
{
    let lower = to_lowercase(value);
    upstream_seam_position_of_normalized(lower.as_str())
}

/// The G-code flavor an upstream lowercase name denotes, if any.
pub open spec fn upstream_gcode_dialect(name: Seq<char>) -> Option<GcodeDialect> {
    if name == "marlin"@ {
        Some(GcodeDialect::Marlin)
    } else if name == "klipper"@ {
        Some(GcodeDialect::Klipper)
    } else if name == "reprapfirmware"@ || name == "reprap"@ {
        Some(GcodeDialect::RepRapFirmware)
    } else {
        None
    }
}

/// The G-code flavor an upstream lowercase name denotes, if any.
pub fn upstream_gcode_dialect_of_normalized(name: &str) -> (r: Option<GcodeDialect>)
    ensures
        r == upstream_gcode_dialect(name@),
{
    if str_eq(name, "marlin") {
        return Some(GcodeDialect::Marlin);
    }
    if str_eq(name, "klipper") {
        return Some(GcodeDialect::Klipper);
    }
    if str_eq(name, "reprapfirmware") || str_eq(name, "reprap") {
        return Some(GcodeDialect::RepRapFirmware);
    }
    None
}

/// Map an upstream G-code flavor name (any letter case) to its setting value.
pub fn map_gcode_dialect(value: &str) -> (r: Option<GcodeDialect>)
    ensures
        r == upstream_gcode_dialect(lowercase_of(value@)),
{
    let lower = to_lowercase(value);
    upstream_gcode_dialect_of_normalized(lower.as_str())
}

/// The support type an upstream lowercase name denotes, if any.
pub open spec fn upstream_support_type(name: Seq<char>) -> Option<SupportType> {
    if name == "none"@ || name == "disable"@ || name == "0"@ {
        Some(SupportType::NoSupport)
    } else if name == "auto"@ || name == "default"@ || name == "1"@ {
        Some(SupportType::Auto)
    } else if name == "normal"@ || name == "normal(auto)"@ || name == "normal(manual)"@ || name == "grid"@ || name == "snug"@ || name == "traditional"@ {
        Some(SupportType::Traditional)
    } else if name == "tree"@ || name == "tree(auto)"@ || name == "tree_slim"@ || name == "organic"@ {
        Some(SupportType::Tree)
    } else {
        None
    }
}

/// The support type an upstream lowercase name denotes, if any.
pub fn upstream_support_type_of_normalized(name: &str) -> (r: Option<SupportType>)
    ensures
        r == upstream_support_type(name@),
{
    if str_eq(name, "none") || str_eq(name, "disable") || str_eq(name, "0") {
        return Some(SupportType::NoSupport);
    }
    if str_eq(name, "auto") || str_eq(name, "default") || str_eq(name, "1") {
        return Some(SupportType::Auto);
    }
    if str_eq(name, "normal") || str_eq(name, "normal(auto)") || str_eq(name, "normal(manual)") || str_eq(name, "grid") || str_eq(name, "snug") || str_eq(name, "traditional") {
        return Some(SupportType::Traditional);
    }
    if str_eq(name, "tree") || str_eq(name, "tree(auto)") || str_eq(name, "tree_slim") || str_eq(name, "organic") {
        return Some(SupportType::Tree);
    }
    None
}

/// Map an upstream support type name (any letter case) to its setting value.
pub fn map_support_type(value: &str) -> (r: Option<SupportType>)
    ensures
        r == upstream_support_type(lowercase_of(value@)),
{
    let lower = to_lowercase(value);
    upstream_support_type_of_normalized(lower.as_str())
}

/// The support pattern an upstream lowercase name denotes, if any.
pub open spec fn upstream_support_pattern(name: Seq<char>) -> Option<SupportPattern> {
    if name == "default"@ || name == "line"@ {
        Some(SupportPattern::Line)
    } else if name == "rectilinear"@ {
        Some(SupportPattern::Rectilinear)
    } else if name == "grid"@ {
        Some(SupportPattern::Grid)
    } else if name == "honeycomb"@ {
        Some(SupportPattern::Honeycomb)
    } else if name == "lightning"@ {
        Some(SupportPattern::Lightning)
    } else {
        None
    }
}

/// The support pattern an upstream lowercase name denotes, if any.
pub fn upstream_support_pattern_of_normalized(name: &str) -> (r: Option<SupportPattern>)
    ensures
        r == upstream_support_pattern(name@),
{
    if str_eq(name, "default") || str_eq(name, "line") {
        return Some(SupportPattern::Line);
    }
    if str_eq(name, "rectilinear") {
        return Some(SupportPattern::Rectilinear);
    }
    if str_eq(name, "grid") {
        return Some(SupportPattern::Grid);
    }
    if str_eq(name, "honeycomb") {
        return Some(SupportPattern::Honeycomb);
    }
    if str_eq(name, "lightning") {
        return Some(SupportPattern::Lightning);
    }
    None
}

/// Map an upstream support pattern name (any letter case) to its setting value.
pub fn map_support_pattern(value: &str) -> (r: Option<SupportPattern>)
    ensures
        r == upstream_support_pattern(lowercase_of(value@)),
{
    let lower = to_lowercase(value);
    upstream_support_pattern_of_normalized(lower.as_str())
}

/// The support interface pattern an upstream lowercase name denotes, if any.
pub open spec fn upstream_interface_pattern(name: Seq<char>) -> Option<InterfacePattern> {
    if name == "default"@ || name == "rectilinear"@ || name == "auto"@ {
        Some(InterfacePattern::Rectilinear)
    } else if name == "grid"@ {
        Some(InterfacePattern::Grid)
    } else if name == "concentric"@ {
        Some(InterfacePattern::Concentric)
    } else {
        None
    }
}

/// The support interface pattern an upstream lowercase name denotes, if any.
pub fn upstream_interface_pattern_of_normalized(name: &str) -> (r: Option<InterfacePattern>)
    ensures
        r == upstream_interface_pattern(name@),
{
    if str_eq(name, "default") || str_eq(name, "rectilinear") || str_eq(name, "auto") {
        return Some(InterfacePattern::Rectilinear);
    }
    if str_eq(name, "grid") {
        return Some(InterfacePattern::Grid);
    }
    if str_eq(name, "concentric") {
        return Some(InterfacePattern::Concentric);
    }
    None
}

/// Map an upstream support interface pattern name (any letter case) to its setting value.
pub fn map_interface_pattern(value: &str) -> (r: Option<InterfacePattern>)
    ensures
        r == upstream_interface_pattern(lowercase_of(value@)),
{
    let lower = to_lowercase(value);
    upstream_interface_pattern_of_normalized(lower.as_str())
}

} // verus!
