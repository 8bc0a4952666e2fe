//! Version comparison and capability-probe behaviour.

use metal_caps::caps::PrivateCapabilities;
use metal_caps::device::{DeviceInfo, GpuFamily, ReadWriteTextureTier};
use metal_caps::caps::MslVersion;
use metal_caps::tiers::{ARGUMENT_BUFFER_SUPPORT, RESOURCE_HEAP_SUPPORT};

fn mac_device() -> DeviceInfo {
    let mut info = DeviceInfo::default();
    info.feature_sets.mac_family1_v1 = true;
    info.feature_sets.mac_family1_v2 = true;
    info.feature_sets.mac_family1_v3 = true;
    info.feature_sets.mac_family1_v4 = true;
    info.feature_sets.mac_family2_v1 = true;
    info.families.mac1 = true;
    info.families.mac2 = true;
    info.raw_read_write_texture_tier = ReadWriteTextureTier::Tier2;
    info.d24_s8_supported = true;
    info.supports_sample_count_2 = true;
    info.supports_sample_count_8 = true;
    info.name = b"AMD Radeon Pro 560".to_vec();
    info
}

fn mobile_device() -> DeviceInfo {
    let mut info = DeviceInfo::default();
    info.feature_sets.ios_family1_v1 = true;
    info.feature_sets.ios_family1_v2 = true;
    info.feature_sets.ios_family1_v3 = true;
    info.feature_sets.ios_family1_v4 = true;
    info.feature_sets.ios_family2_v1 = true;
    info.feature_sets.ios_family2_v2 = true;
    info.feature_sets.ios_family2_v3 = true;
    info.feature_sets.ios_family2_v4 = true;
    info.feature_sets.ios_family3_v1 = true;
    info.feature_sets.ios_family3_v2 = true;
    info.feature_sets.ios_family3_v3 = true;
    info.feature_sets.ios_family4_v1 = true;
    info.feature_sets.ios_family4_v2 = true;
    info.families.apple3 = true;
    info.families.apple6 = true;
    info.raw_read_write_texture_tier = ReadWriteTextureTier::Tier1;
    info.is_low_power = true;
    info.supports_sample_count_2 = true;
    info.name = b"Apple A13 GPU".to_vec();
    info
}

#[test]
fn version_at_least_is_reflexive() {
    assert!(PrivateCapabilities::version_at_least(13, 0, 13, 0));
    assert!(PrivateCapabilities::version_at_least(10, 15, 10, 15));
    assert!(PrivateCapabilities::version_at_least(0, 0, 0, 0));
}

#[test]
fn version_at_least_is_lexicographic() {
    assert!(PrivateCapabilities::version_at_least(11, 0, 10, 15));
    assert!(PrivateCapabilities::version_at_least(10, 16, 10, 15));
    assert!(!PrivateCapabilities::version_at_least(10, 14, 10, 15));
    assert!(!PrivateCapabilities::version_at_least(9, 99, 10, 0));
    assert!(PrivateCapabilities::version_at_least(13, 1, 13, 0));
}

#[test]
fn version_at_least_is_monotonic_across_thresholds() {
    // Above 13.0, hence above every lower threshold as well.
    assert!(PrivateCapabilities::version_at_least(13, 2, 13, 0));
    assert!(PrivateCapabilities::version_at_least(13, 2, 12, 0));
    assert!(PrivateCapabilities::version_at_least(13, 2, 11, 0));
    assert!(PrivateCapabilities::version_at_least(13, 2, 9, 0));
}

#[test]
fn family_check_mobile_thresholds() {
    let info = mobile_device();
    let at_threshold = PrivateCapabilities::new(&info, 13, 0);
    assert!(at_threshold.family_check);
    let below_threshold = PrivateCapabilities::new(&info, 12, 9);
    assert!(!below_threshold.family_check);
}

#[test]
fn family_check_desktop_thresholds() {
    let info = mac_device();
    let at_threshold = PrivateCapabilities::new(&info, 10, 15);
    assert!(at_threshold.family_check);
    let below_threshold = PrivateCapabilities::new(&info, 10, 14);
    assert!(!below_threshold.family_check);
}

#[test]
fn desktop_without_table_membership_gets_nothing_gated_on_it() {
    // A desktop-class device that supports none of a table's tier
    // identifiers: supports_any is false and every capability gated on that
    // table is false.
    let mut info = DeviceInfo::default();
    info.feature_sets.mac_family1_v1 = true;
    assert!(!PrivateCapabilities::supports_any(
        &info.feature_sets,
        &RESOURCE_HEAP_SUPPORT
    ));
    assert!(!PrivateCapabilities::supports_any(
        &info.feature_sets,
        &ARGUMENT_BUFFER_SUPPORT
    ));
    let pc = PrivateCapabilities::new(&info, 10, 15);
    assert!(!pc.resource_heaps);
    assert!(!pc.argument_buffers);
    assert!(!pc.format_astc);
    assert!(!pc.format_rgba8_srgb_all);
    assert!(!pc.format_bgr10a2_all);
    assert!(!pc.supports_arrays_of_textures);
    assert!(!pc.sampler_clamp_to_border);
    assert_eq!(pc.max_total_threadgroup_memory, 16384);
}

#[test]
fn supports_any_finds_a_member() {
    let info = mac_device();
    // The resource-heap table contains the third-generation desktop set.
    assert!(PrivateCapabilities::supports_any(
        &info.feature_sets,
        &RESOURCE_HEAP_SUPPORT
    ));
}

#[test]
fn desktop_probe_fills_the_descriptor() {
    let info = mac_device();
    let pc = PrivateCapabilities::new(&info, 10, 15);
    assert!(pc.family_check);
    assert_eq!(pc.msl_version, MslVersion::V2_2);
    assert_eq!(pc.exposed_queues, 1);
    assert_eq!(pc.read_write_texture_tier, ReadWriteTextureTier::Tier2);
    assert!(pc.resource_heaps);
    assert!(pc.argument_buffers);
    assert!(!pc.shared_textures);
    assert!(pc.mutable_comparison_samplers);
    assert!(pc.sampler_clamp_to_border);
    assert!(pc.sampler_lod_average);
    assert!(pc.base_instance);
    assert!(pc.base_vertex_instance_drawing);
    assert!(pc.dual_source_blending);
    assert!(!pc.low_power);
    assert!(!pc.headless);
    assert!(pc.layered_rendering);
    assert!(pc.function_specialization);
    assert!(pc.depth_clip_mode);
    assert!(pc.texture_cube_array);
    assert!(pc.format_depth24_stencil8);
    assert!(pc.format_depth32_stencil8_filter);
    assert!(!pc.format_depth32_stencil8_none);
    assert_eq!(pc.format_min_srgb_channels, 4);
    assert!(!pc.format_b5);
    assert!(pc.format_bc);
    assert!(!pc.format_eac_etc);
    assert!(!pc.format_astc);
    assert!(pc.format_any8_snorm_all);
    assert!(pc.format_r16_norm_all);
    assert!(pc.format_r32_all);
    assert!(!pc.format_r32_no_write);
    assert!(pc.format_r32float_all);
    assert!(!pc.format_rgba8_srgb_all);
    assert!(pc.format_rgba8_srgb_no_write);
    assert!(pc.format_rgb10a2_unorm_all);
    assert!(pc.format_rg11b10_all);
    assert!(!pc.format_rgb9e5_all);
    assert!(pc.format_rgb9e5_filter_only);
    assert!(pc.format_rg32_color_write);
    assert!(pc.format_rg32float_all);
    assert!(pc.format_rgba32int_color_write);
    assert!(pc.format_rgba32float_all);
    assert!(pc.format_depth16unorm);
    assert!(pc.format_depth32float_filter);
    assert!(!pc.format_depth32float_none);
    assert!(pc.format_bgr10a2_all);
    assert!(!pc.format_bgr10a2_no_write);
    assert_eq!(pc.max_buffers_per_stage, 31);
    assert_eq!(pc.max_textures_per_stage, 128);
    assert_eq!(pc.max_samplers_per_stage, 16);
    assert_eq!(pc.buffer_alignment, 256);
    assert_eq!(pc.max_buffer_size, 1 << 30);
    assert_eq!(pc.max_texture_size, 16384);
    assert_eq!(pc.max_texture_3d_size, 2048);
    assert_eq!(pc.max_texture_layers, 2048);
    assert_eq!(pc.max_fragment_input_components, 128);
    assert_eq!(pc.max_color_render_targets, 8);
    assert_eq!(pc.max_total_threadgroup_memory, 32 << 10);
    assert_eq!(pc.sample_count_mask, 0b1111);
    assert!(pc.supports_debug_markers);
    assert!(pc.supports_binary_archives);
    assert!(pc.supports_capture_manager);
    assert!(pc.can_set_maximum_drawables_count);
    assert!(pc.can_set_display_sync);
    assert!(pc.can_set_next_drawable_timeout);
    assert!(pc.supports_arrays_of_textures);
    assert!(pc.supports_arrays_of_textures_write);
    assert!(pc.supports_mutability);
}

#[test]
fn mobile_probe_fills_the_descriptor() {
    let info = mobile_device();
    let pc = PrivateCapabilities::new(&info, 13, 0);
    assert!(pc.family_check);
    assert_eq!(pc.msl_version, MslVersion::V2_2);
    assert_eq!(pc.read_write_texture_tier, ReadWriteTextureTier::Tier1);
    assert!(pc.shared_textures);
    assert!(pc.low_power);
    assert!(!pc.headless);
    assert!(!pc.format_depth24_stencil8);
    assert!(!pc.format_depth32_stencil8_filter);
    assert!(pc.format_depth32_stencil8_none);
    assert_eq!(pc.format_min_srgb_channels, 1);
    assert!(pc.format_b5);
    assert!(!pc.format_bc);
    assert!(pc.format_eac_etc);
    assert!(pc.format_astc);
    // The two oldest mobile generations are supported, so the degraded
    // 32-bit format rules apply.
    assert!(!pc.format_r32_all);
    assert!(pc.format_r32_no_write);
    assert!(pc.format_r32float_no_write_no_filter);
    assert!(!pc.format_r32float_no_filter);
    assert!(!pc.format_r32float_all);
    assert!(pc.format_rg32_color);
    assert!(!pc.format_rg32_color_write);
    assert!(pc.format_rg32float_color_blend);
    assert!(!pc.format_rg32float_all);
    assert!(pc.format_rgba32int_color);
    assert!(!pc.format_rgba32int_color_write);
    assert!(pc.format_rgba32float_color);
    assert!(!pc.format_rgba32float_color_write);
    assert!(!pc.format_depth16unorm);
    assert!(!pc.format_depth32float_filter);
    assert!(pc.format_depth32float_none);
    assert_eq!(pc.max_textures_per_stage, 31);
    assert_eq!(pc.buffer_alignment, 64);
    assert_eq!(pc.max_buffer_size, 1 << 28);
    assert_eq!(pc.max_texture_size, 16384);
    assert_eq!(pc.max_fragment_input_components, 60);
    assert_eq!(pc.max_color_render_targets, 8);
    assert_eq!(pc.max_total_threadgroup_memory, 64 << 10);
    assert_eq!(pc.sample_count_mask, 0b0111);
    assert!(pc.supports_binary_archives);
    assert!(!pc.can_set_display_sync);
    assert!(pc.supports_arrays_of_textures);
    assert!(pc.supports_arrays_of_textures_write);
}

#[test]
fn mobile_shading_language_ladder() {
    let info = mobile_device();
    assert_eq!(PrivateCapabilities::new(&info, 13, 1).msl_version, MslVersion::V2_2);
    assert_eq!(PrivateCapabilities::new(&info, 12, 4).msl_version, MslVersion::V2_1);
    assert_eq!(PrivateCapabilities::new(&info, 11, 0).msl_version, MslVersion::V2_0);
    assert_eq!(PrivateCapabilities::new(&info, 10, 3).msl_version, MslVersion::V1_2);
    assert_eq!(PrivateCapabilities::new(&info, 9, 0).msl_version, MslVersion::V1_1);
    assert_eq!(PrivateCapabilities::new(&info, 8, 4).msl_version, MslVersion::V1_0);
}

#[test]
fn desktop_shading_language_ladder() {
    let info = mac_device();
    assert_eq!(PrivateCapabilities::new(&info, 11, 0).msl_version, MslVersion::V2_2);
    assert_eq!(PrivateCapabilities::new(&info, 10, 14).msl_version, MslVersion::V2_1);
    assert_eq!(PrivateCapabilities::new(&info, 10, 13).msl_version, MslVersion::V2_0);
    assert_eq!(PrivateCapabilities::new(&info, 10, 12).msl_version, MslVersion::V1_2);
    assert_eq!(PrivateCapabilities::new(&info, 10, 11).msl_version, MslVersion::V1_1);
    assert_eq!(PrivateCapabilities::new(&info, 10, 10).msl_version, MslVersion::V1_0);
}

#[test]
fn read_write_tier_is_version_gated() {
    // The hardware reports a tier, but the probe only trusts it on a new
    // enough OS.
    let mac = mac_device();
    assert_eq!(
        PrivateCapabilities::new(&mac, 10, 12).read_write_texture_tier,
        ReadWriteTextureTier::TierNone
    );
    assert_eq!(
        PrivateCapabilities::new(&mac, 10, 13).read_write_texture_tier,
        ReadWriteTextureTier::Tier2
    );
    let mobile = mobile_device();
    assert_eq!(
        PrivateCapabilities::new(&mobile, 10, 3).read_write_texture_tier,
        ReadWriteTextureTier::TierNone
    );
    assert_eq!(
        PrivateCapabilities::new(&mobile, 11, 0).read_write_texture_tier,
        ReadWriteTextureTier::Tier1
    );
}

#[test]
fn probe_is_deterministic() {
    let info = mac_device();
    let first = PrivateCapabilities::new(&info, 10, 15);
    let second = PrivateCapabilities::new(&info, 10, 15);
    assert_eq!(first, second);
}

#[test]
fn empty_device_report_supports_nothing() {
    let info = DeviceInfo::default();
    let pc = PrivateCapabilities::new(&info, 13, 0);
    assert!(!pc.resource_heaps);
    assert!(!pc.texture_cube_array);
    assert_eq!(pc.read_write_texture_tier, ReadWriteTextureTier::TierNone);
    assert_eq!(pc.max_texture_size, 4096);
    assert_eq!(pc.max_color_render_targets, 4);
    assert_eq!(pc.sample_count_mask, 0b0101);
    assert!(!info.families.supports_family(GpuFamily::Apple3));
}
