//! The capability descriptor and the probe that fills it.
//!
//! [`PrivateCapabilities::new`] is the Capability Probe: a single
//! deterministic pass that classifies the device as desktop-class or
//! mobile-class, applies OS-version thresholds, runs the tier-table
//! membership tests, and assigns every field of the descriptor. The
//! descriptor is immutable afterwards; every later query is a pure
//! projection of it.

use vstd::prelude::*;

use crate::device::{DeviceInfo, GpuFamily, ReadWriteTextureTier};
use crate::tiers::{
    FeatureSet, FeatureSetSupport, spec_supports_any, ARGUMENT_BUFFER_SUPPORT,
    ARRAYS_OF_TEXTURES_SUPPORT, ASTC_PIXEL_FORMAT_FEATURES, ANY8_SNORM_RESOLVE,
    ANY8_UNORM_SRGB_ALL, BASE_INSTANCE_SUPPORT, BASE_VERTEX_INSTANCE_SUPPORT, BGR10A2_ALL,
    DEBUG_MARKER_SUPPORT, DEPTH_CLIP_MODE, DUAL_SOURCE_BLEND_SUPPORT,
    EIGHT_COLOR_RENDER_TARGETS, FUNCTION_SPECIALIZATION_SUPPORT, LAYERED_RENDERING_SUPPORT,
    MUTABLE_COMPARISON_SAMPLER_SUPPORT, OLDEST_IOS_FAMILIES, RESOURCE_HEAP_SUPPORT,
    RG11B10FLOAT_ALL, RGB10A2UINT_COLOR_WRITE, RGB10A2UNORM_ALL, RGB9E5FLOAT_ALL, RGBA8_SRGB,
    SAMPLER_CLAMP_TO_BORDER_SUPPORT, TEXTURE_CUBE_ARRAY_SUPPORT, TEXTURE_SIZE_16384,
    TEXTURE_SIZE_8192, THREADGROUP_MEMORY_32K, THREADGROUP_MEMORY_64K,
};

verus! {

broadcast use vstd::array::group_array_axioms;

/// A shading-language version, ordered by [`MslVersion::rank`].
#[derive(Clone, Copy, Debug, PartialEq, Eq, Structural)]
pub enum MslVersion {
    V1_0,
    V1_1,
    V1_2,
    V2_0,
    V2_1,
    V2_2,
}

impl MslVersion {
    /// Position in the version order: later language versions rank higher.
    pub open spec fn rank(self) -> int {
        match self {
            MslVersion::V1_0 => 0,
            MslVersion::V1_1 => 1,
            MslVersion::V1_2 => 2,
            MslVersion::V2_0 => 3,
            MslVersion::V2_1 => 4,
            MslVersion::V2_2 => 5,
        }
    }

    /// Whether this language version is the given one or later.
    pub fn at_least(self, other: MslVersion) -> (r: bool)
        ensures
            r == (self.rank() >= other.rank()),
    {
        let self_code: u32 = match self {
            MslVersion::V1_0 => 0,
            MslVersion::V1_1 => 1,
            MslVersion::V1_2 => 2,
            MslVersion::V2_0 => 3,
            MslVersion::V2_1 => 4,
            MslVersion::V2_2 => 5,
        };
        let other_code: u32 = match other {
            MslVersion::V1_0 => 0,
            MslVersion::V1_1 => 1,
            MslVersion::V1_2 => 2,
            MslVersion::V2_0 => 3,
            MslVersion::V2_1 => 4,
            MslVersion::V2_2 => 5,
        };
        self_code >= other_code
    }
}

/// `(major, minor)` is at or above the needed `(needed_major, needed_minor)`,
/// comparing lexicographically.
pub open spec fn spec_version_at_least(
    major: u32,
    minor: u32,
    needed_major: u32,
    needed_minor: u32,
) -> bool {
    major > needed_major || (major == needed_major && minor >= needed_minor)
}

/// The device is desktop-class: it supports the first-generation desktop
/// feature set. Everything else is mobile-class.
pub open spec fn spec_os_is_mac(info: DeviceInfo) -> bool {
    info.feature_sets.supports(FeatureSet::MacFamily1V1)
}

/// The OS version is at or above the class-specific minimum: 10.15 for
/// desktop-class devices, 13.0 for mobile-class ones.
pub open spec fn spec_family_check(info: DeviceInfo, major: u32, minor: u32) -> bool {
    if spec_os_is_mac(info) {
        spec_version_at_least(major, minor, 10, 15)
    } else {
        spec_version_at_least(major, minor, 13, 0)
    }
}

/// The shading-language version as a step function of platform class and OS
/// version: strictly decreasing thresholds, each returning a fixed version.
pub open spec fn spec_msl_version(os_is_mac: bool, major: u32, minor: u32) -> MslVersion {
    if os_is_mac {
        if spec_version_at_least(major, minor, 10, 15) {
            MslVersion::V2_2
        } else if spec_version_at_least(major, minor, 10, 14) {
            MslVersion::V2_1
        } else if spec_version_at_least(major, minor, 10, 13) {
            MslVersion::V2_0
        } else if spec_version_at_least(major, minor, 10, 12) {
            MslVersion::V1_2
        } else if spec_version_at_least(major, minor, 10, 11) {
            MslVersion::V1_1
        } else {
            MslVersion::V1_0
        }
    } else {
        if spec_version_at_least(major, minor, 13, 0) {
            MslVersion::V2_2
        } else if spec_version_at_least(major, minor, 12, 0) {
            MslVersion::V2_1
        } else if spec_version_at_least(major, minor, 11, 0) {
            MslVersion::V2_0
        } else if spec_version_at_least(major, minor, 10, 0) {
            MslVersion::V1_2
        } else if spec_version_at_least(major, minor, 9, 0) {
            MslVersion::V1_1
        } else {
            MslVersion::V1_0
        }
    }
}

/// The read-write texture tier the descriptor records: the tier the hardware
/// reports, but only once the OS is new enough to be asked (desktop-class:
/// 10.13; mobile-class: 11.0), and no tier below that.
pub open spec fn spec_read_write_texture_tier(
    info: DeviceInfo,
    major: u32,
    minor: u32,
) -> ReadWriteTextureTier {
    if spec_os_is_mac(info) {
        if spec_version_at_least(major, minor, 10, 13) {
            info.raw_read_write_texture_tier
        } else {
            ReadWriteTextureTier::TierNone
        }
    } else {
        if spec_version_at_least(major, minor, 11, 0) {
            info.raw_read_write_texture_tier
        } else {
            ReadWriteTextureTier::TierNone
        }
    }
}

/// The 4-bit mask of supported sample counts: 1x and 4x are universal, 2x
/// and 8x are probed.
pub open spec fn spec_sample_count_mask(info: DeviceInfo) -> u8 {
    (5 + (if info.supports_sample_count_2 {
        2int
    } else {
        0int
    }) + (if info.supports_sample_count_8 {
        8int
    } else {
        0int
    })) as u8
}

/// The immutable per-device capability descriptor: one independent fact per
/// field, assigned once by [`PrivateCapabilities::new`] and never re-derived.
#[derive(Clone, Copy, Debug, PartialEq, Eq, Structural)]
pub struct PrivateCapabilities {
    pub family_check: bool,
    pub msl_version: MslVersion,
    pub exposed_queues: u32,
    pub read_write_texture_tier: ReadWriteTextureTier,
    pub resource_heaps: bool,
    pub argument_buffers: bool,
    pub shared_textures: bool,
    pub mutable_comparison_samplers: bool,
    pub sampler_clamp_to_border: bool,
    pub sampler_lod_average: bool,
    pub base_instance: bool,
    pub base_vertex_instance_drawing: bool,
    pub dual_source_blending: bool,
    pub low_power: bool,
    pub headless: bool,
    pub layered_rendering: bool,
    pub function_specialization: bool,
    pub depth_clip_mode: bool,
    pub texture_cube_array: bool,
    pub format_depth24_stencil8: bool,
    pub format_depth32_stencil8_filter: bool,
    pub format_depth32_stencil8_none: bool,
    pub format_min_srgb_channels: u8,
    pub format_b5: bool,
    pub format_bc: bool,
    pub format_eac_etc: bool,
    pub format_astc: bool,
    pub format_any8_unorm_srgb_all: bool,
    pub format_any8_unorm_srgb_no_write: bool,
    pub format_any8_snorm_all: bool,
    pub format_r16_norm_all: bool,
    pub format_r32_all: bool,
    pub format_r32_no_write: bool,
    pub format_r32float_no_write_no_filter: bool,
    pub format_r32float_no_filter: bool,
    pub format_r32float_all: bool,
    pub format_rgba8_srgb_all: bool,
    pub format_rgba8_srgb_no_write: bool,
    pub format_rgb10a2_unorm_all: bool,
    pub format_rgb10a2_unorm_no_write: bool,
    pub format_rgb10a2_uint_color: bool,
    pub format_rgb10a2_uint_color_write: bool,
    pub format_rg11b10_all: bool,
    pub format_rg11b10_no_write: bool,
    pub format_rgb9e5_all: bool,
    pub format_rgb9e5_no_write: bool,
    pub format_rgb9e5_filter_only: bool,
    pub format_rg32_color: bool,
    pub format_rg32_color_write: bool,
    pub format_rg32float_all: bool,
    pub format_rg32float_color_blend: bool,
    pub format_rg32float_no_filter: bool,
    pub format_rgba32int_color: bool,
    pub format_rgba32int_color_write: bool,
    pub format_rgba32float_color: bool,
    pub format_rgba32float_color_write: bool,
    pub format_rgba32float_all: bool,
    pub format_depth16unorm: bool,
    pub format_depth32float_filter: bool,
    pub format_depth32float_none: bool,
    pub format_bgr10a2_all: bool,
    pub format_bgr10a2_no_write: bool,
    pub max_buffers_per_stage: u32,
    pub max_textures_per_stage: u32,
    pub max_samplers_per_stage: u32,
    pub buffer_alignment: u64,
    pub max_buffer_size: u64,
    pub max_texture_size: u64,
    pub max_texture_3d_size: u64,
    pub max_texture_layers: u64,
    pub max_fragment_input_components: u32,
    pub max_color_render_targets: u32,
    pub max_total_threadgroup_memory: u32,
    pub sample_count_mask: u8,
    pub supports_debug_markers: bool,
    pub supports_binary_archives: bool,
    pub supports_capture_manager: bool,
    pub can_set_maximum_drawables_count: bool,
    pub can_set_display_sync: bool,
    pub can_set_next_drawable_timeout: bool,
    pub supports_arrays_of_textures: bool,
    pub supports_arrays_of_textures_write: bool,
    pub supports_mutability: bool,
}

impl PrivateCapabilities {
    /// Lexicographic OS-version comparison: `(major, minor)` is at or above
    /// `(needed_major, needed_minor)`.
    pub fn version_at_least(major: u32, minor: u32, needed_major: u32, needed_minor: u32) -> (r:
        bool)
        ensures
            r == spec_version_at_least(major, minor, needed_major, needed_minor),
    {
        major > needed_major || (major == needed_major && minor >= needed_minor)
    }

    /// Membership test against a tier table: the device qualifies iff it
    /// supports at least one of the table's feature sets.
    pub fn supports_any(support: &FeatureSetSupport, sets: &[FeatureSet]) -> (r: bool)
        ensures
            r == spec_supports_any(*support, sets@),
    {
        let mut i: usize = 0;
        while i < sets.len()
            invariant
                0 <= i <= sets@.len(),
                forall|j: int| 0 <= j < i ==> !support.supports(sets@[j]),
            decreases sets@.len() - i,
        {
            if support.supports_feature_set(sets[i]) {
                assert(spec_supports_any(*support, sets@));
                return true;
            }
            i = i + 1;
        }
        false
    }

    /// The Capability Probe: derive the full descriptor from the device's raw
    /// answers and the host OS version `(os_major, os_minor)`, assigning
    /// every field in one deterministic pass.
    pub fn new(info: &DeviceInfo, os_major: u32, os_minor: u32) -> (caps: Self)
        ensures
            caps.family_check == spec_family_check(*info, os_major, os_minor),
            caps.msl_version == spec_msl_version(spec_os_is_mac(*info), os_major, os_minor),
            caps.exposed_queues == 1,
            caps.read_write_texture_tier == spec_read_write_texture_tier(
                *info,
                os_major,
                os_minor,
            ),
            caps.resource_heaps == spec_supports_any(info.feature_sets, RESOURCE_HEAP_SUPPORT@),
            caps.argument_buffers == spec_supports_any(
                info.feature_sets,
                ARGUMENT_BUFFER_SUPPORT@,
            ),
            caps.shared_textures == !spec_os_is_mac(*info),
            caps.mutable_comparison_samplers == spec_supports_any(
                info.feature_sets,
                MUTABLE_COMPARISON_SAMPLER_SUPPORT@,
            ),
            caps.sampler_clamp_to_border == spec_supports_any(
                info.feature_sets,
                SAMPLER_CLAMP_TO_BORDER_SUPPORT@,
            ),
            caps.sampler_lod_average == (if spec_os_is_mac(*info) {
                spec_version_at_least(os_major, os_minor, 10, 13)
            } else {
                spec_version_at_least(os_major, os_minor, 9, 0)
            }),
            caps.base_instance == spec_supports_any(info.feature_sets, BASE_INSTANCE_SUPPORT@),
            caps.base_vertex_instance_drawing == spec_supports_any(
                info.feature_sets,
                BASE_VERTEX_INSTANCE_SUPPORT@,
            ),
            caps.dual_source_blending == spec_supports_any(
                info.feature_sets,
                DUAL_SOURCE_BLEND_SUPPORT@,
            ),
            caps.low_power == (!spec_os_is_mac(*info) || info.is_low_power),
            caps.headless == (spec_os_is_mac(*info) && info.is_headless),
            caps.layered_rendering == spec_supports_any(
                info.feature_sets,
                LAYERED_RENDERING_SUPPORT@,
            ),
            caps.function_specialization == spec_supports_any(
                info.feature_sets,
                FUNCTION_SPECIALIZATION_SUPPORT@,
            ),
            caps.depth_clip_mode == spec_supports_any(info.feature_sets, DEPTH_CLIP_MODE@),
            caps.texture_cube_array == spec_supports_any(
                info.feature_sets,
                TEXTURE_CUBE_ARRAY_SUPPORT@,
            ),
            caps.format_depth24_stencil8 == (spec_os_is_mac(*info) && info.d24_s8_supported),
            caps.format_depth32_stencil8_filter == spec_os_is_mac(*info),
            caps.format_depth32_stencil8_none == !spec_os_is_mac(*info),
            caps.format_min_srgb_channels == (if spec_os_is_mac(*info) {
                4u8
            } else {
                1u8
            }),
            caps.format_b5 == !spec_os_is_mac(*info),
            caps.format_bc == spec_os_is_mac(*info),
            caps.format_eac_etc == !spec_os_is_mac(*info),
            caps.format_astc == spec_supports_any(
                info.feature_sets,
                ASTC_PIXEL_FORMAT_FEATURES@,
            ),
            caps.format_any8_unorm_srgb_all == spec_supports_any(
                info.feature_sets,
                ANY8_UNORM_SRGB_ALL@,
            ),
            caps.format_any8_unorm_srgb_no_write == (!spec_supports_any(
                info.feature_sets,
                ANY8_UNORM_SRGB_ALL@,
            ) && !spec_os_is_mac(*info)),
            caps.format_any8_snorm_all == spec_supports_any(
                info.feature_sets,
                ANY8_SNORM_RESOLVE@,
            ),
            caps.format_r16_norm_all == spec_os_is_mac(*info),
            caps.format_r32_all == !spec_supports_any(info.feature_sets, OLDEST_IOS_FAMILIES@),
            caps.format_r32_no_write == spec_supports_any(
                info.feature_sets,
                OLDEST_IOS_FAMILIES@,
            ),
            caps.format_r32float_no_write_no_filter == (spec_supports_any(
                info.feature_sets,
                OLDEST_IOS_FAMILIES@,
            ) && !spec_os_is_mac(*info)),
            caps.format_r32float_no_filter == (!spec_supports_any(
                info.feature_sets,
                OLDEST_IOS_FAMILIES@,
            ) && !spec_os_is_mac(*info)),
            caps.format_r32float_all == spec_os_is_mac(*info),
            caps.format_rgba8_srgb_all == spec_supports_any(info.feature_sets, RGBA8_SRGB@),
            caps.format_rgba8_srgb_no_write == !spec_supports_any(
                info.feature_sets,
                RGBA8_SRGB@,
            ),
            caps.format_rgb10a2_unorm_all == spec_supports_any(
                info.feature_sets,
                RGB10A2UNORM_ALL@,
            ),
            caps.format_rgb10a2_unorm_no_write == !spec_supports_any(
                info.feature_sets,
                RGB10A2UNORM_ALL@,
            ),
            caps.format_rgb10a2_uint_color == !spec_supports_any(
                info.feature_sets,
                RGB10A2UINT_COLOR_WRITE@,
            ),
            caps.format_rgb10a2_uint_color_write == spec_supports_any(
                info.feature_sets,
                RGB10A2UINT_COLOR_WRITE@,
            ),
            caps.format_rg11b10_all == spec_supports_any(
                info.feature_sets,
                RG11B10FLOAT_ALL@,
            ),
            caps.format_rg11b10_no_write == !spec_supports_any(
                info.feature_sets,
                RG11B10FLOAT_ALL@,
            ),
            caps.format_rgb9e5_all == spec_supports_any(info.feature_sets, RGB9E5FLOAT_ALL@),
            caps.format_rgb9e5_no_write == (!spec_supports_any(
                info.feature_sets,
                RGB9E5FLOAT_ALL@,
            ) && !spec_os_is_mac(*info)),
            caps.format_rgb9e5_filter_only == spec_os_is_mac(*info),
            caps.format_rg32_color == spec_supports_any(
                info.feature_sets,
                OLDEST_IOS_FAMILIES@,
            ),
            caps.format_rg32_color_write == !spec_supports_any(
                info.feature_sets,
                OLDEST_IOS_FAMILIES@,
            ),
            caps.format_rg32float_all == spec_os_is_mac(*info),
            caps.format_rg32float_color_blend == spec_supports_any(
                info.feature_sets,
                OLDEST_IOS_FAMILIES@,
            ),
            caps.format_rg32float_no_filter == (!spec_os_is_mac(*info) && !spec_supports_any(
                info.feature_sets,
                OLDEST_IOS_FAMILIES@,
            )),
            caps.format_rgba32int_color == spec_supports_any(
                info.feature_sets,
                OLDEST_IOS_FAMILIES@,
            ),
            caps.format_rgba32int_color_write == !spec_supports_any(
                info.feature_sets,
                OLDEST_IOS_FAMILIES@,
            ),
            caps.format_rgba32float_color == spec_supports_any(
                info.feature_sets,
                OLDEST_IOS_FAMILIES@,
            ),
            caps.format_rgba32float_color_write == (!spec_supports_any(
                info.feature_sets,
                OLDEST_IOS_FAMILIES@,
            ) && !spec_os_is_mac(*info)),
            caps.format_rgba32float_all == spec_os_is_mac(*info),
            caps.format_depth16unorm == info.feature_sets.supports(FeatureSet::MacFamily1V2),
            caps.format_depth32float_filter == info.feature_sets.supports(
                FeatureSet::MacFamily1V1,
            ),
            caps.format_depth32float_none == !info.feature_sets.supports(
                FeatureSet::MacFamily1V1,
            ),
            caps.format_bgr10a2_all == spec_supports_any(info.feature_sets, BGR10A2_ALL@),
            caps.format_bgr10a2_no_write == !info.feature_sets.supports(
                FeatureSet::MacFamily1V3,
            ),
            caps.max_buffers_per_stage == 31,
            caps.max_textures_per_stage == (if spec_os_is_mac(*info) {
                128u32
            } else {
                31u32
            }),
            caps.max_samplers_per_stage == 16,
            caps.buffer_alignment == (if spec_os_is_mac(*info) {
                256u64
            } else {
                64u64
            }),
            caps.max_buffer_size == (if info.feature_sets.supports(FeatureSet::MacFamily1V2) {
                0x4000_0000u64
            } else {
                0x1000_0000u64
            }),
            caps.max_texture_size == (if spec_supports_any(
                info.feature_sets,
                TEXTURE_SIZE_16384@,
            ) {
                16384u64
            } else if spec_supports_any(info.feature_sets, TEXTURE_SIZE_8192@) {
                8192u64
            } else {
                4096u64
            }),
            caps.max_texture_3d_size == 2048,
            caps.max_texture_layers == 2048,
            caps.max_fragment_input_components == (if spec_os_is_mac(*info) {
                128u32
            } else {
                60u32
            }),
            caps.max_color_render_targets == (if spec_supports_any(
                info.feature_sets,
                EIGHT_COLOR_RENDER_TARGETS@,
            ) {
                8u32
            } else {
                4u32
            }),
            caps.max_total_threadgroup_memory == (if spec_supports_any(
                info.feature_sets,
                THREADGROUP_MEMORY_64K@,
            ) {
                0x1_0000u32
            } else if spec_supports_any(info.feature_sets, THREADGROUP_MEMORY_32K@) {
                0x8000u32
            } else {
                0x4000u32
            }),
            caps.sample_count_mask == spec_sample_count_mask(*info),
            caps.supports_debug_markers == spec_supports_any(
                info.feature_sets,
                DEBUG_MARKER_SUPPORT@,
            ),
            caps.supports_binary_archives == (spec_family_check(*info, os_major, os_minor) && (
            info.families.supports(GpuFamily::Apple3) || info.families.supports(
                GpuFamily::Mac1,
            ))),
            caps.supports_capture_manager == (if spec_os_is_mac(*info) {
                spec_version_at_least(os_major, os_minor, 10, 13)
            } else {
                spec_version_at_least(os_major, os_minor, 11, 0)
            }),
            caps.can_set_maximum_drawables_count == (spec_os_is_mac(*info)
                || spec_version_at_least(os_major, os_minor, 11, 2)),
            caps.can_set_display_sync == (spec_os_is_mac(*info) && spec_version_at_least(
                os_major,
                os_minor,
                10,
                13,
            )),
            caps.can_set_next_drawable_timeout == (if spec_os_is_mac(*info) {
                spec_version_at_least(os_major, os_minor, 10, 13)
            } else {
                spec_version_at_least(os_major, os_minor, 11, 0)
            }),
            caps.supports_arrays_of_textures == spec_supports_any(
                info.feature_sets,
                ARRAYS_OF_TEXTURES_SUPPORT@,
            ),
            caps.supports_arrays_of_textures_write == (spec_family_check(
                *info,
                os_major,
                os_minor,
            ) && (info.families.supports(GpuFamily::Apple6) || info.families.supports(
                GpuFamily::Mac1,
            ) || info.families.supports(GpuFamily::Mac2) || info.families.supports(
                GpuFamily::MacCatalyst1,
            ) || info.families.supports(GpuFamily::MacCatalyst2))),
            caps.supports_mutability == (if spec_os_is_mac(*info) {
                spec_version_at_least(os_major, os_minor, 10, 13)
            } else {
                spec_version_at_least(os_major, os_minor, 11, 0)
            }),
    {
        let os_is_mac = info.feature_sets.supports_feature_set(FeatureSet::MacFamily1V1);
        let family_check = if os_is_mac {
            Self::version_at_least(os_major, os_minor, 10, 15)
        } else {
            Self::version_at_least(os_major, os_minor, 13, 0)
        };
        let oldest_ios = Self::supports_any(&info.feature_sets, OLDEST_IOS_FAMILIES.as_slice());

        let mut sample_count_mask: u8 = 5;  // 1x and 4x are supported on every device
        if info.supports_sample_count_2 {
            sample_count_mask = sample_count_mask + 2;
        }
        if info.supports_sample_count_8 {
            sample_count_mask = sample_count_mask + 8;
        }

        PrivateCapabilities {
            family_check,
            msl_version: if os_is_mac {
                if Self::version_at_least(os_major, os_minor, 10, 15) {
                    MslVersion::V2_2
                } else if Self::version_at_least(os_major, os_minor, 10, 14) {
                    MslVersion::V2_1
                } else if Self::version_at_least(os_major, os_minor, 10, 13) {
                    MslVersion::V2_0
                } else if Self::version_at_least(os_major, os_minor, 10, 12) {
                    MslVersion::V1_2
                } else if Self::version_at_least(os_major, os_minor, 10, 11) {
                    MslVersion::V1_1
                } else {
                    MslVersion::V1_0
                }
            } else if Self::version_at_least(os_major, os_minor, 13, 0) {
                MslVersion::V2_2
            } else if Self::version_at_least(os_major, os_minor, 12, 0) {
                MslVersion::V2_1
            } else if Self::version_at_least(os_major, os_minor, 11, 0) {
                MslVersion::V2_0
            } else if Self::version_at_least(os_major, os_minor, 10, 0) {
                MslVersion::V1_2
            } else if Self::version_at_least(os_major, os_minor, 9, 0) {
                MslVersion::V1_1
            } else {
                MslVersion::V1_0
            },
            exposed_queues: 1,
            read_write_texture_tier: if os_is_mac {
                if Self::version_at_least(os_major, os_minor, 10, 13) {
                    info.raw_read_write_texture_tier
                } else {
                    ReadWriteTextureTier::TierNone
                }
            } else if Self::version_at_least(os_major, os_minor, 11, 0) {
                info.raw_read_write_texture_tier
            } else {
                ReadWriteTextureTier::TierNone
            },
            resource_heaps: Self::supports_any(
                &info.feature_sets,
                RESOURCE_HEAP_SUPPORT.as_slice(),
            ),
            argument_buffers: Self::supports_any(
                &info.feature_sets,
                ARGUMENT_BUFFER_SUPPORT.as_slice(),
            ),
            shared_textures: !os_is_mac,
            mutable_comparison_samplers: Self::supports_any(
                &info.feature_sets,
                MUTABLE_COMPARISON_SAMPLER_SUPPORT.as_slice(),
            ),
            sampler_clamp_to_border: Self::supports_any(
                &info.feature_sets,
                SAMPLER_CLAMP_TO_BORDER_SUPPORT.as_slice(),
            ),
            sampler_lod_average: if os_is_mac {
                Self::version_at_least(os_major, os_minor, 10, 13)
            } else {
                Self::version_at_least(os_major, os_minor, 9, 0)
            },
            base_instance: Self::supports_any(
                &info.feature_sets,
                BASE_INSTANCE_SUPPORT.as_slice(),
            ),
            base_vertex_instance_drawing: Self::supports_any(
                &info.feature_sets,
                BASE_VERTEX_INSTANCE_SUPPORT.as_slice(),
            ),
            dual_source_blending: Self::supports_any(
                &info.feature_sets,
                DUAL_SOURCE_BLEND_SUPPORT.as_slice(),
            ),
            low_power: !os_is_mac || info.is_low_power,
            headless: os_is_mac && info.is_headless,
            layered_rendering: Self::supports_any(
                &info.feature_sets,
                LAYERED_RENDERING_SUPPORT.as_slice(),
            ),
            function_specialization: Self::supports_any(
                &info.feature_sets,
                FUNCTION_SPECIALIZATION_SUPPORT.as_slice(),
            ),
            depth_clip_mode: Self::supports_any(&info.feature_sets, DEPTH_CLIP_MODE.as_slice()),
            texture_cube_array: Self::supports_any(
                &info.feature_sets,
                TEXTURE_CUBE_ARRAY_SUPPORT.as_slice(),
            ),
            format_depth24_stencil8: os_is_mac && info.d24_s8_supported,
            format_depth32_stencil8_filter: os_is_mac,
            format_depth32_stencil8_none: !os_is_mac,
            format_min_srgb_channels: if os_is_mac {
                4
            } else {
                1
            },
            format_b5: !os_is_mac,
            format_bc: os_is_mac,
            format_eac_etc: !os_is_mac,
            format_astc: Self::supports_any(
                &info.feature_sets,
                ASTC_PIXEL_FORMAT_FEATURES.as_slice(),
            ),
            format_any8_unorm_srgb_all: Self::supports_any(
                &info.feature_sets,
                ANY8_UNORM_SRGB_ALL.as_slice(),
            ),
            format_any8_unorm_srgb_no_write: !Self::supports_any(
                &info.feature_sets,
                ANY8_UNORM_SRGB_ALL.as_slice(),
            ) && !os_is_mac,
            format_any8_snorm_all: Self::supports_any(
                &info.feature_sets,
                ANY8_SNORM_RESOLVE.as_slice(),
            ),
            format_r16_norm_all: os_is_mac,
            format_r32_all: !oldest_ios,
            format_r32_no_write: oldest_ios,
            format_r32float_no_write_no_filter: oldest_ios && !os_is_mac,
            format_r32float_no_filter: !oldest_ios && !os_is_mac,
            format_r32float_all: os_is_mac,
            format_rgba8_srgb_all: Self::supports_any(&info.feature_sets, RGBA8_SRGB.as_slice()),
            format_rgba8_srgb_no_write: !Self::supports_any(
                &info.feature_sets,
                RGBA8_SRGB.as_slice(),
            ),
            format_rgb10a2_unorm_all: Self::supports_any(
                &info.feature_sets,
                RGB10A2UNORM_ALL.as_slice(),
            ),
            format_rgb10a2_unorm_no_write: !Self::supports_any(
                &info.feature_sets,
                RGB10A2UNORM_ALL.as_slice(),
            ),
            format_rgb10a2_uint_color: !Self::supports_any(
                &info.feature_sets,
                RGB10A2UINT_COLOR_WRITE.as_slice(),
            ),
            format_rgb10a2_uint_color_write: Self::supports_any(
                &info.feature_sets,
                RGB10A2UINT_COLOR_WRITE.as_slice(),
            ),
            format_rg11b10_all: Self::supports_any(
                &info.feature_sets,
                RG11B10FLOAT_ALL.as_slice(),
            ),
            format_rg11b10_no_write: !Self::supports_any(
                &info.feature_sets,
                RG11B10FLOAT_ALL.as_slice(),
            ),
            format_rgb9e5_all: Self::supports_any(
                &info.feature_sets,
                RGB9E5FLOAT_ALL.as_slice(),
            ),
            format_rgb9e5_no_write: !Self::supports_any(
                &info.feature_sets,
                RGB9E5FLOAT_ALL.as_slice(),
            ) && !os_is_mac,
            format_rgb9e5_filter_only: os_is_mac,
            format_rg32_color: oldest_ios,
            format_rg32_color_write: !oldest_ios,
            format_rg32float_all: os_is_mac,
            format_rg32float_color_blend: oldest_ios,
            format_rg32float_no_filter: !os_is_mac && !oldest_ios,
            format_rgba32int_color: oldest_ios,
            format_rgba32int_color_write: !oldest_ios,
            format_rgba32float_color: oldest_ios,
            format_rgba32float_color_write: !oldest_ios && !os_is_mac,
            format_rgba32float_all: os_is_mac,
            format_depth16unorm: info.feature_sets.supports_feature_set(
                FeatureSet::MacFamily1V2,
            ),
            format_depth32float_filter: info.feature_sets.supports_feature_set(
                FeatureSet::MacFamily1V1,
            ),
            format_depth32float_none: !info.feature_sets.supports_feature_set(
                FeatureSet::MacFamily1V1,
            ),
            format_bgr10a2_all: Self::supports_any(&info.feature_sets, BGR10A2_ALL.as_slice()),
            format_bgr10a2_no_write: !info.feature_sets.supports_feature_set(
                FeatureSet::MacFamily1V3,
            ),
            max_buffers_per_stage: 31,
            max_textures_per_stage: if os_is_mac {
                128
            } else {
                31
            },
            max_samplers_per_stage: 16,
            buffer_alignment: if os_is_mac {
                256
            } else {
                64
            },
            max_buffer_size: if info.feature_sets.supports_feature_set(
                FeatureSet::MacFamily1V2,
            ) {
                0x4000_0000  // 1 GiB on newer desktop systems
            } else {
                0x1000_0000  // 256 MiB otherwise
            },
            max_texture_size: if Self::supports_any(
                &info.feature_sets,
                TEXTURE_SIZE_16384.as_slice(),
            ) {
                16384
            } else if Self::supports_any(&info.feature_sets, TEXTURE_SIZE_8192.as_slice()) {
                8192
            } else {
                4096
            },
            max_texture_3d_size: 2048,
            max_texture_layers: 2048,
            max_fragment_input_components: if os_is_mac {
                128
            } else {
                60
            },
            max_color_render_targets: if Self::supports_any(
                &info.feature_sets,
                EIGHT_COLOR_RENDER_TARGETS.as_slice(),
            ) {
                8
            } else {
                4
            },
            max_total_threadgroup_memory: if Self::supports_any(
                &info.feature_sets,
                THREADGROUP_MEMORY_64K.as_slice(),
            ) {
                0x1_0000
            } else if Self::supports_any(&info.feature_sets, THREADGROUP_MEMORY_32K.as_slice()) {
                0x8000
            } else {
                0x4000
            },
            sample_count_mask,
            supports_debug_markers: Self::supports_any(
                &info.feature_sets,
                DEBUG_MARKER_SUPPORT.as_slice(),
            ),
            supports_binary_archives: family_check && (info.families.supports_family(
                GpuFamily::Apple3,
            ) || info.families.supports_family(GpuFamily::Mac1)),
            supports_capture_manager: if os_is_mac {
                Self::version_at_least(os_major, os_minor, 10, 13)
            } else {
                Self::version_at_least(os_major, os_minor, 11, 0)
            },
            can_set_maximum_drawables_count: os_is_mac || Self::version_at_least(
                os_major,
                os_minor,
                11,
                2,
            ),
            can_set_display_sync: os_is_mac && Self::version_at_least(
                os_major,
                os_minor,
                10,
                13,
            ),
            can_set_next_drawable_timeout: if os_is_mac {
                Self::version_at_least(os_major, os_minor, 10, 13)
            } else {
                Self::version_at_least(os_major, os_minor, 11, 0)
            },
            supports_arrays_of_textures: Self::supports_any(
                &info.feature_sets,
                ARRAYS_OF_TEXTURES_SUPPORT.as_slice(),
            ),
            supports_arrays_of_textures_write: family_check && (info.families.supports_family(
                GpuFamily::Apple6,
            ) || info.families.supports_family(GpuFamily::Mac1)
                || info.families.supports_family(GpuFamily::Mac2)
                || info.families.supports_family(GpuFamily::MacCatalyst1)
                || info.families.supports_family(GpuFamily::MacCatalyst2)),
            supports_mutability: if os_is_mac {
                Self::version_at_least(os_major, os_minor, 10, 13)
            } else {
                Self::version_at_least(os_major, os_minor, 11, 0)
            },
        }
    }
}

/// Every OS version is at or above itself: `version_at_least` is reflexive.
pub proof fn lemma_version_at_least_reflexive(major: u32, minor: u32)
    ensures
        spec_version_at_least(major, minor, major, minor),
{
}

/// `version_at_least` respects the lexicographic order of thresholds: a
/// version at or above one threshold is at or above every lower threshold.
pub proof fn lemma_version_at_least_monotonic(
    major: u32,
    minor: u32,
    needed_major: u32,
    needed_minor: u32,
    lower_major: u32,
    lower_minor: u32,
)
    requires
        spec_version_at_least(major, minor, needed_major, needed_minor),
        spec_version_at_least(needed_major, needed_minor, lower_major, lower_minor),
    ensures
        spec_version_at_least(major, minor, lower_major, lower_minor),
{
}

} // verus!
