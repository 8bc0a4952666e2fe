//! Hardware feature-tier identifiers and the static tier tables.
//!
//! A [`FeatureSet`] is an opaque hardware-generation identifier (one Metal
//! feature set). Each table below is the fixed set of identifiers whose
//! membership implies one capability; a device qualifies when it supports at
//! least one entry ([`spec_supports_any`] is the membership test). Tier
//! identifiers are not totally ordered across device families, so membership,
//! not comparison, is the test.

use vstd::prelude::*;

verus! {

/// An opaque hardware-generation identifier, one per Metal feature set that
/// the tier tables mention.
#[derive(Clone, Copy, Debug, PartialEq, Eq, Structural)]
pub enum FeatureSet {
    IosFamily1V1,
    IosFamily1V2,
    IosFamily1V3,
    IosFamily1V4,
    IosFamily2V1,
    IosFamily2V2,
    IosFamily2V3,
    IosFamily2V4,
    IosFamily3V1,
    IosFamily3V2,
    IosFamily3V3,
    IosFamily4V1,
    IosFamily4V2,
    IosFamily5V1,
    TvosFamily1V1,
    TvosFamily1V2,
    TvosFamily1V3,
    TvosFamily2V1,
    MacFamily1V1,
    MacFamily1V2,
    MacFamily1V3,
    MacFamily1V4,
    MacFamily2V1,
}

/// The device's answers to every feature-set membership query, gathered once
/// at probe time: one flag per [`FeatureSet`].
#[derive(Clone, Copy, Debug, PartialEq, Eq, Structural)]
pub struct FeatureSetSupport {
    pub ios_family1_v1: bool,
    pub ios_family1_v2: bool,
    pub ios_family1_v3: bool,
    pub ios_family1_v4: bool,
    pub ios_family2_v1: bool,
    pub ios_family2_v2: bool,
    pub ios_family2_v3: bool,
    pub ios_family2_v4: bool,
    pub ios_family3_v1: bool,
    pub ios_family3_v2: bool,
    pub ios_family3_v3: bool,
    pub ios_family4_v1: bool,
    pub ios_family4_v2: bool,
    pub ios_family5_v1: bool,
    pub tvos_family1_v1: bool,
    pub tvos_family1_v2: bool,
    pub tvos_family1_v3: bool,
    pub tvos_family2_v1: bool,
    pub mac_family1_v1: bool,
    pub mac_family1_v2: bool,
    pub mac_family1_v3: bool,
    pub mac_family1_v4: bool,
    pub mac_family2_v1: bool,
}

impl FeatureSetSupport {
    /// Whether the device reported the given feature set as supported.
    pub open spec fn supports(self, set: FeatureSet) -> bool {
        match set {
            FeatureSet::IosFamily1V1 => self.ios_family1_v1,
            FeatureSet::IosFamily1V2 => self.ios_family1_v2,
            FeatureSet::IosFamily1V3 => self.ios_family1_v3,
            FeatureSet::IosFamily1V4 => self.ios_family1_v4,
            FeatureSet::IosFamily2V1 => self.ios_family2_v1,
            FeatureSet::IosFamily2V2 => self.ios_family2_v2,
            FeatureSet::IosFamily2V3 => self.ios_family2_v3,
            FeatureSet::IosFamily2V4 => self.ios_family2_v4,
            FeatureSet::IosFamily3V1 => self.ios_family3_v1,
            FeatureSet::IosFamily3V2 => self.ios_family3_v2,
            FeatureSet::IosFamily3V3 => self.ios_family3_v3,
            FeatureSet::IosFamily4V1 => self.ios_family4_v1,
            FeatureSet::IosFamily4V2 => self.ios_family4_v2,
            FeatureSet::IosFamily5V1 => self.ios_family5_v1,
            FeatureSet::TvosFamily1V1 => self.tvos_family1_v1,
            FeatureSet::TvosFamily1V2 => self.tvos_family1_v2,
            FeatureSet::TvosFamily1V3 => self.tvos_family1_v3,
            FeatureSet::TvosFamily2V1 => self.tvos_family2_v1,
            FeatureSet::MacFamily1V1 => self.mac_family1_v1,
            FeatureSet::MacFamily1V2 => self.mac_family1_v2,
            FeatureSet::MacFamily1V3 => self.mac_family1_v3,
            FeatureSet::MacFamily1V4 => self.mac_family1_v4,
            FeatureSet::MacFamily2V1 => self.mac_family2_v1,
        }
    }

    /// Executable form of [`FeatureSetSupport::supports`].
    pub fn supports_feature_set(&self, set: FeatureSet) -> (r: bool)
        ensures
            r == self.supports(set),
    {
        match set {
            FeatureSet::IosFamily1V1 => self.ios_family1_v1,
            FeatureSet::IosFamily1V2 => self.ios_family1_v2,
            FeatureSet::IosFamily1V3 => self.ios_family1_v3,
            FeatureSet::IosFamily1V4 => self.ios_family1_v4,
            FeatureSet::IosFamily2V1 => self.ios_family2_v1,
            FeatureSet::IosFamily2V2 => self.ios_family2_v2,
            FeatureSet::IosFamily2V3 => self.ios_family2_v3,
            FeatureSet::IosFamily2V4 => self.ios_family2_v4,
            FeatureSet::IosFamily3V1 => self.ios_family3_v1,
            FeatureSet::IosFamily3V2 => self.ios_family3_v2,
            FeatureSet::IosFamily3V3 => self.ios_family3_v3,
            FeatureSet::IosFamily4V1 => self.ios_family4_v1,
            FeatureSet::IosFamily4V2 => self.ios_family4_v2,
            FeatureSet::IosFamily5V1 => self.ios_family5_v1,
            FeatureSet::TvosFamily1V1 => self.tvos_family1_v1,
            FeatureSet::TvosFamily1V2 => self.tvos_family1_v2,
            FeatureSet::TvosFamily1V3 => self.tvos_family1_v3,
            FeatureSet::TvosFamily2V1 => self.tvos_family2_v1,
            FeatureSet::MacFamily1V1 => self.mac_family1_v1,
            FeatureSet::MacFamily1V2 => self.mac_family1_v2,
            FeatureSet::MacFamily1V3 => self.mac_family1_v3,
            FeatureSet::MacFamily1V4 => self.mac_family1_v4,
            FeatureSet::MacFamily2V1 => self.mac_family2_v1,
        }
    }
}

impl Default for FeatureSetSupport {
    /// The empty report: a device that affirmed no feature-set membership.
    fn default() -> (s: Self)
        ensures
            forall|set: FeatureSet| !s.supports(set),
    {
        FeatureSetSupport {
            ios_family1_v1: false,
            ios_family1_v2: false,
            ios_family1_v3: false,
            ios_family1_v4: false,
            ios_family2_v1: false,
            ios_family2_v2: false,
            ios_family2_v3: false,
            ios_family2_v4: false,
            ios_family3_v1: false,
            ios_family3_v2: false,
            ios_family3_v3: false,
            ios_family4_v1: false,
            ios_family4_v2: false,
            ios_family5_v1: false,
            tvos_family1_v1: false,
            tvos_family1_v2: false,
            tvos_family1_v3: false,
            tvos_family2_v1: false,
            mac_family1_v1: false,
            mac_family1_v2: false,
            mac_family1_v3: false,
            mac_family1_v4: false,
            mac_family2_v1: false,
        }
    }
}

/// The device qualifies for a tier table iff it supports at least one of the
/// table's feature sets.
pub open spec fn spec_supports_any(support: FeatureSetSupport, sets: Seq<FeatureSet>) -> bool {
    exists|i: int| 0 <= i < sets.len() && support.supports(sets[i])
}

/// Feature sets that imply support for resource heaps.
pub const RESOURCE_HEAP_SUPPORT: [FeatureSet; 9] = [
    FeatureSet::IosFamily1V3,
    FeatureSet::IosFamily2V3,
    FeatureSet::IosFamily3V2,
    FeatureSet::IosFamily4V1,
    FeatureSet::IosFamily5V1,
    FeatureSet::TvosFamily1V2,
    FeatureSet::TvosFamily2V1,
    FeatureSet::MacFamily1V3,
    FeatureSet::MacFamily2V1,
];

/// Feature sets that imply support for argument buffers.
pub const ARGUMENT_BUFFER_SUPPORT: [FeatureSet; 8] = [
    FeatureSet::IosFamily1V4,
    FeatureSet::IosFamily2V4,
    FeatureSet::IosFamily3V3,
    FeatureSet::IosFamily4V1,
    FeatureSet::IosFamily5V1,
    FeatureSet::TvosFamily1V3,
    FeatureSet::MacFamily1V3,
    FeatureSet::MacFamily2V1,
];

/// Feature sets that imply support for mutable comparison samplers.
pub const MUTABLE_COMPARISON_SAMPLER_SUPPORT: [FeatureSet; 5] = [
    FeatureSet::IosFamily3V1,
    FeatureSet::IosFamily4V1,
    FeatureSet::IosFamily5V1,
    FeatureSet::MacFamily1V1,
    FeatureSet::MacFamily2V1,
];

/// Feature sets that imply support for the clamp-to-border sampler address
/// mode.
pub const SAMPLER_CLAMP_TO_BORDER_SUPPORT: [FeatureSet; 2] = [
    FeatureSet::MacFamily1V2,
    FeatureSet::MacFamily2V1,
];

/// Feature sets that imply support for the ASTC family of compressed pixel
/// formats.
pub const ASTC_PIXEL_FORMAT_FEATURES: [FeatureSet; 6] = [
    FeatureSet::IosFamily2V1,
    FeatureSet::IosFamily3V1,
    FeatureSet::IosFamily4V1,
    FeatureSet::IosFamily5V1,
    FeatureSet::TvosFamily1V1,
    FeatureSet::TvosFamily2V1,
];

/// Feature sets on which the 8-bit unorm sRGB formats are fully capable.
pub const ANY8_UNORM_SRGB_ALL: [FeatureSet; 6] = [
    FeatureSet::IosFamily2V3,
    FeatureSet::IosFamily3V1,
    FeatureSet::IosFamily4V1,
    FeatureSet::IosFamily5V1,
    FeatureSet::TvosFamily1V2,
    FeatureSet::TvosFamily2V1,
];

/// Feature sets on which the 8-bit snorm formats support multisample resolve.
pub const ANY8_SNORM_RESOLVE: [FeatureSet; 8] = [
    FeatureSet::IosFamily2V1,
    FeatureSet::IosFamily3V1,
    FeatureSet::IosFamily4V1,
    FeatureSet::IosFamily5V1,
    FeatureSet::TvosFamily1V1,
    FeatureSet::TvosFamily2V1,
    FeatureSet::MacFamily1V1,
    FeatureSet::MacFamily2V1,
];

/// Feature sets on which the RGBA8 sRGB format is fully capable.
pub const RGBA8_SRGB: [FeatureSet; 6] = [
    FeatureSet::IosFamily2V3,
    FeatureSet::IosFamily3V1,
    FeatureSet::IosFamily4V1,
    FeatureSet::IosFamily5V1,
    FeatureSet::TvosFamily1V2,
    FeatureSet::TvosFamily2V1,
];

/// Feature sets on which the RGB10A2 unorm format is fully capable.
pub const RGB10A2UNORM_ALL: [FeatureSet; 6] = [
    FeatureSet::IosFamily3V1,
    FeatureSet::IosFamily4V1,
    FeatureSet::IosFamily5V1,
    FeatureSet::TvosFamily2V1,
    FeatureSet::MacFamily1V1,
    FeatureSet::MacFamily2V1,
];

/// Feature sets on which the RGB10A2 uint format supports color writes.
pub const RGB10A2UINT_COLOR_WRITE: [FeatureSet; 6] = [
    FeatureSet::IosFamily3V1,
    FeatureSet::IosFamily4V1,
    FeatureSet::IosFamily5V1,
    FeatureSet::TvosFamily2V1,
    FeatureSet::MacFamily1V1,
    FeatureSet::MacFamily2V1,
];

/// Feature sets on which the RG11B10 float format is fully capable.
pub const RG11B10FLOAT_ALL: [FeatureSet; 6] = [
    FeatureSet::IosFamily3V1,
    FeatureSet::IosFamily4V1,
    FeatureSet::IosFamily5V1,
    FeatureSet::TvosFamily2V1,
    FeatureSet::MacFamily1V1,
    FeatureSet::MacFamily2V1,
];

/// Feature sets on which the RGB9E5 shared-exponent float format is fully
/// capable.
pub const RGB9E5FLOAT_ALL: [FeatureSet; 4] = [
    FeatureSet::IosFamily3V1,
    FeatureSet::IosFamily4V1,
    FeatureSet::IosFamily5V1,
    FeatureSet::TvosFamily2V1,
];

/// Feature sets on which the BGR10A2 format is fully capable.
pub const BGR10A2_ALL: [FeatureSet; 9] = [
    FeatureSet::IosFamily1V4,
    FeatureSet::IosFamily2V4,
    FeatureSet::IosFamily3V3,
    FeatureSet::IosFamily4V1,
    FeatureSet::IosFamily5V1,
    FeatureSet::TvosFamily1V3,
    FeatureSet::TvosFamily2V1,
    FeatureSet::MacFamily1V3,
    FeatureSet::MacFamily2V1,
];

/// Feature sets that imply support for base-instance drawing.
pub const BASE_INSTANCE_SUPPORT: [FeatureSet; 6] = [
    FeatureSet::IosFamily3V1,
    FeatureSet::IosFamily4V1,
    FeatureSet::IosFamily5V1,
    FeatureSet::TvosFamily2V1,
    FeatureSet::MacFamily1V1,
    FeatureSet::MacFamily2V1,
];

/// Feature sets that imply support for base-vertex/base-instance drawing.
pub const BASE_VERTEX_INSTANCE_SUPPORT: [FeatureSet; 6] = [
    FeatureSet::IosFamily3V1,
    FeatureSet::IosFamily4V1,
    FeatureSet::IosFamily5V1,
    FeatureSet::TvosFamily2V1,
    FeatureSet::MacFamily1V1,
    FeatureSet::MacFamily2V1,
];

/// Feature sets that imply support for cube-array textures.
pub const TEXTURE_CUBE_ARRAY_SUPPORT: [FeatureSet; 6] = [
    FeatureSet::IosFamily4V1,
    FeatureSet::IosFamily5V1,
    FeatureSet::TvosFamily1V2,
    FeatureSet::TvosFamily2V1,
    FeatureSet::MacFamily1V1,
    FeatureSet::MacFamily2V1,
];

/// Feature sets that imply support for dual-source blending.
pub const DUAL_SOURCE_BLEND_SUPPORT: [FeatureSet; 9] = [
    FeatureSet::IosFamily1V4,
    FeatureSet::IosFamily2V4,
    FeatureSet::IosFamily3V3,
    FeatureSet::IosFamily4V1,
    FeatureSet::IosFamily5V1,
    FeatureSet::TvosFamily1V3,
    FeatureSet::TvosFamily2V1,
    FeatureSet::MacFamily1V2,
    FeatureSet::MacFamily2V1,
];

/// Feature sets that imply support for layered rendering.
pub const LAYERED_RENDERING_SUPPORT: [FeatureSet; 3] = [
    FeatureSet::IosFamily5V1,
    FeatureSet::MacFamily1V1,
    FeatureSet::MacFamily2V1,
];

/// Feature sets that imply support for function specialization.
pub const FUNCTION_SPECIALIZATION_SUPPORT: [FeatureSet; 8] = [
    FeatureSet::IosFamily1V3,
    FeatureSet::IosFamily2V3,
    FeatureSet::IosFamily3V2,
    FeatureSet::IosFamily4V1,
    FeatureSet::IosFamily5V1,
    FeatureSet::TvosFamily1V2,
    FeatureSet::MacFamily1V2,
    FeatureSet::MacFamily2V1,
];

/// Feature sets that imply support for selecting the depth clip mode.
pub const DEPTH_CLIP_MODE: [FeatureSet; 5] = [
    FeatureSet::IosFamily4V1,
    FeatureSet::IosFamily5V1,
    FeatureSet::TvosFamily1V3,
    FeatureSet::MacFamily1V1,
    FeatureSet::MacFamily2V1,
];

/// The two oldest mobile hardware generations; several format capabilities
/// are degraded exactly on these.
pub const OLDEST_IOS_FAMILIES: [FeatureSet; 2] = [
    FeatureSet::IosFamily1V1,
    FeatureSet::IosFamily2V1,
];

/// Feature sets on which the maximum 2D texture side is 16384 texels.
pub const TEXTURE_SIZE_16384: [FeatureSet; 3] = [
    FeatureSet::IosFamily3V1,
    FeatureSet::TvosFamily2V1,
    FeatureSet::MacFamily1V1,
];

/// Feature sets on which the maximum 2D texture side is 8192 texels.
pub const TEXTURE_SIZE_8192: [FeatureSet; 3] = [
    FeatureSet::IosFamily1V2,
    FeatureSet::IosFamily2V2,
    FeatureSet::TvosFamily1V1,
];

/// Feature sets that allow eight simultaneous color render targets.
pub const EIGHT_COLOR_RENDER_TARGETS: [FeatureSet; 8] = [
    FeatureSet::IosFamily2V1,
    FeatureSet::IosFamily3V1,
    FeatureSet::IosFamily4V1,
    FeatureSet::IosFamily5V1,
    FeatureSet::TvosFamily1V1,
    FeatureSet::TvosFamily2V1,
    FeatureSet::MacFamily1V1,
    FeatureSet::MacFamily2V1,
];

/// Feature sets with 64 KiB of total threadgroup memory.
pub const THREADGROUP_MEMORY_64K: [FeatureSet; 2] = [
    FeatureSet::IosFamily4V2,
    FeatureSet::IosFamily5V1,
];

/// Feature sets with 32 KiB of total threadgroup memory.
pub const THREADGROUP_MEMORY_32K: [FeatureSet; 3] = [
    FeatureSet::IosFamily4V1,
    FeatureSet::MacFamily1V2,
    FeatureSet::MacFamily2V1,
];

/// Feature sets that imply support for debug markers.
pub const DEBUG_MARKER_SUPPORT: [FeatureSet; 9] = [
    FeatureSet::MacFamily1V2,
    FeatureSet::MacFamily2V1,
    FeatureSet::IosFamily1V3,
    FeatureSet::IosFamily2V3,
    FeatureSet::IosFamily3V2,
    FeatureSet::IosFamily4V1,
    FeatureSet::IosFamily5V1,
    FeatureSet::TvosFamily1V2,
    FeatureSet::TvosFamily2V1,
];

/// Feature sets that imply support for arrays of textures.
pub const ARRAYS_OF_TEXTURES_SUPPORT: [FeatureSet; 6] = [
    FeatureSet::IosFamily3V2,
    FeatureSet::IosFamily4V1,
    FeatureSet::IosFamily5V1,
    FeatureSet::TvosFamily2V1,
    FeatureSet::MacFamily1V3,
    FeatureSet::MacFamily2V1,
];

} // verus!
