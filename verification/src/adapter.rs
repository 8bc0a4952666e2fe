//! The adapter: the shared, read-only pair of capability descriptor and
//! workaround flags, and the per-format queries answered from it.

use std::sync::Arc;

use vstd::prelude::*;

use crate::caps::PrivateCapabilities;
use crate::disabilities::PrivateDisabilities;
use crate::formats::{
    spec_texture_format_capabilities, TextureFormat, TextureFormatCapabilities,
};
use crate::device::ReadWriteTextureTier;

verus! {

/// The immutable per-device state every adapter query reads: constructed once
/// at adapter-open time, shared read-only afterwards.
pub struct AdapterShared {
    pub private_caps: PrivateCapabilities,
    pub disabilities: PrivateDisabilities,
}

/// A handle to one physical device's capability state.
pub struct Adapter {
    pub shared: Arc<AdapterShared>,
}

impl Adapter {
    pub fn new(shared: Arc<AdapterShared>) -> (adapter: Self)
        ensures
            adapter.shared == shared,
    {
        Adapter { shared }
    }

    /// The Format Capability Resolver: the set of usage flags the descriptor
    /// grants the given portable format. Pure and total; every format
    /// receives at least {copy-source, copy-destination, sampled}.
    #[verifier::rlimit(60)]
    pub fn texture_format_capabilities(&self, format: TextureFormat) -> (c:
        TextureFormatCapabilities)
        ensures
            c == spec_texture_format_capabilities(self.shared.private_caps, format),
    {
        let pc = &self.shared.private_caps;
        // Storage read-write access: tier-1-class formats need tier 1 or
        // better, tier-2-class formats need tier 2.
        let tier1 = match pc.read_write_texture_tier {
            ReadWriteTextureTier::TierNone => false,
            ReadWriteTextureTier::Tier1 => true,
            ReadWriteTextureTier::Tier2 => true,
        };
        let tier2 = match pc.read_write_texture_tier {
            ReadWriteTextureTier::TierNone => false,
            ReadWriteTextureTier::Tier1 => false,
            ReadWriteTextureTier::Tier2 => true,
        };
        match format {
            TextureFormat::R8Unorm => TextureFormatCapabilities::base_with(
                true,
                tier2,
                true,
                true,
                true,
                false,
            ),
            TextureFormat::R8Snorm => TextureFormatCapabilities::base_with(
                true,
                false,
                true,
                true,
                true,
                false,
            ),
            TextureFormat::R8Uint | TextureFormat::R8Sint | TextureFormat::R16Uint
                | TextureFormat::R16Sint => TextureFormatCapabilities::base_with(
                false,
                tier2,
                true,
                true,
                false,
                false,
            ),
            TextureFormat::R16Float => TextureFormatCapabilities::base_with(
                false,
                tier2,
                true,
                true,
                true,
                false,
            ),
            TextureFormat::Rg8Unorm | TextureFormat::Rg8Snorm
                => TextureFormatCapabilities::base_with(true, false, true, true, true, false),
            TextureFormat::Rg8Uint | TextureFormat::Rg8Sint
                => TextureFormatCapabilities::base_with(false, false, false, true, false, false),
            TextureFormat::R32Uint | TextureFormat::R32Sint => {
                if pc.format_r32_all {
                    TextureFormatCapabilities::base_with(false, tier1, true, true, false, false)
                } else {
                    TextureFormatCapabilities::base_with(false, false, false, true, false, false)
                }
            },
            TextureFormat::R32Float => {
                if pc.format_r32float_all {
                    TextureFormatCapabilities::base_with(true, tier1, true, true, true, false)
                } else if pc.format_r32float_no_filter {
                    TextureFormatCapabilities::base_with(true, false, false, true, true, false)
                } else {
                    TextureFormatCapabilities::base_with(false, false, false, true, true, false)
                }
            },
            TextureFormat::Rg16Uint | TextureFormat::Rg16Sint
                => TextureFormatCapabilities::base_with(false, tier2, true, true, false, false),
            TextureFormat::Rg16Float => TextureFormatCapabilities::base_with(
                true,
                tier2,
                true,
                true,
                true,
                false,
            ),
            TextureFormat::Rgba8Unorm => TextureFormatCapabilities::base_with(
                true,
                tier2,
                true,
                true,
                true,
                false,
            ),
            TextureFormat::Rgba8UnormSrgb | TextureFormat::Bgra8UnormSrgb
                => TextureFormatCapabilities::base_with(
                true,
                false,
                pc.format_rgba8_srgb_all,
                true,
                true,
                false,
            ),
            TextureFormat::Rgba8Snorm | TextureFormat::Bgra8Unorm
                => TextureFormatCapabilities::base_with(true, false, true, true, true, false),
            TextureFormat::Rgba8Uint | TextureFormat::Rgba8Sint
                => TextureFormatCapabilities::base_with(false, tier2, true, true, false, false),
            TextureFormat::Rgb10a2Unorm => TextureFormatCapabilities::base_with(
                true,
                false,
                pc.format_rgb10a2_unorm_all,
                true,
                true,
                false,
            ),
            TextureFormat::Rg11b10Float => TextureFormatCapabilities::base_with(
                true,
                false,
                pc.format_rg11b10_all,
                true,
                true,
                false,
            ),
            TextureFormat::Rg32Uint | TextureFormat::Rg32Sint
                => TextureFormatCapabilities::base_with(false, false, true, true, false, false),
            TextureFormat::Rg32Float => {
                if pc.format_rg32float_all {
                    TextureFormatCapabilities::base_with(true, false, true, true, true, false)
                } else if pc.format_rg32float_color_blend {
                    TextureFormatCapabilities::base_with(true, false, false, true, true, false)
                } else {
                    TextureFormatCapabilities::base_with(false, false, false, true, true, false)
                }
            },
            TextureFormat::Rgba16Uint | TextureFormat::Rgba16Sint
                => TextureFormatCapabilities::base_with(false, tier2, true, true, false, false),
            TextureFormat::Rgba16Float => TextureFormatCapabilities::base_with(
                true,
                tier2,
                true,
                true,
                true,
                false,
            ),
            TextureFormat::Rgba32Uint | TextureFormat::Rgba32Sint => {
                if pc.format_rgba32int_color_write {
                    TextureFormatCapabilities::base_with(false, tier2, true, true, false, false)
                } else {
                    TextureFormatCapabilities::base_with(false, false, false, true, false, false)
                }
            },
            TextureFormat::Rgba32Float => {
                if pc.format_rgba32float_all {
                    TextureFormatCapabilities::base_with(true, tier2, true, true, true, false)
                } else if pc.format_rgba32float_color_write {
                    TextureFormatCapabilities::base_with(false, tier2, true, true, false, false)
                } else {
                    TextureFormatCapabilities::base_with(false, false, false, true, false, false)
                }
            },
            TextureFormat::Depth32Float => TextureFormatCapabilities::base_with(
                pc.format_depth32float_filter,
                false,
                false,
                false,
                false,
                true,
            ),
            TextureFormat::Depth24Plus | TextureFormat::Depth24PlusStencil8
                => TextureFormatCapabilities::base_with(true, false, false, false, false, true),
            TextureFormat::Rgb9e5Ufloat => TextureFormatCapabilities::base_with(
                true,
                false,
                false,
                false,
                false,
                false,
            ),
            TextureFormat::Bc1RgbaUnorm | TextureFormat::Bc1RgbaUnormSrgb
                | TextureFormat::Bc2RgbaUnorm | TextureFormat::Bc2RgbaUnormSrgb
                | TextureFormat::Bc3RgbaUnorm | TextureFormat::Bc3RgbaUnormSrgb
                | TextureFormat::Bc4RUnorm | TextureFormat::Bc4RSnorm
                | TextureFormat::Bc5RgUnorm | TextureFormat::Bc5RgSnorm
                | TextureFormat::Bc6hRgbUfloat | TextureFormat::Bc6hRgbSfloat
                | TextureFormat::Bc7RgbaUnorm | TextureFormat::Bc7RgbaUnormSrgb
                => TextureFormatCapabilities::base_with(
                pc.format_bc,
                false,
                false,
                false,
                false,
                false,
            ),
            TextureFormat::Etc2RgbUnorm | TextureFormat::Etc2RgbUnormSrgb
                | TextureFormat::Etc2RgbA1Unorm | TextureFormat::Etc2RgbA1UnormSrgb
                | TextureFormat::EacRUnorm | TextureFormat::EacRSnorm
                | TextureFormat::EacRgUnorm | TextureFormat::EacRgSnorm
                => TextureFormatCapabilities::base_with(
                pc.format_eac_etc,
                false,
                false,
                false,
                false,
                false,
            ),
            TextureFormat::Astc4x4RgbaUnorm | TextureFormat::Astc4x4RgbaUnormSrgb
                | TextureFormat::Astc5x4RgbaUnorm | TextureFormat::Astc5x4RgbaUnormSrgb
                | TextureFormat::Astc5x5RgbaUnorm | TextureFormat::Astc5x5RgbaUnormSrgb
                | TextureFormat::Astc6x5RgbaUnorm | TextureFormat::Astc6x5RgbaUnormSrgb
                | TextureFormat::Astc6x6RgbaUnorm | TextureFormat::Astc6x6RgbaUnormSrgb
                | TextureFormat::Astc8x5RgbaUnorm | TextureFormat::Astc8x5RgbaUnormSrgb
                | TextureFormat::Astc8x6RgbaUnorm | TextureFormat::Astc8x6RgbaUnormSrgb
                | TextureFormat::Astc10x5RgbaUnorm | TextureFormat::Astc10x5RgbaUnormSrgb
                | TextureFormat::Astc10x6RgbaUnorm | TextureFormat::Astc10x6RgbaUnormSrgb
                | TextureFormat::Astc8x8RgbaUnorm | TextureFormat::Astc8x8RgbaUnormSrgb
                | TextureFormat::Astc10x8RgbaUnorm | TextureFormat::Astc10x8RgbaUnormSrgb
                | TextureFormat::Astc10x10RgbaUnorm | TextureFormat::Astc10x10RgbaUnormSrgb
                | TextureFormat::Astc12x10RgbaUnorm | TextureFormat::Astc12x10RgbaUnormSrgb
                | TextureFormat::Astc12x12RgbaUnorm | TextureFormat::Astc12x12RgbaUnormSrgb
                => TextureFormatCapabilities::base_with(
                pc.format_astc,
                false,
                false,
                false,
                false,
                false,
            ),
        }
    }
}

} // verus!
