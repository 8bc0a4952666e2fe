//! Pixel formats: the portable enumeration, the native enumeration, the
//! per-format usage-flag resolver, and the portable-to-native mapping table.
//!
//! Both the resolver and the mapping are total over the portable enumeration
//! by an exhaustive match, so adding a portable format is a compile-time
//! obligation in both places. The mapping is injective but for the depth
//! fallbacks ([`lemma_map_format_injective`]).

use vstd::prelude::*;

use crate::caps::PrivateCapabilities;

verus! {

/// The backend-agnostic (portable) pixel-format enumeration.
#[derive(Clone, Copy, Debug, PartialEq, Eq, Structural)]
pub enum TextureFormat {
    R8Unorm,
    R8Snorm,
    R8Uint,
    R8Sint,
    R16Uint,
    R16Sint,
    R16Float,
    Rg8Unorm,
    Rg8Snorm,
    Rg8Uint,
    Rg8Sint,
    R32Uint,
    R32Sint,
    R32Float,
    Rg16Uint,
    Rg16Sint,
    Rg16Float,
    Rgba8Unorm,
    Rgba8UnormSrgb,
    Rgba8Snorm,
    Rgba8Uint,
    Rgba8Sint,
    Bgra8Unorm,
    Bgra8UnormSrgb,
    Rgb10a2Unorm,
    Rg11b10Float,
    Rg32Uint,
    Rg32Sint,
    Rg32Float,
    Rgba16Uint,
    Rgba16Sint,
    Rgba16Float,
    Rgba32Uint,
    Rgba32Sint,
    Rgba32Float,
    Depth32Float,
    Depth24Plus,
    Depth24PlusStencil8,
    Rgb9e5Ufloat,
    Bc1RgbaUnorm,
    Bc1RgbaUnormSrgb,
    Bc2RgbaUnorm,
    Bc2RgbaUnormSrgb,
    Bc3RgbaUnorm,
    Bc3RgbaUnormSrgb,
    Bc4RUnorm,
    Bc4RSnorm,
    Bc5RgUnorm,
    Bc5RgSnorm,
    Bc6hRgbUfloat,
    Bc6hRgbSfloat,
    Bc7RgbaUnorm,
    Bc7RgbaUnormSrgb,
    Etc2RgbUnorm,
    Etc2RgbUnormSrgb,
    Etc2RgbA1Unorm,
    Etc2RgbA1UnormSrgb,
    EacRUnorm,
    EacRSnorm,
    EacRgUnorm,
    EacRgSnorm,
    Astc4x4RgbaUnorm,
    Astc4x4RgbaUnormSrgb,
    Astc5x4RgbaUnorm,
    Astc5x4RgbaUnormSrgb,
    Astc5x5RgbaUnorm,
    Astc5x5RgbaUnormSrgb,
    Astc6x5RgbaUnorm,
    Astc6x5RgbaUnormSrgb,
    Astc6x6RgbaUnorm,
    Astc6x6RgbaUnormSrgb,
    Astc8x5RgbaUnorm,
    Astc8x5RgbaUnormSrgb,
    Astc8x6RgbaUnorm,
    Astc8x6RgbaUnormSrgb,
    Astc10x5RgbaUnorm,
    Astc10x5RgbaUnormSrgb,
    Astc10x6RgbaUnorm,
    Astc10x6RgbaUnormSrgb,
    Astc8x8RgbaUnorm,
    Astc8x8RgbaUnormSrgb,
    Astc10x8RgbaUnorm,
    Astc10x8RgbaUnormSrgb,
    Astc10x10RgbaUnorm,
    Astc10x10RgbaUnormSrgb,
    Astc12x10RgbaUnorm,
    Astc12x10RgbaUnormSrgb,
    Astc12x12RgbaUnorm,
    Astc12x12RgbaUnormSrgb,
}

/// The native pixel-format enumeration the mapping table targets.
#[derive(Clone, Copy, Debug, PartialEq, Eq, Structural)]
pub enum PixelFormat {
    R8Unorm,
    R8Snorm,
    R8Uint,
    R8Sint,
    R16Uint,
    R16Sint,
    R16Float,
    Rg8Unorm,
    Rg8Snorm,
    Rg8Uint,
    Rg8Sint,
    R32Uint,
    R32Sint,
    R32Float,
    Rg16Uint,
    Rg16Sint,
    Rg16Float,
    Rgba8Unorm,
    Rgba8UnormSrgb,
    Rgba8Snorm,
    Rgba8Uint,
    Rgba8Sint,
    Bgra8Unorm,
    Bgra8UnormSrgb,
    Rgb10a2Unorm,
    Rg11b10Float,
    Rg32Uint,
    Rg32Sint,
    Rg32Float,
    Rgba16Uint,
    Rgba16Sint,
    Rgba16Float,
    Rgba32Uint,
    Rgba32Sint,
    Rgba32Float,
    Depth32Float,
    Depth24UnormStencil8,
    Depth32FloatStencil8,
    Rgb9e5Float,
    Bc1Rgba,
    Bc1RgbaSrgb,
    Bc2Rgba,
    Bc2RgbaSrgb,
    Bc3Rgba,
    Bc3RgbaSrgb,
    Bc4RUnorm,
    Bc4RSnorm,
    Bc5RgUnorm,
    Bc5RgSnorm,
    Bc6hRgbFloat,
    Bc6hRgbUfloat,
    Bc7RgbaUnorm,
    Bc7RgbaUnormSrgb,
    Etc2Rgb8,
    Etc2Rgb8Srgb,
    Etc2Rgb8A1,
    Etc2Rgb8A1Srgb,
    EacR11Unorm,
    EacR11Snorm,
    EacRg11Unorm,
    EacRg11Snorm,
    Astc4x4Ldr,
    Astc4x4Srgb,
    Astc5x4Ldr,
    Astc5x4Srgb,
    Astc5x5Ldr,
    Astc5x5Srgb,
    Astc6x5Ldr,
    Astc6x5Srgb,
    Astc6x6Ldr,
    Astc6x6Srgb,
    Astc8x5Ldr,
    Astc8x5Srgb,
    Astc8x6Ldr,
    Astc8x6Srgb,
    Astc8x8Ldr,
    Astc8x8Srgb,
    Astc10x5Ldr,
    Astc10x5Srgb,
    Astc10x6Ldr,
    Astc10x6Srgb,
    Astc10x8Ldr,
    Astc10x8Srgb,
    Astc10x10Ldr,
    Astc10x10Srgb,
    Astc12x10Ldr,
    Astc12x10Srgb,
    Astc12x12Ldr,
    Astc12x12Srgb,
}

/// The set of permitted uses of one pixel format under one capability
/// descriptor: one flag per usage.
#[derive(Clone, Copy, Debug, PartialEq, Eq, Structural)]
pub struct TextureFormatCapabilities {
    pub copy_src: bool,
    pub copy_dst: bool,
    pub sampled: bool,
    pub sampled_linear: bool,
    pub storage_read_write: bool,
    pub storage: bool,
    pub color_attachment: bool,
    pub color_attachment_blend: bool,
    pub depth_stencil_attachment: bool,
}

impl TextureFormatCapabilities {
    /// The universal base flags {copy-source, copy-destination, sampled},
    /// extended with the given per-format extras.
    pub open spec fn spec_base_with(
        sampled_linear: bool,
        storage_read_write: bool,
        storage: bool,
        color_attachment: bool,
        color_attachment_blend: bool,
        depth_stencil_attachment: bool,
    ) -> TextureFormatCapabilities {
        TextureFormatCapabilities {
            copy_src: true,
            copy_dst: true,
            sampled: true,
            sampled_linear,
            storage_read_write,
            storage,
            color_attachment,
            color_attachment_blend,
            depth_stencil_attachment,
        }
    }

    /// Executable form of [`TextureFormatCapabilities::spec_base_with`].
    pub fn base_with(
        sampled_linear: bool,
        storage_read_write: bool,
        storage: bool,
        color_attachment: bool,
        color_attachment_blend: bool,
        depth_stencil_attachment: bool,
    ) -> (c: Self)
        ensures
            c == Self::spec_base_with(
                sampled_linear,
                storage_read_write,
                storage,
                color_attachment,
                color_attachment_blend,
                depth_stencil_attachment,
            ),
    {
        TextureFormatCapabilities {
            copy_src: true,
            copy_dst: true,
            sampled: true,
            sampled_linear,
            storage_read_write,
            storage,
            color_attachment,
            color_attachment_blend,
            depth_stencil_attachment,
        }
    }
}

/// The per-format usage flags granted under the given descriptor: the
/// universal base plus the fixed table of per-format rules.
pub open spec fn spec_texture_format_capabilities(
    pc: PrivateCapabilities,
    format: TextureFormat,
) -> TextureFormatCapabilities {
    // Storage read-write access for a tier-1-class format needs tier 1 or
    // better; a tier-2-class format needs tier 2.
    let tier1 = pc.read_write_texture_tier.grants_tier1();
    let tier2 = pc.read_write_texture_tier.grants_tier2();
    match format {
        TextureFormat::R8Unorm => TextureFormatCapabilities::spec_base_with(
            true,
            tier2,
            true,
            true,
            true,
            false,
        ),
        TextureFormat::R8Snorm => TextureFormatCapabilities::spec_base_with(
            true,
            false,
            true,
            true,
            true,
            false,
        ),
        TextureFormat::R8Uint | TextureFormat::R8Sint | TextureFormat::R16Uint
            | TextureFormat::R16Sint => TextureFormatCapabilities::spec_base_with(
            false,
            tier2,
            true,
            true,
            false,
            false,
        ),
        TextureFormat::R16Float => TextureFormatCapabilities::spec_base_with(
            false,
            tier2,
            true,
            true,
            true,
            false,
        ),
        TextureFormat::Rg8Unorm | TextureFormat::Rg8Snorm
            => TextureFormatCapabilities::spec_base_with(true, false, true, true, true, false),
        TextureFormat::Rg8Uint | TextureFormat::Rg8Sint
            => TextureFormatCapabilities::spec_base_with(false, false, false, true, false, false),
        TextureFormat::R32Uint | TextureFormat::R32Sint => if pc.format_r32_all {
            TextureFormatCapabilities::spec_base_with(false, tier1, true, true, false, false)
        } else {
            TextureFormatCapabilities::spec_base_with(false, false, false, true, false, false)
        },
        TextureFormat::R32Float => if pc.format_r32float_all {
            TextureFormatCapabilities::spec_base_with(true, tier1, true, true, true, false)
        } else if pc.format_r32float_no_filter {
            TextureFormatCapabilities::spec_base_with(true, false, false, true, true, false)
        } else {
            TextureFormatCapabilities::spec_base_with(false, false, false, true, true, false)
        },
        TextureFormat::Rg16Uint | TextureFormat::Rg16Sint
            => TextureFormatCapabilities::spec_base_with(false, tier2, true, true, false, false),
        TextureFormat::Rg16Float => TextureFormatCapabilities::spec_base_with(
            true,
            tier2,
            true,
            true,
            true,
            false,
        ),
        TextureFormat::Rgba8Unorm => TextureFormatCapabilities::spec_base_with(
            true,
            tier2,
            true,
            true,
            true,
            false,
        ),
        TextureFormat::Rgba8UnormSrgb | TextureFormat::Bgra8UnormSrgb
            => TextureFormatCapabilities::spec_base_with(
            true,
            false,
            pc.format_rgba8_srgb_all,
            true,
            true,
            false,
        ),
        TextureFormat::Rgba8Snorm | TextureFormat::Bgra8Unorm
            => TextureFormatCapabilities::spec_base_with(true, false, true, true, true, false),
        TextureFormat::Rgba8Uint | TextureFormat::Rgba8Sint
            => TextureFormatCapabilities::spec_base_with(false, tier2, true, true, false, false),
        TextureFormat::Rgb10a2Unorm => TextureFormatCapabilities::spec_base_with(
            true,
            false,
            pc.format_rgb10a2_unorm_all,
            true,
            true,
            false,
        ),
        TextureFormat::Rg11b10Float => TextureFormatCapabilities::spec_base_with(
            true,
            false,
            pc.format_rg11b10_all,
            true,
            true,
            false,
        ),
        TextureFormat::Rg32Uint | TextureFormat::Rg32Sint
            => TextureFormatCapabilities::spec_base_with(false, false, true, true, false, false),
        TextureFormat::Rg32Float => if pc.format_rg32float_all {
            TextureFormatCapabilities::spec_base_with(true, false, true, true, true, false)
        } else if pc.format_rg32float_color_blend {
            TextureFormatCapabilities::spec_base_with(true, false, false, true, true, false)
        } else {
            TextureFormatCapabilities::spec_base_with(false, false, false, true, true, false)
        },
        TextureFormat::Rgba16Uint | TextureFormat::Rgba16Sint
            => TextureFormatCapabilities::spec_base_with(false, tier2, true, true, false, false),
        TextureFormat::Rgba16Float => TextureFormatCapabilities::spec_base_with(
            true,
            tier2,
            true,
            true,
            true,
            false,
        ),
        TextureFormat::Rgba32Uint | TextureFormat::Rgba32Sint
            => if pc.format_rgba32int_color_write {
            TextureFormatCapabilities::spec_base_with(false, tier2, true, true, false, false)
        } else {
            TextureFormatCapabilities::spec_base_with(false, false, false, true, false, false)
        },
        TextureFormat::Rgba32Float => if pc.format_rgba32float_all {
            TextureFormatCapabilities::spec_base_with(true, tier2, true, true, true, false)
        } else if pc.format_rgba32float_color_write {
            TextureFormatCapabilities::spec_base_with(false, tier2, true, true, false, false)
        } else {
            TextureFormatCapabilities::spec_base_with(false, false, false, true, false, false)
        },
        TextureFormat::Depth32Float => TextureFormatCapabilities::spec_base_with(
            pc.format_depth32float_filter,
            false,
            false,
            false,
            false,
            true,
        ),
        TextureFormat::Depth24Plus | TextureFormat::Depth24PlusStencil8
            => TextureFormatCapabilities::spec_base_with(true, false, false, false, false, true),
        TextureFormat::Rgb9e5Ufloat => TextureFormatCapabilities::spec_base_with(
            true,
            false,
            false,
            false,
            false,
            false,
        ),
        TextureFormat::Bc1RgbaUnorm | TextureFormat::Bc1RgbaUnormSrgb
            | TextureFormat::Bc2RgbaUnorm | TextureFormat::Bc2RgbaUnormSrgb
            | TextureFormat::Bc3RgbaUnorm | TextureFormat::Bc3RgbaUnormSrgb
            | TextureFormat::Bc4RUnorm | TextureFormat::Bc4RSnorm | TextureFormat::Bc5RgUnorm
            | TextureFormat::Bc5RgSnorm | TextureFormat::Bc6hRgbUfloat
            | TextureFormat::Bc6hRgbSfloat | TextureFormat::Bc7RgbaUnorm
            | TextureFormat::Bc7RgbaUnormSrgb => TextureFormatCapabilities::spec_base_with(
            pc.format_bc,
            false,
            false,
            false,
            false,
            false,
        ),
        TextureFormat::Etc2RgbUnorm | TextureFormat::Etc2RgbUnormSrgb
            | TextureFormat::Etc2RgbA1Unorm | TextureFormat::Etc2RgbA1UnormSrgb
            | TextureFormat::EacRUnorm | TextureFormat::EacRSnorm | TextureFormat::EacRgUnorm
            | TextureFormat::EacRgSnorm => TextureFormatCapabilities::spec_base_with(
            pc.format_eac_etc,
            false,
            false,
            false,
            false,
            false,
        ),
        TextureFormat::Astc4x4RgbaUnorm | TextureFormat::Astc4x4RgbaUnormSrgb
            | TextureFormat::Astc5x4RgbaUnorm | TextureFormat::Astc5x4RgbaUnormSrgb
            | TextureFormat::Astc5x5RgbaUnorm | TextureFormat::Astc5x5RgbaUnormSrgb
            | TextureFormat::Astc6x5RgbaUnorm | TextureFormat::Astc6x5RgbaUnormSrgb
            | TextureFormat::Astc6x6RgbaUnorm | TextureFormat::Astc6x6RgbaUnormSrgb
            | TextureFormat::Astc8x5RgbaUnorm | TextureFormat::Astc8x5RgbaUnormSrgb
            | TextureFormat::Astc8x6RgbaUnorm | TextureFormat::Astc8x6RgbaUnormSrgb
            | TextureFormat::Astc10x5RgbaUnorm | TextureFormat::Astc10x5RgbaUnormSrgb
            | TextureFormat::Astc10x6RgbaUnorm | TextureFormat::Astc10x6RgbaUnormSrgb
            | TextureFormat::Astc8x8RgbaUnorm | TextureFormat::Astc8x8RgbaUnormSrgb
            | TextureFormat::Astc10x8RgbaUnorm | TextureFormat::Astc10x8RgbaUnormSrgb
            | TextureFormat::Astc10x10RgbaUnorm | TextureFormat::Astc10x10RgbaUnormSrgb
            | TextureFormat::Astc12x10RgbaUnorm | TextureFormat::Astc12x10RgbaUnormSrgb
            | TextureFormat::Astc12x12RgbaUnorm | TextureFormat::Astc12x12RgbaUnormSrgb
            => TextureFormatCapabilities::spec_base_with(
            pc.format_astc,
            false,
            false,
            false,
            false,
            false,
        ),
    }
}

/// Every format's usage set includes the universal base: copy-source,
/// copy-destination and sampled are granted unconditionally, under every
/// descriptor.
pub proof fn lemma_capabilities_include_base(pc: PrivateCapabilities, format: TextureFormat)
    ensures
        spec_texture_format_capabilities(pc, format).copy_src,
        spec_texture_format_capabilities(pc, format).copy_dst,
        spec_texture_format_capabilities(pc, format).sampled,
{
}

/// The portable-to-native mapping: total over the portable enumeration, with
/// `combined_depth_stencil` (support for the combined 24-bit-depth/8-bit-
/// stencil native format) deciding the depth fallbacks.
pub open spec fn spec_map_format(
    combined_depth_stencil: bool,
    format: TextureFormat,
) -> PixelFormat {
    match format {
        TextureFormat::R8Unorm => PixelFormat::R8Unorm,
        TextureFormat::R8Snorm => PixelFormat::R8Snorm,
        TextureFormat::R8Uint => PixelFormat::R8Uint,
        TextureFormat::R8Sint => PixelFormat::R8Sint,
        TextureFormat::R16Uint => PixelFormat::R16Uint,
        TextureFormat::R16Sint => PixelFormat::R16Sint,
        TextureFormat::R16Float => PixelFormat::R16Float,
        TextureFormat::Rg8Unorm => PixelFormat::Rg8Unorm,
        TextureFormat::Rg8Snorm => PixelFormat::Rg8Snorm,
        TextureFormat::Rg8Uint => PixelFormat::Rg8Uint,
        TextureFormat::Rg8Sint => PixelFormat::Rg8Sint,
        TextureFormat::R32Uint => PixelFormat::R32Uint,
        TextureFormat::R32Sint => PixelFormat::R32Sint,
        TextureFormat::R32Float => PixelFormat::R32Float,
        TextureFormat::Rg16Uint => PixelFormat::Rg16Uint,
        TextureFormat::Rg16Sint => PixelFormat::Rg16Sint,
        TextureFormat::Rg16Float => PixelFormat::Rg16Float,
        TextureFormat::Rgba8Unorm => PixelFormat::Rgba8Unorm,
        TextureFormat::Rgba8UnormSrgb => PixelFormat::Rgba8UnormSrgb,
        TextureFormat::Bgra8UnormSrgb => PixelFormat::Bgra8UnormSrgb,
        TextureFormat::Rgba8Snorm => PixelFormat::Rgba8Snorm,
        TextureFormat::Bgra8Unorm => PixelFormat::Bgra8Unorm,
        TextureFormat::Rgba8Uint => PixelFormat::Rgba8Uint,
        TextureFormat::Rgba8Sint => PixelFormat::Rgba8Sint,
        TextureFormat::Rgb10a2Unorm => PixelFormat::Rgb10a2Unorm,
        TextureFormat::Rg11b10Float => PixelFormat::Rg11b10Float,
        TextureFormat::Rg32Uint => PixelFormat::Rg32Uint,
        TextureFormat::Rg32Sint => PixelFormat::Rg32Sint,
        TextureFormat::Rg32Float => PixelFormat::Rg32Float,
        TextureFormat::Rgba16Uint => PixelFormat::Rgba16Uint,
        TextureFormat::Rgba16Sint => PixelFormat::Rgba16Sint,
        TextureFormat::Rgba16Float => PixelFormat::Rgba16Float,
        TextureFormat::Rgba32Uint => PixelFormat::Rgba32Uint,
        TextureFormat::Rgba32Sint => PixelFormat::Rgba32Sint,
        TextureFormat::Rgba32Float => PixelFormat::Rgba32Float,
        TextureFormat::Depth32Float => PixelFormat::Depth32Float,
        TextureFormat::Depth24Plus => if combined_depth_stencil {
            PixelFormat::Depth24UnormStencil8
        } else {
            PixelFormat::Depth32Float
        },
        TextureFormat::Depth24PlusStencil8 => if combined_depth_stencil {
            PixelFormat::Depth24UnormStencil8
        } else {
            PixelFormat::Depth32FloatStencil8
        },
        TextureFormat::Rgb9e5Ufloat => PixelFormat::Rgb9e5Float,
        TextureFormat::Bc1RgbaUnorm => PixelFormat::Bc1Rgba,
        TextureFormat::Bc1RgbaUnormSrgb => PixelFormat::Bc1RgbaSrgb,
        TextureFormat::Bc2RgbaUnorm => PixelFormat::Bc2Rgba,
        TextureFormat::Bc2RgbaUnormSrgb => PixelFormat::Bc2RgbaSrgb,
        TextureFormat::Bc3RgbaUnorm => PixelFormat::Bc3Rgba,
        TextureFormat::Bc3RgbaUnormSrgb => PixelFormat::Bc3RgbaSrgb,
        TextureFormat::Bc4RUnorm => PixelFormat::Bc4RUnorm,
        TextureFormat::Bc4RSnorm => PixelFormat::Bc4RSnorm,
        TextureFormat::Bc5RgUnorm => PixelFormat::Bc5RgUnorm,
        TextureFormat::Bc5RgSnorm => PixelFormat::Bc5RgSnorm,
        TextureFormat::Bc6hRgbSfloat => PixelFormat::Bc6hRgbFloat,
        TextureFormat::Bc6hRgbUfloat => PixelFormat::Bc6hRgbUfloat,
        TextureFormat::Bc7RgbaUnorm => PixelFormat::Bc7RgbaUnorm,
        TextureFormat::Bc7RgbaUnormSrgb => PixelFormat::Bc7RgbaUnormSrgb,
        TextureFormat::Etc2RgbUnorm => PixelFormat::Etc2Rgb8,
        TextureFormat::Etc2RgbUnormSrgb => PixelFormat::Etc2Rgb8Srgb,
        TextureFormat::Etc2RgbA1Unorm => PixelFormat::Etc2Rgb8A1,
        TextureFormat::Etc2RgbA1UnormSrgb => PixelFormat::Etc2Rgb8A1Srgb,
        TextureFormat::EacRUnorm => PixelFormat::EacR11Unorm,
        TextureFormat::EacRSnorm => PixelFormat::EacR11Snorm,
        TextureFormat::EacRgUnorm => PixelFormat::EacRg11Unorm,
        TextureFormat::EacRgSnorm => PixelFormat::EacRg11Snorm,
        TextureFormat::Astc4x4RgbaUnorm => PixelFormat::Astc4x4Ldr,
        TextureFormat::Astc4x4RgbaUnormSrgb => PixelFormat::Astc4x4Srgb,
        TextureFormat::Astc5x4RgbaUnorm => PixelFormat::Astc5x4Ldr,
        TextureFormat::Astc5x4RgbaUnormSrgb => PixelFormat::Astc5x4Srgb,
        TextureFormat::Astc5x5RgbaUnorm => PixelFormat::Astc5x5Ldr,
        TextureFormat::Astc5x5RgbaUnormSrgb => PixelFormat::Astc5x5Srgb,
        TextureFormat::Astc6x5RgbaUnorm => PixelFormat::Astc6x5Ldr,
        TextureFormat::Astc6x5RgbaUnormSrgb => PixelFormat::Astc6x5Srgb,
        TextureFormat::Astc6x6RgbaUnorm => PixelFormat::Astc6x6Ldr,
        TextureFormat::Astc6x6RgbaUnormSrgb => PixelFormat::Astc6x6Srgb,
        TextureFormat::Astc8x5RgbaUnorm => PixelFormat::Astc8x5Ldr,
        TextureFormat::Astc8x5RgbaUnormSrgb => PixelFormat::Astc8x5Srgb,
        TextureFormat::Astc8x6RgbaUnorm => PixelFormat::Astc8x6Ldr,
        TextureFormat::Astc8x6RgbaUnormSrgb => PixelFormat::Astc8x6Srgb,
        TextureFormat::Astc10x5RgbaUnorm => PixelFormat::Astc8x8Ldr,
        TextureFormat::Astc10x5RgbaUnormSrgb => PixelFormat::Astc8x8Srgb,
        TextureFormat::Astc10x6RgbaUnorm => PixelFormat::Astc10x5Ldr,
        TextureFormat::Astc10x6RgbaUnormSrgb => PixelFormat::Astc10x5Srgb,
        TextureFormat::Astc8x8RgbaUnorm => PixelFormat::Astc10x6Ldr,
        TextureFormat::Astc8x8RgbaUnormSrgb => PixelFormat::Astc10x6Srgb,
        TextureFormat::Astc10x8RgbaUnorm => PixelFormat::Astc10x8Ldr,
        TextureFormat::Astc10x8RgbaUnormSrgb => PixelFormat::Astc10x8Srgb,
        TextureFormat::Astc10x10RgbaUnorm => PixelFormat::Astc10x10Ldr,
        TextureFormat::Astc10x10RgbaUnormSrgb => PixelFormat::Astc10x10Srgb,
        TextureFormat::Astc12x10RgbaUnorm => PixelFormat::Astc12x10Ldr,
        TextureFormat::Astc12x10RgbaUnormSrgb => PixelFormat::Astc12x10Srgb,
        TextureFormat::Astc12x12RgbaUnorm => PixelFormat::Astc12x12Ldr,
        TextureFormat::Astc12x12RgbaUnormSrgb => PixelFormat::Astc12x12Srgb,
    }
}

impl PrivateCapabilities {
    /// Translate a portable format to the one native format it is realised
    /// as under this descriptor. Pure and total; the depth fallbacks follow
    /// `format_depth24_stencil8`.
    pub fn map_format(&self, format: TextureFormat) -> (p: PixelFormat)
        ensures
            p == spec_map_format(self.format_depth24_stencil8, format),
    {
        match format {
            TextureFormat::R8Unorm => PixelFormat::R8Unorm,
            TextureFormat::R8Snorm => PixelFormat::R8Snorm,
            TextureFormat::R8Uint => PixelFormat::R8Uint,
            TextureFormat::R8Sint => PixelFormat::R8Sint,
            TextureFormat::R16Uint => PixelFormat::R16Uint,
            TextureFormat::R16Sint => PixelFormat::R16Sint,
            TextureFormat::R16Float => PixelFormat::R16Float,
            TextureFormat::Rg8Unorm => PixelFormat::Rg8Unorm,
            TextureFormat::Rg8Snorm => PixelFormat::Rg8Snorm,
            TextureFormat::Rg8Uint => PixelFormat::Rg8Uint,
            TextureFormat::Rg8Sint => PixelFormat::Rg8Sint,
            TextureFormat::R32Uint => PixelFormat::R32Uint,
            TextureFormat::R32Sint => PixelFormat::R32Sint,
            TextureFormat::R32Float => PixelFormat::R32Float,
            TextureFormat::Rg16Uint => PixelFormat::Rg16Uint,
            TextureFormat::Rg16Sint => PixelFormat::Rg16Sint,
            TextureFormat::Rg16Float => PixelFormat::Rg16Float,
            TextureFormat::Rgba8Unorm => PixelFormat::Rgba8Unorm,
            TextureFormat::Rgba8UnormSrgb => PixelFormat::Rgba8UnormSrgb,
            TextureFormat::Bgra8UnormSrgb => PixelFormat::Bgra8UnormSrgb,
            TextureFormat::Rgba8Snorm => PixelFormat::Rgba8Snorm,
            TextureFormat::Bgra8Unorm => PixelFormat::Bgra8Unorm,
            TextureFormat::Rgba8Uint => PixelFormat::Rgba8Uint,
            TextureFormat::Rgba8Sint => PixelFormat::Rgba8Sint,
            TextureFormat::Rgb10a2Unorm => PixelFormat::Rgb10a2Unorm,
            TextureFormat::Rg11b10Float => PixelFormat::Rg11b10Float,
            TextureFormat::Rg32Uint => PixelFormat::Rg32Uint,
            TextureFormat::Rg32Sint => PixelFormat::Rg32Sint,
            TextureFormat::Rg32Float => PixelFormat::Rg32Float,
            TextureFormat::Rgba16Uint => PixelFormat::Rgba16Uint,
            TextureFormat::Rgba16Sint => PixelFormat::Rgba16Sint,
            TextureFormat::Rgba16Float => PixelFormat::Rgba16Float,
            TextureFormat::Rgba32Uint => PixelFormat::Rgba32Uint,
            TextureFormat::Rgba32Sint => PixelFormat::Rgba32Sint,
            TextureFormat::Rgba32Float => PixelFormat::Rgba32Float,
            TextureFormat::Depth32Float => PixelFormat::Depth32Float,
            TextureFormat::Depth24Plus => {
                if self.format_depth24_stencil8 {
                    PixelFormat::Depth24UnormStencil8
                } else {
                    PixelFormat::Depth32Float
                }
            },
            TextureFormat::Depth24PlusStencil8 => {
                if self.format_depth24_stencil8 {
                    PixelFormat::Depth24UnormStencil8
                } else {
                    PixelFormat::Depth32FloatStencil8
                }
            },
            TextureFormat::Rgb9e5Ufloat => PixelFormat::Rgb9e5Float,
            TextureFormat::Bc1RgbaUnorm => PixelFormat::Bc1Rgba,
            TextureFormat::Bc1RgbaUnormSrgb => PixelFormat::Bc1RgbaSrgb,
            TextureFormat::Bc2RgbaUnorm => PixelFormat::Bc2Rgba,
            TextureFormat::Bc2RgbaUnormSrgb => PixelFormat::Bc2RgbaSrgb,
            TextureFormat::Bc3RgbaUnorm => PixelFormat::Bc3Rgba,
            TextureFormat::Bc3RgbaUnormSrgb => PixelFormat::Bc3RgbaSrgb,
            TextureFormat::Bc4RUnorm => PixelFormat::Bc4RUnorm,
            TextureFormat::Bc4RSnorm => PixelFormat::Bc4RSnorm,
            TextureFormat::Bc5RgUnorm => PixelFormat::Bc5RgUnorm,
            TextureFormat::Bc5RgSnorm => PixelFormat::Bc5RgSnorm,
            TextureFormat::Bc6hRgbSfloat => PixelFormat::Bc6hRgbFloat,
            TextureFormat::Bc6hRgbUfloat => PixelFormat::Bc6hRgbUfloat,
            TextureFormat::Bc7RgbaUnorm => PixelFormat::Bc7RgbaUnorm,
            TextureFormat::Bc7RgbaUnormSrgb => PixelFormat::Bc7RgbaUnormSrgb,
            TextureFormat::Etc2RgbUnorm => PixelFormat::Etc2Rgb8,
            TextureFormat::Etc2RgbUnormSrgb => PixelFormat::Etc2Rgb8Srgb,
            TextureFormat::Etc2RgbA1Unorm => PixelFormat::Etc2Rgb8A1,
            TextureFormat::Etc2RgbA1UnormSrgb => PixelFormat::Etc2Rgb8A1Srgb,
            TextureFormat::EacRUnorm => PixelFormat::EacR11Unorm,
            TextureFormat::EacRSnorm => PixelFormat::EacR11Snorm,
            TextureFormat::EacRgUnorm => PixelFormat::EacRg11Unorm,
            TextureFormat::EacRgSnorm => PixelFormat::EacRg11Snorm,
            TextureFormat::Astc4x4RgbaUnorm => PixelFormat::Astc4x4Ldr,
            TextureFormat::Astc4x4RgbaUnormSrgb => PixelFormat::Astc4x4Srgb,
            TextureFormat::Astc5x4RgbaUnorm => PixelFormat::Astc5x4Ldr,
            TextureFormat::Astc5x4RgbaUnormSrgb => PixelFormat::Astc5x4Srgb,
            TextureFormat::Astc5x5RgbaUnorm => PixelFormat::Astc5x5Ldr,
            TextureFormat::Astc5x5RgbaUnormSrgb => PixelFormat::Astc5x5Srgb,
            TextureFormat::Astc6x5RgbaUnorm => PixelFormat::Astc6x5Ldr,
            TextureFormat::Astc6x5RgbaUnormSrgb => PixelFormat::Astc6x5Srgb,
            TextureFormat::Astc6x6RgbaUnorm => PixelFormat::Astc6x6Ldr,
            TextureFormat::Astc6x6RgbaUnormSrgb => PixelFormat::Astc6x6Srgb,
            TextureFormat::Astc8x5RgbaUnorm => PixelFormat::Astc8x5Ldr,
            TextureFormat::Astc8x5RgbaUnormSrgb => PixelFormat::Astc8x5Srgb,
            TextureFormat::Astc8x6RgbaUnorm => PixelFormat::Astc8x6Ldr,
            TextureFormat::Astc8x6RgbaUnormSrgb => PixelFormat::Astc8x6Srgb,
            TextureFormat::Astc10x5RgbaUnorm => PixelFormat::Astc8x8Ldr,
            TextureFormat::Astc10x5RgbaUnormSrgb => PixelFormat::Astc8x8Srgb,
            TextureFormat::Astc10x6RgbaUnorm => PixelFormat::Astc10x5Ldr,
            TextureFormat::Astc10x6RgbaUnormSrgb => PixelFormat::Astc10x5Srgb,
            TextureFormat::Astc8x8RgbaUnorm => PixelFormat::Astc10x6Ldr,
            TextureFormat::Astc8x8RgbaUnormSrgb => PixelFormat::Astc10x6Srgb,
            TextureFormat::Astc10x8RgbaUnorm => PixelFormat::Astc10x8Ldr,
            TextureFormat::Astc10x8RgbaUnormSrgb => PixelFormat::Astc10x8Srgb,
            TextureFormat::Astc10x10RgbaUnorm => PixelFormat::Astc10x10Ldr,
            TextureFormat::Astc10x10RgbaUnormSrgb => PixelFormat::Astc10x10Srgb,
            TextureFormat::Astc12x10RgbaUnorm => PixelFormat::Astc12x10Ldr,
            TextureFormat::Astc12x10RgbaUnormSrgb => PixelFormat::Astc12x10Srgb,
            TextureFormat::Astc12x12RgbaUnorm => PixelFormat::Astc12x12Ldr,
            TextureFormat::Astc12x12RgbaUnormSrgb => PixelFormat::Astc12x12Srgb,
        }
    }
}

/// For a fixed descriptor, the resolver and the mapping table are pure
/// functions of the format alone: any two results for the same format are
/// bit-identical. The executable queries ensure exactly these spec values,
/// so repeated calls cannot diverge.
pub proof fn lemma_queries_are_pure(
    pc: PrivateCapabilities,
    format: TextureFormat,
    caps1: TextureFormatCapabilities,
    caps2: TextureFormatCapabilities,
    native1: PixelFormat,
    native2: PixelFormat,
)
    requires
        caps1 == spec_texture_format_capabilities(pc, format),
        caps2 == spec_texture_format_capabilities(pc, format),
        native1 == spec_map_format(pc.format_depth24_stencil8, format),
        native2 == spec_map_format(pc.format_depth24_stencil8, format),
    ensures
        caps1 == caps2,
        native1 == native2,
{
}

/// The reverse of the mapping table on its image: for every native format,
/// the canonical portable format that reaches it. Used to prove injectivity.
spec fn spec_unmap_format(combined_depth_stencil: bool, p: PixelFormat) -> TextureFormat {
    match p {
        PixelFormat::R8Unorm => TextureFormat::R8Unorm,
        PixelFormat::R8Snorm => TextureFormat::R8Snorm,
        PixelFormat::R8Uint => TextureFormat::R8Uint,
        PixelFormat::R8Sint => TextureFormat::R8Sint,
        PixelFormat::R16Uint => TextureFormat::R16Uint,
        PixelFormat::R16Sint => TextureFormat::R16Sint,
        PixelFormat::R16Float => TextureFormat::R16Float,
        PixelFormat::Rg8Unorm => TextureFormat::Rg8Unorm,
        PixelFormat::Rg8Snorm => TextureFormat::Rg8Snorm,
        PixelFormat::Rg8Uint => TextureFormat::Rg8Uint,
        PixelFormat::Rg8Sint => TextureFormat::Rg8Sint,
        PixelFormat::R32Uint => TextureFormat::R32Uint,
        PixelFormat::R32Sint => TextureFormat::R32Sint,
        PixelFormat::R32Float => TextureFormat::R32Float,
        PixelFormat::Rg16Uint => TextureFormat::Rg16Uint,
        PixelFormat::Rg16Sint => TextureFormat::Rg16Sint,
        PixelFormat::Rg16Float => TextureFormat::Rg16Float,
        PixelFormat::Rgba8Unorm => TextureFormat::Rgba8Unorm,
        PixelFormat::Rgba8UnormSrgb => TextureFormat::Rgba8UnormSrgb,
        PixelFormat::Bgra8UnormSrgb => TextureFormat::Bgra8UnormSrgb,
        PixelFormat::Rgba8Snorm => TextureFormat::Rgba8Snorm,
        PixelFormat::Bgra8Unorm => TextureFormat::Bgra8Unorm,
        PixelFormat::Rgba8Uint => TextureFormat::Rgba8Uint,
        PixelFormat::Rgba8Sint => TextureFormat::Rgba8Sint,
        PixelFormat::Rgb10a2Unorm => TextureFormat::Rgb10a2Unorm,
        PixelFormat::Rg11b10Float => TextureFormat::Rg11b10Float,
        PixelFormat::Rg32Uint => TextureFormat::Rg32Uint,
        PixelFormat::Rg32Sint => TextureFormat::Rg32Sint,
        PixelFormat::Rg32Float => TextureFormat::Rg32Float,
        PixelFormat::Rgba16Uint => TextureFormat::Rgba16Uint,
        PixelFormat::Rgba16Sint => TextureFormat::Rgba16Sint,
        PixelFormat::Rgba16Float => TextureFormat::Rgba16Float,
        PixelFormat::Rgba32Uint => TextureFormat::Rgba32Uint,
        PixelFormat::Rgba32Sint => TextureFormat::Rgba32Sint,
        PixelFormat::Rgba32Float => TextureFormat::Rgba32Float,
        PixelFormat::Depth32Float => TextureFormat::Depth32Float,
        PixelFormat::Depth24UnormStencil8 => TextureFormat::Depth24PlusStencil8,
        PixelFormat::Depth32FloatStencil8 => TextureFormat::Depth24PlusStencil8,
        PixelFormat::Rgb9e5Float => TextureFormat::Rgb9e5Ufloat,
        PixelFormat::Bc1Rgba => TextureFormat::Bc1RgbaUnorm,
        PixelFormat::Bc1RgbaSrgb => TextureFormat::Bc1RgbaUnormSrgb,
        PixelFormat::Bc2Rgba => TextureFormat::Bc2RgbaUnorm,
        PixelFormat::Bc2RgbaSrgb => TextureFormat::Bc2RgbaUnormSrgb,
        PixelFormat::Bc3Rgba => TextureFormat::Bc3RgbaUnorm,
        PixelFormat::Bc3RgbaSrgb => TextureFormat::Bc3RgbaUnormSrgb,
        PixelFormat::Bc4RUnorm => TextureFormat::Bc4RUnorm,
        PixelFormat::Bc4RSnorm => TextureFormat::Bc4RSnorm,
        PixelFormat::Bc5RgUnorm => TextureFormat::Bc5RgUnorm,
        PixelFormat::Bc5RgSnorm => TextureFormat::Bc5RgSnorm,
        PixelFormat::Bc6hRgbFloat => TextureFormat::Bc6hRgbSfloat,
        PixelFormat::Bc6hRgbUfloat => TextureFormat::Bc6hRgbUfloat,
        PixelFormat::Bc7RgbaUnorm => TextureFormat::Bc7RgbaUnorm,
        PixelFormat::Bc7RgbaUnormSrgb => TextureFormat::Bc7RgbaUnormSrgb,
        PixelFormat::Etc2Rgb8 => TextureFormat::Etc2RgbUnorm,
        PixelFormat::Etc2Rgb8Srgb => TextureFormat::Etc2RgbUnormSrgb,
        PixelFormat::Etc2Rgb8A1 => TextureFormat::Etc2RgbA1Unorm,
        PixelFormat::Etc2Rgb8A1Srgb => TextureFormat::Etc2RgbA1UnormSrgb,
        PixelFormat::EacR11Unorm => TextureFormat::EacRUnorm,
        PixelFormat::EacR11Snorm => TextureFormat::EacRSnorm,
        PixelFormat::EacRg11Unorm => TextureFormat::EacRgUnorm,
        PixelFormat::EacRg11Snorm => TextureFormat::EacRgSnorm,
        PixelFormat::Astc4x4Ldr => TextureFormat::Astc4x4RgbaUnorm,
        PixelFormat::Astc4x4Srgb => TextureFormat::Astc4x4RgbaUnormSrgb,
        PixelFormat::Astc5x4Ldr => TextureFormat::Astc5x4RgbaUnorm,
        PixelFormat::Astc5x4Srgb => TextureFormat::Astc5x4RgbaUnormSrgb,
        PixelFormat::Astc5x5Ldr => TextureFormat::Astc5x5RgbaUnorm,
        PixelFormat::Astc5x5Srgb => TextureFormat::Astc5x5RgbaUnormSrgb,
        PixelFormat::Astc6x5Ldr => TextureFormat::Astc6x5RgbaUnorm,
        PixelFormat::Astc6x5Srgb => TextureFormat::Astc6x5RgbaUnormSrgb,
        PixelFormat::Astc6x6Ldr => TextureFormat::Astc6x6RgbaUnorm,
        PixelFormat::Astc6x6Srgb => TextureFormat::Astc6x6RgbaUnormSrgb,
        PixelFormat::Astc8x5Ldr => TextureFormat::Astc8x5RgbaUnorm,
        PixelFormat::Astc8x5Srgb => TextureFormat::Astc8x5RgbaUnormSrgb,
        PixelFormat::Astc8x6Ldr => TextureFormat::Astc8x6RgbaUnorm,
        PixelFormat::Astc8x6Srgb => TextureFormat::Astc8x6RgbaUnormSrgb,
        PixelFormat::Astc8x8Ldr => TextureFormat::Astc10x5RgbaUnorm,
        PixelFormat::Astc8x8Srgb => TextureFormat::Astc10x5RgbaUnormSrgb,
        PixelFormat::Astc10x5Ldr => TextureFormat::Astc10x6RgbaUnorm,
        PixelFormat::Astc10x5Srgb => TextureFormat::Astc10x6RgbaUnormSrgb,
        PixelFormat::Astc10x6Ldr => TextureFormat::Astc8x8RgbaUnorm,
        PixelFormat::Astc10x6Srgb => TextureFormat::Astc8x8RgbaUnormSrgb,
        PixelFormat::Astc10x8Ldr => TextureFormat::Astc10x8RgbaUnorm,
        PixelFormat::Astc10x8Srgb => TextureFormat::Astc10x8RgbaUnormSrgb,
        PixelFormat::Astc10x10Ldr => TextureFormat::Astc10x10RgbaUnorm,
        PixelFormat::Astc10x10Srgb => TextureFormat::Astc10x10RgbaUnormSrgb,
        PixelFormat::Astc12x10Ldr => TextureFormat::Astc12x10RgbaUnorm,
        PixelFormat::Astc12x10Srgb => TextureFormat::Astc12x10RgbaUnormSrgb,
        PixelFormat::Astc12x12Ldr => TextureFormat::Astc12x12RgbaUnorm,
        PixelFormat::Astc12x12Srgb => TextureFormat::Astc12x12RgbaUnormSrgb,
    }
}

/// Every portable format other than the degradable 24-bit-plus depth format
/// is recovered from its native image: the mapping round-trips.
proof fn lemma_map_format_roundtrip(combined_depth_stencil: bool, format: TextureFormat)
    requires
        !(format is Depth24Plus),
    ensures
        spec_unmap_format(
            combined_depth_stencil,
            spec_map_format(combined_depth_stencil, format),
        ) == format,
{
}

/// The only portable formats that share a native format are the documented
/// depth fallbacks: with combined depth-stencil supported, the two 24-bit-
/// plus depth formats share the combined native format; without it, the
/// stencil-less 24-bit-plus depth format degrades onto 32-bit float depth.
pub proof fn lemma_map_format_injective(
    combined_depth_stencil: bool,
    format1: TextureFormat,
    format2: TextureFormat,
)
    requires
        format1 != format2,
        spec_map_format(combined_depth_stencil, format1) == spec_map_format(
            combined_depth_stencil,
            format2,
        ),
    ensures
        combined_depth_stencil ==> {
            ||| (format1 is Depth24Plus && format2 is Depth24PlusStencil8)
            ||| (format1 is Depth24PlusStencil8 && format2 is Depth24Plus)
        },
        !combined_depth_stencil ==> {
            ||| (format1 is Depth24Plus && format2 is Depth32Float)
            ||| (format1 is Depth32Float && format2 is Depth24Plus)
        },
{
    if !(format1 is Depth24Plus) && !(format2 is Depth24Plus) {
        lemma_map_format_roundtrip(combined_depth_stencil, format1);
        lemma_map_format_roundtrip(combined_depth_stencil, format2);
    } else if format1 is Depth24Plus {
        if !(format2 is Depth24Plus) {
            lemma_map_format_roundtrip(combined_depth_stencil, format2);
        }
    } else {
        lemma_map_format_roundtrip(combined_depth_stencil, format1);
    }
}

} // verus!
