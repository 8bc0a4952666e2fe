//! The portable-to-native Format Mapping Table.

use metal_caps::caps::PrivateCapabilities;
use metal_caps::device::{DeviceInfo, ReadWriteTextureTier};
use metal_caps::formats::TextureFormat as Tf;
use metal_caps::formats::{PixelFormat, TextureFormat};

fn mac_device() -> DeviceInfo {
    let mut info = DeviceInfo::default();
    info.feature_sets.mac_family1_v1 = true;
    info.feature_sets.mac_family1_v2 = true;
    info.feature_sets.mac_family1_v3 = true;
    info.feature_sets.mac_family1_v4 = true;
    info.feature_sets.mac_family2_v1 = true;
    info.families.mac1 = true;
    info.raw_read_write_texture_tier = ReadWriteTextureTier::Tier2;
    info.d24_s8_supported = true;
    info.name = b"AMD Radeon Pro 560".to_vec();
    info
}

fn all_formats() -> Vec<TextureFormat> {
    vec![
        Tf::R8Unorm,
        Tf::R8Snorm,
        Tf::R8Uint,
        Tf::R8Sint,
        Tf::R16Uint,
        Tf::R16Sint,
        Tf::R16Float,
        Tf::Rg8Unorm,
        Tf::Rg8Snorm,
        Tf::Rg8Uint,
        Tf::Rg8Sint,
        Tf::R32Uint,
        Tf::R32Sint,
        Tf::R32Float,
        Tf::Rg16Uint,
        Tf::Rg16Sint,
        Tf::Rg16Float,
        Tf::Rgba8Unorm,
        Tf::Rgba8UnormSrgb,
        Tf::Rgba8Snorm,
        Tf::Rgba8Uint,
        Tf::Rgba8Sint,
        Tf::Bgra8Unorm,
        Tf::Bgra8UnormSrgb,
        Tf::Rgb10a2Unorm,
        Tf::Rg11b10Float,
        Tf::Rg32Uint,
        Tf::Rg32Sint,
        Tf::Rg32Float,
        Tf::Rgba16Uint,
        Tf::Rgba16Sint,
        Tf::Rgba16Float,
        Tf::Rgba32Uint,
        Tf::Rgba32Sint,
        Tf::Rgba32Float,
        Tf::Depth32Float,
        Tf::Depth24Plus,
        Tf::Depth24PlusStencil8,
        Tf::Rgb9e5Ufloat,
        Tf::Bc1RgbaUnorm,
        Tf::Bc1RgbaUnormSrgb,
        Tf::Bc2RgbaUnorm,
        Tf::Bc2RgbaUnormSrgb,
        Tf::Bc3RgbaUnorm,
        Tf::Bc3RgbaUnormSrgb,
        Tf::Bc4RUnorm,
        Tf::Bc4RSnorm,
        Tf::Bc5RgUnorm,
        Tf::Bc5RgSnorm,
        Tf::Bc6hRgbUfloat,
        Tf::Bc6hRgbSfloat,
        Tf::Bc7RgbaUnorm,
        Tf::Bc7RgbaUnormSrgb,
        Tf::Etc2RgbUnorm,
        Tf::Etc2RgbUnormSrgb,
        Tf::Etc2RgbA1Unorm,
        Tf::Etc2RgbA1UnormSrgb,
        Tf::EacRUnorm,
        Tf::EacRSnorm,
        Tf::EacRgUnorm,
        Tf::EacRgSnorm,
        Tf::Astc4x4RgbaUnorm,
        Tf::Astc4x4RgbaUnormSrgb,
        Tf::Astc5x4RgbaUnorm,
        Tf::Astc5x4RgbaUnormSrgb,
        Tf::Astc5x5RgbaUnorm,
        Tf::Astc5x5RgbaUnormSrgb,
        Tf::Astc6x5RgbaUnorm,
        Tf::Astc6x5RgbaUnormSrgb,
        Tf::Astc6x6RgbaUnorm,
        Tf::Astc6x6RgbaUnormSrgb,
        Tf::Astc8x5RgbaUnorm,
        Tf::Astc8x5RgbaUnormSrgb,
        Tf::Astc8x6RgbaUnorm,
        Tf::Astc8x6RgbaUnormSrgb,
        Tf::Astc10x5RgbaUnorm,
        Tf::Astc10x5RgbaUnormSrgb,
        Tf::Astc10x6RgbaUnorm,
        Tf::Astc10x6RgbaUnormSrgb,
        Tf::Astc8x8RgbaUnorm,
        Tf::Astc8x8RgbaUnormSrgb,
        Tf::Astc10x8RgbaUnorm,
        Tf::Astc10x8RgbaUnormSrgb,
        Tf::Astc10x10RgbaUnorm,
        Tf::Astc10x10RgbaUnormSrgb,
        Tf::Astc12x10RgbaUnorm,
        Tf::Astc12x10RgbaUnormSrgb,
        Tf::Astc12x12RgbaUnorm,
        Tf::Astc12x12RgbaUnormSrgb,
    ]
}

fn caps_with_combined_depth_stencil(supported: bool) -> PrivateCapabilities {
    let mut info = mac_device();
    info.d24_s8_supported = supported;
    PrivateCapabilities::new(&info, 10, 15)
}

#[test]
fn unconditional_pairings_are_exact() {
    let pc = caps_with_combined_depth_stencil(true);
    assert_eq!(pc.map_format(TextureFormat::R8Unorm), PixelFormat::R8Unorm);
    assert_eq!(pc.map_format(TextureFormat::Rgba8UnormSrgb), PixelFormat::Rgba8UnormSrgb);
    assert_eq!(pc.map_format(TextureFormat::Bgra8Unorm), PixelFormat::Bgra8Unorm);
    assert_eq!(pc.map_format(TextureFormat::Rgb9e5Ufloat), PixelFormat::Rgb9e5Float);
    assert_eq!(pc.map_format(TextureFormat::Bc6hRgbSfloat), PixelFormat::Bc6hRgbFloat);
    assert_eq!(pc.map_format(TextureFormat::Bc6hRgbUfloat), PixelFormat::Bc6hRgbUfloat);
    assert_eq!(pc.map_format(TextureFormat::EacRUnorm), PixelFormat::EacR11Unorm);
    assert_eq!(pc.map_format(TextureFormat::EacRgSnorm), PixelFormat::EacRg11Snorm);
    assert_eq!(pc.map_format(TextureFormat::Rgba32Float), PixelFormat::Rgba32Float);
    assert_eq!(pc.map_format(TextureFormat::Depth32Float), PixelFormat::Depth32Float);
}

#[test]
fn astc_pairings_follow_the_table() {
    let pc = caps_with_combined_depth_stencil(true);
    assert_eq!(pc.map_format(TextureFormat::Astc4x4RgbaUnorm), PixelFormat::Astc4x4Ldr);
    assert_eq!(pc.map_format(TextureFormat::Astc10x5RgbaUnorm), PixelFormat::Astc8x8Ldr);
    assert_eq!(pc.map_format(TextureFormat::Astc10x6RgbaUnorm), PixelFormat::Astc10x5Ldr);
    assert_eq!(pc.map_format(TextureFormat::Astc8x8RgbaUnorm), PixelFormat::Astc10x6Ldr);
    assert_eq!(pc.map_format(TextureFormat::Astc12x12RgbaUnormSrgb), PixelFormat::Astc12x12Srgb);
}

#[test]
fn depth_formats_use_combined_depth_stencil_when_supported() {
    let pc = caps_with_combined_depth_stencil(true);
    assert_eq!(pc.map_format(TextureFormat::Depth24Plus), PixelFormat::Depth24UnormStencil8);
    assert_eq!(
        pc.map_format(TextureFormat::Depth24PlusStencil8),
        PixelFormat::Depth24UnormStencil8
    );
}

#[test]
fn depth_formats_degrade_without_combined_depth_stencil() {
    // Without the combined 24/8 format, the mapping falls back to the
    // 32-bit float depth family and never yields the combined format.
    let pc = caps_with_combined_depth_stencil(false);
    assert_eq!(pc.map_format(TextureFormat::Depth24Plus), PixelFormat::Depth32Float);
    let mapped = pc.map_format(TextureFormat::Depth24PlusStencil8);
    assert_eq!(mapped, PixelFormat::Depth32FloatStencil8);
    assert_ne!(mapped, PixelFormat::Depth24UnormStencil8);
}

#[test]
fn mapping_is_total_and_idempotent() {
    let pc = caps_with_combined_depth_stencil(true);
    for format in all_formats() {
        let first = pc.map_format(format);
        let second = pc.map_format(format);
        assert_eq!(first, second, "{:?}", format);
    }
}

#[test]
fn only_the_depth_fallbacks_collapse() {
    // Pairwise over the whole enumeration: distinct portable formats map to
    // distinct native formats, except the documented depth collapses.
    for supported in [true, false] {
        let pc = caps_with_combined_depth_stencil(supported);
        let formats = all_formats();
        for (i, &f1) in formats.iter().enumerate() {
            for &f2 in formats.iter().skip(i + 1) {
                if pc.map_format(f1) == pc.map_format(f2) {
                    let pair_is_depth_fallback = if supported {
                        matches!(
                            (f1, f2),
                            (TextureFormat::Depth24Plus, TextureFormat::Depth24PlusStencil8)
                                | (TextureFormat::Depth24PlusStencil8, TextureFormat::Depth24Plus)
                        )
                    } else {
                        matches!(
                            (f1, f2),
                            (TextureFormat::Depth24Plus, TextureFormat::Depth32Float)
                                | (TextureFormat::Depth32Float, TextureFormat::Depth24Plus)
                        )
                    };
                    assert!(pair_is_depth_fallback, "{:?} and {:?} collapsed", f1, f2);
                }
            }
        }
    }
}
