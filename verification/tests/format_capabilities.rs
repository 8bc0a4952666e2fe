//! The Format Capability Resolver, queried through an adapter.

use std::sync::Arc;

use metal_caps::adapter::{Adapter, AdapterShared};
use metal_caps::caps::PrivateCapabilities;
use metal_caps::device::{DeviceInfo, ReadWriteTextureTier};
use metal_caps::disabilities::PrivateDisabilities;
use metal_caps::formats::TextureFormat as Tf;
use metal_caps::formats::{TextureFormat, TextureFormatCapabilities};

fn mac_device() -> DeviceInfo {
    let mut info = DeviceInfo::default();
    info.feature_sets.mac_family1_v1 = true;
    info.feature_sets.mac_family1_v2 = true;
    info.feature_sets.mac_family1_v3 = true;
    info.feature_sets.mac_family1_v4 = true;
    info.feature_sets.mac_family2_v1 = true;
    info.families.mac1 = true;
    info.families.mac2 = true;
    info.raw_read_write_texture_tier = ReadWriteTextureTier::Tier2;
    info.d24_s8_supported = true;
    info.supports_sample_count_2 = true;
    info.supports_sample_count_8 = true;
    info.name = b"AMD Radeon Pro 560".to_vec();
    info
}

fn mobile_device() -> DeviceInfo {
    let mut info = DeviceInfo::default();
    info.feature_sets.ios_family1_v1 = true;
    info.feature_sets.ios_family2_v1 = true;
    info.feature_sets.ios_family3_v1 = true;
    info.feature_sets.ios_family4_v1 = true;
    info.families.apple3 = true;
    info.raw_read_write_texture_tier = ReadWriteTextureTier::Tier1;
    info.name = b"Apple A11 GPU".to_vec();
    info
}

fn adapter_for(private_caps: PrivateCapabilities) -> Adapter {
    Adapter::new(Arc::new(AdapterShared {
        private_caps,
        disabilities: PrivateDisabilities {
            broken_viewport_near_depth: false,
            broken_layered_clear_image: false,
        },
    }))
}

fn all_formats() -> Vec<TextureFormat> {
    vec![
        Tf::R8Unorm,
        Tf::R8Snorm,
        Tf::R8Uint,
        Tf::R8Sint,
        Tf::R16Uint,
        Tf::R16Sint,
        Tf::R16Float,
        Tf::Rg8Unorm,
        Tf::Rg8Snorm,
        Tf::Rg8Uint,
        Tf::Rg8Sint,
        Tf::R32Uint,
        Tf::R32Sint,
        Tf::R32Float,
        Tf::Rg16Uint,
        Tf::Rg16Sint,
        Tf::Rg16Float,
        Tf::Rgba8Unorm,
        Tf::Rgba8UnormSrgb,
        Tf::Rgba8Snorm,
        Tf::Rgba8Uint,
        Tf::Rgba8Sint,
        Tf::Bgra8Unorm,
        Tf::Bgra8UnormSrgb,
        Tf::Rgb10a2Unorm,
        Tf::Rg11b10Float,
        Tf::Rg32Uint,
        Tf::Rg32Sint,
        Tf::Rg32Float,
        Tf::Rgba16Uint,
        Tf::Rgba16Sint,
        Tf::Rgba16Float,
        Tf::Rgba32Uint,
        Tf::Rgba32Sint,
        Tf::Rgba32Float,
        Tf::Depth32Float,
        Tf::Depth24Plus,
        Tf::Depth24PlusStencil8,
        Tf::Rgb9e5Ufloat,
        Tf::Bc1RgbaUnorm,
        Tf::Bc1RgbaUnormSrgb,
        Tf::Bc2RgbaUnorm,
        Tf::Bc2RgbaUnormSrgb,
        Tf::Bc3RgbaUnorm,
        Tf::Bc3RgbaUnormSrgb,
        Tf::Bc4RUnorm,
        Tf::Bc4RSnorm,
        Tf::Bc5RgUnorm,
        Tf::Bc5RgSnorm,
        Tf::Bc6hRgbUfloat,
        Tf::Bc6hRgbSfloat,
        Tf::Bc7RgbaUnorm,
        Tf::Bc7RgbaUnormSrgb,
        Tf::Etc2RgbUnorm,
        Tf::Etc2RgbUnormSrgb,
        Tf::Etc2RgbA1Unorm,
        Tf::Etc2RgbA1UnormSrgb,
        Tf::EacRUnorm,
        Tf::EacRSnorm,
        Tf::EacRgUnorm,
        Tf::EacRgSnorm,
        Tf::Astc4x4RgbaUnorm,
        Tf::Astc4x4RgbaUnormSrgb,
        Tf::Astc5x4RgbaUnorm,
        Tf::Astc5x4RgbaUnormSrgb,
        Tf::Astc5x5RgbaUnorm,
        Tf::Astc5x5RgbaUnormSrgb,
        Tf::Astc6x5RgbaUnorm,
        Tf::Astc6x5RgbaUnormSrgb,
        Tf::Astc6x6RgbaUnorm,
        Tf::Astc6x6RgbaUnormSrgb,
        Tf::Astc8x5RgbaUnorm,
        Tf::Astc8x5RgbaUnormSrgb,
        Tf::Astc8x6RgbaUnorm,
        Tf::Astc8x6RgbaUnormSrgb,
        Tf::Astc10x5RgbaUnorm,
        Tf::Astc10x5RgbaUnormSrgb,
        Tf::Astc10x6RgbaUnorm,
        Tf::Astc10x6RgbaUnormSrgb,
        Tf::Astc8x8RgbaUnorm,
        Tf::Astc8x8RgbaUnormSrgb,
        Tf::Astc10x8RgbaUnorm,
        Tf::Astc10x8RgbaUnormSrgb,
        Tf::Astc10x10RgbaUnorm,
        Tf::Astc10x10RgbaUnormSrgb,
        Tf::Astc12x10RgbaUnorm,
        Tf::Astc12x10RgbaUnormSrgb,
        Tf::Astc12x12RgbaUnorm,
        Tf::Astc12x12RgbaUnormSrgb,
    ]
}

#[test]
fn every_format_keeps_the_base_flags() {
    let desktop = adapter_for(PrivateCapabilities::new(&mac_device(), 10, 15));
    let mobile = adapter_for(PrivateCapabilities::new(&mobile_device(), 13, 0));
    for format in all_formats() {
        for adapter in [&desktop, &mobile] {
            let c = adapter.texture_format_capabilities(format);
            assert!(c.copy_src, "{:?}", format);
            assert!(c.copy_dst, "{:?}", format);
            assert!(c.sampled, "{:?}", format);
        }
    }
}

#[test]
fn tier_two_descriptor_grants_r32_storage_read_write() {
    // A descriptor with the top read-write texture tier and full 32-bit
    // integer capability resolves R32Uint to exactly the base flags plus
    // storage read-write, storage and color-attachment.
    let pc = PrivateCapabilities::new(&mac_device(), 10, 15);
    assert_eq!(pc.read_write_texture_tier, ReadWriteTextureTier::Tier2);
    assert!(pc.format_r32_all);
    let adapter = adapter_for(pc);
    let c = adapter.texture_format_capabilities(TextureFormat::R32Uint);
    assert_eq!(
        c,
        TextureFormatCapabilities {
            copy_src: true,
            copy_dst: true,
            sampled: true,
            sampled_linear: false,
            storage_read_write: true,
            storage: true,
            color_attachment: true,
            color_attachment_blend: false,
            depth_stencil_attachment: false,
        }
    );
}

#[test]
fn r32_without_full_support_is_color_attachment_only() {
    let pc = PrivateCapabilities::new(&mobile_device(), 13, 0);
    assert!(!pc.format_r32_all);
    let adapter = adapter_for(pc);
    let c = adapter.texture_format_capabilities(TextureFormat::R32Uint);
    assert!(c.color_attachment);
    assert!(!c.storage);
    assert!(!c.storage_read_write);
    assert!(!c.sampled_linear);
}

#[test]
fn r32float_gating_has_three_outcomes() {
    // Fully capable on desktop-class hardware.
    let desktop = adapter_for(PrivateCapabilities::new(&mac_device(), 10, 15));
    let full = desktop.texture_format_capabilities(TextureFormat::R32Float);
    assert!(full.sampled_linear && full.storage && full.storage_read_write);
    assert!(full.color_attachment && full.color_attachment_blend);

    // The oldest mobile generations get neither storage nor filtering.
    let mobile = adapter_for(PrivateCapabilities::new(&mobile_device(), 13, 0));
    let bare = mobile.texture_format_capabilities(TextureFormat::R32Float);
    assert!(!bare.sampled_linear && !bare.storage && !bare.storage_read_write);
    assert!(bare.color_attachment && bare.color_attachment_blend);

    // Newer mobile hardware filters but still has no storage.
    let mut newer = mobile_device();
    newer.feature_sets.ios_family1_v1 = false;
    newer.feature_sets.ios_family2_v1 = false;
    let newer_adapter = adapter_for(PrivateCapabilities::new(&newer, 13, 0));
    let filter_only = newer_adapter.texture_format_capabilities(TextureFormat::R32Float);
    assert!(filter_only.sampled_linear);
    assert!(!filter_only.storage && !filter_only.storage_read_write);
    assert!(filter_only.color_attachment && filter_only.color_attachment_blend);
}

#[test]
fn compressed_formats_only_ever_gain_linear_filtering() {
    let desktop = adapter_for(PrivateCapabilities::new(&mac_device(), 10, 15));
    let mobile = adapter_for(PrivateCapabilities::new(&mobile_device(), 13, 0));

    // Block compression is desktop-only; ETC/ASTC are mobile-only.
    let bc_on_desktop = desktop.texture_format_capabilities(TextureFormat::Bc3RgbaUnorm);
    assert!(bc_on_desktop.sampled_linear);
    let bc_on_mobile = mobile.texture_format_capabilities(TextureFormat::Bc3RgbaUnorm);
    assert!(!bc_on_mobile.sampled_linear);
    let etc_on_mobile = mobile.texture_format_capabilities(TextureFormat::Etc2RgbUnorm);
    assert!(etc_on_mobile.sampled_linear);
    let astc_on_desktop = desktop.texture_format_capabilities(TextureFormat::Astc4x4RgbaUnorm);
    assert!(!astc_on_desktop.sampled_linear);

    for format in [
        TextureFormat::Bc3RgbaUnorm,
        TextureFormat::Etc2RgbUnorm,
        TextureFormat::Astc4x4RgbaUnorm,
    ] {
        for adapter in [&desktop, &mobile] {
            let c = adapter.texture_format_capabilities(format);
            assert!(!c.storage);
            assert!(!c.storage_read_write);
            assert!(!c.color_attachment);
            assert!(!c.depth_stencil_attachment);
        }
    }
}

#[test]
fn depth_formats_are_attachments() {
    let desktop = adapter_for(PrivateCapabilities::new(&mac_device(), 10, 15));
    let d24 = desktop.texture_format_capabilities(TextureFormat::Depth24Plus);
    assert!(d24.depth_stencil_attachment && d24.sampled_linear);
    let d32 = desktop.texture_format_capabilities(TextureFormat::Depth32Float);
    assert!(d32.depth_stencil_attachment && d32.sampled_linear);

    // Mobile hardware cannot filter 32-bit float depth.
    let mobile = adapter_for(PrivateCapabilities::new(&mobile_device(), 13, 0));
    let d32_mobile = mobile.texture_format_capabilities(TextureFormat::Depth32Float);
    assert!(d32_mobile.depth_stencil_attachment && !d32_mobile.sampled_linear);
}

#[test]
fn resolver_is_idempotent_for_a_fixed_descriptor() {
    let adapter = adapter_for(PrivateCapabilities::new(&mac_device(), 10, 15));
    for format in all_formats() {
        let first = adapter.texture_format_capabilities(format);
        let second = adapter.texture_format_capabilities(format);
        assert_eq!(first, second, "{:?}", format);
    }
}

#[test]
fn srgb_storage_is_gated_on_full_srgb_support() {
    // Desktop-class hardware lacks full sRGB writes for these.
    let desktop = adapter_for(PrivateCapabilities::new(&mac_device(), 10, 15));
    let c = desktop.texture_format_capabilities(TextureFormat::Rgba8UnormSrgb);
    assert!(!c.storage);
    assert!(c.sampled_linear && c.color_attachment && c.color_attachment_blend);

    // A mobile generation with full sRGB support gains storage.
    let mut info = mobile_device();
    info.feature_sets.ios_family3_v1 = true;
    let mobile = adapter_for(PrivateCapabilities::new(&info, 13, 0));
    let c = mobile.texture_format_capabilities(TextureFormat::Rgba8UnormSrgb);
    assert!(c.storage);
}
