//! Surface configuration facts: the capability answers a
//! surface-configuration step needs, projected from the descriptor.
//!
//! The current drawable extent can only be read on the platform's main
//! thread; the embedding program makes that check and hands the result in as
//! an `Option`, so the projection itself stays pure.

use vstd::prelude::*;

use crate::adapter::Adapter;
use crate::formats::TextureFormat;

verus! {

/// A texture extent in texels and layers.
#[derive(Clone, Copy, Debug, PartialEq, Eq, Structural)]
pub struct Extent3d {
    pub width: u32,
    pub height: u32,
    pub depth_or_array_layers: u32,
}

/// A presentation scheduling mode.
#[derive(Clone, Copy, Debug, PartialEq, Eq, Structural)]
pub enum PresentMode {
    Fifo,
    Immediate,
}

/// How surface alpha is composited with other windows.
#[derive(Clone, Copy, Debug, PartialEq, Eq, Structural)]
pub enum CompositeAlphaMode {
    Opaque,
    PreMultiplied,
    PostMultiplied,
}

/// What a surface built on this adapter supports.
#[derive(Clone, Debug, PartialEq, Eq)]
pub struct SurfaceCapabilities {
    /// The surface formats, in order of preference.
    pub formats: Vec<TextureFormat>,
    /// The smallest permitted swap-chain length.
    pub swap_chain_size_min: u32,
    /// The largest permitted swap-chain length.
    pub swap_chain_size_max: u32,
    /// The presentation modes available.
    pub present_modes: Vec<PresentMode>,
    /// The alpha composition modes available.
    pub composite_alpha_modes: Vec<CompositeAlphaMode>,
    /// The drawable's current extent, when it could be read.
    pub current_extent: Option<Extent3d>,
    /// The smallest configurable extent.
    pub extent_min: Extent3d,
    /// The largest configurable extent.
    pub extent_max: Extent3d,
    /// The surface can be used as a color render target.
    pub usage_color_target: bool,
}

impl Adapter {
    /// The surface-capability projection: pure facts from the descriptor,
    /// plus the current extent the embedding program read (or could not
    /// read) on the main thread.
    pub fn surface_capabilities(&self, current_extent: Option<Extent3d>) -> (sc:
        SurfaceCapabilities)
        ensures
            sc.formats@ == seq![
                TextureFormat::Bgra8Unorm,
                TextureFormat::Bgra8UnormSrgb,
                TextureFormat::Rgba16Float,
            ],
            sc.swap_chain_size_min == (if self.shared.private_caps.can_set_maximum_drawables_count {
                2u32
            } else {
                3u32
            }),
            sc.swap_chain_size_max == 3,
            sc.present_modes@ == (if self.shared.private_caps.can_set_display_sync {
                seq![PresentMode::Fifo, PresentMode::Immediate]
            } else {
                seq![PresentMode::Fifo]
            }),
            sc.composite_alpha_modes@ == seq![
                CompositeAlphaMode::Opaque,
                CompositeAlphaMode::PreMultiplied,
                CompositeAlphaMode::PostMultiplied,
            ],
            sc.current_extent == current_extent,
            sc.extent_min == (Extent3d { width: 4, height: 4, depth_or_array_layers: 1 }),
            sc.extent_max == (Extent3d {
                width: 4096,
                height: 4096,
                depth_or_array_layers: 1,
            }),
            sc.usage_color_target,
    {
        let pc = &self.shared.private_caps;

        let mut formats: Vec<TextureFormat> = Vec::new();
        formats.push(TextureFormat::Bgra8Unorm);
        formats.push(TextureFormat::Bgra8UnormSrgb);
        formats.push(TextureFormat::Rgba16Float);
        proof {
            assert(formats@ =~= seq![
                TextureFormat::Bgra8Unorm,
                TextureFormat::Bgra8UnormSrgb,
                TextureFormat::Rgba16Float,
            ]);
        }

        let mut present_modes: Vec<PresentMode> = Vec::new();
        present_modes.push(PresentMode::Fifo);
        if pc.can_set_display_sync {
            present_modes.push(PresentMode::Immediate);
            proof {
                assert(present_modes@ =~= seq![PresentMode::Fifo, PresentMode::Immediate]);
            }
        } else {
            proof {
                assert(present_modes@ =~= seq![PresentMode::Fifo]);
            }
        }

        let mut composite_alpha_modes: Vec<CompositeAlphaMode> = Vec::new();
        composite_alpha_modes.push(CompositeAlphaMode::Opaque);
        composite_alpha_modes.push(CompositeAlphaMode::PreMultiplied);
        composite_alpha_modes.push(CompositeAlphaMode::PostMultiplied);
        proof {
            assert(composite_alpha_modes@ =~= seq![
                CompositeAlphaMode::Opaque,
                CompositeAlphaMode::PreMultiplied,
                CompositeAlphaMode::PostMultiplied,
            ]);
        }

        SurfaceCapabilities {
            formats,
            // The swap-chain length window is fixed by the native layer: it
            // defaults to 3 drawables, and only devices that can lower the
            // maximum drawable count may go down to 2.
            swap_chain_size_min: if pc.can_set_maximum_drawables_count {
                2
            } else {
                3
            },
            swap_chain_size_max: 3,
            present_modes,
            composite_alpha_modes,
            current_extent,
            extent_min: Extent3d { width: 4, height: 4, depth_or_array_layers: 1 },
            extent_max: Extent3d { width: 4096, height: 4096, depth_or_array_layers: 1 },
            usage_color_target: true,
        }
    }
}

} // verus!
