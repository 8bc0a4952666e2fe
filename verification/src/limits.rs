//! The Limits Projection: the portable numeric limits, alignments and
//! downlevel flags the adapter advertises.
//!
//! Hardware-variable values (texture sizes, buffer sizes, alignments,
//! sampler counts) come from the capability descriptor; the rest are the
//! portable defaults, kept because the native API has no discoverable
//! variability there.

use vstd::prelude::*;

use crate::caps::PrivateCapabilities;

verus! {

/// The portable numeric limits record.
#[derive(Clone, Copy, Debug, PartialEq, Eq, Structural)]
pub struct Limits {
    pub max_texture_dimension_1d: u32,
    pub max_texture_dimension_2d: u32,
    pub max_texture_dimension_3d: u32,
    pub max_texture_array_layers: u32,
    pub max_bind_groups: u32,
    pub max_dynamic_uniform_buffers_per_pipeline_layout: u32,
    pub max_dynamic_storage_buffers_per_pipeline_layout: u32,
    pub max_sampled_textures_per_shader_stage: u32,
    pub max_samplers_per_shader_stage: u32,
    pub max_storage_buffers_per_shader_stage: u32,
    pub max_storage_textures_per_shader_stage: u32,
    pub max_uniform_buffers_per_shader_stage: u32,
    pub max_uniform_buffer_binding_size: u32,
    pub max_storage_buffer_binding_size: u32,
    pub max_vertex_buffers: u32,
    pub max_vertex_attributes: u32,
    pub max_vertex_buffer_array_stride: u32,
    pub max_push_constant_size: u32,
    pub min_uniform_buffer_offset_alignment: u32,
    pub min_storage_buffer_offset_alignment: u32,
}

/// Buffer-copy placement alignments, in bytes; both are always positive.
#[derive(Clone, Copy, Debug, PartialEq, Eq, Structural)]
pub struct Alignments {
    pub buffer_copy_offset: u64,
    pub buffer_copy_pitch: u64,
}

/// The downlevel flags this backend decides; every other downlevel flag
/// keeps its portable default.
#[derive(Clone, Copy, Debug, PartialEq, Eq, Structural)]
pub struct DownlevelCapabilities {
    pub cube_array_textures: bool,
    pub comparison_samplers: bool,
    pub anisotropic_filtering: bool,
}

/// The adapter-capabilities record handed to the feature-negotiation layer.
#[derive(Clone, Copy, Debug, PartialEq, Eq, Structural)]
pub struct Capabilities {
    pub limits: Limits,
    pub alignments: Alignments,
    pub downlevel: DownlevelCapabilities,
}

/// The portable default limits the projection copies unchanged.
struct PortableDefaultLimits {
    max_dynamic_uniform_buffers_per_pipeline_layout: u32,
    max_dynamic_storage_buffers_per_pipeline_layout: u32,
    max_sampled_textures_per_shader_stage: u32,
    max_storage_buffers_per_shader_stage: u32,
    max_storage_textures_per_shader_stage: u32,
    max_vertex_buffers: u32,
    max_vertex_attributes: u32,
    max_vertex_buffer_array_stride: u32,
}

/// Relies on `wgpu_types::Limits::default`: the portable default limits
/// record, whose values are fixed constants in its source.
#[verifier::external_body]
fn portable_default_limits() -> (base: PortableDefaultLimits)
    ensures
        base.max_dynamic_uniform_buffers_per_pipeline_layout == 8,
        base.max_dynamic_storage_buffers_per_pipeline_layout == 4,
        base.max_sampled_textures_per_shader_stage == 16,
        base.max_storage_buffers_per_shader_stage == 8,
        base.max_storage_textures_per_shader_stage == 8,
        base.max_vertex_buffers == 8,
        base.max_vertex_attributes == 16,
        base.max_vertex_buffer_array_stride == 2048,
{
    let l = wgpu_types::Limits::default();
    PortableDefaultLimits {
        max_dynamic_uniform_buffers_per_pipeline_layout:
            l.max_dynamic_uniform_buffers_per_pipeline_layout,
        max_dynamic_storage_buffers_per_pipeline_layout:
            l.max_dynamic_storage_buffers_per_pipeline_layout,
        max_sampled_textures_per_shader_stage: l.max_sampled_textures_per_shader_stage,
        max_storage_buffers_per_shader_stage: l.max_storage_buffers_per_shader_stage,
        max_storage_textures_per_shader_stage: l.max_storage_textures_per_shader_stage,
        max_vertex_buffers: l.max_vertex_buffers,
        max_vertex_attributes: l.max_vertex_attributes,
        max_vertex_buffer_array_stride: l.max_vertex_buffer_array_stride,
    }
}

/// A byte size clamped into a 32-bit field: sizes past the field's range
/// saturate at its maximum.
pub open spec fn spec_clamped_binding_size(size: u64) -> u32 {
    if size >= 0xFFFF_FFFF {
        0xFFFF_FFFFu32
    } else {
        size as u32
    }
}

impl PrivateCapabilities {
    /// The Limits Projection: project the descriptor into the portable
    /// adapter-capabilities record.
    ///
    /// The probe always assigns a positive buffer alignment; the projection
    /// asks for one so the copy alignments it hands out are positive.
    pub fn capabilities(&self) -> (caps: Capabilities)
        requires
            self.buffer_alignment >= 1,
        ensures
            caps.limits.max_texture_dimension_1d == self.max_texture_size as u32,
            caps.limits.max_texture_dimension_2d == self.max_texture_size as u32,
            caps.limits.max_texture_dimension_3d == self.max_texture_3d_size as u32,
            caps.limits.max_texture_array_layers == self.max_texture_layers as u32,
            caps.limits.max_bind_groups == 8,
            caps.limits.max_dynamic_uniform_buffers_per_pipeline_layout == 8,
            caps.limits.max_dynamic_storage_buffers_per_pipeline_layout == 4,
            caps.limits.max_sampled_textures_per_shader_stage == 16,
            caps.limits.max_samplers_per_shader_stage == self.max_samplers_per_stage,
            caps.limits.max_storage_buffers_per_shader_stage == 8,
            caps.limits.max_storage_textures_per_shader_stage == 8,
            caps.limits.max_uniform_buffers_per_shader_stage == 12,
            caps.limits.max_uniform_buffer_binding_size == spec_clamped_binding_size(
                self.max_buffer_size,
            ),
            caps.limits.max_storage_buffer_binding_size == spec_clamped_binding_size(
                self.max_buffer_size,
            ),
            caps.limits.max_vertex_buffers == 8,
            caps.limits.max_vertex_attributes == 16,
            caps.limits.max_vertex_buffer_array_stride == 2048,
            caps.limits.max_push_constant_size == 0x1000,
            caps.limits.min_uniform_buffer_offset_alignment == self.buffer_alignment as u32,
            caps.limits.min_storage_buffer_offset_alignment == self.buffer_alignment as u32,
            caps.alignments.buffer_copy_offset == self.buffer_alignment,
            caps.alignments.buffer_copy_pitch == 4,
            caps.alignments.buffer_copy_offset >= 1,
            caps.downlevel.cube_array_textures == self.texture_cube_array,
            caps.downlevel.comparison_samplers == self.mutable_comparison_samplers,
            caps.downlevel.anisotropic_filtering,
    {
        let base = portable_default_limits();
        let binding_size: u32 = if self.max_buffer_size >= 0xFFFF_FFFF {
            0xFFFF_FFFFu32
        } else {
            self.max_buffer_size as u32
        };
        Capabilities {
            limits: Limits {
                max_texture_dimension_1d: #[verifier::truncate] (self.max_texture_size as u32),
                max_texture_dimension_2d: #[verifier::truncate] (self.max_texture_size as u32),
                max_texture_dimension_3d: #[verifier::truncate] (self.max_texture_3d_size
                    as u32),
                max_texture_array_layers: #[verifier::truncate] (self.max_texture_layers
                    as u32),
                max_bind_groups: 8,
                max_dynamic_uniform_buffers_per_pipeline_layout:
                    base.max_dynamic_uniform_buffers_per_pipeline_layout,
                max_dynamic_storage_buffers_per_pipeline_layout:
                    base.max_dynamic_storage_buffers_per_pipeline_layout,
                max_sampled_textures_per_shader_stage:
                    base.max_sampled_textures_per_shader_stage,
                max_samplers_per_shader_stage: self.max_samplers_per_stage,
                max_storage_buffers_per_shader_stage: base.max_storage_buffers_per_shader_stage,
                max_storage_textures_per_shader_stage:
                    base.max_storage_textures_per_shader_stage,
                max_uniform_buffers_per_shader_stage: 12,
                max_uniform_buffer_binding_size: binding_size,
                max_storage_buffer_binding_size: binding_size,
                max_vertex_buffers: base.max_vertex_buffers,
                max_vertex_attributes: base.max_vertex_attributes,
                max_vertex_buffer_array_stride: base.max_vertex_buffer_array_stride,
                max_push_constant_size: 0x1000,
                min_uniform_buffer_offset_alignment: #[verifier::truncate] (
                self.buffer_alignment as u32),
                min_storage_buffer_offset_alignment: #[verifier::truncate] (
                self.buffer_alignment as u32),
            },
            alignments: Alignments {
                buffer_copy_offset: self.buffer_alignment,
                buffer_copy_pitch: 4,
            },
            downlevel: DownlevelCapabilities {
                cube_array_textures: self.texture_cube_array,
                comparison_samplers: self.mutable_comparison_samplers,
                anisotropic_filtering: true,
            },
        }
    }
}

} // verus!
