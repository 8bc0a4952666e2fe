//! The Feature Set Projection: the portable high-level features the
//! descriptor exposes.
//!
//! Binding-array indexing is a strict two-tier ladder, not independent
//! flags: the base tier needs a minimum shading-language version and native
//! arrays-of-textures support; the mutable-storage tier needs an even higher
//! language version and write-capable arrays as well
//! ([`lemma_binding_array_ladder`]).

use vstd::prelude::*;

use crate::caps::{MslVersion, PrivateCapabilities};

verus! {

/// The portable feature set the adapter advertises.
#[derive(Clone, Copy, Debug, PartialEq, Eq, Structural)]
pub struct Features {
    pub depth_clamping: bool,
    pub texture_compression_bc: bool,
    pub mappable_primary_buffers: bool,
    pub vertex_writable_storage: bool,
    pub texture_adapter_specific_format_features: bool,
    pub polygon_mode_line: bool,
    pub clear_commands: bool,
    pub texture_binding_array: bool,
    pub sampled_texture_and_storage_buffer_array_non_uniform_indexing: bool,
    pub uniform_buffer_and_storage_texture_array_non_uniform_indexing: bool,
    pub storage_resource_binding_array: bool,
    pub address_mode_clamp_to_border: bool,
}

/// The base binding-array tier: texture binding arrays and non-uniform
/// indexing need the second-generation shading language and native
/// arrays-of-textures support.
pub open spec fn spec_texture_binding_array(pc: PrivateCapabilities) -> bool {
    pc.msl_version.rank() >= MslVersion::V2_0.rank() && pc.supports_arrays_of_textures
}

/// The stricter binding-array tier: mutable storage-resource binding arrays
/// need a higher shading-language version and write-capable
/// arrays-of-textures on top of the base tier's native support.
pub open spec fn spec_storage_resource_binding_array(pc: PrivateCapabilities) -> bool {
    pc.msl_version.rank() >= MslVersion::V2_2.rank() && pc.supports_arrays_of_textures
        && pc.supports_arrays_of_textures_write
}

impl PrivateCapabilities {
    /// Project the descriptor into the portable feature set.
    pub fn features(&self) -> (f: Features)
        ensures
            f.depth_clamping,
            f.texture_compression_bc,
            f.mappable_primary_buffers,
            f.vertex_writable_storage,
            f.texture_adapter_specific_format_features,
            f.polygon_mode_line,
            f.clear_commands,
            f.texture_binding_array == spec_texture_binding_array(*self),
            f.sampled_texture_and_storage_buffer_array_non_uniform_indexing
                == spec_texture_binding_array(*self),
            f.uniform_buffer_and_storage_texture_array_non_uniform_indexing
                == spec_texture_binding_array(*self),
            f.storage_resource_binding_array == spec_storage_resource_binding_array(*self),
            f.address_mode_clamp_to_border == self.sampler_clamp_to_border,
    {
        let binding_array = self.msl_version.at_least(MslVersion::V2_0)
            && self.supports_arrays_of_textures;
        let storage_binding_array = self.msl_version.at_least(MslVersion::V2_2)
            && self.supports_arrays_of_textures && self.supports_arrays_of_textures_write;
        Features {
            depth_clamping: true,
            texture_compression_bc: true,
            mappable_primary_buffers: true,
            vertex_writable_storage: true,
            texture_adapter_specific_format_features: true,
            polygon_mode_line: true,
            clear_commands: true,
            texture_binding_array: binding_array,
            sampled_texture_and_storage_buffer_array_non_uniform_indexing: binding_array,
            uniform_buffer_and_storage_texture_array_non_uniform_indexing: binding_array,
            storage_resource_binding_array: storage_binding_array,
            address_mode_clamp_to_border: self.sampler_clamp_to_border,
        }
    }
}

/// The binding-array tiers form a ladder: any descriptor that earns the
/// mutable storage-array tier has earned the base texture-array tier too.
pub proof fn lemma_binding_array_ladder(pc: PrivateCapabilities)
    ensures
        spec_storage_resource_binding_array(pc) ==> spec_texture_binding_array(pc),
{
}

} // verus!
