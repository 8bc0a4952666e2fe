//! Known-bad hardware workaround flags.
//!
//! The probe matches the device's reported vendor name against known-bad
//! vendor prefixes and combines the match with a hardware-tier check. The
//! flags steer callers around broken driver paths; they are never surfaced
//! as errors.

use vstd::prelude::*;

use crate::device::DeviceInfo;
use crate::tiers::FeatureSet;

verus! {

broadcast use vstd::array::group_array_axioms;

/// The vendor-name prefix of the integrated GPUs the workarounds target:
/// the bytes of "Intel" in ASCII.
pub const INTEL_VENDOR_PREFIX: [u8; 5] = [0x49, 0x6e, 0x74, 0x65, 0x6c];

/// `name` begins with `prefix`.
pub open spec fn spec_starts_with(name: Seq<u8>, prefix: Seq<u8>) -> bool {
    name.len() >= prefix.len() && (forall|i: int| 0 <= i < prefix.len() ==> name[i] == prefix[i])
}

/// Executable form of [`spec_starts_with`].
pub fn starts_with(name: &Vec<u8>, prefix: &[u8]) -> (r: bool)
    ensures
        r == spec_starts_with(name@, prefix@),
{
    if name.len() < prefix.len() {
        return false;
    }
    let mut i: usize = 0;
    while i < prefix.len()
        invariant
            0 <= i <= prefix@.len(),
            prefix@.len() <= name@.len(),
            forall|j: int| 0 <= j < i ==> name@[j] == prefix@[j],
        decreases prefix@.len() - i,
    {
        if name[i] != prefix[i] {
            return false;
        }
        i = i + 1;
    }
    true
}

/// The device identifies as one of the integrated GPUs with known driver
/// defects.
pub open spec fn spec_is_intel(name: Seq<u8>) -> bool {
    spec_starts_with(name, INTEL_VENDOR_PREFIX@)
}

/// Workaround flags for known hardware/driver defects, computed once
/// alongside the capability descriptor and never re-derived.
#[derive(Clone, Copy, Debug, PartialEq, Eq, Structural)]
pub struct PrivateDisabilities {
    /// Near-depth computation in viewport transforms is broken.
    pub broken_viewport_near_depth: bool,
    /// Clearing layered render-target images is broken.
    pub broken_layered_clear_image: bool,
}

impl PrivateDisabilities {
    /// The Disabilities Probe: derive the workaround flags from the device's
    /// vendor name and hardware tier.
    pub fn new(info: &DeviceInfo) -> (d: Self)
        ensures
            d.broken_viewport_near_depth == (spec_is_intel(info.name@)
                && !info.feature_sets.supports(FeatureSet::MacFamily1V4)),
            d.broken_layered_clear_image == spec_is_intel(info.name@),
    {
        let is_intel = starts_with(&info.name, INTEL_VENDOR_PREFIX.as_slice());
        PrivateDisabilities {
            broken_viewport_near_depth: is_intel && !info.feature_sets.supports_feature_set(
                FeatureSet::MacFamily1V4,
            ),
            broken_layered_clear_image: is_intel,
        }
    }
}

} // verus!
