//! The plain-value record of everything the capability probe reads from a
//! physical device.
//!
//! The probe never talks to the native API itself: the embedding program
//! performs the raw queries (feature-set membership, GPU-family membership,
//! the read-write texture tier, sample-count probes, the device name) once,
//! fills a [`DeviceInfo`], and hands it in. A query that failed natively is
//! reported as "not supported", never as an error.

use vstd::prelude::*;

use crate::tiers::FeatureSetSupport;

verus! {

/// A modern GPU-family identifier, as distinct from the legacy feature sets
/// in [`crate::tiers::FeatureSet`].
#[derive(Clone, Copy, Debug, PartialEq, Eq, Structural)]
pub enum GpuFamily {
    Apple3,
    Apple6,
    Mac1,
    Mac2,
    MacCatalyst1,
    MacCatalyst2,
}

/// The device's answers to every GPU-family membership query the probe makes.
#[derive(Clone, Copy, Debug, PartialEq, Eq, Structural)]
pub struct GpuFamilySupport {
    pub apple3: bool,
    pub apple6: bool,
    pub mac1: bool,
    pub mac2: bool,
    pub mac_catalyst1: bool,
    pub mac_catalyst2: bool,
}

impl GpuFamilySupport {
    /// Whether the device reported membership in the given GPU family.
    pub open spec fn supports(self, family: GpuFamily) -> bool {
        match family {
            GpuFamily::Apple3 => self.apple3,
            GpuFamily::Apple6 => self.apple6,
            GpuFamily::Mac1 => self.mac1,
            GpuFamily::Mac2 => self.mac2,
            GpuFamily::MacCatalyst1 => self.mac_catalyst1,
            GpuFamily::MacCatalyst2 => self.mac_catalyst2,
        }
    }

    /// Executable form of [`GpuFamilySupport::supports`].
    pub fn supports_family(&self, family: GpuFamily) -> (r: bool)
        ensures
            r == self.supports(family),
    {
        match family {
            GpuFamily::Apple3 => self.apple3,
            GpuFamily::Apple6 => self.apple6,
            GpuFamily::Mac1 => self.mac1,
            GpuFamily::Mac2 => self.mac2,
            GpuFamily::MacCatalyst1 => self.mac_catalyst1,
            GpuFamily::MacCatalyst2 => self.mac_catalyst2,
        }
    }
}

impl Default for GpuFamilySupport {
    /// The empty report: a device that affirmed no GPU-family membership.
    fn default() -> (s: Self)
        ensures
            forall|family: GpuFamily| !s.supports(family),
    {
        GpuFamilySupport {
            apple3: false,
            apple6: false,
            mac1: false,
            mac2: false,
            mac_catalyst1: false,
            mac_catalyst2: false,
        }
    }
}

/// The hardware read-write texture tier: how capable storage textures are of
/// being both read and written in one shader function.
#[derive(Clone, Copy, Debug, PartialEq, Eq, Structural)]
pub enum ReadWriteTextureTier {
    TierNone,
    Tier1,
    Tier2,
}

impl ReadWriteTextureTier {
    /// The tier grants tier-1 access when it is tier 1 or tier 2.
    pub open spec fn grants_tier1(self) -> bool {
        self is Tier1 || self is Tier2
    }

    /// The tier grants tier-2 access only at tier 2.
    pub open spec fn grants_tier2(self) -> bool {
        self is Tier2
    }
}

/// Everything the capability probe reads from one physical device, as plain
/// values. Filled once at adapter-discovery time; the probe is a pure
/// function of this record and the OS version.
#[derive(Clone, Debug)]
pub struct DeviceInfo {
    /// Feature-set membership answers.
    pub feature_sets: FeatureSetSupport,
    /// GPU-family membership answers.
    pub families: GpuFamilySupport,
    /// The read-write texture tier the device itself reports. The probe gates
    /// it behind an OS-version threshold before trusting it.
    pub raw_read_write_texture_tier: ReadWriteTextureTier,
    /// Whether the device is a low-power (integrated) GPU.
    pub is_low_power: bool,
    /// Whether the device drives no display.
    pub is_headless: bool,
    /// Whether the device supports the combined 24-bit-depth/8-bit-stencil
    /// pixel format.
    pub d24_s8_supported: bool,
    /// Whether the device supports 2x multisampling (1x and 4x are universal).
    pub supports_sample_count_2: bool,
    /// Whether the device supports 8x multisampling.
    pub supports_sample_count_8: bool,
    /// The device name the driver reports, as bytes; the workaround probe
    /// matches known-bad vendor prefixes against it.
    pub name: Vec<u8>,
}

impl Default for DeviceInfo {
    /// A device that answered no to every query: no tier memberships, no
    /// read-write texture support, no extra sample counts, an empty name.
    fn default() -> (info: Self)
        ensures
            forall|set: crate::tiers::FeatureSet| !info.feature_sets.supports(set),
            forall|family: GpuFamily| !info.families.supports(family),
            info.raw_read_write_texture_tier is TierNone,
            !info.is_low_power,
            !info.is_headless,
            !info.d24_s8_supported,
            !info.supports_sample_count_2,
            !info.supports_sample_count_8,
            info.name@ == Seq::<u8>::empty(),
    {
        DeviceInfo {
            feature_sets: Default::default(),
            families: Default::default(),
            raw_read_write_texture_tier: ReadWriteTextureTier::TierNone,
            is_low_power: false,
            is_headless: false,
            d24_s8_supported: false,
            supports_sample_count_2: false,
            supports_sample_count_8: false,
            name: Vec::new(),
        }
    }
}

} // verus!
