//! Capability probing and pixel-format translation for a Metal-class
//! graphics adapter.
//!
//! The library turns a device's reported hardware feature tiers and the host
//! OS version into an immutable capability descriptor
//! ([`caps::PrivateCapabilities`]), and answers every later query — per-format
//! usage flags, portable feature set, numeric limits, workaround flags,
//! portable-to-native format translation — as a pure projection of that
//! descriptor. Querying the native API itself (device handles, the OS version
//! service) is left to the embedding program, which hands the raw answers in
//! as plain values.

pub mod adapter;
pub mod caps;
pub mod device;
pub mod disabilities;
pub mod features;
pub mod formats;
pub mod limits;
pub mod surface;
pub mod tiers;
