//! Device identity values reported to the host.
use vstd::prelude::*;

verus! {

/// Firmware version of the device.
#[derive(Debug, Clone, Copy, PartialEq, Eq, Structural)]
pub struct DeviceVersion(pub u32);

impl DeviceVersion {
    pub fn new(version: u32) -> (r: DeviceVersion)
        ensures
            r.0 == version,
    {
        DeviceVersion(version)
    }
}

/// Hardware variant of the device.
#[derive(Debug, Clone, Copy, PartialEq, Eq, Structural)]
pub struct DeviceVariant(pub u32);

impl DeviceVariant {
    pub fn new(variant: u32) -> (r: DeviceVariant)
        ensures
            r.0 == variant,
    {
        DeviceVariant(variant)
    }
}

/// User settings of the device.
#[derive(Debug, Clone)]
pub struct DeviceOptions {
    pub name: String,
    pub mouse_enabled: bool,
}

impl Default for DeviceOptions {
    fn default() -> (r: DeviceOptions)
        ensures
            r.name@ == "Cardboard Device"@,
            !r.mouse_enabled,
    {
        DeviceOptions { name: String::from_str("Cardboard Device"), mouse_enabled: false }
    }
}

} // verus!
