//! What a device tells about itself.

use vstd::prelude::*;

verus! {

/// The version of a driver.
#[derive(Clone, Copy, Debug, PartialEq, Eq, Structural)]
pub struct Version {
    pub major: u8,
    pub minor: u8,
    pub patch: u8,
}

/// The capabilities of a device, as the driver reports them.
#[derive(Clone, Debug, PartialEq, Eq)]
pub struct Capabilities {
    /// The name of the driver.
    pub driver: String,
    /// The name of the device.
    pub card: String,
    /// Where the device sits on its bus.
    pub bus: String,
    /// The version of the driver.
    pub version: Version,
    /// The capability flags of the device.
    pub capabilities: u32,
}

} // verus!
