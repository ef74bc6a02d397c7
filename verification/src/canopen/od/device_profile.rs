//! Object index ranges of manufacturer-specific and device-profile objects.
use vstd::prelude::*;
use crate::canopen::od::ObjectIndex;

verus! {

/// Manufacturer-specific area (0x2000-0x5FFF).
pub const MANUFACTURER_SPECIFIC_START: ObjectIndex = 0x2000;
pub const MANUFACTURER_SPECIFIC_END: ObjectIndex = 0x5FFF;

/// Standardized device-profile area (0x6000-0x9FFF).
pub const DEVICE_PROFILE_START: ObjectIndex = 0x6000;
pub const DEVICE_PROFILE_END: ObjectIndex = 0x9FFF;

} // verus!
