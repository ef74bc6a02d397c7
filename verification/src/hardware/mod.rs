//! CAN hardware: bus speeds and the PEAK CAN frame layout.
use vstd::prelude::*;

pub mod peak_can;

verus! {

/// CAN bus bit rates.
#[derive(Debug, Clone, Copy, PartialEq, Eq, Structural)]
pub enum BusSpeed {
    Baud125K,
    Baud250K,
    Baud500K,
    Baud1M,
}

/// The bit rate of each bus speed, in bit/s.
pub open spec fn spec_bitrate(s: BusSpeed) -> u32 {
    match s {
        BusSpeed::Baud125K => 125_000,
        BusSpeed::Baud250K => 250_000,
        BusSpeed::Baud500K => 500_000,
        BusSpeed::Baud1M => 1_000_000,
    }
}

impl BusSpeed {
    /// The bit rate in bit/s.
    pub fn bitrate(self) -> (r: u32)
        ensures
            r == spec_bitrate(self),
    {
        match self {
            BusSpeed::Baud125K => 125_000,
            BusSpeed::Baud250K => 250_000,
            BusSpeed::Baud500K => 500_000,
            BusSpeed::Baud1M => 1_000_000,
        }
    }
}

} // verus!
