//! COB-ID bases of the predefined CANopen connection set.
use vstd::prelude::*;

verus! {

pub const NMT_COMMAND: u16 = 0x000;
pub const SYNC: u16 = 0x080;
pub const EMERGENCY_BASE: u16 = 0x080;
pub const TIME_STAMP: u16 = 0x100;
pub const PDO1_TX_BASE: u16 = 0x180;
pub const PDO1_RX_BASE: u16 = 0x200;
pub const PDO2_TX_BASE: u16 = 0x280;
pub const PDO2_RX_BASE: u16 = 0x300;
pub const PDO3_TX_BASE: u16 = 0x380;
pub const PDO3_RX_BASE: u16 = 0x400;
pub const PDO4_TX_BASE: u16 = 0x480;
pub const PDO4_RX_BASE: u16 = 0x500;
pub const SDO_TX_BASE: u16 = 0x580;
pub const SDO_RX_BASE: u16 = 0x600;
pub const NMT_ERROR_CONTROL_BASE: u16 = 0x700;
pub const LSS_BASE: u16 = 0x7E4;

} // verus!
