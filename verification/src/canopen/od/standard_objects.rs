//! Standard communication-profile object indices (0x1000-0x1FFF).
use vstd::prelude::*;
use crate::canopen::od::ObjectIndex;

verus! {

pub const DEVICE_TYPE: ObjectIndex = 0x1000;
pub const ERROR_REGISTER: ObjectIndex = 0x1001;
pub const MANUFACTURER_STATUS_REGISTER: ObjectIndex = 0x1002;
pub const PRE_DEFINED_ERROR_FIELD: ObjectIndex = 0x1003;
pub const COB_ID_SYNC: ObjectIndex = 0x1005;
pub const COMMUNICATION_CYCLE_PERIOD: ObjectIndex = 0x1006;
pub const SYNCHRONOUS_WINDOW_LENGTH: ObjectIndex = 0x1007;
pub const MANUFACTURER_DEVICE_NAME: ObjectIndex = 0x1008;
pub const MANUFACTURER_HARDWARE_VERSION: ObjectIndex = 0x1009;
pub const MANUFACTURER_SOFTWARE_VERSION: ObjectIndex = 0x100A;
pub const NODE_ID: ObjectIndex = 0x100B;
pub const GUARD_TIME: ObjectIndex = 0x100C;
pub const LIFE_TIME_FACTOR: ObjectIndex = 0x100D;
pub const STORE_PARAMETERS: ObjectIndex = 0x1010;
pub const RESTORE_DEFAULT_PARAMETERS: ObjectIndex = 0x1011;
pub const COB_ID_TIME: ObjectIndex = 0x1012;
pub const HIGH_RESOLUTION_TIME_STAMP: ObjectIndex = 0x1013;
pub const COB_ID_EMERGENCY: ObjectIndex = 0x1014;
pub const INHIBIT_TIME_EMERGENCY: ObjectIndex = 0x1015;
pub const CONSUMER_HEARTBEAT_TIME: ObjectIndex = 0x1016;
pub const PRODUCER_HEARTBEAT_TIME: ObjectIndex = 0x1017;
pub const IDENTITY_OBJECT: ObjectIndex = 0x1018;

/// SDO server parameters (0x1200-0x127F).
pub const SDO_SERVER_PARAMETER_BASE: ObjectIndex = 0x1200;
/// SDO client parameters (0x1280-0x12FF).
pub const SDO_CLIENT_PARAMETER_BASE: ObjectIndex = 0x1280;
/// RPDO communication parameters (0x1400-0x15FF).
pub const RPDO_COMMUNICATION_PARAMETER_BASE: ObjectIndex = 0x1400;
/// RPDO mapping parameters (0x1600-0x17FF).
pub const RPDO_MAPPING_PARAMETER_BASE: ObjectIndex = 0x1600;
/// TPDO communication parameters (0x1800-0x19FF).
pub const TPDO_COMMUNICATION_PARAMETER_BASE: ObjectIndex = 0x1800;
/// TPDO mapping parameters (0x1A00-0x1BFF).
pub const TPDO_MAPPING_PARAMETER_BASE: ObjectIndex = 0x1A00;

} // verus!
