//! CAN message types and COB-ID classification.
use vstd::prelude::*;
use std::time::SystemTime;
use crate::errors::{CANopenError, Result};
use crate::utils::system_time_now;
use crate::canopen::le::{le_u16, le_u32, u16_from_le, u32_from_le};
use crate::canopen::nmt::{NmtState, spec_nmt_state_from};

pub mod cob_ids;

verus! {

/// CANopen message types.
#[derive(Debug, Clone, Copy, PartialEq, Eq, Structural)]
pub enum MessageType {
    Nmt,
    Sync,
    Emergency,
    TimeStamp,
    Pdo,
    Sdo,
    NmtErrorControl,
    Lss,
    Unknown,
}

/// The message type that the predefined connection set gives a COB-ID.
pub open spec fn spec_message_type(cob: u16) -> MessageType {
    if cob == 0x000 {
        MessageType::Nmt
    } else if cob == 0x080 {
        MessageType::Sync
    } else if cob == 0x100 {
        MessageType::TimeStamp
    } else if 0x081 <= cob <= 0x0FF {
        MessageType::Emergency
    } else if 0x180 <= cob <= 0x57F {
        MessageType::Pdo
    } else if 0x580 <= cob <= 0x67F {
        MessageType::Sdo
    } else if 0x700 <= cob <= 0x77F {
        MessageType::NmtErrorControl
    } else if 0x7E4 <= cob <= 0x7E5 {
        MessageType::Lss
    } else {
        MessageType::Unknown
    }
}

/// The node-ID carried by a COB-ID, where its message type has one.
pub open spec fn spec_node_id(cob: u16) -> Option<u8> {
    if 0x700 <= cob <= 0x77F {
        Some((cob - 0x700) as u8)
    } else if 0x580 <= cob <= 0x5FF {
        Some((cob - 0x580) as u8)
    } else if 0x600 <= cob <= 0x67F {
        Some((cob - 0x600) as u8)
    } else if 0x081 <= cob <= 0x0FF {
        Some((cob - 0x080) as u8)
    } else if 0x180 <= cob <= 0x57F {
        Some(((cob - 0x180) % 0x80) as u8)
    } else {
        None
    }
}

/// The PDO number (1-4) of a PDO COB-ID.
pub open spec fn spec_pdo_number(cob: u16) -> Option<u8> {
    if 0x180 <= cob <= 0x27F {
        Some(1u8)
    } else if 0x280 <= cob <= 0x37F {
        Some(2u8)
    } else if 0x380 <= cob <= 0x47F {
        Some(3u8)
    } else if 0x480 <= cob <= 0x57F {
        Some(4u8)
    } else {
        None
    }
}

/// A transmit-PDO COB-ID (device to master).
pub open spec fn spec_is_pdo_tx(cob: u16) -> bool {
    ||| 0x180 <= cob <= 0x1FF
    ||| 0x280 <= cob <= 0x2FF
    ||| 0x380 <= cob <= 0x3FF
    ||| 0x480 <= cob <= 0x4FF
}

/// A receive-PDO COB-ID (master to device).
pub open spec fn spec_is_pdo_rx(cob: u16) -> bool {
    ||| 0x200 <= cob <= 0x27F
    ||| 0x300 <= cob <= 0x37F
    ||| 0x400 <= cob <= 0x47F
    ||| 0x500 <= cob <= 0x57F
}

/// The payload lengths that CANopen allows for a message type.
pub open spec fn spec_format_ok(mt: MessageType, len: nat) -> bool {
    match mt {
        MessageType::Nmt => len == 2,
        MessageType::Sync => len <= 1,
        MessageType::TimeStamp => len == 6,
        MessageType::Emergency => len == 8,
        MessageType::Sdo => len == 8,
        MessageType::NmtErrorControl => len == 1,
        MessageType::Pdo => len <= 8,
        MessageType::Lss => len == 8,
        MessageType::Unknown => true,
    }
}

impl MessageType {
    /// Determine the message type from a COB-ID.
    pub fn from_cob_id(cob_id: u16) -> (r: MessageType)
        ensures
            r == spec_message_type(cob_id),
    {
        if cob_id == cob_ids::NMT_COMMAND {
            MessageType::Nmt
        } else if cob_id == cob_ids::SYNC {
            MessageType::Sync
        } else if cob_id == cob_ids::TIME_STAMP {
            MessageType::TimeStamp
        } else if 0x081 <= cob_id && cob_id <= 0x0FF {
            MessageType::Emergency
        } else if 0x180 <= cob_id && cob_id <= 0x57F {
            MessageType::Pdo
        } else if 0x580 <= cob_id && cob_id <= 0x67F {
            MessageType::Sdo
        } else if 0x700 <= cob_id && cob_id <= 0x77F {
            MessageType::NmtErrorControl
        } else if 0x7E4 <= cob_id && cob_id <= 0x7E5 {
            MessageType::Lss
        } else {
            MessageType::Unknown
        }
    }
}

/// CAN identifier with CANopen-specific classification.
#[derive(Debug, Clone, Copy, PartialEq, Eq, Hash, Structural)]
pub struct CanId(pub u16);

impl CanId {
    /// Create a CAN ID, refusing values above the 11-bit range.
    pub fn new(id: u16) -> (r: Result<CanId>)
        ensures
            r is Ok <==> id <= 0x7FF,
            r matches Ok(c) ==> c.0 == id,
            r matches Err(e) ==> e is InvalidMessage,
    {
        if id > 0x7FF {
            return Err(CANopenError::InvalidMessage);
        }
        Ok(CanId(id))
    }

    /// Create a CAN ID without validation.
    pub fn new_unchecked(id: u16) -> (r: CanId)
        ensures
            r.0 == id,
    {
        CanId(id)
    }

    /// Create a standard 11-bit CAN ID from a 32-bit value.
    pub fn new_standard(id: u32) -> (r: Result<CanId>)
        ensures
            r is Ok <==> id <= 0x7FF,
            r matches Ok(c) ==> c.0 == id,
            r matches Err(e) ==> e is InvalidMessage,
    {
        if id > 0x7FF {
            return Err(CANopenError::InvalidMessage);
        }
        Ok(CanId(id as u16))
    }

    /// The raw identifier.
    pub fn raw(&self) -> (r: u16)
        ensures
            r == self.0,
    {
        self.0
    }

    /// Whether the identifier fits in 11 bits.
    pub fn is_valid(&self) -> (r: bool)
        ensures
            r == (self.0 <= 0x7FF),
    {
        self.0 <= 0x7FF
    }

    /// The message type of this COB-ID.
    pub fn message_type(&self) -> (r: MessageType)
        ensures
            r == spec_message_type(self.0),
    {
        MessageType::from_cob_id(self.0)
    }

    /// The node-ID carried by this COB-ID, where its message type has one.
    pub fn node_id(&self) -> (r: Option<u8>)
        ensures
            r == spec_node_id(self.0),
    {
        let c: u16 = self.0;
        match self.message_type() {
            MessageType::NmtErrorControl => Some((c - 0x700) as u8),
            MessageType::Sdo => {
                if c >= 0x580 && c < 0x600 {
                    Some((c - 0x580) as u8)
                } else if c >= 0x600 && c < 0x680 {
                    Some((c - 0x600) as u8)
                } else {
                    None
                }
            },
            MessageType::Emergency => {
                if c >= 0x081 && c <= 0x0FF {
                    Some((c - 0x080) as u8)
                } else {
                    None
                }
            },
            MessageType::Pdo => {
                if 0x180 <= c && c <= 0x1FF {
                    Some((c - 0x180) as u8)
                } else if 0x200 <= c && c <= 0x27F {
                    Some((c - 0x200) as u8)
                } else if 0x280 <= c && c <= 0x2FF {
                    Some((c - 0x280) as u8)
                } else if 0x300 <= c && c <= 0x37F {
                    Some((c - 0x300) as u8)
                } else if 0x380 <= c && c <= 0x3FF {
                    Some((c - 0x380) as u8)
                } else if 0x400 <= c && c <= 0x47F {
                    Some((c - 0x400) as u8)
                } else if 0x480 <= c && c <= 0x4FF {
                    Some((c - 0x480) as u8)
                } else if 0x500 <= c && c <= 0x57F {
                    Some((c - 0x500) as u8)
                } else {
                    None
                }
            },
            _ => None,
        }
    }

    /// The PDO number (1-4) if this is a PDO COB-ID.
    pub fn pdo_number(&self) -> (r: Option<u8>)
        ensures
            r == spec_pdo_number(self.0),
    {
        let c: u16 = self.0;
        if 0x180 <= c && c <= 0x27F {
            Some(1)
        } else if 0x280 <= c && c <= 0x37F {
            Some(2)
        } else if 0x380 <= c && c <= 0x47F {
            Some(3)
        } else if 0x480 <= c && c <= 0x57F {
            Some(4)
        } else {
            None
        }
    }

    /// Whether this is a transmit-PDO COB-ID.
    pub fn is_pdo_tx(&self) -> (r: bool)
        ensures
            r == spec_is_pdo_tx(self.0),
    {
        let c: u16 = self.0;
        (0x180 <= c && c <= 0x1FF) || (0x280 <= c && c <= 0x2FF) || (0x380 <= c && c <= 0x3FF)
            || (0x480 <= c && c <= 0x4FF)
    }

    /// Whether this is a receive-PDO COB-ID.
    pub fn is_pdo_rx(&self) -> (r: bool)
        ensures
            r == spec_is_pdo_rx(self.0),
    {
        let c: u16 = self.0;
        (0x200 <= c && c <= 0x27F) || (0x300 <= c && c <= 0x37F) || (0x400 <= c && c <= 0x47F)
            || (0x500 <= c && c <= 0x57F)
    }
}

/// Conversion from a 32-bit identifier; identifiers above 0x7FF are refused.
impl TryFrom<u32> for CanId {
    type Error = CANopenError;

    fn try_from(id: u32) -> (r: Result<CanId>) {
        CanId::new_standard(id)
    }
}

impl vstd::std_specs::convert::TryFromSpecImpl<u32> for CanId {
    open spec fn obeys_try_from_spec() -> bool {
        true
    }

    open spec fn try_from_spec(id: u32) -> Result<CanId> {
        if id <= 0x7FF {
            Ok(CanId(id as u16))
        } else {
            Err(CANopenError::InvalidMessage)
        }
    }
}

/// A CAN message with its reception or creation time.
#[derive(Debug, Clone, PartialEq, Eq)]
pub struct CanMessage {
    pub id: CanId,
    pub data: Vec<u8>,
    pub remote: bool,
    pub timestamp: SystemTime,
}

impl CanMessage {
    /// Create a new CAN message, refusing identifiers above 0x7FF and
    /// payloads longer than 8 bytes.
    pub fn new(id: u16, data: Vec<u8>) -> (r: Result<CanMessage>)
        ensures
            r is Ok <==> (id <= 0x7FF && data@.len() <= 8),
            r matches Ok(m) ==> m.id.0 == id && m.data@ == data@ && !m.remote,
            r matches Err(e) ==> e is InvalidMessage,
    {
        let can_id = match CanId::new(id) {
            Ok(c) => c,
            Err(e) => return Err(e),
        };
        match Self::validate_data_length(&data) {
            Ok(()) => {},
            Err(e) => return Err(e),
        }
        Ok(CanMessage { id: can_id, data, remote: false, timestamp: system_time_now() })
    }

    /// Create a new CAN message without validation.
    pub fn new_unchecked(id: u16, data: Vec<u8>) -> (r: CanMessage)
        ensures
            r.id.0 == id,
            r.data@ == data@,
            !r.remote,
    {
        CanMessage { id: CanId::new_unchecked(id), data, remote: false, timestamp: system_time_now() }
    }

    /// Create a message that may be a remote request; the payload length is
    /// only checked for data frames.
    pub fn with_timestamp(id: u16, data: Vec<u8>, remote: bool) -> (r: Result<CanMessage>)
        ensures
            r is Ok <==> (id <= 0x7FF && (remote || data@.len() <= 8)),
            r matches Ok(m) ==> m.id.0 == id && m.data@ == data@ && m.remote == remote,
            r matches Err(e) ==> e is InvalidMessage,
    {
        let can_id = match CanId::new(id) {
            Ok(c) => c,
            Err(e) => return Err(e),
        };
        if !remote {
            match Self::validate_data_length(&data) {
                Ok(()) => {},
                Err(e) => return Err(e),
            }
        }
        Ok(CanMessage { id: can_id, data, remote, timestamp: system_time_now() })
    }

    /// Create a message from a byte slice, with the checks of `new`.
    pub fn from_raw(id: u16, data: &[u8]) -> (r: Result<CanMessage>)
        ensures
            r is Ok <==> (id <= 0x7FF && data@.len() <= 8),
            r matches Ok(m) ==> m.id.0 == id && m.data@ == data@ && !m.remote,
            r matches Err(e) ==> e is InvalidMessage,
    {
        let can_id = match CanId::new(id) {
            Ok(c) => c,
            Err(e) => return Err(e),
        };
        let data_vec = vstd::slice::slice_to_vec(data);
        match Self::validate_data_length(&data_vec) {
            Ok(()) => {},
            Err(e) => return Err(e),
        }
        Ok(CanMessage { id: can_id, data: data_vec, remote: false, timestamp: system_time_now() })
    }

    /// Standard CAN payloads hold 0 to 8 bytes.
    fn validate_data_length(data: &[u8]) -> (r: Result<()>)
        ensures
            r is Ok <==> data@.len() <= 8,
            r matches Err(e) ==> e is InvalidMessage,
    {
        if data.len() > 8 {
            return Err(CANopenError::InvalidMessage);
        }
        Ok(())
    }

    /// The message type of this message's COB-ID.
    pub fn message_type(&self) -> (r: MessageType)
        ensures
            r == spec_message_type(self.id.0),
    {
        self.id.message_type()
    }

    /// The node-ID carried by this message's COB-ID.
    pub fn node_id(&self) -> (r: Option<u8>)
        ensures
            r == spec_node_id(self.id.0),
    {
        self.id.node_id()
    }

    /// Whether this message is valid CAN and has a payload length that
    /// CANopen allows for its type.
    pub fn is_valid(&self) -> (r: bool)
        ensures
            r == (self.id.0 <= 0x7FF && self.data@.len() <= 8 && spec_format_ok(
                spec_message_type(self.id.0),
                self.data@.len(),
            )),
    {
        self.id.is_valid() && self.data.len() <= 8 && self.validate_canopen_format()
    }

    /// Whether this is a remote transmission request.
    pub fn is_remote_request(&self) -> (r: bool)
        ensures
            r == self.remote,
    {
        self.remote
    }

    /// The payload length that CANopen expects for this message's type.
    fn validate_canopen_format(&self) -> (r: bool)
        ensures
            r == spec_format_ok(spec_message_type(self.id.0), self.data@.len()),
    {
        let len: usize = self.data.len();
        match self.message_type() {
            MessageType::Nmt => len == 2,
            MessageType::Sync => len <= 1,
            MessageType::TimeStamp => len == 6,
            MessageType::Emergency => len == 8,
            MessageType::Sdo => len == 8,
            MessageType::NmtErrorControl => len == 1,
            MessageType::Pdo => len <= 8,
            MessageType::Lss => len == 8,
            MessageType::Unknown => true,
        }
    }

    /// The payload byte at `index`, if present.
    pub fn get_u8(&self, index: usize) -> (r: Option<u8>)
        ensures
            r == (if index < self.data@.len() {
                Some(self.data@[index as int])
            } else {
                None::<u8>
            }),
    {
        if index < self.data.len() {
            Some(self.data[index])
        } else {
            None
        }
    }

    /// The little-endian u16 at `index`, if both bytes are present.
    pub fn get_u16_le(&self, index: usize) -> (r: Option<u16>)
        requires
            index < usize::MAX,
        ensures
            r == (if index + 1 < self.data@.len() {
                Some(le_u16(self.data@[index as int], self.data@[index + 1]))
            } else {
                None::<u16>
            }),
    {
        if index + 1 < self.data.len() {
            Some(u16_from_le(self.data[index], self.data[index + 1]))
        } else {
            None
        }
    }

    /// The little-endian u32 at `index`, if all four bytes are present.
    pub fn get_u32_le(&self, index: usize) -> (r: Option<u32>)
        requires
            index + 3 <= usize::MAX,
        ensures
            r == (if index + 3 < self.data@.len() {
                Some(
                    le_u32(
                        self.data@[index as int],
                        self.data@[index + 1],
                        self.data@[index + 2],
                        self.data@[index + 3],
                    ),
                )
            } else {
                None::<u32>
            }),
    {
        if index + 3 < self.data.len() {
            Some(
                u32_from_le(
                    self.data[index],
                    self.data[index + 1],
                    self.data[index + 2],
                    self.data[index + 3],
                ),
            )
        } else {
            None
        }
    }

    /// The command byte of an SDO message.
    pub fn sdo_command(&self) -> (r: Option<u8>)
        ensures
            r == (if spec_message_type(self.id.0) == MessageType::Sdo && self.data@.len() > 0 {
                Some(self.data@[0])
            } else {
                None::<u8>
            }),
    {
        if self.message_type() == MessageType::Sdo && self.data.len() > 0 {
            Some(self.data[0])
        } else {
            None
        }
    }

    /// The command of an NMT message.
    pub fn nmt_command(&self) -> (r: Option<NmtCommand>)
        ensures
            r == (if spec_message_type(self.id.0) == MessageType::Nmt && self.data@.len() >= 2 {
                spec_nmt_command_from(self.data@[0])
            } else {
                None::<NmtCommand>
            }),
    {
        if self.message_type() == MessageType::Nmt && self.data.len() >= 2 {
            NmtCommand::from_u8(self.data[0])
        } else {
            None
        }
    }

    /// The NMT state reported by a heartbeat message.
    pub fn nmt_state(&self) -> (r: Option<NmtState>)
        ensures
            r == (if spec_message_type(self.id.0) == MessageType::NmtErrorControl
                && self.data@.len() > 0 {
                Some(spec_nmt_state_from(self.data@[0]))
            } else {
                None::<NmtState>
            }),
    {
        if self.message_type() == MessageType::NmtErrorControl && self.data.len() > 0 {
            Some(NmtState::from_u8(self.data[0]))
        } else {
            None
        }
    }
}

/// NMT command codes as they appear in the first byte of an NMT message.
#[derive(Debug, Clone, Copy, PartialEq, Eq, Structural)]
pub enum NmtCommand {
    StartRemoteNode,
    StopRemoteNode,
    EnterPreOperational,
    ResetNode,
    ResetCommunication,
}

/// The wire code of each NMT command.
pub open spec fn spec_nmt_command_code(c: NmtCommand) -> u8 {
    match c {
        NmtCommand::StartRemoteNode => 0x01,
        NmtCommand::StopRemoteNode => 0x02,
        NmtCommand::EnterPreOperational => 0x80,
        NmtCommand::ResetNode => 0x81,
        NmtCommand::ResetCommunication => 0x82,
    }
}

/// The NMT command that a wire code stands for.
pub open spec fn spec_nmt_command_from(b: u8) -> Option<NmtCommand> {
    if b == 0x01 {
        Some(NmtCommand::StartRemoteNode)
    } else if b == 0x02 {
        Some(NmtCommand::StopRemoteNode)
    } else if b == 0x80 {
        Some(NmtCommand::EnterPreOperational)
    } else if b == 0x81 {
        Some(NmtCommand::ResetNode)
    } else if b == 0x82 {
        Some(NmtCommand::ResetCommunication)
    } else {
        None
    }
}

impl NmtCommand {
    /// Convert from the raw command byte.
    pub fn from_u8(cmd: u8) -> (r: Option<NmtCommand>)
        ensures
            r == spec_nmt_command_from(cmd),
    {
        if cmd == 0x01 {
            Some(NmtCommand::StartRemoteNode)
        } else if cmd == 0x02 {
            Some(NmtCommand::StopRemoteNode)
        } else if cmd == 0x80 {
            Some(NmtCommand::EnterPreOperational)
        } else if cmd == 0x81 {
            Some(NmtCommand::ResetNode)
        } else if cmd == 0x82 {
            Some(NmtCommand::ResetCommunication)
        } else {
            None
        }
    }

    /// Convert to the raw command byte.
    pub fn to_u8(self) -> (r: u8)
        ensures
            r == spec_nmt_command_code(self),
    {
        match self {
            NmtCommand::StartRemoteNode => 0x01,
            NmtCommand::StopRemoteNode => 0x02,
            NmtCommand::EnterPreOperational => 0x80,
            NmtCommand::ResetNode => 0x81,
            NmtCommand::ResetCommunication => 0x82,
        }
    }
}

/// Decoding a command's own code gives the command back.
pub proof fn lemma_nmt_command_code_roundtrip(c: NmtCommand)
    ensures
        spec_nmt_command_from(spec_nmt_command_code(c)) == Some(c),
{
}

/// SDO client command specifiers.
#[derive(Debug, Clone, Copy, PartialEq, Eq, Structural)]
pub enum SdoClientCommand {
    DownloadSegment,
    DownloadInitiate,
    UploadInitiate,
    UploadSegment,
    AbortTransfer,
}

impl SdoClientCommand {
    /// The command specifier bits of this command.
    pub fn code(self) -> (r: u8)
        ensures
            r == match self {
                SdoClientCommand::DownloadSegment => 0x00u8,
                SdoClientCommand::DownloadInitiate => 0x20u8,
                SdoClientCommand::UploadInitiate => 0x40u8,
                SdoClientCommand::UploadSegment => 0x60u8,
                SdoClientCommand::AbortTransfer => 0x80u8,
            },
    {
        match self {
            SdoClientCommand::DownloadSegment => 0x00,
            SdoClientCommand::DownloadInitiate => 0x20,
            SdoClientCommand::UploadInitiate => 0x40,
            SdoClientCommand::UploadSegment => 0x60,
            SdoClientCommand::AbortTransfer => 0x80,
        }
    }
}

/// SDO server command specifiers.
#[derive(Debug, Clone, Copy, PartialEq, Eq, Structural)]
pub enum SdoServerCommand {
    UploadSegmentResponse,
    DownloadSegmentResponse,
    UploadInitiateResponse,
    DownloadInitiateResponse,
    AbortTransferResponse,
}

impl SdoServerCommand {
    /// The command specifier bits of this command.
    pub fn code(self) -> (r: u8)
        ensures
            r == match self {
                SdoServerCommand::UploadSegmentResponse => 0x00u8,
                SdoServerCommand::DownloadSegmentResponse => 0x20u8,
                SdoServerCommand::UploadInitiateResponse => 0x40u8,
                SdoServerCommand::DownloadInitiateResponse => 0x60u8,
                SdoServerCommand::AbortTransferResponse => 0x80u8,
            },
    {
        match self {
            SdoServerCommand::UploadSegmentResponse => 0x00,
            SdoServerCommand::DownloadSegmentResponse => 0x20,
            SdoServerCommand::UploadInitiateResponse => 0x40,
            SdoServerCommand::DownloadInitiateResponse => 0x60,
            SdoServerCommand::AbortTransferResponse => 0x80,
        }
    }
}

/// Emergency error codes of CiA 301.
#[derive(Debug, Clone, Copy, PartialEq, Eq, Structural)]
pub enum EmergencyErrorCode {
    NoError,
    /// Generic error, sent with code 0x0000.
    Generic,
    GenericError,
    Current,
    CurrentInput,
    CurrentOutput,
    Voltage,
    VoltageMainsInput,
    VoltageInsideDevice,
    VoltageOutput,
    Temperature,
    TemperatureAmbient,
    TemperatureDevice,
    DeviceHardware,
    DeviceSoftware,
    InternalSoftware,
    UserSoftware,
    DataSet,
    AdditionalModules,
    Monitoring,
    Communication,
    ProtocolError,
    ExternalError,
    AdditionalFunctions,
    DeviceSpecific,
}

/// The 16-bit code of each emergency error.
pub open spec fn spec_emergency_error_code(e: EmergencyErrorCode) -> u16 {
    match e {
        EmergencyErrorCode::NoError => 0x0000,
        EmergencyErrorCode::Generic => 0x0000,
        EmergencyErrorCode::GenericError => 0x1000,
        EmergencyErrorCode::Current => 0x2000,
        EmergencyErrorCode::CurrentInput => 0x2010,
        EmergencyErrorCode::CurrentOutput => 0x2020,
        EmergencyErrorCode::Voltage => 0x3000,
        EmergencyErrorCode::VoltageMainsInput => 0x3010,
        EmergencyErrorCode::VoltageInsideDevice => 0x3020,
        EmergencyErrorCode::VoltageOutput => 0x3030,
        EmergencyErrorCode::Temperature => 0x4000,
        EmergencyErrorCode::TemperatureAmbient => 0x4010,
        EmergencyErrorCode::TemperatureDevice => 0x4020,
        EmergencyErrorCode::DeviceHardware => 0x5000,
        EmergencyErrorCode::DeviceSoftware => 0x6000,
        EmergencyErrorCode::InternalSoftware => 0x6010,
        EmergencyErrorCode::UserSoftware => 0x6020,
        EmergencyErrorCode::DataSet => 0x6030,
        EmergencyErrorCode::AdditionalModules => 0x7000,
        EmergencyErrorCode::Monitoring => 0x8000,
        EmergencyErrorCode::Communication => 0x8100,
        EmergencyErrorCode::ProtocolError => 0x8200,
        EmergencyErrorCode::ExternalError => 0x9000,
        EmergencyErrorCode::AdditionalFunctions => 0xF000,
        EmergencyErrorCode::DeviceSpecific => 0xFF00,
    }
}

impl EmergencyErrorCode {
    /// The 16-bit code of this error.
    pub fn code(self) -> (r: u16)
        ensures
            r == spec_emergency_error_code(self),
    {
        match self {
            EmergencyErrorCode::NoError => 0x0000,
            EmergencyErrorCode::Generic => 0x0000,
            EmergencyErrorCode::GenericError => 0x1000,
            EmergencyErrorCode::Current => 0x2000,
            EmergencyErrorCode::CurrentInput => 0x2010,
            EmergencyErrorCode::CurrentOutput => 0x2020,
            EmergencyErrorCode::Voltage => 0x3000,
            EmergencyErrorCode::VoltageMainsInput => 0x3010,
            EmergencyErrorCode::VoltageInsideDevice => 0x3020,
            EmergencyErrorCode::VoltageOutput => 0x3030,
            EmergencyErrorCode::Temperature => 0x4000,
            EmergencyErrorCode::TemperatureAmbient => 0x4010,
            EmergencyErrorCode::TemperatureDevice => 0x4020,
            EmergencyErrorCode::DeviceHardware => 0x5000,
            EmergencyErrorCode::DeviceSoftware => 0x6000,
            EmergencyErrorCode::InternalSoftware => 0x6010,
            EmergencyErrorCode::UserSoftware => 0x6020,
            EmergencyErrorCode::DataSet => 0x6030,
            EmergencyErrorCode::AdditionalModules => 0x7000,
            EmergencyErrorCode::Monitoring => 0x8000,
            EmergencyErrorCode::Communication => 0x8100,
            EmergencyErrorCode::ProtocolError => 0x8200,
            EmergencyErrorCode::ExternalError => 0x9000,
            EmergencyErrorCode::AdditionalFunctions => 0xF000,
            EmergencyErrorCode::DeviceSpecific => 0xFF00,
        }
    }
}

} // verus!
