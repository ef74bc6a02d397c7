//! LSS (Layer Setting Services, CiA 305): command frames, response parsing
//! and the decisions of the LSS master.
use vstd::prelude::*;
use crate::errors::{CANopenError, Result};
use crate::canopen::message::CanMessage;
use crate::canopen::le::{le_u32, u32_le_bytes, u32_from_le, push_u32_le};

verus! {

/// COB-ID of master-to-slave LSS messages (2021).
pub const LSS_MASTER_TX: u16 = 0x7E5;

/// COB-ID of slave-to-master LSS messages (2020).
pub const LSS_SLAVE_TX: u16 = 0x7E4;

/// LSS command specifiers.
#[derive(Debug, Clone, Copy, PartialEq, Eq, Structural)]
pub enum LssCommand {
    SwitchStateGlobal,
    SwitchStateSelective,
    ConfigureNodeId,
    ConfigureBitTiming,
    ActivateBitTiming,
    StoreConfiguration,
    InquireVendorId,
    InquireProductCode,
    InquireRevisionNumber,
    InquireSerialNumber,
    InquireNodeId,
    IdentifyRemoteSlave,
    IdentifyNonConfiguredSlave,
    FastscanRequest,
}

/// The command specifier byte of each command.
pub open spec fn spec_lss_command_code(c: LssCommand) -> u8 {
    match c {
        LssCommand::SwitchStateGlobal => 0x04,
        LssCommand::SwitchStateSelective => 0x40,
        LssCommand::ConfigureNodeId => 0x11,
        LssCommand::ConfigureBitTiming => 0x13,
        LssCommand::ActivateBitTiming => 0x15,
        LssCommand::StoreConfiguration => 0x17,
        LssCommand::InquireVendorId => 0x5A,
        LssCommand::InquireProductCode => 0x5B,
        LssCommand::InquireRevisionNumber => 0x5C,
        LssCommand::InquireSerialNumber => 0x5D,
        LssCommand::InquireNodeId => 0x5E,
        LssCommand::IdentifyRemoteSlave => 0x46,
        LssCommand::IdentifyNonConfiguredSlave => 0x50,
        LssCommand::FastscanRequest => 0x51,
    }
}

/// The command that a specifier byte stands for.
pub open spec fn spec_lss_command_from(v: u8) -> Option<LssCommand> {
    if v == 0x04 {
        Some(LssCommand::SwitchStateGlobal)
    } else if v == 0x40 {
        Some(LssCommand::SwitchStateSelective)
    } else if v == 0x11 {
        Some(LssCommand::ConfigureNodeId)
    } else if v == 0x13 {
        Some(LssCommand::ConfigureBitTiming)
    } else if v == 0x15 {
        Some(LssCommand::ActivateBitTiming)
    } else if v == 0x17 {
        Some(LssCommand::StoreConfiguration)
    } else if v == 0x5A {
        Some(LssCommand::InquireVendorId)
    } else if v == 0x5B {
        Some(LssCommand::InquireProductCode)
    } else if v == 0x5C {
        Some(LssCommand::InquireRevisionNumber)
    } else if v == 0x5D {
        Some(LssCommand::InquireSerialNumber)
    } else if v == 0x5E {
        Some(LssCommand::InquireNodeId)
    } else if v == 0x46 {
        Some(LssCommand::IdentifyRemoteSlave)
    } else if v == 0x50 {
        Some(LssCommand::IdentifyNonConfiguredSlave)
    } else if v == 0x51 {
        Some(LssCommand::FastscanRequest)
    } else {
        None
    }
}

impl LssCommand {
    /// Decode a command specifier byte.
    pub fn from_u8(value: u8) -> (r: Option<LssCommand>)
        ensures
            r == spec_lss_command_from(value),
    {
        if value == 0x04 {
            Some(LssCommand::SwitchStateGlobal)
        } else if value == 0x40 {
            Some(LssCommand::SwitchStateSelective)
        } else if value == 0x11 {
            Some(LssCommand::ConfigureNodeId)
        } else if value == 0x13 {
            Some(LssCommand::ConfigureBitTiming)
        } else if value == 0x15 {
            Some(LssCommand::ActivateBitTiming)
        } else if value == 0x17 {
            Some(LssCommand::StoreConfiguration)
        } else if value == 0x5A {
            Some(LssCommand::InquireVendorId)
        } else if value == 0x5B {
            Some(LssCommand::InquireProductCode)
        } else if value == 0x5C {
            Some(LssCommand::InquireRevisionNumber)
        } else if value == 0x5D {
            Some(LssCommand::InquireSerialNumber)
        } else if value == 0x5E {
            Some(LssCommand::InquireNodeId)
        } else if value == 0x46 {
            Some(LssCommand::IdentifyRemoteSlave)
        } else if value == 0x50 {
            Some(LssCommand::IdentifyNonConfiguredSlave)
        } else if value == 0x51 {
            Some(LssCommand::FastscanRequest)
        } else {
            None
        }
    }

    /// The command specifier byte.
    pub fn to_u8(self) -> (r: u8)
        ensures
            r == spec_lss_command_code(self),
    {
        match self {
            LssCommand::SwitchStateGlobal => 0x04,
            LssCommand::SwitchStateSelective => 0x40,
            LssCommand::ConfigureNodeId => 0x11,
            LssCommand::ConfigureBitTiming => 0x13,
            LssCommand::ActivateBitTiming => 0x15,
            LssCommand::StoreConfiguration => 0x17,
            LssCommand::InquireVendorId => 0x5A,
            LssCommand::InquireProductCode => 0x5B,
            LssCommand::InquireRevisionNumber => 0x5C,
            LssCommand::InquireSerialNumber => 0x5D,
            LssCommand::InquireNodeId => 0x5E,
            LssCommand::IdentifyRemoteSlave => 0x46,
            LssCommand::IdentifyNonConfiguredSlave => 0x50,
            LssCommand::FastscanRequest => 0x51,
        }
    }
}

/// Every command is decoded from its own specifier, so no two commands
/// share one.
pub proof fn lemma_lss_command_codes_unique(c: LssCommand, d: LssCommand)
    ensures
        spec_lss_command_from(spec_lss_command_code(c)) == Some(c),
        c != d ==> spec_lss_command_code(c) != spec_lss_command_code(d),
{
}

/// LSS error codes.
#[derive(Debug, Clone, Copy, PartialEq, Eq, Structural)]
pub enum LssError {
    Success,
    UnsupportedCommand,
    MediaAccessFailure,
    InvalidParameter,
    ManufacturerSpecific,
}

/// The error that an error byte stands for.
pub open spec fn spec_lss_error_from(v: u8) -> LssError {
    if v == 0 {
        LssError::Success
    } else if v == 1 {
        LssError::UnsupportedCommand
    } else if v == 2 {
        LssError::MediaAccessFailure
    } else if v == 3 {
        LssError::InvalidParameter
    } else {
        LssError::ManufacturerSpecific
    }
}

impl LssError {
    /// Decode an error byte; values above 3 are manufacturer specific.
    pub fn from_u8(value: u8) -> (r: LssError)
        ensures
            r == spec_lss_error_from(value),
    {
        if value == 0 {
            LssError::Success
        } else if value == 1 {
            LssError::UnsupportedCommand
        } else if value == 2 {
            LssError::MediaAccessFailure
        } else if value == 3 {
            LssError::InvalidParameter
        } else {
            LssError::ManufacturerSpecific
        }
    }

    /// The error byte of this error.
    pub fn to_u8(self) -> (r: u8)
        ensures
            r == match self {
                LssError::Success => 0u8,
                LssError::UnsupportedCommand => 1u8,
                LssError::MediaAccessFailure => 2u8,
                LssError::InvalidParameter => 3u8,
                LssError::ManufacturerSpecific => 0xFFu8,
            },
    {
        match self {
            LssError::Success => 0,
            LssError::UnsupportedCommand => 1,
            LssError::MediaAccessFailure => 2,
            LssError::InvalidParameter => 3,
            LssError::ManufacturerSpecific => 0xFF,
        }
    }

    /// Human-readable description.
    pub fn description(&self) -> (r: &'static str)
        ensures
            r@ == match *self {
                LssError::Success => "Success"@,
                LssError::UnsupportedCommand => "Unsupported Command"@,
                LssError::MediaAccessFailure => "Media Access Failure"@,
                LssError::InvalidParameter => "Invalid Parameter"@,
                LssError::ManufacturerSpecific => "Manufacturer Specific Error"@,
            },
    {
        match self {
            LssError::Success => "Success",
            LssError::UnsupportedCommand => "Unsupported Command",
            LssError::MediaAccessFailure => "Media Access Failure",
            LssError::InvalidParameter => "Invalid Parameter",
            LssError::ManufacturerSpecific => "Manufacturer Specific Error",
        }
    }
}

/// LSS state (CiA 305).
#[derive(Debug, Clone, Copy, PartialEq, Eq, Structural)]
pub enum LssMode {
    Operation,
    Configuration,
}

impl LssMode {
    /// The mode byte: 0 for operation, 1 for configuration.
    pub fn to_u8(self) -> (r: u8)
        ensures
            r == match self {
                LssMode::Operation => 0u8,
                LssMode::Configuration => 1u8,
            },
    {
        match self {
            LssMode::Operation => 0,
            LssMode::Configuration => 1,
        }
    }
}

/// LSS address (identity of a slave).
#[derive(Debug, Clone, Copy, PartialEq, Eq, Structural)]
pub struct LssAddress {
    pub vendor_id: u32,
    pub product_code: u32,
    pub revision_number: u32,
    pub serial_number: u32,
}

/// LSS response.
#[derive(Debug, Clone)]
pub enum LssResponse {
    /// Node-ID configuration response.
    ConfigureNodeId(LssError),
    /// Bit-rate configuration response.
    ConfigureBitRate(LssError),
    /// Store configuration response.
    StoreConfiguration(LssError),
    /// Inquire responses.
    InquireVendorId(u32),
    InquireProductCode(u32),
    InquireRevisionNumber(u32),
    InquireSerialNumber(u32),
    InquireNodeId(u8),
    /// Identification response.
    IdentifyResponse,
    /// Generic error.
    Error(String),
}

/// The response that slave data `d` stands for, if it is well formed.
pub open spec fn spec_parse_lss_response(d: Seq<u8>) -> Option<LssResponse> {
    if d.len() == 0 {
        None
    } else {
        match spec_lss_command_from(d[0]) {
            Some(LssCommand::ConfigureNodeId) => if d.len() >= 2 {
                Some(LssResponse::ConfigureNodeId(spec_lss_error_from(d[1])))
            } else {
                None
            },
            Some(LssCommand::ConfigureBitTiming) => if d.len() >= 2 {
                Some(LssResponse::ConfigureBitRate(spec_lss_error_from(d[1])))
            } else {
                None
            },
            Some(LssCommand::StoreConfiguration) => if d.len() >= 2 {
                Some(LssResponse::StoreConfiguration(spec_lss_error_from(d[1])))
            } else {
                None
            },
            Some(LssCommand::InquireVendorId) => if d.len() >= 5 {
                Some(LssResponse::InquireVendorId(le_u32(d[1], d[2], d[3], d[4])))
            } else {
                None
            },
            Some(LssCommand::InquireProductCode) => if d.len() >= 5 {
                Some(LssResponse::InquireProductCode(le_u32(d[1], d[2], d[3], d[4])))
            } else {
                None
            },
            Some(LssCommand::InquireRevisionNumber) => if d.len() >= 5 {
                Some(LssResponse::InquireRevisionNumber(le_u32(d[1], d[2], d[3], d[4])))
            } else {
                None
            },
            Some(LssCommand::InquireSerialNumber) => if d.len() >= 5 {
                Some(LssResponse::InquireSerialNumber(le_u32(d[1], d[2], d[3], d[4])))
            } else {
                None
            },
            Some(LssCommand::InquireNodeId) => if d.len() >= 2 {
                Some(LssResponse::InquireNodeId(d[1]))
            } else {
                None
            },
            Some(LssCommand::IdentifyRemoteSlave) => Some(LssResponse::IdentifyResponse),
            _ => None,
        }
    }
}

/// Parse an LSS slave response; malformed or unknown responses are
/// `InvalidMessage`.
pub fn parse_response(data: &[u8]) -> (r: Result<LssResponse>)
    ensures
        r is Ok <==> spec_parse_lss_response(data@) is Some,
        r matches Ok(resp) ==> spec_parse_lss_response(data@) == Some(resp),
        r matches Err(e) ==> e is InvalidMessage,
{
    if data.len() == 0 {
        return Err(CANopenError::InvalidMessage);
    }
    let cs: u8 = data[0];
    match LssCommand::from_u8(cs) {
        Some(LssCommand::ConfigureNodeId) => {
            if data.len() >= 2 {
                Ok(LssResponse::ConfigureNodeId(LssError::from_u8(data[1])))
            } else {
                Err(CANopenError::InvalidMessage)
            }
        },
        Some(LssCommand::ConfigureBitTiming) => {
            if data.len() >= 2 {
                Ok(LssResponse::ConfigureBitRate(LssError::from_u8(data[1])))
            } else {
                Err(CANopenError::InvalidMessage)
            }
        },
        Some(LssCommand::StoreConfiguration) => {
            if data.len() >= 2 {
                Ok(LssResponse::StoreConfiguration(LssError::from_u8(data[1])))
            } else {
                Err(CANopenError::InvalidMessage)
            }
        },
        Some(LssCommand::InquireVendorId) => {
            if data.len() >= 5 {
                Ok(LssResponse::InquireVendorId(u32_from_le(data[1], data[2], data[3], data[4])))
            } else {
                Err(CANopenError::InvalidMessage)
            }
        },
        Some(LssCommand::InquireProductCode) => {
            if data.len() >= 5 {
                Ok(
                    LssResponse::InquireProductCode(
                        u32_from_le(data[1], data[2], data[3], data[4]),
                    ),
                )
            } else {
                Err(CANopenError::InvalidMessage)
            }
        },
        Some(LssCommand::InquireRevisionNumber) => {
            if data.len() >= 5 {
                Ok(
                    LssResponse::InquireRevisionNumber(
                        u32_from_le(data[1], data[2], data[3], data[4]),
                    ),
                )
            } else {
                Err(CANopenError::InvalidMessage)
            }
        },
        Some(LssCommand::InquireSerialNumber) => {
            if data.len() >= 5 {
                Ok(
                    LssResponse::InquireSerialNumber(
                        u32_from_le(data[1], data[2], data[3], data[4]),
                    ),
                )
            } else {
                Err(CANopenError::InvalidMessage)
            }
        },
        Some(LssCommand::InquireNodeId) => {
            if data.len() >= 2 {
                Ok(LssResponse::InquireNodeId(data[1]))
            } else {
                Err(CANopenError::InvalidMessage)
            }
        },
        Some(LssCommand::IdentifyRemoteSlave) => Ok(LssResponse::IdentifyResponse),
        _ => Err(CANopenError::InvalidMessage),
    }
}

/// An 8-byte LSS frame: command specifier, then `payload`, then zeros.
pub open spec fn spec_lss_frame(cs: u8, payload: Seq<u8>) -> Seq<u8> {
    seq![cs] + payload + Seq::new((7 - payload.len()) as nat, |i: int| 0u8)
}

/// Builds an 8-byte LSS frame from a command specifier and up to 7 payload
/// bytes.
fn lss_frame(cs: u8, payload: &[u8]) -> (r: Vec<u8>)
    requires
        payload@.len() <= 7,
    ensures
        r@ == spec_lss_frame(cs, payload@),
        r@.len() == 8,
{
    let mut out: Vec<u8> = Vec::new();
    out.push(cs);
    let mut i: usize = 0;
    while i < payload.len()
        invariant
            i <= payload@.len() <= 7,
            out@ == seq![cs] + payload@.subrange(0, i as int),
        decreases payload@.len() - i,
    {
        out.push(payload[i]);
        i = i + 1;
        proof {
            assert(payload@.subrange(0, i as int) =~= payload@.subrange(0, i - 1).push(
                payload@[i - 1],
            ));
        }
    }
    while out.len() < 8
        invariant
            1 + payload@.len() <= out@.len() <= 8,
            out@ == seq![cs] + payload@ + Seq::new(
                (out@.len() - 1 - payload@.len()) as nat,
                |i: int| 0u8,
            ),
        decreases 8 - out@.len(),
    {
        let ghost before = out@;
        out.push(0);
        proof {
            assert(out@ =~= seq![cs] + payload@ + Seq::new(
                (out@.len() - 1 - payload@.len()) as nat,
                |i: int| 0u8,
            ));
        }
    }
    proof {
        assert(payload@.subrange(0, payload@.len() as int) =~= payload@);
    }
    out
}

/// The LSS master message (COB-ID 0x7E5) carrying `frame`.
pub fn lss_master_message(frame: Vec<u8>) -> (r: CanMessage)
    requires
        frame@.len() <= 8,
    ensures
        r.id.0 == LSS_MASTER_TX,
        r.data@ == frame@,
        !r.remote,
{
    CanMessage::new_unchecked(LSS_MASTER_TX, frame)
}

/// Switch-state-global request for `mode`.
pub fn switch_state_global_frame(mode: LssMode) -> (r: Vec<u8>)
    ensures
        r@ == spec_lss_frame(0x04, seq![if mode == LssMode::Configuration { 1u8 } else { 0u8 }]),
{
    let payload: Vec<u8> = vec![mode.to_u8()];
    lss_frame(LssCommand::SwitchStateGlobal.to_u8(), payload.as_slice())
}

/// The five switch-state-selective requests for `address`: specifiers 0x40
/// to 0x43 with vendor-ID, product code, revision and serial number, then
/// 0x44 with zero.
pub fn switch_state_selective_frames(address: &LssAddress) -> (r: Vec<Vec<u8>>)
    ensures
        r@.len() == 5,
        r@[0]@ == spec_lss_frame(0x40, u32_le_bytes(address.vendor_id)),
        r@[1]@ == spec_lss_frame(0x41, u32_le_bytes(address.product_code)),
        r@[2]@ == spec_lss_frame(0x42, u32_le_bytes(address.revision_number)),
        r@[3]@ == spec_lss_frame(0x43, u32_le_bytes(address.serial_number)),
        r@[4]@ == spec_lss_frame(0x44, u32_le_bytes(0)),
{
    let mut frames: Vec<Vec<u8>> = Vec::new();
    frames.push(selective_frame(0x40, address.vendor_id));
    frames.push(selective_frame(0x41, address.product_code));
    frames.push(selective_frame(0x42, address.revision_number));
    frames.push(selective_frame(0x43, address.serial_number));
    frames.push(selective_frame(0x44, 0));
    frames
}

/// One switch-state-selective request.
fn selective_frame(cs: u8, value: u32) -> (r: Vec<u8>)
    ensures
        r@ == spec_lss_frame(cs, u32_le_bytes(value)),
{
    let mut payload: Vec<u8> = Vec::new();
    push_u32_le(&mut payload, value);
    proof {
        assert(payload@ =~= u32_le_bytes(value));
    }
    lss_frame(cs, payload.as_slice())
}

/// Configure-node-ID request; node-IDs outside 1..=127 are refused with
/// `InvalidData`.
pub fn configure_node_id_frame(node_id: u8) -> (r: Result<Vec<u8>>)
    ensures
        r is Ok <==> 1 <= node_id <= 127,
        r matches Ok(f) ==> f@ == spec_lss_frame(0x11, seq![node_id]),
        r matches Err(e) ==> (e matches CANopenError::InvalidData(m) && m@ == "Node ID must be 1-127"@),
{
    if node_id == 0 || node_id > 127 {
        return Err(CANopenError::InvalidData(String::from_str("Node ID must be 1-127")));
    }
    let payload: Vec<u8> = vec![node_id];
    Ok(lss_frame(LssCommand::ConfigureNodeId.to_u8(), payload.as_slice()))
}

/// Configure-bit-timing request.
pub fn configure_bit_rate_frame(table_selector: u8, table_index: u8) -> (r: Vec<u8>)
    ensures
        r@ == spec_lss_frame(0x13, seq![table_selector, table_index]),
{
    let payload: Vec<u8> = vec![table_selector, table_index];
    lss_frame(LssCommand::ConfigureBitTiming.to_u8(), payload.as_slice())
}

/// Activate-bit-timing request with the switch delay in milliseconds.
pub fn activate_bit_rate_frame(switch_delay_ms: u16) -> (r: Vec<u8>)
    ensures
        r@ == spec_lss_frame(
            0x15,
            seq![(switch_delay_ms & 0xff) as u8, ((switch_delay_ms >> 8) & 0xff) as u8],
        ),
{
    let payload: Vec<u8> = vec![(switch_delay_ms & 0xff) as u8, ((switch_delay_ms >> 8) & 0xff) as u8];
    lss_frame(LssCommand::ActivateBitTiming.to_u8(), payload.as_slice())
}

/// Request made of a command specifier and seven zero bytes (store
/// configuration, inquiries, identification).
pub fn command_only_frame(command: LssCommand) -> (r: Vec<u8>)
    ensures
        r@ == spec_lss_frame(spec_lss_command_code(command), Seq::empty()),
{
    let payload: Vec<u8> = Vec::new();
    lss_frame(command.to_u8(), payload.as_slice())
}

/// The result of a configure-node-ID request, from its response.
pub fn configure_node_id_result(response: LssResponse) -> (r: Result<LssError>)
    ensures
        match response {
            LssResponse::ConfigureNodeId(e) => r == Ok::<LssError, CANopenError>(e),
            _ => r matches Err(e) && e is InvalidMessage,
        },
{
    match response {
        LssResponse::ConfigureNodeId(error) => Ok(error),
        _ => Err(CANopenError::InvalidMessage),
    }
}

/// The result of a configure-bit-timing request, from its response.
pub fn configure_bit_rate_result(response: LssResponse) -> (r: Result<LssError>)
    ensures
        match response {
            LssResponse::ConfigureBitRate(e) => r == Ok::<LssError, CANopenError>(e),
            _ => r matches Err(e) && e is InvalidMessage,
        },
{
    match response {
        LssResponse::ConfigureBitRate(error) => Ok(error),
        _ => Err(CANopenError::InvalidMessage),
    }
}

/// The result of a store-configuration request, from its response.
pub fn store_configuration_result(response: LssResponse) -> (r: Result<LssError>)
    ensures
        match response {
            LssResponse::StoreConfiguration(e) => r == Ok::<LssError, CANopenError>(e),
            _ => r matches Err(e) && e is InvalidMessage,
        },
{
    match response {
        LssResponse::StoreConfiguration(error) => Ok(error),
        _ => Err(CANopenError::InvalidMessage),
    }
}

/// The result of identify-remote-slave: a response means the slave is
/// there, a timeout means it is not, other errors are passed on.
pub fn identify_remote_slave_result(response: Result<LssResponse>) -> (r: Result<bool>)
    ensures
        match response {
            Ok(LssResponse::IdentifyResponse) => r == Ok::<bool, CANopenError>(true),
            Ok(_) => r matches Err(e) && e is InvalidMessage,
            Err(CANopenError::Timeout) => r == Ok::<bool, CANopenError>(false),
            Err(e) => r == Err::<bool, CANopenError>(e),
        },
{
    match response {
        Ok(LssResponse::IdentifyResponse) => Ok(true),
        Err(CANopenError::Timeout) => Ok(false),
        Err(e) => Err(e),
        _ => Err(CANopenError::InvalidMessage),
    }
}

/// The value that `response` answers to inquiry `command`, if it is the
/// matching kind of response.
pub open spec fn spec_inquiry_value(command: LssCommand, response: LssResponse) -> Option<u32> {
    match (command, response) {
        (LssCommand::InquireVendorId, LssResponse::InquireVendorId(v)) => Some(v),
        (LssCommand::InquireProductCode, LssResponse::InquireProductCode(v)) => Some(v),
        (LssCommand::InquireRevisionNumber, LssResponse::InquireRevisionNumber(v)) => Some(v),
        (LssCommand::InquireSerialNumber, LssResponse::InquireSerialNumber(v)) => Some(v),
        (LssCommand::InquireNodeId, LssResponse::InquireNodeId(v)) => Some(v as u32),
        _ => None,
    }
}

/// The value that `response` answers to inquiry `command`, if it is the
/// matching kind of response.
pub fn inquiry_value(command: LssCommand, response: &LssResponse) -> (r: Option<u32>)
    ensures
        r == spec_inquiry_value(command, *response),
{
    match (command, response) {
        (LssCommand::InquireVendorId, LssResponse::InquireVendorId(v)) => Some(*v),
        (LssCommand::InquireProductCode, LssResponse::InquireProductCode(v)) => Some(*v),
        (LssCommand::InquireRevisionNumber, LssResponse::InquireRevisionNumber(v)) => Some(*v),
        (LssCommand::InquireSerialNumber, LssResponse::InquireSerialNumber(v)) => Some(*v),
        (LssCommand::InquireNodeId, LssResponse::InquireNodeId(v)) => Some(*v as u32),
        _ => None,
    }
}

/// The outcome of an inquiry that expects one answer: its value, an
/// `InvalidMessage` error for a response of another kind, or the error of
/// the exchange.
pub fn single_inquiry_result(command: LssCommand, response: Result<LssResponse>) -> (r: Result<u32>)
    ensures
        match response {
            Ok(resp) => match spec_inquiry_value(command, resp) {
                Some(v) => r == Ok::<u32, CANopenError>(v),
                None => r matches Err(e) && e is InvalidMessage,
            },
            Err(e) => r == Err::<u32, CANopenError>(e),
        },
{
    match response {
        Ok(resp) => match inquiry_value(command, &resp) {
            Some(v) => Ok(v),
            None => Err(CANopenError::InvalidMessage),
        },
        Err(e) => Err(e),
    }
}

/// No value occurs twice.
pub open spec fn no_duplicates(s: Seq<u32>) -> bool {
    forall|i: int, j: int| 0 <= i < j < s.len() ==> s[i] != s[j]
}

/// Records one response to an inquiry: a matching value is appended unless
/// already present; a response of another kind, or one that failed to
/// parse, is skipped and collection goes on.
pub fn record_inquiry_response(
    values: &mut Vec<u32>,
    command: LssCommand,
    response: &Result<LssResponse>,
)
    ensures
        match response {
            Ok(resp) => match spec_inquiry_value(command, *resp) {
                Some(v) => final(values)@ == (if old(values)@.contains(v) {
                    old(values)@
                } else {
                    old(values)@.push(v)
                }),
                None => final(values)@ == old(values)@,
            },
            Err(_) => final(values)@ == old(values)@,
        },
{
    if let Ok(resp) = response {
        if let Some(v) = inquiry_value(command, resp) {
            if !contains_value(values, v) {
                values.push(v);
            }
        }
    }
}

/// Whether `v` occurs in `values`.
fn contains_value(values: &Vec<u32>, v: u32) -> (r: bool)
    ensures
        r == values@.contains(v),
{
    let mut i: usize = 0;
    while i < values.len()
        invariant
            i <= values@.len(),
            forall|j: int| 0 <= j < i ==> values@[j] != v,
        decreases values@.len() - i,
    {
        if values[i] == v {
            return true;
        }
        i = i + 1;
    }
    false
}

/// Recording a response never introduces a duplicate.
pub proof fn lemma_inquiry_keeps_unique(before: Seq<u32>, v: u32)
    requires
        no_duplicates(before),
    ensures
        no_duplicates(if before.contains(v) {
            before
        } else {
            before.push(v)
        }),
{
    if !before.contains(v) {
        let after = before.push(v);
        assert forall|i: int, j: int| 0 <= i < j < after.len() implies after[i] != after[j] by {
            if j == before.len() {
                assert(before[i] == after[i]);
            }
        }
    }
}

/// The outcome of an inquiry: the values collected, or `Timeout` if none
/// came.
pub fn finish_inquiry(values: Vec<u32>) -> (r: Result<Vec<u32>>)
    ensures
        values@.len() == 0 ==> (r matches Err(e) && e is Timeout),
        values@.len() > 0 ==> (r matches Ok(v) && v@ == values@),
{
    if values.len() == 0 {
        Err(CANopenError::Timeout)
    } else {
        Ok(values)
    }
}

} // verus!
