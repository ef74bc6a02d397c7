//! PEAK CAN (PCAN-Basic) frames: conversion between library messages and
//! the driver's frame record, the bus-timing register values, and what the
//! receive loop does with each read status.
use vstd::prelude::*;
use vstd::string::StringExecFns;
use crate::errors::{CANopenError, Result};
use crate::canopen::message::CanMessage;
use crate::hardware::BusSpeed;

verus! {

/// Status of a successful driver call.
pub const PCAN_ERROR_OK: u32 = 0x00000;
/// Status of a read on an empty receive queue.
pub const PCAN_ERROR_QRCVEMPTY: u32 = 0x0020;
/// Message type of a standard data frame.
pub const PCAN_MESSAGE_STANDARD: u8 = 0x00;
/// Message type flag of a remote transmission request.
pub const PCAN_MESSAGE_RTR: u8 = 0x02;

impl BusSpeed {
    /// The PCAN-Basic baud-rate code (bus-timing registers BTR0/BTR1) for
    /// this bit rate.
    pub fn to_pcan_baud(self) -> (r: u16)
        ensures
            r == match self {
                BusSpeed::Baud125K => 0x031Cu16,
                BusSpeed::Baud250K => 0x011Cu16,
                BusSpeed::Baud500K => 0x001Cu16,
                BusSpeed::Baud1M => 0x0014u16,
            },
    {
        match self {
            BusSpeed::Baud125K => 0x031C,
            BusSpeed::Baud250K => 0x011C,
            BusSpeed::Baud500K => 0x001C,
            BusSpeed::Baud1M => 0x0014,
        }
    }
}

/// PCAN-USB channel handles.
#[derive(Debug, Clone, Copy, PartialEq, Eq, Structural)]
pub enum PcanHandle {
    PcanUsbbus1,
    PcanUsbbus2,
    PcanUsbbus3,
    PcanUsbbus4,
    PcanUsbbus5,
    PcanUsbbus6,
    PcanUsbbus7,
    PcanUsbbus8,
}

impl PcanHandle {
    /// The channel handle value of the driver (0x51 to 0x58).
    pub fn code(self) -> (r: u16)
        ensures
            r == match self {
                PcanHandle::PcanUsbbus1 => 0x51u16,
                PcanHandle::PcanUsbbus2 => 0x52u16,
                PcanHandle::PcanUsbbus3 => 0x53u16,
                PcanHandle::PcanUsbbus4 => 0x54u16,
                PcanHandle::PcanUsbbus5 => 0x55u16,
                PcanHandle::PcanUsbbus6 => 0x56u16,
                PcanHandle::PcanUsbbus7 => 0x57u16,
                PcanHandle::PcanUsbbus8 => 0x58u16,
            },
    {
        match self {
            PcanHandle::PcanUsbbus1 => 0x51,
            PcanHandle::PcanUsbbus2 => 0x52,
            PcanHandle::PcanUsbbus3 => 0x53,
            PcanHandle::PcanUsbbus4 => 0x54,
            PcanHandle::PcanUsbbus5 => 0x55,
            PcanHandle::PcanUsbbus6 => 0x56,
            PcanHandle::PcanUsbbus7 => 0x57,
            PcanHandle::PcanUsbbus8 => 0x58,
        }
    }
}

/// A CAN frame as the PCAN-Basic driver reads and writes it.
#[derive(Debug, Clone, Copy, PartialEq, Eq)]
pub struct PcanMessage {
    /// CAN identifier.
    pub id: u32,
    /// Frame type flags (standard, RTR, ...).
    pub msg_type: u8,
    /// Data length code (0 to 8).
    pub len: u8,
    /// Data bytes; only the first `len` are meaningful.
    pub data: [u8; 8],
}

/// The receive time stamp of the PCAN-Basic driver.
#[derive(Debug, Clone, Copy, PartialEq, Eq, Structural)]
pub struct PcanTimestamp {
    /// Milliseconds.
    pub millis: u32,
    /// Roll-arounds of `millis`.
    pub millis_overflow: u16,
    /// Microseconds (0 to 999).
    pub micros: u16,
}

/// `p` is the driver frame of a message with identifier `id`, payload
/// `data` and remote flag `remote`: at most 8 payload bytes are carried,
/// and the unused data bytes are zero.
pub open spec fn spec_pcan_frame_of(p: PcanMessage, id: u16, data: Seq<u8>, remote: bool) -> bool {
    let n = if data.len() <= 8 { data.len() } else { 8 };
    &&& p.id == id
    &&& p.msg_type == if remote { PCAN_MESSAGE_RTR } else { PCAN_MESSAGE_STANDARD }
    &&& p.len == n
    &&& forall|i: int| 0 <= i < 8 ==> #[trigger] p.data@[i] == if i < n { data[i] } else { 0u8 }
}

/// The driver frame of `message`; a payload longer than 8 bytes is cut to
/// its first 8 bytes.
pub fn can_message_to_pcan(message: &CanMessage) -> (r: PcanMessage)
    ensures
        spec_pcan_frame_of(r, message.id.0, message.data@, message.remote),
{
    let mut data: [u8; 8] = [0u8; 8];
    let len: usize = if message.data.len() <= 8 { message.data.len() } else { 8 };
    let mut i: usize = 0;
    while i < len
        invariant
            len <= 8,
            len <= message.data@.len(),
            i <= len,
            forall|j: int| 0 <= j < 8 ==> #[trigger] data@[j] == if j < i { message.data@[j] } else { 0u8 },
        decreases len - i,
    {
        data[i] = message.data[i];
        i = i + 1;
    }
    PcanMessage {
        id: message.id.raw() as u32,
        msg_type: if message.remote { PCAN_MESSAGE_RTR } else { PCAN_MESSAGE_STANDARD },
        len: len as u8,
        data,
    }
}

/// The message that a driver frame holds. A length code above 8 gives
/// `InvalidLength`, an identifier above 0x7FF gives `InvalidData`; the RTR
/// flag sets the remote flag.
pub fn pcan_to_can_message(pcan_msg: &PcanMessage) -> (r: Result<CanMessage>)
    ensures
        pcan_msg.len > 8 ==> (r matches Err(CANopenError::InvalidLength(n)) && n == pcan_msg.len),
        pcan_msg.len <= 8 && pcan_msg.id > 0x7FF ==> (r matches Err(CANopenError::InvalidData(m))
            && m@ == "CAN ID exceeds 11-bit limit"@),
        pcan_msg.len <= 8 && pcan_msg.id <= 0x7FF ==> (r matches Ok(m) && m.id.0 == pcan_msg.id
            && m.data@ == pcan_msg.data@.subrange(0, pcan_msg.len as int)
            && m.remote == (pcan_msg.msg_type & PCAN_MESSAGE_RTR != 0)),
{
    if pcan_msg.len > 8 {
        return Err(CANopenError::InvalidLength(pcan_msg.len as usize));
    }
    if pcan_msg.id > 0x7FF {
        return Err(CANopenError::InvalidData(String::from_str("CAN ID exceeds 11-bit limit")));
    }
    let len: usize = pcan_msg.len as usize;
    let mut data: Vec<u8> = Vec::new();
    let mut i: usize = 0;
    while i < len
        invariant
            len == pcan_msg.len,
            len <= 8,
            i <= len,
            data@ == pcan_msg.data@.subrange(0, i as int),
        decreases len - i,
    {
        data.push(pcan_msg.data[i]);
        proof {
            assert(pcan_msg.data@.subrange(0, i + 1) =~= pcan_msg.data@.subrange(0, i as int).push(
                pcan_msg.data@[i as int]));
        }
        i = i + 1;
    }
    let remote = (pcan_msg.msg_type & PCAN_MESSAGE_RTR) != 0;
    CanMessage::with_timestamp(pcan_msg.id as u16, data, remote)
}

/// Converting a message with an 11-bit identifier and at most 8 payload
/// bytes to its driver frame and back gives the same identifier, payload
/// and remote flag.
pub proof fn lemma_pcan_frame_roundtrip(p: PcanMessage, id: u16, data: Seq<u8>, remote: bool)
    requires
        spec_pcan_frame_of(p, id, data, remote),
        id <= 0x7FF,
        data.len() <= 8,
    ensures
        p.len <= 8,
        p.id <= 0x7FF,
        p.id == id,
        p.data@.subrange(0, p.len as int) == data,
        (p.msg_type & PCAN_MESSAGE_RTR != 0) == remote,
{
    assert(p.data@.subrange(0, p.len as int) =~= data);
    assert((2u8 & 2u8) != 0u8 && (0u8 & 2u8) == 0u8) by (bit_vector);
}

/// What the receive loop does after a driver read.
#[derive(Debug)]
pub enum PcanReadAction {
    /// Pass the received message on.
    Deliver(CanMessage),
    /// The frame could not be converted; report the error and go on.
    Reject(CANopenError),
    /// Wait this many milliseconds before the next read.
    Wait(u64),
}

/// The action for a read that returned `status` and, when it succeeded,
/// filled `frame`: deliver or reject the frame on success, wait 1 ms on an
/// empty queue, and 10 ms on any other status.
pub fn pcan_read_action(status: u32, frame: &PcanMessage) -> (r: PcanReadAction)
    ensures
        status == PCAN_ERROR_OK ==> match r {
            PcanReadAction::Deliver(m) => frame.len <= 8 && frame.id <= 0x7FF && m.id.0 == frame.id
                && m.data@ == frame.data@.subrange(0, frame.len as int)
                && m.remote == (frame.msg_type & PCAN_MESSAGE_RTR != 0),
            PcanReadAction::Reject(e) => if frame.len > 8 {
                e matches CANopenError::InvalidLength(n) && n == frame.len
            } else {
                frame.id > 0x7FF && (e matches CANopenError::InvalidData(m)
                    && m@ == "CAN ID exceeds 11-bit limit"@)
            },
            PcanReadAction::Wait(_) => false,
        },
        status == PCAN_ERROR_QRCVEMPTY ==> (r matches PcanReadAction::Wait(ms) && ms == 1),
        status != PCAN_ERROR_OK && status != PCAN_ERROR_QRCVEMPTY ==> (r matches PcanReadAction::Wait(ms)
            && ms == 10),
{
    if status == PCAN_ERROR_OK {
        match pcan_to_can_message(frame) {
            Ok(m) => PcanReadAction::Deliver(m),
            Err(e) => PcanReadAction::Reject(e),
        }
    } else if status == PCAN_ERROR_QRCVEMPTY {
        PcanReadAction::Wait(1)
    } else {
        PcanReadAction::Wait(10)
    }
}

} // verus!
