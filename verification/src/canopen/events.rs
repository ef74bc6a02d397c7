//! Distribution of received messages: the event record handed to
//! subscribers, the subscriber channel each message type goes to, and the
//! protocol handler each received frame goes to.
use vstd::prelude::*;
use std::time::SystemTime;
use crate::utils::system_time_now;
use crate::canopen::message::{CanMessage, MessageType, spec_message_type};
use crate::canopen::emcy::spec_is_emcy_cob_id;
use crate::canopen::pdo::spec_is_pdo_cob_id;

verus! {

/// A received message with the time it was handed to subscribers.
#[derive(Debug, Clone)]
pub struct MessageEvent {
    pub message: CanMessage,
    pub timestamp: SystemTime,
}

impl MessageEvent {
    /// An event for `message`, stamped with the current time.
    pub fn new(message: CanMessage) -> (r: MessageEvent)
        ensures
            r.message == message,
    {
        MessageEvent { message, timestamp: system_time_now() }
    }
}

/// The per-protocol subscriber channels; every message also goes to the
/// channel of all packets.
#[derive(Debug, Clone, Copy, PartialEq, Eq, Structural)]
pub enum EventChannel {
    Sdo,
    Nmt,
    Pdo,
    Emergency,
    Sync,
    Lss,
    Time,
}

/// The protocol channel of each message type; unknown messages only go to
/// the channel of all packets.
pub open spec fn spec_event_channel(mt: MessageType) -> Option<EventChannel> {
    match mt {
        MessageType::Sdo => Some(EventChannel::Sdo),
        MessageType::Nmt | MessageType::NmtErrorControl => Some(EventChannel::Nmt),
        MessageType::Pdo => Some(EventChannel::Pdo),
        MessageType::Emergency => Some(EventChannel::Emergency),
        MessageType::Sync => Some(EventChannel::Sync),
        MessageType::Lss => Some(EventChannel::Lss),
        MessageType::TimeStamp => Some(EventChannel::Time),
        MessageType::Unknown => None,
    }
}

/// The protocol channel that a message of type `mt` is emitted on, besides
/// the channel of all packets.
pub fn event_channel(mt: MessageType) -> (r: Option<EventChannel>)
    ensures
        r == spec_event_channel(mt),
{
    match mt {
        MessageType::Sdo => Some(EventChannel::Sdo),
        MessageType::Nmt | MessageType::NmtErrorControl => Some(EventChannel::Nmt),
        MessageType::Pdo => Some(EventChannel::Pdo),
        MessageType::Emergency => Some(EventChannel::Emergency),
        MessageType::Sync => Some(EventChannel::Sync),
        MessageType::Lss => Some(EventChannel::Lss),
        MessageType::TimeStamp => Some(EventChannel::Time),
        MessageType::Unknown => None,
    }
}

/// The protocol handler that takes in a received frame before it is passed
/// on to the SDO client and to the subscribers.
#[derive(Debug, Clone, Copy, PartialEq, Eq, Structural)]
pub enum ReceiveRoute {
    /// LSS response from a slave (COB-ID 0x7E4).
    LssResponse,
    /// SYNC (COB-ID 0x080).
    Sync,
    /// Emergency (COB-ID 0x081-0x0FF).
    Emergency,
    /// Heartbeat or node-guard reply (COB-ID 0x700-0x77F).
    Heartbeat,
    /// Process data (COB-ID 0x180-0x57F).
    Pdo,
    /// No protocol handler.
    Unhandled,
}

/// The handler of a received frame on `cob_id`, checked in this order: LSS
/// response, SYNC, emergency, NMT error control, PDO.
pub open spec fn spec_receive_route(cob_id: u16) -> ReceiveRoute {
    if cob_id == 0x7E4 {
        ReceiveRoute::LssResponse
    } else if cob_id == 0x80 {
        ReceiveRoute::Sync
    } else if 0x81 <= cob_id <= 0xFF {
        ReceiveRoute::Emergency
    } else if spec_message_type(cob_id) == MessageType::NmtErrorControl {
        ReceiveRoute::Heartbeat
    } else if 0x180 <= cob_id <= 0x57F {
        ReceiveRoute::Pdo
    } else {
        ReceiveRoute::Unhandled
    }
}

/// The receive routes agree with the message types: a frame goes to the
/// SYNC, emergency, PDO or heartbeat handler exactly when its COB-ID is of
/// that type, and the emergency and PDO handlers get exactly the COB-IDs
/// that their managers accept.
pub proof fn lemma_routes_follow_message_type(cob_id: u16)
    ensures
        (spec_receive_route(cob_id) == ReceiveRoute::Sync) <==> (spec_message_type(cob_id)
            == MessageType::Sync),
        (spec_receive_route(cob_id) == ReceiveRoute::Emergency) <==> (spec_message_type(cob_id)
            == MessageType::Emergency),
        (spec_receive_route(cob_id) == ReceiveRoute::Pdo) <==> (spec_message_type(cob_id)
            == MessageType::Pdo),
        (spec_receive_route(cob_id) == ReceiveRoute::Heartbeat) <==> (spec_message_type(cob_id)
            == MessageType::NmtErrorControl),
        (spec_receive_route(cob_id) == ReceiveRoute::Emergency) <==> spec_is_emcy_cob_id(cob_id),
        (spec_receive_route(cob_id) == ReceiveRoute::Pdo) <==> spec_is_pdo_cob_id(cob_id),
{
}

/// The protocol handler of a received message.
pub fn receive_route(message: &CanMessage) -> (r: ReceiveRoute)
    ensures
        r == spec_receive_route(message.id.0),
{
    let cob_id = message.id.raw();
    if cob_id == 0x7E4 {
        ReceiveRoute::LssResponse
    } else if cob_id == 0x80 {
        ReceiveRoute::Sync
    } else if 0x81 <= cob_id && cob_id <= 0xFF {
        ReceiveRoute::Emergency
    } else if message.message_type() == MessageType::NmtErrorControl {
        ReceiveRoute::Heartbeat
    } else if 0x180 <= cob_id && cob_id <= 0x57F {
        ReceiveRoute::Pdo
    } else {
        ReceiveRoute::Unhandled
    }
}

} // verus!
