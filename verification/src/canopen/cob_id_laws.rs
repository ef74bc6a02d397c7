//! Laws of COB-ID classification, stated over the predefined connection
//! set: each function code's base COB-ID plus a node-ID.
use vstd::prelude::*;
use crate::canopen::message::cob_ids::{
    EMERGENCY_BASE, LSS_BASE, NMT_COMMAND, NMT_ERROR_CONTROL_BASE, PDO1_RX_BASE, PDO1_TX_BASE,
    PDO2_RX_BASE, PDO2_TX_BASE, PDO3_RX_BASE, PDO3_TX_BASE, PDO4_RX_BASE, PDO4_TX_BASE,
    SDO_RX_BASE, SDO_TX_BASE, SYNC, TIME_STAMP,
};
use crate::canopen::message::{
    spec_is_pdo_rx, spec_is_pdo_tx, spec_message_type, spec_node_id, spec_pdo_number, MessageType,
};

verus! {

/// Each message type is carried on exactly the COB-IDs that the predefined
/// connection set gives it: NMT on 0x000, SYNC on 0x080, TIME on 0x100,
/// EMCY on 0x080 + node-ID 1 to 127, PDOs from the PDO1 transmit base
/// (0x180) through the PDO4 receive base (0x500) + node-ID, SDO on the
/// server-to-client (0x580) and client-to-server (0x600) bases + node-ID,
/// heartbeats on 0x700 + node-ID, LSS on 0x7E4 and 0x7E5; every other
/// COB-ID is unknown.
pub proof fn lemma_message_type_by_cob_id(cob: u16)
    ensures
        (spec_message_type(cob) == MessageType::Nmt) <==> cob == NMT_COMMAND,
        (spec_message_type(cob) == MessageType::Sync) <==> cob == SYNC,
        (spec_message_type(cob) == MessageType::TimeStamp) <==> cob == TIME_STAMP,
        (spec_message_type(cob) == MessageType::Emergency) <==> (EMERGENCY_BASE + 1 <= cob
            <= EMERGENCY_BASE + 127),
        (spec_message_type(cob) == MessageType::Pdo) <==> (PDO1_TX_BASE <= cob <= PDO4_RX_BASE
            + 127),
        (spec_message_type(cob) == MessageType::Sdo) <==> (SDO_TX_BASE <= cob <= SDO_RX_BASE + 127),
        (spec_message_type(cob) == MessageType::NmtErrorControl) <==> (NMT_ERROR_CONTROL_BASE <= cob
            <= NMT_ERROR_CONTROL_BASE + 127),
        (spec_message_type(cob) == MessageType::Lss) <==> (cob == LSS_BASE || cob == LSS_BASE + 1),
        (spec_message_type(cob) == MessageType::Unknown) <==> !(cob == NMT_COMMAND || (SYNC <= cob <= TIME_STAMP) || (PDO1_TX_BASE <= cob
            <= SDO_RX_BASE + 127) || (NMT_ERROR_CONTROL_BASE <= cob <= NMT_ERROR_CONTROL_BASE + 127)
            || cob == LSS_BASE || cob == LSS_BASE + 1),
{
}

/// A COB-ID made of a function code's base and a node-ID 1 to 127 carries
/// that node-ID; PDO COB-IDs also carry their PDO number (1 to 4) and
/// direction (transmit bases 0x180, 0x280, 0x380, 0x480; receive bases
/// 0x200, 0x300, 0x400, 0x500).
pub proof fn lemma_node_id_of_cob_id(node: u8)
    requires
        1 <= node <= 127,
    ensures
        spec_node_id((EMERGENCY_BASE + node) as u16) == Some(node),
        spec_node_id((SDO_TX_BASE + node) as u16) == Some(node),
        spec_node_id((SDO_RX_BASE + node) as u16) == Some(node),
        spec_node_id((NMT_ERROR_CONTROL_BASE + node) as u16) == Some(node),
        spec_node_id((PDO1_TX_BASE + node) as u16) == Some(node),
        spec_node_id((PDO1_RX_BASE + node) as u16) == Some(node),
        spec_node_id((PDO2_TX_BASE + node) as u16) == Some(node),
        spec_node_id((PDO2_RX_BASE + node) as u16) == Some(node),
        spec_node_id((PDO3_TX_BASE + node) as u16) == Some(node),
        spec_node_id((PDO3_RX_BASE + node) as u16) == Some(node),
        spec_node_id((PDO4_TX_BASE + node) as u16) == Some(node),
        spec_node_id((PDO4_RX_BASE + node) as u16) == Some(node),
        spec_pdo_number((PDO1_TX_BASE + node) as u16) == Some(1u8),
        spec_pdo_number((PDO1_RX_BASE + node) as u16) == Some(1u8),
        spec_pdo_number((PDO2_TX_BASE + node) as u16) == Some(2u8),
        spec_pdo_number((PDO2_RX_BASE + node) as u16) == Some(2u8),
        spec_pdo_number((PDO3_TX_BASE + node) as u16) == Some(3u8),
        spec_pdo_number((PDO3_RX_BASE + node) as u16) == Some(3u8),
        spec_pdo_number((PDO4_TX_BASE + node) as u16) == Some(4u8),
        spec_pdo_number((PDO4_RX_BASE + node) as u16) == Some(4u8),
        spec_is_pdo_tx((PDO1_TX_BASE + node) as u16) && !spec_is_pdo_rx((PDO1_TX_BASE + node) as u16),
        spec_is_pdo_tx((PDO2_TX_BASE + node) as u16) && !spec_is_pdo_rx((PDO2_TX_BASE + node) as u16),
        spec_is_pdo_tx((PDO3_TX_BASE + node) as u16) && !spec_is_pdo_rx((PDO3_TX_BASE + node) as u16),
        spec_is_pdo_tx((PDO4_TX_BASE + node) as u16) && !spec_is_pdo_rx((PDO4_TX_BASE + node) as u16),
        spec_is_pdo_rx((PDO1_RX_BASE + node) as u16) && !spec_is_pdo_tx((PDO1_RX_BASE + node) as u16),
        spec_is_pdo_rx((PDO2_RX_BASE + node) as u16) && !spec_is_pdo_tx((PDO2_RX_BASE + node) as u16),
        spec_is_pdo_rx((PDO3_RX_BASE + node) as u16) && !spec_is_pdo_tx((PDO3_RX_BASE + node) as u16),
        spec_is_pdo_rx((PDO4_RX_BASE + node) as u16) && !spec_is_pdo_tx((PDO4_RX_BASE + node) as u16),
{
}

} // verus!
