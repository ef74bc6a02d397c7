use libcanopen_client::canopen::message::{CanId, CanMessage, MessageType, NmtCommand};

#[test]
fn test_message_type_detection() {
    // NMT command
    let nmt_msg = CanMessage::new(0x000, vec![0x01, 0x00]).unwrap();
    assert_eq!(nmt_msg.message_type(), MessageType::Nmt);

    // SDO request
    let sdo_msg =
        CanMessage::new(0x601, vec![0x40, 0x00, 0x10, 0x00, 0x00, 0x00, 0x00, 0x00]).unwrap();
    assert_eq!(sdo_msg.message_type(), MessageType::Sdo);

    // PDO
    let pdo_msg = CanMessage::new(0x181, vec![0x01, 0x02, 0x03, 0x04]).unwrap();
    assert_eq!(pdo_msg.message_type(), MessageType::Pdo);

    // Heartbeat
    let hb_msg = CanMessage::new(0x701, vec![0x05]).unwrap();
    assert_eq!(hb_msg.message_type(), MessageType::NmtErrorControl);
}

#[test]
fn test_node_id_extraction() {
    // SDO response
    let sdo_resp = CanMessage::new(0x581, vec![]).unwrap();
    assert_eq!(sdo_resp.node_id(), Some(1));

    // Heartbeat
    let hb_msg = CanMessage::new(0x705, vec![0x05]).unwrap();
    assert_eq!(hb_msg.node_id(), Some(5));

    // PDO1 TX
    let pdo_msg = CanMessage::new(0x183, vec![]).unwrap();
    assert_eq!(pdo_msg.node_id(), Some(3));
}

#[test]
fn test_message_validation() {
    // Valid message
    assert!(CanMessage::new(0x181, vec![0x01, 0x02]).is_ok());

    // Invalid CAN ID (too large)
    assert!(CanMessage::new(0x800, vec![0x01]).is_err());

    // Invalid data length (too long)
    assert!(CanMessage::new(0x181, vec![0; 9]).is_err());

    // Test CANopen format validation
    let sync_msg = CanMessage::new(0x080, vec![]).unwrap();
    assert!(sync_msg.is_valid());

    // SYNC with counter is valid
    let sync_with_counter = CanMessage::new_unchecked(0x080, vec![0x01]);
    assert!(sync_with_counter.is_valid());

    // SYNC with more than 1 byte is invalid
    let invalid_sync = CanMessage::new_unchecked(0x080, vec![0x01, 0x02]);
    assert!(!invalid_sync.is_valid());
}

#[test]
fn test_can_id_functionality() {
    let can_id = CanId::new(0x183).unwrap();

    assert_eq!(can_id.node_id(), Some(3));
    assert_eq!(can_id.pdo_number(), Some(1));
    assert!(can_id.is_pdo_tx());
    assert!(!can_id.is_pdo_rx());
    assert_eq!(can_id.message_type(), MessageType::Pdo);
}

#[test]
fn test_nmt_commands() {
    assert_eq!(NmtCommand::from_u8(0x01), Some(NmtCommand::StartRemoteNode));
    assert_eq!(NmtCommand::from_u8(0x99), None);
    assert_eq!(NmtCommand::StartRemoteNode.to_u8(), 0x01);
}

#[test]
fn test_data_extraction() {
    let msg = CanMessage::new(0x181, vec![0x12, 0x34, 0x56, 0x78]).unwrap();

    assert_eq!(msg.get_u8(0), Some(0x12));
    assert_eq!(msg.get_u8(4), None);
    assert_eq!(msg.get_u16_le(0), Some(0x3412));
    assert_eq!(msg.get_u32_le(0), Some(0x78563412));
}

#[test]
fn test_cob_id_ranges() {
    // Test all COB-ID ranges
    assert_eq!(MessageType::from_cob_id(0x000), MessageType::Nmt);
    assert_eq!(MessageType::from_cob_id(0x080), MessageType::Sync);
    assert_eq!(MessageType::from_cob_id(0x081), MessageType::Emergency);
    assert_eq!(MessageType::from_cob_id(0x0FF), MessageType::Emergency);
    assert_eq!(MessageType::from_cob_id(0x181), MessageType::Pdo);
    assert_eq!(MessageType::from_cob_id(0x281), MessageType::Pdo);
    assert_eq!(MessageType::from_cob_id(0x381), MessageType::Pdo);
    assert_eq!(MessageType::from_cob_id(0x481), MessageType::Pdo);
    assert_eq!(MessageType::from_cob_id(0x581), MessageType::Sdo);
    assert_eq!(MessageType::from_cob_id(0x601), MessageType::Sdo);
    assert_eq!(
        MessageType::from_cob_id(0x701),
        MessageType::NmtErrorControl
    );
    assert_eq!(MessageType::from_cob_id(0x7E4), MessageType::Lss);
    assert_eq!(MessageType::from_cob_id(0x7E5), MessageType::Lss);
}

#[test]
fn test_pdo_cob_id_parsing() {
    // PDO1 TX (0x180 + node_id)
    let pdo = CanId::new(0x181).unwrap();
    assert_eq!(pdo.pdo_number(), Some(1));
    assert_eq!(pdo.node_id(), Some(1));
    assert!(pdo.is_pdo_tx());
    assert!(!pdo.is_pdo_rx());

    // PDO1 RX (0x200 + node_id)
    let pdo = CanId::new(0x205).unwrap();
    assert_eq!(pdo.pdo_number(), Some(1));
    assert_eq!(pdo.node_id(), Some(5));
    assert!(!pdo.is_pdo_tx());
    assert!(pdo.is_pdo_rx());

    // PDO2 TX (0x280 + node_id)
    let pdo = CanId::new(0x28A).unwrap();
    assert_eq!(pdo.pdo_number(), Some(2));
    assert_eq!(pdo.node_id(), Some(10));
    assert!(pdo.is_pdo_tx());

    // PDO3 TX (0x380 + node_id)
    let pdo = CanId::new(0x390).unwrap();
    assert_eq!(pdo.pdo_number(), Some(3));
    assert_eq!(pdo.node_id(), Some(16));

    // PDO4 RX (0x500 + node_id)
    let pdo = CanId::new(0x510).unwrap();
    assert_eq!(pdo.pdo_number(), Some(4));
    assert_eq!(pdo.node_id(), Some(16));
    assert!(pdo.is_pdo_rx());
}

#[test]
fn test_sdo_cob_id_parsing() {
    // SDO TX (0x580 + node_id) - server to client
    let sdo = CanId::new(0x581).unwrap();
    assert_eq!(sdo.message_type(), MessageType::Sdo);
    assert_eq!(sdo.node_id(), Some(1));

    // SDO RX (0x600 + node_id) - client to server
    let sdo = CanId::new(0x610).unwrap();
    assert_eq!(sdo.message_type(), MessageType::Sdo);
    assert_eq!(sdo.node_id(), Some(16));

    // Boundary test
    let sdo = CanId::new(0x5FF).unwrap();
    assert_eq!(sdo.message_type(), MessageType::Sdo);
    assert_eq!(sdo.node_id(), Some(127));
}

#[test]
fn test_emergency_cob_id_parsing() {
    // Emergency base is 0x80, node IDs 1-127
    let emcy = CanId::new(0x081).unwrap();
    assert_eq!(emcy.message_type(), MessageType::Emergency);
    assert_eq!(emcy.node_id(), Some(1));

    let emcy = CanId::new(0x0FF).unwrap();
    assert_eq!(emcy.message_type(), MessageType::Emergency);
    assert_eq!(emcy.node_id(), Some(127));
}

#[test]
fn test_nmt_error_control_parsing() {
    // Heartbeat/Node Guarding (0x700 + node_id)
    let nmt = CanId::new(0x701).unwrap();
    assert_eq!(nmt.message_type(), MessageType::NmtErrorControl);
    assert_eq!(nmt.node_id(), Some(1));

    let nmt = CanId::new(0x77F).unwrap();
    assert_eq!(nmt.message_type(), MessageType::NmtErrorControl);
    assert_eq!(nmt.node_id(), Some(127));
}

#[test]
fn test_lss_cob_ids() {
    // LSS Master TX: 0x7E5, Slave TX: 0x7E4
    let lss_master = CanId::new(0x7E5).unwrap();
    assert_eq!(lss_master.message_type(), MessageType::Lss);

    let lss_slave = CanId::new(0x7E4).unwrap();
    assert_eq!(lss_slave.message_type(), MessageType::Lss);
}

#[test]
fn message_test_sync_message() {
    // SYNC has COB-ID 0x080
    let sync = CanMessage::new(0x080, vec![]).unwrap();
    assert_eq!(sync.message_type(), MessageType::Sync);
    assert!(sync.is_valid()); // Valid SYNC with no data

    // SYNC with counter
    let sync_counter = CanMessage::new(0x080, vec![0x01]).unwrap();
    assert_eq!(sync_counter.message_type(), MessageType::Sync);
    assert!(sync_counter.is_valid()); // Valid SYNC with 1-byte counter
}

#[test]
fn message_test_nmt_command_message() {
    // NMT command has COB-ID 0x000
    let nmt = CanMessage::new(0x000, vec![0x01, 0x05]).unwrap();
    assert_eq!(nmt.message_type(), MessageType::Nmt);
    assert!(nmt.is_valid());

    // NMT command should have 2 bytes
    let nmt_invalid = CanMessage::new_unchecked(0x000, vec![0x01]);
    assert!(!nmt_invalid.is_valid());
}

#[test]
fn test_can_id_validation() {
    // Valid 11-bit IDs
    assert!(CanId::new(0x000).is_ok());
    assert!(CanId::new(0x7FF).is_ok());

    // Invalid ID (exceeds 11-bit)
    assert!(CanId::new(0x800).is_err());
    assert!(CanId::new(0xFFF).is_err());

    // Test is_valid method
    let valid = CanId::new_unchecked(0x181);
    assert!(valid.is_valid());

    let invalid = CanId::new_unchecked(0x800);
    assert!(!invalid.is_valid());
}

#[test]
fn test_message_data_length() {
    // Valid data lengths (0-8 bytes)
    assert!(CanMessage::new(0x181, vec![]).is_ok());
    assert!(CanMessage::new(0x181, vec![0x01]).is_ok());
    assert!(CanMessage::new(0x181, vec![0; 8]).is_ok());

    // Invalid data length (>8 bytes)
    assert!(CanMessage::new(0x181, vec![0; 9]).is_err());
    assert!(CanMessage::new(0x181, vec![0; 100]).is_err());
}

#[test]
fn test_nmt_command_conversion() {
    // Test all NMT commands
    assert_eq!(NmtCommand::from_u8(0x01), Some(NmtCommand::StartRemoteNode));
    assert_eq!(NmtCommand::from_u8(0x02), Some(NmtCommand::StopRemoteNode));
    assert_eq!(
        NmtCommand::from_u8(0x80),
        Some(NmtCommand::EnterPreOperational)
    );
    assert_eq!(NmtCommand::from_u8(0x81), Some(NmtCommand::ResetNode));
    assert_eq!(
        NmtCommand::from_u8(0x82),
        Some(NmtCommand::ResetCommunication)
    );

    // Invalid command
    assert_eq!(NmtCommand::from_u8(0xFF), None);

    // Round-trip conversion
    assert_eq!(NmtCommand::StartRemoteNode.to_u8(), 0x01);
    assert_eq!(NmtCommand::StopRemoteNode.to_u8(), 0x02);
    assert_eq!(NmtCommand::EnterPreOperational.to_u8(), 0x80);
    assert_eq!(NmtCommand::ResetNode.to_u8(), 0x81);
    assert_eq!(NmtCommand::ResetCommunication.to_u8(), 0x82);
}

#[test]
fn test_data_extraction_edge_cases() {
    let msg =
        CanMessage::new(0x181, vec![0xFF, 0x00, 0x80, 0x7F, 0x01, 0x02, 0x03, 0x04]).unwrap();

    // u8 extraction
    assert_eq!(msg.get_u8(0), Some(0xFF));
    assert_eq!(msg.get_u8(7), Some(0x04));
    assert_eq!(msg.get_u8(8), None); // Out of bounds

    // u16 little-endian extraction
    assert_eq!(msg.get_u16_le(0), Some(0x00FF)); // 0xFF, 0x00
    assert_eq!(msg.get_u16_le(2), Some(0x7F80)); // 0x80, 0x7F
    assert_eq!(msg.get_u16_le(7), None); // Not enough bytes

    // u32 little-endian extraction
    assert_eq!(msg.get_u32_le(0), Some(0x7F8000FF)); // 0xFF, 0x00, 0x80, 0x7F
    assert_eq!(msg.get_u32_le(4), Some(0x04030201)); // 0x01, 0x02, 0x03, 0x04
    assert_eq!(msg.get_u32_le(5), None); // Not enough bytes
}

#[test]
fn test_message_cloning() {
    let msg1 = CanMessage::new(0x181, vec![0x01, 0x02, 0x03]).unwrap();
    let msg2 = msg1.clone();

    assert_eq!(msg1.id, msg2.id);
    assert_eq!(msg1.data, msg2.data);
}

#[test]
fn test_can_id_raw_value() {
    let id = CanId::new(0x183).unwrap();
    assert_eq!(id.raw(), 0x183);

    let id2 = CanId::new_unchecked(0x7FF);
    assert_eq!(id2.raw(), 0x7FF);
}
