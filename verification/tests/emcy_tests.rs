use libcanopen_client::canopen::emcy::{EmcyManager, EmergencyMessage, EMCY_COB_ID_BASE};

#[test]
fn test_emcy_cob_id_base() {
    assert_eq!(EMCY_COB_ID_BASE, 0x80);
    assert_eq!(EMCY_COB_ID_BASE, 128); // Decimal value
}

#[test]
fn test_emcy_parse() {
    let data = [
        0x10, 0x10, // Error code 0x1010 (little-endian)
        0x01, // Error register
        0xAA, 0xBB, 0xCC, 0xDD, 0xEE, // Manufacturer data
    ];

    let emcy = EmergencyMessage::from_can_data(0x85, &data).unwrap();
    assert_eq!(emcy.node_id, 5);
    assert_eq!(emcy.error_code, 0x1010);
    assert_eq!(emcy.error_register, 0x01);
    assert_eq!(emcy.manufacturer_data, [0xAA, 0xBB, 0xCC, 0xDD, 0xEE]);
}

#[test]
fn test_emcy_all_valid_node_ids() {
    // Test EMCY from all valid node IDs (1-127)
    let data = [0x00, 0x10, 0x05, 0x00, 0x00, 0x00, 0x00, 0x00];

    for node_id in 1..=127u8 {
        let cob_id = EMCY_COB_ID_BASE + node_id as u16;
        let emcy = EmergencyMessage::from_can_data(cob_id, &data).unwrap();
        assert_eq!(emcy.node_id, node_id);
    }
}

#[test]
fn test_emcy_error_code_little_endian() {
    // Test little-endian byte order for error code
    let data = [0x34, 0x12, 0x00, 0x00, 0x00, 0x00, 0x00, 0x00];
    let emcy = EmergencyMessage::from_can_data(0x81, &data).unwrap();
    assert_eq!(emcy.error_code, 0x1234); // Little-endian: 0x34, 0x12
}

#[test]
fn test_emcy_invalid_length() {
    // EMCY messages must be exactly 8 bytes
    let too_short = [0x10, 0x10, 0x01];
    assert!(EmergencyMessage::from_can_data(0x85, &too_short).is_none());

    let too_long = [0x10, 0x10, 0x01, 0x00, 0x00, 0x00, 0x00, 0x00, 0xFF];
    assert!(EmergencyMessage::from_can_data(0x85, &too_long).is_none());

    let empty = [];
    assert!(EmergencyMessage::from_can_data(0x85, &empty).is_none());
}

#[test]
fn test_emcy_invalid_cob_id() {
    let data = [0x10, 0x10, 0x01, 0x00, 0x00, 0x00, 0x00, 0x00];

    // COB-ID 0x80 is SYNC, not EMCY
    assert!(EmergencyMessage::from_can_data(0x80, &data).is_none());

    // COB-ID 0x100 is out of EMCY range
    assert!(EmergencyMessage::from_can_data(0x100, &data).is_none());

    // COB-ID 0x200 is PDO range
    assert!(EmergencyMessage::from_can_data(0x200, &data).is_none());

    // COB-ID 0x00 is NMT
    assert!(EmergencyMessage::from_can_data(0x00, &data).is_none());
}

#[test]
fn test_emcy_error_reset() {
    // Error code 0x0000 indicates error reset / no error
    let data = [0x00, 0x00, 0x00, 0x00, 0x00, 0x00, 0x00, 0x00];
    let emcy = EmergencyMessage::from_can_data(0x85, &data).unwrap();
    assert!(emcy.is_error_reset());
    assert_eq!(emcy.error_code, 0x0000);
}

#[test]
fn test_emcy_not_error_reset() {
    let data = [0x01, 0x00, 0x00, 0x00, 0x00, 0x00, 0x00, 0x00];
    let emcy = EmergencyMessage::from_can_data(0x85, &data).unwrap();
    assert!(!emcy.is_error_reset());

    let data = [0x00, 0x10, 0x00, 0x00, 0x00, 0x00, 0x00, 0x00];
    let emcy = EmergencyMessage::from_can_data(0x85, &data).unwrap();
    assert!(!emcy.is_error_reset());
}

#[test]
fn test_is_emcy_message() {
    // Not EMCY
    assert!(!EmcyManager::is_emcy_message(0x00)); // NMT
    assert!(!EmcyManager::is_emcy_message(0x80)); // SYNC
    assert!(!EmcyManager::is_emcy_message(0x180)); // PDO
    assert!(!EmcyManager::is_emcy_message(0x580)); // SDO
    assert!(!EmcyManager::is_emcy_message(0x700)); // Heartbeat
    assert!(!EmcyManager::is_emcy_message(0x7E5)); // LSS

    // Valid EMCY (0x81-0xFF)
    assert!(EmcyManager::is_emcy_message(0x81)); // Node 1
    assert!(EmcyManager::is_emcy_message(0x85)); // Node 5
    assert!(EmcyManager::is_emcy_message(0xFF)); // Node 127
    assert!(EmcyManager::is_emcy_message(0xC0)); // Node 64
}

#[test]
fn test_emcy_error_code_descriptions() {
    // Test various standard error codes
    let test_cases = vec![
        (0x0000, "No Error / Error Reset"),
        (0x1000, "Generic Error"),
        (0x2000, "Current - Generic"),
        (0x3000, "Voltage - Generic"),
        (0x4000, "Temperature - Generic"),
        (0x5000, "Device Hardware"),
        (0x6000, "Device Software - Generic"),
        (0x8000, "Monitoring - Generic"),
        (0x9000, "External Error"),
    ];

    for (code, expected_desc) in test_cases {
        let data = [
            (code & 0xFF) as u8,
            ((code >> 8) & 0xFF) as u8,
            0x00,
            0x00,
            0x00,
            0x00,
            0x00,
            0x00,
        ];
        let emcy = EmergencyMessage::from_can_data(0x81, &data).unwrap();
        assert_eq!(emcy.error_code, code);
        assert_eq!(emcy.error_code_description(), expected_desc);
    }
}

#[test]
fn test_emcy_error_register_bits() {
    // Test different error register values
    let data = [0x00, 0x10, 0x01, 0x00, 0x00, 0x00, 0x00, 0x00]; // Bit 0: Generic error
    let emcy = EmergencyMessage::from_can_data(0x81, &data).unwrap();
    assert_eq!(emcy.error_register, 0x01);

    let data = [0x00, 0x10, 0xFF, 0x00, 0x00, 0x00, 0x00, 0x00]; // All bits set
    let emcy = EmergencyMessage::from_can_data(0x81, &data).unwrap();
    assert_eq!(emcy.error_register, 0xFF);
}

#[test]
fn test_emcy_manufacturer_data() {
    // Test various manufacturer data patterns
    let data = [0x00, 0x00, 0x00, 0x11, 0x22, 0x33, 0x44, 0x55];
    let emcy = EmergencyMessage::from_can_data(0x81, &data).unwrap();
    assert_eq!(emcy.manufacturer_data, [0x11, 0x22, 0x33, 0x44, 0x55]);

    let data = [0x00, 0x00, 0x00, 0xFF, 0xFF, 0xFF, 0xFF, 0xFF];
    let emcy = EmergencyMessage::from_can_data(0x81, &data).unwrap();
    assert_eq!(emcy.manufacturer_data, [0xFF, 0xFF, 0xFF, 0xFF, 0xFF]);

    let data = [0x00, 0x00, 0x00, 0x00, 0x00, 0x00, 0x00, 0x00];
    let emcy = EmergencyMessage::from_can_data(0x81, &data).unwrap();
    assert_eq!(emcy.manufacturer_data, [0x00, 0x00, 0x00, 0x00, 0x00]);
}

#[test]
fn test_emcy_clone() {
    let data = [0x10, 0x20, 0x05, 0xAA, 0xBB, 0xCC, 0xDD, 0xEE];
    let emcy1 = EmergencyMessage::from_can_data(0x85, &data).unwrap();
    let emcy2 = emcy1.clone();

    assert_eq!(emcy1.node_id, emcy2.node_id);
    assert_eq!(emcy1.error_code, emcy2.error_code);
    assert_eq!(emcy1.error_register, emcy2.error_register);
    assert_eq!(emcy1.manufacturer_data, emcy2.manufacturer_data);
}

#[test]
fn test_emcy_equality() {
    let data = [0x10, 0x20, 0x05, 0xAA, 0xBB, 0xCC, 0xDD, 0xEE];
    let emcy1 = EmergencyMessage::from_can_data(0x85, &data).unwrap();
    let emcy2 = EmergencyMessage::from_can_data(0x85, &data).unwrap();

    assert_eq!(emcy1, emcy2);

    // Different error code
    let data2 = [0x11, 0x20, 0x05, 0xAA, 0xBB, 0xCC, 0xDD, 0xEE];
    let emcy3 = EmergencyMessage::from_can_data(0x85, &data2).unwrap();
    assert_ne!(emcy1, emcy3);
}

#[test]
fn test_emcy_specific_error_codes() {
    // Test specific CANopen error codes
    let test_errors = vec![
        0x2000, // Current - General
        0x2010, // Current - Input side
        0x2020, // Current - Output side
        0x3000, // Voltage - General
        0x3010, // Voltage - Mains
        0x3020, // Voltage - Inside device
        0x4000, // Temperature - General
        0x5000, // Device Hardware
        0x6000, // Device Software
        0x8000, // Monitoring - General
        0x8100, // Communication
        0x8200, // Protocol Error
    ];

    for error_code in test_errors {
        let data = [
            (error_code & 0xFF) as u8,
            ((error_code >> 8) & 0xFF) as u8,
            0x00,
            0x00,
            0x00,
            0x00,
            0x00,
            0x00,
        ];
        let emcy = EmergencyMessage::from_can_data(0x81, &data);
        assert!(emcy.is_some());
        assert_eq!(emcy.unwrap().error_code, error_code);
    }
}

#[test]
fn test_emcy_cob_id_calculation() {
    // Verify COB-ID calculation: 0x80 + node_id
    for node_id in 1..=127u8 {
        let expected_cob_id = 0x80 + node_id as u16;
        let data = [0x00, 0x00, 0x00, 0x00, 0x00, 0x00, 0x00, 0x00];
        let emcy = EmergencyMessage::from_can_data(expected_cob_id, &data).unwrap();
        assert_eq!(emcy.node_id, node_id);
        assert_eq!(expected_cob_id, EMCY_COB_ID_BASE + node_id as u16);
    }
}

#[test]
fn test_emcy_boundary_values() {
    let data = [0xFF, 0xFF, 0xFF, 0xFF, 0xFF, 0xFF, 0xFF, 0xFF];

    // Node 1 (minimum)
    let emcy = EmergencyMessage::from_can_data(0x81, &data).unwrap();
    assert_eq!(emcy.node_id, 1);
    assert_eq!(emcy.error_code, 0xFFFF);
    assert_eq!(emcy.error_register, 0xFF);

    // Node 127 (maximum)
    let emcy = EmergencyMessage::from_can_data(0xFF, &data).unwrap();
    assert_eq!(emcy.node_id, 127);
    assert_eq!(emcy.error_code, 0xFFFF);
}
