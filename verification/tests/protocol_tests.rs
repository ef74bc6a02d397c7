use libcanopen_client::canopen::builders::{
    EmergencyMessageBuilder, PdoMessageBuilder, SdoClientMessageBuilder, SdoServerMessageBuilder,
};
use libcanopen_client::canopen::emcy::{EmcyManager, EmcyRegistry, EmergencyMessage};
use libcanopen_client::canopen::events::{event_channel, receive_route, EventChannel, MessageEvent, ReceiveRoute};
use libcanopen_client::canopen::lss::{
    configure_node_id_frame, finish_inquiry, parse_response, record_inquiry_response, LssCommand,
    LssError, LssResponse,
};
use libcanopen_client::canopen::message::{CanMessage, EmergencyErrorCode, MessageType};
use libcanopen_client::canopen::nmt::{NmtManager, NmtState};
use libcanopen_client::canopen::od::{DataType, ObjectId, PdoMapping, SdoAbortCode};
use libcanopen_client::canopen::pdo::PdoManager;
use libcanopen_client::canopen::sdo::{
    u16_from_sdo_data, u32_from_sdo_data, u8_from_sdo_data, SdoDirection, SdoTransferTable,
};
use libcanopen_client::canopen::sync::{SyncManager, SyncState};
use libcanopen_client::canopen::types::{CANopenData, DataTypeConverter, ObjectDictionaryEntry};
use libcanopen_client::hardware::peak_can::{
    can_message_to_pcan, pcan_read_action, pcan_to_can_message, PcanHandle, PcanMessage,
    PcanReadAction, PCAN_ERROR_OK, PCAN_ERROR_QRCVEMPTY,
    PCAN_MESSAGE_RTR,
};
use libcanopen_client::hardware::BusSpeed;
use libcanopen_client::utils::{get_timestamp_us, ByteArrayExt};
use libcanopen_client::{CANopenError, CanId};
use std::convert::TryFrom;

#[test]
fn object_id_text_is_upper_case_hex() {
    assert_eq!(ObjectId::new(0x1A2B, 0x0C).to_string(), "0x1A2B:0C");
    assert_eq!(ObjectId::new(0xFFFF, 0xFF).to_string(), "0xFFFF:FF");
    assert_eq!(ObjectId::new(0x0000, 0x00).to_string(), "0x0000:00");
}

#[test]
fn sdo_abort_codes_round_trip() {
    let all = [
        SdoAbortCode::ToggleBitNotAlternated,
        SdoAbortCode::SdoProtocolTimeout,
        SdoAbortCode::CommandSpecifierInvalid,
        SdoAbortCode::ObjectNotExist,
        SdoAbortCode::HardwareFault,
        SdoAbortCode::NoDataAvailable,
    ];
    for c in all {
        assert_eq!(SdoAbortCode::from_u32(c.to_u32()), Some(c));
    }
    assert_eq!(SdoAbortCode::HardwareFault.to_u32(), 0x06060000);
    assert_eq!(SdoAbortCode::from_u32(0x12345678), None);
}

#[test]
fn pdo_mapping_encoding_is_exact() {
    let m = PdoMapping::new(0xFFFF, 0xFF, 0xFF);
    assert_eq!(m.encode(), 0xFFFF_FFFF);
    assert_eq!(PdoMapping::decode(0xFFFF_FFFF), m);
    let d = PdoMapping::decode(0x2001_0208);
    assert_eq!((d.index, d.subindex, d.bit_length), (0x2001, 0x02, 0x08));
    assert_eq!(d.encode(), 0x2001_0208);
}

#[test]
fn data_type_codes_and_names() {
    assert_eq!(DataType::Unsigned64.code(), 0x1B);
    assert_eq!(DataType::Domain.code(), 0x0F);
    assert_eq!(DataType::TimeOfDay.size_bytes(), Some(6));
    assert_eq!(DataType::Integer24.size_bytes(), Some(3));
    assert_eq!(DataType::Unsigned32.name(), "Unsigned32");
}

#[test]
fn validation_error_messages() {
    match DataTypeConverter::validate_data_type(&[1, 2], DataType::Unsigned32) {
        Err(CANopenError::InvalidData(m)) => {
            assert_eq!(m, "Data size mismatch: expected 4 bytes for Unsigned32, got 2")
        },
        other => panic!("unexpected {:?}", other),
    }
    match DataTypeConverter::validate_data_type(&[0x41, 0x7F], DataType::VisibleString) {
        Err(CANopenError::InvalidData(m)) => {
            assert_eq!(m, "VisibleString contains non-printable characters")
        },
        other => panic!("unexpected {:?}", other),
    }
    // Octet strings are not checked for printable content.
    assert!(DataTypeConverter::validate_data_type(&[0x00, 0xFF], DataType::OctetString).is_ok());
}

#[test]
fn convert_to_type_checks_size_then_decodes() {
    let v: u16 = DataTypeConverter::convert_to_type(&[0x34, 0x12]).unwrap();
    assert_eq!(v, 0x1234);
    assert!(DataTypeConverter::convert_to_type::<u16>(&[0x34, 0x12, 0x00]).is_err());
    assert_eq!(DataTypeConverter::convert_from_type(&-2i16), vec![0xFE, 0xFF]);
}

#[test]
fn minimal_encoding_sizes() {
    assert_eq!(DataTypeConverter::get_minimal_encoding_size(&[0x12, 0x00], DataType::Integer16), 1);
    assert_eq!(DataTypeConverter::get_minimal_encoding_size(&[0x12, 0x01], DataType::Unsigned16), 2);
    assert_eq!(DataTypeConverter::get_minimal_encoding_size(&[0, 0, 0, 0], DataType::Unsigned32), 1);
    assert_eq!(DataTypeConverter::get_minimal_encoding_size(&[0, 0, 5, 0], DataType::Integer32), 3);
    assert_eq!(DataTypeConverter::get_minimal_encoding_size(&[1, 2], DataType::Unsigned32), 2);
    assert_eq!(DataTypeConverter::get_minimal_encoding_size(&[1], DataType::Unsigned64), 8);
    assert_eq!(DataTypeConverter::get_minimal_encoding_size(&[1, 2, 3], DataType::Domain), 3);
}

#[test]
fn invalid_utf8_is_invalid_data() {
    match String::from_canopen_bytes(&[0x48, 0xFF, 0xFE]) {
        Err(CANopenError::InvalidData(m)) => {
            assert!(m.starts_with("Invalid UTF-8 string: "));
            assert!(m.len() > "Invalid UTF-8 string: ".len());
        },
        other => panic!("unexpected {:?}", other),
    }
    assert_eq!(String::from_canopen_bytes("größe".as_bytes()).unwrap(), "größe");
    assert_eq!("é".to_string().to_canopen_bytes(), vec![0xC3, 0xA9]);
}

#[test]
fn object_dictionary_entry_from_short_data_fails() {
    let id = ObjectId::new(0x2000, 1);
    assert!(ObjectDictionaryEntry::<u32>::from_bytes(id, &[1, 2, 3]).is_err());
    let e = ObjectDictionaryEntry::<i64>::from_bytes(id, &(-5i64).to_le_bytes()).unwrap();
    assert_eq!(e.value, -5);
    assert_eq!(e.object_id, id);
    assert_eq!(u64::expected_size(), Some(8));
    assert_eq!(String::expected_size(), None);
}

#[test]
fn byte_array_ext_decodes_little_endian() {
    let b: &[u8] = &[0x01, 0x02, 0x03, 0x04, 0x05, 0x06, 0x07, 0x08];
    assert_eq!(b.to_u16_le(), Some(0x0201));
    assert_eq!(b.to_u32_le(), Some(0x04030201));
    assert_eq!(b.to_u64_le(), Some(0x0807060504030201));
    assert_eq!(b[..3].to_u32_le(), None);
    assert_eq!(b[..1].to_u16_le(), None);
}

#[test]
fn timestamp_is_after_2020() {
    // 2020-01-01T00:00:00Z in microseconds.
    assert!(get_timestamp_us() > 1_577_836_800_000_000);
}

#[test]
fn emergency_builder_frames_decode_back() {
    for node in [1u8, 64, 127] {
        let msg = EmergencyMessageBuilder::emergency(node, EmergencyErrorCode::Voltage, 0x04, &[9, 8, 7, 6, 5]);
        let e = EmergencyMessage::from_can_data(msg.id.raw(), &msg.data).unwrap();
        assert_eq!(e.node_id, node);
        assert_eq!(e.error_code, 0x3000);
        assert_eq!(e.error_register, 0x04);
        assert_eq!(e.manufacturer_data, [9, 8, 7, 6, 5]);
        assert_eq!(e.error_code_description(), "Voltage - Generic");
    }
    let unknown = EmergencyMessage::from_can_data(0x81, &[0x34, 0x12, 0, 0, 0, 0, 0, 0]).unwrap();
    assert_eq!(unknown.error_code_description(), "Unknown Error Code");
}

#[test]
fn emcy_registry_keeps_latest_per_node() {
    let mut reg: EmcyRegistry<u32> = EmcyRegistry::new();
    reg.register(5, 50);
    reg.register(0, 1);
    reg.register(128, 1);
    assert!(reg.has_handler(5));
    assert!(!reg.has_handler(0));
    assert!(!reg.has_handler(128));
    assert_eq!(reg.handler(5), Some(50));
    assert!(reg.record(0x85, &[1, 0, 0, 0, 0, 0, 0, 0]).is_some());
    assert!(reg.record(0x85, &[2, 0, 0, 0, 0, 0, 0, 0]).is_some());
    assert!(reg.record(0x85, &[3, 0, 0]).is_none());
    assert_eq!(reg.recent(5).unwrap().error_code, 2);
    reg.unregister(5);
    assert!(!reg.has_handler(5));
    reg.clear_recent();
    assert!(reg.recent(5).is_none());
}

#[test]
fn emcy_manager_clones_share_state() {
    let m1: EmcyManager<u8> = EmcyManager::new();
    let m2 = m1.clone();
    m1.register_emcy_handler(7, 70);
    let (msg, handler) = m2.process_emcy(0x87, &[0x00, 0x10, 1, 0, 0, 0, 0, 0]).unwrap();
    assert_eq!(msg.node_id, 7);
    assert_eq!(handler, Some(70));
    assert_eq!(m1.get_recent_emcy(7).unwrap().error_code, 0x1000);
    m2.clear_recent_emcy();
    assert!(m1.get_recent_emcy(7).is_none());
    m1.unregister_emcy_handler(7);
    let (_, handler) = m2.process_emcy(0x87, &[0; 8]).unwrap();
    assert_eq!(handler, None);
    assert!(m1.process_emcy(0x80, &[0; 8]).is_none());
}

#[test]
fn pdo_manager_tracks_payloads_and_handlers() {
    let mut pdo: PdoManager<&'static str> = PdoManager::new();
    pdo.register_pdo_handler(0x185, "tpdo0");
    assert_eq!(pdo.handler_count(), 1);
    pdo.register_pdo_handler(0x185, "tpdo1");
    assert_eq!(pdo.handler_count(), 1);
    pdo.register_pdo_handler(0x205, "rpdo1");
    assert_eq!(pdo.handler_count(), 2);
    pdo.unregister_pdo_handler(0x205);
    assert_eq!(pdo.handler_count(), 1);
    pdo.unregister_pdo_handler(0x205);
    assert_eq!(pdo.handler_count(), 1);
    let m = CanMessage::new(0x185, vec![1, 2, 3]).unwrap();
    assert!(pdo.process_pdo(&m).unwrap());
    assert_eq!(pdo.get_recent_pdo(0x185), Some(vec![1, 2, 3]));
    let other = CanMessage::new(0x285, vec![4]).unwrap();
    assert!(!pdo.process_pdo(&other).unwrap());
    assert_eq!(pdo.get_recent_pdo(0x285), Some(vec![4]));
    let not_pdo = CanMessage::new(0x705, vec![5]).unwrap();
    assert!(!pdo.process_pdo(&not_pdo).unwrap());
    assert_eq!(pdo.get_recent_pdo(0x705), None);
    assert_eq!(pdo.handler(0x185), Some("tpdo1"));
    pdo.unregister_pdo_handler(0x185);
    assert_eq!(pdo.handler_count(), 0);
    pdo.clear_recent_pdos();
    assert_eq!(pdo.get_recent_pdo(0x185), None);
    assert!(PdoManager::is_pdo_message(0x57F));
    assert!(!PdoManager::is_pdo_message(0x580));
}

#[test]
fn pdo_builder_errors() {
    assert!(matches!(PdoMessageBuilder::tpdo(1, 4, vec![]), Err(CANopenError::InvalidData(m)) if m == "PDO number must be 0-3"));
    assert!(matches!(PdoMessageBuilder::rpdo(1, 0, vec![0; 9]), Err(CANopenError::InvalidData(m)) if m == "PDO data too large"));
    assert_eq!(PdoMessageBuilder::rpdo(0x7F, 3, vec![1]).unwrap().id.raw(), 0x57F);
}

#[test]
fn sdo_builders_frames() {
    let r = SdoServerMessageBuilder::upload_response_expedited(3, ObjectId::new(0x1018, 1), &[0xAA]).unwrap();
    assert_eq!(r.id.raw(), 0x583);
    assert_eq!(r.data, vec![0x4F, 0x18, 0x10, 0x01, 0xAA, 0, 0, 0]);
    let s = SdoClientMessageBuilder::download_segment(3, true, true, &[1, 2, 3]).unwrap();
    assert_eq!(s.data, vec![0x10 | 0x01 | (4 << 1), 1, 2, 3, 0, 0, 0, 0]);
    assert!(SdoClientMessageBuilder::download_segment(3, false, false, &[0; 8]).is_err());
    let init = SdoClientMessageBuilder::download_request_segmented_init(3, ObjectId::new(0x2000, 0), 300);
    assert_eq!(init.data, vec![0x21, 0x00, 0x20, 0x00, 0x2C, 0x01, 0x00, 0x00]);
    let abort = SdoServerMessageBuilder::abort_transfer(3, ObjectId::new(0x2000, 0), SdoAbortCode::ObjectNotExist);
    assert_eq!(abort.data, vec![0x80, 0x00, 0x20, 0x00, 0x00, 0x00, 0x02, 0x06]);
    let resp = SdoServerMessageBuilder::download_response(3, ObjectId::new(0x2000, 0));
    assert_eq!(resp.data, vec![0x60, 0x00, 0x20, 0x00, 0, 0, 0, 0]);
}

#[test]
fn sdo_table_expedited_upload() {
    let mut table = SdoTransferTable::new();
    let req = table.begin(5, SdoDirection::Upload, 0x1000, 0, vec![], 1000, 0).unwrap();
    assert_eq!(req.id.raw(), 0x605);
    assert_eq!(req.data, vec![0x40, 0x00, 0x10, 0x00, 0, 0, 0, 0]);
    // A second request to the same node is refused.
    assert!(matches!(table.begin(5, SdoDirection::Upload, 0x1000, 0, vec![], 1000, 0), Err(CANopenError::Sdo { code: 0x05040001 })));
    let resp = CanMessage::new(0x585, vec![0x4B, 0x00, 0x10, 0x00, 0x34, 0x12, 0, 0]).unwrap();
    assert!(table.accepts(&resp));
    let (node, step) = table.process_message(&resp, 10).unwrap();
    assert_eq!(node, 5);
    assert!(step.finished);
    assert_eq!(step.result.unwrap().unwrap(), vec![0x34, 0x12]);
    assert!(!table.is_active(5));
}

#[test]
fn sdo_table_segmented_download_delivers_all_data() {
    let data: Vec<u8> = (0u8..20).collect();
    let mut table = SdoTransferTable::new();
    let init = table.begin(2, SdoDirection::Download, 0x2000, 1, data.clone(), 1000, 0).unwrap();
    assert_eq!(init.data[0], 0x21);
    let mut received = Vec::new();
    let mut toggle = false;
    let mut reply = table
        .process_message(&CanMessage::new(0x582, vec![0x60, 0, 0x20, 1, 0, 0, 0, 0]).unwrap(), 10)
        .unwrap()
        .1;
    loop {
        let frame = reply.reply.clone().unwrap();
        let n = ((frame[0] >> 1) & 7) as usize;
        received.extend_from_slice(&frame[1..8 - n]);
        assert_eq!(frame[0] & 0x10 != 0, toggle);
        let ack = 0x20 | if toggle { 0x10 } else { 0 };
        let (_, step) = table.process_message(&CanMessage::new(0x582, vec![ack, 0, 0, 0, 0, 0, 0, 0]).unwrap(), 10).unwrap();
        toggle = !toggle;
        if step.finished {
            assert!(step.result.unwrap().is_ok());
            assert!(frame[0] & 1 != 0);
            break;
        }
        reply = step;
    }
    assert_eq!(received, data);
    assert!(!table.is_active(2));
}

#[test]
fn sdo_table_segmented_upload_and_toggle_abort() {
    let mut table = SdoTransferTable::new();
    table.begin(9, SdoDirection::Upload, 0x1008, 0, vec![], 1000, 0).unwrap();
    let (_, s) = table.process_message(&CanMessage::new(0x589, vec![0x41, 0x08, 0x10, 0, 10, 0, 0, 0]).unwrap(), 10).unwrap();
    assert_eq!(s.reply.unwrap(), vec![0x60, 0, 0, 0, 0, 0, 0, 0]);
    let (_, s) = table.process_message(&CanMessage::new(0x589, vec![0x00, b'a', b'b', b'c', b'd', b'e', b'f', b'g']).unwrap(), 10).unwrap();
    assert_eq!(s.reply.unwrap(), vec![0x70, 0, 0, 0, 0, 0, 0, 0]);
    let (_, s) = table.process_message(&CanMessage::new(0x589, vec![0x10 | (4 << 1) | 1, b'h', b'i', b'j', 0, 0, 0, 0]).unwrap(), 10).unwrap();
    assert_eq!(s.result.unwrap().unwrap(), b"abcdefghij".to_vec());
    // A toggle bit that does not alternate aborts the transfer with 0x05030000.
    table.begin(9, SdoDirection::Upload, 0x1008, 0, vec![], 1000, 0).unwrap();
    table.process_message(&CanMessage::new(0x589, vec![0x41, 0x08, 0x10, 0, 10, 0, 0, 0]).unwrap(), 10).unwrap();
    let (_, s) = table.process_message(&CanMessage::new(0x589, vec![0x10, 1, 2, 3, 4, 5, 6, 7]).unwrap(), 10).unwrap();
    assert!(matches!(s.result, Some(Err(CANopenError::Sdo { code: 0x05030000 }))));
    assert_eq!(s.reply.unwrap(), vec![0x80, 0x08, 0x10, 0x00, 0x00, 0x00, 0x03, 0x05]);
    assert!(!table.is_active(9));
}

#[test]
fn sdo_table_server_abort_and_expiry() {
    let mut table = SdoTransferTable::new();
    table.begin(4, SdoDirection::Download, 0x2000, 0, vec![1], 1000, 0).unwrap();
    let (_, s) = table.process_message(&CanMessage::new(0x584, vec![0x80, 0, 0x20, 0, 0x00, 0x00, 0x02, 0x06]).unwrap(), 10).unwrap();
    assert!(matches!(s.result, Some(Err(CANopenError::Sdo { code: 0x06020000 }))));
    // Responses with no active transfer, or that are not SDO, are ignored.
    assert!(table.process_message(&CanMessage::new(0x584, vec![0x60, 0, 0, 0, 0, 0, 0, 0]).unwrap(), 10).is_none());
    assert!(table.process_message(&CanMessage::new(0x184, vec![0x60]).unwrap(), 10).is_none());
    table.begin(4, SdoDirection::Upload, 0x2000, 0, vec![], 1000, 0).unwrap();
    assert!(table.expire(4));
    assert!(!table.expire(4));
}

#[test]
fn sdo_read_value_decoding() {
    assert_eq!(u8_from_sdo_data(&[7]).unwrap(), 7);
    assert_eq!(u16_from_sdo_data(&[0x34, 0x12]).unwrap(), 0x1234);
    assert_eq!(u32_from_sdo_data(&[1, 0, 0, 0]).unwrap(), 1);
    assert!(matches!(u8_from_sdo_data(&[1, 2]), Err(CANopenError::InvalidData(m)) if m == "Expected 1 byte for u8, got 2"));
    assert!(matches!(u32_from_sdo_data(&[]), Err(CANopenError::InvalidData(m)) if m == "Expected 4 bytes for u32, got 0"));
    assert!(matches!(u16_from_sdo_data(&[0; 12]), Err(CANopenError::InvalidData(m)) if m == "Expected 2 bytes for u16, got 12"));
}

#[test]
fn sync_state_counter_rules() {
    let mut st = SyncState::new();
    assert!(st.next_sync_message().data.is_empty());
    st.set_counter_enabled(true);
    for _ in 0..240 {
        st.next_sync_message();
    }
    assert_eq!(st.get_counter(), 240);
    assert_eq!(st.next_sync_message().data, vec![1]);
    assert_eq!(st.receive_sync(&[200]), Some(200));
    assert_eq!(st.get_counter(), 200);
    assert_eq!(st.receive_sync(&[0]), Some(0));
    assert_eq!(st.get_counter(), 200);
    assert_eq!(st.receive_sync(&[250]), Some(250));
    assert_eq!(st.get_counter(), 200);
    assert_eq!(st.receive_sync(&[240]), Some(240));
    assert_eq!(st.get_counter(), 240);
    assert_eq!(st.next_sync_message().data, vec![1]);
    assert_eq!(st.receive_sync(&[1, 2]), None);
    st.reset_counter();
    assert_eq!(st.get_counter(), 0);
    st.set_counter_enabled(false);
    assert_eq!(st.receive_sync(&[9]), Some(9));
    assert_eq!(st.get_counter(), 0);
}

#[test]
fn sync_manager_process_reports_counter() {
    let sync: SyncManager = SyncManager::new();
    assert_eq!(sync.process_sync(&[]), Some(0));
    assert_eq!(sync.process_sync(&[17]), Some(17));
    assert_eq!(sync.process_sync(&[1, 2, 3]), None);
}

#[test]
fn nmt_manager_tracks_heartbeats() {
    let mut nmt = NmtManager::new();
    assert!(!nmt.is_node_found(3));
    assert!(nmt.process_heartbeat(&CanMessage::new(0x703, vec![0x05]).unwrap()).unwrap());
    assert!(!nmt.process_heartbeat(&CanMessage::new(0x703, vec![0x05]).unwrap()).unwrap());
    assert!(nmt.is_node_found(3));
    assert_eq!(nmt.get_node_state(3).unwrap().state, NmtState::Operational);
    assert!(nmt.process_heartbeat(&CanMessage::new(0x77F, vec![0x7F]).unwrap()).unwrap());
    assert_eq!(nmt.get_discovered_nodes(), vec![3, 127]);
    assert_eq!(nmt.get_nodes_in_state(NmtState::PreOperational), vec![127]);
    assert!(matches!(nmt.process_heartbeat(&CanMessage::new_unchecked(0x704, vec![])), Err(CANopenError::InvalidMessage)));
    assert!(!nmt.process_heartbeat(&CanMessage::new(0x181, vec![1]).unwrap()).unwrap());
    assert!(nmt.get_node_state(0).is_none());
    assert!(nmt.check_heartbeat(3, std::time::Duration::from_secs(60)));
    assert!(!nmt.check_heartbeat(200, std::time::Duration::from_secs(60)));
}

#[test]
fn lss_parse_and_inquiry() {
    assert!(matches!(parse_response(&[0x5A, 0x78, 0x56, 0x34, 0x12, 0, 0, 0]), Ok(LssResponse::InquireVendorId(0x12345678))));
    assert!(matches!(parse_response(&[0x11, 0x01]), Ok(LssResponse::ConfigureNodeId(LssError::UnsupportedCommand))));
    assert!(matches!(parse_response(&[0x5E]), Err(CANopenError::InvalidMessage)));
    assert!(matches!(parse_response(&[0x99, 0]), Err(CANopenError::InvalidMessage)));
    assert!(matches!(parse_response(&[]), Err(CANopenError::InvalidMessage)));
    assert!(configure_node_id_frame(0).is_err());
    assert_eq!(configure_node_id_frame(42).unwrap(), vec![0x11, 42, 0, 0, 0, 0, 0, 0]);
    let mut values = Vec::new();
    record_inquiry_response(&mut values, LssCommand::InquireSerialNumber, &Ok(LssResponse::InquireSerialNumber(5)));
    record_inquiry_response(&mut values, LssCommand::InquireSerialNumber, &Ok(LssResponse::InquireSerialNumber(5)));
    record_inquiry_response(&mut values, LssCommand::InquireSerialNumber, &Err(CANopenError::InvalidMessage));
    record_inquiry_response(&mut values, LssCommand::InquireSerialNumber, &Ok(LssResponse::InquireVendorId(9)));
    record_inquiry_response(&mut values, LssCommand::InquireSerialNumber, &Ok(LssResponse::InquireSerialNumber(6)));
    assert_eq!(values, vec![5, 6]);
    assert!(finish_inquiry(Vec::new()).is_err());
    assert_eq!(finish_inquiry(values).unwrap(), vec![5, 6]);
}

#[test]
fn pcan_conversions_round_trip() {
    let m = CanMessage::with_timestamp(0x7E5, vec![1, 2, 3], true).unwrap();
    let p = can_message_to_pcan(&m);
    assert_eq!((p.id, p.msg_type, p.len), (0x7E5, 0x02, 3));
    assert_eq!(p.data, [1, 2, 3, 0, 0, 0, 0, 0]);
    let back = pcan_to_can_message(&p).unwrap();
    assert_eq!(back.id.raw(), 0x7E5);
    assert_eq!(back.data, vec![1, 2, 3]);
    assert!(back.remote);
    let bad_len = PcanMessage { id: 0x100, msg_type: 0, len: 9, data: [0; 8] };
    assert!(matches!(pcan_to_can_message(&bad_len), Err(CANopenError::InvalidLength(9))));
    let bad_id = PcanMessage { id: 0x800, msg_type: 0, len: 0, data: [0; 8] };
    assert!(matches!(pcan_to_can_message(&bad_id), Err(CANopenError::InvalidData(m)) if m == "CAN ID exceeds 11-bit limit"));
    assert!(matches!(pcan_read_action(PCAN_ERROR_QRCVEMPTY, &p), PcanReadAction::Wait(1)));
    assert!(matches!(pcan_read_action(0x1234, &p), PcanReadAction::Wait(10)));
    assert!(matches!(pcan_read_action(PCAN_ERROR_OK, &p), PcanReadAction::Deliver(_)));
    assert!(matches!(pcan_read_action(PCAN_ERROR_OK, &bad_len), PcanReadAction::Reject(CANopenError::InvalidLength(9))));
    assert!(matches!(pcan_read_action(PCAN_ERROR_OK, &bad_id), PcanReadAction::Reject(CANopenError::InvalidData(m)) if m == "CAN ID exceeds 11-bit limit"));
    let rtr = PcanMessage { id: 0x701, msg_type: PCAN_MESSAGE_RTR, len: 0, data: [0; 8] };
    assert!(matches!(pcan_read_action(PCAN_ERROR_OK, &rtr), PcanReadAction::Deliver(m) if m.remote && m.id.raw() == 0x701));
}

#[test]
fn bus_speed_values() {
    assert_eq!(BusSpeed::Baud125K.bitrate(), 125_000);
    assert_eq!(BusSpeed::Baud125K.to_pcan_baud(), 0x031C);
    assert_eq!(BusSpeed::Baud250K.to_pcan_baud(), 0x011C);
    assert_eq!(BusSpeed::Baud500K.to_pcan_baud(), 0x001C);
    assert_eq!(BusSpeed::Baud1M.to_pcan_baud(), 0x0014);
    assert_eq!(PcanHandle::PcanUsbbus3.code(), 0x53);
}

#[test]
fn events_routing() {
    assert_eq!(event_channel(MessageType::NmtErrorControl), Some(EventChannel::Nmt));
    assert_eq!(event_channel(MessageType::TimeStamp), Some(EventChannel::Time));
    assert_eq!(event_channel(MessageType::Unknown), None);
    let routes = [
        (0x7E4, ReceiveRoute::LssResponse),
        (0x080, ReceiveRoute::Sync),
        (0x0FF, ReceiveRoute::Emergency),
        (0x705, ReceiveRoute::Heartbeat),
        (0x300, ReceiveRoute::Pdo),
        (0x585, ReceiveRoute::Unhandled),
        (0x7E5, ReceiveRoute::Unhandled),
    ];
    for (cob, route) in routes {
        assert_eq!(receive_route(&CanMessage::new_unchecked(cob, vec![])), route);
    }
    let ev = MessageEvent::new(CanMessage::new(0x181, vec![1]).unwrap());
    assert_eq!(ev.message.data, vec![1]);
}

#[test]
fn server_builder_frames_drive_client_transfers() {
    let mut table = SdoTransferTable::new();
    table.begin(6, SdoDirection::Upload, 0x1017, 0, vec![], 1000, 0).unwrap();
    let resp = SdoServerMessageBuilder::upload_response_expedited(6, ObjectId::new(0x1017, 0), &[0xE8, 0x03]).unwrap();
    let (_, step) = table.process_message(&resp, 10).unwrap();
    assert_eq!(step.result.unwrap().unwrap(), vec![0xE8, 0x03]);
    table.begin(6, SdoDirection::Download, 0x1017, 0, vec![1, 2, 3, 4, 5, 6, 7, 8], 1000, 0).unwrap();
    let abort = SdoServerMessageBuilder::abort_transfer(6, ObjectId::new(0x1017, 0), SdoAbortCode::AttemptWriteReadOnly);
    let (_, step) = table.process_message(&abort, 10).unwrap();
    assert!(matches!(step.result, Some(Err(CANopenError::Sdo { code: 0x06010002 }))));
    assert!(step.finished);
}

#[test]
fn can_id_try_from_u32() {
    assert_eq!(CanId::try_from(0x181u32).unwrap().raw(), 0x181);
    assert_eq!(CanId::try_from(0x7FFu32).unwrap().raw(), 0x7FF);
    assert!(matches!(CanId::try_from(0x800u32), Err(CANopenError::InvalidMessage)));
}
