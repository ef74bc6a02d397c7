use libcanopen_client::canopen::message::CanMessage;
use libcanopen_client::canopen::nmt::{heartbeat_timed_out, NmtState, NodeState};
use libcanopen_client::canopen::sdo::{SdoDirection, SdoTransferTable};
use libcanopen_client::utils::timestamp_from_micros;
use std::time::{Duration, SystemTime};

#[test]
fn sdo_transfers_expire_after_their_timeout() {
    let mut table = SdoTransferTable::new();
    table.begin(3, SdoDirection::Upload, 0x1000, 0, vec![], 100, 1_000).unwrap();
    table.begin(7, SdoDirection::Upload, 0x1000, 0, vec![], 500, 1_000).unwrap();
    table.begin(5, SdoDirection::Upload, 0x1000, 0, vec![], 100, 1_000).unwrap();
    // Exactly at the timeout nothing expires.
    assert_eq!(table.expire_timed_out(1_100), Vec::<u8>::new());
    // A response keeps node 5 alive.
    let resp = CanMessage::new(0x585, vec![0x41, 0x00, 0x10, 0, 20, 0, 0, 0]).unwrap();
    assert!(table.process_message(&resp, 1_050).is_some());
    assert_eq!(table.expire_timed_out(1_101), vec![3]);
    assert!(!table.is_active(3));
    assert!(table.is_active(5));
    assert!(table.is_active(7));
    // A clock reading before the last activity expires nothing.
    assert_eq!(table.expire_timed_out(0), Vec::<u8>::new());
    assert_eq!(table.expire_timed_out(1_600), vec![5, 7]);
    assert!(!table.is_active(5));
    assert!(!table.is_active(7));
}

#[test]
fn heartbeat_timeout_decision() {
    assert!(!heartbeat_timed_out(None, 0));
    assert!(!heartbeat_timed_out(Some(1_000), 1_000));
    assert!(heartbeat_timed_out(Some(1_001), 1_000));
    let fresh = NodeState::new(4);
    assert!(!fresh.is_timeout(Duration::from_secs(60)));
    let old = NodeState::new_at(4, SystemTime::now() - Duration::from_secs(10));
    assert!(old.is_timeout(Duration::from_secs(1)));
    assert!(!old.is_timeout(Duration::from_secs(60)));
}

#[test]
fn node_state_records_heartbeat_time() {
    let t0 = SystemTime::UNIX_EPOCH + Duration::from_secs(100);
    let mut node = NodeState::new_at(9, t0);
    assert_eq!(node.last_heartbeat, t0);
    assert_eq!(node.state, NmtState::Invalid);
    let t1 = t0 + Duration::from_secs(1);
    assert!(node.update_state_at(NmtState::Operational, t1));
    assert_eq!(node.last_heartbeat, t1);
    assert_eq!(node.last_state, NmtState::Invalid);
    let t2 = t1 + Duration::from_secs(1);
    assert!(!node.update_state_at(NmtState::Operational, t2));
    assert_eq!(node.last_heartbeat, t2);
    assert_eq!(node.node_id, 9);
}

#[test]
fn timestamp_from_clock_reading() {
    assert_eq!(timestamp_from_micros(None), 0);
    assert_eq!(timestamp_from_micros(Some(1_700_000_000_000_000)), 1_700_000_000_000_000);
    assert_eq!(timestamp_from_micros(Some((1u128 << 64) + 5)), 5);
}
