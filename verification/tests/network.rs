use record_syncd::clock::{current_timestamp_micros, timestamp_from_micros};
use record_syncd::network::{
    plan_broadcast_socket, InterfaceAddr, Message, NetworkManager, NodeRole, NodeState,
    RecordingCmd, SocketPlan, BROADCAST_ADDR, DISCOVERY_PORT,
};

fn node() -> NetworkManager {
    NetworkManager::new("camera".to_string(), NodeRole::Follower)
}

#[test]
fn clock_gives_microseconds_since_the_epoch() {
    let before = std::time::SystemTime::now()
        .duration_since(std::time::UNIX_EPOCH)
        .unwrap()
        .as_micros() as i64;
    let now = current_timestamp_micros().unwrap();
    let after = std::time::SystemTime::now()
        .duration_since(std::time::UNIX_EPOCH)
        .unwrap()
        .as_micros() as i64;
    assert!(before <= now && now <= after);
}

#[test]
fn timestamps_keep_the_lower_bits() {
    assert_eq!(timestamp_from_micros(0), 0);
    assert_eq!(timestamp_from_micros(1_700_000_000_000_000), 1_700_000_000_000_000);
    assert_eq!(timestamp_from_micros(i64::MAX as u128), i64::MAX);
    assert_eq!(timestamp_from_micros(i64::MAX as u128 + 1), i64::MIN);
    assert_eq!(timestamp_from_micros(u64::MAX as u128), -1);
    assert_eq!(timestamp_from_micros(u64::MAX as u128 + 6), 5);
}

#[test]
fn roles_have_names() {
    assert_eq!(NodeRole::Leader.to_string(), "Leader");
    assert_eq!(NodeRole::Follower.to_string(), "Follower");
}

#[test]
fn node_knows_its_name_and_role() {
    let n = node();
    assert_eq!(n.node_id(), "camera");
    assert_eq!(n.role(), NodeRole::Follower);
    assert!(n.is_self(&"camera".to_string()));
    assert!(!n.is_self(&"camera2".to_string()));
}

#[test]
fn messages_carry_who_and_when() {
    let n = node();
    assert!(matches!(
        n.discovery_at(12345),
        Message::Discovery { node_id, role: NodeRole::Follower, timestamp: 12345 } if node_id == "camera"
    ));
    assert!(matches!(
        n.time_sync_request_at(7),
        Message::TimeSyncRequest { node_id, t1: 7 } if node_id == "camera"
    ));
    assert!(matches!(
        n.time_sync_response_at(1, 2, 3),
        Message::TimeSyncResponse { node_id, t1: 1, t2: 2, t3: 3 } if node_id == "camera"
    ));
    assert!(matches!(
        n.send_recording_command(RecordingCmd::Stop, 99),
        Message::RecordingCommand {
            command: RecordingCmd::Stop,
            target_timestamp: 99,
            role: NodeRole::Follower,
        }
    ));
    assert!(matches!(
        n.status_at(NodeState::Ready, 5),
        Message::Status { node_id, state: NodeState::Ready, timestamp: 5 } if node_id == "camera"
    ));
}

#[test]
fn messages_sent_now_carry_the_clock() {
    let n = node();
    let before = current_timestamp_micros().unwrap();
    let (request, t1) = n.send_time_sync_request().unwrap();
    assert!(matches!(request, Message::TimeSyncRequest { t1: t, .. } if t == t1));
    assert!(t1 >= before);
    assert!(matches!(
        n.send_discovery().unwrap(),
        Message::Discovery { timestamp, role: NodeRole::Follower, .. } if timestamp >= t1
    ));
    assert!(matches!(
        n.send_time_sync_response(10, 20).unwrap(),
        Message::TimeSyncResponse { t1: 10, t2: 20, t3, .. } if t3 >= t1
    ));
    assert!(matches!(
        n.send_status(NodeState::Error).unwrap(),
        Message::Status { state: NodeState::Error, timestamp, .. } if timestamp >= t1
    ));
}

#[test]
fn messages_go_to_the_broadcast_address() {
    assert_eq!(BROADCAST_ADDR, "192.168.50.255");
    assert_eq!(DISCOVERY_PORT, 9942);
}

#[test]
fn socket_is_bound_to_an_ipv4_interface() {
    let ip = u32::from_be_bytes([192, 168, 1, 10]);
    assert_eq!(
        plan_broadcast_socket(Some(InterfaceAddr::V4(ip))),
        SocketPlan { bind_ip: ip, bind_port: 9942, outgoing_interface: Some(ip) }
    );
}

#[test]
fn socket_is_bound_to_all_interfaces_otherwise() {
    let all = SocketPlan { bind_ip: 0, bind_port: 9942, outgoing_interface: None };
    assert_eq!(plan_broadcast_socket(None), all);
    assert_eq!(plan_broadcast_socket(Some(InterfaceAddr::V6(1))), all);
}
