use record_syncd::clock::current_timestamp_micros;
use record_syncd::network::{Message, NetworkManager, NodeRole, NodeState, RecordingCmd};
use record_syncd::orchestrator::{Action, Fault, Orchestrator, RecordingEvent};
use record_syncd::sync::TimeSyncManager;

fn node(id: &str, role: NodeRole) -> Orchestrator {
    Orchestrator::new(NetworkManager::new(id.to_string(), role), TimeSyncManager::new(10))
}

fn discovery(id: &str, role: NodeRole) -> Message {
    Message::Discovery { node_id: id.to_string(), role, timestamp: 100 }
}

fn status(id: &str, state: NodeState) -> Message {
    Message::Status { node_id: id.to_string(), state, timestamp: 200 }
}

fn command(command: RecordingCmd, target_timestamp: i64) -> Message {
    Message::RecordingCommand { command, target_timestamp, role: NodeRole::Leader }
}

#[test]
fn new_node_knows_nobody() {
    let n = node("a", NodeRole::Leader);
    assert!(n.get_peers().is_empty());
    assert!(!n.is_time_synchronized());
    assert_eq!(n.network().node_id(), "a");
    assert_eq!(n.network().role(), NodeRole::Leader);
}

#[test]
fn discovered_peers_are_listed() {
    let mut n = node("a", NodeRole::Leader);
    let action = n.handle_message(discovery("b", NodeRole::Follower)).unwrap();
    assert!(matches!(action, Action::ReportPeer { peer_id, role: NodeRole::Follower } if peer_id == "b"));
    n.handle_message(discovery("c", NodeRole::Leader)).unwrap();
    n.handle_message(discovery("b", NodeRole::Follower)).unwrap();
    let mut peers = n.get_peers();
    peers.sort_by(|x, y| x.0.cmp(&y.0));
    assert_eq!(
        peers,
        vec![
            ("b".to_string(), NodeRole::Follower, NodeState::Idle),
            ("c".to_string(), NodeRole::Leader, NodeState::Idle),
        ]
    );
}

#[test]
fn own_messages_are_ignored() {
    let mut n = node("a", NodeRole::Leader);
    let own = vec![
        discovery("a", NodeRole::Follower),
        Message::TimeSyncRequest { node_id: "a".to_string(), t1: 1 },
        Message::TimeSyncResponse { node_id: "a".to_string(), t1: 0, t2: 500, t3: 500 },
        status("a", NodeState::Error),
    ];
    for msg in own {
        assert!(matches!(n.handle_message(msg), Ok(Action::Nothing)));
    }
    assert!(n.get_peers().is_empty());
    assert!(!n.is_time_synchronized());
}

#[test]
fn status_is_taken_from_known_peers_only() {
    let mut n = node("a", NodeRole::Leader);
    assert!(matches!(n.handle_message(status("b", NodeState::Recording)), Ok(Action::Nothing)));
    assert!(n.get_peers().is_empty());
    n.handle_message(discovery("b", NodeRole::Follower)).unwrap();
    n.handle_message(status("b", NodeState::Recording)).unwrap();
    assert_eq!(
        n.get_peers(),
        vec![("b".to_string(), NodeRole::Follower, NodeState::Recording)]
    );
    // A new announcement makes the peer idle again.
    n.handle_message(discovery("b", NodeRole::Follower)).unwrap();
    assert_eq!(n.get_peers(), vec![("b".to_string(), NodeRole::Follower, NodeState::Idle)]);
}

#[test]
fn only_leaders_answer_time_sync_requests() {
    let request = |id: &str| Message::TimeSyncRequest { node_id: id.to_string(), t1: 17 };
    let mut leader = node("a", NodeRole::Leader);
    assert!(matches!(
        leader.handle_message_at(request("b"), 42),
        Action::RespondTimeSync { t1: 17, t2: 42 }
    ));
    let mut follower = node("c", NodeRole::Follower);
    assert!(matches!(follower.handle_message_at(request("b"), 42), Action::Nothing));
}

#[test]
fn whole_exchange_synchronizes_a_follower() {
    // The leader is ahead by 500000, each way takes 300.
    let mut leader = node("leader", NodeRole::Leader);
    let mut follower = node("follower", NodeRole::Follower);
    let request = follower.network().time_sync_request_at(1_000_000);
    let response = match leader.handle_message_at(request, 1_500_300) {
        Action::RespondTimeSync { t1, t2 } => {
            leader.network().time_sync_response_at(t1, t2, 1_500_400)
        }
        other => panic!("unexpected {:?}", other),
    };
    match follower.handle_message_at(response, 1_000_700) {
        Action::ReportSync { peer_id, measurement } => {
            assert_eq!(peer_id, "leader");
            assert_eq!(measurement.offset, 500_000);
            assert_eq!(measurement.rtt, 600);
        }
        other => panic!("unexpected {:?}", other),
    }
    assert!(follower.is_time_synchronized());
    assert!(!leader.is_time_synchronized());
}

#[test]
fn commands_are_scheduled_or_carried_out_at_once() {
    let mut n = node("a", NodeRole::Follower);
    assert!(matches!(
        n.handle_message_at(command(RecordingCmd::Start, 5_999), 1_000),
        Action::RecordLater {
            command: RecordingCmd::Start,
            event: RecordingEvent::Start,
            delay_micros: 4_999,
            due_in_ms: 4,
        }
    ));
    assert!(matches!(
        n.handle_message_at(command(RecordingCmd::Stop, 1_001), 1_000),
        Action::RecordLater { event: RecordingEvent::Stop, delay_micros: 1, due_in_ms: 0, .. }
    ));
    assert!(matches!(
        n.handle_message_at(command(RecordingCmd::Start, 1_000), 1_000),
        Action::RecordNow { event: RecordingEvent::Start, due_in_ms: 0, .. }
    ));
    assert!(matches!(
        n.handle_message_at(command(RecordingCmd::Stop, 1_000), 3_500),
        Action::RecordNow {
            command: RecordingCmd::Stop,
            event: RecordingEvent::Stop,
            due_in_ms: -2,
        }
    ));
}

#[test]
fn commands_respect_the_clock_offset() {
    let mut n = node("a", NodeRole::Follower);
    let response = Message::TimeSyncResponse { node_id: "l".to_string(), t1: 0, t2: 600, t3: 600 };
    n.handle_message_at(response, 0);
    assert!(matches!(
        n.handle_message_at(command(RecordingCmd::Start, 2_000), 1_000),
        Action::RecordLater { delay_micros: 400, .. }
    ));
    assert!(matches!(
        n.recording_command_at(RecordingCmd::Start, 3, 10_000),
        Message::RecordingCommand { target_timestamp: 13_600, .. }
    ));
}

#[test]
fn sender_carries_out_its_own_command() {
    let mut n = node("a", NodeRole::Leader);
    let msg = n.recording_command_at(RecordingCmd::Start, 3000, 1_000_000);
    assert!(matches!(
        msg,
        Message::RecordingCommand {
            command: RecordingCmd::Start,
            target_timestamp: 4_000_000,
            role: NodeRole::Leader,
        }
    ));
    assert!(matches!(
        n.handle_message_at(msg, 1_000_250),
        Action::RecordLater { delay_micros: 2_999_750, due_in_ms: 2999, .. }
    ));
}

#[test]
fn commands_sent_now_lie_ahead_by_the_delay() {
    let n = node("a", NodeRole::Leader);
    let before = current_timestamp_micros().unwrap();
    let msg = n.send_recording_command(RecordingCmd::Stop, 1000).unwrap();
    let after = current_timestamp_micros().unwrap();
    match msg {
        Message::RecordingCommand { command: RecordingCmd::Stop, target_timestamp, .. } => {
            assert!(before + 1_000_000 <= target_timestamp);
            assert!(target_timestamp <= after + 1_000_000);
        }
        other => panic!("unexpected {:?}", other),
    }
}

#[test]
fn received_command_is_timed_by_the_clock() {
    let mut n = node("a", NodeRole::Follower);
    let now = current_timestamp_micros().unwrap();
    match n.handle_message(command(RecordingCmd::Start, now + 60_000_000)).unwrap() {
        Action::RecordLater { delay_micros, .. } => {
            assert!(delay_micros <= 60_000_000);
            assert!(delay_micros > 30_000_000);
        }
        other => panic!("unexpected {:?}", other),
    }
    assert!(matches!(
        n.handle_message(command(RecordingCmd::Stop, 0)),
        Ok(Action::RecordNow { event: RecordingEvent::Stop, .. })
    ));
}

#[test]
fn received_request_is_stamped_by_the_clock() {
    let mut n = node("a", NodeRole::Leader);
    let before = current_timestamp_micros().unwrap();
    let request = Message::TimeSyncRequest { node_id: "b".to_string(), t1: 5 };
    match n.handle_message(request).unwrap() {
        Action::RespondTimeSync { t1, t2 } => {
            assert_eq!(t1, 5);
            assert!(t2 >= before);
        }
        other => panic!("unexpected {:?}", other),
    }
}

#[test]
fn times_out_of_range_are_refused() {
    let mut n = node("a", NodeRole::Follower);
    assert_eq!(
        n.handle_message(command(RecordingCmd::Start, i64::MIN)).unwrap_err(),
        Fault::TimeOutOfRange
    );
    let response = Message::TimeSyncResponse {
        node_id: "b".to_string(),
        t1: i64::MIN,
        t2: 0,
        t3: 0,
    };
    assert!(!n.can_handle(&response, 0));
    assert_eq!(n.handle_message(response).unwrap_err(), Fault::TimeOutOfRange);
    assert!(!n.is_time_synchronized());
    assert_eq!(
        n.send_recording_command(RecordingCmd::Start, i64::MAX).unwrap_err(),
        Fault::TimeOutOfRange
    );
    assert!(!n.can_command(i64::MAX / 1000 + 1, 0));
    assert!(n.can_command(i64::MAX / 1000, 0));
    assert!(!n.can_command(i64::MAX / 1000, 1_000));
}

#[test]
fn status_report_names_the_node() {
    let n = node("a", NodeRole::Follower);
    assert!(matches!(
        n.send_status(NodeState::Recording),
        Some(Message::Status { node_id, state: NodeState::Recording, .. }) if node_id == "a"
    ));
}

#[test]
fn receiver_follows_in_step_with_the_sender() {
    // Network time is what the clock of each node reads plus its offset.
    let mut sender = node("a", NodeRole::Leader);
    sender.handle_message_at(
        Message::TimeSyncResponse { node_id: "x".to_string(), t1: 0, t2: 40, t3: 40 },
        0,
    );
    let mut receiver = node("b", NodeRole::Follower);
    receiver.handle_message_at(
        Message::TimeSyncResponse { node_id: "x".to_string(), t1: 0, t2: -900, t3: -900 },
        0,
    );
    let msg = sender.recording_command_at(RecordingCmd::Start, 2, 50_000 - 40);
    assert!(matches!(
        receiver.handle_message_at(msg.clone(), 50_500 + 900),
        Action::RecordLater { event: RecordingEvent::Start, delay_micros: 1_500, .. }
    ));
    assert!(matches!(
        receiver.handle_message_at(msg, 52_000 + 900),
        Action::RecordNow { event: RecordingEvent::Start, due_in_ms: 0, .. }
    ));
}

#[test]
fn only_responses_move_the_clock() {
    let mut n = node("a", NodeRole::Leader);
    n.handle_message_at(discovery("b", NodeRole::Follower), 10);
    n.handle_message_at(status("b", NodeState::Ready), 20);
    n.handle_message_at(Message::TimeSyncRequest { node_id: "b".to_string(), t1: 3 }, 30);
    n.handle_message_at(command(RecordingCmd::Start, 99), 40);
    assert!(!n.is_time_synchronized());
    n.handle_message_at(
        Message::TimeSyncResponse { node_id: "b".to_string(), t1: 0, t2: 8, t3: 8 },
        0,
    );
    assert!(n.is_time_synchronized());
}

#[test]
fn synchronized_follower_starts_with_the_leader() {
    // The leader is 500000 ahead.
    let mut follower = node("follower", NodeRole::Follower);
    follower.handle_message_at(
        Message::TimeSyncResponse {
            node_id: "leader".to_string(),
            t1: 1_000_000,
            t2: 1_500_000,
            t3: 1_500_000,
        },
        1_000_000,
    );
    assert!(matches!(
        follower.handle_message_at(command(RecordingCmd::Start, 1_600_000), 1_000_000),
        Action::RecordLater { event: RecordingEvent::Start, delay_micros: 100_000, .. }
    ));
    assert!(matches!(
        follower.handle_message_at(command(RecordingCmd::Start, 1_600_000), 1_100_000),
        Action::RecordNow { event: RecordingEvent::Start, due_in_ms: 0, .. }
    ));
}
