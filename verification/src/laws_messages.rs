//! What the messages that nodes make bring about in the nodes that receive them.

use crate::clock::clock_gives;
use crate::network::{
    plan_broadcast_socket, InterfaceAddr, Message, MessageView, NetworkManager, NodeRole, NodeState,
    RecordingCmd, SocketPlan, BROADCAST_ADDR,
};
use crate::orchestrator::{Action, ActionView, NodeView, Orchestrator};
use vstd::prelude::*;

verus! {

// ---- The socket ----

/// A node binds to the port of the protocol. It binds to an interface, and sends
/// through it, exactly if that has an IPv4 address.
pub proof fn law_ipv4_interfaces_are_bound(interface: Option<InterfaceAddr>, r: SocketPlan)
    requires
        call_ensures(plan_broadcast_socket, (interface,), r),
    ensures
        r.bind_port == 9942,
        r.outgoing_interface is Some <==> interface is Some && interface->0 is V4,
        r.outgoing_interface matches Some(ip) ==> r.bind_ip == ip && interface == Some(
            InterfaceAddr::V4(ip),
        ),
        r.outgoing_interface is None ==> r.bind_ip == 0,
{
}

/// The characters of the address that messages are broadcast to.
pub proof fn law_broadcast_address()
    ensures
        BROADCAST_ADDR@ == seq![
            '1', '9', '2', '.', '1', '6', '8', '.', '5', '0', '.', '2', '5', '5',
        ],
{
    reveal_strlit("192.168.50.255");
    assert(BROADCAST_ADDR@ =~= seq![
        '1', '9', '2', '.', '1', '6', '8', '.', '5', '0', '.', '2', '5', '5',
    ]);
}

// ---- What a node sends ----

/// A beacon makes its sender known to every other node: with its role, as last
/// seen when it was sent.
pub proof fn law_beacon_makes_its_sender_known(
    sender: NetworkManager,
    sent: i64,
    beacon: Message,
    receiver: NodeView,
    now: int,
)
    requires
        call_ensures(NetworkManager::discovery_at, (&sender, sent), beacon),
        sender.id() != receiver.node_id,
    ensures
        ({
            let (after, action) = receiver.step(beacon@, now);
            &&& after.peers.contains_key(sender.id())
            &&& after.peers[sender.id()].role == sender.own_role()
            &&& after.peers[sender.id()].last_seen == sent
            &&& after.peers[sender.id()].state == NodeState::Idle
            &&& action matches ActionView::ReportPeer { peer_id, role } && peer_id == sender.id()
                && role == sender.own_role()
        }),
{
}

/// A status report of a known node is what is known of it from then on.
pub proof fn law_status_is_passed_on(
    sender: NetworkManager,
    state: NodeState,
    sent: i64,
    report: Message,
    receiver: NodeView,
    now: int,
)
    requires
        call_ensures(NetworkManager::status_at, (&sender, state, sent), report),
        sender.id() != receiver.node_id,
        receiver.peers.contains_key(sender.id()),
    ensures
        ({
            let peer = receiver.step(report@, now).0.peers[sender.id()];
            &&& peer.state == state
            &&& peer.last_seen == sent
            &&& peer.role == receiver.peers[sender.id()].role
        }),
{
}

/// A request for the time makes a leader answer with the timestamp of the
/// request and that of its arrival. The answer, with the time at which it was
/// sent, gives the one who asked half of what the two clocks are apart there
/// and back.
pub proof fn law_request_is_answered(
    client: NetworkManager,
    server: NetworkManager,
    t1: i64,
    t2: i64,
    t3: i64,
    t4: i64,
    request: Message,
    response: Message,
    asking: NodeView,
    asked: NodeView,
)
    requires
        call_ensures(NetworkManager::time_sync_request_at, (&client, t1), request),
        call_ensures(NetworkManager::time_sync_response_at, (&server, t1, t2, t3), response),
        asking.node_id == client.id(),
        asked.node_id == server.id(),
        asked.role == NodeRole::Leader,
        client.id() != server.id(),
    ensures
        asked.step(request@, t2 as int).1 == (ActionView::RespondTimeSync { t1, t2 }),
        asking.step(response@, t4 as int).1 matches ActionView::ReportSync {
            peer_id,
            offset,
            rtt,
        } && {
            let twice = (t2 - t1) + (t3 - t4);
            &&& peer_id == server.id()
            &&& rtt == (t4 - t1) - (t3 - t2)
            &&& twice >= 0 ==> 0 <= 2 * offset <= twice <= 2 * offset + 1
            &&& twice <= 0 ==> 2 * offset - 1 <= twice <= 2 * offset <= 0
        },
{
}

/// A command that a node sends at `sent` for `delay_ms` later is carried out by
/// every node with the same network time: the wait of the receiver, on the
/// network time, ends when the delay of the sender does.
pub proof fn law_command_is_due_after_the_delay(
    sender: Orchestrator,
    command: RecordingCmd,
    delay_ms: i64,
    sent: i64,
    message: Message,
    receiver: NodeView,
    now: int,
)
    requires
        sender@.command_fits(delay_ms as int, sent as int),
        call_ensures(
            Orchestrator::recording_command_at,
            (&sender, command, delay_ms, sent),
            message,
        ),
    ensures
        ({
            let due = sent + sender@.sync.offset + 1000 * delay_ms;
            match receiver.step(message@, now).1 {
                ActionView::RecordLater { command: c, delay_micros, .. } => c == command && now
                    + receiver.sync.offset + delay_micros == due,
                ActionView::RecordNow { command: c, .. } => c == command && now
                    + receiver.sync.offset >= due,
                _ => false,
            }
        }),
{
}

// ---- What is sent at the current time ----

/// What a node sends bears a reading of its clock. It sends nothing only if the
/// clock gave none.
pub proof fn law_sent_messages_bear_the_time(
    sender: NetworkManager,
    state: NodeState,
    t1: i64,
    t2: i64,
    beacon: Option<Message>,
    request: Option<(Message, i64)>,
    response: Option<Message>,
    report: Option<Message>,
)
    requires
        call_ensures(NetworkManager::send_discovery, (&sender,), beacon),
        call_ensures(NetworkManager::send_time_sync_request, (&sender,), request),
        call_ensures(NetworkManager::send_time_sync_response, (&sender, t1, t2), response),
        call_ensures(NetworkManager::send_status, (&sender, state), report),
    ensures
        match beacon {
            Some(m) => m matches Message::Discovery { node_id, role, timestamp } && node_id@
                == sender.id() && role == sender.own_role() && clock_gives(Some(timestamp)),
            None => clock_gives(None),
        },
        match request {
            Some((m, t)) => m matches Message::TimeSyncRequest { node_id, t1 } && node_id@
                == sender.id() && t1 == t && clock_gives(Some(t)),
            None => clock_gives(None),
        },
        match response {
            Some(m) => m matches Message::TimeSyncResponse { node_id, t1: a, t2: b, t3 } && node_id@
                == sender.id() && a == t1 && b == t2 && clock_gives(Some(t3)),
            None => clock_gives(None),
        },
        match report {
            Some(m) => m matches Message::Status { node_id, state: s, timestamp } && node_id@
                == sender.id() && s == state && clock_gives(Some(timestamp)),
            None => clock_gives(None),
        },
{
}

/// The status report that a node sends bears its name, the state that it is
/// given and a reading of its clock.
pub proof fn law_node_reports_its_status(
    node: Orchestrator,
    state: NodeState,
    report: Option<Message>,
)
    requires
        call_ensures(Orchestrator::send_status, (&node, state), report),
    ensures
        match report {
            Some(m) => m matches Message::Status { node_id, state: s, timestamp } && node_id@
                == node@.node_id && s == state && clock_gives(Some(timestamp)),
            None => clock_gives(None),
        },
{
}

/// A role is called by its name.
pub proof fn law_roles_have_names(role: NodeRole, r: String)
    requires
        call_ensures(NodeRole::to_string, (&role,), r),
    ensures
        role == NodeRole::Leader <==> r@ == seq!['L', 'e', 'a', 'd', 'e', 'r'],
        role == NodeRole::Follower <==> r@ == seq!['F', 'o', 'l', 'l', 'o', 'w', 'e', 'r'],
{
    reveal_strlit("Leader");
    reveal_strlit("Follower");
    let leader = seq!['L', 'e', 'a', 'd', 'e', 'r'];
    let follower = seq!['F', 'o', 'l', 'l', 'o', 'w', 'e', 'r'];
    assert("Leader"@ =~= leader);
    assert("Follower"@ =~= follower);
    assert(leader.len() != follower.len());
}

// ---- Messages and actions in the abstract ----

/// A message is seen as what it is.
pub proof fn law_messages_are_seen_as_they_are(message: Message)
    ensures
        match message {
            Message::Discovery { node_id, role, timestamp } => message@ == (
            MessageView::Discovery { node_id: node_id@, role, timestamp }),
            Message::TimeSyncRequest { node_id, t1 } => message@ == (
            MessageView::TimeSyncRequest { node_id: node_id@, t1 }),
            Message::TimeSyncResponse { node_id, t1, t2, t3 } => message@ == (
            MessageView::TimeSyncResponse { node_id: node_id@, t1, t2, t3 }),
            Message::RecordingCommand { command, target_timestamp, role } => message@ == (
            MessageView::RecordingCommand { command, target_timestamp, role }),
            Message::Status { node_id, state, timestamp } => message@ == (MessageView::Status {
                node_id: node_id@,
                state,
                timestamp,
            }),
        },
{
}

/// An action is seen as what it is.
pub proof fn law_actions_are_seen_as_they_are(action: Action)
    ensures
        match action {
            Action::Nothing => action@ == ActionView::Nothing,
            Action::ReportPeer { peer_id, role } => action@ == (ActionView::ReportPeer {
                peer_id: peer_id@,
                role,
            }),
            Action::RespondTimeSync { t1, t2 } => action@ == (ActionView::RespondTimeSync {
                t1,
                t2,
            }),
            Action::ReportSync { peer_id, measurement } => action@ == (ActionView::ReportSync {
                peer_id: peer_id@,
                offset: measurement.offset as int,
                rtt: measurement.rtt as int,
            }),
            Action::RecordNow { command, event, due_in_ms } => action@ == (ActionView::RecordNow {
                command,
                event,
                due_in_ms: due_in_ms as int,
            }),
            Action::RecordLater { command, event, delay_micros, due_in_ms } => action@ == (
            ActionView::RecordLater {
                command,
                event,
                delay_micros: delay_micros as int,
                due_in_ms: due_in_ms as int,
            }),
        },
{
}

} // verus!
