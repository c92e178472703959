//! The messages of the protocol and the node that sends them.

use crate::clock::clock_gives;
pub use crate::clock::current_timestamp_micros;
use vstd::prelude::*;

verus! {

/// Address that messages are broadcast to.
pub const BROADCAST_ADDR: &'static str = "192.168.50.255";

/// UDP port of the protocol.
pub const DISCOVERY_PORT: u16 = 9942;

#[derive(Debug, Clone, Copy, PartialEq, Eq, Structural)]
pub enum NodeRole {
    Leader,
    Follower,
}

impl NodeRole {
    /// The role in words.
    pub fn to_string(&self) -> (r: String)
        ensures
            r@ == match *self {
                NodeRole::Leader => "Leader"@,
                NodeRole::Follower => "Follower"@,
            },
    {
        match self {
            NodeRole::Leader => "Leader".to_owned(),
            NodeRole::Follower => "Follower".to_owned(),
        }
    }
}

#[derive(Debug, Clone, Copy, PartialEq, Eq, Structural)]
pub enum RecordingCmd {
    Start,
    Stop,
}

#[derive(Debug, Clone, Copy, PartialEq, Eq, Structural)]
pub enum NodeState {
    Idle,
    Ready,
    Recording,
    Error,
}

#[derive(Debug, Clone)]
pub enum Message {
    /// Discovery beacon from a node
    Discovery { node_id: String, role: NodeRole, timestamp: i64 },
    /// Time sync request; `t1` is the client timestamp when it was sent
    TimeSyncRequest { node_id: String, t1: i64 },
    /// Time sync response; `t1` is the timestamp of the request, `t2` the
    /// server timestamp when it was received, `t3` when the response was sent
    TimeSyncResponse { node_id: String, t1: i64, t2: i64, t3: i64 },
    /// Recording control command, to be executed at a network timestamp
    RecordingCommand { command: RecordingCmd, target_timestamp: i64, role: NodeRole },
    /// Status report from a node
    Status { node_id: String, state: NodeState, timestamp: i64 },
}

/// A [`Message`] with names as sequences of characters.
pub enum MessageView {
    Discovery { node_id: Seq<char>, role: NodeRole, timestamp: i64 },
    TimeSyncRequest { node_id: Seq<char>, t1: i64 },
    TimeSyncResponse { node_id: Seq<char>, t1: i64, t2: i64, t3: i64 },
    RecordingCommand { command: RecordingCmd, target_timestamp: i64, role: NodeRole },
    Status { node_id: Seq<char>, state: NodeState, timestamp: i64 },
}

impl MessageView {
    /// The node that a message names as its sender. A recording command names
    /// none.
    pub open spec fn sender(self) -> Option<Seq<char>> {
        match self {
            MessageView::Discovery { node_id, .. } => Some(node_id),
            MessageView::TimeSyncRequest { node_id, .. } => Some(node_id),
            MessageView::TimeSyncResponse { node_id, .. } => Some(node_id),
            MessageView::RecordingCommand { .. } => None,
            MessageView::Status { node_id, .. } => Some(node_id),
        }
    }
}

impl View for Message {
    type V = MessageView;

    open spec fn view(&self) -> MessageView {
        match *self {
            Message::Discovery { node_id, role, timestamp } => MessageView::Discovery {
                node_id: node_id@,
                role,
                timestamp,
            },
            Message::TimeSyncRequest { node_id, t1 } => MessageView::TimeSyncRequest {
                node_id: node_id@,
                t1,
            },
            Message::TimeSyncResponse { node_id, t1, t2, t3 } => MessageView::TimeSyncResponse {
                node_id: node_id@,
                t1,
                t2,
                t3,
            },
            Message::RecordingCommand {
                command,
                target_timestamp,
                role,
            } => MessageView::RecordingCommand { command, target_timestamp, role },
            Message::Status { node_id, state, timestamp } => MessageView::Status {
                node_id: node_id@,
                state,
                timestamp,
            },
        }
    }
}

/// Address of a network interface, as the number that its octets form.
#[derive(Debug, Clone, Copy, PartialEq, Eq, Structural)]
pub enum InterfaceAddr {
    V4(u32),
    V6(u128),
}

/// How the broadcast socket is to be set up.
#[derive(Debug, Clone, Copy, PartialEq, Eq, Structural)]
pub struct SocketPlan {
    /// IPv4 address to bind to; 0 stands for all interfaces
    pub bind_ip: u32,
    pub bind_port: u16,
    /// Interface that outgoing packets are pinned to
    pub outgoing_interface: Option<u32>,
}

/// Binds to the given interface and sends through it if it is an IPv4
/// interface, and otherwise to all interfaces without pinning.
pub fn plan_broadcast_socket(interface: Option<InterfaceAddr>) -> (r: SocketPlan)
    ensures
        r == (match interface {
            Some(InterfaceAddr::V4(ip)) => SocketPlan {
                bind_ip: ip,
                bind_port: DISCOVERY_PORT,
                outgoing_interface: Some(ip),
            },
            _ => SocketPlan {
                bind_ip: 0,
                bind_port: DISCOVERY_PORT,
                outgoing_interface: None,
            },
        }),
{
    match interface {
        Some(InterfaceAddr::V4(ip)) => SocketPlan {
            bind_ip: ip,
            bind_port: DISCOVERY_PORT,
            outgoing_interface: Some(ip),
        },
        _ => SocketPlan { bind_ip: 0, bind_port: DISCOVERY_PORT, outgoing_interface: None },
    }
}

/// Who this node is on the network. Its `send_*` methods make the messages
/// that it broadcasts; those that read the clock give `None` while the clock
/// stands before the epoch.
#[derive(Debug)]
pub struct NetworkManager {
    node_id: String,
    role: NodeRole,
}

impl NetworkManager {
    /// The name of the node.
    pub closed spec fn id(&self) -> Seq<char> {
        self.node_id@
    }

    /// The role of the node.
    pub closed spec fn own_role(&self) -> NodeRole {
        self.role
    }

    pub fn new(node_id: String, role: NodeRole) -> (r: Self)
        ensures
            r.id() == node_id@,
            r.own_role() == role,
    {
        NetworkManager { node_id, role }
    }

    pub fn node_id(&self) -> (r: &str)
        ensures
            r@ == self.id(),
    {
        self.node_id.as_str()
    }

    /// Whether a name is that of this node.
    pub fn is_self(&self, name: &String) -> (r: bool)
        ensures
            r == (name@ == self.id()),
    {
        *name == self.node_id
    }

    pub fn role(&self) -> (r: NodeRole)
        ensures
            r == self.own_role(),
    {
        self.role
    }

    /// Discovery beacon sent at `now`.
    pub fn discovery_at(&self, now: i64) -> (r: Message)
        ensures
            r@ == (MessageView::Discovery {
                node_id: self.id(),
                role: self.own_role(),
                timestamp: now,
            }),
    {
        Message::Discovery { node_id: self.node_id.clone(), role: self.role, timestamp: now }
    }

    /// Time sync request sent at `t1`.
    pub fn time_sync_request_at(&self, t1: i64) -> (r: Message)
        ensures
            r@ == (MessageView::TimeSyncRequest { node_id: self.id(), t1 }),
    {
        Message::TimeSyncRequest { node_id: self.node_id.clone(), t1 }
    }

    /// Time sync response sent at `t3`.
    pub fn time_sync_response_at(&self, t1: i64, t2: i64, t3: i64) -> (r: Message)
        ensures
            r@ == (MessageView::TimeSyncResponse { node_id: self.id(), t1, t2, t3 }),
    {
        Message::TimeSyncResponse { node_id: self.node_id.clone(), t1, t2, t3 }
    }

    /// Status report sent at `now`.
    pub fn status_at(&self, state: NodeState, now: i64) -> (r: Message)
        ensures
            r@ == (MessageView::Status { node_id: self.id(), state, timestamp: now }),
    {
        Message::Status { node_id: self.node_id.clone(), state, timestamp: now }
    }

    /// Discovery beacon with the current time.
    pub fn send_discovery(&self) -> (r: Option<Message>)
        ensures
            exists|now: Option<i64>| #[trigger]
                clock_gives(now) && match now {
                    Some(timestamp) => r matches Some(m) && m@ == (MessageView::Discovery {
                        node_id: self.id(),
                        role: self.own_role(),
                        timestamp,
                    }),
                    None => r is None,
                },
    {
        match current_timestamp_micros() {
            Some(now) => Some(self.discovery_at(now)),
            None => None,
        }
    }

    /// Time sync request with the current time, and that time.
    pub fn send_time_sync_request(&self) -> (r: Option<(Message, i64)>)
        ensures
            exists|now: Option<i64>| #[trigger]
                clock_gives(now) && match now {
                    Some(now) => r matches Some((m, t1)) && t1 == now && m@ == (
                    MessageView::TimeSyncRequest { node_id: self.id(), t1 }),
                    None => r is None,
                },
    {
        match current_timestamp_micros() {
            Some(t1) => Some((self.time_sync_request_at(t1), t1)),
            None => None,
        }
    }

    /// Time sync response that leaves at the current time.
    pub fn send_time_sync_response(&self, t1: i64, t2: i64) -> (r: Option<Message>)
        ensures
            exists|now: Option<i64>| #[trigger]
                clock_gives(now) && match now {
                    Some(t3) => r matches Some(m) && m@ == (MessageView::TimeSyncResponse {
                        node_id: self.id(),
                        t1,
                        t2,
                        t3,
                    }),
                    None => r is None,
                },
    {
        match current_timestamp_micros() {
            Some(t3) => Some(self.time_sync_response_at(t1, t2, t3)),
            None => None,
        }
    }

    /// Recording command for a network timestamp.
    pub fn send_recording_command(&self, command: RecordingCmd, target_timestamp: i64) -> (r:
        Message)
        ensures
            r@ == (MessageView::RecordingCommand {
                command,
                target_timestamp,
                role: self.own_role(),
            }),
    {
        Message::RecordingCommand { command, target_timestamp, role: self.role }
    }

    /// Status report with the current time.
    pub fn send_status(&self, state: NodeState) -> (r: Option<Message>)
        ensures
            exists|now: Option<i64>| #[trigger]
                clock_gives(now) && match now {
                    Some(timestamp) => r matches Some(m) && m@ == (MessageView::Status {
                        node_id: self.id(),
                        state,
                        timestamp,
                    }),
                    None => r is None,
                },
    {
        match current_timestamp_micros() {
            Some(now) => Some(self.status_at(state, now)),
            None => None,
        }
    }
}

} // verus!
