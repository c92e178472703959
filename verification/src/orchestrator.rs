//! How a node reacts to the messages that it receives.

use crate::arith::{fits, in_range, trunc_div};
use crate::clock::{clock_gives, current_timestamp_micros};
use crate::name_map::NameMap;
use crate::network::{Message, MessageView, NetworkManager, NodeRole, NodeState, RecordingCmd};
use crate::sync::{
    due_at, measured_offset, round_trip, to_local, wait_micros, SyncMeasurement, SyncScheduler,
    SyncState, TimeSyncManager,
};
use vstd::prelude::*;

verus! {

#[derive(Debug, Clone, Copy, PartialEq, Eq, Structural)]
pub enum RecordingEvent {
    Start,
    Stop,
}

/// The event that a command calls for.
pub open spec fn event_of(command: RecordingCmd) -> RecordingEvent {
    match command {
        RecordingCmd::Start => RecordingEvent::Start,
        RecordingCmd::Stop => RecordingEvent::Stop,
    }
}

/// What is known of another node.
#[derive(Debug, Clone, Copy, PartialEq, Eq, Structural)]
pub struct PeerInfo {
    pub role: NodeRole,
    pub last_seen: i64,
    pub state: NodeState,
}

/// What is to be done about a received message.
#[derive(Debug)]
pub enum Action {
    /// Nothing.
    Nothing,
    /// Tell the user that a peer announced itself.
    ReportPeer { peer_id: String, role: NodeRole },
    /// Broadcast a time sync response with these timestamps.
    RespondTimeSync { t1: i64, t2: i64 },
    /// Tell the user what a time sync exchange showed.
    ReportSync { peer_id: String, measurement: SyncMeasurement },
    /// Pass the event on at once; it was due `due_in_ms` from now.
    RecordNow { command: RecordingCmd, event: RecordingEvent, due_in_ms: i64 },
    /// Pass the event on after a delay, which is `due_in_ms` in milliseconds.
    RecordLater { command: RecordingCmd, event: RecordingEvent, delay_micros: u64, due_in_ms: i64 },
}

/// An [`Action`] with names as sequences of characters.
pub enum ActionView {
    Nothing,
    ReportPeer { peer_id: Seq<char>, role: NodeRole },
    RespondTimeSync { t1: i64, t2: i64 },
    ReportSync { peer_id: Seq<char>, offset: int, rtt: int },
    RecordNow { command: RecordingCmd, event: RecordingEvent, due_in_ms: int },
    RecordLater { command: RecordingCmd, event: RecordingEvent, delay_micros: int, due_in_ms: int },
}

impl View for Action {
    type V = ActionView;

    open spec fn view(&self) -> ActionView {
        match *self {
            Action::Nothing => ActionView::Nothing,
            Action::ReportPeer { peer_id, role } => ActionView::ReportPeer {
                peer_id: peer_id@,
                role,
            },
            Action::RespondTimeSync { t1, t2 } => ActionView::RespondTimeSync { t1, t2 },
            Action::ReportSync { peer_id, measurement } => ActionView::ReportSync {
                peer_id: peer_id@,
                offset: measurement.offset as int,
                rtt: measurement.rtt as int,
            },
            Action::RecordNow { command, event, due_in_ms } => ActionView::RecordNow {
                command,
                event,
                due_in_ms: due_in_ms as int,
            },
            Action::RecordLater {
                command,
                event,
                delay_micros,
                due_in_ms,
            } => ActionView::RecordLater {
                command,
                event,
                delay_micros: delay_micros as int,
                due_in_ms: due_in_ms as int,
            },
        }
    }
}

/// Why a step could not be taken.
#[derive(Debug, Clone, Copy, PartialEq, Eq, Structural)]
pub enum Fault {
    /// The system clock stands before the epoch.
    ClockBeforeEpoch,
    /// A time would leave the range of a timestamp.
    TimeOutOfRange,
}

/// What an [`Orchestrator`] knows.
#[verifier::ext_equal]
pub struct NodeView {
    pub node_id: Seq<char>,
    pub role: NodeRole,
    pub sync: SyncState,
    pub peers: Map<Seq<char>, PeerInfo>,
}

impl NodeView {
    /// Whether a message comes from this node itself. A recording command
    /// never counts as such: the node that sends one follows it as well.
    pub open spec fn is_own(self, msg: MessageView) -> bool {
        msg.sender() == Some(self.node_id)
    }

    /// Whether the reaction to a message depends on the current time.
    pub open spec fn reads_clock(self, msg: MessageView) -> bool {
        match msg {
            MessageView::Discovery { .. } => false,
            MessageView::TimeSyncRequest { .. } => !self.is_own(msg) && self.role
                == NodeRole::Leader,
            MessageView::TimeSyncResponse { .. } => !self.is_own(msg),
            MessageView::RecordingCommand { .. } => true,
            MessageView::Status { .. } => false,
        }
    }

    /// Whether all times that come up in the reaction to a message are in range.
    pub open spec fn step_fits(self, msg: MessageView, now: int) -> bool {
        match msg {
            MessageView::TimeSyncResponse { t1, t2, t3, .. } => self.is_own(msg)
                || self.sync.response_fits(t1 as int, t2 as int, t3 as int, now),
            MessageView::RecordingCommand { target_timestamp, .. } => {
                &&& fits(to_local(self.sync.offset, target_timestamp as int))
                &&& fits(wait_micros(self.sync.offset, target_timestamp as int, now))
            },
            _ => true,
        }
    }

    /// The reaction to a message at the local time `now`: what the node knows
    /// afterwards, and what it does.
    pub open spec fn step(self, msg: MessageView, now: int) -> (NodeView, ActionView) {
        if self.is_own(msg) {
            (self, ActionView::Nothing)
        } else {
            match msg {
                MessageView::Discovery { node_id, role, timestamp } => (
                    NodeView {
                        peers: self.peers.insert(
                            node_id,
                            PeerInfo { role, last_seen: timestamp, state: NodeState::Idle },
                        ),
                        ..self
                    },
                    ActionView::ReportPeer { peer_id: node_id, role },
                ),
                MessageView::TimeSyncRequest { t1, .. } => (
                    self,
                    if self.role == NodeRole::Leader {
                        ActionView::RespondTimeSync { t1, t2: now as i64 }
                    } else {
                        ActionView::Nothing
                    },
                ),
                MessageView::TimeSyncResponse { node_id, t1, t2, t3 } => (
                    NodeView {
                        sync: self.sync.after_response(
                            t1 as int,
                            t2 as int,
                            t3 as int,
                            now,
                            node_id,
                        ),
                        ..self
                    },
                    ActionView::ReportSync {
                        peer_id: node_id,
                        offset: measured_offset(t1 as int, t2 as int, t3 as int, now),
                        rtt: round_trip(t1 as int, t2 as int, t3 as int, now),
                    },
                ),
                MessageView::RecordingCommand { command, target_timestamp, .. } => {
                    let wait = wait_micros(self.sync.offset, target_timestamp as int, now);
                    let event = event_of(command);
                    let due_in_ms = trunc_div(wait, 1000);
                    (
                        self,
                        if wait > 0 {
                            ActionView::RecordLater {
                                command,
                                event,
                                delay_micros: wait,
                                due_in_ms,
                            }
                        } else {
                            ActionView::RecordNow { command, event, due_in_ms }
                        },
                    )
                },
                MessageView::Status { node_id, state, timestamp } => (
                    if self.peers.contains_key(node_id) {
                        NodeView {
                            peers: self.peers.insert(
                                node_id,
                                PeerInfo {
                                    role: self.peers[node_id].role,
                                    last_seen: timestamp,
                                    state,
                                },
                            ),
                            ..self
                        }
                    } else {
                        self
                    },
                    ActionView::Nothing,
                ),
            }
        }
    }

    /// Whether a command with this delay can be scheduled at `now`.
    pub open spec fn command_fits(self, delay_ms: int, now: int) -> bool {
        &&& fits(delay_ms * 1000)
        &&& fits(now + delay_ms * 1000)
        &&& fits(due_at(self.sync.offset, now, delay_ms * 1000))
    }

    /// The recording command that this node sends at `now`.
    pub open spec fn command_message(
        self,
        command: RecordingCmd,
        delay_ms: int,
        now: int,
    ) -> MessageView {
        MessageView::RecordingCommand {
            command,
            target_timestamp: due_at(self.sync.offset, now, delay_ms * 1000) as i64,
            role: self.role,
        }
    }
}

/// Event that a command calls for.
fn to_event(command: RecordingCmd) -> (r: RecordingEvent)
    ensures
        r == event_of(command),
{
    match command {
        RecordingCmd::Start => RecordingEvent::Start,
        RecordingCmd::Stop => RecordingEvent::Stop,
    }
}

/// Keeps what a node knows of its peers and of the time, and decides what it
/// does.
pub struct Orchestrator {
    network: NetworkManager,
    time_sync: TimeSyncManager,
    peers: NameMap<PeerInfo>,
}

impl View for Orchestrator {
    type V = NodeView;

    closed spec fn view(&self) -> NodeView {
        NodeView {
            node_id: self.network.id(),
            role: self.network.own_role(),
            sync: self.time_sync@,
            peers: self.peers@,
        }
    }
}

impl Orchestrator {
    pub closed spec fn wf(&self) -> bool {
        &&& self.time_sync.wf()
        &&& self.peers.wf()
        &&& !self.peers@.contains_key(self.network.id())
    }

    /// A node never lists itself among its peers, keeps a bounded number of
    /// samples, and its clock offset is a timestamp.
    pub proof fn lemma_wf(&self)
        requires
            self.wf(),
        ensures
            !self@.peers.contains_key(self@.node_id),
            self@.sync.bounded(),
            fits(self@.sync.offset),
    {
        self.time_sync.lemma_wf();
    }

    pub fn new(network: NetworkManager, time_sync: TimeSyncManager) -> (r: Self)
        requires
            time_sync.wf(),
        ensures
            r.wf(),
            r@ == (NodeView {
                node_id: network.id(),
                role: network.own_role(),
                sync: time_sync@,
                peers: Map::empty(),
            }),
    {
        Orchestrator { network, time_sync, peers: NameMap::new() }
    }

    /// This node on the network.
    pub fn network(&self) -> (r: &NetworkManager)
        ensures
            r.id() == self@.node_id,
            r.own_role() == self@.role,
    {
        &self.network
    }

    /// Whether the reaction to a message depends on the current time.
    fn reads_clock(&self, msg: &Message) -> (r: bool)
        ensures
            r == self@.reads_clock(msg@),
    {
        match msg {
            Message::Discovery { .. } => false,
            Message::TimeSyncRequest { node_id, .. } => !self.network.is_self(node_id)
                && self.network.role() == NodeRole::Leader,
            Message::TimeSyncResponse { node_id, .. } => !self.network.is_self(node_id),
            Message::RecordingCommand { .. } => true,
            Message::Status { .. } => false,
        }
    }

    /// Whether [`handle_message_at`](Self::handle_message_at) takes a message
    /// at the local time `now`.
    pub fn can_handle(&self, msg: &Message, now: i64) -> (r: bool)
        requires
            self.wf(),
        ensures
            r == self@.step_fits(msg@, now as int),
    {
        match msg {
            Message::TimeSyncResponse { node_id, t1, t2, t3 } => self.network.is_self(node_id)
                || self.time_sync.can_process(*t1, *t2, *t3, now),
            Message::RecordingCommand { target_timestamp, .. } => {
                let local_target: i128 = *target_timestamp as i128
                    - self.time_sync.get_clock_offset() as i128;
                in_range(local_target) && in_range(local_target - now as i128)
            },
            _ => true,
        }
    }

    /// Reacts to a message that was received at the local time `now`.
    pub fn handle_message_at(&mut self, msg: Message, now: i64) -> (r: Action)
        requires
            old(self).wf(),
            old(self)@.step_fits(msg@, now as int),
        ensures
            final(self).wf(),
            (final(self)@, r@) == old(self)@.step(msg@, now as int),
    {
        match msg {
            Message::Discovery { node_id: peer_id, role, timestamp } => {
                if self.network.is_self(&peer_id) {
                    return Action::Nothing;
                }
                self.peers.insert(
                    peer_id.clone(),
                    PeerInfo { role, last_seen: timestamp, state: NodeState::Idle },
                );
                Action::ReportPeer { peer_id, role }
            },
            Message::TimeSyncRequest { node_id: peer_id, t1 } => {
                if self.network.is_self(&peer_id) {
                    return Action::Nothing;
                }
                if self.network.role() == NodeRole::Leader {
                    Action::RespondTimeSync { t1, t2: now }
                } else {
                    Action::Nothing
                }
            },
            Message::TimeSyncResponse { node_id: peer_id, t1, t2, t3 } => {
                if self.network.is_self(&peer_id) {
                    return Action::Nothing;
                }
                let measurement = self.time_sync.process_sync_response(
                    t1,
                    t2,
                    t3,
                    now,
                    peer_id.as_str(),
                );
                Action::ReportSync { peer_id, measurement }
            },
            Message::RecordingCommand { command, target_timestamp, .. } => {
                let micros_until: i64 = SyncScheduler::new(&self.time_sync).micros_until(
                    target_timestamp,
                    now,
                );
                let event = to_event(command);
                let due_in_ms: i64 = micros_until / 1000;
                if micros_until > 0 {
                    Action::RecordLater {
                        command,
                        event,
                        delay_micros: micros_until as u64,
                        due_in_ms,
                    }
                } else {
                    Action::RecordNow { command, event, due_in_ms }
                }
            },
            Message::Status { node_id: peer_id, state, timestamp } => {
                if self.network.is_self(&peer_id) {
                    return Action::Nothing;
                }
                let known: Option<PeerInfo> = match self.peers.get(&peer_id) {
                    Some(peer) => Some(*peer),
                    None => None,
                };
                if let Some(peer) = known {
                    self.peers.insert(
                        peer_id,
                        PeerInfo { role: peer.role, last_seen: timestamp, state },
                    );
                }
                Action::Nothing
            },
        }
    }

    /// Reacts to a message that was just received. Nothing changes if that is
    /// not possible.
    pub fn handle_message(&mut self, msg: Message) -> (r: Result<Action, Fault>)
        requires
            old(self).wf(),
        ensures
            final(self).wf(),
            match r {
                Ok(action) => exists|now: i64|
                    {
                        &&& #[trigger] old(self)@.step_fits(msg@, now as int)
                        &&& old(self)@.reads_clock(msg@) ==> clock_gives(Some(now))
                        &&& (final(self)@, action@) == old(self)@.step(msg@, now as int)
                    },
                Err(Fault::ClockBeforeEpoch) => final(self)@ == old(self)@ && clock_gives(None),
                Err(Fault::TimeOutOfRange) => final(self)@ == old(self)@ && exists|now: i64|
                    clock_gives(Some(now)) && !(#[trigger] old(self)@.step_fits(msg@, now as int)),
            },
            !old(self)@.reads_clock(msg@) ==> r is Ok,
    {
        if !self.reads_clock(&msg) {
            assert(self@.step_fits(msg@, 0i64 as int));
            return Ok(self.handle_message_at(msg, 0));
        }
        match current_timestamp_micros() {
            None => Err(Fault::ClockBeforeEpoch),
            Some(now) => {
                if self.can_handle(&msg, now) {
                    Ok(self.handle_message_at(msg, now))
                } else {
                    Err(Fault::TimeOutOfRange)
                }
            },
        }
    }

    /// The recording command that is sent at the local time `now`.
    pub fn recording_command_at(&self, command: RecordingCmd, delay_ms: i64, now: i64) -> (r:
        Message)
        requires
            self.wf(),
            self@.command_fits(delay_ms as int, now as int),
        ensures
            r@ == self@.command_message(command, delay_ms as int, now as int),
    {
        let target_timestamp: i64 = SyncScheduler::new(&self.time_sync).schedule_future(
            now,
            delay_ms * 1000,
        );
        self.network.send_recording_command(command, target_timestamp)
    }

    /// Whether [`recording_command_at`](Self::recording_command_at) takes a
    /// delay at the local time `now`.
    pub fn can_command(&self, delay_ms: i64, now: i64) -> (r: bool)
        ensures
            r == self@.command_fits(delay_ms as int, now as int),
    {
        let delay: i128 = delay_ms as i128 * 1000;
        let local_target: i128 = now as i128 + delay;
        in_range(delay) && in_range(local_target) && in_range(
            local_target + self.time_sync.get_clock_offset() as i128,
        )
    }

    /// The recording command to send now, for `delay_ms` from now.
    pub fn send_recording_command(&self, command: RecordingCmd, delay_ms: i64) -> (r: Result<
        Message,
        Fault,
    >)
        requires
            self.wf(),
        ensures
            match r {
                Ok(m) => exists|now: i64|
                    {
                        &&& clock_gives(Some(now))
                        &&& #[trigger] self@.command_fits(delay_ms as int, now as int)
                        &&& m@ == self@.command_message(command, delay_ms as int, now as int)
                    },
                Err(Fault::ClockBeforeEpoch) => clock_gives(None),
                Err(Fault::TimeOutOfRange) => exists|now: i64|
                    clock_gives(Some(now)) && !(#[trigger] self@.command_fits(
                        delay_ms as int,
                        now as int,
                    )),
            },
    {
        match current_timestamp_micros() {
            None => Err(Fault::ClockBeforeEpoch),
            Some(now) => {
                if self.can_command(delay_ms, now) {
                    Ok(self.recording_command_at(command, delay_ms, now))
                } else {
                    Err(Fault::TimeOutOfRange)
                }
            },
        }
    }

    /// The status report to send now; `None` while the clock stands before the
    /// epoch.
    pub fn send_status(&self, state: NodeState) -> (r: Option<Message>)
        ensures
            exists|now: Option<i64>| #[trigger]
                clock_gives(now) && match now {
                    Some(timestamp) => r matches Some(m) && m@ == (MessageView::Status {
                        node_id: self@.node_id,
                        state,
                        timestamp,
                    }),
                    None => r is None,
                },
    {
        self.network.send_status(state)
    }

    /// All known peers, each once, with role and last reported state.
    pub fn get_peers(&self) -> (r: Vec<(String, NodeRole, NodeState)>)
        requires
            self.wf(),
        ensures
            forall|i: int|
                0 <= i < r.len() ==> {
                    let (id, role, state) = #[trigger] r@[i];
                    &&& self@.peers.contains_key(id@)
                    &&& self@.peers[id@].role == role
                    &&& self@.peers[id@].state == state
                },
            forall|i: int, j: int| 0 <= i < j < r.len() ==> (#[trigger] r@[i]).0@ != (#[trigger] r@[j]).0@,
            forall|id: Seq<char>| #[trigger]
                self@.peers.contains_key(id) ==> exists|i: int|
                    0 <= i < r.len() && (#[trigger] r@[i]).0@ == id,
    {
        let mut r: Vec<(String, NodeRole, NodeState)> = Vec::new();
        let n: usize = self.peers.len();
        let mut i: usize = 0;
        while i < n
            invariant
                i <= n,
                n == self.peers.keys().len(),
                self.peers.wf(),
                r.len() == i,
                forall|j: int|
                    0 <= j < i ==> {
                        let (id, role, state) = #[trigger] r@[j];
                        &&& id@ == self.peers.keys()[j]
                        &&& self.peers@.contains_key(id@)
                        &&& self.peers@[id@].role == role
                        &&& self.peers@[id@].state == state
                    },
            decreases n - i,
        {
            let (id, info) = self.peers.at(i);
            r.push((id.clone(), info.role, info.state));
            i = i + 1;
        }
        proof {
            self.peers.lemma_keys();
            assert forall|id: Seq<char>| #[trigger] self@.peers.contains_key(id) implies exists|
                i: int,
            |
                0 <= i < r.len() && (#[trigger] r@[i]).0@ == id by {
                let k = self.peers.keys().index_of(id);
                assert(self.peers.keys()[k] == id);
                assert(r@[k].0@ == id);
            }
        }
        r
    }

    /// Whether the offset to the network time was measured.
    pub fn is_time_synchronized(&self) -> (r: bool)
        ensures
            r == self@.sync.measured,
    {
        self.time_sync.is_synchronized()
    }
}

} // verus!
