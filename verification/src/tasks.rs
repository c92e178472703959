//! The messages that a node repeats on its own, and the pace at which it
//! receives.

use crate::network::NodeRole;
use vstd::prelude::*;

verus! {

/// Time between two discovery beacons, in milliseconds.
pub const DISCOVERY_PERIOD_MS: u64 = 2_000;

/// Time that discovery is given before the first time sync request.
pub const TIME_SYNC_HEAD_START_MS: u64 = 1_000;

/// Time between two time sync requests, in milliseconds.
pub const TIME_SYNC_PERIOD_MS: u64 = 5_000;

/// Pause after a message could not be received, in milliseconds.
pub const RECEIVE_RETRY_MS: u64 = 10;

/// How long to pause before receiving again: not at all after a message was
/// received, and for a moment after a failure.
pub fn after_receive(received: bool) -> (r: Option<u64>)
    ensures
        r == if received {
            None
        } else {
            Some(RECEIVE_RETRY_MS)
        },
{
    if received {
        None
    } else {
        Some(RECEIVE_RETRY_MS)
    }
}

/// A message that is sent over and over.
#[derive(Debug, Clone, Copy, PartialEq, Eq, Structural)]
pub enum Beacon {
    Discovery,
    TimeSyncRequest,
}

impl Beacon {
    /// Time between two messages, in milliseconds.
    pub open spec fn period(self) -> u64 {
        match self {
            Beacon::Discovery => DISCOVERY_PERIOD_MS,
            Beacon::TimeSyncRequest => TIME_SYNC_PERIOD_MS,
        }
    }
}

/// The next thing that a task does.
#[derive(Debug, Clone, Copy, PartialEq, Eq, Structural)]
pub enum TaskAction {
    Send { beacon: Beacon },
    Sleep { millis: u64 },
    Finish,
}

/// Where a task stands.
#[derive(Debug, Clone, Copy, PartialEq, Eq, Structural)]
pub enum TaskPhase {
    /// It is to wait before its first message.
    HeadStart,
    /// It is to send if the node still runs.
    Ready,
    /// It has sent and is to wait.
    Sent,
    /// It has ended.
    Over,
}

/// What a [`BeaconTask`] knows.
pub struct TaskView {
    pub beacon: Beacon,
    pub phase: TaskPhase,
}

impl TaskView {
    /// Every node announces itself.
    pub open spec fn discovery() -> TaskView {
        TaskView { beacon: Beacon::Discovery, phase: TaskPhase::Ready }
    }

    /// Only followers ask for the time.
    pub open spec fn time_sync(role: NodeRole) -> TaskView {
        TaskView {
            beacon: Beacon::TimeSyncRequest,
            phase: if role == NodeRole::Follower {
                TaskPhase::HeadStart
            } else {
                TaskPhase::Over
            },
        }
    }

    /// The next step of a task; `running` tells whether the node still runs.
    pub open spec fn step(self, running: bool) -> (TaskView, TaskAction) {
        match self.phase {
            TaskPhase::HeadStart => (
                TaskView { phase: TaskPhase::Ready, ..self },
                TaskAction::Sleep { millis: TIME_SYNC_HEAD_START_MS },
            ),
            TaskPhase::Ready => if running {
                (
                    TaskView { phase: TaskPhase::Sent, ..self },
                    TaskAction::Send { beacon: self.beacon },
                )
            } else {
                (TaskView { phase: TaskPhase::Over, ..self }, TaskAction::Finish)
            },
            TaskPhase::Sent => (
                TaskView { phase: TaskPhase::Ready, ..self },
                TaskAction::Sleep { millis: self.beacon.period() },
            ),
            TaskPhase::Over => (self, TaskAction::Finish),
        }
    }
}

/// Repeats a message until the node stops running.
#[derive(Debug)]
pub struct BeaconTask {
    beacon: Beacon,
    phase: TaskPhase,
}

impl View for BeaconTask {
    type V = TaskView;

    closed spec fn view(&self) -> TaskView {
        TaskView { beacon: self.beacon, phase: self.phase }
    }
}

impl BeaconTask {
    pub fn discovery() -> (r: Self)
        ensures
            r@ == TaskView::discovery(),
    {
        BeaconTask { beacon: Beacon::Discovery, phase: TaskPhase::Ready }
    }

    pub fn time_sync(role: NodeRole) -> (r: Self)
        ensures
            r@ == TaskView::time_sync(role),
    {
        BeaconTask {
            beacon: Beacon::TimeSyncRequest,
            phase: if role == NodeRole::Follower {
                TaskPhase::HeadStart
            } else {
                TaskPhase::Over
            },
        }
    }

    /// Takes the next step.
    pub fn next(&mut self, running: bool) -> (r: TaskAction)
        ensures
            (final(self)@, r) == old(self)@.step(running),
    {
        match self.phase {
            TaskPhase::HeadStart => {
                self.phase = TaskPhase::Ready;
                TaskAction::Sleep { millis: TIME_SYNC_HEAD_START_MS }
            },
            TaskPhase::Ready => {
                if running {
                    self.phase = TaskPhase::Sent;
                    TaskAction::Send { beacon: self.beacon }
                } else {
                    self.phase = TaskPhase::Over;
                    TaskAction::Finish
                }
            },
            TaskPhase::Sent => {
                self.phase = TaskPhase::Ready;
                TaskAction::Sleep {
                    millis: match self.beacon {
                        Beacon::Discovery => DISCOVERY_PERIOD_MS,
                        Beacon::TimeSyncRequest => TIME_SYNC_PERIOD_MS,
                    },
                }
            },
            TaskPhase::Over => TaskAction::Finish,
        }
    }
}

} // verus!
