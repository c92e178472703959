//! The recording of a node: when a pipeline is made, stopped and reported on.

use crate::network::NodeState;
use crate::orchestrator::RecordingEvent;
use vstd::prelude::*;

verus! {

#[derive(Debug, Clone, Copy, PartialEq, Eq, Structural)]
pub enum RecordingState {
    Idle,
    Recording,
    Stopping,
}

impl RecordingState {
    /// The number that stands for a state.
    pub open spec fn number(self) -> u8 {
        match self {
            RecordingState::Idle => 0,
            RecordingState::Recording => 1,
            RecordingState::Stopping => 2,
        }
    }

    /// The state that a number stands for; a number of no state stands for
    /// [`Idle`](RecordingState::Idle).
    pub open spec fn of_number(val: u8) -> RecordingState {
        match val {
            1 => RecordingState::Recording,
            2 => RecordingState::Stopping,
            _ => RecordingState::Idle,
        }
    }

    pub fn from_u8(val: u8) -> (r: Self)
        ensures
            r == Self::of_number(val),
    {
        match val {
            1 => RecordingState::Recording,
            2 => RecordingState::Stopping,
            _ => RecordingState::Idle,
        }
    }

    pub fn to_u8(self) -> (r: u8)
        ensures
            r == self.number(),
    {
        match self {
            RecordingState::Idle => 0,
            RecordingState::Recording => 1,
            RecordingState::Stopping => 2,
        }
    }
}

/// What a recorder is to do about an event.
#[derive(Debug, Clone, Copy, PartialEq, Eq, Structural)]
pub enum RecorderAction {
    /// Make a pipeline and start it, then report to
    /// [`pipeline_started`](Recorder::pipeline_started).
    StartPipeline,
    /// Tell the user that a recording is under way already.
    ReportAlreadyRecording,
    /// Stop the pipeline, then report to
    /// [`pipeline_stopped`](Recorder::pipeline_stopped).
    StopPipeline,
    /// Tell the user that there is no recording to stop.
    ReportNotRecording,
}

/// Answer to a user who wants to quit.
#[derive(Debug, Clone, Copy, PartialEq, Eq, Structural)]
pub enum QuitAnswer {
    /// The node shuts down.
    Exit,
    /// A recording has to be stopped first.
    StillRecording,
    /// A video file is still being written.
    StillFinalizing,
}

/// A user may quit only while nothing is being recorded or written.
pub fn answer_quit(state: RecordingState) -> (r: QuitAnswer)
    ensures
        r == (match state {
            RecordingState::Idle => QuitAnswer::Exit,
            RecordingState::Recording => QuitAnswer::StillRecording,
            RecordingState::Stopping => QuitAnswer::StillFinalizing,
        }),
{
    match state {
        RecordingState::Stopping => QuitAnswer::StillFinalizing,
        RecordingState::Recording => QuitAnswer::StillRecording,
        RecordingState::Idle => QuitAnswer::Exit,
    }
}

/// What a [`Recorder`] knows.
pub struct RecorderView {
    /// Whether there is a running pipeline.
    pub running: bool,
    /// The state that a user who wants to quit is answered by.
    pub state: RecordingState,
}

impl RecorderView {
    pub open spec fn initial() -> RecorderView {
        RecorderView { running: false, state: RecordingState::Idle }
    }

    /// While a pipeline runs the state is that of a recording.
    pub open spec fn valid(self) -> bool {
        self.running ==> self.state == RecordingState::Recording
    }

    /// The reaction to an event.
    pub open spec fn on_event(self, event: RecordingEvent) -> (RecorderView, RecorderAction) {
        match event {
            RecordingEvent::Start => if self.running {
                (self, RecorderAction::ReportAlreadyRecording)
            } else {
                (
                    RecorderView { running: false, state: RecordingState::Recording },
                    RecorderAction::StartPipeline,
                )
            },
            RecordingEvent::Stop => if self.running {
                (
                    RecorderView { running: false, state: RecordingState::Stopping },
                    RecorderAction::StopPipeline,
                )
            } else {
                (self, RecorderAction::ReportNotRecording)
            },
        }
    }

    /// The state once a pipeline that was to be started runs, or does not.
    /// Either way the node counts as recording.
    pub open spec fn started(success: bool) -> RecorderView {
        RecorderView { running: success, state: RecordingState::Recording }
    }

    /// Whether a pipeline is being started.
    pub open spec fn starting(self) -> bool {
        !self.running && self.state == RecordingState::Recording
    }

    /// Whether a pipeline is being stopped.
    pub open spec fn stopping(self) -> bool {
        self.state == RecordingState::Stopping
    }
}

/// Decides what the recording events of a node lead to.
#[derive(Debug)]
pub struct Recorder {
    running: bool,
    state: RecordingState,
}

impl View for Recorder {
    type V = RecorderView;

    closed spec fn view(&self) -> RecorderView {
        RecorderView { running: self.running, state: self.state }
    }
}

impl Recorder {
    pub fn new() -> (r: Self)
        ensures
            r@ == RecorderView::initial(),
    {
        Recorder { running: false, state: RecordingState::Idle }
    }

    pub fn state(&self) -> (r: RecordingState)
        ensures
            r == self@.state,
    {
        self.state
    }

    /// Takes in an event.
    pub fn on_event(&mut self, event: RecordingEvent) -> (r: RecorderAction)
        requires
            old(self)@.valid(),
        ensures
            final(self)@.valid(),
            (final(self)@, r) == old(self)@.on_event(event),
    {
        match event {
            RecordingEvent::Start => {
                if self.running {
                    RecorderAction::ReportAlreadyRecording
                } else {
                    self.state = RecordingState::Recording;
                    RecorderAction::StartPipeline
                }
            },
            RecordingEvent::Stop => {
                if self.running {
                    self.running = false;
                    self.state = RecordingState::Stopping;
                    RecorderAction::StopPipeline
                } else {
                    RecorderAction::ReportNotRecording
                }
            },
        }
    }

    /// Takes in whether a pipeline could be made and started. Returns the
    /// status to broadcast.
    pub fn pipeline_started(&mut self, success: bool) -> (r: NodeState)
        requires
            old(self)@.starting(),
        ensures
            final(self)@ == RecorderView::started(success),
            final(self)@.valid(),
            r == if success {
                NodeState::Recording
            } else {
                NodeState::Error
            },
            r == NodeState::Recording <==> final(self)@.running,
    {
        if success {
            self.running = true;
            NodeState::Recording
        } else {
            NodeState::Error
        }
    }

    /// Takes in that the pipeline was stopped, cleanly or not. Returns the
    /// status to broadcast.
    pub fn pipeline_stopped(&mut self) -> (r: NodeState)
        requires
            old(self)@.valid(),
            old(self)@.stopping(),
        ensures
            final(self)@ == RecorderView::initial(),
            r == NodeState::Idle,
    {
        self.state = RecordingState::Idle;
        NodeState::Idle
    }

    /// Ends the recorder. Returns whether there is a pipeline left to stop.
    pub fn shut_down(&mut self) -> (r: bool)
        ensures
            r == old(self)@.running,
            !final(self)@.running,
            final(self)@.state == old(self)@.state,
    {
        let left: bool = self.running;
        self.running = false;
        left
    }
}

} // verus!
