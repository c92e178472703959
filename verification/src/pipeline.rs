//! The life of a recording pipeline: whether it started, how it is brought to
//! an end so that the video file is complete, and what its bus tells.

use vstd::prelude::*;

verus! {

/// States of a media pipeline.
#[derive(Debug, Clone, Copy, PartialEq, Eq, Structural)]
pub enum PipelineState {
    VoidPending,
    Null,
    Ready,
    Paused,
    Playing,
}

/// Why a pipeline does not count as started.
#[derive(Debug, Clone, Copy, PartialEq, Eq, Structural)]
pub enum StartError {
    /// It reached another state.
    NotPlaying { current: PipelineState },
    /// Its state could not be found out.
    QueryFailed,
}

/// How long a started pipeline may take to reach its state, in seconds.
pub const START_TIMEOUT_SECS: u64 = 5;

/// Judges a start by the state that was reached; `None` if the query failed.
pub fn check_started(reached: Option<PipelineState>) -> (r: Result<(), StartError>)
    ensures
        r == (match reached {
            Some(PipelineState::Playing) => Ok::<(), StartError>(()),
            Some(current) => Err(StartError::NotPlaying { current }),
            None => Err(StartError::QueryFailed),
        }),
{
    match reached {
        Some(current) => {
            if current != PipelineState::Playing {
                Err(StartError::NotPlaying { current })
            } else {
                Ok(())
            }
        },
        None => Err(StartError::QueryFailed),
    }
}

/// A message on the bus of a pipeline.
#[derive(Debug, Clone, Copy, PartialEq, Eq, Structural)]
pub enum BusMessage {
    /// All data has passed through.
    Eos,
    Error,
    Warning,
    /// An element changed its state; `of_pipeline` if that is the pipeline.
    StateChanged { of_pipeline: bool },
    Other,
}

/// What to do about a message while recording.
#[derive(Debug, Clone, Copy, PartialEq, Eq, Structural)]
pub enum WatchAction {
    /// Report the error, shut the node down and watch no further.
    ReportErrorAndQuit,
    ReportWarning,
    ReportStateChange,
    Nothing,
}

/// How long the bus is polled at a time while recording, in milliseconds.
pub const WATCH_POLL_MS: u64 = 100;

/// Reacts to what a poll of the bus gave while recording.
pub fn watch_bus(message: Option<BusMessage>) -> (r: WatchAction)
    ensures
        r == (match message {
            Some(BusMessage::Error) => WatchAction::ReportErrorAndQuit,
            Some(BusMessage::Warning) => WatchAction::ReportWarning,
            Some(BusMessage::StateChanged { of_pipeline: true }) => WatchAction::ReportStateChange,
            _ => WatchAction::Nothing,
        }),
{
    match message {
        Some(BusMessage::Error) => WatchAction::ReportErrorAndQuit,
        Some(BusMessage::Warning) => WatchAction::ReportWarning,
        Some(BusMessage::StateChanged { of_pipeline }) => {
            if of_pipeline {
                WatchAction::ReportStateChange
            } else {
                WatchAction::Nothing
            }
        },
        _ => WatchAction::Nothing,
    }
}

/// How long the end of the stream is waited for, in milliseconds.
pub const EOS_TIMEOUT_MS: u128 = 60_000;

/// How long the bus is polled at a time while waiting, in milliseconds.
pub const EOS_POLL_MS: u64 = 200;

/// How long a paused pipeline is left to settle, in milliseconds.
pub const PAUSED_REST_MS: u64 = 100;

/// How long a released pipeline is left to settle, in milliseconds.
pub const RELEASED_REST_MS: u64 = 500;

/// Why a pipeline could not be stopped.
#[derive(Debug, Clone, Copy, PartialEq, Eq, Structural)]
pub enum StopError {
    NoBus,
    PauseRefused,
    ReleaseRefused,
}

/// How far the end of a recording has come. `finalized` tells whether the end
/// of the stream was seen, so that the file is complete.
#[derive(Debug, Clone, Copy, PartialEq, Eq, Structural)]
pub enum StopPhase {
    /// The end of the stream is to be sent.
    SendEos,
    /// The bus is to be looked up.
    FetchBus,
    /// The time spent waiting is to be checked.
    CheckTime,
    /// The bus is to be polled.
    Poll,
    /// The pipeline is to be paused.
    Pause { finalized: bool },
    /// The paused pipeline is to be left alone for a moment.
    RestPaused { finalized: bool },
    /// The pipeline is to be released.
    Release { finalized: bool },
    /// The released pipeline is to be left alone for a moment.
    RestReleased { finalized: bool },
    /// The recording has ended.
    Done { finalized: bool },
    /// The recording could not be ended.
    Failed { error: StopError },
}

/// The next thing to do to end a recording.
#[derive(Debug, Clone, Copy, PartialEq, Eq, Structural)]
pub enum StopAction {
    SendEos,
    FetchBus,
    ReadElapsedTime,
    PollBus { millis: u64 },
    /// Set the pipeline to `Paused`. If the stream was not `finalized`, warn
    /// that the file may be incomplete.
    Pause { finalized: bool },
    /// Set the pipeline to `Null`.
    Release,
    Sleep { millis: u64 },
    Finish { finalized: bool },
    Fail { error: StopError },
}

/// What came of a [`StopAction`].
#[derive(Debug, Clone, Copy, PartialEq, Eq, Structural)]
pub enum StopEvent {
    /// It is done; it has no result.
    Done,
    /// Whether there is a bus.
    Bus { found: bool },
    /// Milliseconds since the bus was found.
    Elapsed { millis: u128 },
    /// What the poll gave.
    Polled { message: Option<BusMessage> },
    /// Whether the state was set.
    StateSet { accepted: bool },
}

impl StopPhase {
    /// The action that a phase waits for.
    pub open spec fn pending(self) -> StopAction {
        match self {
            StopPhase::SendEos => StopAction::SendEos,
            StopPhase::FetchBus => StopAction::FetchBus,
            StopPhase::CheckTime => StopAction::ReadElapsedTime,
            StopPhase::Poll => StopAction::PollBus { millis: EOS_POLL_MS },
            StopPhase::Pause { finalized } => StopAction::Pause { finalized },
            StopPhase::RestPaused { .. } => StopAction::Sleep { millis: PAUSED_REST_MS },
            StopPhase::Release { .. } => StopAction::Release,
            StopPhase::RestReleased { .. } => StopAction::Sleep { millis: RELEASED_REST_MS },
            StopPhase::Done { finalized } => StopAction::Finish { finalized },
            StopPhase::Failed { error } => StopAction::Fail { error },
        }
    }

    /// Whether an event can come of the action that a phase waits for.
    pub open spec fn expects(self, event: StopEvent) -> bool {
        match self.pending() {
            StopAction::SendEos => event is Done,
            StopAction::FetchBus => event is Bus,
            StopAction::ReadElapsedTime => event is Elapsed,
            StopAction::PollBus { .. } => event is Polled,
            StopAction::Pause { .. } => event is StateSet,
            StopAction::Release => event is StateSet,
            StopAction::Sleep { .. } => event is Done,
            StopAction::Finish { .. } => false,
            StopAction::Fail { .. } => false,
        }
    }

    /// The phase after an event.
    pub open spec fn after(self, event: StopEvent) -> StopPhase {
        match (self, event) {
            (StopPhase::SendEos, _) => StopPhase::FetchBus,
            (StopPhase::FetchBus, StopEvent::Bus { found: true }) => StopPhase::CheckTime,
            (StopPhase::FetchBus, _) => StopPhase::Failed { error: StopError::NoBus },
            (StopPhase::CheckTime, StopEvent::Elapsed { millis }) => if millis < EOS_TIMEOUT_MS {
                StopPhase::Poll
            } else {
                StopPhase::Pause { finalized: false }
            },
            (StopPhase::Poll, StopEvent::Polled { message: Some(BusMessage::Eos) }) => {
                StopPhase::Pause { finalized: true }
            },
            (StopPhase::Poll, StopEvent::Polled { message: Some(BusMessage::Error) }) => {
                StopPhase::Pause { finalized: false }
            },
            (StopPhase::Poll, _) => StopPhase::CheckTime,
            (StopPhase::Pause { finalized }, StopEvent::StateSet { accepted: true }) => {
                StopPhase::RestPaused { finalized }
            },
            (StopPhase::Pause { .. }, _) => StopPhase::Failed { error: StopError::PauseRefused },
            (StopPhase::RestPaused { finalized }, _) => StopPhase::Release { finalized },
            (StopPhase::Release { finalized }, StopEvent::StateSet { accepted: true }) => {
                StopPhase::RestReleased { finalized }
            },
            (StopPhase::Release { .. }, _) => StopPhase::Failed {
                error: StopError::ReleaseRefused,
            },
            (StopPhase::RestReleased { finalized }, _) => StopPhase::Done { finalized },
            _ => self,
        }
    }
}

/// Walks through the end of a recording: the end of the stream is sent and
/// waited for, then the pipeline is paused and released.
#[derive(Debug)]
pub struct StopSequence {
    phase: StopPhase,
}

impl View for StopSequence {
    type V = StopPhase;

    closed spec fn view(&self) -> StopPhase {
        self.phase
    }
}

impl StopSequence {
    pub fn new() -> (r: Self)
        ensures
            r@ == StopPhase::SendEos,
    {
        StopSequence { phase: StopPhase::SendEos }
    }

    /// The next thing to do.
    pub fn action(&self) -> (r: StopAction)
        ensures
            r == self@.pending(),
    {
        match self.phase {
            StopPhase::SendEos => StopAction::SendEos,
            StopPhase::FetchBus => StopAction::FetchBus,
            StopPhase::CheckTime => StopAction::ReadElapsedTime,
            StopPhase::Poll => StopAction::PollBus { millis: EOS_POLL_MS },
            StopPhase::Pause { finalized } => StopAction::Pause { finalized },
            StopPhase::RestPaused { .. } => StopAction::Sleep { millis: PAUSED_REST_MS },
            StopPhase::Release { .. } => StopAction::Release,
            StopPhase::RestReleased { .. } => StopAction::Sleep { millis: RELEASED_REST_MS },
            StopPhase::Done { finalized } => StopAction::Finish { finalized },
            StopPhase::Failed { error } => StopAction::Fail { error },
        }
    }

    /// Takes in what came of the action.
    pub fn report(&mut self, event: StopEvent)
        requires
            old(self)@.expects(event),
        ensures
            final(self)@ == old(self)@.after(event),
    {
        self.phase = match (self.phase, event) {
            (StopPhase::SendEos, _) => StopPhase::FetchBus,
            (StopPhase::FetchBus, StopEvent::Bus { found }) => {
                if found {
                    StopPhase::CheckTime
                } else {
                    StopPhase::Failed { error: StopError::NoBus }
                }
            },
            (StopPhase::CheckTime, StopEvent::Elapsed { millis }) => {
                if millis < EOS_TIMEOUT_MS {
                    StopPhase::Poll
                } else {
                    StopPhase::Pause { finalized: false }
                }
            },
            (StopPhase::Poll, StopEvent::Polled { message }) => match message {
                Some(BusMessage::Eos) => StopPhase::Pause { finalized: true },
                Some(BusMessage::Error) => StopPhase::Pause { finalized: false },
                _ => StopPhase::CheckTime,
            },
            (StopPhase::Pause { finalized }, StopEvent::StateSet { accepted }) => {
                if accepted {
                    StopPhase::RestPaused { finalized }
                } else {
                    StopPhase::Failed { error: StopError::PauseRefused }
                }
            },
            (StopPhase::RestPaused { finalized }, _) => StopPhase::Release { finalized },
            (StopPhase::Release { finalized }, StopEvent::StateSet { accepted }) => {
                if accepted {
                    StopPhase::RestReleased { finalized }
                } else {
                    StopPhase::Failed { error: StopError::ReleaseRefused }
                }
            },
            (StopPhase::RestReleased { finalized }, _) => StopPhase::Done { finalized },
            (phase, _) => phase,
        };
    }
}

} // verus!
