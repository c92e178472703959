use record_syncd::pipeline::{
    check_started, watch_bus, BusMessage, PipelineState, StartError, StopAction, StopError,
    StopEvent, StopSequence, WatchAction,
};

fn waiting() -> StopSequence {
    let mut s = StopSequence::new();
    assert_eq!(s.action(), StopAction::SendEos);
    s.report(StopEvent::Done);
    assert_eq!(s.action(), StopAction::FetchBus);
    s.report(StopEvent::Bus { found: true });
    assert_eq!(s.action(), StopAction::ReadElapsedTime);
    s
}

#[test]
fn a_start_counts_if_the_pipeline_plays() {
    assert_eq!(check_started(Some(PipelineState::Playing)), Ok(()));
    assert_eq!(
        check_started(Some(PipelineState::Paused)),
        Err(StartError::NotPlaying { current: PipelineState::Paused })
    );
    assert_eq!(check_started(None), Err(StartError::QueryFailed));
}

#[test]
fn an_error_on_the_bus_ends_the_node() {
    assert_eq!(watch_bus(Some(BusMessage::Error)), WatchAction::ReportErrorAndQuit);
    assert_eq!(watch_bus(Some(BusMessage::Warning)), WatchAction::ReportWarning);
    assert_eq!(
        watch_bus(Some(BusMessage::StateChanged { of_pipeline: true })),
        WatchAction::ReportStateChange
    );
    assert_eq!(
        watch_bus(Some(BusMessage::StateChanged { of_pipeline: false })),
        WatchAction::Nothing
    );
    assert_eq!(watch_bus(Some(BusMessage::Eos)), WatchAction::Nothing);
    assert_eq!(watch_bus(Some(BusMessage::Other)), WatchAction::Nothing);
    assert_eq!(watch_bus(None), WatchAction::Nothing);
}

#[test]
fn a_recording_ends_after_the_stream() {
    let mut s = waiting();
    s.report(StopEvent::Elapsed { millis: 0 });
    assert_eq!(s.action(), StopAction::PollBus { millis: 200 });
    s.report(StopEvent::Polled { message: None });
    s.report(StopEvent::Elapsed { millis: 59_999 });
    s.report(StopEvent::Polled { message: Some(BusMessage::Warning) });
    s.report(StopEvent::Elapsed { millis: 59_999 });
    s.report(StopEvent::Polled { message: Some(BusMessage::Eos) });
    assert_eq!(s.action(), StopAction::Pause { finalized: true });
    s.report(StopEvent::StateSet { accepted: true });
    assert_eq!(s.action(), StopAction::Sleep { millis: 100 });
    s.report(StopEvent::Done);
    assert_eq!(s.action(), StopAction::Release);
    s.report(StopEvent::StateSet { accepted: true });
    assert_eq!(s.action(), StopAction::Sleep { millis: 500 });
    s.report(StopEvent::Done);
    assert_eq!(s.action(), StopAction::Finish { finalized: true });
}

#[test]
fn waiting_for_the_stream_is_limited() {
    let mut s = waiting();
    s.report(StopEvent::Elapsed { millis: 60_000 });
    assert_eq!(s.action(), StopAction::Pause { finalized: false });
}

#[test]
fn an_error_ends_the_waiting() {
    let mut s = waiting();
    s.report(StopEvent::Elapsed { millis: 1 });
    s.report(StopEvent::Polled { message: Some(BusMessage::Error) });
    assert_eq!(s.action(), StopAction::Pause { finalized: false });
}

#[test]
fn each_failure_has_its_error() {
    let mut s = StopSequence::new();
    s.report(StopEvent::Done);
    s.report(StopEvent::Bus { found: false });
    assert_eq!(s.action(), StopAction::Fail { error: StopError::NoBus });

    let mut s = waiting();
    s.report(StopEvent::Elapsed { millis: 60_001 });
    s.report(StopEvent::StateSet { accepted: false });
    assert_eq!(s.action(), StopAction::Fail { error: StopError::PauseRefused });

    let mut s = waiting();
    s.report(StopEvent::Elapsed { millis: 60_001 });
    s.report(StopEvent::StateSet { accepted: true });
    s.report(StopEvent::Done);
    s.report(StopEvent::StateSet { accepted: false });
    assert_eq!(s.action(), StopAction::Fail { error: StopError::ReleaseRefused });
}
