use record_syncd::network::NodeState;
use record_syncd::orchestrator::RecordingEvent;
use record_syncd::recorder::{answer_quit, QuitAnswer, Recorder, RecorderAction, RecordingState};

#[test]
fn states_and_numbers_match() {
    for state in [RecordingState::Idle, RecordingState::Recording, RecordingState::Stopping] {
        assert_eq!(RecordingState::from_u8(state.to_u8()), state);
    }
    assert_eq!(RecordingState::Idle.to_u8(), 0);
    assert_eq!(RecordingState::Recording.to_u8(), 1);
    assert_eq!(RecordingState::Stopping.to_u8(), 2);
    assert_eq!(RecordingState::from_u8(3), RecordingState::Idle);
    assert_eq!(RecordingState::from_u8(255), RecordingState::Idle);
}

#[test]
fn a_recording_is_started_and_stopped() {
    let mut r = Recorder::new();
    assert_eq!(r.state(), RecordingState::Idle);
    assert_eq!(r.on_event(RecordingEvent::Start), RecorderAction::StartPipeline);
    assert_eq!(r.state(), RecordingState::Recording);
    assert_eq!(r.pipeline_started(true), NodeState::Recording);
    assert_eq!(r.on_event(RecordingEvent::Start), RecorderAction::ReportAlreadyRecording);
    assert_eq!(r.on_event(RecordingEvent::Stop), RecorderAction::StopPipeline);
    assert_eq!(r.state(), RecordingState::Stopping);
    assert_eq!(r.pipeline_stopped(), NodeState::Idle);
    assert_eq!(r.state(), RecordingState::Idle);
    assert_eq!(r.on_event(RecordingEvent::Stop), RecorderAction::ReportNotRecording);
    assert!(!r.shut_down());
}

#[test]
fn a_failed_start_can_be_tried_again() {
    let mut r = Recorder::new();
    r.on_event(RecordingEvent::Start);
    assert_eq!(r.pipeline_started(false), NodeState::Error);
    assert_eq!(r.state(), RecordingState::Recording);
    assert_eq!(r.on_event(RecordingEvent::Stop), RecorderAction::ReportNotRecording);
    assert_eq!(r.on_event(RecordingEvent::Start), RecorderAction::StartPipeline);
    assert_eq!(r.pipeline_started(true), NodeState::Recording);
    assert!(r.shut_down());
    assert!(!r.shut_down());
}

#[test]
fn quitting_waits_for_the_recording() {
    assert_eq!(answer_quit(RecordingState::Idle), QuitAnswer::Exit);
    assert_eq!(answer_quit(RecordingState::Recording), QuitAnswer::StillRecording);
    assert_eq!(answer_quit(RecordingState::Stopping), QuitAnswer::StillFinalizing);
}
