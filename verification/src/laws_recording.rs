//! What a recording comes to, and the pace of what a node repeats.

use crate::laws::{after_stop_events, expected};
use crate::network::{NodeRole, NodeState};
use crate::orchestrator::RecordingEvent;
use crate::pipeline::{
    check_started, watch_bus, BusMessage, PipelineState, StartError, StopAction, StopError,
    StopEvent, StopPhase, StopSequence, WatchAction, START_TIMEOUT_SECS, WATCH_POLL_MS,
};
use crate::recorder::{
    answer_quit, QuitAnswer, Recorder, RecorderAction, RecorderView, RecordingState,
};
use crate::tasks::{after_receive, Beacon, BeaconTask, TaskAction, TaskPhase, TaskView};
use vstd::prelude::*;

verus! {

// ---- Starting and watching ----

/// A start succeeds exactly if the pipeline plays; otherwise the error tells
/// the state that was reached, if one was.
pub proof fn law_started_means_playing(
    reached: Option<PipelineState>,
    r: Result<(), StartError>,
)
    requires
        call_ensures(check_started, (reached,), r),
    ensures
        r is Ok <==> reached == Some(PipelineState::Playing),
        r is Err && r->Err_0 == StartError::QueryFailed <==> reached is None,
        forall|state: PipelineState|
            state != PipelineState::Playing ==> (reached == Some(state) <==> r == Err::<
                (),
                StartError,
            >(#[trigger] not_playing(state))),
        START_TIMEOUT_SECS == 5,
{
}

/// The error for a pipeline that reached `current`.
pub open spec fn not_playing(current: PipelineState) -> StartError {
    StartError::NotPlaying { current }
}

/// An error on the bus, and nothing else, ends the watch. Warnings are
/// reported, state changes only those of the pipeline itself, and everything
/// else is passed over.
pub proof fn law_only_errors_end_the_watch(message: Option<BusMessage>, r: WatchAction)
    requires
        call_ensures(watch_bus, (message,), r),
    ensures
        r == WatchAction::ReportErrorAndQuit <==> message == Some(BusMessage::Error),
        r == WatchAction::ReportWarning <==> message == Some(BusMessage::Warning),
        r == WatchAction::ReportStateChange <==> message == Some(
            BusMessage::StateChanged { of_pipeline: true },
        ),
        r == WatchAction::Nothing <==> {
            ||| message is None
            ||| message == Some(BusMessage::Eos)
            ||| message == Some(BusMessage::Other)
            ||| message == Some(BusMessage::StateChanged { of_pipeline: false })
        },
        WATCH_POLL_MS == 100,
{
}

// ---- Ending a recording ----

/// The end begins by sending the end of the stream.
pub proof fn law_end_begins_with_end_of_stream(sequence: StopSequence)
    requires
        call_ensures(StopSequence::new, (), sequence),
    ensures
        sequence@.pending() == StopAction::SendEos,
        sequence@.expects(StopEvent::Done),
{
}

/// The wait for the end of the stream has three ways out: the bus tells the
/// end, the bus tells an error, or a minute has passed. Any other result of a
/// poll leads back to the clock, and the clock back to the bus.
pub proof fn law_wait_ends_for_a_reason(phase: StopPhase, event: StopEvent)
    requires
        phase == StopPhase::CheckTime || phase == StopPhase::Poll,
        phase.expects(event),
    ensures
        phase.after(event) == (StopPhase::Pause { finalized: true }) <==> event == (
        StopEvent::Polled { message: Some(BusMessage::Eos) }),
        phase.after(event) == (StopPhase::Pause { finalized: false }) <==> {
            ||| event == (StopEvent::Polled { message: Some(BusMessage::Error) })
            ||| event matches StopEvent::Elapsed { millis } && millis >= 60_000
        },
        phase.after(event) == StopPhase::Poll <==> (event matches StopEvent::Elapsed { millis }
            && millis < 60_000),
        phase.after(event) == StopPhase::CheckTime <==> (event matches StopEvent::Polled { message }
            && message != Some(BusMessage::Eos) && message != Some(BusMessage::Error)),
{
}

/// A sequence that is waiting leaves the wait exactly on the end of the stream,
/// on an error or after a minute, and counts as finalized only for the first.
pub proof fn law_sequence_waits(sequence: &mut StopSequence, event: StopEvent)
    requires
        old(sequence)@ == StopPhase::CheckTime || old(sequence)@ == StopPhase::Poll,
        old(sequence)@.expects(event),
        call_ensures(StopSequence::report, (sequence, event), ()),
    ensures
        match event {
            StopEvent::Elapsed { millis } => final(sequence)@ == if millis < 60_000 {
                StopPhase::Poll
            } else {
                StopPhase::Pause { finalized: false }
            },
            StopEvent::Polled { message: Some(BusMessage::Eos) } => final(sequence)@ == (
            StopPhase::Pause { finalized: true }),
            StopEvent::Polled { message: Some(BusMessage::Error) } => final(sequence)@ == (
            StopPhase::Pause { finalized: false }),
            _ => final(sequence)@ == StopPhase::CheckTime,
        },
{
}

/// However often the bus is polled, the wait goes on as long as the polls give
/// neither the end of the stream nor an error, and less than a minute has passed
/// each time the clock was read.
pub proof fn law_wait_is_patient(waits: Seq<(u128, Option<BusMessage>)>)
    requires
        forall|i: int|
            0 <= i < waits.len() ==> (#[trigger] waits[i]).0 < 60_000 && waits[i].1 != Some(
                BusMessage::Eos,
            ) && waits[i].1 != Some(BusMessage::Error),
    ensures
        after_stop_events(StopPhase::CheckTime, polls(waits)) == StopPhase::CheckTime,
        expected(StopPhase::CheckTime, polls(waits)),
    decreases waits.len(),
{
    if waits.len() != 0 {
        let init = waits.drop_last();
        assert forall|i: int| 0 <= i < init.len() implies (#[trigger] init[i]).0 < 60_000
            && init[i].1 != Some(BusMessage::Eos) && init[i].1 != Some(BusMessage::Error) by {
            assert(init[i] == waits[i]);
        }
        law_wait_is_patient(init);
        assert(waits.last() == waits[waits.len() - 1]);
        let (millis, message) = waits.last();
        let read = polls(init).push(StopEvent::Elapsed { millis });
        let polled = read.push(StopEvent::Polled { message });
        assert(polls(waits) == polled);
        assert(read.drop_last() =~= polls(init));
        assert(polled.drop_last() =~= read);
        assert(read.last() == (StopEvent::Elapsed { millis }));
        assert(polled.last() == (StopEvent::Polled { message }));
        assert(after_stop_events(StopPhase::CheckTime, read) == StopPhase::Poll);
        assert(expected(StopPhase::CheckTime, read));
    }
}

/// A recording is finalized however long it takes within the minute: if the end
/// of the stream comes after any number of other poll results, and the pipeline
/// lets itself be paused and released, the end is reported as finalized.
pub proof fn law_late_end_of_stream_counts(
    waits: Seq<(u128, Option<BusMessage>)>,
    millis: u128,
)
    requires
        forall|i: int|
            0 <= i < waits.len() ==> (#[trigger] waits[i]).0 < 60_000 && waits[i].1 != Some(
                BusMessage::Eos,
            ) && waits[i].1 != Some(BusMessage::Error),
        millis < 60_000,
    ensures
        after_stop_events(
            StopPhase::SendEos,
            seq![StopEvent::Done, StopEvent::Bus { found: true }] + polls(waits).push(
                StopEvent::Elapsed { millis },
            ).push(StopEvent::Polled { message: Some(BusMessage::Eos) }).push(
                StopEvent::StateSet { accepted: true },
            ).push(StopEvent::Done).push(StopEvent::StateSet { accepted: true }).push(
                StopEvent::Done,
            ),
        ) == (StopPhase::Done { finalized: true }),
{
    let first = StopPhase::SendEos;
    let begin = seq![StopEvent::Done, StopEvent::Bus { found: true }];
    let wait = polls(waits);
    let e0 = wait.push(StopEvent::Elapsed { millis });
    let e1 = e0.push(StopEvent::Polled { message: Some(BusMessage::Eos) });
    let e2 = e1.push(StopEvent::StateSet { accepted: true });
    let e3 = e2.push(StopEvent::Done);
    let e4 = e3.push(StopEvent::StateSet { accepted: true });
    let e5 = e4.push(StopEvent::Done);
    assert(begin.drop_last() =~= seq![StopEvent::Done]);
    assert(begin.drop_last().drop_last() =~= seq![]);
    assert(after_stop_events(first, begin.drop_last().drop_last()) == first);
    assert(after_stop_events(first, begin.drop_last()) == StopPhase::FetchBus);
    assert(after_stop_events(first, begin) == StopPhase::CheckTime);
    law_wait_is_patient(waits);
    lemma_stop_events_in_turn(first, begin, e5);
    let start = StopPhase::CheckTime;
    assert(e0.drop_last() =~= wait);
    assert(after_stop_events(start, e0) == StopPhase::Poll);
    assert(e1.drop_last() =~= e0);
    assert(after_stop_events(start, e1) == (StopPhase::Pause { finalized: true }));
    assert(e2.drop_last() =~= e1);
    assert(after_stop_events(start, e2) == (StopPhase::RestPaused { finalized: true }));
    assert(e3.drop_last() =~= e2);
    assert(after_stop_events(start, e3) == (StopPhase::Release { finalized: true }));
    assert(e4.drop_last() =~= e3);
    assert(after_stop_events(start, e4) == (StopPhase::RestReleased { finalized: true }));
    assert(e5.drop_last() =~= e4);
}

/// Two series of events one after the other.
proof fn lemma_stop_events_in_turn(phase: StopPhase, a: Seq<StopEvent>, b: Seq<StopEvent>)
    ensures
        after_stop_events(phase, a + b) == after_stop_events(after_stop_events(phase, a), b),
    decreases b.len(),
{
    if b.len() == 0 {
        assert(a + b =~= a);
    } else {
        lemma_stop_events_in_turn(phase, a, b.drop_last());
        assert((a + b).drop_last() =~= a + b.drop_last());
    }
}

/// The events of a wait: time read and bus polled, in turn.
pub open spec fn polls(waits: Seq<(u128, Option<BusMessage>)>) -> Seq<StopEvent>
    decreases waits.len(),
{
    if waits.len() == 0 {
        seq![]
    } else {
        let (millis, message) = waits.last();
        polls(waits.drop_last()).push(StopEvent::Elapsed { millis }).push(
            StopEvent::Polled { message },
        )
    }
}

/// Around the wait the order is fixed. The end of the stream is sent, the bus
/// looked up and the clock read; after the wait the pipeline is paused, left
/// alone, released and left alone, and whether the stream was finalized is
/// carried through to the end.
pub proof fn law_end_takes_its_course(finalized: bool)
    ensures
        StopPhase::SendEos.after(StopEvent::Done) == StopPhase::FetchBus,
        StopPhase::FetchBus.after(StopEvent::Bus { found: true }) == StopPhase::CheckTime,
        (StopPhase::Pause { finalized }).after(StopEvent::StateSet { accepted: true }) == (
        StopPhase::RestPaused { finalized }),
        (StopPhase::RestPaused { finalized }).after(StopEvent::Done) == (StopPhase::Release {
            finalized,
        }),
        (StopPhase::Release { finalized }).after(StopEvent::StateSet { accepted: true }) == (
        StopPhase::RestReleased { finalized }),
        (StopPhase::RestReleased { finalized }).after(StopEvent::Done) == (StopPhase::Done {
            finalized,
        }),
{
}

/// The end fails exactly if there is no bus, or if the pipeline refuses to be
/// paused or released; the error tells which.
pub proof fn law_end_fails_for_a_reason(phase: StopPhase, event: StopEvent, error: StopError)
    requires
        phase.expects(event),
    ensures
        phase.after(event) == (StopPhase::Failed { error }) <==> match error {
            StopError::NoBus => phase == StopPhase::FetchBus && event == (StopEvent::Bus {
                found: false,
            }),
            StopError::PauseRefused => phase is Pause && event == (StopEvent::StateSet {
                accepted: false,
            }),
            StopError::ReleaseRefused => phase is Release && event == (StopEvent::StateSet {
                accepted: false,
            }),
        },
{
}

/// What each phase asks for, with the times in milliseconds: a poll of 200, a
/// rest of 100 when paused and of 500 when released. The last action tells how
/// it ended.
pub proof fn law_phases_ask_for_their_action(phase: StopPhase)
    ensures
        phase.pending() == StopAction::SendEos <==> phase == StopPhase::SendEos,
        phase.pending() == StopAction::FetchBus <==> phase == StopPhase::FetchBus,
        phase.pending() == StopAction::ReadElapsedTime <==> phase == StopPhase::CheckTime,
        phase.pending() is PollBus <==> phase == StopPhase::Poll,
        phase.pending() matches StopAction::PollBus { millis } ==> millis == 200,
        forall|finalized: bool| #[trigger]
            paused(finalized) == phase.pending() <==> phase == (StopPhase::Pause { finalized }),
        phase.pending() == StopAction::Release <==> phase is Release,
        phase is RestPaused ==> phase.pending() == (StopAction::Sleep { millis: 100 }),
        phase is RestReleased ==> phase.pending() == (StopAction::Sleep { millis: 500 }),
        phase.pending() is Sleep ==> phase is RestPaused || phase is RestReleased,
        forall|finalized: bool| #[trigger]
            finished(finalized) == phase.pending() <==> phase == (StopPhase::Done { finalized }),
        forall|error: StopError| #[trigger]
            failed(error) == phase.pending() <==> phase == (StopPhase::Failed { error }),
{
}

/// To pause the pipeline.
pub open spec fn paused(finalized: bool) -> StopAction {
    StopAction::Pause { finalized }
}

/// To report that the recording has ended.
pub open spec fn finished(finalized: bool) -> StopAction {
    StopAction::Finish { finalized }
}

/// To report that the recording could not be ended.
pub open spec fn failed(error: StopError) -> StopAction {
    StopAction::Fail { error }
}

/// Each action has its own kind of result, every value of which is taken; after
/// the last action nothing more comes.
pub proof fn law_results_match_their_action(phase: StopPhase, event: StopEvent)
    ensures
        phase.expects(event) <==> match event {
            StopEvent::Done => phase == StopPhase::SendEos || phase is RestPaused
                || phase is RestReleased,
            StopEvent::Bus { .. } => phase == StopPhase::FetchBus,
            StopEvent::Elapsed { .. } => phase == StopPhase::CheckTime,
            StopEvent::Polled { .. } => phase == StopPhase::Poll,
            StopEvent::StateSet { .. } => phase is Pause || phase is Release,
        },
{
}

// ---- The recorder ----

/// A pipeline is started exactly for a start while none runs, and stopped
/// exactly for a stop while one runs. Otherwise nothing changes but that the
/// user is told.
pub proof fn law_events_find_their_action(recorder: RecorderView, event: RecordingEvent)
    ensures
        ({
            let (after, action) = recorder.on_event(event);
            &&& action == RecorderAction::StartPipeline <==> event == RecordingEvent::Start
                && !recorder.running
            &&& action == RecorderAction::ReportAlreadyRecording <==> event == RecordingEvent::Start
                && recorder.running
            &&& action == RecorderAction::StopPipeline <==> event == RecordingEvent::Stop
                && recorder.running
            &&& action == RecorderAction::ReportNotRecording <==> event == RecordingEvent::Stop
                && !recorder.running
            &&& after.running <==> recorder.running && event == RecordingEvent::Start
            &&& after.state == RecordingState::Recording <==> {
                ||| event == RecordingEvent::Start && !recorder.running
                ||| recorder.state == RecordingState::Recording && !(event == RecordingEvent::Stop
                    && recorder.running)
            }
            &&& after.state == RecordingState::Stopping <==> {
                ||| event == RecordingEvent::Stop && recorder.running
                ||| recorder.state == RecordingState::Stopping && !(event == RecordingEvent::Start
                    && !recorder.running)
            }
        }),
{
}

/// A recorder begins idle. One whose pipeline was to be started counts as
/// recording, and has a pipeline exactly if that worked.
pub proof fn law_recorder_states(recorder: RecorderView, success: bool)
    ensures
        !RecorderView::initial().running,
        RecorderView::initial().state == RecordingState::Idle,
        RecorderView::started(success).running == success,
        RecorderView::started(success).state == RecordingState::Recording,
        recorder.valid() <==> !(recorder.running && recorder.state != RecordingState::Recording),
        recorder.stopping() <==> recorder.state == RecordingState::Stopping,
        recorder.starting() <==> recorder.state == RecordingState::Recording && !recorder.running,
{
}

/// A recorder begins idle and without a pipeline.
pub proof fn law_recorder_begins_idle(recorder: Recorder, state: RecordingState)
    requires
        call_ensures(Recorder::new, (), recorder),
        call_ensures(Recorder::state, (&recorder,), state),
    ensures
        state == RecordingState::Idle,
        !recorder@.running,
{
}

/// After a start a node reports that it records, and has a pipeline, exactly if
/// the pipeline could be started, and otherwise that there was an error. Either
/// way it counts as recording.
pub proof fn law_start_is_reported(recorder: &mut Recorder, success: bool, r: NodeState)
    requires
        call_ensures(Recorder::pipeline_started, (recorder, success), r),
    ensures
        r == NodeState::Recording <==> success,
        r == NodeState::Error <==> !success,
        final(recorder)@.running <==> success,
        final(recorder)@.state == RecordingState::Recording,
{
}

/// After a stop a node reports that it is idle, and is.
pub proof fn law_stop_is_reported(recorder: &mut Recorder, r: NodeState)
    requires
        call_ensures(Recorder::pipeline_stopped, (recorder,), r),
    ensures
        r == NodeState::Idle,
        final(recorder)@.state == RecordingState::Idle,
        !final(recorder)@.running,
{
}

/// A recorder that is shut down leaves a pipeline to stop exactly if one runs,
/// and has none afterwards: a second shutdown leaves nothing to stop.
pub proof fn law_shutdown_leaves_no_pipeline(recorder: &mut Recorder, left: bool)
    requires
        call_ensures(Recorder::shut_down, (recorder,), left),
    ensures
        left <==> old(recorder)@.running,
        !final(recorder)@.running,
        final(recorder)@.state == old(recorder)@.state,
{
}

/// The numbers of the states; any other number stands for the idle state.
pub proof fn law_state_numbers(n: u8)
    ensures
        RecordingState::Idle.number() == 0,
        RecordingState::Recording.number() == 1,
        RecordingState::Stopping.number() == 2,
        RecordingState::of_number(n) == RecordingState::Recording <==> n == 1,
        RecordingState::of_number(n) == RecordingState::Stopping <==> n == 2,
        RecordingState::of_number(n) == RecordingState::Idle <==> n == 0 || n > 2,
{
}

/// The number of a state is read back as that state.
pub proof fn law_state_survives_its_number(
    state: RecordingState,
    n: u8,
    back: RecordingState,
)
    requires
        call_ensures(RecordingState::to_u8, (state,), n),
        call_ensures(RecordingState::from_u8, (n,), back),
    ensures
        back == state,
        n <= 2,
{
}

/// A user may quit exactly while the node is idle, and is told otherwise what
/// is still going on.
pub proof fn law_quit_only_when_idle(state: RecordingState, r: QuitAnswer)
    requires
        call_ensures(answer_quit, (state,), r),
    ensures
        r == QuitAnswer::Exit <==> state == RecordingState::Idle,
        r == QuitAnswer::StillRecording <==> state == RecordingState::Recording,
        r == QuitAnswer::StillFinalizing <==> state == RecordingState::Stopping,
{
}

// ---- Repeated messages ----

/// A task sends exactly if it is ready and the node runs, and ends exactly if
/// it is ready and the node does not, or has ended before. Otherwise it waits:
/// a second before the first request, and after each message its period.
pub proof fn law_task_steps(task: TaskView, running: bool)
    ensures
        ({
            let (next, action) = task.step(running);
            &&& next.beacon == task.beacon
            &&& action == (TaskAction::Send { beacon: task.beacon }) <==> task.phase
                == TaskPhase::Ready && running
            &&& action is Send ==> action == (TaskAction::Send { beacon: task.beacon })
            &&& action == TaskAction::Finish <==> task.phase == TaskPhase::Over || (task.phase
                == TaskPhase::Ready && !running)
            &&& action == TaskAction::Finish <==> next.phase == TaskPhase::Over
            &&& action is Send <==> next.phase == TaskPhase::Sent
            &&& action is Sleep <==> next.phase == TaskPhase::Ready
            &&& task.phase == TaskPhase::HeadStart ==> action == (TaskAction::Sleep {
                millis: 1_000,
            })
            &&& task.phase == TaskPhase::Sent ==> action == (TaskAction::Sleep {
                millis: if task.beacon == Beacon::Discovery {
                    2_000
                } else {
                    5_000
                },
            })
        }),
{
}

/// A task sends its own message, exactly if it is ready and the node runs.
pub proof fn law_task_sends_its_message(task: &mut BeaconTask, running: bool, r: TaskAction)
    requires
        call_ensures(BeaconTask::next, (task, running), r),
    ensures
        r is Send <==> old(task)@.phase == TaskPhase::Ready && running,
        r matches TaskAction::Send { beacon } ==> beacon == old(task)@.beacon,
        r is Finish <==> old(task)@.phase == TaskPhase::Over || (old(task)@.phase
            == TaskPhase::Ready && !running),
        final(task)@.beacon == old(task)@.beacon,
{
}

/// Discovery begins at once, whatever the role; time sync waits for followers
/// and is over for leaders from the start.
pub proof fn law_tasks_begin(role: NodeRole)
    ensures
        TaskView::discovery().beacon == Beacon::Discovery,
        TaskView::discovery().phase == TaskPhase::Ready,
        TaskView::time_sync(role).beacon == Beacon::TimeSyncRequest,
        TaskView::time_sync(role).phase == TaskPhase::HeadStart <==> role == NodeRole::Follower,
        TaskView::time_sync(role).phase == TaskPhase::Over <==> role == NodeRole::Leader,
{
}

/// A node that received goes on at once; after a failure it pauses for ten
/// milliseconds.
pub proof fn law_only_failures_pause(received: bool, r: Option<u64>)
    requires
        call_ensures(after_receive, (received,), r),
    ensures
        r is None <==> received,
        r == Some(10u64) <==> !received,
{
}

} // verus!
