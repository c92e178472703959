//! What the operations on time come to, in plain numbers.

use crate::arith::{fits, recent, sum, sums_fit, trunc_div};
use crate::clock::{clock_gives, timestamp_from_micros, timestamp_of};
use crate::laws::{law_smoothing_stays_between, Response};
use crate::network::{Message, MessageView, NodeRole, NodeState, RecordingCmd};
use crate::orchestrator::{
    event_of, Action, ActionView, Fault, NodeView, Orchestrator, PeerInfo, RecordingEvent,
};
use crate::sync::{
    due_at, measured_offset, round_trip, smoothed, to_local, to_network, wait_micros, SyncMeasurement,
    SyncScheduler, SyncState, TimeSyncManager,
};
use vstd::prelude::*;

verus! {

/// Whether a number lies no further from zero than a quarter of the range of a
/// timestamp, about 73,000 years.
pub open spec fn ordinary(x: int) -> bool {
    -0x2000_0000_0000_0000 <= x <= 0x2000_0000_0000_0000
}

// ---- Numbers ----

/// A timestamp is a signed number of 64 bits.
pub proof fn law_timestamps_have_64_bits(x: int)
    ensures
        fits(x) <==> -0x8000_0000_0000_0000 <= x < 0x8000_0000_0000_0000,
{
}

/// A count of microseconds and its timestamp agree in their lower 64 bits.
pub proof fn law_timestamp_keeps_the_lower_bits(micros: u128)
    ensures
        -0x8000_0000_0000_0000 <= timestamp_of(micros) < 0x8000_0000_0000_0000,
        (micros - timestamp_of(micros)) % 0x1_0000_0000_0000_0000 == 0,
{
}

/// The timestamp of a count of microseconds is that count as long as it fits,
/// and never differs from it by anything but a multiple of 2 to the 64.
pub proof fn law_timestamp_is_the_count(micros: u128, r: i64)
    requires
        call_ensures(timestamp_from_micros, (micros,), r),
    ensures
        micros < 0x8000_0000_0000_0000 ==> r == micros,
        (micros - r) % 0x1_0000_0000_0000_0000 == 0,
{
}

/// A quotient rounded toward zero never exceeds the exact one and misses it by
/// less than one.
pub proof fn law_division_rounds_toward_zero(x: int, d: int)
    requires
        d > 0,
    ensures
        x >= 0 ==> 0 <= trunc_div(x, d) * d <= x < trunc_div(x, d) * d + d,
        x <= 0 ==> trunc_div(x, d) * d - d < x <= trunc_div(x, d) * d <= 0,
{
    if x >= 0 {
        assert(0 <= (x / d) * d <= x < (x / d) * d + d) by (nonlinear_arith)
            requires
                d > 0,
                x >= 0,
        ;
        if x == 0 {
            assert(x / d == 0) by (nonlinear_arith)
                requires
                    d > 0,
                    x == 0,
            ;
        }
    } else {
        let y = -x;
        assert(0 <= (y / d) * d <= y < (y / d) * d + d) by (nonlinear_arith)
            requires
                d > 0,
                y >= 0,
        ;
        assert((-(y / d)) * d == -((y / d) * d)) by (nonlinear_arith);
    }
}

/// One more element adds itself to a sum, and an empty sum is zero.
pub proof fn law_sum_adds_up(s: Seq<i64>, x: i64)
    ensures
        sum(Seq::<i64>::empty()) == 0,
        sum(s.push(x)) == sum(s) + x,
{
    assert(s.push(x).drop_last() =~= s);
}

/// A sum can be made if the sum without its last element can, and the last
/// element does not take it out of range.
pub proof fn law_sums_fit_step_by_step(s: Seq<i64>, x: i64)
    ensures
        sums_fit(Seq::<i64>::empty()),
        sums_fit(s.push(x)) <==> sums_fit(s) && fits(sum(s) + x),
{
    let all = s.push(x);
    let none = Seq::<i64>::empty();
    assert forall|k: int| 0 <= k <= none.len() implies fits(sum(#[trigger] none.take(k))) by {
        assert(none.take(k) =~= none);
    }
    law_sum_adds_up(s, x);
    assert(all.take(all.len() as int) =~= all);
    assert forall|k: int| 0 <= k <= s.len() implies #[trigger] all.take(k) == s.take(k) by {
        assert(all.take(k) =~= s.take(k));
    }
    if sums_fit(all) {
        assert(fits(sum(all.take(all.len() as int))));
        assert forall|k: int| 0 <= k <= s.len() implies fits(sum(#[trigger] s.take(k))) by {
            assert(fits(sum(all.take(k))));
        }
    }
    if sums_fit(s) && fits(sum(s) + x) {
        assert forall|k: int| 0 <= k <= all.len() implies fits(sum(#[trigger] all.take(k))) by {
            if k <= s.len() {
                assert(fits(sum(s.take(k))));
            }
        }
    }
}

/// The recent elements are the last ones, in their order: as many as asked for,
/// or all if there are fewer.
pub proof fn law_recent_elements_are_the_last<T>(s: Seq<T>, n: nat)
    ensures
        recent(s, n).len() == if s.len() < n {
            s.len()
        } else {
            n
        },
        forall|i: int|
            0 <= i < recent(s, n).len() ==> #[trigger] recent(s, n)[i] == s[s.len() - recent(
                s,
                n,
            ).len() + i],
{
}

// ---- Measuring the clock ----

/// The round-trip time is the time between request and response on the client,
/// less the time between them on the server, for all timestamps. The offset is
/// half of how far the server was ahead there and back together, rounded toward
/// zero.
pub proof fn law_measurement_in_numbers(t1: int, t2: int, t3: int, t4: int)
    ensures
        round_trip(t1, t2, t3, t4) + t3 + t1 == t4 + t2,
        ({
            let twice = t2 + t3 - t1 - t4;
            let offset = measured_offset(t1, t2, t3, t4);
            &&& twice >= 0 ==> 0 <= 2 * offset <= twice <= 2 * offset + 1
            &&& twice <= 0 ==> 2 * offset - 1 <= twice <= 2 * offset <= 0
        }),
{
}

/// A measurement counts for a fifth against an offset that is known, whether it
/// lies above or below, up to rounding toward zero. So a measurement that is
/// ten or more away draws the offset strictly nearer to itself. Without an
/// offset it is taken whole.
pub proof fn law_offset_is_a_moving_average(current: int, measured: int)
    ensures
        current == 0 ==> smoothed(current, measured) == measured,
        current != 0 ==> {
            let s = smoothed(current, measured);
            let tenfold = 8 * current + 2 * measured;
            &&& tenfold >= 0 ==> 0 <= 10 * s <= tenfold < 10 * s + 10
            &&& tenfold <= 0 ==> 10 * s - 10 < tenfold <= 10 * s <= 0
            &&& -10 < 10 * (s - measured) - 8 * (current - measured) < 10
            &&& current - measured >= 10 ==> -(current - measured) < s - measured < current
                - measured
            &&& measured - current >= 10 ==> -(measured - current) < s - measured < measured
                - current
        },
{
}

/// A response moves the offset by the moving average, adds one sample to the
/// samples of its peer and leaves those of all others alone.
pub proof fn law_response_is_taken_in(
    s: SyncState,
    t1: int,
    t2: int,
    t3: int,
    t4: int,
    peer: Seq<char>,
)
    requires
        fits(t4 - t1 - (t3 - t2)),
    ensures
        ({
            let after = s.after_response(t1, t2, t3, t4, peer);
            let tenfold = 8 * s.offset + 2 * measured_offset(t1, t2, t3, t4);
            &&& s.offset == 0 ==> after.offset == measured_offset(t1, t2, t3, t4)
            &&& s.offset != 0 ==> -10 < 10 * after.offset - tenfold < 10
            &&& after.measured
            &&& after.max_samples == s.max_samples
            &&& s.max_samples > 0 ==> after.samples_of(peer).last() == t4 - t1 - (t3 - t2)
            &&& s.samples_of(peer).len() < s.max_samples ==> after.samples_of(peer).drop_last()
                == s.samples_of(peer)
            &&& s.samples_of(peer).len() == s.max_samples && s.max_samples > 0
                ==> after.samples_of(peer).drop_last() == s.samples_of(peer).drop_first()
            &&& s.max_samples == 0 ==> after.samples_of(peer).len() == 0
            &&& forall|other: Seq<char>|
                other != peer ==> #[trigger] after.samples_of(other) == s.samples_of(other)
        }),
{
    let after = s.after_response(t1, t2, t3, t4, peer);
    law_offset_is_a_moving_average(s.offset, measured_offset(t1, t2, t3, t4));
    if s.samples_of(peer).len() < s.max_samples {
        assert(after.samples_of(peer).drop_last() =~= s.samples_of(peer));
    }
    if s.samples_of(peer).len() == s.max_samples && s.max_samples > 0 {
        assert(after.samples_of(peer).drop_last() =~= s.samples_of(peer).drop_first());
    }
}

/// A manager starts without offset, measurement or sample.
pub proof fn law_fresh_state_knows_nothing(max_samples: nat, peer: Seq<char>)
    ensures
        ({
            let s = SyncState::fresh(max_samples);
            &&& s.offset == 0
            &&& !s.measured
            &&& s.samples_of(peer).len() == 0
            &&& s.average_rtt(peer) is None
            &&& s.max_samples == max_samples
            &&& s.bounded()
        }),
{
}

/// What is kept of a peer are its samples, and there are no more than are to be
/// kept exactly if that holds for every peer.
pub proof fn law_samples_are_kept_per_peer(s: SyncState, peer: Seq<char>)
    ensures
        s.samples.contains_key(peer) ==> s.samples_of(peer) == s.samples[peer],
        !s.samples.contains_key(peer) ==> s.samples_of(peer).len() == 0,
        s.bounded() <==> forall|p: Seq<char>| #[trigger] s.samples_of(p).len() <= s.max_samples,
{
    if s.bounded() {
        assert forall|p: Seq<char>| #[trigger] s.samples_of(p).len() <= s.max_samples by {
            assert(s.samples.contains_key(p) ==> s.samples[p].len() <= s.max_samples);
        }
    }
    if forall|p: Seq<char>| #[trigger] s.samples_of(p).len() <= s.max_samples {
        assert forall|p: Seq<char>| #[trigger] s.samples.contains_key(p) implies s.samples[p].len()
            <= s.max_samples by {
            assert(s.samples_of(p).len() <= s.max_samples);
        }
    }
}

/// A response is refused only if a difference of its timestamps, or a multiple
/// that the moving average needs, does not fit a timestamp. So any response
/// with timestamps and an offset of ordinary size is taken, in every state.
pub proof fn law_ordinary_responses_are_taken(s: SyncState, t1: int, t2: int, t3: int, t4: int)
    ensures
        s.response_fits(t1, t2, t3, t4) <==> {
            let m = measured_offset(t1, t2, t3, t4);
            &&& fits(t4 - t1) && fits(t3 - t2) && fits(t4 - t1 - t3 + t2)
            &&& fits(t2 - t1) && fits(t3 - t4) && fits(t2 - t1 + t3 - t4)
            &&& s.offset == 0 || (fits(8 * s.offset) && fits(2 * m) && fits(
                8 * s.offset + 2 * m,
            ))
        },
        ordinary(2 * t1) && ordinary(2 * t2) && ordinary(2 * t3) && ordinary(2 * t4) && ordinary(
            8 * s.offset,
        ) ==> s.response_fits(t1, t2, t3, t4),
{
    law_measurement_in_numbers(t1, t2, t3, t4);
}

/// The average of a peer's samples, times their number, misses their sum by
/// less than their number, toward zero. There is one exactly if there are
/// samples.
pub proof fn law_average_in_numbers(s: SyncState, peer: Seq<char>)
    ensures
        ({
            let samples = s.samples_of(peer);
            let n = samples.len() as int;
            &&& s.average_rtt(peer) is None <==> n == 0
            &&& s.average_rtt(peer) matches Some(average) ==> {
                &&& sum(samples) >= 0 ==> 0 <= average * n <= sum(samples) < average * n + n
                &&& sum(samples) <= 0 ==> average * n - n < sum(samples) <= average * n <= 0
            }
        }),
{
    let samples = s.samples_of(peer);
    if samples.len() > 0 {
        law_division_rounds_toward_zero(sum(samples), samples.len() as int);
    }
}

// ---- Scheduling ----

/// Network time is ahead of local time by the offset. What is scheduled lies
/// the delay ahead of that, and the wait is what is left of it.
pub proof fn law_schedule_in_numbers(offset: int, time: int, delay: int, target: int)
    ensures
        to_network(offset, time) - time == offset,
        time - to_local(offset, time) == offset,
        due_at(offset, time, delay) == time + delay + offset,
        wait_micros(offset, target, time) + time + offset == target,
{
}

/// A manager converts a local timestamp to network time by adding the offset
/// that it tells, and back by taking it away, so that both ways together lead
/// back to where they started.
pub proof fn law_manager_converts_by_its_offset(
    manager: TimeSyncManager,
    offset: i64,
    local: i64,
    network: i64,
    back: i64,
)
    requires
        call_ensures(TimeSyncManager::get_clock_offset, (&manager,), offset),
        call_ensures(TimeSyncManager::local_to_network_time, (&manager, local), network),
        call_ensures(TimeSyncManager::network_to_local_time, (&manager, network), back),
    ensures
        offset == manager@.offset,
        network - local == offset,
        back == local,
{
}

/// A manager is synchronized after any response, even if the offset is zero,
/// and not before.
pub proof fn law_synchronized_after_a_response(
    manager: TimeSyncManager,
    before: SyncState,
    r: Response,
    synchronized: bool,
)
    requires
        call_ensures(TimeSyncManager::is_synchronized, (&manager,), synchronized),
    ensures
        manager@ == SyncState::fresh(manager@.max_samples) ==> !synchronized,
        manager@ == before.after_response(r.t1, r.t2, r.t3, r.t4, r.peer) ==> synchronized,
{
}

/// What a manager answers of a peer's round-trip times: their average, rounded
/// toward zero, and nothing exactly if there are none.
pub proof fn law_manager_averages_samples(
    manager: TimeSyncManager,
    peer: &str,
    average: Option<i64>,
)
    requires
        call_ensures(TimeSyncManager::get_average_rtt, (&manager, peer), average),
    ensures
        ({
            let samples = manager@.samples_of(peer@);
            let n = samples.len() as int;
            &&& average is None <==> n == 0
            &&& average matches Some(a) ==> {
                &&& sum(samples) >= 0 ==> 0 <= a * n <= sum(samples) < a * n + n
                &&& sum(samples) <= 0 ==> a * n - n < sum(samples) <= a * n <= 0
            }
        }),
{
    law_average_in_numbers(manager@, peer@);
}

/// A manager takes a response with timestamps and an offset of ordinary size.
pub proof fn law_manager_takes_ordinary_responses(
    manager: TimeSyncManager,
    t1: i64,
    t2: i64,
    t3: i64,
    t4: i64,
    taken: bool,
)
    requires
        call_ensures(TimeSyncManager::can_process, (&manager, t1, t2, t3, t4), taken),
        ordinary(2 * t1),
        ordinary(2 * t2),
        ordinary(2 * t3),
        ordinary(2 * t4),
        ordinary(8 * manager@.offset),
    ensures
        taken,
{
    law_ordinary_responses_are_taken(
        manager@,
        t1 as int,
        t2 as int,
        t3 as int,
        t4 as int,
    );
}

/// What is scheduled for `delay` after a local time is due when the clock has
/// gone on by `delay`, and not before: the microseconds until then are those
/// that are left, and it is reached once none are.
pub proof fn law_scheduler_keeps_its_times(
    manager: TimeSyncManager,
    scheduler: SyncScheduler<'_>,
    start: i64,
    delay: i64,
    target: i64,
    now: i64,
    left: i64,
    reached: bool,
)
    requires
        call_ensures(SyncScheduler::new, (&manager,), scheduler),
        call_ensures(SyncScheduler::schedule_future, (&scheduler, start, delay), target),
        call_ensures(SyncScheduler::micros_until, (&scheduler, target, now), left),
        call_ensures(SyncScheduler::is_time_reached, (&scheduler, target, now), reached),
    ensures
        target == start + delay + manager@.offset,
        left == start + delay - now,
        reached <==> now >= start + delay,
{
}

/// A manager that takes in a response gives the round-trip time and the offset
/// that the exchange showed, draws its own offset a fifth of the way there, or
/// takes it whole if it has none, and counts as synchronized.
pub proof fn law_manager_takes_in_a_response(
    manager: &mut TimeSyncManager,
    t1: i64,
    t2: i64,
    t3: i64,
    t4: i64,
    peer: &str,
    r: SyncMeasurement,
)
    requires
        call_ensures(
            TimeSyncManager::process_sync_response,
            (manager, t1, t2, t3, t4, peer),
            r,
        ),
    ensures
        ({
            let twice = (t2 - t1) + (t3 - t4);
            let known = old(manager)@.offset;
            let after = final(manager)@.offset;
            &&& r.rtt == (t4 - t1) - (t3 - t2)
            &&& twice >= 0 ==> 0 <= 2 * r.offset <= twice <= 2 * r.offset + 1
            &&& twice <= 0 ==> 2 * r.offset - 1 <= twice <= 2 * r.offset <= 0
            &&& known == 0 ==> after == r.offset
            &&& known != 0 && 8 * known + 2 * r.offset >= 0 ==> 0 <= 10 * after <= 8 * known + 2
                * r.offset < 10 * after + 10
            &&& known != 0 && 8 * known + 2 * r.offset <= 0 ==> 10 * after - 10 < 8 * known + 2
                * r.offset <= 10 * after <= 0
            &&& final(manager)@.measured
            &&& final(manager)@.max_samples == old(manager)@.max_samples
            &&& final(manager)@.max_samples > 0 ==> final(manager)@.samples_of(peer@).last()
                == r.rtt
        }),
{
    law_measurement_in_numbers(t1 as int, t2 as int, t3 as int, t4 as int);
    law_offset_is_a_moving_average(
        manager@.offset,
        measured_offset(t1 as int, t2 as int, t3 as int, t4 as int),
    );
    law_response_is_taken_in(manager@, t1 as int, t2 as int, t3 as int, t4 as int, peer@);
}

/// A manager that was reset knows nothing, and keeps as many samples as before.
pub proof fn law_reset_forgets(manager: &mut TimeSyncManager, peer: Seq<char>)
    requires
        call_ensures(TimeSyncManager::reset, (manager,), ()),
    ensures
        final(manager)@.offset == 0,
        !final(manager)@.measured,
        final(manager)@.samples_of(peer).len() == 0,
        final(manager)@.max_samples == old(manager)@.max_samples,
{
}

// ---- Recording commands ----

/// A start leads to a start and a stop to a stop.
pub proof fn law_events_match_their_commands(command: RecordingCmd)
    ensures
        event_of(command) == RecordingEvent::Start <==> command == RecordingCmd::Start,
        event_of(command) == RecordingEvent::Stop <==> command == RecordingCmd::Stop,
{
}

/// A recording command is taken exactly if the local time of its target and the
/// time until then fit a timestamp, whatever else the node knows. So with times
/// and an offset of ordinary size it is always carried out: at once if nothing
/// is left to wait, and otherwise after what is left.
pub proof fn law_ordinary_commands_are_taken(
    node: NodeView,
    command: RecordingCmd,
    target_timestamp: i64,
    role: NodeRole,
    now: int,
)
    ensures
        ({
            let msg = MessageView::RecordingCommand { command, target_timestamp, role };
            let left = target_timestamp - node.sync.offset - now;
            let (after, action) = node.step(msg, now);
            &&& after == node
            &&& node.step_fits(msg, now) <==> fits(target_timestamp - node.sync.offset) && fits(
                left,
            )
            &&& ordinary(target_timestamp as int) && ordinary(node.sync.offset) && ordinary(now)
                ==> node.step_fits(msg, now)
            &&& left <= 0 <==> action is RecordNow
            &&& left > 0 <==> action is RecordLater
            &&& action matches ActionView::RecordNow { command: c, event, due_in_ms } ==> {
                &&& c == command
                &&& event == RecordingEvent::Start <==> command == RecordingCmd::Start
                &&& 1000 * due_in_ms - 1000 < left <= 1000 * due_in_ms <= 0
            }
            &&& action matches ActionView::RecordLater {
                command: c,
                event,
                delay_micros,
                due_in_ms,
            } ==> {
                &&& c == command
                &&& event == RecordingEvent::Start <==> command == RecordingCmd::Start
                &&& delay_micros == left
                &&& 0 <= 1000 * due_in_ms <= left < 1000 * due_in_ms + 1000
            }
        }),
{
}

/// A node takes a recording command with times and an offset of ordinary size,
/// whether or not it has measured an offset.
pub proof fn law_node_takes_ordinary_commands(
    node: Orchestrator,
    msg: Message,
    now: i64,
    taken: bool,
)
    requires
        call_ensures(Orchestrator::can_handle, (&node, &msg, now), taken),
        msg matches Message::RecordingCommand { target_timestamp, .. } && ordinary(
            target_timestamp as int,
        ),
        ordinary(node@.sync.offset),
        ordinary(now as int),
    ensures
        taken,
{
}

/// A node that receives a command waits for what is left until its target on
/// the network time, and acts at once if nothing is left.
pub proof fn law_node_waits_for_the_target(
    node: &mut Orchestrator,
    msg: Message,
    now: i64,
    r: Action,
)
    requires
        call_ensures(Orchestrator::handle_message_at, (node, msg, now), r),
        msg is RecordingCommand,
    ensures
        ({
            let left = msg->target_timestamp - old(node)@.sync.offset - now;
            &&& final(node)@ == old(node)@
            &&& match r {
                Action::RecordLater { command, event, delay_micros, due_in_ms } => {
                    &&& command == msg->command
                    &&& event == RecordingEvent::Start <==> command == RecordingCmd::Start
                    &&& delay_micros == left
                    &&& left > 0
                    &&& 0 <= 1000 * due_in_ms <= left < 1000 * due_in_ms + 1000
                },
                Action::RecordNow { command, event, due_in_ms } => {
                    &&& command == msg->command
                    &&& event == RecordingEvent::Start <==> command == RecordingCmd::Start
                    &&& 1000 * due_in_ms - 1000 < left <= 1000 * due_in_ms <= 0
                },
                _ => false,
            }
        }),
{
}

/// A node fails to react only if its clock gave no time, or if a recording
/// command of ordinary size met a clock that is not, and then nothing changes.
/// Messages that announce a node or its status are always taken.
pub proof fn law_node_refuses_for_a_reason(
    node: &mut Orchestrator,
    msg: Message,
    r: Result<Action, Fault>,
)
    requires
        call_ensures(Orchestrator::handle_message, (node, msg), r),
    ensures
        r is Err ==> final(node)@ == old(node)@,
        r is Err && r->Err_0 == Fault::ClockBeforeEpoch ==> clock_gives(None),
        r is Err && r->Err_0 == Fault::TimeOutOfRange && msg is RecordingCommand && ordinary(
            msg->target_timestamp as int,
        ) && ordinary(old(node)@.sync.offset) ==> exists|now: i64| #[trigger]
            clock_gives(Some(now)) && !ordinary(now as int),
        msg is Discovery || msg is Status ==> r is Ok,
        msg@.sender() == Some(old(node)@.node_id) ==> r is Ok,
        old(node)@.role == NodeRole::Follower && msg is TimeSyncRequest ==> r is Ok,
{
    if r is Err && r->Err_0 == Fault::TimeOutOfRange && msg is RecordingCommand && ordinary(
        msg->target_timestamp as int,
    ) && ordinary(node@.sync.offset) {
        let now = choose|now: i64|
            clock_gives(Some(now)) && !(#[trigger] node@.step_fits(msg@, now as int));
        assert(clock_gives(Some(now)) && !ordinary(now as int));
    }
}

/// A command can be sent exactly if its delay in microseconds, the local time
/// after it and the network time of that fit a timestamp. So with times of
/// ordinary size every delay up to some 35,000 years can be commanded.
pub proof fn law_ordinary_delays_can_be_commanded(node: NodeView, delay_ms: int, now: int)
    ensures
        node.command_fits(delay_ms, now) <==> fits(1000 * delay_ms) && fits(now + 1000 * delay_ms)
            && fits(now + 1000 * delay_ms + node.sync.offset),
        ordinary(now) && ordinary(node.sync.offset) && -0x4_0000_0000_0000 <= delay_ms
            <= 0x4_0000_0000_0000 ==> node.command_fits(delay_ms, now),
{
}

/// A node with a clock and an offset of ordinary size lets every delay up to
/// some 35,000 years be commanded.
pub proof fn law_node_takes_ordinary_delays(
    node: Orchestrator,
    delay_ms: i64,
    now: i64,
    taken: bool,
)
    requires
        call_ensures(Orchestrator::can_command, (&node, delay_ms, now), taken),
        ordinary(now as int),
        ordinary(node@.sync.offset),
        -0x4_0000_0000_0000 <= delay_ms <= 0x4_0000_0000_0000,
    ensures
        taken,
{
}

/// The command that is sent is the one asked for, due a thousand microseconds
/// per millisecond of delay after now, in network time.
pub proof fn law_sent_command_lies_ahead(
    node: NodeView,
    command: RecordingCmd,
    delay_ms: int,
    now: int,
)
    requires
        node.command_fits(delay_ms, now),
    ensures
        node.command_message(command, delay_ms, now) matches MessageView::RecordingCommand {
            command: sent,
            target_timestamp,
            role,
        } && sent == command && role == node.role && target_timestamp - node.sync.offset - now
            == 1000 * delay_ms,
{
}

/// A node sends the command that it is asked for, due the delay after a reading
/// of its clock. It fails only if the clock gave no time or, for a delay of
/// ordinary size, one that is not.
pub proof fn law_node_sends_the_command(
    node: Orchestrator,
    command: RecordingCmd,
    delay_ms: i64,
    r: Result<Message, Fault>,
)
    requires
        call_ensures(Orchestrator::send_recording_command, (&node, command, delay_ms), r),
    ensures
        match r {
            Ok(m) => m matches Message::RecordingCommand { command: c, target_timestamp, role } && c
                == command && role == node@.role && exists|now: i64| #[trigger]
                clock_gives(Some(now)) && target_timestamp == now + node@.sync.offset + 1000
                    * delay_ms,
            Err(Fault::ClockBeforeEpoch) => clock_gives(None),
            Err(Fault::TimeOutOfRange) => ordinary(node@.sync.offset) && -0x4_0000_0000_0000
                <= delay_ms <= 0x4_0000_0000_0000 ==> exists|now: i64| #[trigger]
                clock_gives(Some(now)) && !ordinary(now as int),
        },
{
}

// ---- Other messages ----

/// The reaction to a message depends on the time only if the node reads the
/// clock for it, and where it does not read it the message is never refused.
pub proof fn law_clock_is_read_where_time_matters(node: NodeView, msg: MessageView, a: int, b: int)
    ensures
        !node.reads_clock(msg) ==> node.step(msg, a) == node.step(msg, b) && node.step_fits(msg, a),
        node.reads_clock(msg) <==> {
            ||| msg is RecordingCommand
            ||| msg is TimeSyncResponse && msg.sender() != Some(node.node_id)
            ||| msg is TimeSyncRequest && msg.sender() != Some(node.node_id) && node.role
                == NodeRole::Leader
        },
        node.is_own(msg) <==> msg.sender() == Some(node.node_id),
{
}

/// Only time sync responses and recording commands can be out of range.
pub proof fn law_other_messages_are_always_taken(node: NodeView, msg: MessageView, now: int)
    requires
        !(msg is TimeSyncResponse),
        !(msg is RecordingCommand),
    ensures
        node.step_fits(msg, now),
{
}

/// A time sync response from another node is taken if its timestamps and the
/// offset are of ordinary size. It is reported with its measurement, goes into
/// the node's time sync, and touches nothing else.
pub proof fn law_responses_are_taken_in(
    node: NodeView,
    peer: Seq<char>,
    t1: i64,
    t2: i64,
    t3: i64,
    now: int,
)
    requires
        peer != node.node_id,
    ensures
        ({
            let msg = MessageView::TimeSyncResponse { node_id: peer, t1, t2, t3 };
            let (after, action) = node.step(msg, now);
            let twice = t2 + t3 - t1 - now;
            &&& node.step_fits(msg, now) <==> node.sync.response_fits(
                t1 as int,
                t2 as int,
                t3 as int,
                now,
            )
            &&& action matches ActionView::ReportSync { peer_id, offset, rtt } && {
                &&& peer_id == peer
                &&& rtt + t3 + t1 == now + t2
                &&& twice >= 0 ==> 0 <= 2 * offset <= twice <= 2 * offset + 1
                &&& twice <= 0 ==> 2 * offset - 1 <= twice <= 2 * offset <= 0
                &&& node.sync.offset == 0 ==> after.sync.offset == offset
                &&& node.sync.offset != 0 ==> -10 < 10 * after.sync.offset - (8
                    * node.sync.offset + 2 * offset) < 10
            }
            &&& after.sync == node.sync.after_response(t1 as int, t2 as int, t3 as int, now, peer)
            &&& after.sync.measured
            &&& after.node_id == node.node_id
            &&& after.role == node.role
            &&& after.peers == node.peers
        }),
{
    law_measurement_in_numbers(t1 as int, t2 as int, t3 as int, now);
    law_offset_is_a_moving_average(
        node.sync.offset,
        measured_offset(t1 as int, t2 as int, t3 as int, now),
    );
}

/// An announcement is reported; a status report is not. Neither touches the
/// time sync, nor what is known of any other peer.
pub proof fn law_peer_messages_touch_their_peer_only(
    node: NodeView,
    msg: MessageView,
    now: int,
    other: Seq<char>,
)
    requires
        msg is Discovery || msg is Status,
        msg.sender() != Some(node.node_id),
        msg.sender() != Some(other),
    ensures
        ({
            let (after, action) = node.step(msg, now);
            &&& after.sync == node.sync
            &&& after.node_id == node.node_id
            &&& after.role == node.role
            &&& after.peers.contains_key(other) == node.peers.contains_key(other)
            &&& node.peers.contains_key(other) ==> after.peers[other] == node.peers[other]
            &&& msg is Status ==> action == ActionView::Nothing
            &&& msg matches MessageView::Discovery { node_id, role, .. } ==> action == (
            ActionView::ReportPeer { peer_id: node_id, role })
        }),
{
}

/// Every message names its sender, except for recording commands.
pub proof fn law_messages_name_their_sender(msg: MessageView)
    ensures
        msg is RecordingCommand <==> msg.sender() is None,
        msg matches MessageView::Discovery { node_id, .. } ==> msg.sender() == Some(node_id),
        msg matches MessageView::TimeSyncRequest { node_id, .. } ==> msg.sender() == Some(node_id),
        msg matches MessageView::TimeSyncResponse { node_id, .. } ==> msg.sender() == Some(node_id),
        msg matches MessageView::Status { node_id, .. } ==> msg.sender() == Some(node_id),
{
}

/// What a peer announces and then reports is what is known of it.
pub proof fn law_last_report_counts(
    node: NodeView,
    peer: Seq<char>,
    role: NodeRole,
    announced: i64,
    state: NodeState,
    reported: i64,
    a: int,
    b: int,
)
    requires
        peer != node.node_id,
    ensures
        ({
            let known = node.step(
                MessageView::Discovery { node_id: peer, role, timestamp: announced },
                a,
            ).0;
            let after = known.step(
                MessageView::Status { node_id: peer, state, timestamp: reported },
                b,
            ).0;
            &&& after.peers.contains_key(peer)
            &&& after.peers[peer] == (PeerInfo { role, last_seen: reported, state })
        }),
{
}

/// A follower that measures the same lead of the leader again and again comes
/// to hold it within ten microseconds: as long as it is further off, each
/// measurement brings it nearer, by at least a tenth of the distance.
pub proof fn law_repeated_measurements_converge(s: SyncState, r: Response)
    ensures
        ({
            let m = measured_offset(r.t1, r.t2, r.t3, r.t4);
            let after = s.after_response(r.t1, r.t2, r.t3, r.t4, r.peer).offset;
            let off = if s.offset >= m {
                s.offset - m
            } else {
                m - s.offset
            };
            let off_after = if after >= m {
                after - m
            } else {
                m - after
            };
            &&& off >= 10 ==> 10 * off_after < 9 * off
            &&& off < 10 ==> off_after <= off
        }),
{
    let m = measured_offset(r.t1, r.t2, r.t3, r.t4);
    law_offset_is_a_moving_average(s.offset, m);
    law_smoothing_stays_between(s.offset, m);
}

} // verus!
