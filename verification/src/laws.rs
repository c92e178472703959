//! What holds of the library as a whole.

use crate::arith::{lemma_recent_push, lemma_trunc_div_between, recent, sum, trunc_div};
use crate::network::{MessageView, NodeRole, NodeState, RecordingCmd};
use crate::orchestrator::{event_of, ActionView, NodeView, PeerInfo, RecordingEvent};
use crate::pipeline::{BusMessage, StopEvent, StopPhase};
use crate::recorder::{RecorderAction, RecorderView, RecordingState};
use crate::sync::{
    due_at, measured_offset, round_trip, smoothed, to_local, to_network, wait_micros, SyncState,
};
use crate::tasks::{Beacon, TaskAction, TaskPhase, TaskView};
use crate::text::{is_space, lemma_word_len, word_len, words};
use vstd::prelude::*;

verus! {

// ---- Time synchronization ----

/// Converting a time to the network and back, or from the network and back,
/// gives the time itself.
pub proof fn law_conversion_is_reversible(offset: int, time: int)
    ensures
        to_local(offset, to_network(offset, time)) == time,
        to_network(offset, to_local(offset, time)) == time,
{
}

/// Let the server's clock be ahead of the client's by `ahead`, let a request
/// travel for `there`, be held for `held` and the response travel for `back`.
/// Then the exchange shows a round-trip time of exactly the two travels. The
/// offset that it shows is off from `ahead` by at most half of that, rounded
/// up, and is exact if both travels take the same time.
pub proof fn law_exchange_shows_offset(t1: int, ahead: int, there: int, held: int, back: int)
    requires
        there >= 0,
        held >= 0,
        back >= 0,
    ensures
        ({
            let t2 = t1 + there + ahead;
            let t3 = t2 + held;
            let t4 = t3 - ahead + back;
            let rtt = round_trip(t1, t2, t3, t4);
            let offset = measured_offset(t1, t2, t3, t4);
            &&& rtt == there + back
            &&& -(rtt + 1) <= 2 * (offset - ahead) <= rtt + 1
            &&& there == back ==> offset == ahead
        }),
{
}

/// A new measurement moves the known offset toward itself and never past
/// itself. A measurement that agrees with what is known changes nothing.
pub proof fn law_smoothing_stays_between(current: int, measured: int)
    ensures
        current <= measured ==> current <= smoothed(current, measured) <= measured,
        measured <= current ==> measured <= smoothed(current, measured) <= current,
        measured == current ==> smoothed(current, measured) == current,
{
    if current <= measured {
        lemma_trunc_div_between(current * 8 + measured * 2, 10, current, measured);
    } else {
        lemma_trunc_div_between(current * 8 + measured * 2, 10, measured, current);
    }
}

/// A node counts as synchronized from its first measurement on, whatever the
/// measurement is. A node without an offset takes it whole.
pub proof fn law_measurement_synchronizes(
    s: SyncState,
    t1: int,
    t2: int,
    t3: int,
    t4: int,
    peer: Seq<char>,
)
    ensures
        s.after_response(t1, t2, t3, t4, peer).measured,
        s.offset == 0 ==> s.after_response(t1, t2, t3, t4, peer).offset == measured_offset(
            t1,
            t2,
            t3,
            t4,
        ),
{
}

/// A sum lies between as many times the smallest and the largest element.
proof fn lemma_sum_between(s: Seq<i64>, lo: int, hi: int)
    requires
        forall|i: int| 0 <= i < s.len() ==> lo <= #[trigger] s[i] <= hi,
    ensures
        lo * s.len() <= sum(s) <= hi * s.len(),
    decreases s.len(),
{
    if s.len() > 0 {
        let init = s.drop_last();
        assert forall|i: int| 0 <= i < init.len() implies lo <= #[trigger] init[i] <= hi by {
            assert(init[i] == s[i]);
        }
        lemma_sum_between(init, lo, hi);
        assert(lo * s.len() == lo * init.len() + lo) by (nonlinear_arith)
            requires
                s.len() == init.len() + 1,
        ;
        assert(hi * s.len() == hi * init.len() + hi) by (nonlinear_arith)
            requires
                s.len() == init.len() + 1,
        ;
    }
}

/// The average round-trip time of a peer lies between any bounds that hold for
/// all of its samples.
pub proof fn law_average_is_between_the_samples(s: SyncState, peer: Seq<char>, lo: int, hi: int)
    requires
        forall|i: int|
            0 <= i < s.samples_of(peer).len() ==> lo <= #[trigger] s.samples_of(peer)[i] <= hi,
    ensures
        s.average_rtt(peer) matches Some(average) ==> lo <= average <= hi,
{
    let samples = s.samples_of(peer);
    if samples.len() > 0 {
        lemma_sum_between(samples, lo, hi);
        lemma_trunc_div_between(sum(samples), samples.len() as int, lo, hi);
    }
}

/// A response of a peer and the time at which it arrived.
pub struct Response {
    pub peer: Seq<char>,
    pub t1: int,
    pub t2: int,
    pub t3: int,
    pub t4: int,
}

/// The state after a series of responses.
pub open spec fn after_responses(s: SyncState, responses: Seq<Response>) -> SyncState
    decreases responses.len(),
{
    if responses.len() == 0 {
        s
    } else {
        let r = responses.last();
        after_responses(s, responses.drop_last()).after_response(r.t1, r.t2, r.t3, r.t4, r.peer)
    }
}

/// The round-trip times that a series of responses shows for a peer.
pub open spec fn rtts_of(responses: Seq<Response>, peer: Seq<char>) -> Seq<i64>
    decreases responses.len(),
{
    if responses.len() == 0 {
        Seq::empty()
    } else {
        let r = responses.last();
        let before = rtts_of(responses.drop_last(), peer);
        if r.peer == peer {
            before.push(round_trip(r.t1, r.t2, r.t3, r.t4) as i64)
        } else {
            before
        }
    }
}

/// However many responses come in, and from whomever: what is kept of a peer
/// are its most recent round-trip times, up to the number to be kept, in the
/// order in which they came.
pub proof fn law_recent_samples_are_kept(s: SyncState, responses: Seq<Response>, peer: Seq<char>)
    requires
        s.bounded(),
    ensures
        after_responses(s, responses).samples_of(peer) == recent(
            s.samples_of(peer) + rtts_of(responses, peer),
            s.max_samples,
        ),
        after_responses(s, responses).max_samples == s.max_samples,
        after_responses(s, responses).bounded(),
    decreases responses.len(),
{
    if responses.len() == 0 {
        assert(s.samples_of(peer) + rtts_of(responses, peer) =~= s.samples_of(peer));
    } else {
        let r = responses.last();
        let init = responses.drop_last();
        law_recent_samples_are_kept(s, init, peer);
        if r.peer == peer {
            let x = round_trip(r.t1, r.t2, r.t3, r.t4) as i64;
            let all = s.samples_of(peer) + rtts_of(init, peer);
            lemma_recent_push(all, x, s.max_samples);
            assert(all.push(x) =~= s.samples_of(peer) + rtts_of(responses, peer));
        }
    }
}

/// The average of a peer after a series of responses is the average of its most
/// recent round-trip times, rounded toward zero: of as many as are to be kept,
/// or of all if there are fewer. There is none if none came or none is kept.
pub proof fn law_average_is_of_the_recent_samples(
    max_samples: nat,
    responses: Seq<Response>,
    peer: Seq<char>,
)
    ensures
        ({
            let kept = recent(rtts_of(responses, peer), max_samples);
            after_responses(SyncState::fresh(max_samples), responses).average_rtt(peer)
                == if kept.len() == 0 {
                None::<int>
            } else {
                Some(trunc_div(sum(kept), kept.len() as int))
            }
        }),
{
    let fresh = SyncState::fresh(max_samples);
    law_recent_samples_are_kept(fresh, responses, peer);
    assert(fresh.samples_of(peer) + rtts_of(responses, peer) =~= rtts_of(responses, peer));
}

/// However many responses come in: as long as each measures an offset between
/// two bounds, the offset is between them, if it was before or if there was none.
pub proof fn law_offset_stays_in_range(
    s: SyncState,
    responses: Seq<Response>,
    lo: int,
    hi: int,
)
    requires
        responses.len() >= 1,
        s.offset == 0 || lo <= s.offset <= hi,
        forall|i: int|
            0 <= i < responses.len() ==> lo <= measured_offset(
                (#[trigger] responses[i]).t1,
                responses[i].t2,
                responses[i].t3,
                responses[i].t4,
            ) <= hi,
    ensures
        lo <= after_responses(s, responses).offset <= hi,
    decreases responses.len(),
{
    let r = responses.last();
    let init = responses.drop_last();
    let before = after_responses(s, init).offset;
    let measured = measured_offset(r.t1, r.t2, r.t3, r.t4);
    assert(responses[responses.len() - 1] == r);
    if init.len() >= 1 {
        assert forall|i: int| 0 <= i < init.len() implies lo <= measured_offset(
            (#[trigger] init[i]).t1,
            init[i].t2,
            init[i].t3,
            init[i].t4,
        ) <= hi by {
            assert(init[i] == responses[i]);
        }
        law_offset_stays_in_range(s, init, lo, hi);
    }
    law_smoothing_stays_between(before, measured);
}

// ---- Scheduling ----

/// A network timestamp that a node schedules some time ahead is due on that
/// node after exactly that time, whatever its clock offset is.
pub proof fn law_schedule_is_met(offset: int, now: int, delay: int, later: int)
    ensures
        wait_micros(offset, due_at(offset, now, delay), later) == delay - (later - now),
{
}

/// If network time is what the local clock of each node reads plus the node's
/// offset, then what one node schedules is due on every other node after the
/// same stretch of network time: all act at the same instant.
pub proof fn law_nodes_act_at_the_same_instant(
    sender_offset: int,
    receiver_offset: int,
    network_sent: int,
    network_received: int,
    delay: int,
)
    ensures
        wait_micros(
            receiver_offset,
            due_at(sender_offset, to_local(sender_offset, network_sent), delay),
            to_local(receiver_offset, network_received),
        ) == delay - (network_received - network_sent),
{
}

/// Let the leader's clock be ahead of a follower's by `ahead`, and let the
/// follower hold that as its offset. A command that the leader, with no offset
/// of its own, sends at its time `sent` is then carried out by the follower at
/// the instant that the leader scheduled, by the leader's clock.
pub proof fn law_follower_acts_on_time(ahead: int, sent: int, delay: int, follower_received: int)
    ensures
        ({
            let leader_received = follower_received + ahead;
            let wait = wait_micros(ahead, due_at(0, sent, delay), follower_received);
            leader_received + wait == sent + delay
        }),
{
}

/// A follower whose offset comes from one exchange with the leader, with the
/// round-trip time `there + back`, carries out a command off the instant that
/// the leader scheduled by at most half of that time, rounded up.
pub proof fn law_follower_is_off_by_half_a_round_trip(
    t1: int,
    ahead: int,
    there: int,
    held: int,
    back: int,
    sent: int,
    delay: int,
    follower_received: int,
)
    requires
        there >= 0,
        held >= 0,
        back >= 0,
    ensures
        ({
            let t2 = t1 + there + ahead;
            let t3 = t2 + held;
            let t4 = t3 - ahead + back;
            let offset = measured_offset(t1, t2, t3, t4);
            let leader_received = follower_received + ahead;
            let wait = wait_micros(offset, due_at(0, sent, delay), follower_received);
            let rtt = round_trip(t1, t2, t3, t4);
            -(rtt + 1) <= 2 * ((leader_received + wait) - (sent + delay)) <= rtt + 1
        }),
{
    law_exchange_shows_offset(t1, ahead, there, held, back);
}

/// However many exchanges a follower goes through: as long as each measures the
/// leader's lead `ahead` with an error of at most `error`, a command is carried
/// out off the instant that the leader scheduled by at most `error`.
pub proof fn law_follower_stays_on_time(
    s: SyncState,
    responses: Seq<Response>,
    ahead: int,
    error: int,
    sent: int,
    delay: int,
    follower_received: int,
)
    requires
        responses.len() >= 1,
        s.offset == 0 || ahead - error <= s.offset <= ahead + error,
        forall|i: int|
            0 <= i < responses.len() ==> ahead - error <= measured_offset(
                (#[trigger] responses[i]).t1,
                responses[i].t2,
                responses[i].t3,
                responses[i].t4,
            ) <= ahead + error,
    ensures
        ({
            let offset = after_responses(s, responses).offset;
            let leader_received = follower_received + ahead;
            let wait = wait_micros(offset, due_at(0, sent, delay), follower_received);
            -error <= (leader_received + wait) - (sent + delay) <= error
        }),
{
    law_offset_stays_in_range(s, responses, ahead - error, ahead + error);
}

// ---- Messages ----

/// A node ignores what it sent itself, except for recording commands.
pub proof fn law_own_messages_are_ignored(node: NodeView, msg: MessageView, now: int)
    requires
        msg.sender() == Some(node.node_id),
    ensures
        node.step(msg, now) == (node, ActionView::Nothing),
        node.step_fits(msg, now),
{
}

/// The state after a series of messages, each with the time at which it came.
pub open spec fn after_messages(node: NodeView, messages: Seq<(MessageView, int)>) -> NodeView
    decreases messages.len(),
{
    if messages.len() == 0 {
        node
    } else {
        let (msg, now) = messages.last();
        after_messages(node, messages.drop_last()).step(msg, now).0
    }
}

/// Whatever messages come in: a node keeps its name and its role, never lists
/// itself among its peers, never forgets a peer, and keeps no more samples per
/// peer than it is to.
pub proof fn law_messages_keep_the_node_consistent(
    node: NodeView,
    messages: Seq<(MessageView, int)>,
)
    requires
        !node.peers.contains_key(node.node_id),
        node.sync.bounded(),
    ensures
        ({
            let after = after_messages(node, messages);
            &&& after.node_id == node.node_id
            &&& after.role == node.role
            &&& !after.peers.contains_key(node.node_id)
            &&& node.peers.dom().subset_of(after.peers.dom())
            &&& after.sync.bounded()
            &&& after.sync.max_samples == node.sync.max_samples
        }),
    decreases messages.len(),
{
    if messages.len() != 0 {
        law_messages_keep_the_node_consistent(node, messages.drop_last());
    }
}

/// A peer that announced itself is known from then on with the role and the
/// time of the announcement, and counts as idle.
pub proof fn law_discovery_makes_known(
    node: NodeView,
    peer: Seq<char>,
    role: NodeRole,
    timestamp: i64,
    now: int,
)
    requires
        peer != node.node_id,
    ensures
        ({
            let after = node.step(
                MessageView::Discovery { node_id: peer, role, timestamp },
                now,
            ).0;
            &&& after.peers.contains_key(peer)
            &&& after.peers[peer] == (PeerInfo {
                role,
                last_seen: timestamp,
                state: NodeState::Idle,
            })
            &&& after.sync == node.sync
            &&& forall|other: Seq<char>|
                other != peer ==> (#[trigger] after.peers.contains_key(other)
                    == node.peers.contains_key(other)) && (node.peers.contains_key(other)
                    ==> after.peers[other] == node.peers[other])
        }),
{
}

/// A status report shows in what is known of a peer that announced itself
/// before, whose role stays; from any other node it changes nothing.
pub proof fn law_status_updates_known_peers(
    node: NodeView,
    peer: Seq<char>,
    state: NodeState,
    timestamp: i64,
    now: int,
)
    requires
        peer != node.node_id,
    ensures
        ({
            let after = node.step(
                MessageView::Status { node_id: peer, state, timestamp },
                now,
            ).0;
            if node.peers.contains_key(peer) {
                &&& after.peers.dom() == node.peers.dom()
                &&& after.peers[peer].state == state
                &&& after.peers[peer].last_seen == timestamp
                &&& after.peers[peer].role == node.peers[peer].role
                &&& after.sync == node.sync
            } else {
                after == node
            }
        }),
{
    if node.peers.contains_key(peer) {
        let after = node.step(MessageView::Status { node_id: peer, state, timestamp }, now).0;
        assert(after.peers.dom() =~= node.peers.dom());
    }
}

/// Only a time sync response from another node moves the clock offset.
pub proof fn law_only_responses_move_the_clock(node: NodeView, msg: MessageView, now: int)
    requires
        !(msg is TimeSyncResponse) || msg.sender() == Some(node.node_id),
    ensures
        node.step(msg, now).0.sync == node.sync,
{
}

/// A time sync request is answered by leaders only, and the answer carries the
/// time of the request and the time at which it arrived.
pub proof fn law_only_leaders_answer(node: NodeView, peer: Seq<char>, t1: i64, now: i64)
    requires
        peer != node.node_id,
    ensures
        node.step(MessageView::TimeSyncRequest { node_id: peer, t1 }, now as int) == (
            node,
            if node.role == NodeRole::Leader {
                ActionView::RespondTimeSync { t1, t2: now }
            } else {
                ActionView::Nothing
            },
        ),
{
}

/// A whole exchange between a leader whose clock is ahead by `ahead` and a
/// follower that has no offset or holds just that: if request and response
/// travel for the same time, the follower's offset is `ahead` afterwards.
pub proof fn law_exchange_synchronizes(
    follower: NodeView,
    leader: NodeView,
    t1: i64,
    t2: i64,
    t3: i64,
    t4: i64,
    ahead: int,
    travel: int,
)
    requires
        follower.node_id != leader.node_id,
        follower.sync.offset == 0 || follower.sync.offset == ahead,
        leader.role == NodeRole::Leader,
        travel >= 0,
        t2 == t1 + travel + ahead,
        t3 >= t2,
        t4 == t3 - ahead + travel,
    ensures
        leader.step(
            MessageView::TimeSyncRequest { node_id: follower.node_id, t1 },
            t2 as int,
        ).1 == (ActionView::RespondTimeSync { t1, t2 }),
        follower.step(
            MessageView::TimeSyncResponse { node_id: leader.node_id, t1, t2, t3 },
            t4 as int,
        ).0.sync.offset == ahead,
        follower.step(
            MessageView::TimeSyncResponse { node_id: leader.node_id, t1, t2, t3 },
            t4 as int,
        ).0.sync.measured,
{
    law_exchange_shows_offset(t1 as int, ahead, travel, t3 - t2, travel);
    law_smoothing_stays_between(follower.sync.offset, ahead);
}

/// Every recording command leads to exactly its own event on every node that
/// receives it, and leaves the node as it was: at once if it is due, and
/// otherwise after exactly the time that is left.
pub proof fn law_commands_are_carried_out(
    node: NodeView,
    command: RecordingCmd,
    target_timestamp: i64,
    role: NodeRole,
    now: int,
)
    ensures
        ({
            let msg = MessageView::RecordingCommand { command, target_timestamp, role };
            let wait = wait_micros(node.sync.offset, target_timestamp as int, now);
            let (after, action) = node.step(msg, now);
            &&& after == node
            &&& wait <= 0 ==> (action matches ActionView::RecordNow { event, .. } && event
                == event_of(command))
            &&& wait > 0 ==> (action matches ActionView::RecordLater { event, delay_micros, .. }
                && event == event_of(command) && delay_micros == wait)
        }),
{
}

/// A node that sends a recording command carries it out itself, exactly the
/// given delay after it was sent.
pub proof fn law_sender_follows_its_command(
    node: NodeView,
    command: RecordingCmd,
    delay_ms: int,
    sent: int,
    received: int,
)
    requires
        node.command_fits(delay_ms, sent),
    ensures
        ({
            let left = delay_ms * 1000 - (received - sent);
            let action = node.step(node.command_message(command, delay_ms, sent), received).1;
            &&& left > 0 ==> (action matches ActionView::RecordLater { event, delay_micros, .. }
                && event == event_of(command) && delay_micros == left)
            &&& left <= 0 ==> (action matches ActionView::RecordNow { event, .. } && event
                == event_of(command))
        }),
{
}

/// If network time is what the clock of each node reads plus the node's offset,
/// a command is carried out by the receiver when the network time is the sending
/// time plus the delay.
pub proof fn law_receivers_follow_in_step(
    sender: NodeView,
    receiver: NodeView,
    command: RecordingCmd,
    delay_ms: int,
    network_sent: int,
    network_received: int,
)
    requires
        sender.command_fits(delay_ms, to_local(sender.sync.offset, network_sent)),
    ensures
        ({
            let msg = sender.command_message(
                command,
                delay_ms,
                to_local(sender.sync.offset, network_sent),
            );
            let left = network_sent + delay_ms * 1000 - network_received;
            let action = receiver.step(
                msg,
                to_local(receiver.sync.offset, network_received),
            ).1;
            &&& left > 0 ==> (action matches ActionView::RecordLater { event, delay_micros, .. }
                && event == event_of(command) && delay_micros == left)
            &&& left <= 0 ==> (action matches ActionView::RecordNow { event, .. } && event
                == event_of(command))
        }),
{
    law_nodes_act_at_the_same_instant(
        sender.sync.offset,
        receiver.sync.offset,
        network_sent,
        network_received,
        delay_ms * 1000,
    );
}

/// Leader and follower start and stop together. Let a follower that has no
/// offset, or holds the right one, go through an exchange with a leader whose
/// clock is ahead by `ahead`, with request and response travelling for the same
/// time. If it then receives, when its own clock reads `received`, a command that the leader sent
/// at its time `sent`, it carries the command out when the leader's clock reads
/// `sent` plus the delay, or at once if that has passed.
pub proof fn law_synchronized_follower_acts_with_the_leader(
    follower: NodeView,
    leader: NodeView,
    t1: i64,
    t2: i64,
    t3: i64,
    t4: i64,
    ahead: int,
    travel: int,
    command: RecordingCmd,
    delay_ms: int,
    sent: int,
    received: int,
)
    requires
        follower.node_id != leader.node_id,
        follower.sync.offset == 0 || follower.sync.offset == ahead,
        leader.role == NodeRole::Leader,
        leader.sync.offset == 0,
        travel >= 0,
        t2 == t1 + travel + ahead,
        t3 >= t2,
        t4 == t3 - ahead + travel,
        leader.command_fits(delay_ms, sent),
    ensures
        ({
            let synchronized = follower.step(
                MessageView::TimeSyncResponse { node_id: leader.node_id, t1, t2, t3 },
                t4 as int,
            ).0;
            let msg = leader.command_message(command, delay_ms, sent);
            let action = synchronized.step(msg, received).1;
            let leader_received = received + ahead;
            let left = sent + delay_ms * 1000 - leader_received;
            &&& left > 0 ==> (action matches ActionView::RecordLater { event, delay_micros, .. }
                && event == event_of(command) && delay_micros == left)
            &&& left <= 0 ==> (action matches ActionView::RecordNow { event, .. } && event
                == event_of(command))
        }),
{
    law_exchange_synchronizes(follower, leader, t1, t2, t3, t4, ahead, travel);
    law_follower_acts_on_time(ahead, sent, delay_ms * 1000, received);
}

// ---- Recording ----

/// A state that is turned into a number and back is the same state.
pub proof fn law_state_number_is_reversible(state: RecordingState)
    ensures
        RecordingState::of_number(state.number()) == state,
{
}

/// A pipeline is started only if none runs and stopped only if one runs; a
/// request for what is the case already changes nothing.
pub proof fn law_one_pipeline_at_a_time(recorder: RecorderView, event: RecordingEvent)
    requires
        recorder.valid(),
    ensures
        ({
            let (after, action) = recorder.on_event(event);
            &&& action == RecorderAction::StartPipeline ==> !recorder.running && after.starting()
            &&& action == RecorderAction::StopPipeline ==> recorder.running && after.stopping()
            &&& action == RecorderAction::ReportAlreadyRecording ==> recorder.running && after
                == recorder
            &&& action == RecorderAction::ReportNotRecording ==> !recorder.running && after
                == recorder
        }),
{
}

/// The state after an event, with what came of the pipeline: `works` tells
/// whether a pipeline that is to be started can be.
pub open spec fn recorded(recorder: RecorderView, event: RecordingEvent, works: bool) -> RecorderView {
    let (after, action) = recorder.on_event(event);
    match action {
        RecorderAction::StartPipeline => RecorderView::started(works),
        RecorderAction::StopPipeline => RecorderView::initial(),
        _ => after,
    }
}

/// The state after a series of events.
pub open spec fn after_events(
    recorder: RecorderView,
    events: Seq<(RecordingEvent, bool)>,
) -> RecorderView
    decreases events.len(),
{
    if events.len() == 0 {
        recorder
    } else {
        let (event, works) = events.last();
        recorded(after_events(recorder, events.drop_last()), event, works)
    }
}

/// Whatever events come in: a node with a running pipeline counts as recording,
/// and no node is left in the middle of stopping.
pub proof fn law_events_keep_the_recorder_valid(events: Seq<(RecordingEvent, bool)>)
    ensures
        after_events(RecorderView::initial(), events).valid(),
        after_events(RecorderView::initial(), events).state != RecordingState::Stopping,
    decreases events.len(),
{
    if events.len() != 0 {
        law_events_keep_the_recorder_valid(events.drop_last());
    }
}

/// Stopping a running pipeline makes the recorder as it was at first, so that
/// the user may quit; without a running pipeline it changes nothing.
pub proof fn law_stop_restores_the_recorder(recorder: RecorderView, works: bool)
    requires
        recorder.valid(),
    ensures
        recorded(recorder, RecordingEvent::Stop, works) == if recorder.running {
            RecorderView::initial()
        } else {
            recorder
        },
{
}

// ---- Ending a recording ----

/// The phase after a series of events.
pub open spec fn after_stop_events(phase: StopPhase, events: Seq<StopEvent>) -> StopPhase
    decreases events.len(),
{
    if events.len() == 0 {
        phase
    } else {
        after_stop_events(phase, events.drop_last()).after(events.last())
    }
}

/// Whether each event of a series is one that was waited for.
pub open spec fn expected(phase: StopPhase, events: Seq<StopEvent>) -> bool
    decreases events.len(),
{
    events.len() == 0 || (expected(phase, events.drop_last()) && after_stop_events(
        phase,
        events.drop_last(),
    ).expects(events.last()))
}

/// Whether a phase claims that the end of the stream was seen.
pub open spec fn claims_finalized(phase: StopPhase) -> bool {
    match phase {
        StopPhase::Pause { finalized } => finalized,
        StopPhase::RestPaused { finalized } => finalized,
        StopPhase::Release { finalized } => finalized,
        StopPhase::RestReleased { finalized } => finalized,
        StopPhase::Done { finalized } => finalized,
        _ => false,
    }
}

/// A recording counts as finalized only if the bus told that the stream ended.
pub proof fn law_finalized_means_end_of_stream(events: Seq<StopEvent>)
    requires
        claims_finalized(after_stop_events(StopPhase::SendEos, events)),
    ensures
        events.contains(StopEvent::Polled { message: Some(BusMessage::Eos) }),
    decreases events.len(),
{
    if events.len() != 0 {
        let eos = StopEvent::Polled { message: Some(BusMessage::Eos) };
        let init = events.drop_last();
        if claims_finalized(after_stop_events(StopPhase::SendEos, init)) {
            law_finalized_means_end_of_stream(init);
            let i = choose|i: int| 0 <= i < init.len() && init[i] == eos;
            assert(events[i] == eos);
        } else {
            assert(events[events.len() - 1] == eos);
        }
    }
}

/// How often the pipeline's state was set.
pub open spec fn states_set(events: Seq<StopEvent>) -> nat
    decreases events.len(),
{
    if events.len() == 0 {
        0
    } else {
        states_set(events.drop_last()) + if events.last() == (StopEvent::StateSet {
            accepted: true,
        }) {
            1nat
        } else {
            0
        }
    }
}

/// A recording that has ended went through both changes of the pipeline's
/// state: it was paused and then released.
pub proof fn law_done_means_paused_and_released(events: Seq<StopEvent>)
    requires
        expected(StopPhase::SendEos, events),
    ensures
        match after_stop_events(StopPhase::SendEos, events) {
            StopPhase::RestPaused { .. } => states_set(events) == 1,
            StopPhase::Release { .. } => states_set(events) == 1,
            StopPhase::RestReleased { .. } => states_set(events) == 2,
            StopPhase::Done { .. } => states_set(events) == 2,
            StopPhase::Failed { .. } => states_set(events) <= 1,
            _ => states_set(events) == 0,
        },
    decreases events.len(),
{
    if events.len() != 0 {
        law_done_means_paused_and_released(events.drop_last());
    }
}

// ---- Repeated messages ----

/// What a task has done after some steps.
pub struct TaskTotal {
    pub task: TaskView,
    pub sent: nat,
    pub slept_ms: nat,
}

/// What a task has done after `n` steps during which the node runs.
pub open spec fn after_steps(task: TaskView, n: nat) -> TaskTotal
    decreases n,
{
    if n == 0 {
        TaskTotal { task, sent: 0, slept_ms: 0 }
    } else {
        let before = after_steps(task, (n - 1) as nat);
        let (next, action) = before.task.step(true);
        TaskTotal {
            task: next,
            sent: before.sent + if action is Send {
                1nat
            } else {
                0
            },
            slept_ms: before.slept_ms + match action {
                TaskAction::Sleep { millis } => millis as nat,
                _ => 0nat,
            },
        }
    }
}

/// A running node announces itself at once and then every two seconds: it has
/// waited for `k` times two seconds when it sends for the `k + 1`-th time.
pub proof fn law_discovery_every_two_seconds(k: nat)
    ensures
        after_steps(TaskView::discovery(), 2 * k).sent == k,
        after_steps(TaskView::discovery(), 2 * k).slept_ms == 2000 * k,
        after_steps(TaskView::discovery(), 2 * k).task == TaskView::discovery(),
        TaskView::discovery().step(true).1 == (TaskAction::Send { beacon: Beacon::Discovery }),
    decreases k,
{
    if k > 0 {
        law_discovery_every_two_seconds((k - 1) as nat);
        let m = (2 * k - 2) as nat;
        assert(after_steps(TaskView::discovery(), m + 1).task.phase == TaskPhase::Sent);
        assert(2 * k == m + 2);
    }
}

/// A running follower asks for the time after one second and then every five
/// seconds.
pub proof fn law_time_sync_every_five_seconds(k: nat)
    ensures
        ({
            let total = after_steps(TaskView::time_sync(NodeRole::Follower), 2 * k + 1);
            &&& total.sent == k
            &&& total.slept_ms == 1000 + 5000 * k
            &&& total.task.step(true).1 == (TaskAction::Send { beacon: Beacon::TimeSyncRequest })
        }),
    decreases k,
{
    let task = TaskView::time_sync(NodeRole::Follower);
    if k == 0 {
        assert(after_steps(task, 0).task == task);
    } else {
        law_time_sync_every_five_seconds((k - 1) as nat);
        let m = (2 * k - 1) as nat;
        assert(after_steps(task, m).task.phase == TaskPhase::Ready);
        assert(after_steps(task, m + 1).task.phase == TaskPhase::Sent);
        assert(2 * k + 1 == m + 2);
    }
}

/// A leader never asks for the time.
pub proof fn law_leaders_do_not_ask_for_time(n: nat)
    ensures
        after_steps(TaskView::time_sync(NodeRole::Leader), n).sent == 0,
        after_steps(TaskView::time_sync(NodeRole::Leader), n).task == TaskView::time_sync(
            NodeRole::Leader,
        ),
    decreases n,
{
    if n > 0 {
        law_leaders_do_not_ask_for_time((n - 1) as nat);
    }
}

/// A node that no longer runs sends nothing.
pub proof fn law_nothing_is_sent_after_shutdown(task: TaskView)
    ensures
        !(task.step(false).1 is Send),
{
}

// ---- Text ----

/// Spaces before a text do not change its words.
proof fn lemma_words_after_spaces(pad: Seq<char>, s: Seq<char>)
    requires
        forall|i: int| 0 <= i < pad.len() ==> is_space(#[trigger] pad[i]),
    ensures
        words(pad + s) == words(s),
    decreases pad.len(),
{
    if pad.len() == 0 {
        assert(pad + s =~= s);
    } else {
        let rest = pad.drop_first();
        assert forall|i: int| 0 <= i < rest.len() implies is_space(#[trigger] rest[i]) by {
            assert(rest[i] == pad[i + 1]);
        }
        lemma_words_after_spaces(rest, s);
        assert((pad + s)[0] == pad[0]);
        assert((pad + s).drop_first() =~= rest + s);
    }
}

/// Spaces after a text do not change the length of its first word.
proof fn lemma_word_len_before_spaces(s: Seq<char>, pad: Seq<char>)
    requires
        forall|i: int| 0 <= i < pad.len() ==> is_space(#[trigger] pad[i]),
    ensures
        word_len(s + pad) == word_len(s),
    decreases s.len(),
{
    if s.len() == 0 {
        assert(s + pad =~= pad);
    } else {
        assert((s + pad)[0] == s[0]);
        assert((s + pad).drop_first() =~= s.drop_first() + pad);
        lemma_word_len_before_spaces(s.drop_first(), pad);
    }
}

/// Spaces after a text do not change its words.
proof fn lemma_words_before_spaces(s: Seq<char>, pad: Seq<char>)
    requires
        forall|i: int| 0 <= i < pad.len() ==> is_space(#[trigger] pad[i]),
    ensures
        words(s + pad) == words(s),
    decreases s.len(),
{
    if s.len() == 0 {
        lemma_words_after_spaces(pad, s);
        assert(s + pad =~= pad + s);
    } else if is_space(s[0]) {
        assert((s + pad)[0] == s[0]);
        assert((s + pad).drop_first() =~= s.drop_first() + pad);
        lemma_words_before_spaces(s.drop_first(), pad);
    } else {
        lemma_word_len(s);
        lemma_word_len_before_spaces(s, pad);
        let n = word_len(s) as int;
        assert((s + pad)[0] == s[0]);
        assert((s + pad).take(n) =~= s.take(n));
        assert((s + pad).skip(n) =~= s.skip(n) + pad);
        lemma_words_before_spaces(s.skip(n), pad);
    }
}

/// What a user types means the same with spaces before and after it, such as
/// the end of the line.
pub proof fn law_surrounding_spaces_do_not_matter(before: Seq<char>, s: Seq<char>, after: Seq<char>)
    requires
        forall|i: int| 0 <= i < before.len() ==> is_space(#[trigger] before[i]),
        forall|i: int| 0 <= i < after.len() ==> is_space(#[trigger] after[i]),
    ensures
        words(before + s + after) == words(s),
{
    lemma_words_before_spaces(before + s, after);
    lemma_words_after_spaces(before, s);
}

} // verus!
