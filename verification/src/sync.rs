//! Clock synchronization by timestamp exchange, and scheduling on the
//! synchronized time.

use crate::arith::{
    fits, in_range, lemma_trunc_div_between, recent, sum, sums_fit, trunc_div,
};
use crate::name_map::NameMap;
use vstd::prelude::*;

verus! {

/// Round-trip time of an exchange, without the time that the server held it.
pub open spec fn round_trip(t1: int, t2: int, t3: int, t4: int) -> int {
    (t4 - t1) - (t3 - t2)
}

/// Clock offset that one exchange shows: half of `(t2 - t1) + (t3 - t4)`.
pub open spec fn measured_offset(t1: int, t2: int, t3: int, t4: int) -> int {
    trunc_div((t2 - t1) + (t3 - t4), 2)
}

/// The offset after a new measurement: while the known offset is 0 a measurement
/// is taken as it is, otherwise it counts for a fifth against what was known.
pub open spec fn smoothed(current: int, measured: int) -> int {
    if current == 0 {
        measured
    } else {
        trunc_div(current * 8 + measured * 2, 10)
    }
}

/// Network time of a local timestamp, for a node with the given clock offset.
pub open spec fn to_network(offset: int, local_time: int) -> int {
    local_time + offset
}

/// Local time of a network timestamp, for a node with the given clock offset.
pub open spec fn to_local(offset: int, network_time: int) -> int {
    network_time - offset
}

/// Microseconds from a local time until a network timestamp is due.
pub open spec fn wait_micros(offset: int, network_timestamp: int, local_time: int) -> int {
    to_local(offset, network_timestamp) - local_time
}

/// Network timestamp that lies the given time after a local time.
pub open spec fn due_at(offset: int, local_time: int, delay: int) -> int {
    to_network(offset, local_time + delay)
}

/// What a [`TimeSyncManager`] knows.
#[verifier::ext_equal]
pub struct SyncState {
    /// Clock offset in microseconds (network time = local time + offset).
    pub offset: int,
    /// Whether an offset was measured.
    pub measured: bool,
    /// Round-trip times of each peer, oldest first.
    pub samples: Map<Seq<char>, Seq<i64>>,
    /// How many of them are kept per peer.
    pub max_samples: nat,
}

impl SyncState {
    /// Nothing measured yet.
    pub open spec fn fresh(max_samples: nat) -> SyncState {
        SyncState { offset: 0, measured: false, samples: Map::empty(), max_samples }
    }

    /// The round-trip times kept of a peer; none for an unknown peer.
    pub open spec fn samples_of(self, peer: Seq<char>) -> Seq<i64> {
        if self.samples.contains_key(peer) {
            self.samples[peer]
        } else {
            Seq::empty()
        }
    }

    /// No peer has more samples than are to be kept.
    pub open spec fn bounded(self) -> bool {
        forall|peer: Seq<char>| #[trigger]
            self.samples.contains_key(peer) ==> self.samples[peer].len() <= self.max_samples
    }

    /// The state after the response of a peer.
    pub open spec fn after_response(
        self,
        t1: int,
        t2: int,
        t3: int,
        t4: int,
        peer: Seq<char>,
    ) -> SyncState {
        SyncState {
            offset: smoothed(self.offset, measured_offset(t1, t2, t3, t4)),
            measured: true,
            samples: self.samples.insert(
                peer,
                recent(
                    self.samples_of(peer).push(round_trip(t1, t2, t3, t4) as i64),
                    self.max_samples,
                ),
            ),
            max_samples: self.max_samples,
        }
    }

    /// Whether every intermediate result of processing a response is in range.
    pub open spec fn response_fits(self, t1: int, t2: int, t3: int, t4: int) -> bool {
        let measured = measured_offset(t1, t2, t3, t4);
        &&& fits(t4 - t1)
        &&& fits(t3 - t2)
        &&& fits(round_trip(t1, t2, t3, t4))
        &&& fits(t2 - t1)
        &&& fits(t3 - t4)
        &&& fits((t2 - t1) + (t3 - t4))
        &&& self.offset != 0 ==> {
            &&& fits(self.offset * 8)
            &&& fits(measured * 2)
            &&& fits(self.offset * 8 + measured * 2)
        }
    }

    /// Average of the round-trip times kept of a peer, rounded toward zero.
    pub open spec fn average_rtt(self, peer: Seq<char>) -> Option<int> {
        let s = self.samples_of(peer);
        if s.len() == 0 {
            None
        } else {
            Some(trunc_div(sum(s), s.len() as int))
        }
    }
}

/// What one exchange showed.
#[derive(Debug, Clone, Copy, PartialEq, Eq, Structural)]
pub struct SyncMeasurement {
    pub offset: i64,
    pub rtt: i64,
}

/// Keeps the clock offset of this node and the round-trip times of its peers.
pub struct TimeSyncManager {
    clock_offset: i64,
    measured: bool,
    rtt_measurements: NameMap<Vec<i64>>,
    max_samples: usize,
}

impl View for TimeSyncManager {
    type V = SyncState;

    closed spec fn view(&self) -> SyncState {
        SyncState {
            offset: self.clock_offset as int,
            measured: self.measured,
            samples: self.rtt_measurements@.map_values(|v: Vec<i64>| v@),
            max_samples: self.max_samples as nat,
        }
    }
}

impl TimeSyncManager {
    pub closed spec fn wf(&self) -> bool {
        &&& self.rtt_measurements.wf()
        &&& self@.bounded()
        &&& !self@.measured ==> self@ == SyncState::fresh(self@.max_samples)
    }

    /// The offset is a timestamp, no peer has more samples than are to be kept,
    /// and without a measurement there is neither offset nor sample.
    pub proof fn lemma_wf(&self)
        requires
            self.wf(),
        ensures
            fits(self@.offset),
            self@.max_samples <= usize::MAX,
            self@.bounded(),
            !self@.measured ==> self@ == SyncState::fresh(self@.max_samples),
    {
    }

    /// Keeps up to `max_samples` round-trip times per peer.
    pub fn new(max_samples: usize) -> (r: Self)
        ensures
            r.wf(),
            r@ == SyncState::fresh(max_samples as nat),
    {
        let r = TimeSyncManager {
            clock_offset: 0,
            measured: false,
            rtt_measurements: NameMap::new(),
            max_samples,
        };
        assert(r@ =~= SyncState::fresh(max_samples as nat));
        r
    }

    /// Whether [`process_sync_response`](Self::process_sync_response) takes
    /// these timestamps: no difference or weighted sum of them may leave the
    /// range of a timestamp.
    pub fn can_process(&self, t1: i64, t2: i64, t3: i64, t4: i64) -> (r: bool)
        ensures
            r == self@.response_fits(t1 as int, t2 as int, t3 as int, t4 as int),
    {
        let out: i128 = t4 as i128 - t1 as i128;
        let held: i128 = t3 as i128 - t2 as i128;
        let there: i128 = t2 as i128 - t1 as i128;
        let back: i128 = t3 as i128 - t4 as i128;
        if !(in_range(out) && in_range(held) && in_range(out - held) && in_range(there)
            && in_range(back) && in_range(there + back)) {
            return false;
        }
        if self.clock_offset == 0 {
            return true;
        }
        let measured: i128 = (there + back) / 2;
        let kept: i128 = self.clock_offset as i128 * 8;
        in_range(kept) && in_range(measured * 2) && in_range(kept + measured * 2)
    }

    /// Takes in the response of a peer.
    /// - `t1`: client timestamp when the request was sent
    /// - `t2`: server timestamp when the request was received
    /// - `t3`: server timestamp when the response was sent
    /// - `t4`: client timestamp when the response was received
    pub fn process_sync_response(
        &mut self,
        t1: i64,
        t2: i64,
        t3: i64,
        t4: i64,
        peer_id: &str,
    ) -> (r: SyncMeasurement)
        requires
            old(self).wf(),
            old(self)@.response_fits(t1 as int, t2 as int, t3 as int, t4 as int),
        ensures
            final(self).wf(),
            final(self)@ == old(self)@.after_response(
                t1 as int,
                t2 as int,
                t3 as int,
                t4 as int,
                peer_id@,
            ),
            r.rtt == round_trip(t1 as int, t2 as int, t3 as int, t4 as int),
            r.offset == measured_offset(t1 as int, t2 as int, t3 as int, t4 as int),
    {
        let ghost before = *self;
        let rtt: i64 = (t4 - t1) - (t3 - t2);
        let offset: i64 = ((t2 - t1) + (t3 - t4)) / 2;

        let peer: String = peer_id.to_owned();
        let mut measurements: Vec<i64> = match self.rtt_measurements.get(&peer) {
            Some(known) => known.clone(),
            None => Vec::new(),
        };
        assert(measurements@ =~= before@.samples_of(peer_id@));
        measurements.push(rtt);
        if measurements.len() > self.max_samples {
            measurements.remove(0);
        }
        assert(measurements@ =~= recent(
            before@.samples_of(peer_id@).push(rtt),
            self.max_samples as nat,
        ));
        self.rtt_measurements.insert(peer, measurements);

        if self.clock_offset == 0 {
            self.clock_offset = offset;
        } else {
            self.clock_offset = (self.clock_offset * 8 + offset * 2) / 10;
        }
        self.measured = true;
        assert(self@ =~= before@.after_response(
            t1 as int,
            t2 as int,
            t3 as int,
            t4 as int,
            peer_id@,
        ));
        SyncMeasurement { offset, rtt }
    }

    /// The current clock offset.
    pub fn get_clock_offset(&self) -> (r: i64)
        ensures
            r == self@.offset,
    {
        self.clock_offset
    }

    /// Synchronized network timestamp of a local timestamp.
    pub fn local_to_network_time(&self, local_time: i64) -> (r: i64)
        requires
            fits(to_network(self@.offset, local_time as int)),
        ensures
            r == to_network(self@.offset, local_time as int),
    {
        local_time + self.get_clock_offset()
    }

    /// Local timestamp of a network timestamp.
    pub fn network_to_local_time(&self, network_time: i64) -> (r: i64)
        requires
            fits(to_local(self@.offset, network_time as int)),
        ensures
            r == to_local(self@.offset, network_time as int),
    {
        network_time - self.get_clock_offset()
    }

    /// Whether [`get_average_rtt`](Self::get_average_rtt) takes a peer: adding up
    /// its round-trip times may not leave the range of a timestamp.
    pub fn can_average(&self, peer_id: &str) -> (r: bool)
        requires
            self.wf(),
        ensures
            r == sums_fit(self@.samples_of(peer_id@)),
    {
        let peer: String = peer_id.to_owned();
        match self.rtt_measurements.get(&peer) {
            None => {
                proof {
                    let none = self@.samples_of(peer_id@);
                    assert forall|k: int| 0 <= k <= none.len() implies fits(
                        sum(#[trigger] none.take(k)),
                    ) by {
                        assert(none.take(k).len() == 0);
                    }
                }
                true
            },
            Some(measurements) => {
                assert(measurements@ == self@.samples_of(peer_id@));
                let mut total: i128 = 0;
                let mut i: usize = 0;
                while i < measurements.len()
                    invariant
                        i <= measurements.len(),
                        measurements@ == self@.samples_of(peer_id@),
                        total == sum(measurements@.take(i as int)),
                        forall|k: int|
                            0 <= k <= i ==> fits(sum(#[trigger] measurements@.take(k))),
                    decreases measurements.len() - i,
                {
                    let ghost next = measurements@.take(i + 1);
                    assert(next.drop_last() =~= measurements@.take(i as int));
                    assert(fits(sum(measurements@.take(i as int))));
                    total = total + measurements[i] as i128;
                    if !in_range(total) {
                        assert(!fits(sum(next)));
                        return false;
                    }
                    i = i + 1;
                }
                true
            },
        }
    }

    /// Average round-trip time of a peer; `None` if nothing is known of it.
    pub fn get_average_rtt(&self, peer_id: &str) -> (r: Option<i64>)
        requires
            self.wf(),
            sums_fit(self@.samples_of(peer_id@)),
        ensures
            match r {
                Some(average) => self@.average_rtt(peer_id@) == Some(average as int),
                None => self@.average_rtt(peer_id@) is None,
            },
    {
        let peer: String = peer_id.to_owned();
        match self.rtt_measurements.get(&peer) {
            None => None,
            Some(measurements) => {
                assert(measurements@ == self@.samples_of(peer_id@));
                if measurements.len() == 0 {
                    return None;
                }
                let mut total: i64 = 0;
                let mut i: usize = 0;
                while i < measurements.len()
                    invariant
                        i <= measurements.len(),
                        sums_fit(measurements@),
                        total == sum(measurements@.take(i as int)),
                    decreases measurements.len() - i,
                {
                    proof {
                        let next = measurements@.take(i + 1);
                        assert(next.drop_last() =~= measurements@.take(i as int));
                        assert(fits(sum(next)));
                    }
                    total = total + measurements[i];
                    i = i + 1;
                }
                assert(measurements@.take(i as int) =~= measurements@);
                let n: i128 = measurements.len() as i128;
                proof {
                    assert(i64::MIN * n <= total <= i64::MAX * n) by (nonlinear_arith)
                        requires
                            n >= 1,
                            i64::MIN <= total <= i64::MAX,
                    ;
                    lemma_trunc_div_between(total as int, n as int, i64::MIN as int, i64::MAX as int);
                }
                Some((total as i128 / n) as i64)
            },
        }
    }

    /// Whether an offset was measured.
    pub fn is_synchronized(&self) -> (r: bool)
        ensures
            r == self@.measured,
    {
        self.measured
    }

    /// Forgets all measurements.
    pub fn reset(&mut self)
        requires
            old(self).wf(),
        ensures
            final(self).wf(),
            final(self)@ == SyncState::fresh(old(self)@.max_samples),
    {
        self.clock_offset = 0;
        self.measured = false;
        self.rtt_measurements.clear();
        assert(self@ =~= SyncState::fresh(self.max_samples as nat));
    }
}

/// Computes when an action is due on the synchronized time of a manager.
#[derive(Clone, Copy)]
pub struct SyncScheduler<'a> {
    time_sync: &'a TimeSyncManager,
}

impl<'a> SyncScheduler<'a> {
    /// Clock offset of the manager in use.
    pub closed spec fn offset(&self) -> int {
        self.time_sync@.offset
    }

    pub fn new(time_sync: &'a TimeSyncManager) -> (r: Self)
        ensures
            r.offset() == time_sync@.offset,
    {
        SyncScheduler { time_sync }
    }

    /// How many microseconds there are until a network timestamp.
    pub fn micros_until(&self, network_timestamp: i64, current_local_time: i64) -> (r: i64)
        requires
            fits(to_local(self.offset(), network_timestamp as int)),
            fits(wait_micros(self.offset(), network_timestamp as int, current_local_time as int)),
        ensures
            r == wait_micros(self.offset(), network_timestamp as int, current_local_time as int),
    {
        let local_target: i64 = self.time_sync.network_to_local_time(network_timestamp);
        local_target - current_local_time
    }

    /// Whether a network timestamp has been reached.
    pub fn is_time_reached(&self, network_timestamp: i64, current_local_time: i64) -> (r: bool)
        requires
            fits(to_local(self.offset(), network_timestamp as int)),
            fits(wait_micros(self.offset(), network_timestamp as int, current_local_time as int)),
        ensures
            r == (wait_micros(self.offset(), network_timestamp as int, current_local_time as int)
                <= 0),
            r == (to_local(self.offset(), network_timestamp as int) <= current_local_time),
    {
        self.micros_until(network_timestamp, current_local_time) <= 0
    }

    /// Network timestamp that lies `offset_micros` after a local time.
    pub fn schedule_future(&self, current_local_time: i64, offset_micros: i64) -> (r: i64)
        requires
            fits(current_local_time + offset_micros),
            fits(due_at(self.offset(), current_local_time as int, offset_micros as int)),
        ensures
            r == due_at(self.offset(), current_local_time as int, offset_micros as int),
    {
        self.time_sync.local_to_network_time(current_local_time + offset_micros)
    }
}

} // verus!
