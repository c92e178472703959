use record_syncd::sync::{SyncMeasurement, SyncScheduler, TimeSyncManager};

#[test]
fn test_time_sync_offset() {
    let mut sync = TimeSyncManager::new(10);

    // Simulate a time sync exchange
    let t1 = 1000000; // Client sends at 1s
    let t2 = 1500000; // Server receives at 1.5s (server is 0.5s ahead)
    let t3 = 1501000; // Server responds 1ms later
    let t4 = 1002000; // Client receives 2ms after sending

    sync.process_sync_response(t1, t2, t3, t4, "test_peer");

    let offset = sync.get_clock_offset();
    assert!(offset != 0, "Offset should be calculated");

    // Offset should be approximately 500000 μs (0.5s)
    assert!((offset - 500000).abs() < 1000, "Offset should be ~500ms");
}

#[test]
fn test_local_to_network_conversion() {
    let mut sync = TimeSyncManager::new(10);
    sync.process_sync_response(1000000, 1500000, 1501000, 1002000, "test");

    let local_time = 2000000;
    let network_time = sync.local_to_network_time(local_time);
    let back_to_local = sync.network_to_local_time(network_time);

    assert_eq!(local_time, back_to_local, "Time conversion should be reversible");
}

#[test]
fn measurement_is_returned_exactly() {
    let mut sync = TimeSyncManager::new(10);
    let m = sync.process_sync_response(1000000, 1500000, 1501000, 1002000, "p");
    assert_eq!(m, SyncMeasurement { offset: 499500, rtt: 1000 });
    assert_eq!(sync.get_clock_offset(), 499500);
    assert_eq!(sync.local_to_network_time(2000000), 2499500);
    assert_eq!(sync.network_to_local_time(2499500), 2000000);
}

#[test]
fn symmetric_exchange_shows_the_exact_offset() {
    let mut sync = TimeSyncManager::new(10);
    // The server is 250000 behind, each way takes 300.
    let m = sync.process_sync_response(1000000, 750300, 750900, 1001200, "p");
    assert_eq!(m, SyncMeasurement { offset: -250000, rtt: 600 });
    assert_eq!(sync.get_clock_offset(), -250000);
}

#[test]
fn later_measurements_count_for_a_fifth() {
    let mut sync = TimeSyncManager::new(10);
    sync.process_sync_response(0, 1000, 1000, 0, "p");
    assert_eq!(sync.get_clock_offset(), 1000);
    sync.process_sync_response(0, 2000, 2000, 0, "p");
    assert_eq!(sync.get_clock_offset(), 1200);
    sync.process_sync_response(0, 1200, 1200, 0, "p");
    assert_eq!(sync.get_clock_offset(), 1200);
}

#[test]
fn smoothing_rounds_toward_zero() {
    let mut sync = TimeSyncManager::new(10);
    sync.process_sync_response(0, -3, -3, 0, "p");
    assert_eq!(sync.get_clock_offset(), -3);
    sync.process_sync_response(0, -2, -2, 0, "p");
    // (-24 - 4) / 10
    assert_eq!(sync.get_clock_offset(), -2);
}

#[test]
fn measured_offset_rounds_toward_zero() {
    let mut sync = TimeSyncManager::new(10);
    let m = sync.process_sync_response(0, 0, -1, 0, "p");
    assert_eq!(m, SyncMeasurement { offset: 0, rtt: 1 });
    assert_eq!(sync.get_clock_offset(), 0);
}

#[test]
fn only_recent_samples_are_averaged() {
    let mut sync = TimeSyncManager::new(2);
    assert_eq!(sync.get_average_rtt("p"), None);
    sync.process_sync_response(0, 0, 0, 100, "p");
    assert_eq!(sync.get_average_rtt("p"), Some(100));
    sync.process_sync_response(0, 0, 0, 201, "p");
    assert_eq!(sync.get_average_rtt("p"), Some(150));
    sync.process_sync_response(0, 0, 0, 400, "p");
    assert_eq!(sync.get_average_rtt("p"), Some(300));
    assert_eq!(sync.get_average_rtt("q"), None);
}

#[test]
fn samples_are_kept_per_peer() {
    let mut sync = TimeSyncManager::new(10);
    sync.process_sync_response(0, 0, 0, 10, "a");
    sync.process_sync_response(0, 0, 0, 30, "b");
    sync.process_sync_response(0, 0, 0, -31, "a");
    // (10 - 31) / 2, rounded toward zero
    assert_eq!(sync.get_average_rtt("a"), Some(-10));
    assert_eq!(sync.get_average_rtt("b"), Some(30));
}

#[test]
fn no_samples_are_kept_if_none_are_wanted() {
    let mut sync = TimeSyncManager::new(0);
    sync.process_sync_response(0, 50, 50, 10, "p");
    assert_eq!(sync.get_average_rtt("p"), None);
    assert_eq!(sync.get_clock_offset(), 45);
}

#[test]
fn reset_forgets_everything() {
    let mut sync = TimeSyncManager::new(10);
    assert!(!sync.is_synchronized());
    sync.process_sync_response(1000000, 1500000, 1501000, 1002000, "p");
    assert!(sync.is_synchronized());
    sync.reset();
    assert!(!sync.is_synchronized());
    assert_eq!(sync.get_clock_offset(), 0);
    assert_eq!(sync.get_average_rtt("p"), None);
    sync.process_sync_response(0, 7, 7, 0, "p");
    assert_eq!(sync.get_clock_offset(), 7);
}

#[test]
fn timestamps_out_of_range_are_told_apart() {
    let mut sync = TimeSyncManager::new(10);
    assert!(sync.can_process(0, 1000, 1000, 0));
    assert!(!sync.can_process(i64::MIN, 0, 0, 1));
    assert!(!sync.can_process(0, i64::MIN, 1, 0));
    assert!(!sync.can_process(0, i64::MAX, i64::MAX, 0));
    let big = i64::MAX / 4;
    assert!(sync.can_process(0, big, big, 0));
    sync.process_sync_response(0, big, big, 0, "p");
    assert_eq!(sync.get_clock_offset(), big);
    // Eight times the known offset is too much.
    assert!(!sync.can_process(0, 0, 0, 0));
}

#[test]
fn schedule_is_met_on_the_same_node() {
    let mut sync = TimeSyncManager::new(10);
    sync.process_sync_response(0, 4000, 4000, 0, "p");
    let scheduler = SyncScheduler::new(&sync);
    let target = scheduler.schedule_future(1_000_000, 3_000_000);
    assert_eq!(target, 4_004_000);
    assert_eq!(scheduler.micros_until(target, 1_000_000), 3_000_000);
    assert_eq!(scheduler.micros_until(target, 1_500_000), 2_500_000);
    assert_eq!(scheduler.micros_until(target, 4_000_001), -1);
}

#[test]
fn time_is_reached_when_nothing_is_left_to_wait() {
    let sync = TimeSyncManager::new(10);
    let scheduler = SyncScheduler::new(&sync);
    assert!(!scheduler.is_time_reached(1000, 999));
    assert!(scheduler.is_time_reached(1000, 1000));
    assert!(scheduler.is_time_reached(1000, 1001));
}

#[test]
fn nodes_act_at_the_same_instant() {
    // Network time = local clock + offset on both nodes.
    let mut a = TimeSyncManager::new(1);
    a.process_sync_response(0, 500, 500, 0, "p");
    let mut b = TimeSyncManager::new(1);
    b.process_sync_response(0, -70, -70, 0, "p");
    let target = SyncScheduler::new(&a).schedule_future(10_000 - 500, 2_000);
    assert_eq!(target, 12_000);
    assert_eq!(SyncScheduler::new(&b).micros_until(target, 10_300 + 70), 1_700);
}

#[test]
fn follower_acts_with_the_leader() {
    // The leader is ahead by 500, and the follower has measured just that.
    let leader = TimeSyncManager::new(1);
    let mut follower = TimeSyncManager::new(1);
    follower.process_sync_response(0, 500, 500, 0, "leader");
    let target = SyncScheduler::new(&leader).schedule_future(10_000, 2_000);
    let wait = SyncScheduler::new(&follower).micros_until(target, 10_000 - 500);
    assert_eq!(wait, 2_000);
}

#[test]
fn follower_is_off_by_at_most_half_a_round_trip() {
    // The leader is ahead by 500; the request takes 100, the response 20.
    let mut follower = TimeSyncManager::new(1);
    let m = follower.process_sync_response(0, 600, 600, 120, "leader");
    assert_eq!(m, SyncMeasurement { offset: 540, rtt: 120 });
    let wait = SyncScheduler::new(&follower).micros_until(12_000, 10_000 - 500);
    assert_eq!(wait, 2_000 - 40);
}

#[test]
fn any_measurement_synchronizes() {
    let mut m = TimeSyncManager::new(10);
    assert!(!m.is_synchronized());
    m.process_sync_response(0, 0, 0, 0, "p");
    assert_eq!(m.get_clock_offset(), 0);
    assert!(m.is_synchronized());
    m.reset();
    assert!(!m.is_synchronized());
}

#[test]
fn sums_out_of_range_are_told_apart() {
    let mut m = TimeSyncManager::new(2);
    assert!(m.can_average("p"));
    let half = i64::MAX / 2;
    m.process_sync_response(0, half, 0, 0, "p");
    assert!(m.can_average("p"));
    assert_eq!(m.get_average_rtt("p"), Some(half));

    // Two exchanges without an offset, each with a large round trip.
    let mut m = TimeSyncManager::new(3);
    let big = i64::MAX - 1;
    m.process_sync_response(0, big / 2, -(big / 2), 0, "p");
    assert_eq!(m.get_clock_offset(), 0);
    assert!(m.can_average("p"));
    m.process_sync_response(0, big / 2, -(big / 2), 0, "p");
    assert!(!m.can_average("p"));
    assert!(m.can_average("q"));
}

#[test]
fn offset_stays_among_the_measurements() {
    let mut m = TimeSyncManager::new(10);
    for measured in [480, 530, 470, 505, 530, 530, 470] {
        m.process_sync_response(0, measured, measured, 0, "leader");
        assert!(470 <= m.get_clock_offset() && m.get_clock_offset() <= 530);
        // The leader is ahead by 500.
        let wait = SyncScheduler::new(&m).micros_until(12_000, 10_000 - 500);
        assert!((wait - 2_000).abs() <= 30);
    }
}

#[test]
fn repeated_exact_measurements_keep_the_offset() {
    let mut m = TimeSyncManager::new(10);
    for _ in 0..5 {
        m.process_sync_response(1000, 1000 + 20 - 333, 1000 + 30 - 333, 1050, "leader");
        assert_eq!(m.get_clock_offset(), -333);
    }
}

#[test]
fn average_is_of_the_recent_samples() {
    let mut m = TimeSyncManager::new(3);
    for rtt in [100, -7, 20, -4, -10] {
        m.process_sync_response(0, 0, 0, rtt, "p");
        m.process_sync_response(0, 0, 0, 1, "q");
    }
    // (20 - 4 - 10) / 3
    assert_eq!(m.get_average_rtt("p"), Some(2));
    m.process_sync_response(0, 0, 0, -3, "p");
    // (-4 - 10 - 3) / 3, rounded toward zero
    assert_eq!(m.get_average_rtt("p"), Some(-5));
}
