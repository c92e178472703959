use record_syncd::name_map::NameMap;
use record_syncd::network::NodeRole;
use record_syncd::tasks::{after_receive, Beacon, BeaconTask, TaskAction};

#[test]
fn discovery_is_sent_every_two_seconds() {
    let mut t = BeaconTask::discovery();
    for _ in 0..3 {
        assert_eq!(t.next(true), TaskAction::Send { beacon: Beacon::Discovery });
        assert_eq!(t.next(true), TaskAction::Sleep { millis: 2000 });
    }
    assert_eq!(t.next(false), TaskAction::Finish);
    assert_eq!(t.next(true), TaskAction::Finish);
}

#[test]
fn followers_ask_for_the_time_every_five_seconds() {
    let mut t = BeaconTask::time_sync(NodeRole::Follower);
    assert_eq!(t.next(true), TaskAction::Sleep { millis: 1000 });
    for _ in 0..3 {
        assert_eq!(t.next(true), TaskAction::Send { beacon: Beacon::TimeSyncRequest });
        assert_eq!(t.next(true), TaskAction::Sleep { millis: 5000 });
    }
    assert_eq!(t.next(false), TaskAction::Finish);
}

#[test]
fn leaders_do_not_ask_for_the_time() {
    let mut t = BeaconTask::time_sync(NodeRole::Leader);
    assert_eq!(t.next(true), TaskAction::Finish);
    assert_eq!(t.next(true), TaskAction::Finish);
}

#[test]
fn names_are_bound_once() {
    let mut m: NameMap<u32> = NameMap::new();
    assert_eq!(m.get(&"a".to_string()), None);
    m.insert("a".to_string(), 1);
    m.insert("b".to_string(), 2);
    m.insert("a".to_string(), 3);
    assert_eq!(m.len(), 2);
    assert_eq!(m.get(&"a".to_string()), Some(&3));
    assert_eq!(m.get(&"b".to_string()), Some(&2));
    assert_eq!(m.at(0), (&"a".to_string(), &3));
    m.clear();
    assert_eq!(m.len(), 0);
    assert_eq!(m.get(&"a".to_string()), None);
}

#[test]
fn receiving_pauses_after_a_failure_only() {
    assert_eq!(after_receive(true), None);
    assert_eq!(after_receive(false), Some(10));
}
