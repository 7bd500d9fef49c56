use blockchain_node::sched::MiningScheduler;

#[test]
fn fires_at_most_once_per_ten_unit_window() {
    let mut s = MiningScheduler::new(10);
    let elapsed = [0u64, 0, 0, 1, 5, 9, 10, 10, 10, 11, 19, 20, 20, 25, 30];
    let mut fires: Vec<u64> = Vec::new();
    for &e in elapsed.iter() {
        if s.tick(e) {
            fires.push(e);
        }
    }
    // one fire per window, at its boundary
    assert_eq!(fires, vec![0, 10, 20, 30]);
}

#[test]
fn never_fires_off_the_boundary() {
    let mut s = MiningScheduler::new(10);
    for e in [1u64, 2, 3, 11, 25, 99].iter() {
        assert!(!s.tick(*e));
    }
}

#[test]
fn interval_one_fires_once_per_second() {
    let mut s = MiningScheduler::new(1);
    assert!(s.tick(0));
    assert!(!s.tick(0));
    assert!(s.tick(1));
    assert!(!s.tick(1));
    assert!(s.tick(2));
}

#[test]
fn windows_only_move_forward() {
    let mut s = MiningScheduler::new(10);
    assert!(s.tick(20));
    // an earlier window can no longer fire
    assert!(!s.tick(10));
    assert!(!s.tick(0));
    assert!(s.tick(30));
}
