//! Eviction behaviour of the bounded, time-ordered sample queue.

use pendulum_sim::history::History;

#[test]
fn two_thousand_samples_leave_exactly_the_cap() {
    let mut h = History::new();
    for i in 0..2000i64 {
        // One sample every millisecond.
        h.push(i * 1_000_000, i);
    }
    assert_eq!(h.len(), 1024);
    // The oldest 976 samples were evicted; order is preserved.
    assert_eq!(h.get(0), (976 * 1_000_000, 976));
    assert_eq!(h.get(1023), (1999 * 1_000_000, 1999));
    let newest = h.get(1023).0;
    for i in 0..1024usize {
        let s = h.get(i);
        assert!(newest - s.0 <= 60_000_000_000);
        if i > 0 {
            assert!(h.get(i - 1).0 <= s.0);
        }
    }
}

#[test]
fn samples_older_than_the_window_are_evicted() {
    let mut h = History::new();
    // One sample every 200 ms: the 60 s window holds 301 of them.
    for i in 0..400i64 {
        h.push(i * 200_000_000, i);
    }
    assert_eq!(h.len(), 301);
    assert_eq!(h.get(0), (99 * 200_000_000, 99));
    assert_eq!(h.get(300), (399 * 200_000_000, 399));
}

#[test]
fn clear_empties_and_accepts_new_samples() {
    let mut h = History::new();
    h.push(5, 1);
    h.push(10, 2);
    assert_eq!(h.len(), 2);
    h.clear();
    assert_eq!(h.len(), 0);
    h.push(20, 3);
    assert_eq!(h.len(), 1);
    assert_eq!(h.get(0), (20, 3));
}

#[test]
fn equal_timestamps_are_kept_in_insertion_order() {
    let mut h = History::new();
    h.push(7, 1);
    h.push(7, 2);
    h.push(7, 3);
    assert_eq!(h.len(), 3);
    assert_eq!(h.get(0), (7, 1));
    assert_eq!(h.get(1), (7, 2));
    assert_eq!(h.get(2), (7, 3));
}
