use stream_statistics::window::SlidingWindowAverage;

#[test]
fn empty_window_reports_seed() {
    let w = SlidingWindowAverage::new(42, 3);
    assert_eq!(w.get_average(), 42);
}

#[test]
fn average_is_floor_of_mean() {
    let mut w = SlidingWindowAverage::new(0, 5);
    w.submit_sample(1);
    w.submit_sample(2);
    assert_eq!(w.get_average(), 1);
    w.submit_sample(6);
    assert_eq!(w.get_average(), 3);
}

#[test]
fn oldest_sample_is_evicted_over_capacity() {
    let mut w = SlidingWindowAverage::new(0, 2);
    w.submit_sample(100);
    w.submit_sample(10);
    w.submit_sample(20);
    assert_eq!(w.get_average(), 15);
}

#[test]
fn retain_keeps_most_recent_samples() {
    let mut w = SlidingWindowAverage::new(7, 10);
    for v in [1000u64, 2000, 3000, 10, 20, 30] {
        w.submit_sample(v);
    }
    w.retain(3);
    assert_eq!(w.get_average(), 20);
    w.retain(0);
    assert_eq!(w.get_average(), 7);
}

#[test]
fn retain_more_than_held_changes_nothing() {
    let mut w = SlidingWindowAverage::new(0, 10);
    w.submit_sample(4);
    w.submit_sample(8);
    w.retain(5);
    assert_eq!(w.get_average(), 6);
}

#[test]
fn zero_capacity_window_stays_empty() {
    let mut w = SlidingWindowAverage::new(9, 0);
    w.submit_sample(1);
    assert_eq!(w.get_average(), 9);
}

#[test]
fn large_samples_do_not_overflow() {
    let mut w = SlidingWindowAverage::new(0, 4);
    w.submit_sample(u64::MAX);
    w.submit_sample(u64::MAX);
    assert_eq!(w.get_average(), u64::MAX);
}
