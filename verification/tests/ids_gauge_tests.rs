use download_queue::gauge::PendingGauge;
use download_queue::ids::IdGenerator;

#[test]
fn concurrent_style_draws_yield_distinct_ids() {
    let mut gen = IdGenerator::new(0);
    let mut seen: Vec<u64> = Vec::new();
    for _ in 0..100 {
        let id = gen.next();
        assert!(!seen.contains(&id));
        seen.push(id);
    }
}

#[test]
fn ids_increase_from_the_start_value() {
    let mut gen = IdGenerator::new(10);
    assert_eq!(gen.peek_next(), 11);
    assert_eq!(gen.next(), 11);
    assert_eq!(gen.next(), 12);
    assert_eq!(gen.next(), 13);
}

#[test]
fn the_counter_wraps_instead_of_failing() {
    let mut gen = IdGenerator::new(u64::MAX);
    assert_eq!(gen.next(), 0);
    assert_eq!(gen.next(), 1);
}

#[test]
fn gauge_counts_enqueues_and_resolutions() {
    let mut gauge = PendingGauge::new();
    assert_eq!(gauge.record_enqueued(), 1);
    assert_eq!(gauge.record_enqueued(), 2);
    gauge.record_resolved();
    assert_eq!(gauge.count, 1);
    gauge.record_resolved();
    assert_eq!(gauge.count, 0);
}

#[test]
fn gauge_wraps_like_the_counter_it_mirrors() {
    let mut gauge = PendingGauge::new();
    gauge.record_resolved();
    assert_eq!(gauge.count, u64::MAX);
    assert_eq!(gauge.record_enqueued(), 0);
}
