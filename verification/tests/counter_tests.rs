use bench_server::counter::Counter;

#[test]
fn fresh_counter_counts_up() {
    let mut c = Counter::new();
    assert_eq!(c.fetch_increment(), 1);
    assert_eq!(c.fetch_increment(), 2);
    assert_eq!(c.fetch_increment(), 3);
    assert_eq!(c.value, 3);
}

#[test]
fn increments_observe_distinct_values() {
    let mut c = Counter::new();
    let mut seen = Vec::new();
    for _ in 0..5 {
        let n = c.fetch_increment();
        assert!(!seen.contains(&n));
        seen.push(n);
    }
    assert_eq!(seen, vec![1, 2, 3, 4, 5]);
}

#[test]
fn increment_at_maximum_resets_store() {
    let mut c = Counter { value: usize::MAX - 1 };
    let n = c.fetch_increment();
    assert_eq!(n, usize::MAX);
    assert_eq!(c.value, 0);
    assert_eq!(c.fetch_increment(), 1);
    assert_eq!(c.value, 1);
}
