use shortcode::counter::Counter;

#[test]
fn first_next_returns_seed() {
    let mut c = Counter::initialize(42);
    assert_eq!(c.next(), 42);
    assert_eq!(c.peek(), 43);
}

#[test]
fn successive_calls_cover_the_range() {
    let seed = 1000u64;
    let n = 50u64;
    let mut c = Counter::initialize(seed);
    let values: Vec<u64> = (0..n).map(|_| c.next()).collect();
    let mut sorted = values.clone();
    sorted.sort();
    sorted.dedup();
    assert_eq!(sorted.len() as u64, n);
    assert_eq!(sorted, (seed..seed + n).collect::<Vec<u64>>());
}

#[test]
fn shared_counter_hands_out_distinct_values() {
    let c = std::sync::Mutex::new(Counter::initialize(7));
    let mut values = Vec::new();
    for _ in 0..10 {
        values.push(c.lock().unwrap().next());
    }
    assert_eq!(values, (7..17).collect::<Vec<u64>>());
}

#[test]
fn exhausted_only_at_the_largest_value() {
    assert!(Counter::initialize(u64::MAX).is_exhausted());
    let mut c = Counter::initialize(u64::MAX - 1);
    assert!(!c.is_exhausted());
    assert_eq!(c.next(), u64::MAX - 1);
    assert!(c.is_exhausted());
}
