use overlive_bridge::backoff::Backoff;

#[test]
fn delay_schedule_doubles_and_caps() {
    let mut b = Backoff::new();
    let mut delays: Vec<u64> = Vec::new();
    for _ in 0..7 {
        delays.push(b.on_failure());
    }
    assert_eq!(delays, vec![3, 6, 12, 24, 30, 30, 30]);
}

#[test]
fn success_resets_to_minimum() {
    let mut b = Backoff::new();
    for _ in 0..4 {
        b.on_failure();
    }
    b.on_connected();
    assert_eq!(b.on_failure(), 3);
    assert_eq!(b.on_failure(), 6);
}

#[test]
fn first_failure_sleeps_minimum() {
    let mut b = Backoff::new();
    assert_eq!(b.on_failure(), 3);
}
