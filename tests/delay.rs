use ddc::Delay;

#[test]
fn default_delay_is_not_running() {
    let d = Delay::default();
    assert!(!d.is_armed());
    assert_eq!(d.remaining(), 0);
    assert_eq!(d.remaining_at(0), 0);
}

#[test]
fn new_delay_runs_from_now() {
    let d = Delay::new(10_000);
    assert!(d.is_armed());
    assert_eq!(d.delay_ms(), 10_000);
    let r = d.remaining();
    assert!(r > 9_000 && r <= 10_000);
}

#[test]
fn remaining_at_subtracts_elapsed() {
    let d = Delay::new(1000);
    assert_eq!(d.remaining_at(300), 700);
    assert_eq!(d.remaining_at(1000), 0);
    assert_eq!(d.remaining_at(5000), 0);
}

#[test]
fn take_remaining_stops_delay() {
    let mut d = Delay::new(10_000);
    let r = d.take_remaining();
    assert!(r > 9_000);
    assert!(!d.is_armed());
    assert_eq!(d.take_remaining(), 0);
    assert_eq!(d.delay_ms(), 10_000);
}
