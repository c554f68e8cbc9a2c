use sancov::Counter;

#[test]
fn fresh_counter_is_zero() {
    let c = Counter::new();
    assert_eq!(c.get(), 0);
}

#[test]
fn one_increment_gives_one() {
    let mut c = Counter::new();
    c.increment();
    assert_eq!(c.get(), 1);
}

#[test]
fn incremented_counter_is_never_zero() {
    let mut c = Counter::new();
    for _ in 0..600 {
        c.increment();
        assert_ne!(c.get(), 0);
    }
}

#[test]
fn increment_wraps_255_back_to_one() {
    let mut c = Counter::new();
    for _ in 0..255 {
        c.increment();
    }
    assert_eq!(c.get(), 255);
    c.increment();
    assert_eq!(c.get(), 1);
}

#[test]
fn saturating_increment_clamps_at_255() {
    let mut c = Counter::new();
    for _ in 0..300 {
        c.saturating_increment();
        assert!(c.get() <= 255);
    }
    assert_eq!(c.get(), 255);
    c.saturating_increment();
    assert_eq!(c.get(), 255);
}
