use tagpage::counter::Counter;

#[test]
fn five_activations_give_five() {
    let mut c = Counter::new();
    for _ in 0..5 {
        c.increment();
    }
    assert_eq!(c.get(), 5);
}

#[test]
fn counter_starts_at_zero() {
    let c = Counter::new();
    assert_eq!(c.get(), 0);
}
