use neurosim::dynamical_variable::{DynamicalScalar, DynamicalVariable, TimeStep};

#[test]
fn get_returns_value_passed_at_init() {
    let expected = 5.0;
    let test_scalar = DynamicalScalar::new(expected);
    let time: TimeStep = 1;
    assert_eq!(test_scalar.dynamical_get(time), expected);
    assert_eq!(test_scalar.dynamical_get(time + 1), expected);
}

#[test]
fn dynamical_set_only_alters_future() {
    let initial = 5.0;
    let increment = 1.0;
    let time: TimeStep = 1;

    let mut test_scalar = DynamicalScalar::new(initial);
    test_scalar.dynamical_set(initial + increment, time);

    assert_eq!(test_scalar.dynamical_get(time), initial);
    assert_eq!(test_scalar.dynamical_get(time + 1), initial + increment);
}

#[test]
fn dynamical_increment_only_alters_future() {
    let initial = 5.0;
    let increment = 1.0;
    let time: TimeStep = 1;

    let mut test_scalar = DynamicalScalar::new(initial);
    test_scalar.dynamical_increment(increment, time);

    assert_eq!(test_scalar.dynamical_get(time), initial);
    assert_eq!(test_scalar.dynamical_get(time + 1), initial + increment);
}

#[test]
fn fresh_scalar_reads_initial_value_at_every_tick() {
    let scalar = DynamicalScalar::new(-70i64);
    for time in 1..50usize {
        assert_eq!(scalar.dynamical_get(time), -70);
    }
}

#[test]
fn set_at_even_and_odd_ticks_lands_in_different_slots() {
    let mut scalar = DynamicalScalar::new(0i64);
    scalar.dynamical_set(7, 4);
    assert_eq!(scalar.even, 7);
    assert_eq!(scalar.odd, 0);
    scalar.dynamical_set(9, 5);
    assert_eq!(scalar.even, 7);
    assert_eq!(scalar.odd, 9);
    assert_eq!(scalar.dynamical_get(5), 7);
    assert_eq!(scalar.dynamical_get(6), 9);
}

#[test]
fn two_increments_at_one_tick_accumulate() {
    let mut scalar = DynamicalScalar::new(10i64);
    scalar.dynamical_increment(3, 1);
    scalar.dynamical_increment(4, 1);
    assert_eq!(scalar.dynamical_get(1), 10);
    assert_eq!(scalar.dynamical_get(2), 17);
}

#[test]
fn last_set_at_one_tick_wins() {
    let mut scalar = DynamicalScalar::new(1usize);
    scalar.dynamical_set(5, 3);
    scalar.dynamical_set(6, 3);
    assert_eq!(scalar.dynamical_get(4), 6);
    assert_eq!(scalar.dynamical_get(3), 1);
}

#[test]
fn increment_adds_to_the_slot_of_two_ticks_ago() {
    let mut scalar = DynamicalScalar::new(0i64);
    scalar.dynamical_increment(1, 1);
    scalar.dynamical_increment(10, 2);
    scalar.dynamical_increment(100, 3);
    assert_eq!(scalar.dynamical_get(4), 101);
    assert_eq!(scalar.dynamical_get(3), 10);
}
