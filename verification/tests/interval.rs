use instance_chart::interval::{Interval, Params, DEFAULT_MAX, DEFAULT_MIN, DEFAULT_RAMPDOWN};

#[test]
fn default_params() {
    let params = Params::default();
    assert_eq!(params, Params { rampdown: 60_000, min: 10, max: 10_000 });
    assert_eq!((DEFAULT_MIN, DEFAULT_MAX, DEFAULT_RAMPDOWN), (10, 10_000, 60_000));
}

#[test]
fn period_ramps_down_linearly() {
    let params = Params::default();
    assert_eq!(params.period(0), 10_000);
    assert_eq!(params.period(1), 10_000);
    assert_eq!(params.period(7), 9_999);
    assert_eq!(params.period(30_000), 5_005);
    assert_eq!(params.period(59_999), 11);
    assert_eq!(params.period(60_000), 10);
    assert_eq!(params.period(u64::MAX), 10);
}

#[test]
fn period_is_between_min_and_max() {
    let params = Params { rampdown: 1_000, min: 20, max: 500 };
    let mut last = params.period(0);
    for t in 0..1_200 {
        let period = params.period(t);
        assert!(20 <= period && period <= 500);
        assert!(period <= last);
        last = period;
    }
    assert_eq!(last, 20);
}

#[test]
fn period_of_large_values() {
    let params = Params { rampdown: u64::MAX, min: 0, max: u64::MAX };
    assert_eq!(params.period(0), u64::MAX);
    assert_eq!(params.period(u64::MAX - 1), 1);
    assert_eq!(params.period(u64::MAX), 0);
}

#[test]
fn no_ramp() {
    let params = Params { rampdown: 0, min: 20, max: 500 };
    assert_eq!(params.period(0), 20);
    assert_eq!(Interval::new(params).next(), 20);
    let flat = Params { rampdown: 100, min: 50, max: 50 };
    assert_eq!(flat.period(0), 50);
    assert_eq!(flat.period(40), 50);
}

#[test]
fn next_is_an_idempotent_reader() {
    let interval = Interval::new(Params::default());
    assert_eq!(interval.next(), 10_000);
    assert_eq!(interval.next(), 10_000);
}

#[test]
fn until_saturates_at_zero() {
    let interval = Interval::new(Params::default());
    assert_eq!(interval.until(0), 10_000);
    assert_eq!(interval.until(9_901), 99);
    assert_eq!(interval.until(10_000), 0);
    assert_eq!(interval.until(20_000), 0);
}

#[test]
fn advance_adds_the_period_at_the_fire_time() {
    let mut interval = Interval::new(Params::default());
    interval.advance();
    // period(10_000) = 10_000 - 9_990 * 10_000 / 60_000 = 8_335
    assert_eq!(interval.next(), 18_335);
    interval.advance();
    // period(18_335) = 10_000 - floor(9_990 * 18_335 / 60_000) = 6_948
    assert_eq!(interval.next(), 25_283);
    let mut last = interval.next();
    for _ in 0..10_000 {
        interval.advance();
        let step = interval.next() - last;
        assert!(10 <= step && step <= 10_000);
        last = interval.next();
    }
    interval.advance();
    assert_eq!(interval.next(), last + 10);
}

#[test]
fn advance_saturates() {
    let mut interval = Interval::new(Params { rampdown: 0, min: u64::MAX - 5, max: u64::MAX });
    assert_eq!(interval.next(), u64::MAX - 5);
    interval.advance();
    assert_eq!(interval.next(), u64::MAX);
    interval.advance();
    assert_eq!(interval.next(), u64::MAX);
}
