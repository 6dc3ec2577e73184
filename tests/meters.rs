use metricator::{AggregateMetric, Mean, MetricError, MinMaxAvg, Rate, RateMetric};
use monotonic_time_rs::{Millis, MillisDuration};
use num_traits::ToPrimitive;

fn mean_f32(m: Mean) -> f32 {
    m.sum.to_f32().unwrap_or(0.0) / m.count as f32
}

fn rate_f32(r: Rate) -> f32 {
    if r.elapsed_ms == 0 {
        0.0
    } else {
        r.events as f32 / MillisDuration::from_millis(r.elapsed_ms).as_secs()
    }
}

#[test]
fn rate() {
    let mut now = Millis::new(0);
    let mut m = RateMetric::new(now.absolute_milliseconds());

    m.add(10);

    now += MillisDuration::from_secs(10.0).expect("should be positive");

    assert_eq!(rate_f32(m.rate()), 0.0);

    m.update(now.absolute_milliseconds());

    assert_eq!(rate_f32(m.rate()), 1.0);
    assert_eq!(m.rate(), Rate { events: 10, elapsed_ms: 10_000 });
}

#[test]
fn aggregate_int() {
    let mut aggregate = AggregateMetric::new(3).expect("should not be zero");

    aggregate.add(-1);

    assert_eq!(aggregate.average(), None);

    aggregate.add(2);
    aggregate.add(5);

    assert_eq!(aggregate.average().map(mean_f32), Some(2.0));
    assert_eq!(aggregate.average(), Some(Mean { sum: 6, count: 3 }));
}

#[test]
fn zero_threshold() {
    let result: Result<AggregateMetric<i32>, MetricError> = AggregateMetric::new(0);
    assert!(result.is_err());
    match result {
        Err(e) => assert_eq!(e.message(), "threshold can not be zero".to_string()),
        Ok(_) => panic!("a zero threshold was accepted"),
    }
}

#[test]
fn min_max_values() {
    let mut aggregate = AggregateMetric::new(3).expect("should not be zero");

    aggregate.add(5);
    aggregate.add(2);
    aggregate.add(8);

    let values = aggregate.values().expect("should calculate values");
    assert_eq!(values.min, 2);
    assert_eq!(mean_f32(values.avg), 5.0);
    assert_eq!(values.max, 8);
}

#[test]
fn all_equal_values_i32() {
    let mut aggregate = AggregateMetric::new(3).expect("threshold should not be zero");

    aggregate.add(7);
    aggregate.add(7);
    aggregate.add(7);

    assert_eq!(aggregate.average().map(mean_f32), Some(7.0));
    assert_eq!(aggregate.values(), Some(MinMaxAvg::new(7, Mean { sum: 21, count: 3 }, 7)));
}

#[test]
fn fresh_rate_is_zero() {
    let m = RateMetric::new(1234);
    assert_eq!(m.rate(), Rate { events: 0, elapsed_ms: 0 });
    assert_eq!(rate_f32(m.rate()), 0.0);
    assert_eq!(m.count(), 0);
    assert_eq!(m.window_start(), 1234);
}

#[test]
fn update_within_interval_changes_nothing() {
    let mut m = RateMetric::new(1000);
    m.increment();
    m.add(4);
    m.update(1499);
    assert_eq!(m.rate(), Rate { events: 0, elapsed_ms: 0 });
    assert_eq!(m.count(), 5);
    assert_eq!(m.window_start(), 1000);
}

#[test]
fn update_after_interval_publishes_and_resets() {
    let mut m = RateMetric::new(1000);
    m.add(3);
    m.update(1500);
    assert_eq!(m.rate(), Rate { events: 3, elapsed_ms: 500 });
    assert_eq!(rate_f32(m.rate()), 6.0);
    assert_eq!(m.count(), 0);
    assert_eq!(m.window_start(), 1500);
}

#[test]
fn late_update_uses_actual_elapsed_time() {
    let mut m = RateMetric::new(0);
    m.add(8);
    m.update(2000);
    assert_eq!(m.rate(), Rate { events: 8, elapsed_ms: 2000 });
    assert_eq!(rate_f32(m.rate()), 4.0);
}

#[test]
fn repeated_update_at_same_time_is_idempotent() {
    let mut m = RateMetric::new(0);
    m.add(10);
    m.update(10_000);
    m.update(10_000);
    assert_eq!(m.rate(), Rate { events: 10, elapsed_ms: 10_000 });
    assert_eq!(rate_f32(m.rate()), 1.0);
    assert_eq!(m.window_start(), 10_000);
}

#[test]
fn custom_interval() {
    let mut m = RateMetric::with_interval(0, 2000).expect("interval is positive");
    m.add(6);
    m.update(1999);
    assert_eq!(m.rate(), Rate { events: 0, elapsed_ms: 0 });
    m.update(3000);
    assert_eq!(m.rate(), Rate { events: 6, elapsed_ms: 3000 });
    assert_eq!(rate_f32(m.rate()), 2.0);
}

#[test]
fn zero_interval_is_refused() {
    let r = RateMetric::with_interval(0, 0);
    assert!(matches!(r, Err(MetricError::NonPositiveInterval)));
    assert_eq!(
        MetricError::NonPositiveInterval.message(),
        "measurement interval should be positive"
    );
}

#[test]
fn threshold_one_reports_every_sample() {
    let mut a = AggregateMetric::<i32>::new(1).expect("threshold is positive");
    a.add(4);
    assert_eq!(a.values(), Some(MinMaxAvg::new(4, Mean { sum: 4, count: 1 }, 4)));
    a.add(-9);
    assert_eq!(a.values(), Some(MinMaxAvg::new(-9, Mean { sum: -9, count: 1 }, -9)));
}

#[test]
fn report_is_stable_between_closes() {
    let mut a = AggregateMetric::<i64>::new(3).expect("threshold is positive");
    a.add(1);
    a.add(2);
    a.add(3);
    let first = a.values();
    assert_eq!(first, Some(MinMaxAvg::new(1, Mean { sum: 6, count: 3 }, 3)));
    a.add(100);
    a.add(-100);
    assert_eq!(a.values(), first);
    a.add(10);
    assert_eq!(a.values(), Some(MinMaxAvg::new(-100, Mean { sum: 10, count: 3 }, 100)));
}

#[test]
fn unit_reaches_report() {
    let mut a = AggregateMetric::<u32>::new(2).expect("threshold is positive").with_unit("ms");
    a.add(10);
    a.add(20);
    let v = a.values().expect("batch closed");
    assert_eq!(v.unit, "ms");
    assert_eq!(v, MinMaxAvg::new(10, Mean { sum: 30, count: 2 }, 20).with_unit("ms"));
}

#[test]
fn report_without_unit() {
    let r = MinMaxAvg::new(1u8, Mean { sum: 3, count: 2 }, 2u8);
    assert_eq!(r.unit, "");
    assert_eq!(r.with_unit("kb").unit, "kb");
}

#[test]
fn extremes_of_wide_types() {
    let mut a = AggregateMetric::<u64>::new(255).expect("threshold is positive");
    for _ in 0..255 {
        a.add(u64::MAX);
    }
    let v = a.values().expect("batch closed");
    assert_eq!(v.min, u64::MAX);
    assert_eq!(v.max, u64::MAX);
    assert_eq!(v.avg, Mean { sum: 255 * (u64::MAX as i128), count: 255 });

    let mut b = AggregateMetric::<i64>::new(2).expect("threshold is positive");
    b.add(i64::MIN);
    b.add(i64::MAX);
    assert_eq!(b.values(), Some(MinMaxAvg::new(i64::MIN, Mean { sum: -1, count: 2 }, i64::MAX)));
}

#[test]
fn small_types_track_extremes() {
    let mut a = AggregateMetric::<i8>::new(3).expect("threshold is positive");
    a.add(i8::MAX);
    a.add(i8::MIN);
    a.add(0);
    assert_eq!(a.values(), Some(MinMaxAvg::new(i8::MIN, Mean { sum: -1, count: 3 }, i8::MAX)));

    let mut b = AggregateMetric::<u16>::new(2).expect("threshold is positive");
    b.add(0);
    b.add(0);
    assert_eq!(b.values(), Some(MinMaxAvg::new(0, Mean { sum: 0, count: 2 }, 0)));

    let mut c = AggregateMetric::<u8>::new(2).expect("threshold is positive");
    c.add(u8::MAX);
    c.add(1);
    assert_eq!(c.average(), Some(Mean { sum: 256, count: 2 }));

    let mut d = AggregateMetric::<i16>::new(2).expect("threshold is positive");
    d.add(-3);
    d.add(-3);
    assert_eq!(d.average().map(mean_f32), Some(-3.0));
}
