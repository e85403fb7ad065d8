use statime::current::{CurrentDS, InternalCurrentDS};
use statime::filter::offset_and_delay;
use statime::time::{Duration, Instant};

const SUBNANOS_PER_NANO: i128 = 0x10000;

fn at_nanos(nanos: u128) -> Instant {
    Instant {
        subnanos: nanos * 0x10000,
    }
}

#[test]
fn offset_computation() {
    // delta = 500 ns of path delay, the slave clock runs -200 ns off:
    // T1 = 1000, T2 = 1000 + delta + offset, T3 = 2000 + offset,
    // T4 = 2000 + delta.
    let t1 = at_nanos(1000);
    let t2 = at_nanos(1300);
    let t3 = at_nanos(1800);
    let t4 = at_nanos(2500);
    let estimate = offset_and_delay(t1, t2, t3, t4, Duration::zero()).unwrap();
    assert_eq!(estimate.mean_delay.subnanos, 500 * SUBNANOS_PER_NANO);
    assert_eq!(
        estimate.offset_from_master.subnanos,
        -200 * SUBNANOS_PER_NANO
    );
}

#[test]
fn mean_path_delay_is_nonnegative() {
    let t1 = at_nanos(100);
    let t2 = at_nanos(150);
    let t3 = at_nanos(400);
    let t4 = at_nanos(401);
    let estimate = offset_and_delay(t1, t2, t3, t4, Duration::zero()).unwrap();
    assert!(estimate.mean_delay.subnanos >= 0);
}

#[test]
fn asymmetry_is_subtracted() {
    let t1 = at_nanos(1000);
    let t2 = at_nanos(1300);
    let t3 = at_nanos(1800);
    let t4 = at_nanos(2500);
    let asymmetry = Duration {
        subnanos: 100 * SUBNANOS_PER_NANO,
    };
    let estimate = offset_and_delay(t1, t2, t3, t4, asymmetry).unwrap();
    assert_eq!(estimate.mean_delay.subnanos, 400 * SUBNANOS_PER_NANO);
    assert_eq!(
        estimate.offset_from_master.subnanos,
        -100 * SUBNANOS_PER_NANO
    );
}

#[test]
fn non_causal_samples_are_rejected() {
    // T2 before T1: the exchange cannot have happened in that order.
    assert!(offset_and_delay(
        at_nanos(1300),
        at_nanos(1000),
        at_nanos(1800),
        at_nanos(2500),
        Duration::zero()
    )
    .is_none());
    // T4 before T3.
    assert!(offset_and_delay(
        at_nanos(1000),
        at_nanos(1300),
        at_nanos(2500),
        at_nanos(1800),
        Duration::zero()
    )
    .is_none());
    // Equal timestamps are no better.
    assert!(offset_and_delay(
        at_nanos(1000),
        at_nanos(1000),
        at_nanos(1800),
        at_nanos(2500),
        Duration::zero()
    )
    .is_none());
}

#[test]
fn current_ds_rounds_to_nanoseconds() {
    let internal = InternalCurrentDS {
        steps_removed: 1,
        // 1.5 ns rounds away from zero to 2; -1.5 ns to -2.
        offset_from_master: Duration { subnanos: 0x18000 },
        mean_delay: Duration { subnanos: -0x18000 },
    };
    let observable = CurrentDS::from(&internal);
    assert_eq!(observable.steps_removed, 1);
    assert_eq!(observable.offset_from_master, 2);
    assert_eq!(observable.mean_delay, -2);

    let internal = InternalCurrentDS {
        steps_removed: 0,
        // 0.25 ns rounds down to 0; 0.75 ns up to 1.
        offset_from_master: Duration { subnanos: 0x4000 },
        mean_delay: Duration { subnanos: 0xC000 },
    };
    let observable = CurrentDS::from(&internal);
    assert_eq!(observable.offset_from_master, 0);
    assert_eq!(observable.mean_delay, 1);
}
