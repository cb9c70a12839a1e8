use chat_client::retry::BackoffPolicy;
use chat_client::retry::INITIAL_INTERVAL_NS;
use chat_client::retry::MAX_INTERVAL_NS;
use chat_client::retry::MULTIPLIER_PERCENT;

const SECOND: u64 = 1_000_000_000;

#[test]
fn standard_policy_holds_the_documented_values() {
    let policy = BackoffPolicy::standard(30 * u128::from(SECOND));
    assert_eq!(
        policy,
        BackoffPolicy {
            initial_interval_ns: 4 * SECOND,
            multiplier_percent: 200,
            max_interval_ns: 20 * SECOND,
            max_elapsed_ns: 30_000_000_000,
        }
    );
    assert_eq!(INITIAL_INTERVAL_NS, 4_000_000_000);
    assert_eq!(MULTIPLIER_PERCENT, 200);
    assert_eq!(MAX_INTERVAL_NS, 20_000_000_000);
}

#[test]
fn standard_policy_waits_four_eight_sixteen_twenty() {
    let policy = BackoffPolicy::standard(60 * u128::from(SECOND));
    assert_eq!(policy.delay_ns(0), 4 * SECOND);
    assert_eq!(policy.delay_ns(1), 8 * SECOND);
    assert_eq!(policy.delay_ns(2), 16 * SECOND);
    assert_eq!(policy.delay_ns(3), 20 * SECOND);
    assert_eq!(policy.delay_ns(4), 20 * SECOND);
    assert_eq!(policy.delay_ns(50), 20 * SECOND);
}

#[test]
fn grow_doubles_and_stops_at_the_ceiling() {
    let policy = BackoffPolicy::standard(60 * u128::from(SECOND));
    assert_eq!(policy.grow(4 * SECOND), 8 * SECOND);
    assert_eq!(policy.grow(9_999_999_999), 19_999_999_998);
    assert_eq!(policy.grow(10 * SECOND), 20 * SECOND);
    assert_eq!(policy.grow(10 * SECOND + 1), 20 * SECOND);
    assert_eq!(policy.grow(20 * SECOND), 20 * SECOND);
    assert_eq!(policy.grow(0), 0);
}

#[test]
fn grow_rounds_down_to_a_nanosecond() {
    let policy = BackoffPolicy {
        initial_interval_ns: 1,
        multiplier_percent: 150,
        max_interval_ns: 1000,
        max_elapsed_ns: 0,
    };
    assert_eq!(policy.grow(1), 1);
    assert_eq!(policy.grow(3), 4);
    assert_eq!(policy.grow(500), 750);
    assert_eq!(policy.delay_ns(0), 1);
    assert_eq!(policy.delay_ns(3), 1);
}

#[test]
fn grow_does_not_overflow() {
    let policy = BackoffPolicy {
        initial_interval_ns: u64::MAX,
        multiplier_percent: u64::MAX,
        max_interval_ns: u64::MAX,
        max_elapsed_ns: u128::MAX,
    };
    assert_eq!(policy.grow(u64::MAX), u64::MAX);
    assert_eq!(policy.grow(1), u64::MAX / 100);
    assert_eq!(policy.delay_ns(2), u64::MAX);
}

#[test]
fn waits_never_shrink_and_stay_under_the_ceiling() {
    let policy = BackoffPolicy {
        initial_interval_ns: 100,
        multiplier_percent: 130,
        max_interval_ns: 5000,
        max_elapsed_ns: 1,
    };
    let mut previous = policy.delay_ns(0);
    for retry in 1..40 {
        let wait = policy.delay_ns(retry);
        assert!(previous <= wait);
        assert!(wait <= 5000);
        previous = wait;
    }
    assert_eq!(previous, 5000);
}

#[test]
fn retries_stop_once_the_limit_has_passed() {
    let policy = BackoffPolicy::standard(10_000_000_000);
    assert!(policy.may_retry(0));
    assert!(policy.may_retry(9_999_999_999));
    assert!(policy.may_retry(10_000_000_000));
    assert!(!policy.may_retry(10_000_000_001));
    assert!(!policy.may_retry(u128::MAX));
}
