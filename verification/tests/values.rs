use rbuilder_operator::build_info::version_from_build_info;
use rbuilder_operator::timestamp::{
    Timestamp, MAX_UNIX_TIMESTAMP, MIN_UNIX_TIMESTAMP, WIDEST_MAX_UNIX_TIMESTAMP,
    WIDEST_MIN_UNIX_TIMESTAMP,
};
use rbuilder_operator::u256::U256;

#[test]
fn u256_from_limbs_slice_pads_with_zeros() {
    let v = U256::from_limbs_slice(&[1, 2]);
    assert_eq!(v.limbs, [1, 2, 0, 0]);
    assert_eq!(v.as_limbs_vec(), vec![1, 2, 0, 0]);
    let w = U256::from_limbs_slice(&[1, 2, 3, 4, 0, 0]);
    assert_eq!(w.limbs, [1, 2, 3, 4]);
    assert_eq!(U256::from_limbs_slice(&[]), U256::zero());
}

#[test]
fn u256_compares_by_value() {
    let small = U256::from_limbs_slice(&[u64::MAX, 0, 0, 0]);
    let big = U256::from_limbs_slice(&[0, 1, 0, 0]);
    assert!(small.lt(&big));
    assert!(!big.lt(&small));
    assert!(!big.lt(&big));
    let top = U256::from_limbs_slice(&[0, 0, 0, 1]);
    let below_top = U256::from_limbs_slice(&[u64::MAX, u64::MAX, u64::MAX, 0]);
    assert!(below_top.lt(&top));
    assert!(big.eq_value(&U256::from_limbs_slice(&[0, 1])));
    assert!(!big.eq_value(&small));
}

#[test]
fn u256_zero() {
    assert!(U256::zero().is_zero());
    assert!(U256::default().is_zero());
    assert!(!U256::from_u64(1).is_zero());
    assert!(!U256::from_limbs_slice(&[0, 0, 0, 1]).is_zero());
}

#[test]
fn timestamp_from_unix_timestamp() {
    let t = Timestamp::from_unix_timestamp(1_546_300_800).unwrap();
    assert_eq!(t.unix_timestamp(), 1_546_300_800);
    assert_eq!(t.unix_timestamp_nanos(), 1_546_300_800_000_000_000);
    assert_eq!(t.to_timestamp_us(), 1_546_300_800_000_000);
    assert_eq!(t.to_timestamp_ms(), 1_546_300_800_000);
    assert!(Timestamp::from_unix_timestamp(MIN_UNIX_TIMESTAMP).is_some());
    assert!(Timestamp::from_unix_timestamp(MAX_UNIX_TIMESTAMP).is_some());
    assert!(Timestamp::from_unix_timestamp(i64::MAX).is_none());
    assert!(Timestamp::from_unix_timestamp(i64::MIN).is_none());
}

#[test]
fn timestamp_before_epoch() {
    let t = Timestamp::from_unix_timestamp(-1).unwrap();
    assert_eq!(t.unix_timestamp(), -1);
    assert_eq!(t.unix_timestamp_nanos(), -1_000_000_000);
    // Microseconds wrap around as a u64 cast does.
    assert_eq!(t.to_timestamp_us(), (-1_000_000i64) as u64);
}

#[test]
fn timestamp_from_microseconds() {
    let t = Timestamp::from_timestamp_us(1_700_000_000_123_456);
    assert_eq!(t.unix_timestamp(), 1_700_000_000);
    assert_eq!(t.unix_timestamp_nanos(), 1_700_000_000_123_456_000);
    assert_eq!(t.to_timestamp_us(), 1_700_000_000_123_456);
    assert_eq!(t.to_timestamp_ms(), 1_700_000_000_123);
    let max = Timestamp::from_timestamp_us(u64::MAX);
    assert_eq!(max.to_timestamp_us(), u64::MAX);
}

#[test]
fn now_is_after_2020() {
    let now = Timestamp::now_utc();
    assert!(now.unix_timestamp() > 1_577_836_800);
}

#[test]
fn version_defaults_to_unknown() {
    let v = version_from_build_info(Some("abc123"), Some("refs/heads/main"), "2024-01-01");
    assert_eq!(v.git_commit, "abc123");
    assert_eq!(v.git_ref, "refs/heads/main");
    assert_eq!(v.build_time_utc, "2024-01-01");
    let v = version_from_build_info(None, None, "t");
    assert_eq!(v.git_commit, "unknown");
    assert_eq!(v.git_ref, "unknown");
    let v = version_from_build_info(Some(""), Some(""), "t");
    assert_eq!(v.git_commit, "unknown");
    assert_eq!(v.git_ref, "");
}

#[test]
fn timestamp_from_parts() {
    let t = Timestamp::from_unix_parts(10, 5).unwrap();
    assert_eq!(t.unix_timestamp(), 10);
    assert_eq!(t.unix_timestamp_nanos(), 10_000_000_005);
    assert!(Timestamp::from_unix_parts(10, 1_000_000_000).is_none());
    let before = Timestamp::from_unix_parts(-2, 500_000_000).unwrap();
    assert_eq!(before.unix_timestamp_nanos(), -1_500_000_000);
    assert_eq!(before.unix_timestamp(), -2);
}

#[test]
fn timestamp_microseconds_round_trip() {
    for us in [0u64, 1, 999, 1_000_000, 1_700_000_000_000_123, u64::MAX] {
        assert_eq!(Timestamp::from_timestamp_us(us).to_timestamp_us(), us);
    }
}

#[test]
fn u256_limbs_round_trip() {
    let v = U256 { limbs: [1, u64::MAX, 0, 7] };
    assert_eq!(U256::from_limbs_slice(&v.as_limbs_vec()), v);
    assert_eq!(v.as_limbs_vec(), vec![1, u64::MAX, 0, 7]);
}

#[test]
fn timestamps_past_every_time_range_are_refused() {
    assert!(Timestamp::from_unix_timestamp(WIDEST_MAX_UNIX_TIMESTAMP + 1).is_none());
    assert!(Timestamp::from_unix_timestamp(WIDEST_MIN_UNIX_TIMESTAMP - 1).is_none());
    assert!(Timestamp::from_unix_timestamp(i64::MAX).is_none());
    assert!(Timestamp::from_unix_timestamp(i64::MIN).is_none());
    assert!(Timestamp::from_unix_timestamp(MAX_UNIX_TIMESTAMP).is_some());
    assert!(Timestamp::from_unix_timestamp(MIN_UNIX_TIMESTAMP).is_some());
}
