use std::time::{Duration, Instant};

use moq_probe::clock::{duration_millis, epoch_millis, millis_between, now_ms};
use moq_probe::rate::{
    allowed_bytes_in_nanos, allowed_total_bytes, bitrate_bps, goodput_passes, padding_due_bytes,
    padding_due_in_nanos, stage_target_bps,
};

#[test]
fn stage_targets_are_exact() {
    assert_eq!(stage_target_bps(8_000_000, 50), 4_000_000);
    assert_eq!(stage_target_bps(8_000_000, 75), 6_000_000);
    assert_eq!(stage_target_bps(8_000_000, 100), 8_000_000);
}

#[test]
fn stage_targets_round_down_and_saturate() {
    assert_eq!(stage_target_bps(3, 50), 1);
    assert_eq!(stage_target_bps(0, 75), 0);
    assert_eq!(stage_target_bps(u64::MAX, 100), u64::MAX);
    assert_eq!(stage_target_bps(u64::MAX, 101), u64::MAX);
    assert!(stage_target_bps(12_345, 75) <= stage_target_bps(12_345, 100));
}

#[test]
fn cumulative_budget_has_no_tick_rounding_drift() {
    let target = 1_000_001;
    let elapsed = Duration::from_secs(60);
    assert_eq!(
        allowed_total_bytes(target, elapsed),
        (target as u128 * 60 / 8) as u64
    );
}

#[test]
fn budgets_are_whole_bytes() {
    assert_eq!(allowed_bytes_in_nanos(8, 999_999_999), 0);
    assert_eq!(allowed_bytes_in_nanos(8, 1_000_000_000), 1);
    assert_eq!(allowed_bytes_in_nanos(u64::MAX, u128::MAX), u64::MAX);
    assert_eq!(allowed_total_bytes(8_000_000, Duration::from_millis(10)), 10_000);
    assert_eq!(allowed_total_bytes(u64::MAX, Duration::MAX), u64::MAX);
}

#[test]
fn media_above_target_needs_no_padding_after_trigger() {
    assert_eq!(
        padding_due_bytes(4_000_000, Duration::from_secs(1), 500_000, 1),
        0
    );
}

#[test]
fn target_zero_needs_no_padding_after_trigger() {
    assert_eq!(padding_due_bytes(0, Duration::from_secs(1), 100, 1), 0);
}

#[test]
fn padding_fills_what_is_left() {
    assert_eq!(
        padding_due_bytes(4_000_000, Duration::from_secs(1), 100, 1),
        499_899
    );
    assert_eq!(padding_due_in_nanos(4_000_000, 1_000_000_000, 100, 499_900), 0);
    assert_eq!(padding_due_in_nanos(4_000_000, 1_000_000_000, u64::MAX, u64::MAX), 0);
}

#[test]
fn gate_is_exact_at_ninety_percent() {
    assert!(!goodput_passes(89, 100, 90));
    assert!(goodput_passes(90, 100, 90));
    assert!(goodput_passes(91, 100, 90));
}

#[test]
fn gate_holds_at_the_limits() {
    assert!(goodput_passes(0, 0, 90));
    assert!(goodput_passes(u64::MAX, u64::MAX, 100));
    assert!(!goodput_passes(u64::MAX, u64::MAX, 101));
}

#[test]
fn bitrates_round_down() {
    assert_eq!(bitrate_bps(1000, 0), 0);
    assert_eq!(bitrate_bps(1000, 1000), 8000);
    assert_eq!(bitrate_bps(1, 3), 2666);
    assert_eq!(bitrate_bps(u64::MAX, 1), u64::MAX);
}

#[test]
fn clocks_are_read_in_milliseconds() {
    assert_eq!(duration_millis(Duration::from_micros(1_999)), 1);
    let earlier = Instant::now();
    let later = earlier + Duration::from_millis(17);
    assert_eq!(millis_between(later, earlier), 17);
    assert_eq!(millis_between(earlier, later), 0);
    assert_eq!(epoch_millis(None), 0);
    assert_eq!(epoch_millis(Some(Duration::from_secs(2))), 2_000);
    assert!(now_ms() > 1_600_000_000_000);
}

#[test]
fn rates_grow_with_what_they_depend_on() {
    assert!(goodput_passes(900, 1_000, 90));
    assert!(goodput_passes(901, 999, 89));
    assert!(bitrate_bps(10, 7) <= bitrate_bps(11, 6));
    assert!(allowed_bytes_in_nanos(8_000, 5_000_000) <= allowed_bytes_in_nanos(9_000, 6_000_000));
    assert!(stage_target_bps(7_000, 50) <= stage_target_bps(8_000, 75));
}

#[test]
fn a_whole_budget_keeps_the_fractions_of_its_parts() {
    assert_eq!(allowed_bytes_in_nanos(12, 1_000_000_000), 1);
    assert_eq!(allowed_bytes_in_nanos(12, 2_000_000_000), 3);
}
