use sshchic::rate::{exp_moving_average, MAX_SAMPLE, RATE_UNIT, WEIGHT_SCALE};

#[test]
fn zero_weight_keeps_old_value() {
    assert_eq!(exp_moving_average(1200, 1000, 0), 1000);
    assert_eq!(exp_moving_average(0, 77, 0), 77);
}

#[test]
fn full_weight_takes_new_value() {
    assert_eq!(exp_moving_average(1200, 1000, WEIGHT_SCALE), 1200);
}

#[test]
fn half_weight_is_the_midpoint() {
    assert_eq!(exp_moving_average(1200, 1000, WEIGHT_SCALE / 2), 1100);
    assert_eq!(exp_moving_average(1000, 1200, WEIGHT_SCALE / 2), 1100);
}

#[test]
fn weighted_blend_rounds_down() {
    // 0.25 * 10 + 0.75 * 3 = 4.75
    assert_eq!(exp_moving_average(10, 3, 250_000), 4);
}

#[test]
fn largest_values_do_not_overflow() {
    assert_eq!(exp_moving_average(MAX_SAMPLE, MAX_SAMPLE, 123_456), MAX_SAMPLE);
    assert_eq!(exp_moving_average(MAX_SAMPLE, 0, WEIGHT_SCALE), MAX_SAMPLE);
}

#[test]
fn small_difference_is_not_rounded_away() {
    // old rate 1000 attempts per tick, new sample 1001, weight of 250 ms in 5 s
    let old = 1000 * RATE_UNIT;
    let r = exp_moving_average(1001 * RATE_UNIT, old, 48_771);
    assert_eq!(r, old + 48_771);
}

#[test]
fn result_lies_between_old_and_new() {
    let samples = [(0u128, 100u128), (100, 0), (5000, 4000), (7, 7), (1, 1_000_000)];
    for (value, old) in samples {
        for weight in [0u64, 1, 1000, 400_000, 999_999, WEIGHT_SCALE] {
            let r = exp_moving_average(value, old, weight);
            assert!(r >= value.min(old) && r <= value.max(old));
        }
    }
}

#[test]
fn larger_weight_comes_closer_to_the_sample() {
    let value = 9000u128;
    let old = 1000u128;
    let mut last_distance = u128::MAX;
    for weight in [0u64, 100_000, 500_000, 900_000, 999_000, WEIGHT_SCALE] {
        let r = exp_moving_average(value, old, weight);
        let distance = value - r;
        assert!(distance <= last_distance);
        last_distance = distance;
    }
    assert_eq!(last_distance, 0);
}
