use playback_heuristics::heuristics::{
    avg_u8, compute_legit_speed, compute_speed, evaluate_low_audio_ad, is_ad_time_wrap, sum_u8,
    volume_fade_step,
};
use playback_heuristics::scalar::Scalar;

const EIGHT: Scalar = Scalar::Milli(8000);

#[test]
fn compute_speed_legit_overrides_multiplier() {
    assert_eq!(compute_speed(true, false, Scalar::Milli(1000)), EIGHT);
    assert_eq!(compute_speed(true, true, Scalar::Milli(-2500)), EIGHT);
    assert_eq!(compute_speed(true, false, Scalar::Undefined), EIGHT);
}

#[test]
fn compute_speed_passes_multiplier_through() {
    assert_eq!(
        compute_speed(false, false, Scalar::Milli(1500)),
        Scalar::Milli(1500)
    );
    assert_eq!(
        compute_speed(false, true, Scalar::Milli(-300)),
        Scalar::Milli(-300)
    );
    assert_eq!(compute_speed(false, false, Scalar::Undefined), Scalar::Undefined);
}

#[test]
fn legit_speed_passes_multiplier_through_when_not_legit() {
    let m = Scalar::Milli(4200);
    for draw in [0u32, 1, u32::MAX] {
        assert_eq!(
            compute_legit_speed(
                false,
                true,
                m,
                Scalar::Milli(1000),
                Scalar::Milli(2000),
                Scalar::Milli(1500),
                draw
            ),
            m
        );
    }
}

#[test]
fn legit_speed_returns_base_without_randomize() {
    let base = Scalar::Milli(1250);
    assert_eq!(
        compute_legit_speed(
            true,
            false,
            Scalar::Milli(9000),
            Scalar::Milli(1000),
            Scalar::Milli(2000),
            base,
            7
        ),
        base
    );
}

#[test]
fn legit_speed_randomized_stays_within_bounds() {
    let lo = Scalar::Milli(1000);
    let hi = Scalar::Milli(2000);
    for draw in [0u32, 1, 12345, 0x8000_0000, u32::MAX] {
        // Bounds accepted in either order.
        for (a, b) in [(lo, hi), (hi, lo)] {
            let r = compute_legit_speed(true, true, Scalar::Milli(0), a, b, Scalar::Milli(0), draw);
            match r {
                Scalar::Milli(v) => assert!(1000 <= v && v < 2000),
                Scalar::Undefined => panic!("randomized speed must be definite"),
            }
        }
    }
}

#[test]
fn legit_speed_randomized_exact_points() {
    let lo = Scalar::Milli(1000);
    let hi = Scalar::Milli(2000);
    let zero = Scalar::Milli(0);
    // The draw is a binary fraction of the way across the interval.
    assert_eq!(compute_legit_speed(true, true, zero, lo, hi, zero, 0), lo);
    assert_eq!(
        compute_legit_speed(true, true, zero, lo, hi, zero, 0x8000_0000),
        Scalar::Milli(1500)
    );
    assert_eq!(
        compute_legit_speed(true, true, zero, lo, hi, zero, 0x4000_0000),
        Scalar::Milli(1250)
    );
    // The top draw still lands strictly below the upper bound.
    assert_eq!(
        compute_legit_speed(true, true, zero, lo, hi, zero, u32::MAX),
        Scalar::Milli(1999)
    );
}

#[test]
fn legit_speed_randomized_degenerate_interval() {
    let point = Scalar::Milli(1700);
    let zero = Scalar::Milli(0);
    for draw in [0u32, 99, u32::MAX] {
        assert_eq!(
            compute_legit_speed(true, true, zero, point, point, zero, draw),
            point
        );
    }
}

#[test]
fn legit_speed_randomized_undefined_bounds() {
    let zero = Scalar::Milli(0);
    let b = Scalar::Milli(1600);
    // One undefined bound defers to the other; two leave the result undefined.
    assert_eq!(
        compute_legit_speed(true, true, zero, Scalar::Undefined, b, zero, 123),
        b
    );
    assert_eq!(
        compute_legit_speed(true, true, zero, b, Scalar::Undefined, zero, 123),
        b
    );
    assert_eq!(
        compute_legit_speed(true, true, zero, Scalar::Undefined, Scalar::Undefined, zero, 123),
        Scalar::Undefined
    );
}

#[test]
fn ad_time_wrap_fires_on_short_backward_jump() {
    // 10.0 -> 2.0 over a 5.0 s segment, threshold 8.0 s.
    assert!(is_ad_time_wrap(
        Scalar::Milli(10000),
        Scalar::Milli(2000),
        Scalar::Milli(5000),
        Scalar::Milli(8000)
    ));
}

#[test]
fn ad_time_wrap_requires_every_condition() {
    let last = Scalar::Milli(10000);
    let current = Scalar::Milli(2000);
    let duration = Scalar::Milli(5000);
    let threshold = Scalar::Milli(8000);
    // Duration not below the threshold.
    assert!(!is_ad_time_wrap(last, current, duration, Scalar::Milli(3000)));
    // No backward jump.
    assert!(!is_ad_time_wrap(last, Scalar::Milli(11000), duration, threshold));
    // Jump at stream start: last_time not beyond the first second.
    assert!(!is_ad_time_wrap(
        Scalar::Milli(500),
        Scalar::Milli(100),
        duration,
        threshold
    ));
    // Zero-length segment.
    assert!(!is_ad_time_wrap(last, current, Scalar::Milli(0), threshold));
}

#[test]
fn ad_time_wrap_fails_closed_on_undefined_inputs() {
    let last = Scalar::Milli(10000);
    let current = Scalar::Milli(2000);
    let duration = Scalar::Milli(5000);
    let threshold = Scalar::Milli(8000);
    assert!(!is_ad_time_wrap(Scalar::Undefined, current, duration, threshold));
    assert!(!is_ad_time_wrap(last, Scalar::Undefined, duration, threshold));
    assert!(!is_ad_time_wrap(last, current, Scalar::Undefined, threshold));
    assert!(!is_ad_time_wrap(last, current, duration, Scalar::Undefined));
}

#[test]
fn avg_of_empty_buffer_is_zero() {
    assert_eq!(avg_u8(&vec![]), Scalar::Milli(0));
}

#[test]
fn avg_is_the_exact_milliunit_mean() {
    // 127.5 and 20.0, in milliunits.
    assert_eq!(avg_u8(&vec![0, 255]), Scalar::Milli(127_500));
    assert_eq!(avg_u8(&vec![10, 20, 30]), Scalar::Milli(20_000));
    assert_eq!(avg_u8(&vec![255; 4]), Scalar::Milli(255_000));
}

#[test]
fn sum_totals_every_sample() {
    assert_eq!(sum_u8(&vec![]), 0);
    assert_eq!(sum_u8(&vec![0, 255]), 255);
    assert_eq!(sum_u8(&vec![10, 20, 30]), 60);
    assert_eq!(sum_u8(&vec![255; 1000]), 255_000);
}

#[test]
fn fade_step_with_no_steps_drops_whole_volume() {
    // volume_fade_step(1.0, 0) == 1.0; a negative volume clamps to 0.0.
    assert_eq!(volume_fade_step(Scalar::Milli(1000), 0), Scalar::Milli(1000));
    assert_eq!(volume_fade_step(Scalar::Milli(-1000), 0), Scalar::Milli(0));
    assert_eq!(volume_fade_step(Scalar::Undefined, 0), Scalar::Milli(0));
}

#[test]
fn fade_step_divides_volume_over_steps() {
    assert_eq!(volume_fade_step(Scalar::Milli(1000), 4), Scalar::Milli(250));
    // 1.0 over 1000 steps sits exactly on the 0.001 floor.
    assert_eq!(volume_fade_step(Scalar::Milli(1000), 1000), Scalar::Milli(1));
}

#[test]
fn fade_step_never_stalls_or_reverses() {
    // Results below the floor, negative volumes and undefined volumes all
    // land on the one-milliunit floor.
    assert_eq!(volume_fade_step(Scalar::Milli(1000), 2000), Scalar::Milli(1));
    assert_eq!(volume_fade_step(Scalar::Milli(-5000), 10), Scalar::Milli(1));
    assert_eq!(volume_fade_step(Scalar::Milli(0), 10), Scalar::Milli(1));
    assert_eq!(volume_fade_step(Scalar::Undefined, 10), Scalar::Milli(1));
}

#[test]
fn low_audio_ad_fires_on_short_quiet_segment() {
    // avg 5.0 under threshold 20.0, duration 4.0 under the 10.0 cap.
    assert!(evaluate_low_audio_ad(
        Scalar::Milli(5000),
        Scalar::Milli(4000),
        Scalar::Milli(10000),
        Scalar::Milli(20000)
    ));
}

#[test]
fn low_audio_ad_requires_every_condition() {
    let avg = Scalar::Milli(5000);
    let cap = Scalar::Milli(10000);
    let threshold = Scalar::Milli(20000);
    // Duration too long.
    assert!(!evaluate_low_audio_ad(avg, Scalar::Milli(15000), cap, threshold));
    // Zero-length segment.
    assert!(!evaluate_low_audio_ad(avg, Scalar::Milli(0), cap, threshold));
    // Too loud.
    assert!(!evaluate_low_audio_ad(
        Scalar::Milli(25000),
        Scalar::Milli(4000),
        cap,
        threshold
    ));
    // Undefined readings fail closed.
    assert!(!evaluate_low_audio_ad(Scalar::Undefined, Scalar::Milli(4000), cap, threshold));
    assert!(!evaluate_low_audio_ad(avg, Scalar::Undefined, cap, threshold));
}
