use drone_physics::fixed::{
    ceil_sqrt, clamp64, cos_fp, fp_add, fp_mul, fp_scale, fp_sub, sin_fp, tdiv64, wrap_pi,
    wrap_two_pi, FP_HALF_PI, FP_ONE, FP_PI, FP_SAT, FP_TWO_PI,
};

#[test]
fn truncating_division_rounds_toward_zero() {
    assert_eq!(tdiv64(7, 2), 3);
    assert_eq!(tdiv64(-7, 2), -3);
    assert_eq!(tdiv64(599999, 600000), 0);
    assert_eq!(tdiv64(-599999, 600000), 0);
}

#[test]
fn multiplication_rescales_and_saturates() {
    assert_eq!(fp_mul(2000000, 3000000), 6000000);
    assert_eq!(fp_mul(-2000000, 3000000), -6000000);
    assert_eq!(fp_mul(500000, 500000), 250000);
    assert_eq!(fp_mul(FP_SAT, FP_SAT), FP_SAT);
    assert_eq!(fp_mul(FP_SAT, -FP_SAT), -FP_SAT);
}

#[test]
fn addition_saturates_at_the_envelope() {
    assert_eq!(fp_add(FP_SAT, FP_SAT), FP_SAT);
    assert_eq!(fp_add(-FP_SAT, -1), -FP_SAT);
    assert_eq!(fp_add(1, 2), 3);
    assert_eq!(fp_sub(1, 2), -1);
}

#[test]
fn clamping_is_exact() {
    assert_eq!(clamp64(5, 0, 10), 5);
    assert_eq!(clamp64(-5, 0, 10), 0);
    assert_eq!(clamp64(15, 0, 10), 10);
}

#[test]
fn scaling_by_a_count_is_a_plain_product() {
    assert_eq!(fp_scale(500000, 3), 1500000);
    assert_eq!(fp_scale(-500000, 3), -1500000);
    assert_eq!(fp_scale(FP_SAT, 2), FP_SAT);
}

#[test]
fn angle_wrapping_covers_both_signs() {
    assert_eq!(wrap_two_pi(0), 0);
    assert_eq!(wrap_two_pi(FP_TWO_PI), 0);
    assert_eq!(wrap_two_pi(-1), FP_TWO_PI - 1);
    assert_eq!(wrap_pi(3 * FP_PI), 3141591);
    assert_eq!(wrap_pi(-FP_PI), -FP_PI);
    assert_eq!(wrap_pi(7000000), 716815);
    assert_eq!(wrap_pi(FP_PI), FP_PI);
}

#[test]
fn sine_and_cosine_hit_the_axis_points() {
    assert_eq!(sin_fp(0), 0);
    assert_eq!(cos_fp(0), FP_ONE);
    assert_eq!(sin_fp(FP_HALF_PI), FP_ONE);
    assert_eq!(cos_fp(FP_HALF_PI), 0);
    assert_eq!(sin_fp(FP_PI), 0);
    assert_eq!(cos_fp(FP_PI), -FP_ONE);
}

#[test]
fn sine_stays_within_one_everywhere() {
    let mut a: i64 = -7000000;
    while a <= 7000000 {
        let s = sin_fp(a);
        let c = cos_fp(a);
        assert!(-FP_ONE <= s && s <= FP_ONE);
        assert!(-FP_ONE <= c && c <= FP_ONE);
        a += 37501;
    }
}

#[test]
fn sine_tracks_the_real_function_closely() {
    let mut a: i64 = 0;
    while a < FP_TWO_PI {
        let s = sin_fp(a) as f64 / 1.0e6;
        let ideal = (a as f64 / 1.0e6).sin();
        assert!((s - ideal).abs() < 5.0e-5);
        a += 10007;
    }
}

#[test]
fn integer_square_root_ceiling_is_exact() {
    assert_eq!(ceil_sqrt(0), 0);
    assert_eq!(ceil_sqrt(1), 1);
    assert_eq!(ceil_sqrt(2), 2);
    assert_eq!(ceil_sqrt(4), 2);
    assert_eq!(ceil_sqrt(5), 3);
    assert_eq!(ceil_sqrt(9), 3);
    assert_eq!(ceil_sqrt(10), 4);
    assert_eq!(ceil_sqrt(65535 * 65535), 65535);
    assert_eq!(ceil_sqrt(65535 * 65535 + 1), 65536);
}
