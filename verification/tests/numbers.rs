use bullet_hell::fixed::{fx_div, fx_mul, isqrt, mul_div, narrow, sat_add, sat_sub, share_of, ONE};
use bullet_hell::trig::{cos, cos_step, sin, sin_step, step, step_angle, NORM_SLACK, PI, TAU};

#[test]
fn one_is_a_thousand() {
    assert_eq!(ONE, 1000);
}

#[test]
fn sums_and_differences_saturate() {
    assert_eq!(sat_add(2, 3), 5);
    assert_eq!(sat_add(i64::MAX, 1), i64::MAX);
    assert_eq!(sat_add(i64::MIN, -1), i64::MIN);
    assert_eq!(sat_sub(2, 3), -1);
    assert_eq!(sat_sub(i64::MIN, 1), i64::MIN);
    assert_eq!(sat_sub(i64::MAX, -1), i64::MAX);
}

#[test]
fn narrow_clamps_wide_values() {
    assert_eq!(narrow(7), 7);
    assert_eq!(narrow(i64::MAX as i128 + 1), i64::MAX);
    assert_eq!(narrow(i64::MIN as i128 - 1), i64::MIN);
}

#[test]
fn products_round_down() {
    assert_eq!(fx_mul(1500, 2000), 3000);
    assert_eq!(fx_mul(1, 1), 0);
    assert_eq!(fx_mul(-1, 1), -1);
    assert_eq!(fx_mul(-1500, 2000), -3000);
    assert_eq!(fx_mul(i64::MAX, i64::MAX), i64::MAX);
    assert_eq!(fx_mul(i64::MAX, i64::MIN), i64::MIN);
}

#[test]
fn quotients_round_down() {
    assert_eq!(fx_div(1000, 3000), 333);
    assert_eq!(fx_div(-1000, 3000), -334);
    assert_eq!(fx_div(1000, -3000), -334);
    assert_eq!(fx_div(-1000, -3000), 333);
    assert_eq!(fx_div(6000, 2000), 3000);
}

#[test]
fn mul_div_rounds_once() {
    assert_eq!(mul_div(400_000, 1000, 3000), 133_333);
    assert_eq!(mul_div(400_000, 3000, 3000), 400_000);
    assert_eq!(mul_div(-7, 1, 2), -4);
    assert_eq!(mul_div(7, -1, 2), -4);
    assert_eq!(mul_div(7, 1, 2), 3);
}

#[test]
fn division_by_zero_gives_the_limit() {
    assert_eq!(mul_div(5, 1, 0), i64::MAX);
    assert_eq!(mul_div(-5, 1, 0), i64::MIN);
    assert_eq!(mul_div(0, 1, 0), 0);
    assert_eq!(fx_div(1, 0), i64::MAX);
}

#[test]
fn square_roots_round_down() {
    assert_eq!(isqrt(0), 0);
    assert_eq!(isqrt(1), 1);
    assert_eq!(isqrt(15), 3);
    assert_eq!(isqrt(16), 4);
    assert_eq!(isqrt(25_000_000), 5000);
    assert_eq!(isqrt(u128::MAX), u64::MAX as u128);
}

#[test]
fn shares_split_a_span() {
    assert_eq!(share_of(0, 6283, 4), 0);
    assert_eq!(share_of(1, 6283, 4), 1570);
    assert_eq!(share_of(2, 6283, 4), 3141);
    assert_eq!(share_of(4, 6283, 4), 6283);
    assert_eq!(share_of(1, -10, 4), -3);
}

#[test]
fn angles_fall_into_steps() {
    assert_eq!(step(0), 0);
    assert_eq!(step(1571), 250);
    assert_eq!(step(TAU), 0);
    assert_eq!(step(TAU - 1), 999);
    assert_eq!(step(-1), 999);
    assert_eq!(step(-1571), 749);
    assert_eq!(step(PI), 500);
}

#[test]
fn every_step_angle_lies_in_its_step() {
    for k in 0..1000usize {
        let a = step_angle(k);
        assert!(0 <= a && a < TAU);
        assert_eq!(step(a), k);
    }
}

#[test]
fn sines_at_the_quarter_turns() {
    assert_eq!((sin(0), cos(0)), (0, 1000));
    assert_eq!((sin(1571), cos(1571)), (1000, 0));
    assert_eq!((sin(3142), cos(3142)), (0, -1000));
    assert_eq!((sin(4713), cos(4713)), (-1000, 0));
    assert_eq!((sin(TAU), cos(TAU)), (0, 1000));
}

#[test]
fn sines_in_between() {
    assert_eq!((sin(1000), cos(1000)), (841, 541));
    assert_eq!((sin(500), cos(500)), (476, 879));
    assert_eq!((sin(785), cos(785)), (703, 712));
    assert_eq!((sin(-1), cos(-1)), (-6, 1000));
    assert_eq!((sin(-1571), cos(-1571)), (-1000, -6));
}

#[test]
fn sine_is_odd_and_cosine_even_over_steps() {
    for k in 1..1000usize {
        assert_eq!(sin_step(k), -sin_step(1000 - k));
        assert_eq!(cos_step(k), cos_step(1000 - k));
    }
}

#[test]
fn every_direction_has_length_one_up_to_the_slack() {
    for k in 0..1000usize {
        let s = sin_step(k);
        let c = cos_step(k);
        let off = s * s + c * c - 1_000_000;
        assert!(-NORM_SLACK <= off && off <= NORM_SLACK, "step {k}");
    }
}

#[test]
fn extreme_angles_do_not_fault() {
    for a in [i64::MIN, i64::MIN + 1, -TAU, i64::MAX - 1, i64::MAX] {
        let s = sin(a);
        let c = cos(a);
        assert!((-1000..=1000).contains(&s));
        assert!((-1000..=1000).contains(&c));
    }
}
