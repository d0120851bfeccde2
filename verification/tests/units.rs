use particles::fx::{fx_lerp, fx_mul, isqrt, FX_ONE};
use particles::rng::spread_component;
use particles::timer::RepeatTimer;

#[test]
fn fx_one_is_a_thousand() {
    assert_eq!(FX_ONE, 1000);
}

#[test]
fn fx_mul_scales_products_down() {
    assert_eq!(fx_mul(1500, 1500), 2250);
    assert_eq!(fx_mul(-1500, 1500), -2250);
    assert_eq!(fx_mul(10000, 1000), 10000);
    assert_eq!(fx_mul(0, 123456), 0);
}

#[test]
fn fx_mul_truncates_toward_zero() {
    assert_eq!(fx_mul(999, 1), 0);
    assert_eq!(fx_mul(-999, 1), 0);
    assert_eq!(fx_mul(1999, 1), 1);
    assert_eq!(fx_mul(-1999, 1), -1);
}

#[test]
fn fx_lerp_interpolates() {
    assert_eq!(fx_lerp(0, 1000, 0), 0);
    assert_eq!(fx_lerp(0, 1000, 500), 500);
    assert_eq!(fx_lerp(0, 1000, 1000), 1000);
    assert_eq!(fx_lerp(10000, -10000, 250), 5000);
    assert_eq!(fx_lerp(10000, -10000, 1000), -10000);
    assert_eq!(fx_lerp(-300, -300, 700), -300);
}

#[test]
fn isqrt_is_the_floor_square_root() {
    assert_eq!(isqrt(0), 0);
    assert_eq!(isqrt(1), 1);
    assert_eq!(isqrt(24), 4);
    assert_eq!(isqrt(25), 5);
    assert_eq!(isqrt(26), 5);
    assert_eq!(isqrt(25_000_000), 5000);
    assert_eq!(isqrt(4_000_000_000_000), 2_000_000);
}

#[test]
fn spread_component_covers_the_symmetric_range() {
    assert_eq!(spread_component(0, 32000), -32000);
    assert_eq!(spread_component(32000, 32000), 0);
    assert_eq!(spread_component(64000, 32000), 32000);
    assert_eq!(spread_component(64001, 32000), -32000);
}

#[test]
fn timer_fires_once_on_second_tick() {
    let mut t = RepeatTimer::new(2000);
    assert!(!t.tick(1000));
    assert_eq!(t.elapsed, 1000);
    assert!(t.tick(1000));
    assert_eq!(t.elapsed, 0);
    assert_eq!(t.interval, 2000);
}

#[test]
fn timer_overshoot_fires_and_restarts_from_zero() {
    let mut t = RepeatTimer::new(2000);
    assert!(t.tick(5000));
    assert_eq!(t.elapsed, 0);
    assert!(!t.tick(1999));
    assert!(t.tick(1));
}
