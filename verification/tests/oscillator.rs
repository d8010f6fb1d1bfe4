//! Tests of the sine oscillator against the reference cosine.

use std::f64::consts::PI;
use twang::units::SCALE;
use twang::Signal;

fn sine_of(units: i64) -> i64 {
    i64::from(Signal::from(units).sine())
}

#[test]
fn sine_exact_landmarks() {
    // The cosine of pi times the phase, at the quarter points of the cycle.
    assert_eq!(sine_of(0), SCALE);
    assert_eq!(sine_of(SCALE), -SCALE);
    assert_eq!(sine_of(-SCALE), -SCALE);
    assert_eq!(sine_of(500_000_000), 0);
    assert_eq!(sine_of(-500_000_000), 0);
}

#[test]
fn sine_matches_reference_cosine() {
    // Across the whole unit range of phases, the sample tracks the real
    // cosine of pi times the phase well inside audio precision.
    for k in -400..=400i64 {
        let u = k * (SCALE / 400);
        let got = sine_of(u) as f64 / SCALE as f64;
        let expected = (u as f64 / SCALE as f64 * PI).cos();
        assert!(
            (got - expected).abs() < 1e-6,
            "phase {} units: got {}, expected {}",
            u,
            got,
            expected
        );
    }
}

#[test]
fn sine_is_even() {
    for k in 0..=100i64 {
        let u = k * (SCALE / 100);
        assert_eq!(sine_of(u), sine_of(-u));
    }
}

#[test]
fn sine_wraps_phase_first() {
    // The phase is wrapped by whole periods before shaping, so phases a
    // period apart give the same sample.
    for u in [0i64, 123_456_789, -987_654_321, SCALE] {
        assert_eq!(sine_of(u), sine_of(u + 2 * SCALE));
        assert_eq!(sine_of(u), sine_of(u - 2 * SCALE));
    }
}

#[test]
fn sine_stays_in_unit_range() {
    let mut u = -5 * SCALE;
    while u <= 5 * SCALE {
        let s = sine_of(u);
        assert!(-SCALE <= s && s <= SCALE);
        u += 10_000_000;
    }
}
