//! Fixed-point cosine of pi times a phase.
//!
//! The cosine is the one wave shape of this crate that no finite formula
//! gives exactly, so it is evaluated as the alternating even series in the
//! squared phase, truncated where its terms fall below the resolution of the
//! value model.  Every coefficient and every rounding of the evaluation is
//! pinned by the contract, so the result is a fixed, machine-independent
//! function of the phase.

use vstd::prelude::*;

use crate::units::SCALE;
use vstd::arithmetic::div_mod::{lemma_div_is_ordered, lemma_div_multiples_vanish};
use vstd::arithmetic::mul::lemma_mul_inequality;

verus! {

// Coefficients of the even series for the cosine of pi times a phase, in
// powers of the squared phase: `C<k>` is pi to the 2k, over the factorial of
// 2k, at [`SCALE`] resolution, rounded to nearest.  From the second on they
// descend, which keeps every inner step of the evaluation nonnegative.
pub const C0: i64 = 1_000_000_000;

pub const C1: u64 = 4_934_802_201;

pub const C2: u64 = 4_058_712_126;

pub const C3: u64 = 1_335_262_769;

pub const C4: u64 = 235_330_630;

pub const C5: u64 = 25_806_891;

pub const C6: u64 = 1_929_574;

pub const C7: u64 = 104_638;

pub const C8: u64 = 4_303;

pub const C9: u64 = 139;

pub const C10: u64 = 4;

/// One step of the inner-first evaluation of the alternating series: the
/// next coefficient, less the running value brought down by `y` at scale.
pub open spec fn wave_step(c: int, y: int, r: int) -> int {
    c - (y * r) / (SCALE as int)
}

/// The cosine of pi times a phase, at fixed point.  `y` is the squared
/// phase at scale; the alternating even series is evaluated inner-first,
/// each product truncated at the resolution.
pub open spec fn cospi_val(y: int) -> int {
    let r = C10 as int;
    let r = wave_step(C9 as int, y, r);
    let r = wave_step(C8 as int, y, r);
    let r = wave_step(C7 as int, y, r);
    let r = wave_step(C6 as int, y, r);
    let r = wave_step(C5 as int, y, r);
    let r = wave_step(C4 as int, y, r);
    let r = wave_step(C3 as int, y, r);
    let r = wave_step(C2 as int, y, r);
    let r = wave_step(C1 as int, y, r);
    wave_step(C0 as int, y, r)
}

/// Bringing a value down by a factor of at most one leaves it between zero
/// and itself.
proof fn lemma_scale_down(y: int, r: int)
    requires
        0 <= y <= SCALE,
        0 <= r,
    ensures
        0 <= (y * r) / (SCALE as int) <= r,
{
    let s = SCALE as int;
    lemma_mul_inequality(y, s, r);
    lemma_div_is_ordered(0, y * r, s);
    lemma_div_is_ordered(y * r, s * r, s);
    lemma_div_multiples_vanish(r, s);
}

/// One inner step of the series, executably: the subtraction stays
/// nonnegative because the coefficients descend.
fn wave_step_down(c: u64, y: u64, r: u64) -> (r2: u64)
    requires
        y <= SCALE as u64,
        r <= c,
    ensures
        r2 as int == wave_step(c as int, y as int, r as int),
        r2 <= c,
{
    proof {
        lemma_scale_down(y as int, r as int);
    }
    let q: u128 = (y as u128 * r as u128) / (SCALE as u128);
    c - (q as u64)
}

/// Evaluate the cosine of pi times a phase whose square at scale is `y`.
pub fn cospi(y: u64) -> (r: i64)
    requires
        y <= SCALE as u64,
    ensures
        r as int == cospi_val(y as int),
{
    let r: u64 = C10;
    let r: u64 = wave_step_down(C9, y, r);
    let r: u64 = wave_step_down(C8, y, r);
    let r: u64 = wave_step_down(C7, y, r);
    let r: u64 = wave_step_down(C6, y, r);
    let r: u64 = wave_step_down(C5, y, r);
    let r: u64 = wave_step_down(C4, y, r);
    let r: u64 = wave_step_down(C3, y, r);
    let r: u64 = wave_step_down(C2, y, r);
    let r: u64 = wave_step_down(C1, y, r);
    proof {
        lemma_scale_down(y as int, r as int);
    }
    let q: u128 = (y as u128 * r as u128) / (SCALE as u128);
    C0 - (q as i64)
}

} // verus!
