//! The fixed-point value model shared by the whole crate.
//!
//! A signal value is a count of `SCALE`ths: the real value one is the count
//! `SCALE`, the real value minus one is `-SCALE`.  All operation contracts are
//! stated over this integer model, so every formula of the library is exact at
//! a resolution of one part in `SCALE`.

use vstd::prelude::*;

verus! {

/// Number of representation units in one full-scale signal unit.
pub const SCALE: i64 = 1_000_000_000;

/// One full period of a wrapped phase, in representation units.
pub const PERIOD: i64 = 2_000_000_000;

/// Magnitude of a value.
pub open spec fn mag(x: int) -> int {
    if x < 0 {
        -x
    } else {
        x
    }
}

/// Quotient of `a` by a positive divisor `d`, rounded toward zero, as a
/// hardware signed division rounds.
pub open spec fn div_trunc(a: int, d: int) -> int {
    if a >= 0 {
        a / d
    } else {
        -((-a) / d)
    }
}

/// Remainder of `a` modulo a positive divisor `d`, carrying the sign of `a`,
/// as a hardware signed remainder does.
pub open spec fn rem_trunc(a: int, d: int) -> int {
    if a >= 0 {
        a % d
    } else {
        -((-a) % d)
    }
}

/// Product of two signal values, brought back to scale with truncation
/// toward zero.
pub open spec fn scaled(a: int, b: int) -> int {
    div_trunc(a * b, SCALE as int)
}

/// Wrap a phase into `[-SCALE, SCALE]`: remainder modulo one period first,
/// then one bounded correction on each side, in that order.
pub open spec fn wrap_phase(s: int) -> int {
    let r = rem_trunc(s, PERIOD as int);
    if r < -SCALE {
        r + PERIOD
    } else if r > SCALE {
        r - PERIOD
    } else {
        r
    }
}

/// Hard-clip a value into `[-SCALE, SCALE]`.
pub open spec fn clamped(x: int) -> int {
    if x < -SCALE {
        -SCALE as int
    } else if x > SCALE {
        SCALE as int
    } else {
        x
    }
}

/// The wrapped phase always lies in the closed unit range.
pub proof fn lemma_wrap_phase_range(s: int)
    ensures
        -SCALE <= wrap_phase(s) <= SCALE,
{
    let p = PERIOD as int;
    if s >= 0 {
        vstd::arithmetic::div_mod::lemma_mod_bound(s, p);
    } else {
        vstd::arithmetic::div_mod::lemma_mod_bound(-s, p);
    }
}

/// Wrapping is periodic: phases one period apart wrap to the same value, or
/// to the two ends of the range, which stand for the same point of the
/// cycle, being one period apart themselves.
pub proof fn lemma_wrap_phase_periodic(s: int)
    ensures
        wrap_phase(s + PERIOD) == wrap_phase(s) || (wrap_phase(s + PERIOD) == SCALE
            && wrap_phase(s) == -SCALE),
{
    let p = PERIOD as int;
    if s >= 0 {
        vstd::arithmetic::div_mod::lemma_mod_add_multiples_vanish(s, p);
    } else if s + p < 0 {
        vstd::arithmetic::div_mod::lemma_mod_add_multiples_vanish(-s - p, p);
    } else if -s < p {
        vstd::arithmetic::div_mod::lemma_small_mod((-s) as nat, p as nat);
        vstd::arithmetic::div_mod::lemma_small_mod((s + p) as nat, p as nat);
    } else {
        vstd::arithmetic::div_mod::lemma_mod_self_0(p);
    }
}

/// A phase already in the closed unit range wraps to itself.
pub proof fn lemma_wrap_phase_identity(s: int)
    requires
        -SCALE <= s <= SCALE,
    ensures
        wrap_phase(s) == s,
{
    let p = PERIOD as int;
    if s >= 0 {
        vstd::arithmetic::div_mod::lemma_small_mod(s as nat, p as nat);
    } else {
        vstd::arithmetic::div_mod::lemma_small_mod((-s) as nat, p as nat);
    }
}

} // verus!
