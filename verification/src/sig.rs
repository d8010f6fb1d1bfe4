//! Digital audio signal.
//!
//! A [`Signal`] is a signed sample or control value that can be routed
//! through processing components.  It differs from a [`Mono`] channel sample
//! in that it is not confined to the unit range: a phase accumulator, a gain
//! factor or an intermediate product may exceed full scale by design.
//!
//! Values are held in fixed point, as a count of [`SCALE`]ths of full scale
//! (see [`crate::units`]), so that every wave-shaping formula of this crate
//! is stated and proved exactly at that resolution.

use vstd::prelude::*;

use crate::units::{clamped, div_trunc, mag, scaled, wrap_phase, PERIOD, SCALE};
use crate::units::{lemma_wrap_phase_identity, lemma_wrap_phase_periodic, lemma_wrap_phase_range};
use crate::wave::{cospi, cospi_val};
use vstd::arithmetic::div_mod::{lemma_div_is_ordered, lemma_div_multiples_vanish};
use vstd::arithmetic::div_mod::{lemma_fundamental_div_mod, lemma_mod_self_0, lemma_small_mod};

verus! {

/// A signed digital audio signal, held as a count of [`SCALE`]ths of full
/// scale.  Unlike a [`Mono`] channel sample, it is not clamped to the unit
/// range.
#[derive(Clone, Copy, Debug, PartialEq, Eq, Structural)]
pub struct Signal(pub i64);

impl View for Signal {
    type V = int;

    open spec fn view(&self) -> int {
        self.0 as int
    }
}

/// A single-channel audio sample: a signal value confined to the closed unit
/// range.  Produced only by [`Signal::to_mono`], the one bridge out of the
/// unconstrained signal domain.
#[derive(Clone, Copy, Debug, PartialEq, Eq, Structural)]
pub struct Mono {
    units: i64,
}

impl View for Mono {
    type V = int;

    closed spec fn view(&self) -> int {
        self.units as int
    }
}

impl Mono {
    /// The sample value, as a count of [`SCALE`]ths of full scale.
    pub fn units(self) -> (u: i64)
        ensures
            u == self@,
    {
        self.units
    }
}

/// The value of a pulse wave: the sign of the distance between a phase and
/// its shifted copy, at full scale.  A distance of zero counts as positive,
/// matching the usual convention that the sign of a zero difference is
/// positive.
pub open spec fn pulse_val(x: int, half_duty: int) -> int {
    if x - wrap_phase(x + half_duty) >= 0 {
        SCALE as int
    } else {
        -SCALE as int
    }
}

/// The value of the sine oscillator: the phase wrapped into the unit range,
/// then the cosine of pi times it, clamped into the unit range to absorb
/// the rounding of the series that evaluates it.
pub open spec fn sine_val(x: int) -> int {
    let w = wrap_phase(x);
    clamped(cospi_val((w * w) / (SCALE as int)))
}

/// The value of a noise gate: the input itself when its magnitude exceeds
/// the cutoff, exactly zero otherwise.
pub open spec fn gate_val(x: int, limit: int) -> int {
    if mag(x) > limit {
        x
    } else {
        0
    }
}

impl Signal {
    /// Sine wave generator component - takes a sawtooth phase.
    /// Maps the phase through the cosine of pi times it, so a phase sweeping
    /// the unit range traces one full cosine cycle.
    pub fn sine(self) -> (r: Signal)
        ensures
            r@ == sine_val(self@),
            -SCALE <= r@ <= SCALE,
    {
        let w: Signal = self.shift(Signal(0));
        proof {
            assert(w@ * w@ >= 0 && w@ * w@ <= (SCALE as int) * (SCALE as int))
                by (nonlinear_arith)
                requires
                    -SCALE <= w@ <= SCALE,
            ;
            lemma_div_is_ordered(w@ * w@, (SCALE as int) * (SCALE as int), SCALE as int);
            lemma_div_is_ordered(0, w@ * w@, SCALE as int);
            lemma_div_multiples_vanish(SCALE as int, SCALE as int);
        }
        let p: i128 = w.0 as i128 * w.0 as i128;
        let y: u64 = ((p as u128) / (SCALE as u128)) as u64;
        let c: i64 = cospi(y);
        Signal(c).clamp()
    }

    /// Triangle wave generator component - takes a sawtooth phase.
    /// Maps the phase through twice-its-magnitude less full scale.
    pub fn triangle(self) -> (r: Signal)
        requires
            2 * mag(self@) - SCALE <= i64::MAX,
        ensures
            r@ == 2 * mag(self@) - SCALE,
    {
        let w: i128 = self.0 as i128;
        let m: i128 = if w < 0 {
            -w
        } else {
            w
        };
        Signal((2 * m - SCALE as i128) as i64)
    }

    /// Shift a signal.  Adds an amount to it and wraps the sum back into the
    /// closed unit range: remainder modulo one period first, then a single
    /// bounded correction on whichever side overshot, in that order.
    pub fn shift(self, amount: Signal) -> (r: Signal)
        ensures
            r@ == wrap_phase(self@ + amount@),
            -SCALE <= r@ <= SCALE,
    {
        proof {
            lemma_wrap_phase_range(self@ + amount@);
        }
        let s: i128 = self.0 as i128 + amount.0 as i128;
        let m: u128 = if s < 0 {
            (-s) as u128
        } else {
            s as u128
        };
        let rm: u128 = m % (PERIOD as u128);
        let r: i64 = if s < 0 {
            -(rm as i64)
        } else {
            rm as i64
        };
        if r < -SCALE {
            Signal(r + PERIOD)
        } else if r > SCALE {
            Signal(r - PERIOD)
        } else {
            Signal(r)
        }
    }

    /// Pulse wave generator component - takes a sawtooth phase.
    /// `half_duty` is half the duty cycle: full scale for a square wave.
    /// Returns the sign, at full scale, of the distance between the phase
    /// and its copy shifted by `half_duty`.
    pub fn pulse(self, half_duty: Signal) -> (r: Signal)
        ensures
            r@ == pulse_val(self@, half_duty@),
    {
        let shifted: Signal = self.shift(half_duty);
        let diff: i128 = self.0 as i128 - shifted.0 as i128;
        if diff >= 0 {
            Signal(SCALE)
        } else {
            Signal(-SCALE)
        }
    }

    /// Increase (amplify) or decrease the gain of the signal: the product of
    /// the two values, truncated toward zero at the resolution.  No
    /// clamping - the result may exceed full scale.
    pub fn gain(self, volume: Signal) -> (r: Signal)
        requires
            mag(scaled(self@, volume@)) <= i64::MAX,
        ensures
            r@ == scaled(self@, volume@),
    {
        let p: i128 = self.0 as i128 * volume.0 as i128;
        let m: u128 = if p < 0 {
            (-p) as u128
        } else {
            p as u128
        };
        let q: u128 = m / (SCALE as u128);
        proof {
            if p >= 0 {
                assert(scaled(self@, volume@) == (p as int) / (SCALE as int));
            } else {
                assert(scaled(self@, volume@) == -((-p as int) / (SCALE as int)));
            }
        }
        if p < 0 {
            Signal(-(q as i64))
        } else {
            Signal(q as i64)
        }
    }

    /// Invert (negate) the signal.
    pub fn invert(self) -> (r: Signal)
        requires
            self@ != i64::MIN,
        ensures
            r@ == -self@,
    {
        Signal(-self.0)
    }

    /// Magnitude of the signal.
    pub fn abs(self) -> (r: Signal)
        requires
            self@ != i64::MIN,
        ensures
            r@ == mag(self@),
    {
        if self.0 < 0 {
            Signal(-self.0)
        } else {
            Signal(self.0)
        }
    }

    /// The lesser of two signals.
    pub fn min(self, limit: Signal) -> (r: Signal)
        ensures
            r@ == if self@ <= limit@ {
                self@
            } else {
                limit@
            },
    {
        if self.0 <= limit.0 {
            self
        } else {
            limit
        }
    }

    /// The greater of two signals: the true pointwise maximum, the exact
    /// dual of [`Signal::min`] - so composing the two clips from both sides,
    /// as [`Signal::clamp`] does.
    pub fn max(self, limit: Signal) -> (r: Signal)
        ensures
            r@ == if self@ >= limit@ {
                self@
            } else {
                limit@
            },
    {
        if self.0 >= limit.0 {
            self
        } else {
            limit
        }
    }

    /// Apply a noise gate, side-chaining the cutoff signal level: the signal
    /// passes bit-for-bit when its magnitude exceeds the cutoff, and is
    /// exactly zero otherwise.
    pub fn gate(self, limit: Signal) -> (r: Signal)
        ensures
            r@ == gate_val(self@, limit@),
    {
        let w: i128 = self.0 as i128;
        let m: i128 = if w < 0 {
            -w
        } else {
            w
        };
        if m > limit.0 as i128 {
            self
        } else {
            Signal(0)
        }
    }

    /// Clamp a signal into the closed unit range (hard clipping), by taking
    /// the lesser of it and full scale, then the greater of that and minus
    /// full scale.
    pub fn clamp(self) -> (r: Signal)
        ensures
            r@ == clamped(self@),
            -SCALE <= r@ <= SCALE,
            -SCALE <= self@ <= SCALE ==> r@ == self@,
    {
        self.min(Signal(SCALE)).max(Signal(-SCALE))
    }

    /// Convert the signal into a mono channel sample: the one lossy,
    /// clamping bridge from the unconstrained signal domain into the unit
    /// range of an audio channel.
    pub fn to_mono(self) -> (r: Mono)
        ensures
            r@ == clamped(self@),
            -SCALE <= r@ <= SCALE,
    {
        let c: Signal = self.clamp();
        Mono { units: c.0 }
    }
}

/// Gain is linear: amplifying by one volume and then by another is
/// amplifying by their product, whenever the two intermediate products are
/// exact at the resolution of the value model.  (With products that fall
/// between representable values, each side rounds once more than the other
/// and the two can differ by one unit.)
pub proof fn lemma_gain_linear(x: int, v1: int, v2: int)
    requires
        (x * v1) % (SCALE as int) == 0,
        (v1 * v2) % (SCALE as int) == 0,
    ensures
        scaled(scaled(x, v1), v2) == scaled(x, scaled(v1, v2)),
{
    let s = SCALE as int;
    let a = x * v1;
    let b = v1 * v2;
    let q1 = a / s;
    let q2 = b / s;
    lemma_fundamental_div_mod(a, s);
    lemma_fundamental_div_mod(b, s);
    assert(a == s * q1);
    assert(b == s * q2);
    if a < 0 {
        assert(-a == s * (-q1)) by (nonlinear_arith)
            requires
                a == s * q1,
        ;
        lemma_div_multiples_vanish(-q1, s);
        assert(div_trunc(a, s) == q1);
    }
    if b < 0 {
        assert(-b == s * (-q2)) by (nonlinear_arith)
            requires
                b == s * q2,
        ;
        lemma_div_multiples_vanish(-q2, s);
        assert(div_trunc(b, s) == q2);
    }
    assert(scaled(x, v1) == q1);
    assert(scaled(v1, v2) == q2);
    assert(q1 * v2 == x * q2) by (nonlinear_arith)
        requires
            a == s * q1,
            b == s * q2,
            a == x * v1,
            b == v1 * v2,
            s > 0,
    ;
}

/// A square wave: with a half duty of full scale, the pulse is high on
/// exactly the upper half of the phase's period, so one sweep of the phase
/// across the unit range flips the sign exactly once, at the midpoint.
pub proof fn lemma_pulse_square(x: int)
    requires
        -SCALE < x <= SCALE,
    ensures
        pulse_val(x, SCALE as int) == if x > 0 {
            SCALE as int
        } else {
            -SCALE as int
        },
{
    let p = PERIOD as int;
    let s = x + SCALE;
    if s < p {
        lemma_small_mod(s as nat, p as nat);
    } else {
        lemma_mod_self_0(p);
    }
}

/// The sine oscillator is even: on the unit range of phases, a phase and
/// its negation give the same sample, as the cosine is an even function.
pub proof fn lemma_sine_even(x: int)
    requires
        -SCALE <= x <= SCALE,
    ensures
        sine_val(-x) == sine_val(x),
{
    lemma_wrap_phase_identity(x);
    lemma_wrap_phase_identity(-x);
    assert((-x) * (-x) == x * x) by (nonlinear_arith);
}

/// The sine oscillator is periodic in the phase: phases one full period
/// apart give the same sample, however far outside the unit range they lie.
pub proof fn lemma_sine_periodic(x: int)
    ensures
        sine_val(x + PERIOD) == sine_val(x),
{
    lemma_wrap_phase_periodic(x);
    let w1 = wrap_phase(x + PERIOD);
    let w2 = wrap_phase(x);
    assert(w1 * w1 == w2 * w2) by (nonlinear_arith)
        requires
            w1 == w2 || (w1 == SCALE && w2 == -SCALE),
    ;
}

/// Round trip: extracting the raw unit count from a signal and rebuilding a
/// signal from it gives back the same signal, and the other way round.
pub proof fn lemma_units_round_trip(sig: Signal, units: i64)
    ensures
        <Signal as vstd::std_specs::convert::FromSpec<i64>>::from_spec(
            <i64 as vstd::std_specs::convert::FromSpec<Signal>>::from_spec(sig),
        ) == sig,
        <i64 as vstd::std_specs::convert::FromSpec<Signal>>::from_spec(
            <Signal as vstd::std_specs::convert::FromSpec<i64>>::from_spec(units),
        ) == units,
{
}

impl From<i64> for Signal {
    /// Build a signal from a raw count of [`SCALE`]ths of full scale.
    fn from(units: i64) -> (r: Signal) {
        Signal(units)
    }
}

impl vstd::std_specs::convert::FromSpecImpl<i64> for Signal {
    open spec fn obeys_from_spec() -> bool {
        true
    }

    open spec fn from_spec(units: i64) -> Signal {
        Signal(units)
    }
}

impl From<Signal> for i64 {
    /// Extract the raw count of [`SCALE`]ths of full scale from a signal.
    fn from(sig: Signal) -> (r: i64) {
        sig.0
    }
}

impl vstd::std_specs::convert::FromSpecImpl<Signal> for i64 {
    open spec fn obeys_from_spec() -> bool {
        true
    }

    open spec fn from_spec(sig: Signal) -> i64 {
        sig.0
    }
}

} // verus!
