//! Exact angles, held as fractions of one full turn.
//!
//! Every angle in the scene — clock hands, globe rotation, tick marks — is a
//! rational number of turns with a small denominator (seconds in a day,
//! seconds in an hour, ticks around a dial). Holding the fraction exactly
//! keeps the whole time-to-angle pipeline free of rounding; the unverified
//! shell multiplies by 2π only at the very edge, when filling GPU uniforms.

use vstd::prelude::*;

verus! {

/// An angle measured counterclockwise, as `num / den` of one full turn.
///
/// A well-formed `Turn` is canonical: `den > 0` and `num < den`, so the value
/// always lies in `[0, 1)` turns. Two `Turn`s with different denominators may
/// still denote the same angle; `same_angle` compares them as fractions.
#[derive(Clone, Copy, Debug, PartialEq, Eq, Structural)]
pub struct Turn {
    pub num: u32,
    pub den: u32,
}

impl Turn {
    /// Canonical form: a proper fraction of a turn.
    pub open spec fn wf(self) -> bool {
        0 < self.den && self.num < self.den
    }

    /// `self` and `other` denote the same angle (equality of fractions).
    pub open spec fn same_angle(self, other: Turn) -> bool {
        self.num * other.den == other.num * self.den
    }

    /// `self` is a strictly smaller angle than `other` (order of fractions).
    pub open spec fn precedes(self, other: Turn) -> bool {
        self.num * other.den < other.num * self.den
    }

    /// The canonical angle `num / den` of a turn, wrapping `num` into range.
    pub fn from_fraction(num: u32, den: u32) -> (r: Turn)
        requires
            0 < den,
        ensures
            r.wf(),
            r.den == den,
            r.num == num % den,
    {
        Turn { num: num % den, den }
    }

    /// Decides `same_angle` by cross-multiplication.
    pub fn eq_angle(&self, other: &Turn) -> (r: bool)
        ensures
            r == self.same_angle(*other),
    {
        proof {
            lemma_u32_cross_products_fit(self.num, other.den, other.num, self.den);
        }
        (self.num as u64) * (other.den as u64) == (other.num as u64) * (self.den as u64)
    }

    /// Decides `precedes` by cross-multiplication.
    pub fn lt_angle(&self, other: &Turn) -> (r: bool)
        ensures
            r == self.precedes(*other),
    {
        proof {
            lemma_u32_cross_products_fit(self.num, other.den, other.num, self.den);
        }
        (self.num as u64) * (other.den as u64) < (other.num as u64) * (self.den as u64)
    }
}

/// Cross products of `u32` values fit in a `u64`.
proof fn lemma_u32_cross_products_fit(a: u32, b: u32, c: u32, d: u32)
    ensures
        a * b <= u32::MAX * u32::MAX,
        c * d <= u32::MAX * u32::MAX,
{
    assert(a * b <= u32::MAX * u32::MAX && c * d <= u32::MAX * u32::MAX) by (nonlinear_arith)
        requires
            a <= u32::MAX,
            b <= u32::MAX,
            c <= u32::MAX,
            d <= u32::MAX,
    ;
}

} // verus!
