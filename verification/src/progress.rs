//! How far a phase of a trial has advanced, as an exact fraction between zero
//! and one.

use vstd::prelude::*;

verus! {

/// The value of a [`Progress`]: the rational `numerator / denominator`.
pub struct Fraction {
    pub numerator: int,
    pub denominator: int,
}

impl Fraction {
    /// The fraction has a positive denominator and lies between zero and one.
    pub open spec fn wf(self) -> bool {
        0 <= self.numerator <= self.denominator && 0 < self.denominator
    }

    /// `self <= other` as rationals, for two fractions with positive denominators.
    pub open spec fn le(self, other: Fraction) -> bool {
        self.numerator * other.denominator <= other.numerator * self.denominator
    }
}

/// `value` held between zero and `limit`.
pub open spec fn bounded(value: int, limit: int) -> int {
    if value <= 0 {
        0
    } else if value >= limit {
        limit
    } else {
        value
    }
}

/// `part / whole` clamped to the range from zero to one.
///
/// For a positive `whole` the fraction keeps `whole` as its denominator. A
/// negative `whole` gives the same value as `-part / -whole`. A phase of no
/// length at all, `whole == 0`, counts as complete: the result is one.
pub open spec fn clamped_ratio(part: int, whole: int) -> Fraction {
    if whole == 0 {
        Fraction { numerator: 1, denominator: 1 }
    } else if whole > 0 {
        Fraction { numerator: bounded(part, whole), denominator: whole }
    } else {
        Fraction { numerator: bounded(-part, -whole), denominator: -whole }
    }
}

/// Every clamped ratio is a fraction between zero and one.
pub proof fn lemma_clamped_ratio_wf(part: int, whole: int)
    ensures
        clamped_ratio(part, whole).wf(),
{
}

/// With a positive `whole`, the clamped ratio does not fall when `part` grows.
pub proof fn lemma_clamped_ratio_monotonic(low: int, high: int, whole: int)
    requires
        low <= high,
        whole > 0,
    ensures
        clamped_ratio(low, whole).le(clamped_ratio(high, whole)),
{
    let a = bounded(low, whole);
    let b = bounded(high, whole);
    assert(a <= b);
    assert(a * whole <= b * whole) by (nonlinear_arith)
        requires
            a <= b,
            whole > 0,
    ;
}

/// An exact fraction between zero and one.
#[derive(Clone, Copy, Debug, PartialEq, Eq)]
pub struct Progress {
    numerator: u64,
    denominator: u64,
}

impl View for Progress {
    type V = Fraction;

    closed spec fn view(&self) -> Fraction {
        Fraction { numerator: self.numerator as int, denominator: self.denominator as int }
    }
}

/// The magnitude of a negative number.
fn magnitude(value: i64) -> (m: u64)
    requires
        value < 0,
    ensures
        m == -value,
{
    let below: i64 = -(value + 1);
    (below as u64) + 1
}

impl Progress {
    #[verifier::type_invariant]
    spec fn inv(self) -> bool {
        0 < self.denominator && self.numerator <= self.denominator
    }

    /// `part / whole` clamped to the range from zero to one; see [`clamped_ratio`].
    pub fn ratio(part: i64, whole: i64) -> (progress: Progress)
        ensures
            progress@ == clamped_ratio(part as int, whole as int),
            progress@.wf(),
    {
        if whole == 0 {
            Progress { numerator: 1, denominator: 1 }
        } else if whole > 0 {
            let numerator: u64 = if part <= 0 {
                0
            } else if part >= whole {
                whole as u64
            } else {
                part as u64
            };
            Progress { numerator, denominator: whole as u64 }
        } else {
            let denominator: u64 = magnitude(whole);
            let numerator: u64 = if part >= 0 {
                0
            } else if part <= whole {
                denominator
            } else {
                magnitude(part)
            };
            Progress { numerator, denominator }
        }
    }

    /// The numerator: at most the denominator.
    pub fn numerator(&self) -> (n: u64)
        ensures
            n == self@.numerator,
            self@.wf(),
    {
        proof {
            use_type_invariant(self);
        }
        self.numerator
    }

    /// The denominator: never zero.
    pub fn denominator(&self) -> (d: u64)
        ensures
            d == self@.denominator,
            d > 0,
            self@.wf(),
    {
        proof {
            use_type_invariant(self);
        }
        self.denominator
    }
}

} // verus!
