//! The fraction value type: an immutable pair of unsigned 64-bit integers
//! whose denominator is never zero, with validated construction and the
//! mediant operation that drives the Stern-Brocot bisection.

use vstd::prelude::*;

use crate::error::FareyError;

verus! {

/// A non-negative rational number `numerator / denominator`.
///
/// Every live `Fraction` has a non-zero denominator; construction through
/// [`Fraction::new`] is the sole validation gate, and the mediant operation
/// only ever builds new fractions through it.
#[derive(Clone, Copy, Debug, PartialEq, Eq, Structural)]
pub struct Fraction {
    numerator: u64,
    denominator: u64,
}

impl Fraction {
    /// The numerator, for contracts.
    pub closed spec fn num(self) -> u64 {
        self.numerator
    }

    /// The denominator, for contracts.
    pub closed spec fn den(self) -> u64 {
        self.denominator
    }

    /// The construction invariant: the denominator is never zero.
    pub open spec fn wf(self) -> bool {
        self.den() != 0
    }

    /// `self < other` as exact rationals, by cross-multiplication.
    /// Meaningful whenever both denominators are positive.
    pub open spec fn ratio_lt(self, other: Fraction) -> bool {
        (self.num() as int) * (other.den() as int) < (other.num() as int) * (self.den() as int)
    }

    /// `self == other` as exact rationals, by cross-multiplication.
    pub open spec fn ratio_eq(self, other: Fraction) -> bool {
        (self.num() as int) * (other.den() as int) == (other.num() as int) * (self.den() as int)
    }

    /// `self <= other` as exact rationals, by cross-multiplication.
    pub open spec fn ratio_le(self, other: Fraction) -> bool {
        (self.num() as int) * (other.den() as int) <= (other.num() as int) * (self.den() as int)
    }

    /// Validated construction: succeeds exactly when the denominator is
    /// non-zero, and fails with `DivisionByZero` otherwise.
    pub fn new(numerator: u64, denominator: u64) -> (r: Result<Self, FareyError>)
        ensures
            denominator == 0 ==> r == Err::<Fraction, FareyError>(FareyError::DivisionByZero),
            denominator != 0 ==> (r matches Ok(f) && f.num() == numerator && f.den() == denominator
                && f.wf()),
    {
        if denominator == 0 {
            Err(FareyError::DivisionByZero)
        } else {
            Ok(Self { numerator, denominator })
        }
    }

    /// The numerator.
    pub fn numerator(&self) -> (n: u64)
        ensures
            n == self.num(),
    {
        self.numerator
    }

    /// The denominator.
    pub fn denominator(&self) -> (d: u64)
        ensures
            d == self.den(),
    {
        self.denominator
    }

    /// The mediant `(a+c)/(b+d)` of `a/b` and `c/d` — Farey addition, not the
    /// arithmetic mean. For two well-formed fractions the sums are checked:
    /// a sum beyond the unsigned 64-bit range fails with
    /// `ArithmeticOverflow` instead of wrapping. A zero denominator sum —
    /// unreachable when both inputs are well-formed — still propagates
    /// `DivisionByZero` from the underlying construction.
    pub fn mediant(&self, other: &Fraction) -> (r: Result<Self, FareyError>)
        ensures
            self.num() + other.num() > u64::MAX || self.den() + other.den() > u64::MAX
                ==> r == Err::<Fraction, FareyError>(FareyError::ArithmeticOverflow),
            self.num() + other.num() <= u64::MAX && self.den() + other.den() <= u64::MAX
                ==> (if self.den() + other.den() == 0 {
                    r == Err::<Fraction, FareyError>(FareyError::DivisionByZero)
                } else {
                    r matches Ok(m) && m.num() == self.num() + other.num()
                        && m.den() == self.den() + other.den() && m.wf()
                }),
    {
        let num = match self.numerator.checked_add(other.numerator) {
            Some(n) => n,
            None => {
                return Err(FareyError::ArithmeticOverflow);
            },
        };
        let den = match self.denominator.checked_add(other.denominator) {
            Some(d) => d,
            None => {
                return Err(FareyError::ArithmeticOverflow);
            },
        };
        Self::new(num, den)
    }
}

/// Two fractions with the same numerator and the same denominator are the
/// same fraction.
pub proof fn lemma_fraction_eq(a: Fraction, b: Fraction)
    requires
        a.num() == b.num(),
        a.den() == b.den(),
    ensures
        a == b,
{
}

/// Mediant bracketing: a mediant lies between its two parents as an exact
/// rational. For well-formed `a`, `b` and any `m` whose numerator and
/// denominator are the component sums (which is what [`Fraction::mediant`]
/// returns whenever it succeeds): if `a < b` then `a < m < b`, if `b < a`
/// then `b < m < a`, and if `a` and `b` have equal value then `m` has that
/// same value — in particular the mediant of a fraction with itself keeps
/// its value.
pub proof fn lemma_mediant_bracketing(a: Fraction, b: Fraction, m: Fraction)
    requires
        a.wf(),
        b.wf(),
        m.num() == a.num() + b.num(),
        m.den() == a.den() + b.den(),
    ensures
        a.ratio_lt(b) ==> a.ratio_lt(m) && m.ratio_lt(b),
        b.ratio_lt(a) ==> b.ratio_lt(m) && m.ratio_lt(a),
        a.ratio_eq(b) ==> m.ratio_eq(a) && m.ratio_eq(b),
{
    lemma_mediant_between(a.num() as int, a.den() as int, b.num() as int, b.den() as int);
}

/// The arithmetic heart of mediant bracketing, over unbounded integers:
/// for positive denominators `ad`, `bd`, the fraction `(an+bn)/(ad+bd)`
/// compares to `an/ad` and `bn/bd` exactly as those two compare to each
/// other.
proof fn lemma_mediant_between(an: int, ad: int, bn: int, bd: int)
    requires
        ad > 0,
        bd > 0,
    ensures
        an * bd < bn * ad ==> an * (ad + bd) < (an + bn) * ad && (an + bn) * bd < bn * (ad + bd),
        bn * ad < an * bd ==> bn * (ad + bd) < (an + bn) * bd && (an + bn) * ad < an * (ad + bd),
        an * bd == bn * ad ==> (an + bn) * ad == an * (ad + bd) && (an + bn) * bd == bn * (ad
            + bd),
{
    assert(an * (ad + bd) == an * ad + an * bd) by (nonlinear_arith);
    assert((an + bn) * ad == an * ad + bn * ad) by (nonlinear_arith);
    assert((an + bn) * bd == an * bd + bn * bd) by (nonlinear_arith);
    assert(bn * (ad + bd) == bn * ad + bn * bd) by (nonlinear_arith);
}

} // verus!
