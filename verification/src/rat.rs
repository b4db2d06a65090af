//! Exact rational scalars.
//!
//! Distances along a ray are ratios of machine integers.  A `Rat` is the
//! value `num / den` with `den >= 1`; nothing is ever reduced, so two
//! different `Rat`s may denote the same value.  All value comparisons go
//! through cross multiplication in 128-bit arithmetic, which cannot
//! overflow for 64-bit operands.

use vstd::prelude::*;

verus! {

/// The exact rational value `num / den`.
#[derive(Clone, Copy, Debug)]
pub struct Rat {
    pub num: i64,
    pub den: i64,
}

impl Rat {
    /// Denominators are strictly positive.
    pub open spec fn wf(self) -> bool {
        self.den >= 1
    }

    pub fn new(num: i64, den: i64) -> (r: Rat)
        requires
            den >= 1,
        ensures
            r.wf(),
            r.num == num,
            r.den == den,
    {
        Rat { num, den }
    }
}

/// `a < b` as rational values, assuming positive denominators.
pub open spec fn rat_lt(a: Rat, b: Rat) -> bool {
    a.num * b.den < b.num * a.den
}

/// `a` and `b` denote the same rational value.
pub open spec fn rat_eq(a: Rat, b: Rat) -> bool {
    a.num * b.den == b.num * a.den
}

#[verifier::nonlinear]
proof fn lemma_i64_products_fit_i128(a: int, b: int)
    requires
        i64::MIN <= a <= i64::MAX,
        i64::MIN <= b <= i64::MAX,
    ensures
        i128::MIN <= a * b <= i128::MAX,
{
}

pub fn rat_lt_exec(a: &Rat, b: &Rat) -> (r: bool)
    requires
        a.wf(),
        b.wf(),
    ensures
        r == rat_lt(*a, *b),
{
    proof {
        lemma_i64_products_fit_i128(a.num as int, b.den as int);
        lemma_i64_products_fit_i128(b.num as int, a.den as int);
    }
    let left: i128 = (a.num as i128) * (b.den as i128);
    let right: i128 = (b.num as i128) * (a.den as i128);
    left < right
}

pub fn rat_eq_exec(a: &Rat, b: &Rat) -> (r: bool)
    requires
        a.wf(),
        b.wf(),
    ensures
        r == rat_eq(*a, *b),
{
    proof {
        lemma_i64_products_fit_i128(a.num as int, b.den as int);
        lemma_i64_products_fit_i128(b.num as int, a.den as int);
    }
    let left: i128 = (a.num as i128) * (b.den as i128);
    let right: i128 = (b.num as i128) * (a.den as i128);
    left == right
}

} // verus!
