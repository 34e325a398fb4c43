//! Exact fixed-point decimal values.
//!
//! Every metric value in the crate is a signed count of millionths of a
//! unit, so `3.5` is held as `3_500_000`.  All arithmetic is exact except
//! where a result leaves the representable range, where it clamps to the
//! nearest bound; the clamping is part of each operation's contract.

use vstd::prelude::*;

verus! {

/// Fixed-point units per whole metric unit.
pub const SCALE: i64 = 1_000_000;

/// What an out-of-range mathematical result is clamped to.
pub open spec fn clamp_i64(v: int) -> int {
    if v < i64::MIN as int {
        i64::MIN as int
    } else if v > i64::MAX as int {
        i64::MAX as int
    } else {
        v
    }
}

/// A metric value: an exact decimal with six fractional digits.
#[derive(Clone, Copy, PartialEq, Eq, Structural, Debug)]
pub struct Fixed {
    pub micros: i64,
}

impl View for Fixed {
    type V = int;

    open spec fn view(&self) -> int {
        self.micros as int
    }
}

impl Fixed {
    pub fn zero() -> (r: Fixed)
        ensures
            r@ == 0,
    {
        Fixed { micros: 0 }
    }

    pub fn one() -> (r: Fixed)
        ensures
            r@ == SCALE,
    {
        Fixed { micros: SCALE }
    }

    pub fn from_micros(m: i64) -> (r: Fixed)
        ensures
            r@ == m,
    {
        Fixed { micros: m }
    }

    pub fn micros(self) -> (r: i64)
        ensures
            r == self@,
    {
        self.micros
    }

    pub fn is_negative(self) -> (r: bool)
        ensures
            r == (self@ < 0),
    {
        self.micros < 0
    }

    /// Exact sum, clamped to the representable range.
    pub fn add_clamped(self, other: Fixed) -> (r: Fixed)
        ensures
            r@ == clamp_i64(self@ + other@),
    {
        let s: i128 = self.micros as i128 + other.micros as i128;
        if s > i64::MAX as i128 {
            Fixed { micros: i64::MAX }
        } else if s < i64::MIN as i128 {
            Fixed { micros: i64::MIN }
        } else {
            Fixed { micros: s as i64 }
        }
    }

    /// Exact difference, clamped to the representable range.
    pub fn sub_clamped(self, other: Fixed) -> (r: Fixed)
        ensures
            r@ == clamp_i64(self@ - other@),
    {
        let s: i128 = self.micros as i128 - other.micros as i128;
        if s > i64::MAX as i128 {
            Fixed { micros: i64::MAX }
        } else if s < i64::MIN as i128 {
            Fixed { micros: i64::MIN }
        } else {
            Fixed { micros: s as i64 }
        }
    }
}

/// The ratio `num / den` of two non-negative values as a fixed-point
/// decimal, truncated toward zero and clamped from above.
pub open spec fn spec_ratio(num: int, den: int) -> int
    recommends
        num >= 0,
        den > 0,
{
    clamp_i64(num * (SCALE as int) / den)
}

/// `num / den` in fixed-point, truncated; used for the answer-seizure
/// ratio.  The intermediate product is exact in 128 bits.
pub fn ratio(num: Fixed, den: Fixed) -> (r: Fixed)
    requires
        num@ >= 0,
        den@ > 0,
    ensures
        r@ == spec_ratio(num@, den@),
{
    let p: i128 = num.micros as i128 * SCALE as i128;
    let q: i128 = p / den.micros as i128;
    if q > i64::MAX as i128 {
        Fixed { micros: i64::MAX }
    } else {
        proof {
            lemma_ratio_bounds(num.micros as int, den.micros as int);
        }
        Fixed { micros: q as i64 }
    }
}

proof fn lemma_ratio_bounds(num: int, den: int)
    requires
        num >= 0,
        den > 0,
    ensures
        num * (SCALE as int) / den >= 0,
        num * (SCALE as int) / den <= num * (SCALE as int),
{
    let p = num * (SCALE as int);
    assert(num * (SCALE as int) >= 0) by (nonlinear_arith)
        requires
            num >= 0,
    ;
    assert(p / den >= 0 && p / den <= p) by (nonlinear_arith)
        requires
            p >= 0 && den > 0,
    ;
}

} // verus!
