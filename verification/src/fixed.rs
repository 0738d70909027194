//! Signed decimal fixed-point scalars with saturating arithmetic.
//!
//! A `Fixed` counts millionths of a unit in an `i64`. Every operation is
//! total: a result that does not fit is pinned to the nearest representable
//! value, and products and quotients are rounded toward zero.

use vstd::prelude::*;

verus! {

/// Number of raw steps in one unit.
pub const SCALE: i64 = 1_000_000;

/// A fixed-point number: `raw` millionths of a unit.
#[derive(Clone, Copy, Debug, PartialEq, Eq, Structural)]
pub struct Fixed {
    pub raw: i64,
}

impl View for Fixed {
    type V = int;

    open spec fn view(&self) -> int {
        self.raw as int
    }
}

/// The representable value nearest to `v`.
pub open spec fn saturate(v: int) -> int {
    if v < i64::MIN {
        i64::MIN as int
    } else if v > i64::MAX {
        i64::MAX as int
    } else {
        v
    }
}

/// `n / d` rounded toward zero, for a positive divisor.
pub open spec fn div_toward_zero(n: int, d: int) -> int
    recommends
        d > 0,
{
    if n >= 0 {
        n / d
    } else {
        -((-n) / d)
    }
}

/// The value of `v` if it fits in an `i64`, else the nearest bound.
fn narrow(v: i128) -> (r: i64)
    ensures
        r == saturate(v as int),
{
    if v < i64::MIN as i128 {
        i64::MIN
    } else if v > i64::MAX as i128 {
        i64::MAX
    } else {
        v as i64
    }
}

impl Fixed {
    pub open spec fn spec_from_raw(raw: i64) -> Fixed {
        Fixed { raw }
    }

    /// The number made of `raw` millionths.
    #[verifier::when_used_as_spec(spec_from_raw)]
    pub fn from_raw(raw: i64) -> (r: Fixed)
        ensures
            r == Fixed::spec_from_raw(raw),
            r@ == raw,
    {
        Fixed { raw }
    }

    pub open spec fn spec_from_int(units: i64) -> Fixed {
        Fixed { raw: saturate(units * SCALE) as i64 }
    }

    /// The whole number `units`, saturated.
    #[verifier::when_used_as_spec(spec_from_int)]
    pub fn from_int(units: i64) -> (r: Fixed)
        ensures
            r == Fixed::spec_from_int(units),
            r@ == saturate(units * SCALE),
    {
        Fixed { raw: narrow(units as i128 * SCALE as i128) }
    }

    pub open spec fn spec_from_ratio(num: i64, den: i64) -> Fixed {
        Fixed { raw: saturate(div_toward_zero(num * SCALE, den as int)) as i64 }
    }

    /// The quotient `num / den` rounded toward zero to a millionth, saturated.
    #[verifier::when_used_as_spec(spec_from_ratio)]
    pub fn from_ratio(num: i64, den: i64) -> (r: Fixed)
        requires
            den > 0,
        ensures
            r == Fixed::spec_from_ratio(num, den),
            r@ == saturate(div_toward_zero(num * SCALE, den as int)),
    {
        Fixed { raw: narrow((num as i128 * SCALE as i128) / den as i128) }
    }

    pub open spec fn spec_plus(self, rhs: Fixed) -> Fixed {
        Fixed { raw: saturate(self@ + rhs@) as i64 }
    }

    /// Saturating sum.
    #[verifier::when_used_as_spec(spec_plus)]
    pub fn plus(self, rhs: Fixed) -> (r: Fixed)
        ensures
            r == self.spec_plus(rhs),
            r@ == saturate(self@ + rhs@),
    {
        Fixed { raw: narrow(self.raw as i128 + rhs.raw as i128) }
    }

    pub open spec fn spec_minus(self, rhs: Fixed) -> Fixed {
        Fixed { raw: saturate(self@ - rhs@) as i64 }
    }

    /// Saturating difference.
    #[verifier::when_used_as_spec(spec_minus)]
    pub fn minus(self, rhs: Fixed) -> (r: Fixed)
        ensures
            r == self.spec_minus(rhs),
            r@ == saturate(self@ - rhs@),
    {
        Fixed { raw: narrow(self.raw as i128 - rhs.raw as i128) }
    }

    pub open spec fn spec_times(self, rhs: Fixed) -> Fixed {
        Fixed { raw: saturate(div_toward_zero(self@ * rhs@, SCALE as int)) as i64 }
    }

    /// Saturating product, rounded toward zero to a millionth.
    #[verifier::when_used_as_spec(spec_times)]
    pub fn times(self, rhs: Fixed) -> (r: Fixed)
        ensures
            r == self.spec_times(rhs),
            r@ == saturate(div_toward_zero(self@ * rhs@, SCALE as int)),
    {
        let a: i128 = self.raw as i128;
        let b: i128 = rhs.raw as i128;
        assert(-0x4000_0000_0000_0000_0000_0000_0000_0000 <= a * b
            <= 0x4000_0000_0000_0000_0000_0000_0000_0000) by (nonlinear_arith)
            requires
                -0x8000_0000_0000_0000 <= a <= 0x8000_0000_0000_0000,
                -0x8000_0000_0000_0000 <= b <= 0x8000_0000_0000_0000,
        ;
        Fixed { raw: narrow((a * b) / SCALE as i128) }
    }

    pub open spec fn spec_div_int(self, n: i64) -> Fixed {
        Fixed { raw: div_toward_zero(self@, n as int) as i64 }
    }

    /// The `n`-th part, rounded toward zero to a millionth.
    #[verifier::when_used_as_spec(spec_div_int)]
    pub fn div_int(self, n: i64) -> (r: Fixed)
        requires
            n > 0,
        ensures
            r == self.spec_div_int(n),
            r@ == div_toward_zero(self@, n as int),
    {
        proof {
            lemma_div_toward_zero_shrinks(self@, n as int);
        }
        Fixed { raw: self.raw / n }
    }
}

/// Dividing by a positive number moves a value no further from zero.
pub proof fn lemma_div_toward_zero_shrinks(n: int, d: int)
    requires
        d > 0,
    ensures
        n >= 0 ==> 0 <= div_toward_zero(n, d) <= n,
        n <= 0 ==> n <= div_toward_zero(n, d) <= 0,
{
    assert(n >= 0 ==> 0 <= n / d <= n) by (nonlinear_arith)
        requires
            d > 0,
    ;
    assert(n <= 0 ==> 0 <= (-n) / d <= -n) by (nonlinear_arith)
        requires
            d > 0,
    ;
}

/// A product with zero is zero.
pub proof fn lemma_times_zero(a: Fixed)
    ensures
        a.times(Fixed { raw: 0 }) == (Fixed { raw: 0 }),
        (Fixed { raw: 0 }).times(a) == (Fixed { raw: 0 }),
{
    assert(a@ * 0 == 0);
    assert(0 * a@ == 0);
}

/// A product with one is the other factor.
pub proof fn lemma_times_one(a: Fixed)
    ensures
        a.times(Fixed { raw: SCALE }) == a,
{
    assert(a@ * 1_000_000 / 1_000_000 == a@);
    assert((-(a@ * 1_000_000)) / 1_000_000 == -a@);
}

/// Adding the same step again and again, saturating each time, arrives
/// where the saturated sum of all the steps does.
pub proof fn lemma_saturating_walk(a: int, step: int, k: nat)
    requires
        i64::MIN <= a <= i64::MAX,
    ensures
        saturate(saturate(a + k * step) + step) == saturate(a + (k + 1) * step),
{
    assert((k + 1) * step == k * step + step) by (nonlinear_arith);
    assert(step >= 0 ==> k * step >= 0) by (nonlinear_arith);
    assert(step <= 0 ==> k * step <= 0) by (nonlinear_arith);
}

/// The parts into which a length is split add up to the length, short of
/// less than one raw step per part, and never beyond it.
pub proof fn lemma_parts_nearly_whole(d: int, n: int)
    requires
        n > 0,
    ensures
        d >= 0 ==> d - (n - 1) <= n * div_toward_zero(d, n) <= d,
        d <= 0 ==> d <= n * div_toward_zero(d, n) <= d + (n - 1),
{
    assert(d >= 0 ==> d - (n - 1) <= n * (d / n) <= d) by (nonlinear_arith)
        requires
            n > 0,
    ;
    assert(d <= 0 ==> -d - (n - 1) <= n * ((-d) / n) <= -d) by (nonlinear_arith)
        requires
            n > 0,
    ;
    assert(n * (-((-d) / n)) == -(n * ((-d) / n))) by (nonlinear_arith);
}

/// The product of a number that is not positive with one that is not
/// negative is not positive.
pub proof fn lemma_times_not_rising(a: Fixed, b: Fixed)
    requires
        a@ <= 0,
        b@ >= 0,
    ensures
        a.times(b)@ <= 0,
{
    assert(a@ * b@ <= 0) by (nonlinear_arith)
        requires
            a@ <= 0,
            b@ >= 0,
    ;
    lemma_div_toward_zero_shrinks(a@ * b@, SCALE as int);
}

} // verus!
