//! Fixed-point decimal arithmetic for all money-bearing quantities.
//!
//! A [`Decimal`] stores a signed value scaled by `SCALE` (nine fractional
//! decimal digits) in an `i128`. All operations are exact integer
//! arithmetic; multiplication and division truncate toward zero, the way a
//! decimal arithmetic library rounds a quotient down when it does not fit.
use vstd::arithmetic::div_mod::{
    lemma_div_is_ordered, lemma_div_multiples_vanish, lemma_div_nonincreasing,
    lemma_div_pos_is_pos,
};
use vstd::prelude::*;

verus! {

/// One unit, expressed in raw ticks: nine fractional decimal digits.
pub const SCALE: i128 = 1_000_000_000;

/// One half, in raw ticks; the fixed trailing-stop retracement ratio.
pub const HALF_SCALE: i128 = 500_000_000;

/// Largest raw magnitude the accounting functions accept; one billion units.
/// Keeping every stored quantity within this bound lets any product of two
/// such quantities fit in an `i128`.
pub const MAX_RAW: i128 = 1_000_000_000_000_000_000;

/// The raw value is within the range the accounting functions work on.
pub open spec fn in_bounds(x: int) -> bool {
    -MAX_RAW <= x <= MAX_RAW
}

/// `x` can be stored in an `i128` and still be negated there.
pub open spec fn fits_i128(x: int) -> bool {
    -(i128::MAX as int) <= x <= i128::MAX as int
}

/// Division truncating toward zero, for positive divisors; the rounding used
/// by every quotient of the library.
pub open spec fn tdiv(n: int, d: int) -> int
    recommends
        d >= 1,
{
    if n >= 0 {
        n / d
    } else {
        -((-n) / d)
    }
}

/// Fixed-point product of two raw values.
pub open spec fn fmul(a: int, b: int) -> int {
    tdiv(a * b, SCALE as int)
}

/// Fixed-point quotient of two raw values, for positive divisors.
pub open spec fn fdiv(a: int, b: int) -> int
    recommends
        b >= 1,
{
    tdiv(a * (SCALE as int), b)
}

/// Amount-weighted average of a held value `avg` (weight `cur`) and a newly
/// filled value `p` (weight `a`), rounded toward zero in one division.
pub open spec fn wavg(avg: int, cur: int, p: int, a: int) -> int
    recommends
        cur >= 0,
        a >= 1,
{
    tdiv(avg * cur + p * a, cur + a)
}

/// Ten to the `n`-th power; the factor between two decimal scales.
pub open spec fn pow10(n: nat) -> int
    decreases n,
{
    if n == 0 {
        1
    } else {
        10 * pow10((n - 1) as nat)
    }
}

/// A fixed-point decimal number: `raw` counts billionths of a unit.
#[derive(Clone, Copy, Debug, PartialEq, Eq, Structural)]
pub struct Decimal {
    raw: i128,
}

impl View for Decimal {
    type V = int;

    closed spec fn view(&self) -> int {
        self.raw as int
    }
}

impl Decimal {
    /// The value zero.
    pub fn zero() -> (r: Decimal)
        ensures
            r@ == 0,
    {
        Decimal { raw: 0 }
    }

    /// The value one.
    pub fn one() -> (r: Decimal)
        ensures
            r@ == SCALE as int,
    {
        Decimal { raw: SCALE }
    }

    /// `num` scaled down by ten to the `scale`: `new(25, 1)` is 2.5.
    pub fn new(num: i64, scale: u32) -> (r: Decimal)
        requires
            scale <= 9,
            fits_i128(num * pow10((9 - scale) as nat)),
        ensures
            r@ == num * pow10((9 - scale) as nat),
    {
        let exp: u32 = 9 - scale;
        let factor: i128 = match exp {
            0 => 1,
            1 => 10,
            2 => 100,
            3 => 1_000,
            4 => 10_000,
            5 => 100_000,
            6 => 1_000_000,
            7 => 10_000_000,
            8 => 100_000_000,
            _ => 1_000_000_000,
        };
        proof {
            assert(pow10(0) == 1);
            assert(pow10(1) == 10);
            assert(pow10(2) == 100);
            assert(pow10(3) == 1000);
            assert(pow10(4) == 10000);
            assert(pow10(5) == 100000);
            assert(pow10(6) == 1000000);
            assert(pow10(7) == 10000000);
            assert(pow10(8) == 100000000);
            assert(pow10(9) == 1000000000);
        }
        Decimal { raw: (num as i128) * factor }
    }

    /// Builds a decimal directly from its raw tick count.
    pub fn from_raw(raw: i128) -> (r: Decimal)
        ensures
            r@ == raw as int,
    {
        Decimal { raw }
    }

    /// The raw tick count behind the value.
    pub fn to_raw(&self) -> (r: i128)
        ensures
            r as int == self@,
    {
        self.raw
    }

    /// Exact sum.
    pub fn add(self, o: Decimal) -> (r: Decimal)
        requires
            fits_i128(self@ + o@),
        ensures
            r@ == self@ + o@,
    {
        Decimal { raw: self.raw + o.raw }
    }

    /// Exact difference.
    pub fn sub(self, o: Decimal) -> (r: Decimal)
        requires
            fits_i128(self@ - o@),
        ensures
            r@ == self@ - o@,
    {
        Decimal { raw: self.raw - o.raw }
    }

    /// Fixed-point product, truncated toward zero.
    pub fn mul(self, o: Decimal) -> (r: Decimal)
        requires
            fits_i128(self@ * o@),
        ensures
            r@ == fmul(self@, o@),
    {
        Decimal { raw: div_raw(self.raw * o.raw, SCALE) }
    }

    /// Fixed-point quotient, truncated toward zero; the divisor must be
    /// positive.
    pub fn div(self, o: Decimal) -> (r: Decimal)
        requires
            fits_i128(self@ * (SCALE as int)),
            o@ >= 1,
        ensures
            r@ == fdiv(self@, o@),
    {
        Decimal { raw: div_raw(self.raw * SCALE, o.raw) }
    }

    /// Absolute value.
    pub fn abs(self) -> (r: Decimal)
        requires
            fits_i128(self@),
        ensures
            r@ == if self@ >= 0 {
                self@
            } else {
                -self@
            },
    {
        if self.raw >= 0 {
            self
        } else {
            Decimal { raw: -self.raw }
        }
    }

    /// Whether the value is exactly zero.
    pub fn is_zero(&self) -> (r: bool)
        ensures
            r == (self@ == 0),
    {
        self.raw == 0
    }

    /// Strictly less than.
    pub fn lt(self, o: Decimal) -> (r: bool)
        ensures
            r == (self@ < o@),
    {
        self.raw < o.raw
    }

    /// Less than or equal.
    pub fn le(self, o: Decimal) -> (r: bool)
        ensures
            r == (self@ <= o@),
    {
        self.raw <= o.raw
    }

    /// Strictly greater than.
    pub fn gt(self, o: Decimal) -> (r: bool)
        ensures
            r == (self@ > o@),
    {
        self.raw > o.raw
    }

    /// Greater than or equal.
    pub fn ge(self, o: Decimal) -> (r: bool)
        ensures
            r == (self@ >= o@),
    {
        self.raw >= o.raw
    }
}

/// Amount-weighted average of `avg` (weight `cur`) and `p` (weight `a`),
/// computed with exact products and a single truncated division, so the
/// blend is as precise as the representation allows.
pub fn weighted_average(avg: Decimal, cur: Decimal, p: Decimal, a: Decimal) -> (r: Decimal)
    requires
        in_bounds(avg@),
        in_bounds(p@),
        0 <= cur@ <= MAX_RAW,
        1 <= a@ <= MAX_RAW,
    ensures
        r@ == wavg(avg@, cur@, p@, a@),
{
    proof {
        lemma_abs_mul(avg@, cur@, MAX_RAW as int, MAX_RAW as int);
        lemma_abs_mul(p@, a@, MAX_RAW as int, MAX_RAW as int);
    }
    let num: i128 = avg.to_raw() * cur.to_raw() + p.to_raw() * a.to_raw();
    let den: i128 = cur.to_raw() + a.to_raw();
    Decimal::from_raw(div_raw(num, den))
}

/// Truncating signed division on raw values, for positive divisors.
fn div_raw(n: i128, d: i128) -> (q: i128)
    requires
        d >= 1,
        n > i128::MIN,
    ensures
        q as int == tdiv(n as int, d as int),
{
    if n >= 0 {
        let qu: u128 = (n as u128) / (d as u128);
        proof {
            lemma_div_nonincreasing(n as int, d as int);
            lemma_div_pos_is_pos(n as int, d as int);
        }
        qu as i128
    } else {
        let m: u128 = (-n) as u128;
        let qu: u128 = m / (d as u128);
        proof {
            lemma_div_nonincreasing(m as int, d as int);
            lemma_div_pos_is_pos(m as int, d as int);
        }
        -(qu as i128)
    }
}

/// A product of two values is bounded by the product of their bounds.
pub proof fn lemma_abs_mul(a: int, b: int, ka: int, kb: int)
    requires
        -ka <= a <= ka,
        -kb <= b <= kb,
        0 <= ka,
        0 <= kb,
    ensures
        -(ka * kb) <= a * b <= ka * kb,
{
    assert(-(ka * kb) <= a * b <= ka * kb) by (nonlinear_arith)
        requires
            -ka <= a <= ka,
            -kb <= b <= kb,
            0 <= ka,
            0 <= kb,
    ;
}

/// Truncating division never grows a value's magnitude.
pub proof fn lemma_tdiv_bound(n: int, d: int, k: int)
    requires
        d >= 1,
        -k <= n <= k,
        0 <= k,
    ensures
        -k <= tdiv(n, d) <= k,
{
    if n >= 0 {
        lemma_div_nonincreasing(n, d);
        lemma_div_pos_is_pos(n, d);
    } else {
        lemma_div_nonincreasing(-n, d);
        lemma_div_pos_is_pos(-n, d);
    }
}

/// Dividing an exact multiple recovers the factor.
pub proof fn lemma_tdiv_exact(x: int, d: int)
    requires
        d >= 1,
    ensures
        tdiv(x * d, d) == x,
{
    if x >= 0 {
        assert(x * d >= 0) by (nonlinear_arith)
            requires
                x >= 0,
                d >= 1,
        ;
        assert(x * d == d * x) by (nonlinear_arith);
        lemma_div_multiples_vanish(x, d);
    } else {
        assert(x * d < 0) by (nonlinear_arith)
            requires
                x < 0,
                d >= 1,
        ;
        assert(-(x * d) == d * (-x)) by (nonlinear_arith);
        lemma_div_multiples_vanish(-x, d);
    }
}

/// On an exact multiple of the divisor, truncating division agrees with
/// flooring division.
pub proof fn lemma_tdiv_multiple(x: int, d: int)
    requires
        d >= 1,
        x % d == 0,
    ensures
        tdiv(x, d) == x / d,
{
    vstd::arithmetic::div_mod::lemma_fundamental_div_mod(x, d);
    assert(d * (x / d) == (x / d) * d) by (nonlinear_arith);
    lemma_tdiv_exact(x / d, d);
}

/// Truncating division is monotone in the numerator.
pub proof fn lemma_tdiv_ordered(n1: int, n2: int, d: int)
    requires
        d >= 1,
        n1 <= n2,
    ensures
        tdiv(n1, d) <= tdiv(n2, d),
{
    if n1 >= 0 {
        lemma_div_is_ordered(n1, n2, d);
    } else if n2 < 0 {
        lemma_div_is_ordered(-n2, -n1, d);
    } else {
        lemma_div_pos_is_pos(-n1, d);
        lemma_div_pos_is_pos(n2, d);
    }
}

/// A weighted average lies between the bounds of its two inputs.
pub proof fn lemma_wavg_bounds(avg: int, cur: int, p: int, a: int, lo: int, hi: int)
    requires
        0 <= cur,
        1 <= a,
        0 <= lo,
        lo <= avg <= hi,
        lo <= p <= hi,
    ensures
        lo <= wavg(avg, cur, p, a) <= hi,
{
    let num = avg * cur + p * a;
    let den = cur + a;
    assert(lo * den <= num <= hi * den) by (nonlinear_arith)
        requires
            0 <= cur,
            1 <= a,
            lo <= avg <= hi,
            lo <= p <= hi,
            num == avg * cur + p * a,
            den == cur + a,
    ;
    assert(num >= 0) by (nonlinear_arith)
        requires
            0 <= lo,
            lo * den <= num,
            den >= 1,
    ;
    lemma_div_is_ordered(lo * den, num, den);
    lemma_div_is_ordered(num, hi * den, den);
    lemma_div_multiples_vanish(lo, den);
    lemma_div_multiples_vanish(hi, den);
}

} // verus!
