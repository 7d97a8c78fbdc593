//! Saturating fixed-point scalars with 32 fractional bits.
//!
//! A [`Fixed`] stores the integer `raw` and stands for the number
//! `raw / 2^32`. Raw values are kept within `[-RAW_LIMIT, RAW_LIMIT]`; every
//! operation computes its exact result and then clamps it into that range,
//! so no operation can overflow or fail.

use vstd::prelude::*;

verus! {

/// Number of fractional bits of a [`Fixed`].
pub const FRAC_BITS: u32 = 32;

/// Raw value of the number one.
pub const ONE_RAW: i64 = 0x1_0000_0000;

/// Largest magnitude of a raw value.
pub const RAW_LIMIT: i64 = 0x4000_0000_0000_0000;

/// The raw value nearest to `v` that a [`Fixed`] can hold.
pub open spec fn clamp_raw(v: int) -> int {
    if v < -RAW_LIMIT {
        -RAW_LIMIT
    } else if v > RAW_LIMIT {
        RAW_LIMIT as int
    } else {
        v
    }
}

/// Whether `v` is a raw value that a [`Fixed`] can hold.
pub open spec fn in_range(v: int) -> bool {
    -RAW_LIMIT <= v <= RAW_LIMIT
}

/// A fixed-point number with 32 fractional bits.
#[derive(Clone, Copy, Debug, PartialEq, Eq, Structural)]
pub struct Fixed {
    pub(crate) raw: i64,
}

impl Fixed {
    /// Raw values never leave `[-RAW_LIMIT, RAW_LIMIT]`.
    #[verifier::type_invariant]
    pub open(crate) spec fn inv(self) -> bool {
        in_range(self.raw as int)
    }

    /// The raw value: the number times `2^32`.
    pub open(crate) spec fn view(self) -> int {
        self.raw as int
    }

    /// The number whose raw value is `v` clamped into range.
    pub fn saturate(v: i128) -> (r: Fixed)
        ensures
            r@ == clamp_raw(v as int),
    {
        if v < -(RAW_LIMIT as i128) {
            Fixed { raw: -RAW_LIMIT }
        } else if v > RAW_LIMIT as i128 {
            Fixed { raw: RAW_LIMIT }
        } else {
            Fixed { raw: v as i64 }
        }
    }

    /// The number whose raw value is `raw` clamped into range.
    pub fn from_raw(raw: i64) -> (r: Fixed)
        ensures
            r@ == clamp_raw(raw as int),
    {
        Fixed::saturate(raw as i128)
    }

    /// The raw value.
    pub fn raw(self) -> (r: i64)
        ensures
            r == self@,
            in_range(r as int),
    {
        proof {
            use_type_invariant(self);
        }
        self.raw
    }

    /// The number zero.
    pub fn zero() -> (r: Fixed)
        ensures
            r@ == 0,
    {
        Fixed { raw: 0 }
    }

    /// The number one.
    pub fn one() -> (r: Fixed)
        ensures
            r@ == ONE_RAW,
    {
        Fixed { raw: ONE_RAW }
    }

    /// The whole number `v`.
    pub fn from_int(v: i32) -> (r: Fixed)
        ensures
            r@ == clamp_raw(v * ONE_RAW),
    {
        Fixed::saturate(raw_product(v as i64, ONE_RAW))
    }

    /// The quotient `n / d` as a number, rounded like [`Fixed::div`].
    pub fn from_ratio(n: i64, d: i64) -> (r: Fixed)
        requires
            d != 0,
        ensures
            r@ == clamp_raw((n * ONE_RAW) / (d as int)),
    {
        let num: i128 = raw_product(n, ONE_RAW);
        let q: i128 = floor_div(num, d as i128);
        Fixed::saturate(q)
    }

    /// Saturating sum.
    pub fn add(self, other: Fixed) -> (r: Fixed)
        ensures
            r@ == clamp_raw(self@ + other@),
    {
        Fixed::saturate((self.raw as i128) + (other.raw as i128))
    }

    /// Saturating difference.
    pub fn sub(self, other: Fixed) -> (r: Fixed)
        ensures
            r@ == clamp_raw(self@ - other@),
    {
        Fixed::saturate((self.raw as i128) - (other.raw as i128))
    }

    /// Negation; exact, because the range is symmetric.
    pub fn neg(self) -> (r: Fixed)
        ensures
            r@ == -self@,
    {
        proof {
            use_type_invariant(self);
        }
        Fixed { raw: -self.raw }
    }

    /// Saturating product, rounded down.
    pub fn mul(self, other: Fixed) -> (r: Fixed)
        ensures
            r@ == clamp_raw((self@ * other@) / (ONE_RAW as int)),
    {
        let p: i128 = raw_product(self.raw(), other.raw());
        let q: i128 = floor_div(p, ONE_RAW as i128);
        Fixed::saturate(q)
    }

    /// Saturating quotient. It is rounded so that the remainder is not
    /// negative: down for a positive divisor, up for a negative one.
    pub fn div(self, other: Fixed) -> (r: Fixed)
        requires
            other@ != 0,
        ensures
            r@ == clamp_raw((self@ * ONE_RAW) / other@),
    {
        let num: i128 = raw_product(self.raw(), ONE_RAW);
        let q: i128 = floor_div(num, other.raw() as i128);
        Fixed::saturate(q)
    }

    /// Half of the number, rounded down.
    pub fn half(self) -> (r: Fixed)
        ensures
            r@ == self@ / 2,
    {
        let q: i128 = floor_div(self.raw() as i128, 2);
        Fixed::saturate(q)
    }

    /// Whether the number is greater than zero.
    pub fn is_positive(self) -> (b: bool)
        ensures
            b <==> self@ > 0,
    {
        self.raw > 0
    }

    /// Whether `self < other`.
    pub fn lt(self, other: Fixed) -> (b: bool)
        ensures
            b <==> self@ < other@,
    {
        self.raw < other.raw
    }

    /// Whether `self <= other`.
    pub fn le(self, other: Fixed) -> (b: bool)
        ensures
            b <==> self@ <= other@,
    {
        self.raw <= other.raw
    }

    /// The number nearest to `self` within `[lo, hi]`.
    pub fn clamp(self, lo: Fixed, hi: Fixed) -> (r: Fixed)
        requires
            lo@ <= hi@,
        ensures
            r@ == clamp_between(self@, lo@, hi@),
    {
        if self.raw < lo.raw {
            lo
        } else if self.raw > hi.raw {
            hi
        } else {
            self
        }
    }
}

/// The value nearest to `v` within `[lo, hi]`.
pub open spec fn clamp_between(v: int, lo: int, hi: int) -> int {
    if v < lo {
        lo
    } else if v > hi {
        hi
    } else {
        v
    }
}

/// The exact product of two raw values.
pub fn raw_product(a: i64, b: i64) -> (p: i128)
    ensures
        p == a * b,
        -0x4000_0000_0000_0000_0000_0000_0000_0000 <= p <= 0x4000_0000_0000_0000_0000_0000_0000_0000,
{
    wide_product(a as i128, b as i128)
}

/// The exact product of two differences of raw values.
pub fn wide_product(a: i128, b: i128) -> (p: i128)
    requires
        -0x8000_0000_0000_0000 <= a <= 0x8000_0000_0000_0000,
        -0x8000_0000_0000_0000 <= b <= 0x8000_0000_0000_0000,
    ensures
        p == a * b,
        -0x4000_0000_0000_0000_0000_0000_0000_0000 <= p <= 0x4000_0000_0000_0000_0000_0000_0000_0000,
{
    assert(-0x4000_0000_0000_0000_0000_0000_0000_0000int <= a * b
        <= 0x4000_0000_0000_0000_0000_0000_0000_0000int) by (nonlinear_arith)
        requires
            -0x8000_0000_0000_0000int <= a <= 0x8000_0000_0000_0000int,
            -0x8000_0000_0000_0000int <= b <= 0x8000_0000_0000_0000int,
    ;
    a * b
}

/// Division on integers as specifications define it: for a positive divisor
/// the quotient is rounded down.
pub fn floor_div(n: i128, d: i128) -> (q: i128)
    requires
        d != 0,
        n != i128::MIN,
    ensures
        q == n as int / d as int,
{
    proof {
        lemma_quotient_bound(n as int, d as int);
    }
    let q: Option<i128> = n.checked_div_euclid(d);
    q.unwrap()
}

/// A quotient is no larger in magnitude than its dividend.
pub proof fn lemma_quotient_bound(n: int, d: int)
    by (nonlinear_arith)
    requires
        d != 0,
    ensures
        n >= 0 ==> -n <= n / d <= n,
        n < 0 ==> n <= n / d <= -n,
{
}

} // verus!
