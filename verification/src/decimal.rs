//! Fixed-precision decimal amounts.
//!
//! An [`Amount`] holds the two integers that make up a `rust_decimal::Decimal`:
//! a signed mantissa of at most 96 bits and a scale of at most 28. Ordering is
//! stated exactly, over those integers. Sums, differences, products and
//! quotients are computed by `rust_decimal`, which rounds where a result does
//! not fit; they are named by the uninterpreted functions below, one for each
//! operation, and the rest of the crate states its contracts over those names.
//!
//! In specifications an amount is written `Amount::of(mantissa, scale)`. A
//! proof that compares given amounts takes their parts from
//! [`Amount::lemma_of_parts`], which can be brought in with `broadcast use`.

use rust_decimal::Decimal;
use vstd::arithmetic::power::{lemma_pow0, lemma_pow1, pow};
use vstd::prelude::*;

verus! {

/// Largest magnitude of a mantissa: `2^96 - 1`.
pub const MAX_MANTISSA: i128 = 79_228_162_514_264_337_593_543_950_335;

/// Largest number of digits after the decimal point.
pub const MAX_SCALE: u32 = 28;

/// The decimal number `mantissa / 10^scale`.
#[derive(Clone, Copy, Debug)]
pub struct Amount {
    mantissa: i128,
    scale: u32,
}

/// What `Decimal::checked_add` returns for `a + b`; `None` when the sum overflows.
pub uninterp spec fn decimal_checked_sum(a: Amount, b: Amount) -> Option<Amount>;

/// What `Decimal::checked_sub` returns for `a - b`; `None` when the difference overflows.
pub uninterp spec fn decimal_checked_difference(a: Amount, b: Amount) -> Option<Amount>;

/// What `Decimal::checked_div` returns for `a / b`; `None` when `b` is zero or
/// the quotient overflows.
pub uninterp spec fn decimal_checked_quotient(a: Amount, b: Amount) -> Option<Amount>;

/// What `Decimal::saturating_add` returns for `a + b`.
pub uninterp spec fn decimal_saturating_sum(a: Amount, b: Amount) -> Amount;

/// What `Decimal::saturating_sub` returns for `a - b`.
pub uninterp spec fn decimal_saturating_difference(a: Amount, b: Amount) -> Amount;

/// What `Decimal::saturating_mul` returns for `a * b`.
pub uninterp spec fn decimal_saturating_product(a: Amount, b: Amount) -> Amount;

impl Amount {
    #[verifier::type_invariant]
    spec fn representable(self) -> bool {
        &&& -MAX_MANTISSA <= self.mantissa <= MAX_MANTISSA
        &&& self.scale <= MAX_SCALE
    }

    /// The integer that is divided by a power of ten.
    pub closed spec fn units(self) -> int {
        self.mantissa as int
    }

    /// The number of digits after the decimal point.
    pub closed spec fn places(self) -> nat {
        self.scale as nat
    }

    /// The amount with the given mantissa and scale.
    pub closed spec fn of(units: int, places: nat) -> Amount {
        Amount { mantissa: units as i128, scale: places as u32 }
    }

    /// `self < other` as numbers. At one scale the mantissas are compared;
    /// else the mantissa of the one with fewer digits after the point is
    /// first brought to the scale of the other.
    pub open spec fn lt(self, other: Amount) -> bool {
        if self.places() == other.places() {
            self.units() < other.units()
        } else if self.places() < other.places() {
            self.units() * pow(10, (other.places() - self.places()) as nat) < other.units()
        } else {
            self.units() < other.units() * pow(10, (self.places() - other.places()) as nat)
        }
    }

    /// `self <= other` as numbers.
    pub open spec fn le(self, other: Amount) -> bool {
        !other.lt(self)
    }

    /// `self` and `other` are the same number, whatever their scales.
    pub open spec fn same_value(self, other: Amount) -> bool {
        !self.lt(other) && !other.lt(self)
    }

    /// The smaller of the two numbers, `self` where they are equal.
    pub open spec fn min_spec(self, other: Amount) -> Amount {
        if other.lt(self) {
            other
        } else {
            self
        }
    }

    /// `Amount::of` keeps a mantissa of at most 96 bits and a scale of at most 28.
    pub broadcast proof fn lemma_of_parts(units: int, places: nat)
        requires
            -MAX_MANTISSA <= units <= MAX_MANTISSA,
            places <= MAX_SCALE,
        ensures
            (#[trigger] Amount::of(units, places)).units() == units,
            Amount::of(units, places).places() == places,
    {
    }

    /// An amount with one digit more after the point is compared with ten
    /// times the mantissa of the other.
    pub proof fn lemma_lt_one_digit_apart(self, other: Amount)
        requires
            self.places() + 1 == other.places(),
        ensures
            self.lt(other) <==> self.units() * 10 < other.units(),
            other.lt(self) <==> other.units() < self.units() * 10,
    {
        lemma_pow1(10);
    }

    /// The amount `mantissa / 10^scale`, if the mantissa fits in 96 bits and
    /// the scale is at most 28.
    pub fn new(mantissa: i128, scale: u32) -> (r: Option<Amount>)
        ensures
            r is Some <==> -MAX_MANTISSA <= mantissa <= MAX_MANTISSA && scale <= MAX_SCALE,
            r matches Some(a) ==> a == Amount::of(mantissa as int, scale as nat) && a.units() == mantissa
                && a.places() == scale,
    {
        if -MAX_MANTISSA <= mantissa && mantissa <= MAX_MANTISSA && scale <= MAX_SCALE {
            Some(Amount { mantissa, scale })
        } else {
            None
        }
    }

    /// The amount `mantissa / 10^scale` for a mantissa of 64 bits.
    pub fn from_i64(mantissa: i64, scale: u32) -> (r: Amount)
        requires
            scale <= MAX_SCALE,
        ensures
            r == Amount::of(mantissa as int, scale as nat),
            r.units() == mantissa,
            r.places() == scale,
    {
        Amount { mantissa: mantissa as i128, scale }
    }

    /// Zero, with no digits after the point.
    pub fn zero() -> (r: Amount)
        ensures
            r == Amount::of(0, 0),
            r.units() == 0,
            r.places() == 0,
    {
        Amount { mantissa: 0, scale: 0 }
    }

    /// The integer that is divided by a power of ten.
    pub fn mantissa(&self) -> (m: i128)
        ensures
            m == self.units(),
            -MAX_MANTISSA <= m <= MAX_MANTISSA,
    {
        proof {
            use_type_invariant(self);
        }
        self.mantissa
    }

    /// The number of digits after the decimal point.
    pub fn scale(&self) -> (s: u32)
        ensures
            s == self.places(),
            s <= MAX_SCALE,
    {
        proof {
            use_type_invariant(self);
        }
        self.scale
    }

    /// Whether `self < other` as numbers.
    pub fn is_less_than(&self, other: &Amount) -> (r: bool)
        ensures
            r == self.lt(*other),
    {
        proof {
            use_type_invariant(self);
            use_type_invariant(other);
        }
        decimal_lt(*self, *other)
    }

    /// Whether `self >= other` as numbers.
    pub fn is_at_least(&self, other: &Amount) -> (r: bool)
        ensures
            r == other.le(*self),
    {
        !self.is_less_than(other)
    }

    /// Whether the two are the same number, whatever their scales.
    pub fn has_same_value(&self, other: &Amount) -> (r: bool)
        ensures
            r == self.same_value(*other),
    {
        !self.is_less_than(other) && !other.is_less_than(self)
    }

    /// The smaller of the two numbers, `self` where they are equal.
    pub fn min(self, other: Amount) -> (r: Amount)
        ensures
            r == self.min_spec(other),
            r.le(self),
            r.le(other),
    {
        if other.is_less_than(&self) {
            other
        } else {
            self
        }
    }

    /// `self + other`, or `None` where the sum overflows.
    pub fn checked_add(self, other: Amount) -> (r: Option<Amount>)
        ensures
            r == decimal_checked_sum(self, other),
    {
        proof {
            use_type_invariant(self);
            use_type_invariant(other);
        }
        decimal_checked_add(self, other)
    }

    /// `self - other`, or `None` where the difference overflows.
    pub fn checked_sub(self, other: Amount) -> (r: Option<Amount>)
        ensures
            r == decimal_checked_difference(self, other),
    {
        proof {
            use_type_invariant(self);
            use_type_invariant(other);
        }
        decimal_checked_sub(self, other)
    }

    /// `self / other`, or `None` where `other` is zero or the quotient overflows.
    pub fn checked_div(self, other: Amount) -> (r: Option<Amount>)
        ensures
            r == decimal_checked_quotient(self, other),
            other.units() == 0 ==> r is None,
    {
        proof {
            use_type_invariant(self);
            use_type_invariant(other);
        }
        decimal_checked_div(self, other)
    }

    /// `self + other`, held at the largest or smallest amount where the sum overflows.
    pub fn saturating_add(self, other: Amount) -> (r: Amount)
        ensures
            r == decimal_saturating_sum(self, other),
    {
        proof {
            use_type_invariant(self);
            use_type_invariant(other);
        }
        decimal_saturating_add(self, other)
    }

    /// `self - other`, held at the largest or smallest amount where the
    /// difference overflows.
    pub fn saturating_sub(self, other: Amount) -> (r: Amount)
        ensures
            r == decimal_saturating_difference(self, other),
    {
        proof {
            use_type_invariant(self);
            use_type_invariant(other);
        }
        decimal_saturating_sub(self, other)
    }

    /// `self * other`, held at the largest or smallest amount where the
    /// product overflows.
    pub fn saturating_mul(self, other: Amount) -> (r: Amount)
        ensures
            r == decimal_saturating_product(self, other),
    {
        proof {
            use_type_invariant(self);
            use_type_invariant(other);
        }
        decimal_saturating_mul(self, other)
    }
}

/// Calls `<`, which `rust_decimal::Decimal` has from its `PartialOrd`. The
/// crate compares the two as numbers: it multiplies the mantissa of the one
/// with the smaller scale by the power of ten that brings it to the scale of
/// the other, and treats a zero of either sign as zero. The contract states
/// that comparison over the mantissas and scales.
#[verifier::external_body]
fn decimal_lt(a: Amount, b: Amount) -> (r: bool)
    requires
        a.representable(),
        b.representable(),
    ensures
        r == a.lt(b),
{
    let x = Decimal::from_i128_with_scale(a.mantissa, a.scale);
    let y = Decimal::from_i128_with_scale(b.mantissa, b.scale);
    x < y
}

/// Calls `rust_decimal::Decimal::checked_add`. The result is the named sum; a
/// `Decimal` that comes back has a mantissa of at most 96 bits and a scale of
/// at most 28, as every `Decimal` has.
#[verifier::external_body]
fn decimal_checked_add(a: Amount, b: Amount) -> (r: Option<Amount>)
    requires
        a.representable(),
        b.representable(),
    ensures
        r == decimal_checked_sum(a, b),
        r matches Some(x) ==> x.representable(),
{
    let x = Decimal::from_i128_with_scale(a.mantissa, a.scale);
    let y = Decimal::from_i128_with_scale(b.mantissa, b.scale);
    match x.checked_add(y) {
        Some(d) => Some(Amount { mantissa: d.mantissa(), scale: d.scale() }),
        None => None,
    }
}

/// Calls `rust_decimal::Decimal::checked_sub`. The result is the named
/// difference, within the bounds of every `Decimal`.
#[verifier::external_body]
fn decimal_checked_sub(a: Amount, b: Amount) -> (r: Option<Amount>)
    requires
        a.representable(),
        b.representable(),
    ensures
        r == decimal_checked_difference(a, b),
        r matches Some(x) ==> x.representable(),
{
    let x = Decimal::from_i128_with_scale(a.mantissa, a.scale);
    let y = Decimal::from_i128_with_scale(b.mantissa, b.scale);
    match x.checked_sub(y) {
        Some(d) => Some(Amount { mantissa: d.mantissa(), scale: d.scale() }),
        None => None,
    }
}

/// Calls `rust_decimal::Decimal::checked_div`. The result is the named
/// quotient, within the bounds of every `Decimal`; the crate returns `None`
/// for a divisor whose mantissa is zero before it does anything else.
#[verifier::external_body]
fn decimal_checked_div(a: Amount, b: Amount) -> (r: Option<Amount>)
    requires
        a.representable(),
        b.representable(),
    ensures
        r == decimal_checked_quotient(a, b),
        r matches Some(x) ==> x.representable(),
        b.units() == 0 ==> r is None,
{
    let x = Decimal::from_i128_with_scale(a.mantissa, a.scale);
    let y = Decimal::from_i128_with_scale(b.mantissa, b.scale);
    match x.checked_div(y) {
        Some(d) => Some(Amount { mantissa: d.mantissa(), scale: d.scale() }),
        None => None,
    }
}

/// Calls `rust_decimal::Decimal::saturating_add`. The result is the named
/// sum, within the bounds of every `Decimal`.
#[verifier::external_body]
fn decimal_saturating_add(a: Amount, b: Amount) -> (r: Amount)
    requires
        a.representable(),
        b.representable(),
    ensures
        r == decimal_saturating_sum(a, b),
        r.representable(),
{
    let x = Decimal::from_i128_with_scale(a.mantissa, a.scale);
    let y = Decimal::from_i128_with_scale(b.mantissa, b.scale);
    let d = x.saturating_add(y);
    Amount { mantissa: d.mantissa(), scale: d.scale() }
}

/// Calls `rust_decimal::Decimal::saturating_sub`. The result is the named
/// difference, within the bounds of every `Decimal`.
#[verifier::external_body]
fn decimal_saturating_sub(a: Amount, b: Amount) -> (r: Amount)
    requires
        a.representable(),
        b.representable(),
    ensures
        r == decimal_saturating_difference(a, b),
        r.representable(),
{
    let x = Decimal::from_i128_with_scale(a.mantissa, a.scale);
    let y = Decimal::from_i128_with_scale(b.mantissa, b.scale);
    let d = x.saturating_sub(y);
    Amount { mantissa: d.mantissa(), scale: d.scale() }
}

/// Calls `rust_decimal::Decimal::saturating_mul`. The result is the named
/// product, within the bounds of every `Decimal`.
#[verifier::external_body]
fn decimal_saturating_mul(a: Amount, b: Amount) -> (r: Amount)
    requires
        a.representable(),
        b.representable(),
    ensures
        r == decimal_saturating_product(a, b),
        r.representable(),
{
    let x = Decimal::from_i128_with_scale(a.mantissa, a.scale);
    let y = Decimal::from_i128_with_scale(b.mantissa, b.scale);
    let d = x.saturating_mul(y);
    Amount { mantissa: d.mantissa(), scale: d.scale() }
}

} // verus!
