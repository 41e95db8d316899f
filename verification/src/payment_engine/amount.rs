use rust_decimal::Decimal;
use vstd::prelude::*;

verus! {

/// The largest magnitude of a mantissa: 2^96 - 1.
pub const MAX_MANTISSA: i128 = 0xFFFF_FFFF_FFFF_FFFF_FFFF_FFFF;

/// The largest number of digits after the decimal point.
pub const MAX_SCALE: u32 = 28;

/// `10^n`.
pub open spec fn pow10(n: nat) -> int
    decreases n,
{
    if n == 0 {
        1
    } else {
        10 * pow10((n - 1) as nat)
    }
}

pub proof fn lemma_pow10_positive(n: nat)
    ensures
        pow10(n) > 0,
    decreases n,
{
    if n > 0 {
        lemma_pow10_positive((n - 1) as nat);
    }
}

pub proof fn lemma_pow10_mono(m: nat, n: nat)
    requires
        m <= n,
    ensures
        pow10(m) <= pow10(n),
    decreases n,
{
    if m < n {
        lemma_pow10_mono(m, (n - 1) as nat);
        lemma_pow10_positive((n - 1) as nat);
    }
}

/// A value (in units of `10^-28`) within the range of a decimal: at most
/// `MAX_MANTISSA` in magnitude.
pub open spec fn in_range(units: int) -> bool {
    abs(units) <= MAX_MANTISSA * pow10(MAX_SCALE as nat)
}

/// `units` (in units of `10^-28`) is the value of an amount of scale `s`:
/// a whole number of `10^-s`, at most `MAX_MANTISSA` of them in magnitude.
pub open spec fn representable_at(units: int, s: int) -> bool {
    &&& 0 <= s <= MAX_SCALE
    &&& units % pow10((MAX_SCALE - s) as nat) == 0
    &&& abs(units) <= MAX_MANTISSA * pow10((MAX_SCALE - s) as nat)
}

pub open spec fn abs(x: int) -> int {
    if x < 0 {
        -x
    } else {
        x
    }
}

/// A decimal amount of money: the value `mantissa * 10^(-scale)`.
///
/// It holds what a `rust_decimal::Decimal` holds (a 96-bit magnitude with a
/// sign, and a scale of at most 28); arithmetic and comparison are done by
/// `rust_decimal`.
#[derive(Clone, Copy, Debug)]
pub struct Amount {
    mantissa: i128,
    scale: u32,
}

impl Amount {
    #[verifier::type_invariant]
    closed spec fn inv(self) -> bool {
        &&& self.scale <= MAX_SCALE
        &&& -MAX_MANTISSA <= self.mantissa <= MAX_MANTISSA
    }

    /// The mantissa of the amount.
    pub closed spec fn mantissa_spec(self) -> int {
        self.mantissa as int
    }

    /// The number of digits after the decimal point.
    pub closed spec fn scale_spec(self) -> int {
        self.scale as int
    }

    /// The value of the amount in units of `10^-28`: every amount is a whole
    /// number of such units, so values compare and add as integers.
    pub open spec fn units(self) -> int {
        self.mantissa_spec() * pow10((MAX_SCALE - self.scale_spec()) as nat)
    }

    /// The amount zero, written with no digits after the point.
    pub closed spec fn spec_zero() -> Amount {
        Amount { mantissa: 0, scale: 0 }
    }

    /// The larger of the scales of `a` and `b`.
    pub open spec fn max_scale(a: Amount, b: Amount) -> int {
        if a.scale_spec() >= b.scale_spec() {
            a.scale_spec()
        } else {
            b.scale_spec()
        }
    }

    /// The exact sum of `a` and `b` is the value of some amount whose scale is
    /// at most the larger of theirs: it fits in 96 bits at that larger scale,
    /// or at a smaller one.
    pub open spec fn add_exact(a: Amount, b: Amount) -> bool {
        ||| abs(a.units() + b.units()) <= MAX_MANTISSA * pow10(
            (MAX_SCALE - Amount::max_scale(a, b)) as nat,
        )
        ||| exists|s: int|
            s <= Amount::max_scale(a, b) && #[trigger] representable_at(a.units() + b.units(), s)
    }

    /// The exact difference `a - b` is the value of some amount whose scale is
    /// at most the larger of theirs.
    pub open spec fn sub_exact(a: Amount, b: Amount) -> bool {
        ||| abs(a.units() - b.units()) <= MAX_MANTISSA * pow10(
            (MAX_SCALE - Amount::max_scale(a, b)) as nat,
        )
        ||| exists|s: int|
            s <= Amount::max_scale(a, b) && #[trigger] representable_at(a.units() - b.units(), s)
    }

    /// The zero amount has mantissa zero and scale zero, so value zero.
    pub proof fn lemma_zero_units()
        ensures
            Amount::spec_zero().mantissa_spec() == 0,
            Amount::spec_zero().scale_spec() == 0,
            Amount::spec_zero().units() == 0,
    {
    }

    /// Every amount's value lies within the range of a decimal: at most
    /// `MAX_MANTISSA` in magnitude.
    proof fn lemma_in_range(self)
        requires
            self.inv(),
        ensures
            in_range(self.units()),
    {
        let p = pow10((MAX_SCALE - self.scale_spec()) as nat);
        let q = pow10(MAX_SCALE as nat);
        lemma_pow10_positive((MAX_SCALE - self.scale_spec()) as nat);
        lemma_pow10_mono((MAX_SCALE - self.scale_spec()) as nat, MAX_SCALE as nat);
        let m = self.mantissa as int;
        assert(abs(m * p) <= MAX_MANTISSA * q) by (nonlinear_arith)
            requires
                -MAX_MANTISSA <= m <= MAX_MANTISSA,
                0 < p <= q,
        {
            if m >= 0 {
                assert(m * p <= MAX_MANTISSA * p);
                assert(MAX_MANTISSA * p <= MAX_MANTISSA * q);
            } else {
                assert((-m) * p <= MAX_MANTISSA * p);
                assert(MAX_MANTISSA * p <= MAX_MANTISSA * q);
            }
        }
    }

    /// Builds `mantissa * 10^(-scale)`; `None` where the parts are out of range.
    pub fn from_parts(mantissa: i128, scale: u32) -> (r: Option<Amount>)
        ensures
            r is Some <==> (scale <= MAX_SCALE && -MAX_MANTISSA <= mantissa <= MAX_MANTISSA),
            r matches Some(a) ==> a.mantissa_spec() == mantissa && a.scale_spec() == scale,
    {
        if scale <= MAX_SCALE && -MAX_MANTISSA <= mantissa && mantissa <= MAX_MANTISSA {
            Some(Amount { mantissa, scale })
        } else {
            None
        }
    }

    /// The amount zero.
    pub fn zero() -> (r: Amount)
        ensures
            r == Amount::spec_zero(),
            r.mantissa_spec() == 0,
            r.scale_spec() == 0,
            r.units() == 0,
    {
        proof {
            Amount::lemma_zero_units();
        }
        Amount { mantissa: 0, scale: 0 }
    }

    /// The sum `self + other` as `rust_decimal` computes it: `None` on overflow.
    pub fn checked_add(self, other: Amount) -> (r: Option<Amount>)
        ensures
            r == decimal_checked_add(self, other),
            Amount::add_exact(self, other) ==> exact_sum(self, other),
            in_range(self.units() + other.units()) ==> r is Some,
            in_range(self.units()),
            in_range(other.units()),
    {
        proof {
            use_type_invariant(&self);
            use_type_invariant(&other);
            self.lemma_in_range();
            other.lemma_in_range();
        }
        decimal_add(self, other)
    }

    /// The difference `self - other` as `rust_decimal` computes it: `None` on overflow.
    pub fn checked_sub(self, other: Amount) -> (r: Option<Amount>)
        ensures
            r == decimal_checked_sub(self, other),
            Amount::sub_exact(self, other) ==> exact_difference(self, other),
            in_range(self.units() - other.units()) ==> r is Some,
            r is Some && self.units() >= other.units() ==> r.unwrap().units() >= 0,
            in_range(self.units()),
            in_range(other.units()),
    {
        proof {
            use_type_invariant(&self);
            use_type_invariant(&other);
            self.lemma_in_range();
            other.lemma_in_range();
        }
        decimal_sub(self, other)
    }

    /// Whether the value of `self` is at most that of `other`.
    pub fn le(&self, other: &Amount) -> (r: bool)
        ensures
            r == (self.units() <= other.units()),
    {
        proof {
            use_type_invariant(self);
            use_type_invariant(other);
        }
        decimal_le(self, other)
    }

    /// Whether the value of `self` is below that of `other`.
    pub fn lt(&self, other: &Amount) -> (r: bool)
        ensures
            r == (self.units() < other.units()),
    {
        !other.le(self)
    }

    /// Whether the amount is above zero.
    pub fn is_positive(&self) -> (r: bool)
        ensures
            r == (self.units() > 0),
    {
        let zero = Amount::zero();
        !self.le(&zero)
    }

    pub fn mantissa(&self) -> (r: i128)
        ensures
            r == self.mantissa_spec(),
    {
        self.mantissa
    }

    pub fn scale(&self) -> (r: u32)
        ensures
            r == self.scale_spec(),
    {
        self.scale
    }
}

/// What `rust_decimal::Decimal::checked_add` returns for the two values.
pub uninterp spec fn decimal_checked_add(a: Amount, b: Amount) -> Option<Amount>;

/// What `rust_decimal::Decimal::checked_sub` returns for the two values.
pub uninterp spec fn decimal_checked_sub(a: Amount, b: Amount) -> Option<Amount>;

/// `rust_decimal` computed the sum of `a` and `b` without overflow or rounding.
/// Its scale is at most the larger scale of the operands.
pub open spec fn exact_sum(a: Amount, b: Amount) -> bool {
    &&& decimal_checked_add(a, b) is Some
    &&& decimal_checked_add(a, b).unwrap().units() == a.units() + b.units()
    &&& decimal_checked_add(a, b).unwrap().scale_spec() <= Amount::max_scale(a, b)
}

/// `rust_decimal` computed the difference `a - b` without overflow or rounding.
/// Its scale is at most the larger scale of the operands.
pub open spec fn exact_difference(a: Amount, b: Amount) -> bool {
    &&& decimal_checked_sub(a, b) is Some
    &&& decimal_checked_sub(a, b).unwrap().units() == a.units() - b.units()
    &&& decimal_checked_sub(a, b).unwrap().scale_spec() <= Amount::max_scale(a, b)
}

/// Calls `Decimal::checked_add`. Trusted: the result is the named one; where
/// the exact sum is the value of an amount whose scale is at most the larger
/// scale of the operands, `rust_decimal` returns that exact sum, at a scale no
/// larger than that (it rounds only when the sum needs more digits than 96
/// bits hold, and drops only zero digits where it can); and it
/// returns `None` only when the value is beyond the decimal range, so never
/// where the exact sum is at most `MAX_MANTISSA` in magnitude.
#[verifier::external_body]
fn decimal_add(a: Amount, b: Amount) -> (r: Option<Amount>)
    requires
        a.inv(),
        b.inv(),
    ensures
        r == decimal_checked_add(a, b),
        Amount::add_exact(a, b) ==> r.is_some() && r.unwrap().units() == a.units() + b.units()
            && r.unwrap().scale_spec() <= Amount::max_scale(a, b),
        in_range(a.units() + b.units()) ==> r.is_some(),
{
    let x = Decimal::from_i128_with_scale(a.mantissa, a.scale);
    let y = Decimal::from_i128_with_scale(b.mantissa, b.scale);
    match x.checked_add(y) {
        Some(d) => Some(Amount { mantissa: d.mantissa(), scale: d.scale() }),
        None => None,
    }
}

/// Calls `Decimal::checked_sub`. Trusted: the result is the named one; where
/// the exact difference is the value of an amount whose scale is at most the
/// larger scale of the operands, `rust_decimal` returns that exact
/// difference, at a scale no larger than that; it returns `None` only when
/// the value is beyond the decimal range, so never where the exact difference
/// is at most `MAX_MANTISSA` in magnitude; and a rounded difference keeps the
/// sign of the exact one, so `a - b` with `a >= b` is never negative.
#[verifier::external_body]
fn decimal_sub(a: Amount, b: Amount) -> (r: Option<Amount>)
    requires
        a.inv(),
        b.inv(),
    ensures
        r == decimal_checked_sub(a, b),
        Amount::sub_exact(a, b) ==> r.is_some() && r.unwrap().units() == a.units() - b.units()
            && r.unwrap().scale_spec() <= Amount::max_scale(a, b),
        in_range(a.units() - b.units()) ==> r.is_some(),
        r.is_some() && a.units() >= b.units() ==> r.unwrap().units() >= 0,
{
    let x = Decimal::from_i128_with_scale(a.mantissa, a.scale);
    let y = Decimal::from_i128_with_scale(b.mantissa, b.scale);
    match x.checked_sub(y) {
        Some(d) => Some(Amount { mantissa: d.mantissa(), scale: d.scale() }),
        None => None,
    }
}

/// Calls `<=` on two `Decimal`s. Trusted: `rust_decimal` orders decimals by
/// their numeric value, whatever their scales.
#[verifier::external_body]
fn decimal_le(a: &Amount, b: &Amount) -> (r: bool)
    requires
        a.inv(),
        b.inv(),
    ensures
        r == (a.units() <= b.units()),
{
    Decimal::from_i128_with_scale(a.mantissa, a.scale) <= Decimal::from_i128_with_scale(
        b.mantissa,
        b.scale,
    )
}

/// Calls `==` on two `Decimal`s. Trusted: `rust_decimal` calls two decimals
/// equal when their numeric values are equal (`1.5 == 1.50`).
#[verifier::external_body]
fn decimal_eq(a: &Amount, b: &Amount) -> (r: bool)
    requires
        a.inv(),
        b.inv(),
    ensures
        r == (a.units() == b.units()),
{
    Decimal::from_i128_with_scale(a.mantissa, a.scale) == Decimal::from_i128_with_scale(
        b.mantissa,
        b.scale,
    )
}

impl PartialEq for Amount {
    fn eq(&self, other: &Self) -> (r: bool) {
        proof {
            use_type_invariant(self);
            use_type_invariant(other);
        }
        decimal_eq(self, other)
    }
}

impl vstd::std_specs::cmp::PartialEqSpecImpl for Amount {
    open spec fn obeys_eq_spec() -> bool {
        true
    }

    open spec fn eq_spec(&self, other: &Self) -> bool {
        self.units() == other.units()
    }
}

} // verus!
