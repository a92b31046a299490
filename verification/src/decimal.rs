//! Decimal numbers as a signed mantissa and a count of fractional digits,
//! with the powers of ten and the rounding that the encoder is stated over.

use vstd::arithmetic::div_mod::{lemma_div_pos_is_pos, lemma_fundamental_div_mod, lemma_mod_bound};
use vstd::prelude::*;

verus! {

/// Largest count of fractional digits that a decimal can carry.
pub const MAX_SCALE: u32 = 28;

/// Largest magnitude of a mantissa: ninety-six bits, all set.
pub const MAX_MANTISSA: i128 = 0xFFFF_FFFF_FFFF_FFFF_FFFF_FFFF;

/// Ten to the power `n`.
pub open spec fn pow10(n: nat) -> nat
    decreases n,
{
    if n == 0 {
        1
    } else {
        10 * pow10((n - 1) as nat)
    }
}

/// The distance of `v` from zero.
pub open spec fn magnitude(v: int) -> nat {
    if v < 0 {
        (-v) as nat
    } else {
        v as nat
    }
}

/// What a [`DecimalValue`] stands for: the number `mantissa / 10^scale`.
pub struct DecimalView {
    pub mantissa: int,
    pub scale: nat,
}

/// A decimal number of at most ninety-six bits of magnitude and at most
/// twenty-eight fractional digits.
#[derive(Clone, Copy, Debug, PartialEq, Eq)]
pub struct DecimalValue {
    mantissa: i128,
    scale: u32,
}

impl View for DecimalValue {
    type V = DecimalView;

    closed spec fn view(&self) -> DecimalView {
        DecimalView { mantissa: self.mantissa as int, scale: self.scale as nat }
    }
}

impl DecimalValue {
    #[verifier::type_invariant]
    spec fn in_range(self) -> bool {
        &&& -MAX_MANTISSA <= self.mantissa <= MAX_MANTISSA
        &&& self.scale <= MAX_SCALE
    }

    /// Whether a mantissa and a scale are ones that a decimal can carry.
    pub open spec fn representable(mantissa: int, scale: int) -> bool {
        &&& -MAX_MANTISSA <= mantissa <= MAX_MANTISSA
        &&& 0 <= scale <= MAX_SCALE
    }

    /// The decimal `mantissa / 10^scale`, where it is representable.
    pub fn new(mantissa: i128, scale: u32) -> (r: Option<DecimalValue>)
        ensures
            r is Some <==> Self::representable(mantissa as int, scale as int),
            r matches Some(d) ==> d@.mantissa == mantissa && d@.scale == scale,
    {
        if -MAX_MANTISSA <= mantissa && mantissa <= MAX_MANTISSA && scale <= MAX_SCALE {
            Some(DecimalValue { mantissa, scale })
        } else {
            None
        }
    }

    /// The signed mantissa.
    pub fn mantissa(&self) -> (r: i128)
        ensures
            r == self@.mantissa,
            Self::representable(self@.mantissa, self@.scale as int),
    {
        proof {
            use_type_invariant(self);
        }
        self.mantissa
    }

    /// The count of fractional digits.
    pub fn scale(&self) -> (r: u32)
        ensures
            r == self@.scale,
            Self::representable(self@.mantissa, self@.scale as int),
    {
        proof {
            use_type_invariant(self);
        }
        self.scale
    }
}

/// The natural number nearest to `a / d`; where two are equally near, the
/// even one.
pub open spec fn round_half_even_nat(a: nat, d: nat) -> nat {
    let q = a / d;
    let r = a % d;
    if 2 * r > d || (2 * r == d && q % 2 == 1) {
        q + 1
    } else {
        q
    }
}

/// The integer nearest to `n / d`; where two are equally near, the even one.
/// A negative `n` is rounded as its magnitude is.
pub open spec fn round_half_even(n: int, d: nat) -> int {
    if n < 0 {
        -(round_half_even_nat((-n) as nat, d) as int)
    } else {
        round_half_even_nat(n as nat, d) as int
    }
}

/// Every power of ten is at least one.
pub proof fn lemma_pow10_positive(n: nat)
    ensures
        pow10(n) >= 1,
    decreases n,
{
    if n > 0 {
        lemma_pow10_positive((n - 1) as nat);
    }
}

/// A larger exponent gives a power of ten that is no smaller.
pub proof fn lemma_pow10_monotonic(a: nat, b: nat)
    requires
        a <= b,
    ensures
        pow10(a) <= pow10(b),
    decreases b,
{
    if a < b {
        lemma_pow10_monotonic(a, (b - 1) as nat);
    }
}

/// The power of a sum of exponents is the product of their powers.
pub proof fn lemma_pow10_adds(a: nat, b: nat)
    ensures
        pow10(a + b) == pow10(a) * pow10(b),
    decreases b,
{
    if b == 0 {
        assert(pow10(a) * 1 == pow10(a));
    } else {
        lemma_pow10_adds(a, (b - 1) as nat);
        assert(pow10(a + b) == 10 * pow10((a + b - 1) as nat));
        assert(pow10(a) * (10 * pow10((b - 1) as nat)) == 10 * (pow10(a) * pow10((b - 1) as nat)))
            by (nonlinear_arith);
    }
}

/// Rounding to the nearest moves a quotient by at most half a divisor, and
/// never makes it larger than the dividend.
pub proof fn lemma_round_half_even_nat(a: nat, d: nat)
    requires
        d >= 2,
    ensures
        2 * magnitude(round_half_even_nat(a, d) * d - a) <= d,
        round_half_even_nat(a, d) <= a,
{
    let q = a / d;
    let r = a % d;
    lemma_fundamental_div_mod(a as int, d as int);
    lemma_mod_bound(a as int, d as int);
    lemma_div_pos_is_pos(a as int, d as int);
    assert(a == d * q + r);
    assert((q + 1) * d == q * d + d) by (nonlinear_arith);
    assert(d * q == q * d) by (nonlinear_arith);
    if q >= 1 {
        assert(q * d >= q * 2) by (nonlinear_arith)
            requires
                d >= 2,
                q >= 1,
        ;
    }
}

/// Where `n / d` lies midway between two integers, rounding picks the even
/// one.
pub proof fn law_ties_round_to_even(n: int, d: nat)
    requires
        d >= 2,
        2 * (magnitude(n) % d) == d,
    ensures
        round_half_even(n, d) % 2 == 0,
{
    let q = magnitude(n) / d;
    if q % 2 == 1 {
        assert((q + 1) % 2 == 0);
        assert((-(q + 1)) % 2 == 0);
    } else {
        assert((-(q as int)) % 2 == 0);
    }
}

/// Rounding keeps a mantissa within the magnitude it had.
pub proof fn lemma_round_half_even_bounded(n: int, d: nat)
    requires
        d >= 2,
    ensures
        magnitude(round_half_even(n, d)) <= magnitude(n),
        2 * magnitude(round_half_even(n, d) * d - n) <= d,
{
    lemma_round_half_even_nat(magnitude(n), d);
    if n < 0 {
        let k = round_half_even_nat((-n) as nat, d);
        assert((-(k as int)) * d == -(k * d)) by (nonlinear_arith);
    }
}

/// Calls `rust_decimal::Decimal::rescale` on the integer `mantissa`, taken as
/// a decimal without fractional digits, asking for `digits` of them.
///
/// Trusted: `rescale` multiplies the mantissa by ten once for each digit it
/// adds, keeps the number unchanged, and stops short of `digits` only where
/// one more multiplication would leave ninety-six bits. The pair returned is
/// the mantissa reached and the count of digits added.
#[verifier::external_body]
pub(crate) fn rescale_integer(mantissa: i128, digits: u32) -> (r: (i128, u32))
    requires
        -MAX_MANTISSA <= mantissa <= MAX_MANTISSA,
        digits <= MAX_SCALE,
    ensures
        r.1 <= digits,
        r.0 == mantissa * pow10(r.1 as nat),
        -MAX_MANTISSA <= r.0 <= MAX_MANTISSA,
        r.1 < digits ==> magnitude(mantissa as int) * pow10((r.1 + 1) as nat) > MAX_MANTISSA,
{
    let mut d = rust_decimal::Decimal::from_i128_with_scale(mantissa, 0);
    d.rescale(digits);
    (d.mantissa(), d.scale())
}

/// Calls `rust_decimal::Decimal::round_dp_with_strategy` with the strategy
/// `MidpointNearestEven` on the decimal `mantissa / 10^scale`, asking for
/// `digits` fractional digits, fewer than it has.
///
/// Trusted: the mantissa returned is that of the nearest decimal of `digits`
/// fractional digits, a tie going to the even mantissa, and the sign is kept.
#[verifier::external_body]
pub(crate) fn round_to_digits(mantissa: i128, scale: u32, digits: u32) -> (r: i128)
    requires
        -MAX_MANTISSA <= mantissa <= MAX_MANTISSA,
        digits < scale <= MAX_SCALE,
    ensures
        r == round_half_even(mantissa as int, pow10((scale - digits) as nat)),
{
    let d = rust_decimal::Decimal::from_i128_with_scale(mantissa, scale);
    d.round_dp_with_strategy(digits, rust_decimal::RoundingStrategy::MidpointNearestEven).mantissa()
}

} // verus!
