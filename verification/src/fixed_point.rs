//! The fixed-point encoder: from a measured value to the signed mantissa
//! that the receiver stores, at a scale fixed by the deployment.

use crate::decimal::{
    lemma_pow10_adds, lemma_pow10_monotonic, lemma_pow10_positive, lemma_round_half_even_bounded,
    magnitude, pow10, rescale_integer, round_half_even, round_to_digits, DecimalValue,
    MAX_MANTISSA, MAX_SCALE,
};
use vstd::prelude::*;

verus! {

/// One measured value, as the source delivered it.
#[derive(Clone, Copy, Debug, PartialEq, Eq)]
pub enum Measurement {
    /// A finite number that a decimal can carry.
    Finite(DecimalValue),
    /// Not a number, or an infinity.
    NotFinite,
    /// A finite number too large for any decimal.
    OutOfRange,
}

/// The eleven exponent bits of a double-precision number given by its bits.
pub open spec fn exponent_bits(bits: u64) -> int {
    (bits as int / 0x10_0000_0000_0000) % 0x800
}

/// Whether the bits are those of a finite double-precision number: every
/// such number has an exponent field that is not all ones.
pub open spec fn is_finite_bits(bits: u64) -> bool {
    exponent_bits(bits) != 0x7ff
}

impl Measurement {
    /// The measurement that a double-precision number stands for, given its
    /// bits and the decimal it converts to, if any.
    pub fn classify(bits: u64, decimal: Option<DecimalValue>) -> (r: Measurement)
        ensures
            r == if !is_finite_bits(bits) {
                Measurement::NotFinite
            } else {
                match decimal {
                    Some(d) => Measurement::Finite(d),
                    None => Measurement::OutOfRange,
                }
            },
    {
        let exponent = (bits >> 52) & 0x7ff;
        assert(exponent == (bits / 0x10_0000_0000_0000) % 0x800) by (bit_vector)
            requires
                exponent == (bits >> 52) & 0x7ff,
        ;
        if exponent == 0x7ff {
            Measurement::NotFinite
        } else {
            match decimal {
                Some(d) => Measurement::Finite(d),
                None => Measurement::OutOfRange,
            }
        }
    }
}

/// A measured value at a fixed scale: the number `mantissa / 10^scale`.
#[derive(Clone, Copy, Debug, PartialEq, Eq)]
pub struct FixedPointValue {
    pub mantissa: i128,
    pub scale: u8,
}

/// Why a measured value has no fixed-point form.
#[derive(Clone, Copy, Debug, PartialEq, Eq)]
pub enum EncodingError {
    /// The value is not a number or is infinite.
    NotFinite,
    /// The mantissa at the scale asked for does not fit ninety-six bits.
    Overflow,
}

/// The mantissa of `mantissa / 10^scale` at `target` fractional digits:
/// exact where digits are added, rounded half to even where they are dropped.
pub open spec fn scaled(mantissa: int, scale: nat, target: nat) -> int {
    if target >= scale {
        mantissa * pow10((target - scale) as nat)
    } else {
        round_half_even(mantissa, pow10((scale - target) as nat))
    }
}

/// What [`encode`] returns.
pub open spec fn encode_spec(value: Measurement, scale: u8) -> Result<FixedPointValue, EncodingError> {
    match value {
        Measurement::NotFinite => Err(EncodingError::NotFinite),
        Measurement::OutOfRange => Err(EncodingError::Overflow),
        Measurement::Finite(d) => {
            let m = scaled(d@.mantissa, d@.scale, scale as nat);
            if -MAX_MANTISSA <= m <= MAX_MANTISSA {
                Ok(FixedPointValue { mantissa: m as i128, scale })
            } else {
                Err(EncodingError::Overflow)
            }
        },
    }
}

/// Encodes a measured value at `scale` fractional digits.
///
/// Digits are added exactly and dropped with rounding half to even. A value
/// that is not finite, or whose mantissa at `scale` leaves ninety-six bits,
/// has no encoding.
pub fn encode(value: &Measurement, scale: u8) -> (r: Result<FixedPointValue, EncodingError>)
    ensures
        r == encode_spec(*value, scale),
{
    match value {
        Measurement::NotFinite => Err(EncodingError::NotFinite),
        Measurement::OutOfRange => Err(EncodingError::Overflow),
        Measurement::Finite(d) => {
            let mantissa = d.mantissa();
            let from = d.scale();
            let target = scale as u32;
            if target < from {
                let rounded = round_to_digits(mantissa, from, target);
                proof {
                    let k = (from - target) as nat;
                    lemma_pow10_monotonic(1, k);
                    reveal_with_fuel(pow10, 2);
                    lemma_round_half_even_bounded(mantissa as int, pow10(k));
                }
                Ok(FixedPointValue { mantissa: rounded, scale })
            } else if mantissa == 0 {
                proof {
                    assert(0 * pow10((target - from) as nat) == 0) by (nonlinear_arith);
                }
                Ok(FixedPointValue { mantissa: 0, scale })
            } else {
                let digits = target - from;
                if digits > MAX_SCALE {
                    proof {
                        lemma_pow10_beyond_mantissa();
                        lemma_overflow_from(mantissa as int, 29, digits as nat);
                    }
                    Err(EncodingError::Overflow)
                } else {
                    let (product, reached) = rescale_integer(mantissa, digits);
                    if reached == digits {
                        Ok(FixedPointValue { mantissa: product, scale })
                    } else {
                        proof {
                            lemma_overflow_from(mantissa as int, (reached + 1) as nat, digits as nat);
                        }
                        Err(EncodingError::Overflow)
                    }
                }
            }
        },
    }
}

/// Ten to the twenty-ninth is beyond every mantissa.
proof fn lemma_pow10_beyond_mantissa()
    ensures
        pow10(29) > MAX_MANTISSA,
{
    reveal_with_fuel(pow10, 30);
}

/// A non-zero magnitude times a positive factor is at least the factor.
proof fn lemma_magnitude_scales(m: int, p: nat)
    requires
        m != 0,
    ensures
        magnitude(m) * p >= p,
{
    assert(magnitude(m) * p >= p) by (nonlinear_arith)
        requires
            magnitude(m) >= 1,
    ;
}

/// Once a mantissa has left ninety-six bits, further digits keep it out.
proof fn lemma_overflow_from(m: int, j: nat, k: nat)
    requires
        j <= k,
        magnitude(m) * pow10(j) > MAX_MANTISSA || (m != 0 && pow10(j) > MAX_MANTISSA),
    ensures
        !(-MAX_MANTISSA <= m * pow10(k) <= MAX_MANTISSA),
{
    lemma_pow10_monotonic(j, k);
    if m != 0 && pow10(j) > MAX_MANTISSA {
        lemma_magnitude_scales(m, pow10(j));
    }
    let a = magnitude(m) as int;
    let pj = pow10(j) as int;
    let pk = pow10(k) as int;
    assert(a * pj <= a * pk) by (nonlinear_arith)
        requires
            a >= 0,
            pj <= pk,
    ;
    if m < 0 {
        assert(m * pk == -(a * pk)) by (nonlinear_arith)
            requires
                a == -m,
        ;
    }
}

impl FixedPointValue {
    /// The same number as a decimal, where a decimal can carry it.
    pub fn to_decimal(&self) -> (r: Option<DecimalValue>)
        ensures
            r is Some <==> DecimalValue::representable(self.mantissa as int, self.scale as int),
            r matches Some(d) ==> d@.mantissa == self.mantissa && d@.scale == self.scale,
    {
        DecimalValue::new(self.mantissa, self.scale as u32)
    }
}

/// An encoding differs from the value it encodes by at most half a unit of
/// its last digit: with `v = m / 10^e` encoded as `f / 10^s`, twice the
/// distance between `f * 10^e` and `m * 10^s` is at most `10^e`.
pub proof fn law_encoding_within_half_unit(value: DecimalValue, scale: u8)
    requires
        encode_spec(Measurement::Finite(value), scale) is Ok,
    ensures
        ({
            let f = encode_spec(Measurement::Finite(value), scale)->Ok_0;
            2 * magnitude(
                f.mantissa * pow10(value@.scale) - value@.mantissa * pow10(scale as nat),
            ) <= pow10(value@.scale)
        }),
{
    let m = value@.mantissa;
    let e = value@.scale;
    let t = scale as nat;
    let f = scaled(m, e, t);
    lemma_pow10_positive(e);
    if t >= e {
        let up = pow10((t - e) as nat) as int;
        let pe = pow10(e) as int;
        lemma_pow10_adds((t - e) as nat, e);
        assert((m * up) * pe == m * (up * pe)) by (nonlinear_arith);
    } else {
        let k = (e - t) as nat;
        let d = pow10(k) as int;
        let pt = pow10(t) as int;
        lemma_pow10_monotonic(1, k);
        reveal_with_fuel(pow10, 2);
        lemma_round_half_even_bounded(m, pow10(k));
        lemma_pow10_adds(k, t);
        lemma_pow10_positive(t);
        let x = f * d - m;
        assert(f * (d * pt) - m * pt == x * pt) by (nonlinear_arith)
            requires
                x == f * d - m,
        ;
        assert(2 * magnitude(x * pt) <= d * pt) by (nonlinear_arith)
            requires
                2 * magnitude(x) <= d,
                pt >= 1,
        ;
    }
}

/// Encoding is idempotent: a value already at `scale` encodes to itself, so
/// encoding what an encoding stands for gives that encoding again.
pub proof fn law_encoding_idempotent(value: Measurement, scale: u8, again: DecimalValue)
    requires
        encode_spec(value, scale) matches Ok(f) && again@.mantissa == f.mantissa && again@.scale
            == scale,
    ensures
        encode_spec(Measurement::Finite(again), scale) == encode_spec(value, scale),
{
    assert(again@.mantissa * pow10(0) == again@.mantissa) by (nonlinear_arith)
        requires
            pow10(0) == 1,
    ;
}

} // verus!
