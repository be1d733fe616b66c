//! Numbers as the store holds them: double precision, carried as bit patterns.
//!
//! The library moves numbers from the source to the store and never computes
//! with them. What it has to do is widen the narrower forms in which a source
//! may hold a number, a single-precision pattern or a 32-bit integer, to double
//! precision without changing the value. That is integer work on the fields of
//! the patterns, and it is done and proved here.

use vstd::arithmetic::power2::{
    lemma2_to64, lemma2_to64_rest, lemma_pow2_adds, lemma_pow2_pos, lemma_pow2_strictly_increases,
    lemma_pow2_unfold, pow2,
};
use vstd::prelude::*;

verus! {

/// Weight of the sign bit of a double-precision pattern: 2^63.
pub const SIGN_WEIGHT: u64 = 0x8000_0000_0000_0000;

/// Number of fraction patterns of a double-precision number: 2^52.
pub const FRACTION_SPAN: u64 = 0x10_0000_0000_0000;

/// Number of exponent patterns of a double-precision number: 2^11.
pub const EXPONENT_SPAN: u64 = 0x800;

/// The exponent pattern of the infinities and of what is not a number.
pub const EXPONENT_SPECIAL: u64 = 0x7ff;

/// Weight of the fraction bit that marks a quiet not-a-number: 2^51.
pub const QUIET_WEIGHT: u64 = 0x8_0000_0000_0000;

/// Number of fraction patterns of a single-precision number: 2^23.
pub const SINGLE_FRACTION_SPAN: u32 = 0x80_0000;

/// Number of exponent patterns of a single-precision number: 2^8.
pub const SINGLE_EXPONENT_SPAN: u32 = 0x100;

/// The single-precision exponent pattern of the infinities and of what is not
/// a number.
pub const SINGLE_EXPONENT_SPECIAL: u32 = 0xff;

/// Weight of the sign bit of a single-precision pattern: 2^31.
pub const SINGLE_SIGN_WEIGHT: u32 = 0x8000_0000;

/// A double-precision number, carried as its IEEE 754 binary64 bit pattern:
/// one sign bit, eleven exponent bits, fifty-two fraction bits.
#[derive(Clone, Copy, Debug, PartialEq, Eq, Structural)]
pub struct Number {
    pub bits: u64,
}

/// Whether the sign bit of a single-precision pattern is set.
pub open spec fn single_negative(bits: u32) -> bool {
    bits >= SINGLE_SIGN_WEIGHT
}

/// The exponent field of a single-precision pattern.
pub open spec fn single_exponent(bits: u32) -> nat {
    ((bits / SINGLE_FRACTION_SPAN) % SINGLE_EXPONENT_SPAN) as nat
}

/// The fraction field of a single-precision pattern.
pub open spec fn single_fraction(bits: u32) -> nat {
    (bits % SINGLE_FRACTION_SPAN) as nat
}

/// Whether a single-precision pattern stands for a real number, zero included.
pub open spec fn single_finite(bits: u32) -> bool {
    single_exponent(bits) != SINGLE_EXPONENT_SPECIAL
}

/// The magnitude of a finite single-precision pattern in units of 2^-149, the
/// smallest step of the format.
pub open spec fn single_scaled(bits: u32) -> int {
    if single_exponent(bits) == 0 {
        single_fraction(bits) as int
    } else {
        (SINGLE_FRACTION_SPAN + single_fraction(bits)) * pow2((single_exponent(bits) - 1) as nat)
    }
}

/// The fraction field that widening gives to a single-precision not-a-number
/// of fraction `fraction`: the payload moved to the top of the wider field, and
/// the quiet bit set.
pub open spec fn widened_payload(fraction: nat) -> int {
    if fraction * 0x2000_0000 >= QUIET_WEIGHT {
        (fraction * 0x2000_0000) as int
    } else {
        fraction * 0x2000_0000 + QUIET_WEIGHT
    }
}

/// Whether `number` is the single-precision pattern `bits` widened: a real
/// number with its sign and its value kept exactly, an infinity as that
/// infinity, what is not a number as a quiet one with its payload at the top
/// of the wider fraction. The step of single precision, 2^-149, is 2^925 steps
/// of double precision, and a real number of single precision is zero or lies
/// in the normal range of double precision.
pub open spec fn widens_single(bits: u32, number: Number) -> bool {
    &&& number.negative() == single_negative(bits)
    &&& number.finite() == single_finite(bits)
    &&& single_finite(bits) ==> number.scaled() == single_scaled(bits) * pow2(925)
    &&& single_finite(bits) && single_scaled(bits) > 0 ==> number.exponent() > 0
    &&& !single_finite(bits) && single_fraction(bits) == 0 ==> number.fraction() == 0
    &&& !single_finite(bits) && single_fraction(bits) != 0 ==> number.fraction() == widened_payload(
        single_fraction(bits),
    )
}

/// Whether `number` is the double-precision number of the value of the
/// integer `value`: finite, of its sign, and of its magnitude exactly. One is
/// 2^1074 steps of double precision, and an integer other than zero lies in
/// the normal range.
pub open spec fn equals_integer(value: i32, number: Number) -> bool {
    &&& number.negative() == (value < 0)
    &&& number.finite()
    &&& value >= 0 ==> number.scaled() == value * pow2(1074)
    &&& value < 0 ==> number.scaled() == (-value) * pow2(1074)
    &&& value != 0 ==> number.exponent() > 0
}

impl Number {
    /// Whether the sign bit is set.
    pub open spec fn negative(&self) -> bool {
        self.bits >= SIGN_WEIGHT
    }

    /// The exponent field.
    pub open spec fn exponent(&self) -> nat {
        ((self.bits / FRACTION_SPAN) % EXPONENT_SPAN) as nat
    }

    /// The fraction field.
    pub open spec fn fraction(&self) -> nat {
        (self.bits % FRACTION_SPAN) as nat
    }

    /// Whether the number is a real number, zero included: neither an infinity
    /// nor not-a-number.
    pub open spec fn finite(&self) -> bool {
        self.exponent() != EXPONENT_SPECIAL
    }

    /// The magnitude of a finite number in units of 2^-1074, the smallest step
    /// of the format. Sign and magnitude say which real number a finite
    /// pattern stands for.
    pub open spec fn scaled(&self) -> int {
        if self.exponent() == 0 {
            self.fraction() as int
        } else {
            (FRACTION_SPAN + self.fraction()) * pow2((self.exponent() - 1) as nat)
        }
    }

    /// The number with the given bit pattern.
    pub fn from_bits(bits: u64) -> (number: Number)
        ensures
            number.bits == bits,
    {
        Number { bits }
    }

    /// The bit pattern of the number.
    pub fn to_bits(&self) -> (bits: u64)
        ensures
            bits == self.bits,
    {
        self.bits
    }

    /// The number with the given sign, exponent field and fraction field.
    pub fn compose(negative: bool, exponent: u64, fraction: u64) -> (number: Number)
        requires
            exponent < EXPONENT_SPAN,
            fraction < FRACTION_SPAN,
        ensures
            number.negative() == negative,
            number.exponent() == exponent,
            number.fraction() == fraction,
    {
        let magnitude: u64 = exponent * FRACTION_SPAN + fraction;
        let bits: u64 = if negative {
            SIGN_WEIGHT + magnitude
        } else {
            magnitude
        };
        Number { bits }
    }

    /// Widens a single-precision pattern to double precision. A real number
    /// keeps its sign and its value exactly, an infinity stays that infinity,
    /// and what is not a number stays so, quiet, with its payload at the top
    /// of the wider fraction.
    pub fn from_single_bits(bits: u32) -> (number: Number)
        ensures
            widens_single(bits, number),
    {
        let negative = bits >= SINGLE_SIGN_WEIGHT;
        let exponent: u32 = (bits / SINGLE_FRACTION_SPAN) % SINGLE_EXPONENT_SPAN;
        let fraction: u32 = bits % SINGLE_FRACTION_SPAN;
        if exponent == SINGLE_EXPONENT_SPECIAL {
            if fraction == 0 {
                Number::compose(negative, EXPONENT_SPECIAL, 0)
            } else {
                let moved: u64 = (fraction as u64) * 0x2000_0000;
                let payload: u64 = if moved >= QUIET_WEIGHT {
                    moved
                } else {
                    moved + QUIET_WEIGHT
                };
                Number::compose(negative, EXPONENT_SPECIAL, payload)
            }
        } else if exponent == 0 {
            if fraction == 0 {
                proof {
                    assert(0 * pow2(925) == 0);
                }
                Number::compose(negative, 0, 0)
            } else {
                // Below the normal range of the narrow format, inside that of
                // the wide one. The magnitude is `fraction` narrow steps, that
                // is `fraction * 2^925` wide steps: the value of the
                // significand `fraction` under the exponent field 926.
                let (significand, wide_exponent) = normalise(fraction as u64, 926);
                Number::compose(negative, wide_exponent, significand - FRACTION_SPAN)
            }
        } else {
            // In the normal range of both formats. The significand gains the
            // 29 bits by which the wide fraction is longer, and the exponent
            // field moves from the bias 127 to the bias 1023.
            let significand: u64 = (SINGLE_FRACTION_SPAN as u64 + fraction as u64) * 0x2000_0000;
            let wide_exponent: u64 = exponent as u64 + 896;
            proof {
                let narrow = (SINGLE_FRACTION_SPAN + fraction) as nat;
                lemma2_to64();
                lemma_pow2_adds(29, (exponent + 895) as nat);
                lemma_pow2_adds((exponent - 1) as nat, 925);
                assert(pow2(29) == 0x2000_0000);
                assert(narrow * 0x2000_0000 * pow2((exponent + 895) as nat) == narrow * pow2(
                    (exponent - 1) as nat,
                ) * pow2(925)) by (nonlinear_arith)
                    requires
                        0x2000_0000 * pow2((exponent + 895) as nat) == pow2((exponent - 1) as nat)
                            * pow2(925),
                ;
            }
            Number::compose(negative, wide_exponent, significand - FRACTION_SPAN)
        }
    }

    /// The double-precision number of the same value as a 32-bit integer.
    /// Every such integer has one: the result is exact.
    pub fn from_integer(value: i32) -> (number: Number)
        ensures
            equals_integer(value, number),
    {
        let negative = value < 0;
        let magnitude: u64 = if negative {
            (-(value as i64)) as u64
        } else {
            value as u64
        };
        if magnitude == 0 {
            proof {
                assert(0 * pow2(1074) == 0);
            }
            Number::compose(false, 0, 0)
        } else {
            // The magnitude is `magnitude * 2^1074` steps: the value of the
            // significand `magnitude` under the exponent field 1075.
            let (significand, exponent) = normalise(magnitude, 1075);
            Number::compose(negative, exponent, significand - FRACTION_SPAN)
        }
    }
}

/// Brings a significand into the normal range, from 2^52 up to 2^53, by
/// doubling it and lowering the exponent field by one for each doubling: the
/// value stays what it was.
fn normalise(significand: u64, exponent: u64) -> (normal: (u64, u64))
    requires
        0 < significand < 2 * FRACTION_SPAN,
        53 <= exponent < EXPONENT_SPECIAL,
    ensures
        FRACTION_SPAN <= normal.0 < 2 * FRACTION_SPAN,
        1 <= normal.1 <= exponent,
        normal.0 * pow2((normal.1 - 1) as nat) == significand * pow2((exponent - 1) as nat),
{
    let mut m: u64 = significand;
    let mut e: u64 = exponent;
    proof {
        lemma2_to64();
        assert(significand * pow2(0) == significand) by (nonlinear_arith)
            requires
                pow2(0) == 1,
        ;
    }
    while m < FRACTION_SPAN
        invariant
            0 < m < 2 * FRACTION_SPAN,
            53 <= exponent < EXPONENT_SPECIAL,
            e <= exponent,
            m == significand * pow2((exponent - e) as nat),
            e >= 1,
            m * pow2((e - 1) as nat) == significand * pow2((exponent - 1) as nat),
        decreases e,
    {
        proof {
            let shifts = (exponent - e) as nat;
            lemma2_to64_rest();
            lemma_pow2_pos(shifts);
            assert(pow2(shifts) <= m) by (nonlinear_arith)
                requires
                    m == significand * pow2(shifts),
                    significand >= 1,
                    pow2(shifts) > 0,
            ;
            if shifts >= 52 {
                if shifts > 52 {
                    lemma_pow2_strictly_increases(52, shifts);
                }
                assert(false);
            }
            lemma_pow2_unfold((e - 1) as nat);
            lemma_pow2_unfold(shifts + 1);
            assert((2 * m) * pow2((e - 2) as nat) == m * pow2((e - 1) as nat)) by (nonlinear_arith)
                requires
                    pow2((e - 1) as nat) == 2 * pow2((e - 2) as nat),
            ;
            assert(2 * m == significand * pow2(shifts + 1)) by (nonlinear_arith)
                requires
                    m == significand * pow2(shifts),
                    pow2(shifts + 1) == 2 * pow2(shifts),
            ;
        }
        m = m * 2;
        e = e - 1;
    }
    (m, e)
}

/// A pattern is made of its three fields and of nothing else: two numbers of
/// the same sign, exponent field and fraction field are the same number.
pub proof fn lemma_fields_determine_number(a: Number, b: Number)
    requires
        a.negative() == b.negative(),
        a.exponent() == b.exponent(),
        a.fraction() == b.fraction(),
    ensures
        a == b,
{
    assert(a.bits == b.bits) by {
        let high_a = a.bits / FRACTION_SPAN;
        let high_b = b.bits / FRACTION_SPAN;
        assert(a.bits == high_a * FRACTION_SPAN + a.bits % FRACTION_SPAN);
        assert(b.bits == high_b * FRACTION_SPAN + b.bits % FRACTION_SPAN);
        assert(high_a < 2 * EXPONENT_SPAN);
        assert(high_b < 2 * EXPONENT_SPAN);
        assert(a.negative() <==> high_a >= EXPONENT_SPAN);
        assert(b.negative() <==> high_b >= EXPONENT_SPAN);
        assert(high_a == high_b);
    }
}

/// Among the real numbers that are zero or in the normal range, sign and
/// magnitude determine the pattern: no two such patterns stand for the same
/// value.
pub proof fn lemma_value_determines_number(a: Number, b: Number)
    requires
        a.finite(),
        b.finite(),
        a.negative() == b.negative(),
        a.scaled() == b.scaled(),
        a.scaled() > 0 ==> a.exponent() > 0,
        b.scaled() > 0 ==> b.exponent() > 0,
    ensures
        a == b,
{
    lemma_pow2_pos((a.exponent() - 1) as nat);
    lemma_pow2_pos((b.exponent() - 1) as nat);
    if a.exponent() > 0 {
        assert(a.scaled() > 0) by (nonlinear_arith)
            requires
                a.scaled() == (FRACTION_SPAN + a.fraction()) * pow2((a.exponent() - 1) as nat),
                pow2((a.exponent() - 1) as nat) > 0,
        ;
    }
    if b.exponent() > 0 {
        assert(b.scaled() > 0) by (nonlinear_arith)
            requires
                b.scaled() == (FRACTION_SPAN + b.fraction()) * pow2((b.exponent() - 1) as nat),
                pow2((b.exponent() - 1) as nat) > 0,
        ;
    }
    if a.exponent() > 0 && b.exponent() > 0 {
        if a.exponent() < b.exponent() {
            lemma_lower_exponent_is_smaller(a, b);
        } else if b.exponent() < a.exponent() {
            lemma_lower_exponent_is_smaller(b, a);
        } else {
            let scale = pow2((a.exponent() - 1) as nat);
            assert(a.fraction() == b.fraction()) by (nonlinear_arith)
                requires
                    (FRACTION_SPAN + a.fraction()) * scale == (FRACTION_SPAN + b.fraction())
                        * scale,
                    scale > 0,
            ;
        }
    }
    lemma_fields_determine_number(a, b);
}

/// Of two numbers in the normal range, the one of the lower exponent field is
/// the smaller in magnitude.
proof fn lemma_lower_exponent_is_smaller(a: Number, b: Number)
    requires
        0 < a.exponent() < b.exponent(),
    ensures
        a.scaled() < b.scaled(),
{
    let low = pow2((a.exponent() - 1) as nat);
    let high = pow2((b.exponent() - 1) as nat);
    lemma_pow2_pos((a.exponent() - 1) as nat);
    lemma_pow2_unfold(a.exponent());
    if a.exponent() < b.exponent() - 1 {
        lemma_pow2_strictly_increases(a.exponent(), (b.exponent() - 1) as nat);
    }
    assert(2 * low <= high);
    assert(a.scaled() < b.scaled()) by (nonlinear_arith)
        requires
            a.scaled() == (FRACTION_SPAN + a.fraction()) * low,
            b.scaled() == (FRACTION_SPAN + b.fraction()) * high,
            a.fraction() < FRACTION_SPAN,
            b.fraction() >= 0,
            2 * low <= high,
            low > 0,
    ;
}

/// Widening has one result: two numbers that are both the widening of one
/// single-precision pattern are the same number.
pub proof fn lemma_widening_is_unique(bits: u32, a: Number, b: Number)
    requires
        widens_single(bits, a),
        widens_single(bits, b),
    ensures
        a == b,
{
    if single_finite(bits) {
        lemma_value_determines_number(a, b);
    } else {
        lemma_fields_determine_number(a, b);
    }
}

/// An integer has one double-precision number: two numbers that both equal
/// one integer are the same number.
pub proof fn lemma_integer_is_unique(value: i32, a: Number, b: Number)
    requires
        equals_integer(value, a),
        equals_integer(value, b),
    ensures
        a == b,
{
    lemma_pow2_pos(1074);
    if value > 0 {
        assert(value * pow2(1074) > 0) by (nonlinear_arith)
            requires
                value > 0,
                pow2(1074) > 0,
        ;
    } else if value < 0 {
        assert((-value) * pow2(1074) > 0) by (nonlinear_arith)
            requires
                value < 0,
                pow2(1074) > 0,
        ;
    }
    lemma_value_determines_number(a, b);
}

} // verus!
