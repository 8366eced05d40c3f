//! Single-precision measurements carried as IEEE 754 bit patterns.
//!
//! Calibrated sensor values reach the control loop as 32-bit patterns. This
//! module gives such a pattern its mathematical value and compares two
//! patterns by that value, using integer arithmetic only.

use vstd::arithmetic::power2::{
    lemma_pow2_adds, lemma_pow2_pos, lemma_pow2_strictly_increases, pow2,
};
use vstd::prelude::*;

verus! {

/// Two to the power 31: the weight of the sign bit.
pub const SIGN_BIT: u32 = 0x8000_0000;

/// Two to the power 23: the weight of the lowest exponent bit.
pub const HIDDEN_BIT: u32 = 0x0080_0000;

/// The magnitude of an infinity; every larger magnitude is not a number.
pub const INFINITY: u32 = 0x7f80_0000;

/// The pattern without its sign bit.
pub open spec fn magnitude(bits: u32) -> nat {
    (bits % SIGN_BIT) as nat
}

/// Whether the sign bit is set.
pub open spec fn is_negative(bits: u32) -> bool {
    bits >= SIGN_BIT
}

/// The biased exponent, 0 to 255.
pub open spec fn exponent(bits: u32) -> nat {
    magnitude(bits) / (HIDDEN_BIT as nat)
}

/// The 23 fraction bits.
pub open spec fn fraction(bits: u32) -> nat {
    magnitude(bits) % (HIDDEN_BIT as nat)
}

/// Whether the pattern is not a number.
pub open spec fn is_nan(bits: u32) -> bool {
    magnitude(bits) > INFINITY
}

/// The absolute value that the pattern encodes, multiplied by two to the
/// power 149 so that it is a whole number. A subnormal (exponent 0) is its
/// fraction; a normal number is its significand shifted by the exponent. An
/// infinity gets the value of the next binade, above every finite value.
pub open spec fn scaled_magnitude(bits: u32) -> nat {
    if exponent(bits) == 0 {
        fraction(bits)
    } else {
        ((HIDDEN_BIT + fraction(bits)) * pow2((exponent(bits) - 1) as nat)) as nat
    }
}

/// The signed value that the pattern encodes, multiplied by two to the power
/// 149. Both zeros have the value 0.
pub open spec fn scaled_value(bits: u32) -> int {
    if is_negative(bits) {
        -(scaled_magnitude(bits) as int)
    } else {
        scaled_magnitude(bits) as int
    }
}

/// `a > b` as IEEE 754 orders the encoded values: false when either side is
/// not a number.
pub open spec fn gt(a: u32, b: u32) -> bool {
    !is_nan(a) && !is_nan(b) && scaled_value(a) > scaled_value(b)
}

/// `a < b` as IEEE 754 orders the encoded values: false when either side is
/// not a number.
pub open spec fn lt(a: u32, b: u32) -> bool {
    gt(b, a)
}

/// A larger magnitude encodes a larger absolute value.
pub proof fn lemma_scaled_magnitude_increases(a: u32, b: u32)
    requires
        magnitude(a) < magnitude(b),
    ensures
        scaled_magnitude(a) < scaled_magnitude(b),
{
    let h = HIDDEN_BIT as nat;
    let (ea, fa) = (exponent(a), fraction(a));
    let (eb, fb) = (exponent(b), fraction(b));
    assert(magnitude(a) == ea * h + fa && fa < h) by (nonlinear_arith)
        requires
            ea == magnitude(a) / h,
            fa == magnitude(a) % h,
            h == 0x0080_0000,
    ;
    assert(magnitude(b) == eb * h + fb && fb < h) by (nonlinear_arith)
        requires
            eb == magnitude(b) / h,
            fb == magnitude(b) % h,
            h == 0x0080_0000,
    ;
    assert(ea <= eb) by (nonlinear_arith)
        requires
            ea * h + fa < eb * h + fb,
            fa < h,
            fb < h,
    ;
    if ea == eb {
        if ea > 0 {
            lemma_pow2_pos((ea - 1) as nat);
            assert((h + fa) * pow2((ea - 1) as nat) < (h + fb) * pow2((ea - 1) as nat))
                by (nonlinear_arith)
                requires
                    fa < fb,
                    pow2((ea - 1) as nat) > 0,
            ;
        }
    } else if ea == 0 {
        lemma_pow2_pos((eb - 1) as nat);
        assert(fa < (h + fb) * pow2((eb - 1) as nat)) by (nonlinear_arith)
            requires
                fa < h,
                pow2((eb - 1) as nat) > 0,
        ;
    } else {
        // One binade up at least doubles the weight of the significand.
        let pa = pow2((ea - 1) as nat);
        let pb = pow2((eb - 1) as nat);
        lemma_pow2_pos((ea - 1) as nat);
        lemma_pow2_adds((ea - 1) as nat, 1);
        assert(pow2(1) == 2) by {
            vstd::arithmetic::power2::lemma2_to64();
        }
        assert(pow2(ea) == 2 * pa);
        if ea < (eb - 1) as nat {
            lemma_pow2_strictly_increases(ea, (eb - 1) as nat);
        }
        assert(2 * pa <= pb);
        assert((h + fa) * pa < (h + fb) * pb) by (nonlinear_arith)
            requires
                fa < h,
                pa > 0,
                2 * pa <= pb,
        ;
    }
}

/// Magnitudes order as the absolute values that they encode: the smaller
/// magnitude encodes the smaller value, equal magnitudes encode equal values,
/// and only the magnitude 0 encodes the value 0.
pub proof fn lemma_scaled_magnitude_order(a: u32, b: u32)
    ensures
        magnitude(a) < magnitude(b) <==> scaled_magnitude(a) < scaled_magnitude(b),
        magnitude(a) == magnitude(b) <==> scaled_magnitude(a) == scaled_magnitude(b),
        magnitude(a) == 0 <==> scaled_magnitude(a) == 0,
{
    if magnitude(a) < magnitude(b) {
        lemma_scaled_magnitude_increases(a, b);
    }
    if magnitude(b) < magnitude(a) {
        lemma_scaled_magnitude_increases(b, a);
    }
    if magnitude(a) > 0 {
        lemma_scaled_magnitude_increases(0, a);
    }
}

/// Whether `bits` is not a number.
pub fn not_a_number(bits: u32) -> (r: bool)
    ensures
        r == is_nan(bits),
{
    bits % SIGN_BIT > INFINITY
}

/// Whether the value of `a` is greater than the value of `b`.
pub fn greater_than(a: u32, b: u32) -> (r: bool)
    ensures
        r == gt(a, b),
{
    if not_a_number(a) || not_a_number(b) {
        return false;
    }
    let ma: u32 = a % SIGN_BIT;
    let mb: u32 = b % SIGN_BIT;
    proof {
        lemma_scaled_magnitude_order(a, b);
        lemma_scaled_magnitude_order(b, a);
    }
    if a >= SIGN_BIT {
        b >= SIGN_BIT && ma < mb
    } else if b >= SIGN_BIT {
        ma > 0 || mb > 0
    } else {
        ma > mb
    }
}

/// Whether the value of `a` is less than the value of `b`.
pub fn less_than(a: u32, b: u32) -> (r: bool)
    ensures
        r == lt(a, b),
{
    greater_than(b, a)
}

} // verus!
