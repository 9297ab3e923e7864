//! Binary32 numbers, held as their bit patterns.
//!
//! The camera works on single-precision numbers that come from input
//! devices and go to GPU programs. This module reads such a number from the
//! 32-bit word that encodes it: its sign, whether it is a number at all,
//! and its position among the others. With that, thresholds and limits can
//! be applied to words, and what they do can be stated of the numbers.

use vstd::arithmetic::power2::{
    lemma_pow2_pos, lemma_pow2_strictly_increases, lemma_pow2_unfold, pow2,
};
use vstd::prelude::*;

verus! {

/// The bit that holds the sign.
pub const SIGN: u32 = 0x8000_0000;

/// The word of positive infinity. Larger magnitudes encode no number.
pub const INFINITY: u32 = 0x7f80_0000;

/// The word of positive zero.
pub const ZERO: u32 = 0;

/// The word without its sign: the encoding of the absolute value.
pub open spec fn magnitude(w: u32) -> u32 {
    if w >= 0x8000_0000 {
        (w - 0x8000_0000) as u32
    } else {
        w
    }
}

/// The sign bit is set. This holds of negative zero too.
pub open spec fn is_negative(w: u32) -> bool {
    w >= 0x8000_0000
}

/// The word encodes no number.
pub open spec fn is_nan(w: u32) -> bool {
    magnitude(w) > 0x7f80_0000
}

/// The word encodes a number other than an infinity.
pub open spec fn is_finite(w: u32) -> bool {
    magnitude(w) < 0x7f80_0000
}

/// The eight bits of the exponent field.
pub open spec fn exponent(w: u32) -> nat {
    (magnitude(w) / 0x80_0000) as nat
}

/// The twenty-three bits of the fraction field.
pub open spec fn fraction(w: u32) -> nat {
    (magnitude(w) % 0x80_0000) as nat
}

/// The absolute value of the number, counted in units of 2^-149, the
/// smallest positive binary32 number. A subnormal number is its fraction; a
/// normal number is its fraction with the hidden bit, doubled once for each
/// step of the exponent above one. Infinity gets the size that the same
/// rule gives it, which is above that of every finite number.
pub open spec fn size(w: u32) -> nat {
    if exponent(w) == 0 {
        fraction(w)
    } else {
        (0x80_0000 + fraction(w)) * pow2((exponent(w) - 1) as nat)
    }
}

/// The number in units of 2^-149: its size with its sign. Both zeros are 0.
pub open spec fn scaled(w: u32) -> int {
    if is_negative(w) {
        -(size(w) as int)
    } else {
        size(w) as int
    }
}

/// `a < b` as numbers. False when either is no number.
pub open spec fn lt(a: u32, b: u32) -> bool {
    !is_nan(a) && !is_nan(b) && scaled(a) < scaled(b)
}

/// `a <= b` as numbers. False when either is no number.
pub open spec fn le(a: u32, b: u32) -> bool {
    !is_nan(a) && !is_nan(b) && scaled(a) <= scaled(b)
}

/// Of two words, the one with the larger magnitude encodes the number of
/// the larger size.
pub proof fn lemma_size_increases(a: u32, b: u32)
    requires
        magnitude(a) < magnitude(b),
    ensures
        size(a) < size(b),
{
    let ea = exponent(a);
    let eb = exponent(b);
    let fa = fraction(a);
    let fb = fraction(b);
    assert(magnitude(a) == ea * 0x80_0000 + fa && fa < 0x80_0000);
    assert(magnitude(b) == eb * 0x80_0000 + fb && fb < 0x80_0000);
    assert(ea <= eb) by (nonlinear_arith)
        requires
            ea * 0x80_0000 + fa < eb * 0x80_0000 + fb,
            fa < 0x80_0000,
            fb < 0x80_0000,
    ;
    if ea == eb {
        if ea != 0 {
            let p = pow2((ea - 1) as nat);
            lemma_pow2_pos((ea - 1) as nat);
            assert((0x80_0000 + fa) * p < (0x80_0000 + fb) * p) by (nonlinear_arith)
                requires
                    fa < fb,
                    p > 0,
            ;
        }
    } else {
        let pb = pow2((eb - 1) as nat);
        lemma_pow2_pos((eb - 1) as nat);
        assert(0x80_0000 * pb <= (0x80_0000 + fb) * pb) by (nonlinear_arith)
            requires
                pb > 0,
        ;
        if ea == 0 {
            assert(0x80_0000 * 1 <= 0x80_0000 * pb) by (nonlinear_arith)
                requires
                    pb >= 1,
            ;
        } else {
            let pa = pow2((ea - 1) as nat);
            lemma_pow2_pos((ea - 1) as nat);
            lemma_pow2_unfold(ea);
            assert((0x80_0000 + fa) * pa < 0x80_0000 * (2 * pa)) by (nonlinear_arith)
                requires
                    fa < 0x80_0000,
                    pa > 0,
            ;
            if ea < eb - 1 {
                lemma_pow2_strictly_increases(ea, (eb - 1) as nat);
            }
            assert(0x80_0000 * pow2(ea) <= 0x80_0000 * pb) by (nonlinear_arith)
                requires
                    pow2(ea) <= pb,
            ;
        }
    }
}

/// Magnitudes are ordered as the sizes they encode, and only the magnitude
/// zero encodes the size zero.
pub proof fn lemma_size_order(a: u32, b: u32)
    ensures
        magnitude(a) < magnitude(b) <==> size(a) < size(b),
        magnitude(a) == magnitude(b) <==> size(a) == size(b),
        magnitude(a) == 0 <==> size(a) == 0,
{
    if magnitude(a) < magnitude(b) {
        lemma_size_increases(a, b);
    }
    if magnitude(b) < magnitude(a) {
        lemma_size_increases(b, a);
    }
    if magnitude(a) > 0 {
        lemma_size_increases(0, a);
    }
}

/// The word of the absolute value.
pub fn abs(w: u32) -> (m: u32)
    ensures
        m == magnitude(w),
{
    if w >= SIGN {
        w - SIGN
    } else {
        w
    }
}

/// Whether `a < b` as numbers.
pub fn less(a: u32, b: u32) -> (r: bool)
    ensures
        r == lt(a, b),
{
    let ma: u32 = abs(a);
    let mb: u32 = abs(b);
    if ma > INFINITY || mb > INFINITY {
        return false;
    }
    proof {
        lemma_size_order(a, b);
        lemma_size_order(b, a);
    }
    if a >= SIGN {
        if b >= SIGN {
            mb < ma
        } else {
            ma != 0 || mb != 0
        }
    } else {
        if b >= SIGN {
            false
        } else {
            ma < mb
        }
    }
}

} // verus!
