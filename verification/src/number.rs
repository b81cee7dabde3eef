//! The integer/float split for host numbers.
//!
//! The host has a single number type: a 64-bit binary floating-point value.
//! The dispatch core hands a number to the schema as a 64-bit signed
//! integer when truncating it changes nothing, and as a float otherwise.
//! This module decides that split on the raw bit pattern alone: a finite
//! value is unchanged by truncation exactly when its fractional bits are
//! zero, an infinity is unchanged, and a NaN is not.  The integer handed
//! over is the value of the host's truncating, saturating float-to-integer
//! cast.

use vstd::arithmetic::power2::{
    lemma2_to64, lemma2_to64_rest, lemma_pow2_adds, lemma_pow2_pos, lemma_pow2_strictly_increases,
    lemma_pow2_unfold, pow2,
};
use vstd::prelude::*;

verus! {

/// How one host number reaches the schema: as a 64-bit signed integer or
/// as an untouched 64-bit float bit pattern.
#[derive(Clone, Copy, Debug, PartialEq, Eq, Structural)]
pub enum Number {
    Int(i64),
    Float(u64),
}

/// The sign bit of an IEEE-754 binary64 bit pattern.
pub open spec fn sign_of(bits: u64) -> u64 {
    bits >> 63
}

/// The biased exponent field of an IEEE-754 binary64 bit pattern.
pub open spec fn exp_of(bits: u64) -> u64 {
    (bits >> 52) & 0x7ff
}

/// The mantissa field of an IEEE-754 binary64 bit pattern.
pub open spec fn man_of(bits: u64) -> u64 {
    bits & 0xf_ffff_ffff_ffff
}

/// Whether the encoded number is unchanged by truncation: zeros, finite
/// values without fractional bits, and infinities qualify; NaNs,
/// subnormals and values with a fractional part do not.
pub open spec fn is_integral(bits: u64) -> bool {
    let e = exp_of(bits);
    let m = man_of(bits);
    if e == 0x7ff {
        m == 0
    } else if e == 0 {
        m == 0
    } else if e < 1023 {
        false
    } else if e >= 1075 {
        true
    } else {
        (pow2(52) + m as nat) % pow2((1075 - e) as nat) == 0
    }
}

/// The magnitude of a finite integral number: the implicit leading one and
/// the mantissa, scaled by the unbiased exponent.
pub open spec fn int_magnitude(bits: u64) -> nat {
    let e = exp_of(bits);
    let m = man_of(bits);
    if e == 0 {
        0
    } else if e >= 1075 {
        (pow2(52) + m as nat) * pow2((e - 1075) as nat)
    } else {
        (pow2(52) + m as nat) / pow2((1075 - e) as nat)
    }
}

/// The result of the host's truncating float-to-integer cast on an
/// integral number: the signed magnitude, saturated to the 64-bit signed
/// range; infinities saturate by their sign.
pub open spec fn integer_value(bits: u64) -> int {
    if exp_of(bits) == 0x7ff {
        if sign_of(bits) == 1 {
            i64::MIN as int
        } else {
            i64::MAX as int
        }
    } else {
        let v = if sign_of(bits) == 1 {
            -(int_magnitude(bits) as int)
        } else {
            int_magnitude(bits) as int
        };
        if v > i64::MAX as int {
            i64::MAX as int
        } else if v < i64::MIN as int {
            i64::MIN as int
        } else {
            v
        }
    }
}

/// Two raised to the given exponent, as a machine word.
fn pow2_u64(k: u64) -> (r: u64)
    requires
        k < 64,
    ensures
        r as nat == pow2(k as nat),
{
    let mut r: u64 = 1;
    let mut i: u64 = 0;
    proof {
        lemma2_to64();
    }
    while i < k
        invariant
            i <= k < 64,
            r as nat == pow2(i as nat),
        decreases k - i,
    {
        proof {
            lemma_pow2_unfold((i + 1) as nat);
            if i + 1 < 63 {
                lemma_pow2_strictly_increases((i + 1) as nat, 63);
            }
            lemma2_to64_rest();
        }
        r = r * 2;
        i = i + 1;
    }
    r
}

/// Decides the integer/float split for one host number, given as its raw
/// IEEE-754 binary64 bit pattern.
pub fn classify(bits: u64) -> (r: Number)
    ensures
        is_integral(bits) ==> (r matches Number::Int(i) && i as int == integer_value(bits)),
        !is_integral(bits) ==> r == Number::Float(bits),
{
    let sign: u64 = bits >> 63;
    let e: u64 = (bits >> 52) & 0x7ff;
    let m: u64 = bits & 0xf_ffff_ffff_ffff;
    proof {
        assert(bits >> 63 <= 1) by (bit_vector);
        assert((bits >> 52) & 0x7ff <= 0x7ff) by (bit_vector);
        assert(bits & 0xf_ffff_ffff_ffff < 0x10_0000_0000_0000) by (bit_vector);
        lemma2_to64();
        lemma2_to64_rest();
        assert(pow2(52) == 0x10_0000_0000_0000);
    }
    if e == 0x7ff {
        if m == 0 {
            Number::Int(if sign == 1 { i64::MIN } else { i64::MAX })
        } else {
            Number::Float(bits)
        }
    } else if e == 0 {
        if m == 0 {
            Number::Int(0)
        } else {
            Number::Float(bits)
        }
    } else if e < 1023 {
        Number::Float(bits)
    } else if e >= 1075 {
        let frac: u64 = 0x10_0000_0000_0000u64 + m;
        if e >= 1086 {
            proof {
                let k = (e - 1075) as nat;
                lemma_pow2_adds(52, k);
                assert((pow2(52) + m as nat) * pow2(k) >= pow2(52) * pow2(k)) by (nonlinear_arith);
                if 52 + k > 63 {
                    lemma_pow2_strictly_increases(63, 52 + k);
                }
                assert(int_magnitude(bits) >= pow2(63));
            }
            Number::Int(if sign == 1 { i64::MIN } else { i64::MAX })
        } else {
            let p: u64 = pow2_u64(e - 1075);
            proof {
                if e - 1075 != 10 {
                    lemma_pow2_strictly_increases((e - 1075) as nat, 10);
                }
                lemma_pow2_adds(53, 10);
                assert((frac as nat) * (p as nat) < 0x8000_0000_0000_0000) by (nonlinear_arith)
                    requires
                        frac < 0x20_0000_0000_0000,
                        p <= 0x400;
            }
            let mag: u64 = frac * p;
            if sign == 1 {
                Number::Int(-(mag as i64))
            } else {
                Number::Int(mag as i64)
            }
        }
    } else {
        let p: u64 = pow2_u64(1075 - e);
        let frac: u64 = 0x10_0000_0000_0000u64 + m;
        proof {
            lemma_pow2_pos((1075 - e) as nat);
        }
        if frac % p == 0 {
            let mag: u64 = frac / p;
            proof {
                assert(frac as nat / p as nat <= frac as nat) by (nonlinear_arith)
                    requires
                        p >= 1;
            }
            if sign == 1 {
                Number::Int(-(mag as i64))
            } else {
                Number::Int(mag as i64)
            }
        } else {
            Number::Float(bits)
        }
    }
}

} // verus!
