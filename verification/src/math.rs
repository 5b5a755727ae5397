//! Overflow-safe multiply-then-divide on 64-bit quantities.

use vstd::prelude::*;
use crate::errors::ProgramError;

verus! {

/// `a * b / c` rounded towards zero, as a mathematical integer.
pub open spec fn mul_div_floor(a: nat, b: nat, c: nat) -> nat
    recommends
        c > 0,
{
    (a * b) / c
}

/// `a * b / c` rounded away from zero, as a mathematical integer.
pub open spec fn mul_div_up(a: nat, b: nat, c: nat) -> nat
    recommends
        c > 0,
{
    (a * b + c - 1) as nat / c
}

/// What `mul_div` returns: the floored quotient when the divisor is non-zero
/// and the quotient fits in 64 bits, an overflow error otherwise.
pub open spec fn mul_div_spec(a: u64, b: u64, c: u64) -> Result<u64, ProgramError> {
    if c == 0 || mul_div_floor(a as nat, b as nat, c as nat) > u64::MAX {
        Err(ProgramError::ArithmeticOverflow)
    } else {
        Ok(mul_div_floor(a as nat, b as nat, c as nat) as u64)
    }
}

/// What `mul_div_ceil` returns: the quotient rounded up when the divisor is
/// non-zero and the rounded quotient fits in 64 bits, an overflow error otherwise.
pub open spec fn mul_div_ceil_spec(a: u64, b: u64, c: u64) -> Result<u64, ProgramError> {
    if c == 0 || mul_div_up(a as nat, b as nat, c as nat) > u64::MAX {
        Err(ProgramError::ArithmeticOverflow)
    } else {
        Ok(mul_div_up(a as nat, b as nat, c as nat) as u64)
    }
}

/// The product of two 64-bit values fits in 128 bits, with room to add a third.
pub proof fn lemma_product_fits(a: u64, b: u64, c: u64)
    ensures
        (a as nat) * (b as nat) + (c as nat) <= u128::MAX,
        (a as nat) * (b as nat) <= 0xFFFF_FFFF_FFFF_FFFE_0000_0000_0000_0001,
{
    assert((a as nat) * (b as nat) <= 0xFFFF_FFFF_FFFF_FFFFnat * 0xFFFF_FFFF_FFFF_FFFFnat)
        by (nonlinear_arith)
        requires
            a <= 0xFFFF_FFFF_FFFF_FFFFnat,
            b <= 0xFFFF_FFFF_FFFF_FFFFnat,
    ;
}

/// Computes `(a * b) / c` with a 128-bit intermediate, rounding down.
pub fn mul_div(a: u64, b: u64, c: u64) -> (r: Result<u64, ProgramError>)
    ensures
        r == mul_div_spec(a, b, c),
{
    if c == 0 {
        return Err(ProgramError::ArithmeticOverflow);
    }
    proof {
        lemma_product_fits(a, b, c);
    }
    let product: u128 = (a as u128) * (b as u128);
    let result: u128 = product / (c as u128);
    if result > u64::MAX as u128 {
        return Err(ProgramError::ArithmeticOverflow);
    }
    Ok(result as u64)
}

/// Computes `(a * b) / c` with a 128-bit intermediate, rounding up.
pub fn mul_div_ceil(a: u64, b: u64, c: u64) -> (r: Result<u64, ProgramError>)
    ensures
        r == mul_div_ceil_spec(a, b, c),
{
    if c == 0 {
        return Err(ProgramError::ArithmeticOverflow);
    }
    proof {
        lemma_product_fits(a, b, c);
    }
    let numerator: u128 = (a as u128) * (b as u128);
    let result: u128 = (numerator + (c as u128 - 1)) / (c as u128);
    if result > u64::MAX as u128 {
        return Err(ProgramError::ArithmeticOverflow);
    }
    Ok(result as u64)
}

} // verus!
