//! Integer arithmetic for reserves and supplies: products are taken in 128
//! bits and narrowed back to 64 bits only after the final division.
use vstd::prelude::*;
use crate::error::AmmError;

verus! {

/// `a * b / c`, rounded down, over the integers.
pub open spec fn mul_div_floor(a: int, b: int, c: int) -> int {
    (a * b) / c
}

/// The outcome of [`mul_div`]: the rounded-down quotient when the divisor is
/// not zero and the quotient fits in 64 bits.
pub open spec fn mul_div_result(a: u64, b: u64, c: u64) -> Result<u64, AmmError> {
    if c == 0 {
        Err(AmmError::DivisionByZero)
    } else if mul_div_floor(a as int, b as int, c as int) > u64::MAX {
        Err(AmmError::Overflow)
    } else {
        Ok(mul_div_floor(a as int, b as int, c as int) as u64)
    }
}

pub proof fn lemma_u64_product_fits(a: u64, b: u64)
    ensures
        0 <= (a as int) * (b as int) <= u128::MAX,
{
    assert(0 <= (a as int) * (b as int) <= (u64::MAX as int) * (u64::MAX as int)) by (nonlinear_arith);
}

/// `a * b / c` rounded down, computed without intermediate overflow.
pub fn mul_div(a: u64, b: u64, c: u64) -> (r: Result<u64, AmmError>)
    ensures
        r == mul_div_result(a, b, c),
{
    if c == 0 {
        return Err(AmmError::DivisionByZero);
    }
    proof {
        lemma_u64_product_fits(a, b);
    }
    let wide: u128 = (a as u128) * (b as u128);
    let q: u128 = wide / (c as u128);
    if q > u64::MAX as u128 {
        Err(AmmError::Overflow)
    } else {
        Ok(q as u64)
    }
}

} // verus!
