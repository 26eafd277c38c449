use vstd::prelude::*;

use crate::errors::ErrorCode;

verus! {

// Checked arithmetic kernel. All monetary and power quantities are
// non-negative integers in a fixed smallest unit; every arithmetic step is
// checked, and a step that cannot be represented reports `Overflow` (or
// `DivisionByZero`) instead of wrapping. Intermediate products that can
// exceed 64 bits are carried in 128 bits and narrowed only at the end.

/// Checked 64-bit addition.
pub open spec fn add_u64_spec(a: u64, b: u64) -> Result<u64, ErrorCode> {
    if a + b > u64::MAX {
        Err(ErrorCode::Overflow)
    } else {
        Ok((a + b) as u64)
    }
}

pub fn add_u64(a: u64, b: u64) -> (r: Result<u64, ErrorCode>)
    ensures
        r == add_u64_spec(a, b),
{
    match a.checked_add(b) {
        Some(v) => Ok(v),
        None => Err(ErrorCode::Overflow),
    }
}

/// Checked 64-bit subtraction; underflow is reported as `Overflow`.
pub open spec fn sub_u64_spec(a: u64, b: u64) -> Result<u64, ErrorCode> {
    if a < b {
        Err(ErrorCode::Overflow)
    } else {
        Ok((a - b) as u64)
    }
}

pub fn sub_u64(a: u64, b: u64) -> (r: Result<u64, ErrorCode>)
    ensures
        r == sub_u64_spec(a, b),
{
    match a.checked_sub(b) {
        Some(v) => Ok(v),
        None => Err(ErrorCode::Overflow),
    }
}

/// Checked 64-bit multiplication.
pub open spec fn mul_u64_spec(a: u64, b: u64) -> Result<u64, ErrorCode> {
    if a * b > u64::MAX {
        Err(ErrorCode::Overflow)
    } else {
        Ok((a * b) as u64)
    }
}

pub fn mul_u64(a: u64, b: u64) -> (r: Result<u64, ErrorCode>)
    ensures
        r == mul_u64_spec(a, b),
{
    match a.checked_mul(b) {
        Some(v) => Ok(v),
        None => Err(ErrorCode::Overflow),
    }
}

/// Checked 128-bit addition.
pub open spec fn add_u128_spec(a: u128, b: u128) -> Result<u128, ErrorCode> {
    if a + b > u128::MAX {
        Err(ErrorCode::Overflow)
    } else {
        Ok((a + b) as u128)
    }
}

pub fn add_u128(a: u128, b: u128) -> (r: Result<u128, ErrorCode>)
    ensures
        r == add_u128_spec(a, b),
{
    match a.checked_add(b) {
        Some(v) => Ok(v),
        None => Err(ErrorCode::Overflow),
    }
}

/// Checked 128-bit multiplication.
pub open spec fn mul_u128_spec(a: u128, b: u128) -> Result<u128, ErrorCode> {
    if a * b > u128::MAX {
        Err(ErrorCode::Overflow)
    } else {
        Ok((a * b) as u128)
    }
}

pub fn mul_u128(a: u128, b: u128) -> (r: Result<u128, ErrorCode>)
    ensures
        r == mul_u128_spec(a, b),
{
    match a.checked_mul(b) {
        Some(v) => Ok(v),
        None => Err(ErrorCode::Overflow),
    }
}

/// Narrowing conversion to 64 bits; a value that does not fit is `Overflow`.
pub open spec fn u64_of_u128_spec(a: u128) -> Result<u64, ErrorCode> {
    if a > u64::MAX {
        Err(ErrorCode::Overflow)
    } else {
        Ok(a as u64)
    }
}

pub fn u64_of_u128(a: u128) -> (r: Result<u64, ErrorCode>)
    ensures
        r == u64_of_u128_spec(a),
{
    if a > u64::MAX as u128 {
        Err(ErrorCode::Overflow)
    } else {
        Ok(a as u64)
    }
}

/// A product is bounded by the product of the factors' bounds.
pub proof fn lemma_mul_le(a: int, b: int, bound_a: int, bound_b: int)
    by (nonlinear_arith)
    requires
        0 <= a <= bound_a,
        0 <= b <= bound_b,
    ensures
        a * b <= bound_a * bound_b,
{
}

/// Widening product of two 64-bit values; 128 bits always hold it.
pub fn mul_wide(a: u64, b: u64) -> (r: u128)
    ensures
        r == a * b,
{
    proof {
        lemma_mul_le(a as int, b as int, u64::MAX as int, u64::MAX as int);
    }
    (a as u128) * (b as u128)
}

/// Seconds elapsed between the watermark `last` and the clock reading `now`,
/// clamped to zero when the clock reads earlier than the watermark.
pub open spec fn elapsed_spec(last: i64, now: i64) -> int {
    if now <= last {
        0
    } else {
        now - last
    }
}

pub fn elapsed(last: i64, now: i64) -> (r: u64)
    ensures
        r == elapsed_spec(last, now),
{
    if now <= last {
        0
    } else {
        ((now as i128) - (last as i128)) as u64
    }
}

} // verus!
