//! Checked fixed-point arithmetic helpers.
//!
//! All ledger amounts are unsigned integers in the token's or currency's
//! smallest unit. Every arithmetic step of the engine goes through these
//! helpers: overflow, underflow and zero divisors surface as errors and are
//! never wrapped or truncated silently.

use vstd::prelude::*;

use crate::error::CarsaError;

verus! {

/// Checked 64-bit addition; overflow is an arithmetic error.
pub fn checked_add_u64(a: u64, b: u64) -> (r: Result<u64, CarsaError>)
    ensures
        a + b <= u64::MAX ==> r == Ok::<u64, CarsaError>((a + b) as u64),
        a + b > u64::MAX ==> r == Err::<u64, CarsaError>(CarsaError::ArithmeticOverflow),
{
    match a.checked_add(b) {
        Some(v) => Ok(v),
        None => Err(CarsaError::ArithmeticOverflow),
    }
}

/// Checked 64-bit subtraction; going below zero is an arithmetic error.
pub fn checked_sub_u64(a: u64, b: u64) -> (r: Result<u64, CarsaError>)
    ensures
        b <= a ==> r == Ok::<u64, CarsaError>((a - b) as u64),
        b > a ==> r == Err::<u64, CarsaError>(CarsaError::ArithmeticOverflow),
{
    match a.checked_sub(b) {
        Some(v) => Ok(v),
        None => Err(CarsaError::ArithmeticOverflow),
    }
}

/// Checked 64-bit multiplication; overflow is an arithmetic error.
pub fn checked_mul_u64(a: u64, b: u64) -> (r: Result<u64, CarsaError>)
    ensures
        a * b <= u64::MAX ==> r == Ok::<u64, CarsaError>((a * b) as u64),
        a * b > u64::MAX ==> r == Err::<u64, CarsaError>(CarsaError::ArithmeticOverflow),
{
    match a.checked_mul(b) {
        Some(v) => Ok(v),
        None => Err(CarsaError::ArithmeticOverflow),
    }
}

/// Checked 64-bit division, rounding toward zero; a zero divisor is an error.
pub fn checked_div_u64(a: u64, b: u64) -> (r: Result<u64, CarsaError>)
    ensures
        b != 0 ==> r == Ok::<u64, CarsaError>((a as int / b as int) as u64),
        b == 0 ==> r == Err::<u64, CarsaError>(CarsaError::DivisionByZero),
{
    match a.checked_div(b) {
        Some(v) => Ok(v),
        None => Err(CarsaError::DivisionByZero),
    }
}

/// Checked 128-bit addition; overflow is an arithmetic error.
pub fn checked_add_u128(a: u128, b: u128) -> (r: Result<u128, CarsaError>)
    ensures
        a + b <= u128::MAX ==> r == Ok::<u128, CarsaError>((a + b) as u128),
        a + b > u128::MAX ==> r == Err::<u128, CarsaError>(CarsaError::ArithmeticOverflow),
{
    match a.checked_add(b) {
        Some(v) => Ok(v),
        None => Err(CarsaError::ArithmeticOverflow),
    }
}

/// Checked 128-bit subtraction; going below zero is an arithmetic error.
pub fn checked_sub_u128(a: u128, b: u128) -> (r: Result<u128, CarsaError>)
    ensures
        b <= a ==> r == Ok::<u128, CarsaError>((a - b) as u128),
        b > a ==> r == Err::<u128, CarsaError>(CarsaError::ArithmeticOverflow),
{
    match a.checked_sub(b) {
        Some(v) => Ok(v),
        None => Err(CarsaError::ArithmeticOverflow),
    }
}

/// Checked 128-bit multiplication; overflow is an arithmetic error.
pub fn checked_mul_u128(a: u128, b: u128) -> (r: Result<u128, CarsaError>)
    ensures
        a * b <= u128::MAX ==> r == Ok::<u128, CarsaError>((a * b) as u128),
        a * b > u128::MAX ==> r == Err::<u128, CarsaError>(CarsaError::ArithmeticOverflow),
{
    match a.checked_mul(b) {
        Some(v) => Ok(v),
        None => Err(CarsaError::ArithmeticOverflow),
    }
}

/// Checked 128-bit division, rounding toward zero; a zero divisor is an error.
pub fn checked_div_u128(a: u128, b: u128) -> (r: Result<u128, CarsaError>)
    ensures
        b != 0 ==> r == Ok::<u128, CarsaError>((a as int / b as int) as u128),
        b == 0 ==> r == Err::<u128, CarsaError>(CarsaError::DivisionByZero),
{
    match a.checked_div(b) {
        Some(v) => Ok(v),
        None => Err(CarsaError::DivisionByZero),
    }
}

/// Checked narrowing of a 128-bit intermediate back to the ledger's 64-bit
/// width; a value that does not fit is an arithmetic error.
pub fn narrow_u128_to_u64(v: u128) -> (r: Result<u64, CarsaError>)
    ensures
        v <= u64::MAX ==> r == Ok::<u64, CarsaError>(v as u64),
        v > u64::MAX ==> r == Err::<u64, CarsaError>(CarsaError::ArithmeticOverflow),
{
    if v <= u64::MAX as u128 {
        Ok(v as u64)
    } else {
        Err(CarsaError::ArithmeticOverflow)
    }
}

} // verus!
