//! Safe math operations that fail instead of wrapping.
use vstd::prelude::*;
use crate::error::Error;
use crate::u256::{two_pow_256, U256};

verus! {

/// Add two U256 values; `Overflow` when the sum exceeds 2^256 - 1.
pub fn add(a: &U256, b: &U256) -> (r: Result<U256, Error>)
    ensures
        r is Ok <==> a@ + b@ < two_pow_256(),
        r matches Ok(s) ==> s@ == a@ + b@,
        r matches Err(e) ==> e == Error::Overflow,
{
    match a.checked_add(b) {
        Some(s) => Ok(s),
        None => Err(Error::Overflow),
    }
}

/// Subtract two U256 values; `Underflow` when `b` exceeds `a`.
pub fn sub(a: &U256, b: &U256) -> (r: Result<U256, Error>)
    ensures
        r is Ok <==> b@ <= a@,
        r matches Ok(s) ==> s@ == a@ - b@,
        r matches Err(e) ==> e == Error::Underflow,
{
    match a.checked_sub(b) {
        Some(s) => Ok(s),
        None => Err(Error::Underflow),
    }
}

/// Multiply two U256 values; `Overflow` when the product exceeds 2^256 - 1.
pub fn mul(a: &U256, b: &U256) -> (r: Result<U256, Error>)
    ensures
        r is Ok <==> a@ * b@ < two_pow_256(),
        r matches Ok(s) ==> s@ == a@ * b@,
        r matches Err(e) ==> e == Error::Overflow,
{
    match a.checked_mul(b) {
        Some(s) => Ok(s),
        None => Err(Error::Overflow),
    }
}

/// Divide two U256 values (rounding down); `DivisionByZero` when `b` is 0.
pub fn div(a: &U256, b: &U256) -> (r: Result<U256, Error>)
    ensures
        r is Ok <==> b@ != 0,
        r matches Ok(q) ==> q@ == a@ / b@,
        r matches Err(e) ==> e == Error::DivisionByZero,
{
    if b.is_zero() {
        return Err(Error::DivisionByZero);
    }
    match a.checked_div(b) {
        Some(q) => Ok(q),
        None => Err(Error::Overflow),
    }
}

} // verus!
