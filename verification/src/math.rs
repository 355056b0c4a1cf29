//! Checked arithmetic on 64-bit quantities. Every amount that the sale
//! computes goes through these functions.

use anchor_lang::prelude::ProgramError;
use anchor_safe_math::SafeMath;
use vstd::arithmetic::power::pow;
use vstd::prelude::*;

use crate::error::WhitelistError;

verus! {

/// The error type of `anchor_lang`, `ProgramError`, in which the checked
/// operations of `anchor_safe_math` report an overflow. Nothing is read from a
/// value of it: any error of such an operation means that the result does not
/// fit.
#[verifier::external_type_specification]
#[verifier::external_body]
pub struct ExProgramError(anchor_lang::prelude::ProgramError);

/// Calls `SafeMath::safe_add` of `anchor_safe_math` on `u64`, which returns
/// the result of `u64::checked_add` and an error in place of `None`: the sum
/// where it fits in 64 bits, an error where it does not.
#[verifier::external_body]
fn safe_add(a: u64, b: u64) -> (r: Result<u64, ProgramError>)
    ensures
        r is Ok <==> a + b <= u64::MAX,
        r is Ok ==> r->Ok_0 == a + b,
{
    a.safe_add(b)
}

/// Calls `SafeMath::safe_mul` of `anchor_safe_math` on `u64`, which returns
/// the result of `u64::checked_mul` and an error in place of `None`: the
/// product where it fits in 64 bits, an error where it does not.
#[verifier::external_body]
fn safe_mul(a: u64, b: u64) -> (r: Result<u64, ProgramError>)
    ensures
        r is Ok <==> a * b <= u64::MAX,
        r is Ok ==> r->Ok_0 == a * b,
{
    a.safe_mul(b)
}

/// Calls `SafeMath::safe_pow` of `anchor_safe_math` on `u64`, which returns
/// the result of `u64::checked_pow` and an error in place of `None`: the
/// power where it fits in 64 bits, an error where it does not.
#[verifier::external_body]
fn safe_pow(base: u64, exp: u32) -> (r: Result<u64, ProgramError>)
    ensures
        r is Ok <==> pow(base as int, exp as nat) <= u64::MAX,
        r is Ok ==> r->Ok_0 == pow(base as int, exp as nat),
{
    base.safe_pow(exp)
}

/// What a checked operation returns for the exact value `v`: the value where
/// it fits in 64 bits, `ArithmeticOverflow` where it does not.
pub open spec fn checked(v: int) -> Result<u64, WhitelistError> {
    if 0 <= v <= u64::MAX {
        Ok(v as u64)
    } else {
        Err(WhitelistError::ArithmeticOverflow)
    }
}

/// Ten to the power `decimals`: the number of base units in one whole token.
pub open spec fn unit(decimals: u8) -> int {
    pow(10, decimals as nat)
}

/// The sum of `a` and `b`, or `ArithmeticOverflow`.
pub fn checked_add(a: u64, b: u64) -> (r: Result<u64, WhitelistError>)
    ensures
        r == checked(a + b),
{
    match safe_add(a, b) {
        Ok(v) => Ok(v),
        Err(_) => Err(WhitelistError::ArithmeticOverflow),
    }
}

/// The product of `a` and `b`, or `ArithmeticOverflow`.
pub fn checked_mul(a: u64, b: u64) -> (r: Result<u64, WhitelistError>)
    ensures
        r == checked(a * b),
{
    match safe_mul(a, b) {
        Ok(v) => Ok(v),
        Err(_) => Err(WhitelistError::ArithmeticOverflow),
    }
}

/// `base` to the power `exp`, or `ArithmeticOverflow`.
pub fn checked_pow(base: u64, exp: u32) -> (r: Result<u64, WhitelistError>)
    ensures
        r == checked(pow(base as int, exp as nat)),
{
    match safe_pow(base, exp) {
        Ok(v) => Ok(v),
        Err(_) => Err(WhitelistError::ArithmeticOverflow),
    }
}

/// A count of whole tokens in base units of a token with `decimals` places:
/// `tokens * 10^decimals`, or `ArithmeticOverflow` where the power or the
/// product does not fit.
pub open spec fn scaled(tokens: u64, decimals: u8) -> Result<u64, WhitelistError> {
    if unit(decimals) > u64::MAX {
        Err(WhitelistError::ArithmeticOverflow)
    } else {
        checked(tokens * unit(decimals))
    }
}

/// Converts a count of whole tokens to base units.
pub fn scale_by_decimals(tokens: u64, decimals: u8) -> (r: Result<u64, WhitelistError>)
    ensures
        r == scaled(tokens, decimals),
{
    proof {
        vstd::arithmetic::power::lemma_pow_positive(10, decimals as nat);
    }
    let exp: u32 = decimals.into();
    match checked_pow(10, exp) {
        Ok(one) => checked_mul(tokens, one),
        Err(e) => Err(e),
    }
}

} // verus!
