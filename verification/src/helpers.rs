//! Checked arithmetic on balances: every operation gives the exact result or says why it has
//! none. Nothing wraps and nothing saturates.

use vstd::prelude::*;
use vstd::arithmetic::power::{pow, lemma_pow0, lemma_pow_adds, lemma_pow1, lemma_pow_increases};

verus! {

/// Why an arithmetic operation has no result.
#[derive(Clone, Copy, Debug, PartialEq, Eq, Structural)]
pub enum ArithmeticError {
    /// The result would be below zero.
    Underflow,
    /// The result would not fit in the integer type.
    Overflow,
    /// The divisor is zero.
    DivisionByZero,
}

/// The sum of two 64-bit values, if it fits.
pub open spec fn checked_sum(a: u64, b: u64) -> Result<u64, ArithmeticError> {
    if a + b <= u64::MAX {
        Ok((a + b) as u64)
    } else {
        Err(ArithmeticError::Overflow)
    }
}

/// The difference of two 64-bit values, if it is not negative.
pub open spec fn checked_difference(a: u64, b: u64) -> Result<u64, ArithmeticError> {
    if b <= a {
        Ok((a - b) as u64)
    } else {
        Err(ArithmeticError::Underflow)
    }
}

/// The product of two 64-bit values, if it fits.
pub open spec fn checked_product(a: u64, b: u64) -> Result<u64, ArithmeticError> {
    if a * b <= u64::MAX {
        Ok((a * b) as u64)
    } else {
        Err(ArithmeticError::Overflow)
    }
}

/// The quotient of two 64-bit values, rounded down, if the divisor is not zero.
pub open spec fn checked_quotient(a: u64, b: u64) -> Result<u64, ArithmeticError> {
    if b != 0 {
        Ok(a / b)
    } else {
        Err(ArithmeticError::DivisionByZero)
    }
}

/// Addition that reports an overflow.
pub trait TryAdd: Sized {
    fn try_add(&self, other: &Self) -> Result<Self, ArithmeticError>;
}

/// Multiplication that reports an overflow.
pub trait TryMul: Sized {
    fn try_mul(&self, other: &Self) -> Result<Self, ArithmeticError>;
}

/// Division that reports a zero divisor.
pub trait TryDiv: Sized {
    fn try_div(&self, other: &Self) -> Result<Self, ArithmeticError>;
}

/// Subtraction that reports an underflow.
pub trait TrySub: Sized {
    fn try_sub(&self, other: &Self) -> Result<Self, ArithmeticError>;
}

impl TryAdd for u64 {
    fn try_add(&self, other: &u64) -> (r: Result<u64, ArithmeticError>)
        ensures
            r == checked_sum(*self, *other),
    {
        match self.checked_add(*other) {
            Some(sum) => Ok(sum),
            None => Err(ArithmeticError::Overflow),
        }
    }
}

impl TryMul for u64 {
    fn try_mul(&self, other: &u64) -> (r: Result<u64, ArithmeticError>)
        ensures
            r == checked_product(*self, *other),
    {
        match self.checked_mul(*other) {
            Some(product) => Ok(product),
            None => Err(ArithmeticError::Overflow),
        }
    }
}

impl TryDiv for u64 {
    fn try_div(&self, other: &u64) -> (r: Result<u64, ArithmeticError>)
        ensures
            r == checked_quotient(*self, *other),
    {
        match self.checked_div(*other) {
            Some(quotient) => Ok(quotient),
            None => Err(ArithmeticError::DivisionByZero),
        }
    }
}

impl TrySub for u64 {
    fn try_sub(&self, other: &u64) -> (r: Result<u64, ArithmeticError>)
        ensures
            r == checked_difference(*self, *other),
    {
        match self.checked_sub(*other) {
            Some(difference) => Ok(difference),
            None => Err(ArithmeticError::Underflow),
        }
    }
}

/// `amount` in units that are `10^decimals` times smaller, if that fits.
pub open spec fn scaled_by_decimals(amount: u64, decimals: u8) -> Result<u64, ArithmeticError> {
    if amount * pow(10, decimals as nat) <= u64::MAX {
        Ok((amount * pow(10, decimals as nat)) as u64)
    } else {
        Err(ArithmeticError::Overflow)
    }
}

/// Multiplying by a further power of ten never makes a value smaller.
proof fn lemma_scaling_grows(amount: u64, fewer: nat, more: nat)
    requires
        fewer <= more,
    ensures
        amount * pow(10, fewer) <= amount * pow(10, more),
        0 < pow(10, fewer),
{
    lemma_pow_increases(10, fewer, more);
    vstd::arithmetic::power::lemma_pow_positive(10, fewer);
    vstd::arithmetic::mul::lemma_mul_inequality(pow(10, fewer), pow(10, more), amount as int);
    vstd::arithmetic::mul::lemma_mul_is_commutative(amount as int, pow(10, fewer));
    vstd::arithmetic::mul::lemma_mul_is_commutative(amount as int, pow(10, more));
}

/// One more factor of ten.
proof fn lemma_scaling_step(amount: u64, digits: nat)
    ensures
        amount * pow(10, digits + 1) == (amount * pow(10, digits)) * 10,
{
    lemma_pow_adds(10, digits, 1);
    lemma_pow1(10);
    vstd::arithmetic::mul::lemma_mul_is_associative(amount as int, pow(10, digits), 10);
}

/// Converts `amount` whole units into the smallest units of an asset with `decimals` decimal
/// places, checking every multiplication.
pub fn scale_by_decimals(amount: u64, decimals: u8) -> (r: Result<u64, ArithmeticError>)
    ensures
        r == scaled_by_decimals(amount, decimals),
{
    let mut scaled: u64 = amount;
    let mut digits: u8 = 0;
    proof {
        lemma_pow0(10);
    }
    while digits < decimals
        invariant
            digits <= decimals,
            scaled == amount * pow(10, digits as nat),
        decreases decimals - digits,
    {
        proof {
            lemma_scaling_step(amount, digits as nat);
            lemma_scaling_grows(amount, (digits + 1) as nat, decimals as nat);
        }
        match scaled.try_mul(&10) {
            Ok(next) => {
                scaled = next;
            },
            Err(e) => {
                return Err(e);
            },
        }
        digits = digits + 1;
    }
    Ok(scaled)
}

} // verus!
