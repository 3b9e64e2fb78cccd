//! Trusted interface to the arbitrary-precision integers of `num_bigint`.
//!
//! A `BigInt` is opaque to the verifier; `big_val` names the mathematical
//! integer it holds, and every operation below is specified over that name.
use vstd::prelude::*;

verus! {

use num_bigint::BigInt;

#[verifier::external_type_specification]
#[verifier::external_body]
pub struct ExBigInt(BigInt);

/// The mathematical integer a `BigInt` holds.
pub uninterp spec fn big_val(b: BigInt) -> int;

/// Relies on `<BigInt as From<u64>>::from`: builds the integer with that value.
#[verifier::external_body]
pub(crate) fn big_from_u64(x: u64) -> (r: BigInt)
    ensures
        big_val(r) == x as int,
{
    BigInt::from(x)
}

/// Relies on `<BigInt as From<usize>>::from`: builds the integer with that value.
#[verifier::external_body]
pub(crate) fn big_from_usize(x: usize) -> (r: BigInt)
    ensures
        big_val(r) == x as int,
{
    BigInt::from(x)
}

/// Relies on `<BigInt as From<i64>>::from`: builds the integer with that value.
#[verifier::external_body]
pub(crate) fn big_from_i64(x: i64) -> (r: BigInt)
    ensures
        big_val(r) == x as int,
{
    BigInt::from(x)
}

/// Relies on `<BigInt as Clone>::clone`: the copy holds the same integer.
pub assume_specification[ <num_bigint::BigInt as Clone>::clone ](a: &num_bigint::BigInt) -> (r: num_bigint::BigInt)
    ensures
        big_val(r) == big_val(*a),
;

/// Relies on `<BigInt as PartialEq>::eq`: two `BigInt`s are equal exactly
/// when they hold the same integer.
pub assume_specification[ <num_bigint::BigInt as PartialEq>::eq ](a: &num_bigint::BigInt, b: &num_bigint::BigInt) -> (r: bool)
    ensures
        r == (big_val(*a) == big_val(*b)),
;

/// Relies on `num_traits::Zero::is_zero` for `BigInt`.
#[verifier::external_body]
pub(crate) fn big_is_zero(a: &BigInt) -> (r: bool)
    ensures
        r == (big_val(*a) == 0),
{
    num_traits::Zero::is_zero(a)
}

/// Relies on `<&BigInt as Add>::add`: exact integer addition.
#[verifier::external_body]
pub(crate) fn big_add(a: &BigInt, b: &BigInt) -> (r: BigInt)
    ensures
        big_val(r) == big_val(*a) + big_val(*b),
{
    a + b
}

/// Relies on `<&BigInt as Sub>::sub`: exact integer subtraction.
#[verifier::external_body]
pub(crate) fn big_sub(a: &BigInt, b: &BigInt) -> (r: BigInt)
    ensures
        big_val(r) == big_val(*a) - big_val(*b),
{
    a - b
}

/// Relies on `<&BigInt as Mul>::mul`: exact integer multiplication.
#[verifier::external_body]
pub(crate) fn big_mul(a: &BigInt, b: &BigInt) -> (r: BigInt)
    ensures
        big_val(r) == big_val(*a) * big_val(*b),
{
    a * b
}

/// Relies on `<&BigInt as Div>::div`, truncated division; on nonnegative
/// dividends with positive divisors it agrees with Euclidean division.
#[verifier::external_body]
pub(crate) fn big_div(a: &BigInt, b: &BigInt) -> (r: BigInt)
    requires
        big_val(*a) >= 0,
        big_val(*b) > 0,
    ensures
        big_val(r) == big_val(*a) / big_val(*b),
{
    a / b
}

/// Relies on `num_integer::Integer::mod_floor` for `BigInt`: with a positive
/// modulus the result is the canonical residue in `[0, m)`.
#[verifier::external_body]
pub(crate) fn big_mod_floor(a: &BigInt, m: &BigInt) -> (r: BigInt)
    requires
        big_val(*m) > 0,
    ensures
        big_val(r) == big_val(*a) % big_val(*m),
{
    num_integer::Integer::mod_floor(a, m)
}

/// Relies on `num_integer::Integer::is_odd` for `BigInt`: tests the low bit
/// of the magnitude, which for any integer matches its residue modulo 2.
#[verifier::external_body]
pub(crate) fn big_is_odd(a: &BigInt) -> (r: bool)
    ensures
        r == (big_val(*a) % 2 == 1),
{
    num_integer::Integer::is_odd(a)
}

/// Relies on `num_traits::ToPrimitive::to_u64` for `BigInt`: `Some` exactly
/// when the integer fits in a `u64`.
#[verifier::external_body]
pub(crate) fn big_to_u64(a: &BigInt) -> (r: Option<u64>)
    ensures
        match r {
            Some(x) => big_val(*a) == x as int,
            None => !(0 <= big_val(*a) <= u64::MAX as int),
        },
{
    num_traits::ToPrimitive::to_u64(a)
}

/// Relies on `num_traits::ToPrimitive::to_usize` for `BigInt`: `Some` exactly
/// when the integer fits in a `usize`.
#[verifier::external_body]
pub(crate) fn big_to_usize(a: &BigInt) -> (r: Option<usize>)
    ensures
        match r {
            Some(x) => big_val(*a) == x as int,
            None => !(0 <= big_val(*a) <= usize::MAX as int),
        },
{
    num_traits::ToPrimitive::to_usize(a)
}

} // verus!
