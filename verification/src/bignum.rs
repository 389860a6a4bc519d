use vstd::prelude::*;
use crate::decimal::dec_digits;
use num_bigint::BigUint;

verus! {

#[verifier::external_type_specification]
#[verifier::external_body]
pub struct ExBigUint(BigUint);

/// The non-negative integer that a `BigUint` holds.
pub uninterp spec fn big_value(b: BigUint) -> nat;

/// Relies on `<BigUint as From<u32>>::from`: the big integer with exactly
/// that value.
#[verifier::external_body]
pub(crate) fn big_from_u32(n: u32) -> (r: BigUint)
    ensures
        big_value(r) == n as nat,
{
    BigUint::from(n)
}

/// Relies on `Add<&BigUint> for &BigUint`: unbounded-precision addition of
/// the two values.
#[verifier::external_body]
pub(crate) fn big_add(a: &BigUint, b: &BigUint) -> (r: BigUint)
    ensures
        big_value(r) == big_value(*a) + big_value(*b),
{
    a + b
}

/// Relies on `BigUint::to_str_radix` with radix 10: the value's decimal
/// digits, most significant first, `"0"` for zero and no leading zeros
/// otherwise.
#[verifier::external_body]
pub(crate) fn big_to_decimal(a: &BigUint) -> (r: String)
    ensures
        r@ == dec_digits(big_value(*a)),
{
    a.to_str_radix(10)
}

} // verus!
