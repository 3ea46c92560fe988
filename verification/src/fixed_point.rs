use vstd::prelude::*;
use soroban_fixed_point_math::FixedPoint;

verus! {

/// Relies on soroban_fixed_point_math's `fixed_mul_floor` for `i128`: it
/// computes floor(x * y / z) and returns `None` only when the intermediate
/// product overflows `i128` or the denominator is zero, neither of which the
/// admitted inputs allow.
#[verifier::external_body]
pub(crate) fn fixed_mul_floor(x: i128, y: i128, z: i128) -> (r: i128)
    requires
        0 <= x,
        0 <= y,
        0 < z,
        x * y <= i128::MAX,
    ensures
        r == (x * y) / (z as int),
{
    x.fixed_mul_floor(y, z).unwrap()
}

/// Relies on soroban_fixed_point_math's `fixed_div_floor` for `i128`: it
/// computes floor(x * z / y) and returns `None` only when the intermediate
/// product overflows `i128` or the divisor is zero, neither of which the
/// admitted inputs allow.
#[verifier::external_body]
pub(crate) fn fixed_div_floor(x: i128, y: i128, z: i128) -> (r: i128)
    requires
        0 <= x,
        0 < y,
        0 < z,
        x * z <= i128::MAX,
    ensures
        r == (x * z) / (y as int),
{
    x.fixed_div_floor(y, z).unwrap()
}

/// Relies on cast's `i128` function for `u64`: a lossless widening
/// conversion.
#[verifier::external_body]
pub(crate) fn i128_of_u64(x: u64) -> (r: i128)
    ensures
        r == x as int,
{
    cast::i128(x)
}

/// Relies on cast's `u64` function for `i128`: it returns `Ok` exactly when
/// the value fits in `u64`, which the admitted inputs guarantee.
#[verifier::external_body]
pub(crate) fn u64_of_i128(x: i128) -> (r: u64)
    requires
        0 <= x <= u64::MAX,
    ensures
        r == x as int,
{
    cast::u64(x).unwrap()
}

} // verus!
