use vstd::prelude::*;

use num::integer::Integer;
use num::integer::Roots;

verus! {

/// Floored division on the integers: the quotient is rounded towards
/// negative infinity, whatever the signs of the operands.
pub open spec fn floor_div(n: int, d: int) -> int {
    if d > 0 {
        n / d
    } else {
        (-n) / (-d)
    }
}

/// The remainder that goes with `floor_div`: it has the sign of the divisor.
pub open spec fn floor_mod(n: int, d: int) -> int {
    n - d * floor_div(n, d)
}

/// Whether an integer is representable as an `i64`.
pub open spec fn fits_i64(x: int) -> bool {
    i64::MIN <= x <= i64::MAX
}

/// The integer square root: the largest `r` with `r * r <= n`.
pub open spec fn is_isqrt(n: int, r: int) -> bool {
    0 <= r && r * r <= n < (r + 1) * (r + 1)
}

/// Relies on `num::integer::Roots::sqrt` for `u128`, documented as the
/// truncated square root, the `r` with `r² ≤ x < (r+1)²`.
#[verifier::external_body]
fn sqrt_u128(n: u128) -> (r: u128)
    ensures
        is_isqrt(n as int, r as int),
{
    Roots::sqrt(&n)
}

/// Relies on `num::integer::Integer::div_floor` for `i64`: floored division.
/// It panics, through `/`, on a zero divisor and on `i64::MIN / -1`.
#[verifier::external_body]
pub(crate) fn div_floor_i64(n: i64, d: i64) -> (r: i64)
    requires
        d != 0,
        !(n == i64::MIN && d == -1),
    ensures
        r as int == floor_div(n as int, d as int),
{
    Integer::div_floor(&n, &d)
}

/// Relies on `num::integer::Integer::mod_floor` for `i64`: the floored
/// remainder, with the sign of the divisor. It panics, through `%`, on a zero
/// divisor and on `i64::MIN % -1`.
#[verifier::external_body]
pub(crate) fn mod_floor_i64(n: i64, d: i64) -> (r: i64)
    requires
        d != 0,
        !(n == i64::MIN && d == -1),
    ensures
        r as int == floor_mod(n as int, d as int),
{
    Integer::mod_floor(&n, &d)
}

/// The exact product of two `i64` values.
pub fn wide_mul(x: i64, y: i64) -> (r: i128)
    ensures
        r as int == x as int * y as int,
{
    let xi: i128 = x as i128;
    let yi: i128 = y as i128;
    assert(-0x4000_0000_0000_0000_0000_0000_0000_0000 <= xi * yi
        <= 0x4000_0000_0000_0000_0000_0000_0000_0000) by (nonlinear_arith)
        requires
            -0x8000_0000_0000_0000 <= xi <= 0x7fff_ffff_ffff_ffff,
            -0x8000_0000_0000_0000 <= yi <= 0x7fff_ffff_ffff_ffff,
    ;
    xi * yi
}

/// The integer square root of `x² + y²`: the Euclidean length of `(x, y)`,
/// rounded down.
pub fn hypot_floor(x: i64, y: i64) -> (r: u64)
    ensures
        is_isqrt(x as int * x as int + y as int * y as int, r as int),
{
    let xx: i128 = wide_mul(x, x);
    let yy: i128 = wide_mul(y, y);
    assert(0 <= xx <= 0x4000_0000_0000_0000_0000_0000_0000_0000) by (nonlinear_arith)
        requires
            xx == x * x,
            -0x8000_0000_0000_0000 <= x <= 0x7fff_ffff_ffff_ffff,
    ;
    assert(0 <= yy <= 0x4000_0000_0000_0000_0000_0000_0000_0000) by (nonlinear_arith)
        requires
            yy == y * y,
            -0x8000_0000_0000_0000 <= y <= 0x7fff_ffff_ffff_ffff,
    ;
    let n: u128 = xx as u128 + yy as u128;
    let s: u128 = sqrt_u128(n);
    assert(s < 0x1_0000_0000_0000_0000) by (nonlinear_arith)
        requires
            s * s <= n,
            n <= 0x8000_0000_0000_0000_0000_0000_0000_0000,
    ;
    s as u64
}

} // verus!
