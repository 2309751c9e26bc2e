//! Distances between points on a grid.
use vstd::prelude::*;

verus! {

/// Relies on `num_integer::Roots::sqrt` for `u128`: the truncated square root,
/// `r * r <= n < (r + 1) * (r + 1)`.
#[verifier::external_body]
fn integer_sqrt(n: u128) -> (r: u128)
    ensures
        r * r <= n < (r + 1) * (r + 1),
{
    num_integer::Roots::sqrt(&n)
}

/// The absolute difference between 2 integers.
pub open spec fn spec_abs_diff(a: int, b: int) -> nat {
    if a < b {
        (b - a) as nat
    } else {
        (a - b) as nat
    }
}

/// Whether `r` is the integer Euclidean distance between `(x0, y0)` and `(x1, y1)`:
/// the square root of `dx * dx + dy * dy`, rounded down.
pub open spec fn is_distance(r: int, x0: int, y0: int, x1: int, y1: int) -> bool {
    let dx = spec_abs_diff(x0, x1);
    let dy = spec_abs_diff(y0, y1);
    r >= 0 && r * r <= dx * dx + dy * dy < (r + 1) * (r + 1)
}

/// Returns the absolute difference between 2 unsigned integers.
pub fn abs_diff(a: u32, b: u32) -> (r: u32)
    ensures
        r == spec_abs_diff(a as int, b as int),
{
    if a < b {
        b - a
    } else {
        a - b
    }
}

/// Returns the distance between 2 points in 2d space, rounded down.
///
/// The squares are computed in 128 bits, so no pair of points overflows.
pub fn calculate_distance(x0: u32, y0: u32, x1: u32, y1: u32) -> (r: u64)
    ensures
        is_distance(r as int, x0 as int, y0 as int, x1 as int, y1 as int),
{
    let diff_x = abs_diff(x0, x1) as u128;
    let diff_y = abs_diff(y0, y1) as u128;
    proof {
        assert(diff_x * diff_x <= u32::MAX * u32::MAX) by (nonlinear_arith)
            requires
                diff_x <= u32::MAX,
        ;
        assert(diff_y * diff_y <= u32::MAX * u32::MAX) by (nonlinear_arith)
            requires
                diff_y <= u32::MAX,
        ;
    }
    let square = diff_x * diff_x + diff_y * diff_y;
    let root = integer_sqrt(square);
    proof {
        assert(root < 0x2_0000_0000) by (nonlinear_arith)
            requires
                root * root <= square,
                square <= 2 * u32::MAX * u32::MAX,
        ;
    }
    root as u64
}

} // verus!
