use vstd::prelude::*;

verus! {

/// Whether a mathematical integer is a value of `i64`.
pub open spec fn fits_i64(x: int) -> bool {
    i64::MIN <= x <= i64::MAX
}

/// Integer division that rounds toward zero, as Rust's `/` on signed
/// integers does (the spec `/` rounds toward negative infinity instead).
pub open spec fn div_toward_zero(x: int, d: int) -> int
    recommends
        d > 0,
{
    if x >= 0 {
        x / d
    } else {
        -((-x) / d)
    }
}

/// `x / d` with Rust's rounding toward zero, for a positive divisor.
pub fn div_trunc(x: i64, d: i64) -> (q: i64)
    requires
        d > 0,
    ensures
        q == div_toward_zero(x as int, d as int),
{
    if x >= 0 {
        x / d
    } else {
        let y: i128 = -(x as i128);
        let z: i128 = y / (d as i128);
        assert(0 <= z <= y) by (nonlinear_arith)
            requires
                y > 0,
                d > 0,
                z == y / (d as i128),
        ;
        (-z) as i64
    }
}


/// Half of an even product `n * q`: exactly, where the product fits in
/// `i128`, or else whether it lies above or below that range.
#[derive(Debug, Clone, Copy, PartialEq, Eq, Structural)]
pub enum HalfProduct {
    /// The half, exactly.
    Exact(i128),
    /// The product is greater than `i128::MAX`.
    Above,
    /// The product is less than `i128::MIN`.
    Below,
}

/// `h` describes half of the even product `x`.
pub open spec fn describes_half(h: HalfProduct, x: int) -> bool {
    match h {
        HalfProduct::Exact(v) => 2 * v == x && i128::MIN <= x <= i128::MAX,
        HalfProduct::Above => x > i128::MAX,
        HalfProduct::Below => x < i128::MIN,
    }
}

/// Half of the even product `n * q`.
pub fn half_product(n: i64, q: i128) -> (h: HalfProduct)
    requires
        (n * q) % 2 == 0,
    ensures
        describes_half(h, n * q),
{
    let n_wide = n as i128;
    match n_wide.checked_mul(q) {
        None => {
            if (n > 0) == (q > 0) {
                assert(n * q >= 0) by (nonlinear_arith)
                    requires
                        (n > 0) == (q > 0),
                ;
                HalfProduct::Above
            } else {
                assert(n * q <= 0) by (nonlinear_arith)
                    requires
                        (n > 0) != (q > 0),
                ;
                HalfProduct::Below
            }
        },
        Some(x) => {
            if x >= 0 {
                HalfProduct::Exact(x / 2)
            } else {
                let z = -(x + 2);
                let half = z / 2;
                assert(2 * half == z);
                HalfProduct::Exact(-half - 1)
            }
        },
    }
}

} // verus!
