//! Plain vector algebra over fixed-point scalars.
//!
//! The vectors are geometric inputs to the drawing API; none of them is
//! retained by the batch. All components are fixed-point values as laid out
//! in [`crate::fx`], and every operation states its result exactly,
//! including the truncating divisions that fixed-point products and
//! quotients take.

use vstd::prelude::*;
use crate::fx::{SCALE, MAX_COORD, in_range, trunc_div, trunc_div_i64, isqrt_u64, sqrt_floor,
    is_sqrt_floor, lemma_sqrt_floor_unique};

verus! {

/// A vector component kept loose enough for sums and differences of two
/// in-range values.
pub open spec fn in_range_wide(c: i64) -> bool {
    -2 * MAX_COORD <= c <= 2 * MAX_COORD
}

/// A 2D vector of fixed-point components.
#[derive(Clone, Copy, Debug, PartialEq, Eq, Structural)]
pub struct Vector2(pub i64, pub i64);

/// The squared Euclidean length of `(x, y)`, in squared fixed-point units.
pub open spec fn norm2(x: int, y: int) -> int {
    x * x + y * y
}

impl Vector2 {
    /// Builds a vector from its two components.
    pub fn new(x: i64, y: i64) -> (v: Vector2)
        ensures
            v == Vector2(x, y),
    {
        Vector2(x, y)
    }

    /// The zero vector.
    pub fn zero() -> (v: Vector2)
        ensures
            v == Vector2(0i64, 0i64),
    {
        Vector2(0, 0)
    }

    /// The Euclidean length, rounded down to a whole fixed-point unit.
    pub fn length(&self) -> (r: i64)
        requires
            in_range_wide(self.0),
            in_range_wide(self.1),
        ensures
            r == sqrt_floor(norm2(self.0 as int, self.1 as int)),
            r >= 0,
            r * r <= norm2(self.0 as int, self.1 as int) < (r + 1) * (r + 1),
    {
        proof {
            assert(0 <= self.0 * self.0 <= 0x4000_0000_0000_0000
                && 0 <= self.1 * self.1 <= 0x4000_0000_0000_0000) by (nonlinear_arith)
                requires
                    in_range_wide(self.0),
                    in_range_wide(self.1),
                    MAX_COORD == 0x4000_0000,
            ;
        }
        let xx: u64 = (self.0 * self.0) as u64;
        let yy: u64 = (self.1 * self.1) as u64;
        let r: u64 = isqrt_u64(xx + yy);
        proof {
            assert(is_sqrt_floor((xx + yy) as int, r as int));
            assert(r as int * r as int <= 0x8000_0000_0000_0000) by (nonlinear_arith)
                requires
                    is_sqrt_floor((xx + yy) as int, r as int),
                    xx + yy <= 0x8000_0000_0000_0000,
            ;
            assert(r <= 0x1_0000_0000) by (nonlinear_arith)
                requires
                    0 <= r,
                    r as int * r as int <= 0x8000_0000_0000_0000,
            ;
        }
        r as i64
    }

    /// Scales the vector to unit length (`SCALE` units); the zero vector is
    /// returned unchanged.
    pub fn normalized(self) -> (v: Vector2)
        requires
            in_range_wide(self.0),
            in_range_wide(self.1),
        ensures
            self == Vector2(0i64, 0i64) ==> v == self,
            self != Vector2(0i64, 0i64) ==> {
                let len = sqrt_floor(norm2(self.0 as int, self.1 as int));
                v == Vector2(
                    trunc_div(self.0 as int * SCALE, len) as i64,
                    trunc_div(self.1 as int * SCALE, len) as i64,
                )
            },
    {
        let len: i64 = self.length();
        if len != 0 {
            proof {
                assert(-0x2000_0000_0000 <= self.0 * SCALE <= 0x2000_0000_0000
                    && -0x2000_0000_0000 <= self.1 * SCALE <= 0x2000_0000_0000)
                    by (nonlinear_arith)
                    requires
                        in_range_wide(self.0),
                        in_range_wide(self.1),
                        MAX_COORD == 0x4000_0000,
                        SCALE == 4096,
                ;
                assert(self.0 != 0 || self.1 != 0) by (nonlinear_arith)
                    requires
                        len >= 1,
                        len * len <= norm2(self.0 as int, self.1 as int),
                ;
            }
            let nx: i64 = trunc_div_i64(self.0 * SCALE, len);
            let ny: i64 = trunc_div_i64(self.1 * SCALE, len);
            Vector2(nx, ny)
        } else {
            proof {
                assert(self.0 == 0 && self.1 == 0) by (nonlinear_arith)
                    requires
                        len == 0,
                        norm2(self.0 as int, self.1 as int) < (len + 1) * (len + 1),
                        norm2(self.0 as int, self.1 as int)
                            == self.0 as int * self.0 as int + self.1 as int * self.1 as int,
                ;
            }
            self
        }
    }

    /// The fixed-point dot product: the sum of the component products,
    /// brought back to fixed-point units by one truncating division.
    pub fn dot(self, other: Vector2) -> (r: i64)
        requires
            in_range(self.0),
            in_range(self.1),
            in_range(other.0),
            in_range(other.1),
        ensures
            r == trunc_div(
                self.0 as int * other.0 as int + self.1 as int * other.1 as int,
                SCALE as int,
            ),
    {
        proof {
            assert(-0x1000_0000_0000_0000 <= self.0 * other.0 <= 0x1000_0000_0000_0000
                && -0x1000_0000_0000_0000 <= self.1 * other.1 <= 0x1000_0000_0000_0000)
                by (nonlinear_arith)
                requires
                    in_range(self.0),
                    in_range(self.1),
                    in_range(other.0),
                    in_range(other.1),
                    MAX_COORD == 0x4000_0000,
            ;
        }
        trunc_div_i64(self.0 * other.0 + self.1 * other.1, SCALE)
    }

    /// The distance between the two points, rounded down to a whole
    /// fixed-point unit.
    pub fn distance(self, other: Vector2) -> (r: i64)
        requires
            in_range(self.0),
            in_range(self.1),
            in_range(other.0),
            in_range(other.1),
        ensures
            r == sqrt_floor(norm2(other.0 - self.0, other.1 - self.1)),
            r >= 0,
    {
        Vector2(other.0 - self.0, other.1 - self.1).length()
    }

    /// Linear interpolation: the point a fixed-point fraction `t` of the
    /// way from `self` to `other` (`0` is `self`, `SCALE` is `other`).
    pub fn lerp(self, other: Vector2, t: i64) -> (v: Vector2)
        requires
            in_range(self.0),
            in_range(self.1),
            in_range(other.0),
            in_range(other.1),
            in_range(t),
        ensures
            v == Vector2(
                (self.0 + trunc_div((other.0 - self.0) * t as int, SCALE as int)) as i64,
                (self.1 + trunc_div((other.1 - self.1) * t as int, SCALE as int)) as i64,
            ),
    {
        proof {
            lemma_lerp_bounds(self.0 as int, other.0 as int, t as int);
            lemma_lerp_bounds(self.1 as int, other.1 as int, t as int);
        }
        let dx: i64 = trunc_div_i64((other.0 - self.0) * t, SCALE);
        let dy: i64 = trunc_div_i64((other.1 - self.1) * t, SCALE);
        Vector2(self.0 + dx, self.1 + dy)
    }

    /// Component-wise sum.
    pub fn add(self, other: Vector2) -> (v: Vector2)
        requires
            in_range(self.0),
            in_range(self.1),
            in_range(other.0),
            in_range(other.1),
        ensures
            v == Vector2((self.0 + other.0) as i64, (self.1 + other.1) as i64),
    {
        Vector2(self.0 + other.0, self.1 + other.1)
    }

    /// Component-wise difference.
    pub fn sub(self, other: Vector2) -> (v: Vector2)
        requires
            in_range(self.0),
            in_range(self.1),
            in_range(other.0),
            in_range(other.1),
        ensures
            v == Vector2((self.0 - other.0) as i64, (self.1 - other.1) as i64),
    {
        Vector2(self.0 - other.0, self.1 - other.1)
    }

    /// Component-wise fixed-point product.
    pub fn mul(self, other: Vector2) -> (v: Vector2)
        requires
            in_range(self.0),
            in_range(self.1),
            in_range(other.0),
            in_range(other.1),
        ensures
            v == Vector2(
                trunc_div(self.0 as int * other.0 as int, SCALE as int) as i64,
                trunc_div(self.1 as int * other.1 as int, SCALE as int) as i64,
            ),
    {
        proof {
            lemma_fx_mul_bounds(self.0 as int, other.0 as int);
            lemma_fx_mul_bounds(self.1 as int, other.1 as int);
        }
        Vector2(
            trunc_div_i64(self.0 * other.0, SCALE),
            trunc_div_i64(self.1 * other.1, SCALE),
        )
    }

    /// Fixed-point product with a scalar.
    pub fn scale(self, k: i64) -> (v: Vector2)
        requires
            in_range(self.0),
            in_range(self.1),
            in_range(k),
        ensures
            v == Vector2(
                trunc_div(self.0 as int * k as int, SCALE as int) as i64,
                trunc_div(self.1 as int * k as int, SCALE as int) as i64,
            ),
    {
        proof {
            lemma_fx_mul_bounds(self.0 as int, k as int);
            lemma_fx_mul_bounds(self.1 as int, k as int);
        }
        Vector2(trunc_div_i64(self.0 * k, SCALE), trunc_div_i64(self.1 * k, SCALE))
    }

    /// Negation.
    pub fn neg(self) -> (v: Vector2)
        requires
            in_range(self.0),
            in_range(self.1),
        ensures
            v == Vector2((-self.0) as i64, (-self.1) as i64),
    {
        Vector2(-self.0, -self.1)
    }
}

/// A 3D vector of fixed-point components. The third component carries the
/// depth value that the drawing layer passes through unchanged.
#[derive(Clone, Copy, Debug, PartialEq, Eq, Structural)]
pub struct Vector3(pub i64, pub i64, pub i64);

/// The squared Euclidean length of `(x, y, z)`.
pub open spec fn norm3(x: int, y: int, z: int) -> int {
    x * x + y * y + z * z
}

impl Vector3 {
    /// Builds a vector from its three components.
    pub fn new(x: i64, y: i64, z: i64) -> (v: Vector3)
        ensures
            v == Vector3(x, y, z),
    {
        Vector3(x, y, z)
    }

    /// The zero vector.
    pub fn zero() -> (v: Vector3)
        ensures
            v == Vector3(0i64, 0i64, 0i64),
    {
        Vector3(0, 0, 0)
    }

    /// The Euclidean length, rounded down to a whole fixed-point unit.
    pub fn length(&self) -> (r: i64)
        requires
            in_range_wide(self.0),
            in_range_wide(self.1),
            in_range_wide(self.2),
        ensures
            r == sqrt_floor(norm3(self.0 as int, self.1 as int, self.2 as int)),
            r >= 0,
            r * r <= norm3(self.0 as int, self.1 as int, self.2 as int) < (r + 1) * (r + 1),
    {
        proof {
            assert(0 <= self.0 * self.0 <= 0x4000_0000_0000_0000
                && 0 <= self.1 * self.1 <= 0x4000_0000_0000_0000
                && 0 <= self.2 * self.2 <= 0x4000_0000_0000_0000) by (nonlinear_arith)
                requires
                    in_range_wide(self.0),
                    in_range_wide(self.1),
                    in_range_wide(self.2),
                    MAX_COORD == 0x4000_0000,
            ;
        }
        let xx: u64 = (self.0 * self.0) as u64;
        let yy: u64 = (self.1 * self.1) as u64;
        let zz: u64 = (self.2 * self.2) as u64;
        let r: u64 = isqrt_u64(xx + yy + zz);
        r as i64
    }

    /// Scales the vector to unit length (`SCALE` units); the zero vector is
    /// returned unchanged.
    pub fn normalized(self) -> (v: Vector3)
        requires
            in_range_wide(self.0),
            in_range_wide(self.1),
            in_range_wide(self.2),
        ensures
            self == Vector3(0i64, 0i64, 0i64) ==> v == self,
            self != Vector3(0i64, 0i64, 0i64) ==> {
                let len = sqrt_floor(norm3(self.0 as int, self.1 as int, self.2 as int));
                v == Vector3(
                    trunc_div(self.0 as int * SCALE, len) as i64,
                    trunc_div(self.1 as int * SCALE, len) as i64,
                    trunc_div(self.2 as int * SCALE, len) as i64,
                )
            },
    {
        let len: i64 = self.length();
        if len != 0 {
            proof {
                assert(-0x2000_0000_0000 <= self.0 * SCALE <= 0x2000_0000_0000
                    && -0x2000_0000_0000 <= self.1 * SCALE <= 0x2000_0000_0000
                    && -0x2000_0000_0000 <= self.2 * SCALE <= 0x2000_0000_0000)
                    by (nonlinear_arith)
                    requires
                        in_range_wide(self.0),
                        in_range_wide(self.1),
                        in_range_wide(self.2),
                        MAX_COORD == 0x4000_0000,
                        SCALE == 4096,
                ;
                assert(self.0 != 0 || self.1 != 0 || self.2 != 0) by (nonlinear_arith)
                    requires
                        len >= 1,
                        len * len <= norm3(self.0 as int, self.1 as int, self.2 as int),
                ;
            }
            Vector3(
                trunc_div_i64(self.0 * SCALE, len),
                trunc_div_i64(self.1 * SCALE, len),
                trunc_div_i64(self.2 * SCALE, len),
            )
        } else {
            proof {
                assert(self.0 == 0 && self.1 == 0 && self.2 == 0) by (nonlinear_arith)
                    requires
                        len == 0,
                        norm3(self.0 as int, self.1 as int, self.2 as int)
                            < (len + 1) * (len + 1),
                        norm3(self.0 as int, self.1 as int, self.2 as int)
                            == self.0 as int * self.0 as int + self.1 as int * self.1 as int
                               + self.2 as int * self.2 as int,
                ;
            }
            self
        }
    }

    /// The fixed-point dot product.
    pub fn dot(self, other: Vector3) -> (r: i64)
        requires
            in_range(self.0),
            in_range(self.1),
            in_range(self.2),
            in_range(other.0),
            in_range(other.1),
            in_range(other.2),
        ensures
            r == trunc_div(
                self.0 as int * other.0 as int + self.1 as int * other.1 as int
                    + self.2 as int * other.2 as int,
                SCALE as int,
            ),
    {
        proof {
            lemma_prod60(self.0 as int, other.0 as int);
            lemma_prod60(self.1 as int, other.1 as int);
            lemma_prod60(self.2 as int, other.2 as int);
        }
        trunc_div_i64(self.0 * other.0 + self.1 * other.1 + self.2 * other.2, SCALE)
    }

    /// The fixed-point cross product.
    pub fn cross(self, other: Vector3) -> (v: Vector3)
        requires
            in_range(self.0),
            in_range(self.1),
            in_range(self.2),
            in_range(other.0),
            in_range(other.1),
            in_range(other.2),
        ensures
            v == Vector3(
                trunc_div(
                    self.1 as int * other.2 as int - self.2 as int * other.1 as int,
                    SCALE as int,
                ) as i64,
                trunc_div(
                    self.2 as int * other.0 as int - self.0 as int * other.2 as int,
                    SCALE as int,
                ) as i64,
                trunc_div(
                    self.0 as int * other.1 as int - self.1 as int * other.0 as int,
                    SCALE as int,
                ) as i64,
            ),
    {
        proof {
            lemma_prod60(self.0 as int, other.1 as int);
            lemma_prod60(self.0 as int, other.2 as int);
            lemma_prod60(self.1 as int, other.0 as int);
            lemma_prod60(self.1 as int, other.2 as int);
            lemma_prod60(self.2 as int, other.0 as int);
            lemma_prod60(self.2 as int, other.1 as int);
            lemma_trunc_div_bound(
                self.1 as int * other.2 as int - self.2 as int * other.1 as int,
                SCALE as int,
                0x2000_0000_0000_0000,
            );
            lemma_trunc_div_bound(
                self.2 as int * other.0 as int - self.0 as int * other.2 as int,
                SCALE as int,
                0x2000_0000_0000_0000,
            );
            lemma_trunc_div_bound(
                self.0 as int * other.1 as int - self.1 as int * other.0 as int,
                SCALE as int,
                0x2000_0000_0000_0000,
            );
        }
        Vector3(
            trunc_div_i64(self.1 * other.2 - self.2 * other.1, SCALE),
            trunc_div_i64(self.2 * other.0 - self.0 * other.2, SCALE),
            trunc_div_i64(self.0 * other.1 - self.1 * other.0, SCALE),
        )
    }

    /// The distance between the two points, rounded down to a whole
    /// fixed-point unit.
    pub fn distance(self, other: Vector3) -> (r: i64)
        requires
            in_range(self.0),
            in_range(self.1),
            in_range(self.2),
            in_range(other.0),
            in_range(other.1),
            in_range(other.2),
        ensures
            r == sqrt_floor(norm3(other.0 - self.0, other.1 - self.1, other.2 - self.2)),
            r >= 0,
    {
        Vector3(other.0 - self.0, other.1 - self.1, other.2 - self.2).length()
    }

    /// Linear interpolation: the point a fixed-point fraction `t` of the
    /// way from `self` to `other`.
    pub fn lerp(self, other: Vector3, t: i64) -> (v: Vector3)
        requires
            in_range(self.0),
            in_range(self.1),
            in_range(self.2),
            in_range(other.0),
            in_range(other.1),
            in_range(other.2),
            in_range(t),
        ensures
            v == Vector3(
                (self.0 + trunc_div((other.0 - self.0) * t as int, SCALE as int)) as i64,
                (self.1 + trunc_div((other.1 - self.1) * t as int, SCALE as int)) as i64,
                (self.2 + trunc_div((other.2 - self.2) * t as int, SCALE as int)) as i64,
            ),
    {
        proof {
            lemma_lerp_bounds(self.0 as int, other.0 as int, t as int);
            lemma_lerp_bounds(self.1 as int, other.1 as int, t as int);
            lemma_lerp_bounds(self.2 as int, other.2 as int, t as int);
        }
        Vector3(
            self.0 + trunc_div_i64((other.0 - self.0) * t, SCALE),
            self.1 + trunc_div_i64((other.1 - self.1) * t, SCALE),
            self.2 + trunc_div_i64((other.2 - self.2) * t, SCALE),
        )
    }

    /// Component-wise sum.
    pub fn add(self, other: Vector3) -> (v: Vector3)
        requires
            in_range(self.0),
            in_range(self.1),
            in_range(self.2),
            in_range(other.0),
            in_range(other.1),
            in_range(other.2),
        ensures
            v == Vector3(
                (self.0 + other.0) as i64,
                (self.1 + other.1) as i64,
                (self.2 + other.2) as i64,
            ),
    {
        Vector3(self.0 + other.0, self.1 + other.1, self.2 + other.2)
    }

    /// Component-wise difference.
    pub fn sub(self, other: Vector3) -> (v: Vector3)
        requires
            in_range(self.0),
            in_range(self.1),
            in_range(self.2),
            in_range(other.0),
            in_range(other.1),
            in_range(other.2),
        ensures
            v == Vector3(
                (self.0 - other.0) as i64,
                (self.1 - other.1) as i64,
                (self.2 - other.2) as i64,
            ),
    {
        Vector3(self.0 - other.0, self.1 - other.1, self.2 - other.2)
    }

    /// Component-wise fixed-point product.
    pub fn mul(self, other: Vector3) -> (v: Vector3)
        requires
            in_range(self.0),
            in_range(self.1),
            in_range(self.2),
            in_range(other.0),
            in_range(other.1),
            in_range(other.2),
        ensures
            v == Vector3(
                trunc_div(self.0 as int * other.0 as int, SCALE as int) as i64,
                trunc_div(self.1 as int * other.1 as int, SCALE as int) as i64,
                trunc_div(self.2 as int * other.2 as int, SCALE as int) as i64,
            ),
    {
        proof {
            lemma_fx_mul_bounds(self.0 as int, other.0 as int);
            lemma_fx_mul_bounds(self.1 as int, other.1 as int);
            lemma_fx_mul_bounds(self.2 as int, other.2 as int);
        }
        Vector3(
            trunc_div_i64(self.0 * other.0, SCALE),
            trunc_div_i64(self.1 * other.1, SCALE),
            trunc_div_i64(self.2 * other.2, SCALE),
        )
    }

    /// Fixed-point product with a scalar.
    pub fn scale(self, k: i64) -> (v: Vector3)
        requires
            in_range(self.0),
            in_range(self.1),
            in_range(self.2),
            in_range(k),
        ensures
            v == Vector3(
                trunc_div(self.0 as int * k as int, SCALE as int) as i64,
                trunc_div(self.1 as int * k as int, SCALE as int) as i64,
                trunc_div(self.2 as int * k as int, SCALE as int) as i64,
            ),
    {
        proof {
            lemma_fx_mul_bounds(self.0 as int, k as int);
            lemma_fx_mul_bounds(self.1 as int, k as int);
            lemma_fx_mul_bounds(self.2 as int, k as int);
        }
        Vector3(
            trunc_div_i64(self.0 * k, SCALE),
            trunc_div_i64(self.1 * k, SCALE),
            trunc_div_i64(self.2 * k, SCALE),
        )
    }

    /// Negation.
    pub fn neg(self) -> (v: Vector3)
        requires
            in_range(self.0),
            in_range(self.1),
            in_range(self.2),
        ensures
            v == Vector3((-self.0) as i64, (-self.1) as i64, (-self.2) as i64),
    {
        Vector3(-self.0, -self.1, -self.2)
    }
}

/// A 4D vector of fixed-point components.
#[derive(Clone, Copy, Debug, PartialEq, Eq, Structural)]
pub struct Vector4(pub i64, pub i64, pub i64, pub i64);

impl Vector4 {
    /// Builds a vector from its four components.
    pub fn new(x: i64, y: i64, z: i64, w: i64) -> (v: Vector4)
        ensures
            v == Vector4(x, y, z, w),
    {
        Vector4(x, y, z, w)
    }

    /// The zero vector.
    pub fn zero() -> (v: Vector4)
        ensures
            v == Vector4(0i64, 0i64, 0i64, 0i64),
    {
        Vector4(0, 0, 0, 0)
    }

    /// Component-wise difference.
    pub fn sub(self, other: Vector4) -> (v: Vector4)
        requires
            in_range(self.0),
            in_range(self.1),
            in_range(self.2),
            in_range(self.3),
            in_range(other.0),
            in_range(other.1),
            in_range(other.2),
            in_range(other.3),
        ensures
            v == Vector4(
                (self.0 - other.0) as i64,
                (self.1 - other.1) as i64,
                (self.2 - other.2) as i64,
                (self.3 - other.3) as i64,
            ),
    {
        Vector4(
            self.0 - other.0,
            self.1 - other.1,
            self.2 - other.2,
            self.3 - other.3,
        )
    }
}

/// The product of two in-range values is bounded by 2^60.
proof fn lemma_prod60(a: int, b: int)
    requires
        -MAX_COORD <= a <= MAX_COORD,
        -MAX_COORD <= b <= MAX_COORD,
    ensures
        -0x1000_0000_0000_0000 <= a * b <= 0x1000_0000_0000_0000,
{
    assert(-0x1000_0000_0000_0000 <= a * b <= 0x1000_0000_0000_0000) by (nonlinear_arith)
        requires
            -0x4000_0000 <= a <= 0x4000_0000,
            -0x4000_0000 <= b <= 0x4000_0000,
    ;
}

/// The product of two in-range values divided by `SCALE` stays inside
/// `i64`, and the product itself does too.
proof fn lemma_fx_mul_bounds(a: int, b: int)
    requires
        -MAX_COORD <= a <= MAX_COORD,
        -MAX_COORD <= b <= MAX_COORD,
    ensures
        -0x4000_0000_0000_0000 <= a * b <= 0x4000_0000_0000_0000,
        i64::MIN < trunc_div(a * b, SCALE as int) < i64::MAX,
{
    assert(-0x4000_0000_0000_0000 <= a * b <= 0x4000_0000_0000_0000) by (nonlinear_arith)
        requires
            -0x4000_0000 <= a <= 0x4000_0000,
            -0x4000_0000 <= b <= 0x4000_0000,
    ;
    lemma_trunc_div_bound(a * b, SCALE as int, 0x4000_0000_0000_0000);
}

/// Truncating division never grows the magnitude of the dividend.
pub proof fn lemma_trunc_div_bound(a: int, b: int, m: int)
    requires
        b > 0,
        -m <= a <= m,
        m >= 0,
    ensures
        -m <= trunc_div(a, b) <= m,
{
    assert(-m <= trunc_div(a, b) <= m) by (nonlinear_arith)
        requires
            b > 0,
            -m <= a <= m,
            m >= 0,
            trunc_div(a, b) == (if a >= 0 { a / b } else { -((-a) / b) }),
    ;
}

/// The interpolation step of [`Vector2::lerp`] stays inside `i64`.
proof fn lemma_lerp_bounds(a: int, b: int, t: int)
    requires
        -MAX_COORD <= a <= MAX_COORD,
        -MAX_COORD <= b <= MAX_COORD,
        -MAX_COORD <= t <= MAX_COORD,
    ensures
        -0x8000_0000_0000_0000 < (b - a) * t < 0x8000_0000_0000_0000,
        i64::MIN < a + trunc_div((b - a) * t, SCALE as int) < i64::MAX,
{
    assert(-0x8000_0000_0000_0000 < (b - a) * t < 0x8000_0000_0000_0000
        && -0x7000_0000_0000_0000 <= (b - a) * t <= 0x7000_0000_0000_0000) by (nonlinear_arith)
        requires
            -0x4000_0000 <= a <= 0x4000_0000,
            -0x4000_0000 <= b <= 0x4000_0000,
            -0x4000_0000 <= t <= 0x4000_0000,
    ;
    lemma_trunc_div_bound((b - a) * t, SCALE as int, 0x7000_0000_0000_0000);
}

} // verus!
