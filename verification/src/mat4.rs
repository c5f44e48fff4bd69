//! Fixed-point 4x4 matrices.
//!
//! Every scalar is a signed 16.16 fixed-point number: the `i64` value `v`
//! stands for the real number `v / 65536`. Products of two fixed-point
//! numbers are computed exactly in `i128` and scaled back down with a
//! division that rounds toward zero, so each matrix entry is pinned to an
//! exact integer formula.

use vstd::prelude::*;
use vstd::arithmetic::div_mod::lemma_div_is_ordered;

verus! {

/// The fixed-point representation of 1.
pub const FIXED_ONE: i64 = 65536;

/// Largest magnitude a matrix entry may have when entries are multiplied:
/// with all entries in `[-MAT_ENTRY_MAX, MAT_ENTRY_MAX]`, a four-term dot
/// product fits comfortably in `i128` and its scaled-down value in `i64`.
pub const MAT_ENTRY_MAX: i64 = 0x8000_0000;

/// Integer division rounding toward zero, the rounding used when a
/// fixed-point product is scaled back down.
pub open spec fn tdiv(a: int, d: int) -> int
    recommends
        d > 0,
{
    if a >= 0 {
        a / d
    } else {
        -((-a) / d)
    }
}

/// The fixed-point dot product of two four-vectors: the exact integer sum
/// of products, scaled back down by `FIXED_ONE` rounding toward zero.
pub open spec fn fx_dot4(a0: int, a1: int, a2: int, a3: int, b0: int, b1: int, b2: int, b3: int) -> int {
    tdiv(a0 * b0 + a1 * b1 + a2 * b2 + a3 * b3, FIXED_ONE as int)
}

/// A row-major 4x4 matrix of 16.16 fixed-point entries; `mRC` is the entry
/// in row R, column C.
#[derive(Clone, Copy, Debug, PartialEq, Eq, Structural)]
pub struct Mat4 {
    pub m00: i64, pub m01: i64, pub m02: i64, pub m03: i64,
    pub m10: i64, pub m11: i64, pub m12: i64, pub m13: i64,
    pub m20: i64, pub m21: i64, pub m22: i64, pub m23: i64,
    pub m30: i64, pub m31: i64, pub m32: i64, pub m33: i64,
}

/// The fixed-point identity matrix.
pub open spec fn identity_spec() -> Mat4 {
    Mat4 {
        m00: FIXED_ONE, m01: 0, m02: 0, m03: 0,
        m10: 0, m11: FIXED_ONE, m12: 0, m13: 0,
        m20: 0, m21: 0, m22: FIXED_ONE, m23: 0,
        m30: 0, m31: 0, m32: 0, m33: FIXED_ONE,
    }
}

/// All entries lie in `[-bound, bound]`.
pub open spec fn mat_bounded(a: Mat4, bound: int) -> bool {
    &&& -bound <= a.m00 <= bound
    &&& -bound <= a.m01 <= bound
    &&& -bound <= a.m02 <= bound
    &&& -bound <= a.m03 <= bound
    &&& -bound <= a.m10 <= bound
    &&& -bound <= a.m11 <= bound
    &&& -bound <= a.m12 <= bound
    &&& -bound <= a.m13 <= bound
    &&& -bound <= a.m20 <= bound
    &&& -bound <= a.m21 <= bound
    &&& -bound <= a.m22 <= bound
    &&& -bound <= a.m23 <= bound
    &&& -bound <= a.m30 <= bound
    &&& -bound <= a.m31 <= bound
    &&& -bound <= a.m32 <= bound
    &&& -bound <= a.m33 <= bound
}

/// `r` is the fixed-point matrix product `a * b`, entry by entry.
pub open spec fn is_product(r: Mat4, a: Mat4, b: Mat4) -> bool {
    &&& r.m00 == fx_dot4(a.m00 as int, a.m01 as int, a.m02 as int, a.m03 as int, b.m00 as int, b.m10 as int, b.m20 as int, b.m30 as int)
    &&& r.m01 == fx_dot4(a.m00 as int, a.m01 as int, a.m02 as int, a.m03 as int, b.m01 as int, b.m11 as int, b.m21 as int, b.m31 as int)
    &&& r.m02 == fx_dot4(a.m00 as int, a.m01 as int, a.m02 as int, a.m03 as int, b.m02 as int, b.m12 as int, b.m22 as int, b.m32 as int)
    &&& r.m03 == fx_dot4(a.m00 as int, a.m01 as int, a.m02 as int, a.m03 as int, b.m03 as int, b.m13 as int, b.m23 as int, b.m33 as int)
    &&& r.m10 == fx_dot4(a.m10 as int, a.m11 as int, a.m12 as int, a.m13 as int, b.m00 as int, b.m10 as int, b.m20 as int, b.m30 as int)
    &&& r.m11 == fx_dot4(a.m10 as int, a.m11 as int, a.m12 as int, a.m13 as int, b.m01 as int, b.m11 as int, b.m21 as int, b.m31 as int)
    &&& r.m12 == fx_dot4(a.m10 as int, a.m11 as int, a.m12 as int, a.m13 as int, b.m02 as int, b.m12 as int, b.m22 as int, b.m32 as int)
    &&& r.m13 == fx_dot4(a.m10 as int, a.m11 as int, a.m12 as int, a.m13 as int, b.m03 as int, b.m13 as int, b.m23 as int, b.m33 as int)
    &&& r.m20 == fx_dot4(a.m20 as int, a.m21 as int, a.m22 as int, a.m23 as int, b.m00 as int, b.m10 as int, b.m20 as int, b.m30 as int)
    &&& r.m21 == fx_dot4(a.m20 as int, a.m21 as int, a.m22 as int, a.m23 as int, b.m01 as int, b.m11 as int, b.m21 as int, b.m31 as int)
    &&& r.m22 == fx_dot4(a.m20 as int, a.m21 as int, a.m22 as int, a.m23 as int, b.m02 as int, b.m12 as int, b.m22 as int, b.m32 as int)
    &&& r.m23 == fx_dot4(a.m20 as int, a.m21 as int, a.m22 as int, a.m23 as int, b.m03 as int, b.m13 as int, b.m23 as int, b.m33 as int)
    &&& r.m30 == fx_dot4(a.m30 as int, a.m31 as int, a.m32 as int, a.m33 as int, b.m00 as int, b.m10 as int, b.m20 as int, b.m30 as int)
    &&& r.m31 == fx_dot4(a.m30 as int, a.m31 as int, a.m32 as int, a.m33 as int, b.m01 as int, b.m11 as int, b.m21 as int, b.m31 as int)
    &&& r.m32 == fx_dot4(a.m30 as int, a.m31 as int, a.m32 as int, a.m33 as int, b.m02 as int, b.m12 as int, b.m22 as int, b.m32 as int)
    &&& r.m33 == fx_dot4(a.m30 as int, a.m31 as int, a.m32 as int, a.m33 as int, b.m03 as int, b.m13 as int, b.m23 as int, b.m33 as int)
}

/// One fixed-point dot product of two four-vectors of matrix entries,
/// computed exactly in `i128` and scaled back down.
fn dot4(a0: i64, a1: i64, a2: i64, a3: i64, b0: i64, b1: i64, b2: i64, b3: i64) -> (r: i64)
    requires
        -MAT_ENTRY_MAX <= a0 <= MAT_ENTRY_MAX,
        -MAT_ENTRY_MAX <= a1 <= MAT_ENTRY_MAX,
        -MAT_ENTRY_MAX <= a2 <= MAT_ENTRY_MAX,
        -MAT_ENTRY_MAX <= a3 <= MAT_ENTRY_MAX,
        -MAT_ENTRY_MAX <= b0 <= MAT_ENTRY_MAX,
        -MAT_ENTRY_MAX <= b1 <= MAT_ENTRY_MAX,
        -MAT_ENTRY_MAX <= b2 <= MAT_ENTRY_MAX,
        -MAT_ENTRY_MAX <= b3 <= MAT_ENTRY_MAX,
    ensures
        r == fx_dot4(a0 as int, a1 as int, a2 as int, a3 as int, b0 as int, b1 as int, b2 as int, b3 as int),
{
    proof {
        assert(-0x4000_0000_0000_0000 <= (a0 as int) * (b0 as int) <= 0x4000_0000_0000_0000)
            by (nonlinear_arith)
            requires -0x8000_0000 <= a0 as int <= 0x8000_0000, -0x8000_0000 <= b0 as int <= 0x8000_0000;
        assert(-0x4000_0000_0000_0000 <= (a1 as int) * (b1 as int) <= 0x4000_0000_0000_0000)
            by (nonlinear_arith)
            requires -0x8000_0000 <= a1 as int <= 0x8000_0000, -0x8000_0000 <= b1 as int <= 0x8000_0000;
        assert(-0x4000_0000_0000_0000 <= (a2 as int) * (b2 as int) <= 0x4000_0000_0000_0000)
            by (nonlinear_arith)
            requires -0x8000_0000 <= a2 as int <= 0x8000_0000, -0x8000_0000 <= b2 as int <= 0x8000_0000;
        assert(-0x4000_0000_0000_0000 <= (a3 as int) * (b3 as int) <= 0x4000_0000_0000_0000)
            by (nonlinear_arith)
            requires -0x8000_0000 <= a3 as int <= 0x8000_0000, -0x8000_0000 <= b3 as int <= 0x8000_0000;
    }
    let s: i128 = (a0 as i128) * (b0 as i128) + (a1 as i128) * (b1 as i128)
        + (a2 as i128) * (b2 as i128) + (a3 as i128) * (b3 as i128);
    if s >= 0 {
        let q: u128 = (s as u128) / 65536;
        proof {
            lemma_div_is_ordered(s as int, 0x1_0000_0000_0000_0000, 65536);
            assert(0x1_0000_0000_0000_0000int / 65536int == 0x1_0000_0000_0000);
        }
        q as i64
    } else {
        let ns: i128 = -s;
        let q: u128 = (ns as u128) / 65536;
        proof {
            lemma_div_is_ordered(ns as int, 0x1_0000_0000_0000_0000, 65536);
            assert(0x1_0000_0000_0000_0000int / 65536int == 0x1_0000_0000_0000);
        }
        -(q as i64)
    }
}

impl Mat4 {
    /// The identity transform.
    pub fn identity() -> (r: Mat4)
        ensures
            r == identity_spec(),
    {
        Mat4 {
            m00: FIXED_ONE, m01: 0, m02: 0, m03: 0,
            m10: 0, m11: FIXED_ONE, m12: 0, m13: 0,
            m20: 0, m21: 0, m22: FIXED_ONE, m23: 0,
            m30: 0, m31: 0, m32: 0, m33: FIXED_ONE,
        }
    }

    /// The fixed-point matrix product `self * other`.
    pub fn multiply(&self, other: &Mat4) -> (r: Mat4)
        requires
            mat_bounded(*self, MAT_ENTRY_MAX as int),
            mat_bounded(*other, MAT_ENTRY_MAX as int),
        ensures
            is_product(r, *self, *other),
    {
        Mat4 {
            m00: dot4(self.m00, self.m01, self.m02, self.m03, other.m00, other.m10, other.m20, other.m30),
            m01: dot4(self.m00, self.m01, self.m02, self.m03, other.m01, other.m11, other.m21, other.m31),
            m02: dot4(self.m00, self.m01, self.m02, self.m03, other.m02, other.m12, other.m22, other.m32),
            m03: dot4(self.m00, self.m01, self.m02, self.m03, other.m03, other.m13, other.m23, other.m33),
            m10: dot4(self.m10, self.m11, self.m12, self.m13, other.m00, other.m10, other.m20, other.m30),
            m11: dot4(self.m10, self.m11, self.m12, self.m13, other.m01, other.m11, other.m21, other.m31),
            m12: dot4(self.m10, self.m11, self.m12, self.m13, other.m02, other.m12, other.m22, other.m32),
            m13: dot4(self.m10, self.m11, self.m12, self.m13, other.m03, other.m13, other.m23, other.m33),
            m20: dot4(self.m20, self.m21, self.m22, self.m23, other.m00, other.m10, other.m20, other.m30),
            m21: dot4(self.m20, self.m21, self.m22, self.m23, other.m01, other.m11, other.m21, other.m31),
            m22: dot4(self.m20, self.m21, self.m22, self.m23, other.m02, other.m12, other.m22, other.m32),
            m23: dot4(self.m20, self.m21, self.m22, self.m23, other.m03, other.m13, other.m23, other.m33),
            m30: dot4(self.m30, self.m31, self.m32, self.m33, other.m00, other.m10, other.m20, other.m30),
            m31: dot4(self.m30, self.m31, self.m32, self.m33, other.m01, other.m11, other.m21, other.m31),
            m32: dot4(self.m30, self.m31, self.m32, self.m33, other.m02, other.m12, other.m22, other.m32),
            m33: dot4(self.m30, self.m31, self.m32, self.m33, other.m03, other.m13, other.m23, other.m33),
        }
    }

    /// Maps a model-space point through the matrix, taking the point's
    /// homogeneous coordinate as 1. The result is the screen-space
    /// position in fixed point: column, row, and relative depth.
    pub fn transform_point(&self, x: i64, y: i64, z: i64) -> (r: (i64, i64, i64))
        requires
            mat_bounded(*self, MAT_ENTRY_MAX as int),
            -MAT_ENTRY_MAX <= x <= MAT_ENTRY_MAX,
            -MAT_ENTRY_MAX <= y <= MAT_ENTRY_MAX,
            -MAT_ENTRY_MAX <= z <= MAT_ENTRY_MAX,
        ensures
            r.0 == fx_dot4(self.m00 as int, self.m01 as int, self.m02 as int, self.m03 as int, x as int, y as int, z as int, FIXED_ONE as int),
            r.1 == fx_dot4(self.m10 as int, self.m11 as int, self.m12 as int, self.m13 as int, x as int, y as int, z as int, FIXED_ONE as int),
            r.2 == fx_dot4(self.m20 as int, self.m21 as int, self.m22 as int, self.m23 as int, x as int, y as int, z as int, FIXED_ONE as int),
    {
        (
            dot4(self.m00, self.m01, self.m02, self.m03, x, y, z, FIXED_ONE),
            dot4(self.m10, self.m11, self.m12, self.m13, x, y, z, FIXED_ONE),
            dot4(self.m20, self.m21, self.m22, self.m23, x, y, z, FIXED_ONE),
        )
    }
}

} // verus!
