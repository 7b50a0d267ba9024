//! Fixed-point 4x4 matrices, row major, with homogeneous point transforms.
//!
//! An entry of a product is the widened sum of four raw products, scaled back
//! once; the spec functions state that rounding exactly.

use vstd::prelude::*;
use crate::fixed::{lemma_mul_bound, scale_down, tdiv, FX_ONE};
use crate::math::{V3i, Vec3};

verus! {

/// Entry bound accepted by the matrix product: four widened products of two
/// such entries still scale back into an `i64`.
pub const MAT_LIM: i64 = 1500000000000;

/// Ghost image of a 4x4 matrix: unbounded integer entries, row major.
pub ghost struct M4i {
    pub m00: int, pub m01: int, pub m02: int, pub m03: int,
    pub m10: int, pub m11: int, pub m12: int, pub m13: int,
    pub m20: int, pub m21: int, pub m22: int, pub m23: int,
    pub m30: int, pub m31: int, pub m32: int, pub m33: int,
}

/// Ghost image of a homogeneous 4-vector.
pub ghost struct V4i {
    pub x: int,
    pub y: int,
    pub z: int,
    pub w: int,
}

/// A fixed-point 4x4 matrix, row major.
#[derive(Clone, Copy, PartialEq, Eq, Structural, Debug)]
pub struct Mat4 {
    pub m00: i64, pub m01: i64, pub m02: i64, pub m03: i64,
    pub m10: i64, pub m11: i64, pub m12: i64, pub m13: i64,
    pub m20: i64, pub m21: i64, pub m22: i64, pub m23: i64,
    pub m30: i64, pub m31: i64, pub m32: i64, pub m33: i64,
}

/// A fixed-point homogeneous 4-vector.
#[derive(Clone, Copy, PartialEq, Eq, Structural, Debug)]
pub struct Vec4 {
    pub x: i64,
    pub y: i64,
    pub z: i64,
    pub w: i64,
}

impl View for Mat4 {
    type V = M4i;

    open spec fn view(&self) -> M4i {
        M4i {
            m00: self.m00 as int, m01: self.m01 as int, m02: self.m02 as int, m03: self.m03 as int,
            m10: self.m10 as int, m11: self.m11 as int, m12: self.m12 as int, m13: self.m13 as int,
            m20: self.m20 as int, m21: self.m21 as int, m22: self.m22 as int, m23: self.m23 as int,
            m30: self.m30 as int, m31: self.m31 as int, m32: self.m32 as int, m33: self.m33 as int,
        }
    }
}

impl View for Vec4 {
    type V = V4i;

    open spec fn view(&self) -> V4i {
        V4i { x: self.x as int, y: self.y as int, z: self.z as int, w: self.w as int }
    }
}

pub open spec fn m4_in_lim(m: M4i, lim: int) -> bool {
    &&& -lim <= m.m00 <= lim
    &&& -lim <= m.m01 <= lim
    &&& -lim <= m.m02 <= lim
    &&& -lim <= m.m03 <= lim
    &&& -lim <= m.m10 <= lim
    &&& -lim <= m.m11 <= lim
    &&& -lim <= m.m12 <= lim
    &&& -lim <= m.m13 <= lim
    &&& -lim <= m.m20 <= lim
    &&& -lim <= m.m21 <= lim
    &&& -lim <= m.m22 <= lim
    &&& -lim <= m.m23 <= lim
    &&& -lim <= m.m30 <= lim
    &&& -lim <= m.m31 <= lim
    &&& -lim <= m.m32 <= lim
    &&& -lim <= m.m33 <= lim
}

/// One entry of a product: the widened sum of four raw products, scaled back.
pub open spec fn dot4_s(
    a0: int, a1: int, a2: int, a3: int,
    b0: int, b1: int, b2: int, b3: int,
) -> int {
    tdiv(a0 * b0 + a1 * b1 + a2 * b2 + a3 * b3, FX_ONE as int)
}

/// The identity, `1.0` down the diagonal.
pub open spec fn m4_identity_s() -> M4i {
    M4i {
        m00: FX_ONE as int, m01: 0, m02: 0, m03: 0,
        m10: 0, m11: FX_ONE as int, m12: 0, m13: 0,
        m20: 0, m21: 0, m22: FX_ONE as int, m23: 0,
        m30: 0, m31: 0, m32: 0, m33: FX_ONE as int,
    }
}

/// The fixed-point matrix product.
pub open spec fn m4_mul_s(a: M4i, b: M4i) -> M4i {
    M4i {
        m00: dot4_s(a.m00, a.m01, a.m02, a.m03, b.m00, b.m10, b.m20, b.m30),
        m01: dot4_s(a.m00, a.m01, a.m02, a.m03, b.m01, b.m11, b.m21, b.m31),
        m02: dot4_s(a.m00, a.m01, a.m02, a.m03, b.m02, b.m12, b.m22, b.m32),
        m03: dot4_s(a.m00, a.m01, a.m02, a.m03, b.m03, b.m13, b.m23, b.m33),
        m10: dot4_s(a.m10, a.m11, a.m12, a.m13, b.m00, b.m10, b.m20, b.m30),
        m11: dot4_s(a.m10, a.m11, a.m12, a.m13, b.m01, b.m11, b.m21, b.m31),
        m12: dot4_s(a.m10, a.m11, a.m12, a.m13, b.m02, b.m12, b.m22, b.m32),
        m13: dot4_s(a.m10, a.m11, a.m12, a.m13, b.m03, b.m13, b.m23, b.m33),
        m20: dot4_s(a.m20, a.m21, a.m22, a.m23, b.m00, b.m10, b.m20, b.m30),
        m21: dot4_s(a.m20, a.m21, a.m22, a.m23, b.m01, b.m11, b.m21, b.m31),
        m22: dot4_s(a.m20, a.m21, a.m22, a.m23, b.m02, b.m12, b.m22, b.m32),
        m23: dot4_s(a.m20, a.m21, a.m22, a.m23, b.m03, b.m13, b.m23, b.m33),
        m30: dot4_s(a.m30, a.m31, a.m32, a.m33, b.m00, b.m10, b.m20, b.m30),
        m31: dot4_s(a.m30, a.m31, a.m32, a.m33, b.m01, b.m11, b.m21, b.m31),
        m32: dot4_s(a.m30, a.m31, a.m32, a.m33, b.m02, b.m12, b.m22, b.m32),
        m33: dot4_s(a.m30, a.m31, a.m32, a.m33, b.m03, b.m13, b.m23, b.m33),
    }
}

/// A point carried through a matrix with an implicit `w` of `1.0`.
pub open spec fn m4_transform_point_s(m: M4i, p: V3i) -> V4i {
    V4i {
        x: dot4_s(m.m00, m.m01, m.m02, m.m03, p.x, p.y, p.z, FX_ONE as int),
        y: dot4_s(m.m10, m.m11, m.m12, m.m13, p.x, p.y, p.z, FX_ONE as int),
        z: dot4_s(m.m20, m.m21, m.m22, m.m23, p.x, p.y, p.z, FX_ONE as int),
        w: dot4_s(m.m30, m.m31, m.m32, m.m33, p.x, p.y, p.z, FX_ONE as int),
    }
}

/// One entry of a product on executable values.
fn dot4(a0: i64, a1: i64, a2: i64, a3: i64, b0: i64, b1: i64, b2: i64, b3: i64) -> (r: i64)
    requires
        -MAT_LIM <= a0 <= MAT_LIM,
        -MAT_LIM <= a1 <= MAT_LIM,
        -MAT_LIM <= a2 <= MAT_LIM,
        -MAT_LIM <= a3 <= MAT_LIM,
        -MAT_LIM <= b0 <= MAT_LIM,
        -MAT_LIM <= b1 <= MAT_LIM,
        -MAT_LIM <= b2 <= MAT_LIM,
        -MAT_LIM <= b3 <= MAT_LIM,
    ensures
        r == dot4_s(a0 as int, a1 as int, a2 as int, a3 as int, b0 as int, b1 as int, b2 as int,
            b3 as int),
{
    proof {
        lemma_mul_bound(a0 as int, b0 as int, MAT_LIM as int, MAT_LIM as int);
        lemma_mul_bound(a1 as int, b1 as int, MAT_LIM as int, MAT_LIM as int);
        lemma_mul_bound(a2 as int, b2 as int, MAT_LIM as int, MAT_LIM as int);
        lemma_mul_bound(a3 as int, b3 as int, MAT_LIM as int, MAT_LIM as int);
    }
    let s: i128 = (a0 as i128) * (b0 as i128) + (a1 as i128) * (b1 as i128) + (a2 as i128) * (
    b2 as i128) + (a3 as i128) * (b3 as i128);
    scale_down(s)
}

impl Mat4 {
    /// The identity matrix.
    pub fn identity() -> (r: Mat4)
        ensures
            r@ == m4_identity_s(),
    {
        Mat4 {
            m00: FX_ONE, m01: 0, m02: 0, m03: 0,
            m10: 0, m11: FX_ONE, m12: 0, m13: 0,
            m20: 0, m21: 0, m22: FX_ONE, m23: 0,
            m30: 0, m31: 0, m32: 0, m33: FX_ONE,
        }
    }

    /// The fixed-point product `self * o`.
    pub fn times(self, o: Mat4) -> (r: Mat4)
        requires
            m4_in_lim(self@, MAT_LIM as int),
            m4_in_lim(o@, MAT_LIM as int),
        ensures
            r@ == m4_mul_s(self@, o@),
    {
        Mat4 {
            m00: dot4(self.m00, self.m01, self.m02, self.m03, o.m00, o.m10, o.m20, o.m30),
            m01: dot4(self.m00, self.m01, self.m02, self.m03, o.m01, o.m11, o.m21, o.m31),
            m02: dot4(self.m00, self.m01, self.m02, self.m03, o.m02, o.m12, o.m22, o.m32),
            m03: dot4(self.m00, self.m01, self.m02, self.m03, o.m03, o.m13, o.m23, o.m33),
            m10: dot4(self.m10, self.m11, self.m12, self.m13, o.m00, o.m10, o.m20, o.m30),
            m11: dot4(self.m10, self.m11, self.m12, self.m13, o.m01, o.m11, o.m21, o.m31),
            m12: dot4(self.m10, self.m11, self.m12, self.m13, o.m02, o.m12, o.m22, o.m32),
            m13: dot4(self.m10, self.m11, self.m12, self.m13, o.m03, o.m13, o.m23, o.m33),
            m20: dot4(self.m20, self.m21, self.m22, self.m23, o.m00, o.m10, o.m20, o.m30),
            m21: dot4(self.m20, self.m21, self.m22, self.m23, o.m01, o.m11, o.m21, o.m31),
            m22: dot4(self.m20, self.m21, self.m22, self.m23, o.m02, o.m12, o.m22, o.m32),
            m23: dot4(self.m20, self.m21, self.m22, self.m23, o.m03, o.m13, o.m23, o.m33),
            m30: dot4(self.m30, self.m31, self.m32, self.m33, o.m00, o.m10, o.m20, o.m30),
            m31: dot4(self.m30, self.m31, self.m32, self.m33, o.m01, o.m11, o.m21, o.m31),
            m32: dot4(self.m30, self.m31, self.m32, self.m33, o.m02, o.m12, o.m22, o.m32),
            m33: dot4(self.m30, self.m31, self.m32, self.m33, o.m03, o.m13, o.m23, o.m33),
        }
    }

    /// Carries a point through, with an implicit `w` of `1.0`.
    pub fn transform_point(self, p: Vec3) -> (r: Vec4)
        requires
            m4_in_lim(self@, MAT_LIM as int),
            crate::math::v3_in_lim(p@, MAT_LIM as int),
        ensures
            r@ == m4_transform_point_s(self@, p@),
    {
        Vec4 {
            x: dot4(self.m00, self.m01, self.m02, self.m03, p.x, p.y, p.z, FX_ONE),
            y: dot4(self.m10, self.m11, self.m12, self.m13, p.x, p.y, p.z, FX_ONE),
            z: dot4(self.m20, self.m21, self.m22, self.m23, p.x, p.y, p.z, FX_ONE),
            w: dot4(self.m30, self.m31, self.m32, self.m33, p.x, p.y, p.z, FX_ONE),
        }
    }
}

} // verus!
