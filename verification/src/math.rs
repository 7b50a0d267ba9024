//! Scalar and vector utilities: saturating clamps, angular-delta clamping,
//! fixed-point 3-vectors, projection of one vector onto another, Gram-Schmidt
//! orthonormalisation and tangent-space derivation.

use vstd::prelude::*;
use crate::fixed::{
    abs_i, fx_div, fx_div_s, fx_mul, fx_mul_s, isqrt, isqrt_s, lemma_mul_bound, scale_down,
    tdiv, FX_LIM, FX_ONE,
};

verus! {

/// Componentwise bound accepted by the vector operations.
pub const VEC_LIM: i64 = 1500000000000;

/// Saturation of `value` into `[min, max]`.
pub open spec fn clamp_s(value: int, min: int, max: int) -> int {
    if value > max {
        max
    } else if value < min {
        min
    } else {
        value
    }
}

/// Clamps `value` into `[min, max]`; values above the range saturate at
/// `max`, values below it at `min`.
pub fn clamp(value: i64, min: i64, max: i64) -> (r: i64)
    requires
        min < max,
    ensures
        r == clamp_s(value as int, min as int, max as int),
        min <= r <= max,
{
    if value > max {
        max
    } else if value < min {
        min
    } else {
        value
    }
}

/// Law: clamping lands in `[min, max]` and clamping twice is clamping once.
pub proof fn lemma_clamp_idempotent(value: int, min: int, max: int)
    requires
        min <= max,
    ensures
        min <= clamp_s(value, min, max) <= max,
        clamp_s(clamp_s(value, min, max), min, max) == clamp_s(value, min, max),
{
}

/// The largest step in the direction of `delta` that keeps
/// `current + delta` inside `[min, max]`; `delta` itself when already inside.
pub open spec fn clamp_rotation_s(current: int, delta: int, min: int, max: int) -> int {
    if current + delta > max {
        max - current
    } else if current + delta < min {
        min - current
    } else {
        delta
    }
}

/// Returns the change in angle that the bounds `[min, max]` allow.
pub fn clamp_rotation(current_angle: i64, delta_angle: i64, min: i64, max: i64) -> (r: i64)
    requires
        -0x1000000000000000 <= current_angle <= 0x1000000000000000,
        -0x1000000000000000 <= delta_angle <= 0x1000000000000000,
        -0x1000000000000000 <= min <= 0x1000000000000000,
        -0x1000000000000000 <= max <= 0x1000000000000000,
    ensures
        r == clamp_rotation_s(current_angle as int, delta_angle as int, min as int, max as int),
{
    let new_angle: i64 = current_angle + delta_angle;
    if new_angle > max {
        max - current_angle
    } else if new_angle < min {
        min - current_angle
    } else {
        delta_angle
    }
}

/// Law: the clamped step never leaves `[min, max]`, and is the requested
/// `delta` whenever `current + delta` already lies inside the bounds.
pub proof fn lemma_clamp_rotation_in_range(current: int, delta: int, min: int, max: int)
    requires
        min <= max,
    ensures
        min <= current + clamp_rotation_s(current, delta, min, max) <= max,
        min <= current + delta <= max ==> clamp_rotation_s(current, delta, min, max) == delta,
{
}

/// Ghost image of a 3-vector: unbounded integer components in raw units.
pub ghost struct V3i {
    pub x: int,
    pub y: int,
    pub z: int,
}

/// Ghost image of a 2-vector.
pub ghost struct V2i {
    pub x: int,
    pub y: int,
}

/// A fixed-point 3-vector (raw units of one millionth).
#[derive(Clone, Copy, PartialEq, Eq, Structural, Debug)]
pub struct Vec3 {
    pub x: i64,
    pub y: i64,
    pub z: i64,
}

/// A fixed-point 2-vector.
#[derive(Clone, Copy, PartialEq, Eq, Structural, Debug)]
pub struct Vec2 {
    pub x: i64,
    pub y: i64,
}

impl View for Vec3 {
    type V = V3i;

    open spec fn view(&self) -> V3i {
        V3i { x: self.x as int, y: self.y as int, z: self.z as int }
    }
}

impl View for Vec2 {
    type V = V2i;

    open spec fn view(&self) -> V2i {
        V2i { x: self.x as int, y: self.y as int }
    }
}

pub open spec fn v3_in_lim(v: V3i, lim: int) -> bool {
    -lim <= v.x <= lim && -lim <= v.y <= lim && -lim <= v.z <= lim
}

pub open spec fn v3_add_s(a: V3i, b: V3i) -> V3i {
    V3i { x: a.x + b.x, y: a.y + b.y, z: a.z + b.z }
}

pub open spec fn v3_sub_s(a: V3i, b: V3i) -> V3i {
    V3i { x: a.x - b.x, y: a.y - b.y, z: a.z - b.z }
}

pub open spec fn v3_neg_s(a: V3i) -> V3i {
    V3i { x: -a.x, y: -a.y, z: -a.z }
}

/// Componentwise fixed-point scaling.
pub open spec fn v3_scale_s(a: V3i, k: int) -> V3i {
    V3i { x: fx_mul_s(a.x, k), y: fx_mul_s(a.y, k), z: fx_mul_s(a.z, k) }
}

/// Fixed-point dot product: the widened sum of products, scaled back once.
pub open spec fn v3_dot_s(a: V3i, b: V3i) -> int {
    tdiv(a.x * b.x + a.y * b.y + a.z * b.z, FX_ONE as int)
}

/// Fixed-point cross product.
pub open spec fn v3_cross_s(a: V3i, b: V3i) -> V3i {
    V3i {
        x: tdiv(a.y * b.z - a.z * b.y, FX_ONE as int),
        y: tdiv(a.z * b.x - a.x * b.z, FX_ONE as int),
        z: tdiv(a.x * b.y - a.y * b.x, FX_ONE as int),
    }
}

/// The widened sum of componentwise products, in raw-squared units.
pub open spec fn v3_dot_raw_s(a: V3i, b: V3i) -> int {
    a.x * b.x + a.y * b.y + a.z * b.z
}

/// Squared length in raw-squared units (exact, no rescaling).
pub open spec fn v3_norm_sq_s(a: V3i) -> int {
    a.x * a.x + a.y * a.y + a.z * a.z
}

/// Length in raw units: the rounded-down square root of the exact square.
pub open spec fn v3_norm_s(a: V3i) -> int {
    isqrt_s(v3_norm_sq_s(a))
}

/// The unit vector along `a`, each component rounded toward zero.
pub open spec fn v3_normalize_s(a: V3i) -> V3i {
    V3i {
        x: fx_div_s(a.x, v3_norm_s(a)),
        y: fx_div_s(a.y, v3_norm_s(a)),
        z: fx_div_s(a.z, v3_norm_s(a)),
    }
}

impl Vec3 {
    pub fn new(x: i64, y: i64, z: i64) -> (r: Vec3)
        ensures
            r@ == (V3i { x: x as int, y: y as int, z: z as int }),
    {
        Vec3 { x, y, z }
    }

    pub fn plus(self, o: Vec3) -> (r: Vec3)
        requires
            v3_in_lim(self@, 0x1000000000000000),
            v3_in_lim(o@, 0x1000000000000000),
        ensures
            r@ == v3_add_s(self@, o@),
    {
        Vec3 { x: self.x + o.x, y: self.y + o.y, z: self.z + o.z }
    }

    pub fn minus(self, o: Vec3) -> (r: Vec3)
        requires
            v3_in_lim(self@, 0x1000000000000000),
            v3_in_lim(o@, 0x1000000000000000),
        ensures
            r@ == v3_sub_s(self@, o@),
    {
        Vec3 { x: self.x - o.x, y: self.y - o.y, z: self.z - o.z }
    }

    pub fn neg(self) -> (r: Vec3)
        requires
            v3_in_lim(self@, 0x1000000000000000),
        ensures
            r@ == v3_neg_s(self@),
    {
        Vec3 { x: -self.x, y: -self.y, z: -self.z }
    }

    pub fn scaled(self, k: i64) -> (r: Vec3)
        requires
            v3_in_lim(self@, FX_LIM as int),
            -FX_LIM <= k <= FX_LIM,
        ensures
            r@ == v3_scale_s(self@, k as int),
    {
        Vec3 { x: fx_mul(self.x, k), y: fx_mul(self.y, k), z: fx_mul(self.z, k) }
    }

    pub fn dot(self, o: Vec3) -> (r: i64)
        requires
            v3_in_lim(self@, VEC_LIM as int),
            v3_in_lim(o@, VEC_LIM as int),
        ensures
            r == v3_dot_s(self@, o@),
    {
        proof {
            lemma_mul_bound(self@.x, o@.x, VEC_LIM as int, VEC_LIM as int);
            lemma_mul_bound(self@.y, o@.y, VEC_LIM as int, VEC_LIM as int);
            lemma_mul_bound(self@.z, o@.z, VEC_LIM as int, VEC_LIM as int);
        }
        let s: i128 = (self.x as i128) * (o.x as i128) + (self.y as i128) * (o.y as i128) + (
        self.z as i128) * (o.z as i128);
        scale_down(s)
    }

    pub fn cross(self, o: Vec3) -> (r: Vec3)
        requires
            v3_in_lim(self@, VEC_LIM as int),
            v3_in_lim(o@, VEC_LIM as int),
        ensures
            r@ == v3_cross_s(self@, o@),
    {
        proof {
            lemma_mul_bound(self@.y, o@.z, VEC_LIM as int, VEC_LIM as int);
            lemma_mul_bound(self@.z, o@.y, VEC_LIM as int, VEC_LIM as int);
            lemma_mul_bound(self@.z, o@.x, VEC_LIM as int, VEC_LIM as int);
            lemma_mul_bound(self@.x, o@.z, VEC_LIM as int, VEC_LIM as int);
            lemma_mul_bound(self@.x, o@.y, VEC_LIM as int, VEC_LIM as int);
            lemma_mul_bound(self@.y, o@.x, VEC_LIM as int, VEC_LIM as int);
        }
        let cx: i128 = (self.y as i128) * (o.z as i128) - (self.z as i128) * (o.y as i128);
        let cy: i128 = (self.z as i128) * (o.x as i128) - (self.x as i128) * (o.z as i128);
        let cz: i128 = (self.x as i128) * (o.y as i128) - (self.y as i128) * (o.x as i128);
        Vec3 { x: scale_down(cx), y: scale_down(cy), z: scale_down(cz) }
    }

    /// Length in raw units.
    pub fn norm(self) -> (r: i64)
        requires
            v3_in_lim(self@, VEC_LIM as int),
        ensures
            r == v3_norm_s(self@),
            0 <= r,
            r * r <= v3_norm_sq_s(self@),
            v3_norm_sq_s(self@) < (r + 1) * (r + 1),
            r <= 3000000000000,
    {
        proof {
            lemma_mul_bound(self@.x, self@.x, VEC_LIM as int, VEC_LIM as int);
            lemma_mul_bound(self@.y, self@.y, VEC_LIM as int, VEC_LIM as int);
            lemma_mul_bound(self@.z, self@.z, VEC_LIM as int, VEC_LIM as int);
            assert(self@.x * self@.x >= 0) by (nonlinear_arith);
            assert(self@.y * self@.y >= 0) by (nonlinear_arith);
            assert(self@.z * self@.z >= 0) by (nonlinear_arith);
        }
        let s: u128 = ((self.x as i128) * (self.x as i128) + (self.y as i128) * (self.y as i128)
            + (self.z as i128) * (self.z as i128)) as u128;
        let r: u128 = isqrt(s);
        proof {
            assert(r * r <= s);
            assert(r <= 3000000000000) by (nonlinear_arith)
                requires
                    r * r <= s,
                    s <= 3 * ((VEC_LIM as int) * (VEC_LIM as int)),
                    0 <= r,
            ;
        }
        r as i64
    }

    /// The unit vector along `self`; every component ends within one unit.
    pub fn normalized(self) -> (r: Vec3)
        requires
            v3_in_lim(self@, VEC_LIM as int),
            v3_norm_sq_s(self@) > 0,
        ensures
            r@ == v3_normalize_s(self@),
            v3_in_lim(r@, FX_ONE as int),
    {
        let n: i64 = self.norm();
        proof {
            assert(self@.x * self@.x >= 0) by (nonlinear_arith);
            assert(self@.y * self@.y >= 0) by (nonlinear_arith);
            assert(self@.z * self@.z >= 0) by (nonlinear_arith);
            assert(n >= 1) by (nonlinear_arith)
                requires
                    0 <= n,
                    v3_norm_sq_s(self@) > 0,
                    v3_norm_sq_s(self@) < (n + 1) * (n + 1),
            ;
            lemma_normalize_component_bound(self@.x, n as int, v3_norm_sq_s(self@));
            lemma_normalize_component_bound(self@.y, n as int, v3_norm_sq_s(self@));
            lemma_normalize_component_bound(self@.z, n as int, v3_norm_sq_s(self@));
        }
        Vec3 { x: fx_div(self.x, n), y: fx_div(self.y, n), z: fx_div(self.z, n) }
    }
}

/// A component of a vector never exceeds the vector's length, so the
/// normalised component is at most one unit in magnitude.
proof fn lemma_normalize_component_bound(c: int, n: int, sq: int)
    requires
        0 < n,
        c * c <= sq,
        sq < (n + 1) * (n + 1),
    ensures
        abs_i(fx_div_s(c, n)) <= FX_ONE as int,
{
    assert(abs_i(c) <= n) by (nonlinear_arith)
        requires
            c * c <= sq,
            sq < (n + 1) * (n + 1),
            0 < n,
    ;
    crate::fixed::lemma_abs_mul(c, FX_ONE as int);
    assert(abs_i(c * (FX_ONE as int)) <= n * (FX_ONE as int)) by (nonlinear_arith)
        requires
            abs_i(c * (FX_ONE as int)) == abs_i(c) * (FX_ONE as int),
            abs_i(c) <= n,
    ;
    vstd::arithmetic::div_mod::lemma_div_is_ordered(
        abs_i(c * (FX_ONE as int)),
        n * (FX_ONE as int),
        n,
    );
    vstd::arithmetic::div_mod::lemma_div_multiples_vanish(FX_ONE as int, n);
    assert(abs_i(c * (FX_ONE as int)) / n <= FX_ONE as int);
    assert(abs_i(fx_div_s(c, n)) == abs_i(c * (FX_ONE as int)) / abs_i(n));
}

/// A componentwise bound on a fixed-point dot product.
pub proof fn lemma_dot_bound(a: V3i, b: V3i, al: int, bl: int, lim: int)
    requires
        v3_in_lim(a, al),
        v3_in_lim(b, bl),
        0 <= al,
        0 <= bl,
        (3 * (al * bl)) / (FX_ONE as int) <= lim,
    ensures
        abs_i(v3_dot_s(a, b)) <= lim,
{
    lemma_mul_bound(a.x, b.x, al, bl);
    lemma_mul_bound(a.y, b.y, al, bl);
    lemma_mul_bound(a.z, b.z, al, bl);
    crate::fixed::lemma_tdiv_abs(a.x * b.x + a.y * b.y + a.z * b.z, FX_ONE as int);
    vstd::arithmetic::div_mod::lemma_div_is_ordered(
        abs_i(a.x * b.x + a.y * b.y + a.z * b.z),
        3 * (al * bl),
        FX_ONE as int,
    );
}

/// A componentwise bound on a fixed-point cross product.
pub proof fn lemma_cross_in_lim(a: V3i, b: V3i, al: int, bl: int, lim: int)
    requires
        v3_in_lim(a, al),
        v3_in_lim(b, bl),
        0 <= al,
        0 <= bl,
        (2 * (al * bl)) / (FX_ONE as int) <= lim,
    ensures
        v3_in_lim(v3_cross_s(a, b), lim),
{
    lemma_mul_bound(a.y, b.z, al, bl);
    lemma_mul_bound(a.z, b.y, al, bl);
    lemma_mul_bound(a.z, b.x, al, bl);
    lemma_mul_bound(a.x, b.z, al, bl);
    lemma_mul_bound(a.x, b.y, al, bl);
    lemma_mul_bound(a.y, b.x, al, bl);
    crate::fixed::lemma_tdiv_abs(a.y * b.z - a.z * b.y, FX_ONE as int);
    crate::fixed::lemma_tdiv_abs(a.z * b.x - a.x * b.z, FX_ONE as int);
    crate::fixed::lemma_tdiv_abs(a.x * b.y - a.y * b.x, FX_ONE as int);
    vstd::arithmetic::div_mod::lemma_div_is_ordered(
        abs_i(a.y * b.z - a.z * b.y),
        2 * (al * bl),
        FX_ONE as int,
    );
    vstd::arithmetic::div_mod::lemma_div_is_ordered(
        abs_i(a.z * b.x - a.x * b.z),
        2 * (al * bl),
        FX_ONE as int,
    );
    vstd::arithmetic::div_mod::lemma_div_is_ordered(
        abs_i(a.x * b.y - a.y * b.x),
        2 * (al * bl),
        FX_ONE as int,
    );
}

/// A componentwise bound on fixed-point scaling.
pub proof fn lemma_scale_in_lim(v: V3i, k: int, vl: int, kl: int, lim: int)
    requires
        v3_in_lim(v, vl),
        -kl <= k <= kl,
        0 <= vl,
        0 <= kl,
        (vl * kl) / (FX_ONE as int) <= lim,
    ensures
        v3_in_lim(v3_scale_s(v, k), lim),
{
    crate::fixed::lemma_fx_mul_s_bound(v.x, k, vl, kl);
    crate::fixed::lemma_fx_mul_s_bound(v.y, k, vl, kl);
    crate::fixed::lemma_fx_mul_s_bound(v.z, k, vl, kl);
}

/// The projection of `a` onto `b`: `(a.b / b.b) * b`.
pub open spec fn project_s(a: V3i, b: V3i) -> V3i {
    v3_scale_s(b, fx_div_s(v3_dot_s(a, b), v3_dot_s(b, b)))
}

/// Vector projection of `a` onto `b`; `b` must not round to the zero vector.
pub fn project(a: Vec3, b: Vec3) -> (r: Vec3)
    requires
        v3_in_lim(a@, VEC_LIM as int),
        v3_in_lim(b@, VEC_LIM as int),
        v3_dot_s(b@, b@) != 0,
        -FX_LIM <= v3_dot_s(a@, b@) <= FX_LIM,
        -FX_LIM <= fx_div_s(v3_dot_s(a@, b@), v3_dot_s(b@, b@)) <= FX_LIM,
    ensures
        r@ == project_s(a@, b@),
{
    let num: i64 = a.dot(b);
    let den: i64 = b.dot(b);
    let t: i64 = fx_div(num, den);
    b.scaled(t)
}


/// A point with its surface normal and texture coordinate.
pub struct PointNormal {
    pub position: Vec3,
    pub normal: Vec3,
    pub tex_coord: Vec2,
}

/// A triangle of three attributed points.
pub struct Triangle {
    pub p1: PointNormal,
    pub p2: PointNormal,
    pub p3: PointNormal,
}

/// A vertex as the geometry pre-pass consumes it.
#[derive(Clone, Copy, PartialEq, Eq, Structural, Debug)]
pub struct Vertex {
    pub position: Vec3,
    pub normal: Vec3,
    pub tangent: Vec3,
    pub bitangent: Vec3,
    pub tex_coord: Vec2,
}

/// A bare-position vertex, used for light volumes.
#[derive(Clone, Copy, PartialEq, Eq, Structural, Debug)]
pub struct SimpleVertex {
    pub position: Vec3,
}

/// An orthonormalised basis.
pub struct OrthoBasis {
    pub v1: Vec3,
    pub v2: Vec3,
    pub v3: Vec3,
}

/// Componentwise bound accepted by the basis and tangent operations.
pub const BASIS_LIM: i64 = 50000000;

/// The second basis vector before normalisation: `v2` less its component
/// along the unit `v1`.
pub open spec fn ortho2_pre_s(v1: V3i, v2: V3i) -> V3i {
    v3_sub_s(v2, v3_scale_s(v1, v3_dot_s(v2, v1)))
}

/// The third basis vector before normalisation: `v3` less its components
/// along `v1` and along the already-normalised second vector.
pub open spec fn ortho3_pre_s(v1: V3i, v2: V3i, v3: V3i) -> V3i {
    let n2 = v3_normalize_s(ortho2_pre_s(v1, v2));
    v3_sub_s(v3_sub_s(v3, v3_scale_s(v1, v3_dot_s(v3, v1))), v3_scale_s(n2, v3_dot_s(v3, n2)))
}

pub open spec fn from_basis_ok_s(v1: V3i, v2: V3i, v3: V3i) -> bool {
    v3_norm_sq_s(ortho2_pre_s(v1, v2)) > 0 && v3_norm_sq_s(ortho3_pre_s(v1, v2, v3)) > 0
}

impl OrthoBasis {
    /// Gram-Schmidt over a basis whose first vector is already unit length:
    /// `v1` is kept, `v2` is re-orthogonalised against `v1` and normalised,
    /// `v3` against both. The inputs must be linearly independent enough
    /// that neither intermediate rounds to the zero vector.
    pub fn from_basis(v1: Vec3, v2: Vec3, v3: Vec3) -> (r: OrthoBasis)
        requires
            v3_in_lim(v1@, BASIS_LIM as int),
            v3_in_lim(v2@, BASIS_LIM as int),
            v3_in_lim(v3@, BASIS_LIM as int),
            from_basis_ok_s(v1@, v2@, v3@),
        ensures
            r.v1 == v1,
            r.v2@ == v3_normalize_s(ortho2_pre_s(v1@, v2@)),
            r.v3@ == v3_normalize_s(ortho3_pre_s(v1@, v2@, v3@)),
    {
        proof {
            lemma_dot_bound(v2@, v1@, 50000000, 50000000, 7500000000);
            lemma_dot_bound(v3@, v1@, 50000000, 50000000, 7500000000);
            lemma_scale_in_lim(v1@, v3_dot_s(v2@, v1@), 50000000, 7500000000, 375000000000);
            lemma_scale_in_lim(v1@, v3_dot_s(v3@, v1@), 50000000, 7500000000, 375000000000);
        }
        let d21: i64 = v2.dot(v1);
        let new_v2: Vec3 = v2.minus(v1.scaled(d21)).normalized();
        proof {
            lemma_dot_bound(v3@, new_v2@, 50000000, 1000000, 150000000);
            lemma_scale_in_lim(
                new_v2@,
                v3_dot_s(v3@, new_v2@),
                1000000,
                150000000,
                150000000,
            );
        }
        let d31: i64 = v3.dot(v1);
        let d32: i64 = v3.dot(new_v2);
        let new_v3: Vec3 = v3.minus(v1.scaled(d31)).minus(new_v2.scaled(d32)).normalized();
        OrthoBasis { v1, v2: new_v2, v3: new_v3 }
    }
}

/// One Gram-Schmidt step over exact integers, with the division cleared:
/// `(w.w) v - (v.w) w`, the component of `v` orthogonal to `w` scaled by
/// `w.w`.
pub open spec fn gs_step_s(v: V3i, w: V3i) -> V3i {
    V3i {
        x: v3_dot_raw_s(w, w) * v.x - v3_dot_raw_s(v, w) * w.x,
        y: v3_dot_raw_s(w, w) * v.y - v3_dot_raw_s(v, w) * w.y,
        z: v3_dot_raw_s(w, w) * v.z - v3_dot_raw_s(v, w) * w.z,
    }
}

/// One exact Gram-Schmidt step lands orthogonal to the vector removed.
pub proof fn lemma_gs_step_orthogonal(v: V3i, w: V3i)
    ensures
        v3_dot_raw_s(gs_step_s(v, w), w) == 0,
{
    let ww = v3_dot_raw_s(w, w);
    let vw = v3_dot_raw_s(v, w);
    assert((ww * v.x - vw * w.x) * w.x == ww * (v.x * w.x) - vw * (w.x * w.x))
        by (nonlinear_arith);
    assert((ww * v.y - vw * w.y) * w.y == ww * (v.y * w.y) - vw * (w.y * w.y))
        by (nonlinear_arith);
    assert((ww * v.z - vw * w.z) * w.z == ww * (v.z * w.z) - vw * (w.z * w.z))
        by (nonlinear_arith);
    assert(ww * (v.x * w.x) + ww * (v.y * w.y) + ww * (v.z * w.z) == ww * vw)
        by (nonlinear_arith)
        requires
            vw == v.x * w.x + v.y * w.y + v.z * w.z,
    ;
    assert(vw * (w.x * w.x) + vw * (w.y * w.y) + vw * (w.z * w.z) == vw * ww)
        by (nonlinear_arith)
        requires
            ww == w.x * w.x + w.y * w.y + w.z * w.z,
    ;
    assert(ww * vw == vw * ww) by (nonlinear_arith);
}

/// An integer combination of two vectors orthogonal to `t` is orthogonal to
/// `t`.
pub proof fn lemma_gs_combination_orthogonal(p: int, u: V3i, q: int, w: V3i, t: V3i)
    requires
        v3_dot_raw_s(u, t) == 0,
        v3_dot_raw_s(w, t) == 0,
    ensures
        v3_dot_raw_s(V3i { x: p * u.x - q * w.x, y: p * u.y - q * w.y, z: p * u.z - q * w.z }, t)
            == 0,
{
    assert((p * u.x - q * w.x) * t.x == p * (u.x * t.x) - q * (w.x * t.x)) by (nonlinear_arith);
    assert((p * u.y - q * w.y) * t.y == p * (u.y * t.y) - q * (w.y * t.y)) by (nonlinear_arith);
    assert((p * u.z - q * w.z) * t.z == p * (u.z * t.z) - q * (w.z * t.z)) by (nonlinear_arith);
    assert(p * (u.x * t.x) + p * (u.y * t.y) + p * (u.z * t.z) == p * (u.x * t.x + u.y * t.y
        + u.z * t.z)) by (nonlinear_arith);
    assert(q * (w.x * t.x) + q * (w.y * t.y) + q * (w.z * t.z) == q * (w.x * t.x + w.y * t.y
        + w.z * t.z)) by (nonlinear_arith);
    assert(p * (u.x * t.x + u.y * t.y + u.z * t.z) == 0) by (nonlinear_arith)
        requires
            u.x * t.x + u.y * t.y + u.z * t.z == 0,
    ;
    assert(q * (w.x * t.x + w.y * t.y + w.z * t.z) == 0) by (nonlinear_arith)
        requires
            w.x * t.x + w.y * t.y + w.z * t.z == 0,
    ;
}

/// Law: Gram-Schmidt orthogonalisation, carried out over exact integers
/// with the divisions cleared, makes each combination orthogonal to every
/// predecessor, for any input triple. Unit length is a matter of the later
/// normalisation and its rounding, and is not claimed here.
pub proof fn lemma_gram_schmidt_orthogonal(v1: V3i, v2: V3i, v3: V3i)
    ensures
        v3_dot_raw_s(gs_step_s(v2, v1), v1) == 0,
        v3_dot_raw_s(gs_step_s(gs_step_s(v3, v1), gs_step_s(v2, v1)), gs_step_s(v2, v1)) == 0,
        v3_dot_raw_s(gs_step_s(gs_step_s(v3, v1), gs_step_s(v2, v1)), v1) == 0,
{
    lemma_gs_step_orthogonal(v2, v1);
    lemma_gs_step_orthogonal(v3, v1);
    let w2 = gs_step_s(v2, v1);
    let u3 = gs_step_s(v3, v1);
    lemma_gs_step_orthogonal(u3, w2);
    lemma_gs_combination_orthogonal(
        v3_dot_raw_s(w2, w2),
        u3,
        v3_dot_raw_s(u3, w2),
        w2,
        v1,
    );
}

/// The texture-space determinant of two edge UV deltas.
pub open spec fn tangent_det_s(t1: V2i, t2: V2i) -> int {
    fx_mul_s(t1.x, t2.y) - fx_mul_s(t1.y, t2.x)
}

/// The tangent of the edge system `v1, v2` under UV deltas `t1, t2`.
pub open spec fn tangent_s(v1: V3i, t1: V2i, v2: V3i, t2: V2i) -> V3i {
    let inv = fx_div_s(FX_ONE as int, tangent_det_s(t1, t2));
    V3i {
        x: fx_mul_s(inv, fx_mul_s(v1.x, t2.y) - fx_mul_s(v2.x, t1.y)),
        y: fx_mul_s(inv, fx_mul_s(v1.y, t2.y) - fx_mul_s(v2.y, t1.y)),
        z: fx_mul_s(inv, fx_mul_s(v1.z, t2.y) - fx_mul_s(v2.z, t1.y)),
    }
}

/// The bitangent of the same system.
pub open spec fn bitangent_s(v1: V3i, t1: V2i, v2: V3i, t2: V2i) -> V3i {
    let inv = fx_div_s(FX_ONE as int, tangent_det_s(t1, t2));
    V3i {
        x: fx_mul_s(inv, fx_mul_s(v2.x, t1.x) - fx_mul_s(v1.x, t2.x)),
        y: fx_mul_s(inv, fx_mul_s(v2.y, t1.x) - fx_mul_s(v1.y, t2.x)),
        z: fx_mul_s(inv, fx_mul_s(v2.z, t1.x) - fx_mul_s(v1.z, t2.x)),
    }
}

/// Solves the 2x2 system relating edge vectors to UV deltas, producing the
/// tangent and bitangent. The UV determinant must not vanish: a degenerate
/// UV mapping is a caller contract violation, excluded here rather than
/// discovered downstream as corrupt geometry.
pub fn tangent_space_from(v1: Vec3, t1: Vec2, v2: Vec3, t2: Vec2) -> (r: (Vec3, Vec3))
    requires
        v3_in_lim(v1@, BASIS_LIM as int),
        v3_in_lim(v2@, BASIS_LIM as int),
        -BASIS_LIM <= t1@.x <= BASIS_LIM,
        -BASIS_LIM <= t1@.y <= BASIS_LIM,
        -BASIS_LIM <= t2@.x <= BASIS_LIM,
        -BASIS_LIM <= t2@.y <= BASIS_LIM,
        tangent_det_s(t1@, t2@) != 0,
    ensures
        r.0@ == tangent_s(v1@, t1@, v2@, t2@),
        r.1@ == bitangent_s(v1@, t1@, v2@, t2@),
{
    proof {
        lemma_tangent_bounds(v1@, t1@, v2@, t2@);
    }
    let det_a: i64 = fx_mul(t1.x, t2.y) - fx_mul(t1.y, t2.x);
    let inv_det_a: i64 = fx_div(FX_ONE, det_a);
    let tangent = Vec3 {
        x: fx_mul(inv_det_a, fx_mul(v1.x, t2.y) - fx_mul(v2.x, t1.y)),
        y: fx_mul(inv_det_a, fx_mul(v1.y, t2.y) - fx_mul(v2.y, t1.y)),
        z: fx_mul(inv_det_a, fx_mul(v1.z, t2.y) - fx_mul(v2.z, t1.y)),
    };
    let bitangent = Vec3 {
        x: fx_mul(inv_det_a, fx_mul(v2.x, t1.x) - fx_mul(v1.x, t2.x)),
        y: fx_mul(inv_det_a, fx_mul(v2.y, t1.x) - fx_mul(v1.y, t2.x)),
        z: fx_mul(inv_det_a, fx_mul(v2.z, t1.x) - fx_mul(v1.z, t2.x)),
    };
    (tangent, bitangent)
}

/// The intermediate products of the tangent solve stay within the limits
/// that the fixed-point operations accept.
proof fn lemma_tangent_bounds(v1: V3i, t1: V2i, v2: V3i, t2: V2i)
    requires
        v3_in_lim(v1, BASIS_LIM as int),
        v3_in_lim(v2, BASIS_LIM as int),
        -BASIS_LIM <= t1.x <= BASIS_LIM,
        -BASIS_LIM <= t1.y <= BASIS_LIM,
        -BASIS_LIM <= t2.x <= BASIS_LIM,
        -BASIS_LIM <= t2.y <= BASIS_LIM,
        tangent_det_s(t1, t2) != 0,
    ensures
        abs_i(fx_mul_s(t1.x, t2.y)) <= 2500000000,
        abs_i(fx_mul_s(t1.y, t2.x)) <= 2500000000,
        abs_i(fx_div_s(FX_ONE as int, tangent_det_s(t1, t2))) <= 1000000000000,
        abs_i(fx_mul_s(v1.x, t2.y)) <= 2500000000,
        abs_i(fx_mul_s(v1.y, t2.y)) <= 2500000000,
        abs_i(fx_mul_s(v1.z, t2.y)) <= 2500000000,
        abs_i(fx_mul_s(v2.x, t1.y)) <= 2500000000,
        abs_i(fx_mul_s(v2.y, t1.y)) <= 2500000000,
        abs_i(fx_mul_s(v2.z, t1.y)) <= 2500000000,
        abs_i(fx_mul_s(v1.x, t2.x)) <= 2500000000,
        abs_i(fx_mul_s(v1.y, t2.x)) <= 2500000000,
        abs_i(fx_mul_s(v1.z, t2.x)) <= 2500000000,
        abs_i(fx_mul_s(v2.x, t1.x)) <= 2500000000,
        abs_i(fx_mul_s(v2.y, t1.x)) <= 2500000000,
        abs_i(fx_mul_s(v2.z, t1.x)) <= 2500000000,
{
    crate::fixed::lemma_fx_mul_s_bound(t1.x, t2.y, 50000000, 50000000);
    crate::fixed::lemma_fx_mul_s_bound(t1.y, t2.x, 50000000, 50000000);
    crate::fixed::lemma_abs_mul(FX_ONE as int, FX_ONE as int);
    crate::fixed::lemma_tdiv_abs((FX_ONE as int) * (FX_ONE as int), tangent_det_s(t1, t2));
    vstd::arithmetic::div_mod::lemma_div_is_ordered_by_denominator(
        1000000000000,
        1,
        abs_i(tangent_det_s(t1, t2)),
    );
    crate::fixed::lemma_fx_mul_s_bound(v1.x, t2.y, 50000000, 50000000);
    crate::fixed::lemma_fx_mul_s_bound(v1.y, t2.y, 50000000, 50000000);
    crate::fixed::lemma_fx_mul_s_bound(v1.z, t2.y, 50000000, 50000000);
    crate::fixed::lemma_fx_mul_s_bound(v2.x, t1.y, 50000000, 50000000);
    crate::fixed::lemma_fx_mul_s_bound(v2.y, t1.y, 50000000, 50000000);
    crate::fixed::lemma_fx_mul_s_bound(v2.z, t1.y, 50000000, 50000000);
    crate::fixed::lemma_fx_mul_s_bound(v1.x, t2.x, 50000000, 50000000);
    crate::fixed::lemma_fx_mul_s_bound(v1.y, t2.x, 50000000, 50000000);
    crate::fixed::lemma_fx_mul_s_bound(v1.z, t2.x, 50000000, 50000000);
    crate::fixed::lemma_fx_mul_s_bound(v2.x, t1.x, 50000000, 50000000);
    crate::fixed::lemma_fx_mul_s_bound(v2.y, t1.x, 50000000, 50000000);
    crate::fixed::lemma_fx_mul_s_bound(v2.z, t1.x, 50000000, 50000000);
}


pub open spec fn v2_sub_s(a: V2i, b: V2i) -> V2i {
    V2i { x: a.x - b.x, y: a.y - b.y }
}

/// The first edge of a triangle, from its first point.
pub open spec fn tri_edge1_s(t: Triangle) -> V3i {
    v3_sub_s(t.p2.position@, t.p1.position@)
}

pub open spec fn tri_edge2_s(t: Triangle) -> V3i {
    v3_sub_s(t.p3.position@, t.p1.position@)
}

pub open spec fn tri_uv1_s(t: Triangle) -> V2i {
    v2_sub_s(t.p2.tex_coord@, t.p1.tex_coord@)
}

pub open spec fn tri_uv2_s(t: Triangle) -> V2i {
    v2_sub_s(t.p3.tex_coord@, t.p1.tex_coord@)
}

/// The shared tangent of a triangle's surface.
pub open spec fn tri_tangent_s(t: Triangle) -> V3i {
    tangent_s(tri_edge1_s(t), tri_uv1_s(t), tri_edge2_s(t), tri_uv2_s(t))
}

pub open spec fn tri_bitangent_s(t: Triangle) -> V3i {
    bitangent_s(tri_edge1_s(t), tri_uv1_s(t), tri_edge2_s(t), tri_uv2_s(t))
}

/// What vertex generation asks of a triangle: bounded coordinates, a
/// nondegenerate UV mapping, a bounded tangent frame, and normals
/// independent enough of it for the per-point bases to exist.
pub open spec fn triangle_ok_s(t: Triangle) -> bool {
    &&& v3_in_lim(t.p1.position@, 25000000)
    &&& v3_in_lim(t.p2.position@, 25000000)
    &&& v3_in_lim(t.p3.position@, 25000000)
    &&& v3_in_lim(t.p1.normal@, BASIS_LIM as int)
    &&& v3_in_lim(t.p2.normal@, BASIS_LIM as int)
    &&& v3_in_lim(t.p3.normal@, BASIS_LIM as int)
    &&& -25000000 <= t.p1.tex_coord@.x <= 25000000
    &&& -25000000 <= t.p1.tex_coord@.y <= 25000000
    &&& -25000000 <= t.p2.tex_coord@.x <= 25000000
    &&& -25000000 <= t.p2.tex_coord@.y <= 25000000
    &&& -25000000 <= t.p3.tex_coord@.x <= 25000000
    &&& -25000000 <= t.p3.tex_coord@.y <= 25000000
    &&& tangent_det_s(tri_uv1_s(t), tri_uv2_s(t)) != 0
    &&& v3_in_lim(tri_tangent_s(t), BASIS_LIM as int)
    &&& v3_in_lim(tri_bitangent_s(t), BASIS_LIM as int)
    &&& from_basis_ok_s(t.p1.normal@, tri_tangent_s(t), tri_bitangent_s(t))
    &&& from_basis_ok_s(t.p2.normal@, tri_tangent_s(t), tri_bitangent_s(t))
    &&& from_basis_ok_s(t.p3.normal@, tri_tangent_s(t), tri_bitangent_s(t))
}


impl Triangle {
    /// Generates the three attributed vertices of the triangle: each point
    /// keeps its position, normal and texture coordinate and receives the
    /// triangle's tangent frame, orthonormalised against its own normal.
    pub fn into_vertices(&self) -> (r: [Vertex; 3])
        requires
            triangle_ok_s(*self),
        ensures
            r@.len() == 3,
            r@[0].position == self.p1.position,
            r@[1].position == self.p2.position,
            r@[2].position == self.p3.position,
            r@[0].normal == self.p1.normal,
            r@[1].normal == self.p2.normal,
            r@[2].normal == self.p3.normal,
            r@[0].tex_coord == self.p1.tex_coord,
            r@[1].tex_coord == self.p2.tex_coord,
            r@[2].tex_coord == self.p3.tex_coord,
            r@[0].tangent@ == v3_normalize_s(
                ortho2_pre_s(self.p1.normal@, tri_tangent_s(*self)),
            ),
            r@[1].tangent@ == v3_normalize_s(
                ortho2_pre_s(self.p2.normal@, tri_tangent_s(*self)),
            ),
            r@[2].tangent@ == v3_normalize_s(
                ortho2_pre_s(self.p3.normal@, tri_tangent_s(*self)),
            ),
            r@[0].bitangent@ == v3_normalize_s(
                ortho3_pre_s(self.p1.normal@, tri_tangent_s(*self), tri_bitangent_s(*self)),
            ),
            r@[1].bitangent@ == v3_normalize_s(
                ortho3_pre_s(self.p2.normal@, tri_tangent_s(*self), tri_bitangent_s(*self)),
            ),
            r@[2].bitangent@ == v3_normalize_s(
                ortho3_pre_s(self.p3.normal@, tri_tangent_s(*self), tri_bitangent_s(*self)),
            ),
    {
        let v1: Vec3 = self.p2.position.minus(self.p1.position);
        let t1: Vec2 = Vec2 {
            x: self.p2.tex_coord.x - self.p1.tex_coord.x,
            y: self.p2.tex_coord.y - self.p1.tex_coord.y,
        };
        let v2: Vec3 = self.p3.position.minus(self.p1.position);
        let t2: Vec2 = Vec2 {
            x: self.p3.tex_coord.x - self.p1.tex_coord.x,
            y: self.p3.tex_coord.y - self.p1.tex_coord.y,
        };
        let tb: (Vec3, Vec3) = tangent_space_from(v1, t1, v2, t2);
        let tangent: Vec3 = tb.0;
        let bitangent: Vec3 = tb.1;
        let p1_basis: OrthoBasis = OrthoBasis::from_basis(self.p1.normal, tangent, bitangent);
        let p2_basis: OrthoBasis = OrthoBasis::from_basis(self.p2.normal, tangent, bitangent);
        let p3_basis: OrthoBasis = OrthoBasis::from_basis(self.p3.normal, tangent, bitangent);
        [
            Vertex {
                position: self.p1.position,
                normal: self.p1.normal,
                tangent: p1_basis.v2,
                bitangent: p1_basis.v3,
                tex_coord: self.p1.tex_coord,
            },
            Vertex {
                position: self.p2.position,
                normal: self.p2.normal,
                tangent: p2_basis.v2,
                bitangent: p2_basis.v3,
                tex_coord: self.p2.tex_coord,
            },
            Vertex {
                position: self.p3.position,
                normal: self.p3.normal,
                tangent: p3_basis.v2,
                bitangent: p3_basis.v3,
                tex_coord: self.p3.tex_coord,
            },
        ]
    }
}

/// A unit square in the plane of the first two axes, facing the third, as
/// two triangles of six attributed vertices.
#[verifier::rlimit(100)]
pub fn gen_plane() -> (r: Vec<Vertex>)
    ensures
        r@.len() == 6,
        r@[0].position == (Vec3 { x: -1000000i64, y: 1000000i64, z: 0i64 }),
        r@[1].position == (Vec3 { x: -1000000i64, y: -1000000i64, z: 0i64 }),
        r@[2].position == (Vec3 { x: 1000000i64, y: -1000000i64, z: 0i64 }),
        r@[3].position == (Vec3 { x: -1000000i64, y: 1000000i64, z: 0i64 }),
        r@[4].position == (Vec3 { x: 1000000i64, y: -1000000i64, z: 0i64 }),
        r@[5].position == (Vec3 { x: 1000000i64, y: 1000000i64, z: 0i64 }),
        forall|i: int| 0 <= i < 6 ==> #[trigger] r@[i].normal == (Vec3 {
            x: 0i64,
            y: 0i64,
            z: 1000000i64,
        }),
{
    let mut vertices: Vec<Vertex> = Vec::new();
    let normal = Vec3 { x: 0, y: 0, z: 1000000 };
    let t1 = Triangle {
        p1: PointNormal {
            position: Vec3 { x: -1000000, y: 1000000, z: 0 },
            normal,
            tex_coord: Vec2 { x: 0, y: 1000000 },
        },
        p2: PointNormal {
            position: Vec3 { x: -1000000, y: -1000000, z: 0 },
            normal,
            tex_coord: Vec2 { x: 0, y: 0 },
        },
        p3: PointNormal {
            position: Vec3 { x: 1000000, y: -1000000, z: 0 },
            normal,
            tex_coord: Vec2 { x: 1000000, y: 0 },
        },
    };
    let t2 = Triangle {
        p1: PointNormal {
            position: Vec3 { x: -1000000, y: 1000000, z: 0 },
            normal,
            tex_coord: Vec2 { x: 0, y: 1000000 },
        },
        p2: PointNormal {
            position: Vec3 { x: 1000000, y: -1000000, z: 0 },
            normal,
            tex_coord: Vec2 { x: 1000000, y: 0 },
        },
        p3: PointNormal {
            position: Vec3 { x: 1000000, y: 1000000, z: 0 },
            normal,
            tex_coord: Vec2 { x: 1000000, y: 1000000 },
        },
    };
    proof {
        crate::fixed::lemma_isqrt_unique(4000000000000, 2000000);
        assert(tri_uv1_s(t1) == V2i { x: 0, y: -1000000 });
        assert(tri_uv2_s(t1) == V2i { x: 1000000, y: -1000000 });
        assert(tri_edge1_s(t1) == V3i { x: 0, y: -2000000, z: 0 });
        assert(tri_edge2_s(t1) == V3i { x: 2000000, y: -2000000, z: 0 });
        assert(tri_uv1_s(t2) == V2i { x: 1000000, y: -1000000 });
        assert(tri_uv2_s(t2) == V2i { x: 1000000, y: 0 });
        assert(tri_edge1_s(t2) == V3i { x: 2000000, y: -2000000, z: 0 });
        assert(tri_edge2_s(t2) == V3i { x: 2000000, y: 0, z: 0 });
        assert(tangent_det_s(tri_uv1_s(t1), tri_uv2_s(t1)) == 1000000) by (nonlinear_arith)
            requires
                tri_uv1_s(t1) == (V2i { x: 0, y: -1000000 }),
                tri_uv2_s(t1) == (V2i { x: 1000000, y: -1000000 }),
                FX_ONE == 1000000,
        ;
        assert(tri_tangent_s(t1) == V3i { x: 2000000, y: 0, z: 0 } && tri_bitangent_s(t1)
            == V3i { x: 0, y: 2000000, z: 0 }) by (nonlinear_arith)
            requires
                tri_uv1_s(t1) == (V2i { x: 0, y: -1000000 }),
                tri_uv2_s(t1) == (V2i { x: 1000000, y: -1000000 }),
                tri_edge1_s(t1) == (V3i { x: 0, y: -2000000, z: 0 }),
                tri_edge2_s(t1) == (V3i { x: 2000000, y: -2000000, z: 0 }),
                FX_ONE == 1000000,
        ;
        assert(tangent_det_s(tri_uv1_s(t2), tri_uv2_s(t2)) == 1000000) by (nonlinear_arith)
            requires
                tri_uv1_s(t2) == (V2i { x: 1000000, y: -1000000 }),
                tri_uv2_s(t2) == (V2i { x: 1000000, y: 0 }),
                FX_ONE == 1000000,
        ;
        assert(tri_tangent_s(t2) == V3i { x: 2000000, y: 0, z: 0 } && tri_bitangent_s(t2)
            == V3i { x: 0, y: 2000000, z: 0 }) by (nonlinear_arith)
            requires
                tri_uv1_s(t2) == (V2i { x: 1000000, y: -1000000 }),
                tri_uv2_s(t2) == (V2i { x: 1000000, y: 0 }),
                tri_edge1_s(t2) == (V3i { x: 2000000, y: -2000000, z: 0 }),
                tri_edge2_s(t2) == (V3i { x: 2000000, y: 0, z: 0 }),
                FX_ONE == 1000000,
        ;
        assert(ortho2_pre_s(V3i { x: 0, y: 0, z: 1000000 }, V3i { x: 2000000, y: 0, z: 0 })
            == V3i { x: 2000000, y: 0, z: 0 } && ortho3_pre_s(
            V3i { x: 0, y: 0, z: 1000000 },
            V3i { x: 2000000, y: 0, z: 0 },
            V3i { x: 0, y: 2000000, z: 0 },
        ) == V3i { x: 0, y: 2000000, z: 0 }) by (nonlinear_arith)
            requires
                isqrt_s(4000000000000) == 2000000,
                FX_ONE == 1000000,
        ;
        assert(t1.p1.normal@ == V3i { x: 0, y: 0, z: 1000000 });
        assert(t1.p2.normal@ == t1.p1.normal@ && t1.p3.normal@ == t1.p1.normal@);
        assert(t2.p1.normal@ == t1.p1.normal@ && t2.p2.normal@ == t1.p1.normal@
            && t2.p3.normal@ == t1.p1.normal@);
        assert(triangle_ok_s(t1));
        assert(triangle_ok_s(t2));
    }
    let va: [Vertex; 3] = t1.into_vertices();
    let vb: [Vertex; 3] = t2.into_vertices();
    vertices.push(va[0]);
    vertices.push(va[1]);
    vertices.push(va[2]);
    vertices.push(vb[0]);
    vertices.push(vb[1]);
    vertices.push(vb[2]);
    vertices
}

} // verus!
