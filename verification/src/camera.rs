//! The viewpoint model: a pluggable projection (perspective or orthographic)
//! and a camera with position, look-at target, up axis and a tracked vertical
//! tilt angle, together with the navigation operators and derived matrices.

use vstd::prelude::*;
use crate::fixed::{
    abs_i, fx_div, fx_div_s, fx_mul, fx_mul_s, lemma_isqrt_unique, lemma_mul_bound, tdiv,
    tdiv_wide, FX_HALF_PI, FX_LIM, FX_ONE, FX_PI,
};
use crate::math::{
    clamp_rotation, clamp_rotation_s, clamp_s, lemma_cross_in_lim, lemma_dot_bound,
    lemma_scale_in_lim, project_s, v3_add_s, v3_cross_s, v3_dot_raw_s, v3_dot_s, v3_in_lim,
    v3_norm_s, v3_norm_sq_s, v3_normalize_s, v3_scale_s, v3_sub_s, V3i, Vec3, VEC_LIM,
};
use crate::matrix::{m4_in_lim, m4_mul_s, M4i, Mat4, MAT_LIM};
use crate::trig::{acos_s, acos_fx, atan_s, atan_fx, cos_s, cos_fx, sin_s, sin_fx};

verus! {

/// Largest magnitude accepted for projection parameters and camera
/// coordinates, one hundred thousand world units.
pub const GEOM_LIM: i64 = 100000000000;

/// Lower bound of the tracked vertical angle, `0.05` radians.
pub const V_ANGLE_MIN: i64 = 50000;

/// Upper bound of the tracked vertical angle, `3.10` radians.
pub const V_ANGLE_MAX: i64 = 3100000;

/// A projection: one of the two families, each carrying its own parameters.
#[derive(Clone, Copy, PartialEq, Eq, Structural, Debug)]
pub enum Projection {
    Perspective { aspect: i64, fovy: i64, znear: i64, zfar: i64 },
    Orthographic { left: i64, right: i64, top: i64, bottom: i64, znear: i64, zfar: i64 },
}

/// The structural invariant of a projection: ordered planes, a positive near
/// plane and an open vertical field for the perspective family, and bounded
/// parameters throughout.
pub open spec fn proj_wf(p: Projection) -> bool {
    match p {
        Projection::Perspective { aspect, fovy, znear, zfar } => {
            &&& 0 < znear < zfar <= GEOM_LIM
            &&& 0 < aspect <= GEOM_LIM
            &&& 0 < fovy < FX_PI
            &&& sin_s(tdiv(fovy as int, 2)) != 0
        },
        Projection::Orthographic { left, right, top, bottom, znear, zfar } => {
            &&& -GEOM_LIM <= left < right <= GEOM_LIM
            &&& -GEOM_LIM <= bottom < top <= GEOM_LIM
            &&& -GEOM_LIM <= znear < zfar <= GEOM_LIM
        },
    }
}

pub open spec fn proj_znear_s(p: Projection) -> int {
    match p {
        Projection::Perspective { znear, .. } => znear as int,
        Projection::Orthographic { znear, .. } => znear as int,
    }
}

pub open spec fn proj_zfar_s(p: Projection) -> int {
    match p {
        Projection::Perspective { zfar, .. } => zfar as int,
        Projection::Orthographic { zfar, .. } => zfar as int,
    }
}

/// The cotangent of half the vertical field of view.
pub open spec fn persp_cot_s(fovy: int) -> int {
    fx_div_s(cos_s(tdiv(fovy, 2)), sin_s(tdiv(fovy, 2)))
}

/// The perspective matrix of the standard right-handed derivation.
pub open spec fn persp_matrix_s(aspect: int, fovy: int, znear: int, zfar: int) -> M4i {
    let f = persp_cot_s(fovy);
    M4i {
        m00: fx_div_s(f, aspect), m01: 0, m02: 0, m03: 0,
        m10: 0, m11: f, m12: 0, m13: 0,
        m20: 0, m21: 0,
        m22: fx_div_s(-(zfar + znear), zfar - znear),
        m23: tdiv(-2 * (zfar * znear), zfar - znear),
        m30: 0, m31: 0, m32: -(FX_ONE as int), m33: 0,
    }
}

/// The orthographic matrix of the standard six-plane box derivation.
pub open spec fn ortho_matrix_s(l: int, r: int, t: int, b: int, zn: int, zf: int) -> M4i {
    M4i {
        m00: fx_div_s(2 * FX_ONE, r - l), m01: 0, m02: 0, m03: fx_div_s(-(r + l), r - l),
        m10: 0, m11: fx_div_s(2 * FX_ONE, t - b), m12: 0, m13: fx_div_s(-(t + b), t - b),
        m20: 0, m21: 0, m22: fx_div_s(-2 * FX_ONE, zf - zn), m23: fx_div_s(-(zf + zn), zf - zn),
        m30: 0, m31: 0, m32: 0, m33: FX_ONE as int,
    }
}

/// The matrix of either projection family.
pub open spec fn proj_matrix_s(p: Projection) -> M4i {
    match p {
        Projection::Perspective { aspect, fovy, znear, zfar } => persp_matrix_s(
            aspect as int,
            fovy as int,
            znear as int,
            zfar as int,
        ),
        Projection::Orthographic { left, right, top, bottom, znear, zfar } => ortho_matrix_s(
            left as int,
            right as int,
            top as int,
            bottom as int,
            znear as int,
            zfar as int,
        ),
    }
}

/// The closed-form inverse of the perspective matrix.
pub open spec fn persp_inv_matrix_s(aspect: int, fovy: int, znear: int, zfar: int) -> M4i {
    let m = persp_matrix_s(aspect, fovy, znear, zfar);
    M4i {
        m00: fx_div_s(FX_ONE as int, m.m00), m01: 0, m02: 0, m03: 0,
        m10: 0, m11: fx_div_s(FX_ONE as int, m.m11), m12: 0, m13: 0,
        m20: 0, m21: 0, m22: 0, m23: -(FX_ONE as int),
        m30: 0, m31: 0, m32: fx_div_s(FX_ONE as int, m.m23), m33: fx_div_s(m.m22, m.m23),
    }
}

/// The closed-form inverse of the orthographic matrix.
pub open spec fn ortho_inv_matrix_s(l: int, r: int, t: int, b: int, zn: int, zf: int) -> M4i {
    M4i {
        m00: tdiv(r - l, 2), m01: 0, m02: 0, m03: tdiv(r + l, 2),
        m10: 0, m11: tdiv(t - b, 2), m12: 0, m13: tdiv(t + b, 2),
        m20: 0, m21: 0, m22: tdiv(-(zf - zn), 2), m23: tdiv(-(zf + zn), 2),
        m30: 0, m31: 0, m32: 0, m33: FX_ONE as int,
    }
}

/// The inverse matrix of either projection family.
pub open spec fn proj_inv_matrix_s(p: Projection) -> M4i {
    match p {
        Projection::Perspective { aspect, fovy, znear, zfar } => persp_inv_matrix_s(
            aspect as int,
            fovy as int,
            znear as int,
            zfar as int,
        ),
        Projection::Orthographic { left, right, top, bottom, znear, zfar } => ortho_inv_matrix_s(
            left as int,
            right as int,
            top as int,
            bottom as int,
            znear as int,
            zfar as int,
        ),
    }
}

pub open spec fn aspect_ratio_s(p: Projection) -> int {
    match p {
        Projection::Perspective { aspect, .. } => aspect as int,
        Projection::Orthographic { left, right, top, bottom, .. } => fx_div_s(
            right - left,
            top - bottom,
        ),
    }
}

/// Resizing holds the vertical extent and the horizontal centre fixed and
/// widens the box to the new ratio; a perspective simply stores the ratio.
pub open spec fn set_aspect_s(p: Projection, aspect: int) -> Projection {
    match p {
        Projection::Perspective { aspect: _, fovy, znear, zfar } => Projection::Perspective {
            aspect: aspect as i64,
            fovy,
            znear,
            zfar,
        },
        Projection::Orthographic { left, right, top, bottom, znear, zfar } => {
            let centre = tdiv(right + left, 2);
            let rad = tdiv(fx_mul_s(top - bottom, aspect), 2);
            Projection::Orthographic {
                left: (centre - rad) as i64,
                right: (centre + rad) as i64,
                top,
                bottom,
                znear,
                zfar,
            }
        },
    }
}

/// The heuristic widening of an orthographic box into a perspective view:
/// the field of view is read off the box width against the far plane.
pub open spec fn to_perspective_s(p: Projection) -> Projection {
    match p {
        Projection::Perspective { .. } => p,
        Projection::Orthographic { left, right, top, bottom, znear, zfar } => {
            let fov = atan_s(clamp_s(fx_div_s(right - left, zfar as int), -(FX_ONE as int),
                FX_ONE as int));
            Projection::Perspective {
                aspect: fx_div_s(right - left, top - bottom) as i64,
                fovy: (4 * fov) as i64,
                znear,
                zfar,
            }
        },
    }
}

/// The heuristic flattening of a perspective view into an orthographic box,
/// sized by the far plane against a quarter of the field of view.
pub open spec fn to_orthographic_s(p: Projection) -> Projection {
    match p {
        Projection::Orthographic { .. } => p,
        Projection::Perspective { aspect, fovy, znear, zfar } => {
            let q = tdiv(fovy as int, 4);
            let w = fx_mul_s(zfar as int, fx_div_s(sin_s(q), cos_s(q)));
            let h = fx_div_s(w, aspect as int);
            Projection::Orthographic {
                left: -tdiv(w, 2) as i64,
                right: tdiv(w, 2) as i64,
                top: tdiv(h, 2) as i64,
                bottom: -tdiv(h, 2) as i64,
                znear,
                zfar,
            }
        },
    }
}

/// The vertical field of view after a temporary zoom.
pub open spec fn zoom_fovy_s(fovy: int, scale: int) -> int {
    atan_s(fx_mul_s(scale, fx_div_s(sin_s(fovy), cos_s(fovy))))
}

/// The matrix of a temporarily rescaled view: a perspective rescales the
/// tangent of its field, an orthographic rescales its four edges about the
/// origin by half the factor.
pub open spec fn zoomed_matrix_s(p: Projection, scale: int) -> M4i {
    match p {
        Projection::Perspective { aspect, fovy, znear, zfar } => persp_matrix_s(
            aspect as int,
            zoom_fovy_s(fovy as int, scale),
            znear as int,
            zfar as int,
        ),
        Projection::Orthographic { left, right, top, bottom, znear, zfar } => {
            let sc = fx_mul_s(scale, 500000);
            ortho_matrix_s(
                fx_mul_s(left as int, sc),
                fx_mul_s(right as int, sc),
                fx_mul_s(top as int, sc),
                fx_mul_s(bottom as int, sc),
                znear as int,
                zfar as int,
            )
        },
    }
}

/// The perspective matrix on executable values.
#[verifier::rlimit(60)]
fn persp_matrix(aspect: i64, fovy: i64, znear: i64, zfar: i64) -> (r: Mat4)
    requires
        0 < znear < zfar <= GEOM_LIM,
        0 < aspect <= GEOM_LIM,
        sin_s(tdiv(fovy as int, 2)) != 0,
        abs_i(persp_cot_s(fovy as int)) <= FX_LIM as int,
        m4_in_lim(persp_matrix_s(aspect as int, fovy as int, znear as int, zfar as int),
            MAT_LIM as int),
    ensures
        r@ == persp_matrix_s(aspect as int, fovy as int, znear as int, zfar as int),
{
    let half: i64 = tdiv_wide(fovy as i128, 2) as i64;
    let sh: i64 = sin_fx(half);
    let ch: i64 = cos_fx(half);
    let f: i64 = fx_div(ch, sh);
    let m00: i64 = fx_div(f, aspect);
    let m22: i64 = fx_div(-(zfar + znear), zfar - znear);
    proof {
        lemma_mul_bound(zfar as int, znear as int, 100000000000, 100000000000);
    }
    let zzn: i128 = (zfar as i128) * (znear as i128);
    let m23w: i128 = tdiv_wide(-2 * zzn, (zfar as i128) - (
    znear as i128));
    let m23: i64 = m23w as i64;
    Mat4 {
        m00, m01: 0, m02: 0, m03: 0,
        m10: 0, m11: f, m12: 0, m13: 0,
        m20: 0, m21: 0, m22, m23,
        m30: 0, m31: 0, m32: -FX_ONE, m33: 0,
    }
}

/// The orthographic matrix on executable values.
fn ortho_matrix(l: i64, r: i64, t: i64, b: i64, zn: i64, zf: i64) -> (m: Mat4)
    requires
        -FX_LIM <= l <= FX_LIM,
        -FX_LIM <= r <= FX_LIM,
        -FX_LIM <= t <= FX_LIM,
        -FX_LIM <= b <= FX_LIM,
        -FX_LIM <= zn <= FX_LIM,
        -FX_LIM <= zf <= FX_LIM,
        l != r,
        t != b,
        zn != zf,
        -FX_LIM <= r + l <= FX_LIM,
        -FX_LIM <= t + b <= FX_LIM,
        -FX_LIM <= zf + zn <= FX_LIM,
    ensures
        m@ == ortho_matrix_s(l as int, r as int, t as int, b as int, zn as int, zf as int),
{
    Mat4 {
        m00: fx_div(2 * FX_ONE, r - l), m01: 0, m02: 0, m03: fx_div(-(r + l), r - l),
        m10: 0, m11: fx_div(2 * FX_ONE, t - b), m12: 0, m13: fx_div(-(t + b), t - b),
        m20: 0, m21: 0, m22: fx_div(-2 * FX_ONE, zf - zn), m23: fx_div(-(zf + zn), zf - zn),
        m30: 0, m31: 0, m32: 0, m33: FX_ONE,
    }
}

impl Projection {
    pub fn persp(aspect: i64, vertical_fov: i64, znear: i64, zfar: i64) -> (r: Projection)
        ensures
            r == (Projection::Perspective { aspect, fovy: vertical_fov, znear, zfar }),
    {
        Projection::Perspective { aspect, fovy: vertical_fov, znear, zfar }
    }

    /// An orthographic projection from its six planes.
    pub fn ortho(left: i64, right: i64, top: i64, bottom: i64, znear: i64, zfar: i64) -> (
        r: Projection)
        ensures
            r == (Projection::Orthographic { left, right, top, bottom, znear, zfar }),
    {
        Projection::Orthographic { left, right, top, bottom, znear, zfar }
    }

    pub fn znear(&self) -> (r: i64)
        ensures
            r == proj_znear_s(*self),
    {
        match self {
            Projection::Perspective { znear, .. } => *znear,
            Projection::Orthographic { znear, .. } => *znear,
        }
    }

    pub fn zfar(&self) -> (r: i64)
        ensures
            r == proj_zfar_s(*self),
    {
        match self {
            Projection::Perspective { zfar, .. } => *zfar,
            Projection::Orthographic { zfar, .. } => *zfar,
        }
    }

    /// The projection matrix of the live variant.
    pub fn as_matrix(&self) -> (r: Mat4)
        requires
            proj_wf(*self),
            abs_i(persp_cot_part_s(*self)) <= FX_LIM as int,
            m4_in_lim(proj_matrix_s(*self), MAT_LIM as int),
        ensures
            r@ == proj_matrix_s(*self),
    {
        match self {
            Projection::Perspective { aspect, fovy, znear, zfar } => persp_matrix(
                *aspect,
                *fovy,
                *znear,
                *zfar,
            ),
            Projection::Orthographic { left, right, top, bottom, znear, zfar } => ortho_matrix(
                *left,
                *right,
                *top,
                *bottom,
                *znear,
                *zfar,
            ),
        }
    }

    pub fn aspect_ratio(&self) -> (r: i64)
        requires
            proj_wf(*self),
        ensures
            r == aspect_ratio_s(*self),
    {
        match self {
            Projection::Perspective { aspect, .. } => *aspect,
            Projection::Orthographic { left, right, top, bottom, .. } => fx_div(
                *right - *left,
                *top - *bottom,
            ),
        }
    }

    /// Stores the ratio on a perspective; recomputes the horizontal extent
    /// about the unchanged centre on an orthographic box.
    pub fn set_aspect(&mut self, aspect: i64)
        requires
            proj_wf(*old(self)),
            0 <= aspect <= GEOM_LIM,
        ensures
            *final(self) == set_aspect_s(*old(self), aspect as int),
    {
        match self {
            Projection::Perspective { aspect: ref mut a, .. } => {
                *a = aspect;
            },
            Projection::Orthographic { left, right, top, bottom, .. } => {
                let centre: i64 = tdiv_wide((*right as i128) + (*left as i128), 2) as i64;
                let vertical: i64 = *top - *bottom;
                let grown: i64 = fx_mul(vertical, aspect);
                proof {
                    crate::fixed::lemma_fx_mul_s_bound(
                        vertical as int,
                        aspect as int,
                        2 * GEOM_LIM as int,
                        GEOM_LIM as int,
                    );
                    crate::fixed::lemma_tdiv_abs(grown as int, 2);
                    crate::fixed::lemma_tdiv_abs((*right as int) + (*left as int), 2);
                }
                let rad: i64 = tdiv_wide(grown as i128, 2) as i64;
                *right = centre + rad;
                *left = centre - rad;
            },
        }
    }

    /// The lossy widening into the perspective family; a perspective is
    /// returned unchanged.
    pub fn to_perspective(&self) -> (r: Projection)
        requires
            proj_wf(*self),
            proj_zfar_s(*self) != 0,
        ensures
            r == to_perspective_s(*self),
    {
        match self {
            Projection::Orthographic { left, right, top, bottom, znear, zfar } => {
                let ratio: i64 = fx_div(*right - *left, *zfar);
                let clamped: i64 = crate::math::clamp(ratio, -FX_ONE, FX_ONE);
                let fov: i64 = atan_fx(clamped);
                let aspect: i64 = fx_div(*right - *left, *top - *bottom);
                Projection::Perspective { aspect, fovy: 4 * fov, znear: *znear, zfar: *zfar }
            },
            Projection::Perspective { .. } => *self,
        }
    }

    /// The lossy flattening into the orthographic family; an orthographic
    /// box is returned unchanged.
    pub fn to_orthographic(&self) -> (r: Projection)
        requires
            proj_wf(*self),
            ortho_conv_ok_s(*self),
        ensures
            r == to_orthographic_s(*self),
    {
        match self {
            Projection::Perspective { aspect, fovy, znear, zfar } => {
                let q: i64 = tdiv_wide(*fovy as i128, 4) as i64;
                let tn: i64 = fx_div(sin_fx(q), cos_fx(q));
                let w: i64 = fx_mul(*zfar, tn);
                let h: i64 = fx_div(w, *aspect);
                let hw: i64 = tdiv_wide(w as i128, 2) as i64;
                let hh: i64 = tdiv_wide(h as i128, 2) as i64;
                Projection::Orthographic {
                    left: -hw,
                    right: hw,
                    top: hh,
                    bottom: -hh,
                    znear: *znear,
                    zfar: *zfar,
                }
            },
            Projection::Orthographic { .. } => *self,
        }
    }
    /// The inverse projection matrix of the live variant, in closed form.
    pub fn inverse_as_matrix(&self) -> (r: Mat4)
        requires
            proj_wf(*self),
            abs_i(persp_cot_part_s(*self)) <= FX_LIM as int,
            m4_in_lim(proj_matrix_s(*self), MAT_LIM as int),
            persp_nonzero_s(*self),
            m4_in_lim(proj_inv_matrix_s(*self), MAT_LIM as int),
        ensures
            r@ == proj_inv_matrix_s(*self),
    {
        match self {
            Projection::Perspective { aspect, fovy, znear, zfar } => {
                let m: Mat4 = persp_matrix(*aspect, *fovy, *znear, *zfar);
                Mat4 {
                    m00: fx_div(FX_ONE, m.m00), m01: 0, m02: 0, m03: 0,
                    m10: 0, m11: fx_div(FX_ONE, m.m11), m12: 0, m13: 0,
                    m20: 0, m21: 0, m22: 0, m23: -FX_ONE,
                    m30: 0, m31: 0, m32: fx_div(FX_ONE, m.m23), m33: fx_div(m.m22, m.m23),
                }
            },
            Projection::Orthographic { left, right, top, bottom, znear, zfar } => {
                Mat4 {
                    m00: tdiv_wide((*right as i128) - (*left as i128), 2) as i64,
                    m01: 0, m02: 0,
                    m03: tdiv_wide((*right as i128) + (*left as i128), 2) as i64,
                    m10: 0,
                    m11: tdiv_wide((*top as i128) - (*bottom as i128), 2) as i64,
                    m12: 0,
                    m13: tdiv_wide((*top as i128) + (*bottom as i128), 2) as i64,
                    m20: 0, m21: 0,
                    m22: tdiv_wide(-((*zfar as i128) - (*znear as i128)), 2) as i64,
                    m23: tdiv_wide(-((*zfar as i128) + (*znear as i128)), 2) as i64,
                    m30: 0, m31: 0, m32: 0, m33: FX_ONE,
                }
            },
        }
    }

    pub fn zoomed_matrix(&self, scale: i64) -> (r: Mat4)
        requires
            proj_wf(*self),
            -FX_LIM <= scale <= FX_LIM,
            zoom_ok_s(*self, scale as int),
            m4_in_lim(zoomed_matrix_s(*self, scale as int), MAT_LIM as int),
        ensures
            r@ == zoomed_matrix_s(*self, scale as int),
    {
        match self {
            Projection::Perspective { aspect, fovy, znear, zfar } => {
                let y: i64 = fx_div(sin_fx(*fovy), cos_fx(*fovy));
                let new_fovy: i64 = atan_fx(fx_mul(scale, y));
                persp_matrix(*aspect, new_fovy, *znear, *zfar)
            },
            Projection::Orthographic { left, right, top, bottom, znear, zfar } => {
                proof {
                    crate::fixed::lemma_fx_mul_s_bound(
                        scale as int,
                        500000,
                        FX_LIM as int,
                        500000,
                    );
                }
                let sc: i64 = fx_mul(scale, 500000);
                ortho_matrix(
                    fx_mul(*left, sc),
                    fx_mul(*right, sc),
                    fx_mul(*top, sc),
                    fx_mul(*bottom, sc),
                    *znear,
                    *zfar,
                )
            },
        }
    }
}
pub open spec fn persp_cot_part_s(p: Projection) -> int {
    match p {
        Projection::Perspective { fovy, .. } => persp_cot_s(fovy as int),
        Projection::Orthographic { .. } => 0,
    }
}

/// The perspective entries that the closed-form inverse divides by are
/// nonzero; holds vacuously of an orthographic box.
pub open spec fn persp_nonzero_s(p: Projection) -> bool {
    match p {
        Projection::Perspective { .. } => {
            let m = proj_matrix_s(p);
            m.m00 != 0 && m.m11 != 0 && m.m23 != 0
        },
        Projection::Orthographic { .. } => true,
    }
}

/// What a temporary zoom needs of the stored parameters: a nonzero cosine
/// under the tangent, a bounded tangent, and a live series under the new
/// field of view. An orthographic box only needs its scaled edges distinct.
pub open spec fn zoom_ok_s(p: Projection, scale: int) -> bool {
    match p {
        Projection::Perspective { aspect, fovy, znear, zfar } => {
            &&& cos_s(fovy as int) != 0
            &&& abs_i(fx_div_s(sin_s(fovy as int), cos_s(fovy as int))) <= FX_LIM as int
            &&& sin_s(tdiv(zoom_fovy_s(fovy as int, scale), 2)) != 0
            &&& abs_i(persp_cot_s(zoom_fovy_s(fovy as int, scale))) <= FX_LIM as int
        },
        Projection::Orthographic { left, right, top, bottom, znear, zfar } => {
            let sc = fx_mul_s(scale, 500000);
            &&& fx_mul_s(left as int, sc) != fx_mul_s(right as int, sc)
            &&& fx_mul_s(top as int, sc) != fx_mul_s(bottom as int, sc)
            &&& abs_i(fx_mul_s(left as int, sc)) <= FX_LIM as int
            &&& abs_i(fx_mul_s(right as int, sc)) <= FX_LIM as int
            &&& abs_i(fx_mul_s(top as int, sc)) <= FX_LIM as int
            &&& abs_i(fx_mul_s(bottom as int, sc)) <= FX_LIM as int
            &&& -FX_LIM <= fx_mul_s(left as int, sc) + fx_mul_s(right as int, sc) <= FX_LIM
            &&& -FX_LIM <= fx_mul_s(top as int, sc) + fx_mul_s(bottom as int, sc) <= FX_LIM
        },
    }
}

/// What the flattening conversion needs of a perspective: a nonzero cosine
/// under its quarter-angle tangent and bounded intermediate products.
pub open spec fn ortho_conv_ok_s(p: Projection) -> bool {
    match p {
        Projection::Perspective { aspect, fovy, znear, zfar } => {
            let q = tdiv(fovy as int, 4);
            &&& cos_s(q) != 0
            &&& abs_i(fx_div_s(sin_s(q), cos_s(q))) <= FX_LIM as int
            &&& abs_i(fx_mul_s(zfar as int, fx_div_s(sin_s(q), cos_s(q)))) <= FX_LIM as int
        },
        Projection::Orthographic { .. } => true,
    }
}

/// The camera: viewpoint, target, up axis, tracked tilt and projection.
#[derive(Clone, Copy, PartialEq, Eq, Structural, Debug)]
pub struct PCamera {
    pub vertical_angle: i64,
    pub position: Vec3,
    pub look_at: Vec3,
    pub up: Vec3,
    pub projection: Projection,
}

/// The camera's invariant: bounded coordinates, an up axis of unit length
/// within rounding, and a tilt angle strictly inside `(0, pi)`.
pub open spec fn cam_wf(c: PCamera) -> bool {
    &&& v3_in_lim(c.position@, GEOM_LIM as int)
    &&& v3_in_lim(c.look_at@, GEOM_LIM as int)
    &&& v3_in_lim(c.up@, FX_ONE as int)
    &&& 900000 <= v3_dot_s(c.up@, c.up@) <= 1100000
    &&& 0 < c.vertical_angle < FX_PI
}

/// The forward direction: the unit vector toward the look-at target.
pub open spec fn forward_s(c: PCamera) -> V3i {
    v3_normalize_s(v3_sub_s(c.look_at@, c.position@))
}

pub open spec fn fwd_ok_s(c: PCamera) -> bool {
    v3_norm_sq_s(v3_sub_s(c.look_at@, c.position@)) > 0
}

/// The right direction: the unit vector along `forward x up`.
pub open spec fn right_s(c: PCamera) -> V3i {
    v3_normalize_s(v3_cross_s(forward_s(c), c.up@))
}

pub open spec fn right_ok_s(c: PCamera) -> bool {
    v3_norm_sq_s(v3_cross_s(forward_s(c), c.up@)) > 0
}

/// The forward direction flattened into the plane orthogonal to up, before
/// normalisation.
pub open spec fn forward_ortho_pre_s(c: PCamera) -> V3i {
    let look_to = v3_sub_s(c.look_at@, c.position@);
    v3_sub_s(look_to, project_s(look_to, c.up@))
}

pub open spec fn forward_ortho_s(c: PCamera) -> V3i {
    v3_normalize_s(forward_ortho_pre_s(c))
}

/// The axis-angle rotation of `v` about the unit axis `u`, with the cosine
/// and sine given: `v c + (u x v) s + u (u.v) (1 - c)`.
pub open spec fn rodrigues_s(v: V3i, u: V3i, c: int, s: int) -> V3i {
    v3_add_s(
        v3_add_s(v3_scale_s(v, c), v3_scale_s(v3_cross_s(u, v), s)),
        v3_scale_s(u, fx_mul_s(v3_dot_s(u, v), FX_ONE as int - c)),
    )
}

/// The saturated cosine of the angle between two vectors.
pub open spec fn cos_between_s(a: V3i, b: V3i) -> int {
    clamp_s(
        tdiv(v3_dot_raw_s(a, b) * (FX_ONE as int), v3_norm_s(a) * v3_norm_s(b)),
        -(FX_ONE as int),
        FX_ONE as int,
    )
}

/// The angle between two vectors, in `[0, pi]`.
pub open spec fn angle_between_s(a: V3i, b: V3i) -> int {
    acos_s(cos_between_s(a, b))
}

/// The angle between two nonzero vectors on executable values.
fn angle_between(a: Vec3, b: Vec3) -> (r: i64)
    requires
        v3_in_lim(a@, VEC_LIM as int),
        v3_in_lim(b@, VEC_LIM as int),
        v3_norm_sq_s(a@) > 0,
        v3_norm_sq_s(b@) > 0,
    ensures
        r == angle_between_s(a@, b@),
        0 <= r <= FX_PI,
{
    let na: i64 = a.norm();
    let nb: i64 = b.norm();
    proof {
        assert(na >= 1) by (nonlinear_arith)
            requires
                0 <= na,
                v3_norm_sq_s(a@) > 0,
                v3_norm_sq_s(a@) < (na + 1) * (na + 1),
        ;
        assert(nb >= 1) by (nonlinear_arith)
            requires
                0 <= nb,
                v3_norm_sq_s(b@) > 0,
                v3_norm_sq_s(b@) < (nb + 1) * (nb + 1),
        ;
        lemma_mul_bound(a@.x, b@.x, 1500000000000, 1500000000000);
        lemma_mul_bound(a@.y, b@.y, 1500000000000, 1500000000000);
        lemma_mul_bound(a@.z, b@.z, 1500000000000, 1500000000000);
        lemma_mul_bound(na as int, nb as int, 3000000000000, 3000000000000);
    }
    let num: i128 = (a.x as i128) * (b.x as i128) + (a.y as i128) * (b.y as i128) + (a.z as i128)
        * (b.z as i128);
    proof {
        assert(-7000000000000000000000000000000 <= num * (FX_ONE as int)
            <= 7000000000000000000000000000000) by (nonlinear_arith)
            requires
                -6750000000000000000000000 <= num <= 6750000000000000000000000,
                FX_ONE == 1000000,
        ;
    }
    let scaled: i128 = num * (FX_ONE as i128);
    let den: i128 = (na as i128) * (nb as i128);
    proof {
        assert(den >= 1) by (nonlinear_arith)
            requires
                den == (na as int) * (nb as int),
                na >= 1,
                nb >= 1,
        ;
    }
    let q: i128 = tdiv_wide(scaled, den);
    let cv: i64 = if q > FX_ONE as i128 {
        FX_ONE
    } else if q < -(FX_ONE as i128) {
        -FX_ONE
    } else {
        q as i64
    };
    acos_fx(cv)
}

/// The axis-angle rotation of `v` about the unit-length `axis`.
fn rotate_about_axis(v: Vec3, axis: Vec3, angle: i64) -> (r: Vec3)
    requires
        v3_in_lim(v@, 200000000000),
        v3_in_lim(axis@, FX_ONE as int),
    ensures
        r@ == rodrigues_s(v@, axis@, cos_s(angle as int), sin_s(angle as int)),
        v3_in_lim(r@, 2000000000000),
{
    let c: i64 = cos_fx(angle);
    let s: i64 = sin_fx(angle);
    proof {
        lemma_scale_in_lim(v@, c as int, 200000000000, 1000000, 200000000000);
        lemma_cross_in_lim(axis@, v@, 1000000, 200000000000, 400000000000);
        lemma_scale_in_lim(
            v3_cross_s(axis@, v@),
            s as int,
            400000000000,
            1000000,
            400000000000,
        );
        lemma_dot_bound(axis@, v@, 1000000, 200000000000, 600000000000);
        crate::fixed::lemma_fx_mul_s_bound(
            v3_dot_s(axis@, v@),
            FX_ONE as int - c as int,
            600000000000,
            2000000,
        );
        lemma_scale_in_lim(
            axis@,
            fx_mul_s(v3_dot_s(axis@, v@), FX_ONE as int - c as int),
            1000000,
            1200000000000,
            1200000000000,
        );
    }
    let term1: Vec3 = v.scaled(c);
    let term2: Vec3 = axis.cross(v).scaled(s);
    let d: i64 = axis.dot(v);
    let k: i64 = fx_mul(d, FX_ONE - c);
    let term3: Vec3 = axis.scaled(k);
    term1.plus(term2).plus(term3)
}

/// What construction accepts: a nonzero forward vector, a nonzero up
/// vector that normalises to unit length within rounding, and an initial
/// tilt strictly inside `(0, pi)`.
pub open spec fn new_ok_s(position: V3i, look_at: V3i, up: V3i) -> bool {
    &&& v3_norm_sq_s(v3_sub_s(look_at, position)) > 0
    &&& v3_norm_sq_s(up) > 0
    &&& 0 < angle_between_s(v3_sub_s(look_at, position), up) < FX_PI
    &&& 900000 <= v3_dot_s(v3_normalize_s(up), v3_normalize_s(up)) <= 1100000
}

/// Whether a vector is exactly zero; equivalently, whether its exact
/// squared length vanishes.
fn v3_is_zero(v: Vec3) -> (r: bool)
    ensures
        r <==> v3_norm_sq_s(v@) == 0,
        v3_norm_sq_s(v@) >= 0,
{
    proof {
        assert(v@.x * v@.x >= 0) by (nonlinear_arith);
        assert(v@.y * v@.y >= 0) by (nonlinear_arith);
        assert(v@.z * v@.z >= 0) by (nonlinear_arith);
        assert(v@.x != 0 ==> v@.x * v@.x > 0) by (nonlinear_arith);
        assert(v@.y != 0 ==> v@.y * v@.y > 0) by (nonlinear_arith);
        assert(v@.z != 0 ==> v@.z * v@.z > 0) by (nonlinear_arith);
    }
    v.x == 0 && v.y == 0 && v.z == 0
}

impl PCamera {
    /// Builds a camera, rejecting degenerate geometry: a zero forward
    /// vector, a vanishing or badly scaled up axis, or a forward direction
    /// collinear with up (an initial tilt of exactly zero or pi).
    pub fn new(position: Vec3, look_at: Vec3, up: Vec3, projection: Projection) -> (r: Option<
        PCamera,
    >)
        requires
            v3_in_lim(position@, GEOM_LIM as int),
            v3_in_lim(look_at@, GEOM_LIM as int),
            v3_in_lim(up@, VEC_LIM as int),
        ensures
            r is Some <==> new_ok_s(position@, look_at@, up@),
            r matches Some(c) ==> {
                &&& c.position == position
                &&& c.look_at == look_at
                &&& c.up@ == v3_normalize_s(up@)
                &&& c.vertical_angle == angle_between_s(v3_sub_s(look_at@, position@), up@)
                &&& c.projection == projection
                &&& cam_wf(c)
            },
    {
        let to_look: Vec3 = look_at.minus(position);
        if v3_is_zero(to_look) || v3_is_zero(up) {
            return None;
        }
        let vertical_angle: i64 = angle_between(to_look, up);
        if !(vertical_angle > 0 && vertical_angle < FX_PI) {
            return None;
        }
        let nup: Vec3 = up.normalized();
        let ud: i64 = nup.dot(nup);
        if !(ud >= 900000 && ud <= 1100000) {
            return None;
        }
        Some(PCamera { vertical_angle, position, look_at, up: nup, projection })
    }

    /// Builds a camera with a square, quarter-turn perspective preset.
    pub fn new_preset_perspective(position: Vec3, look_at: Vec3, up: Vec3) -> (r: Option<PCamera>)
        requires
            v3_in_lim(position@, GEOM_LIM as int),
            v3_in_lim(look_at@, GEOM_LIM as int),
            v3_in_lim(up@, VEC_LIM as int),
        ensures
            r is Some <==> new_ok_s(position@, look_at@, up@),
            r matches Some(c) ==> {
                &&& c.position == position
                &&& c.look_at == look_at
                &&& c.up@ == v3_normalize_s(up@)
                &&& c.vertical_angle == angle_between_s(v3_sub_s(look_at@, position@), up@)
                &&& c.projection == (Projection::Perspective {
                    aspect: FX_ONE,
                    fovy: FX_HALF_PI,
                    znear: 100000,
                    zfar: 100000000,
                })
                &&& cam_wf(c)
            },
    {
        PCamera::new(
            position,
            look_at,
            up,
            Projection::Perspective {
                aspect: FX_ONE,
                fovy: FX_HALF_PI,
                znear: 100000,
                zfar: 100000000,
            },
        )
    }

    pub fn znear(&self) -> (r: i64)
        ensures
            r == proj_znear_s(self.projection),
    {
        self.projection.znear()
    }

    pub fn zfar(&self) -> (r: i64)
        ensures
            r == proj_zfar_s(self.projection),
    {
        self.projection.zfar()
    }

    /// Replaces the projection with its perspective approximation.
    pub fn perspective_projection(&mut self)
        requires
            proj_wf(old(self).projection),
            proj_zfar_s(old(self).projection) != 0,
        ensures
            final(self).projection == to_perspective_s(old(self).projection),
            final(self).position == old(self).position,
            final(self).look_at == old(self).look_at,
            final(self).up == old(self).up,
            final(self).vertical_angle == old(self).vertical_angle,
    {
        self.projection = self.projection.to_perspective();
    }

    /// Replaces the projection with its orthographic approximation.
    pub fn orthographic_projection(&mut self)
        requires
            proj_wf(old(self).projection),
            ortho_conv_ok_s(old(self).projection),
        ensures
            final(self).projection == to_orthographic_s(old(self).projection),
            final(self).position == old(self).position,
            final(self).look_at == old(self).look_at,
            final(self).up == old(self).up,
            final(self).vertical_angle == old(self).vertical_angle,
    {
        self.projection = self.projection.to_orthographic();
    }

    pub fn set_aspect(&mut self, aspect: i64)
        requires
            proj_wf(old(self).projection),
            0 <= aspect <= GEOM_LIM,
        ensures
            final(self).projection == set_aspect_s(old(self).projection, aspect as int),
            final(self).position == old(self).position,
            final(self).look_at == old(self).look_at,
            final(self).up == old(self).up,
            final(self).vertical_angle == old(self).vertical_angle,
    {
        self.projection.set_aspect(aspect);
    }

    /// Derives the ratio from pixel dimensions and applies it.
    pub fn set_aspect_from_dims(&mut self, dimensions: (u32, u32))
        requires
            proj_wf(old(self).projection),
            dimensions.1 != 0,
            (dimensions.0 as int) * (FX_ONE as int) / (dimensions.1 as int) <= GEOM_LIM,
        ensures
            final(self).projection == set_aspect_s(
                old(self).projection,
                (dimensions.0 as int) * (FX_ONE as int) / (dimensions.1 as int),
            ),
            final(self).position == old(self).position,
            final(self).look_at == old(self).look_at,
            final(self).up == old(self).up,
            final(self).vertical_angle == old(self).vertical_angle,
    {
        proof {
            lemma_mul_bound(dimensions.0 as int, FX_ONE as int, 4294967295, 1000000);
            vstd::arithmetic::div_mod::lemma_div_pos_is_pos(
                (dimensions.0 as int) * (FX_ONE as int),
                dimensions.1 as int,
            );
        }
        let aspect: i64 = (((dimensions.0 as u64) * (FX_ONE as u64)) / (dimensions.1 as u64))
            as i64;
        self.projection.set_aspect(aspect);
    }

    /// The unit vector from the position toward the look-at target.
    pub fn forward_vec(&self) -> (r: Vec3)
        requires
            cam_wf(*self),
            fwd_ok_s(*self),
        ensures
            r@ == forward_s(*self),
            v3_in_lim(r@, FX_ONE as int),
    {
        self.look_at.minus(self.position).normalized()
    }

    /// The forward direction flattened into the plane orthogonal to up.
    pub fn forward_ortho_vec(&self) -> (r: Vec3)
        requires
            cam_wf(*self),
            v3_norm_sq_s(forward_ortho_pre_s(*self)) > 0,
        ensures
            r@ == forward_ortho_s(*self),
            v3_in_lim(r@, FX_ONE as int),
    {
        let look_to: Vec3 = self.look_at.minus(self.position);
        proof {
            lemma_flat_pre_bounds(*self);
        }
        let p: Vec3 = crate::math::project(look_to, self.up);
        look_to.minus(p).normalized()
    }

    /// The unit vector along `forward x up`.
    pub fn right_vec(&self) -> (r: Vec3)
        requires
            cam_wf(*self),
            fwd_ok_s(*self),
            right_ok_s(*self),
        ensures
            r@ == right_s(*self),
            v3_in_lim(r@, FX_ONE as int),
    {
        let f: Vec3 = self.forward_vec();
        proof {
            lemma_cross_in_lim(f@, self.up@, 1000000, 1000000, 2000000);
        }
        f.cross(self.up).normalized()
    }
}

/// The flattening intermediates stay within the vector limits: the dot of
/// the direction with a rounded unit up axis is bounded, and so is the
/// projected vector.
proof fn lemma_flat_pre_bounds(c: PCamera)
    requires
        cam_wf(c),
    ensures
        abs_i(v3_dot_s(v3_sub_s(c.look_at@, c.position@), c.up@)) <= 600000000000,
        abs_i(
            fx_div_s(
                v3_dot_s(v3_sub_s(c.look_at@, c.position@), c.up@),
                v3_dot_s(c.up@, c.up@),
            ),
        ) <= 700000000000,
        v3_in_lim(
            v3_scale_s(
                c.up@,
                fx_div_s(
                    v3_dot_s(v3_sub_s(c.look_at@, c.position@), c.up@),
                    v3_dot_s(c.up@, c.up@),
                ),
            ),
            700000000000,
        ),
        v3_in_lim(forward_ortho_pre_s(c), 1000000000000),
{
    let lt = v3_sub_s(c.look_at@, c.position@);
    lemma_dot_bound(lt, c.up@, 200000000000, 1000000, 600000000000);
    let d = v3_dot_s(lt, c.up@);
    let uu = v3_dot_s(c.up@, c.up@);
    crate::fixed::lemma_abs_mul(d, FX_ONE as int);
    crate::fixed::lemma_tdiv_abs(d * (FX_ONE as int), uu);
    assert(abs_i(d * (FX_ONE as int)) == abs_i(d) * (FX_ONE as int));
    assert(abs_i(d) * (FX_ONE as int) <= 600000000000000000) by (nonlinear_arith)
        requires
            abs_i(d) <= 600000000000,
            FX_ONE == 1000000,
    ;
    vstd::arithmetic::div_mod::lemma_div_is_ordered(
        abs_i(d * (FX_ONE as int)),
        600000000000000000,
        abs_i(uu),
    );
    vstd::arithmetic::div_mod::lemma_div_is_ordered_by_denominator(
        600000000000000000,
        900000,
        abs_i(uu),
    );
    lemma_scale_in_lim(c.up@, fx_div_s(d, uu), 1000000, 700000000000, 700000000000);
}


/// The viewing axis toward the eye: the unit vector from the target back to
/// the position.
pub open spec fn look_z_s(c: PCamera) -> V3i {
    v3_normalize_s(v3_sub_s(c.position@, c.look_at@))
}

/// The right axis of the view frame.
pub open spec fn look_x_s(c: PCamera) -> V3i {
    v3_normalize_s(v3_cross_s(c.up@, look_z_s(c)))
}

/// The re-derived up axis of the view frame.
pub open spec fn look_y_s(c: PCamera) -> V3i {
    v3_cross_s(look_z_s(c), look_x_s(c))
}

pub open spec fn look_ok_s(c: PCamera) -> bool {
    &&& v3_norm_sq_s(v3_sub_s(c.position@, c.look_at@)) > 0
    &&& v3_norm_sq_s(v3_cross_s(c.up@, look_z_s(c))) > 0
}

/// The right-handed look-at matrix: the view frame as rows, the eye carried
/// to the origin.
pub open spec fn look_at_matrix_s(c: PCamera) -> M4i {
    let x = look_x_s(c);
    let y = look_y_s(c);
    let z = look_z_s(c);
    M4i {
        m00: x.x, m01: x.y, m02: x.z, m03: -v3_dot_s(x, c.position@),
        m10: y.x, m11: y.y, m12: y.z, m13: -v3_dot_s(y, c.position@),
        m20: z.x, m21: z.y, m22: z.z, m23: -v3_dot_s(z, c.position@),
        m30: 0, m31: 0, m32: 0, m33: FX_ONE as int,
    }
}

/// The inverse of the look-at transform: the frame transposed, the eye as
/// the translation.
pub open spec fn inv_look_matrix_s(c: PCamera) -> M4i {
    let x = look_x_s(c);
    let y = look_y_s(c);
    let z = look_z_s(c);
    M4i {
        m00: x.x, m01: y.x, m02: z.x, m03: c.position@.x,
        m10: x.y, m11: y.y, m12: z.y, m13: c.position@.y,
        m20: x.z, m21: y.z, m22: z.z, m23: c.position@.z,
        m30: 0, m31: 0, m32: 0, m33: FX_ONE as int,
    }
}

/// The full view transform: projection times look-at.
pub open spec fn view_matrix_s(c: PCamera) -> M4i {
    m4_mul_s(proj_matrix_s(c.projection), look_at_matrix_s(c))
}

/// The tilt step that the bounds allow, of a requested look rotation.
pub open spec fn vert_delta_s(va: int, angle: int) -> int {
    clamp_rotation_s(va, -angle, V_ANGLE_MIN as int, V_ANGLE_MAX as int)
}

/// The orbit radius: the distance to the target, flattened orthogonal to up.
pub open spec fn orbit_radius_s(c: PCamera) -> int {
    v3_norm_s(forward_ortho_pre_s(c))
}

impl PCamera {
    /// Translates both the position and the look-at target (a pan).
    pub fn move_unlocked(&mut self, value: &Vec3)
        requires
            v3_in_lim(old(self).position@, 0x1000000000000000),
            v3_in_lim(old(self).look_at@, 0x1000000000000000),
            v3_in_lim(value@, 0x1000000000000000),
        ensures
            final(self).position@ == v3_add_s(old(self).position@, value@),
            final(self).look_at@ == v3_add_s(old(self).look_at@, value@),
            final(self).up == old(self).up,
            final(self).vertical_angle == old(self).vertical_angle,
            final(self).projection == old(self).projection,
    {
        self.position = self.position.plus(*value);
        self.look_at = self.look_at.plus(*value);
    }

    /// Translates the position only; the look direction changes.
    pub fn move_locked(&mut self, value: &Vec3)
        requires
            v3_in_lim(old(self).position@, 0x1000000000000000),
            v3_in_lim(value@, 0x1000000000000000),
        ensures
            final(self).position@ == v3_add_s(old(self).position@, value@),
            final(self).look_at == old(self).look_at,
            final(self).up == old(self).up,
            final(self).vertical_angle == old(self).vertical_angle,
            final(self).projection == old(self).projection,
    {
        self.position = self.position.plus(*value);
    }

    /// Pans along the forward direction.
    pub fn move_forward(&mut self, distance: i64)
        requires
            cam_wf(*old(self)),
            fwd_ok_s(*old(self)),
            -FX_LIM <= distance <= FX_LIM,
        ensures
            final(self).position@ == v3_add_s(
                old(self).position@,
                v3_scale_s(forward_s(*old(self)), distance as int),
            ),
            final(self).look_at@ == v3_add_s(
                old(self).look_at@,
                v3_scale_s(forward_s(*old(self)), distance as int),
            ),
            final(self).up == old(self).up,
            final(self).vertical_angle == old(self).vertical_angle,
            final(self).projection == old(self).projection,
    {
        let forward: Vec3 = self.forward_vec();
        proof {
            lemma_scale_in_lim(forward@, distance as int, 1000000, 3000000000000, 3000000000000);
        }
        let movement: Vec3 = forward.scaled(distance);
        self.move_unlocked(&movement);
    }

    /// Pans along the right direction; a positive distance moves right.
    pub fn move_sideways(&mut self, distance: i64)
        requires
            cam_wf(*old(self)),
            fwd_ok_s(*old(self)),
            right_ok_s(*old(self)),
            -FX_LIM <= distance <= FX_LIM,
        ensures
            final(self).position@ == v3_add_s(
                old(self).position@,
                v3_scale_s(right_s(*old(self)), distance as int),
            ),
            final(self).look_at@ == v3_add_s(
                old(self).look_at@,
                v3_scale_s(right_s(*old(self)), distance as int),
            ),
            final(self).up == old(self).up,
            final(self).vertical_angle == old(self).vertical_angle,
            final(self).projection == old(self).projection,
    {
        let sideways: Vec3 = self.right_vec();
        proof {
            lemma_scale_in_lim(sideways@, distance as int, 1000000, 3000000000000, 3000000000000);
        }
        let movement: Vec3 = sideways.scaled(distance);
        self.move_unlocked(&movement);
    }

    /// Pans along the up axis.
    pub fn move_up(&mut self, distance: i64)
        requires
            cam_wf(*old(self)),
            -FX_LIM <= distance <= FX_LIM,
        ensures
            final(self).position@ == v3_add_s(
                old(self).position@,
                v3_scale_s(old(self).up@, distance as int),
            ),
            final(self).look_at@ == v3_add_s(
                old(self).look_at@,
                v3_scale_s(old(self).up@, distance as int),
            ),
            final(self).up == old(self).up,
            final(self).vertical_angle == old(self).vertical_angle,
            final(self).projection == old(self).projection,
    {
        proof {
            lemma_scale_in_lim(
                self.up@,
                distance as int,
                1000000,
                3000000000000,
                3000000000000,
            );
        }
        let movement: Vec3 = self.up.scaled(distance);
        self.move_unlocked(&movement);
    }

    /// Pans along up flattened orthogonal to the facing direction, keeping
    /// vertical motion decoupled from pitch.
    pub fn move_up_relative(&mut self, distance: i64)
        requires
            cam_wf(*old(self)),
            v3_dot_s(
                v3_sub_s(old(self).look_at@, old(self).position@),
                v3_sub_s(old(self).look_at@, old(self).position@),
            ) != 0,
            abs_i(
                fx_div_s(
                    v3_dot_s(old(self).up@, v3_sub_s(old(self).look_at@, old(self).position@)),
                    v3_dot_s(
                        v3_sub_s(old(self).look_at@, old(self).position@),
                        v3_sub_s(old(self).look_at@, old(self).position@),
                    ),
                ),
            ) <= FX_LIM as int,
            v3_in_lim(up_rel_pre_s(*old(self)), VEC_LIM as int),
            v3_norm_sq_s(up_rel_pre_s(*old(self))) > 0,
            -FX_LIM <= distance <= FX_LIM,
        ensures
            final(self).position@ == v3_add_s(
                old(self).position@,
                v3_scale_s(v3_normalize_s(up_rel_pre_s(*old(self))), distance as int),
            ),
            final(self).look_at@ == v3_add_s(
                old(self).look_at@,
                v3_scale_s(v3_normalize_s(up_rel_pre_s(*old(self))), distance as int),
            ),
            final(self).up == old(self).up,
            final(self).vertical_angle == old(self).vertical_angle,
            final(self).projection == old(self).projection,
    {
        let facing: Vec3 = self.look_at.minus(self.position);
        proof {
            lemma_dot_bound(self.up@, facing@, 1000000, 200000000000, 600000000000);
        }
        let p: Vec3 = crate::math::project(self.up, facing);
        let dir: Vec3 = self.up.minus(p).normalized();
        proof {
            lemma_scale_in_lim(dir@, distance as int, 1000000, 3000000000000, 3000000000000);
        }
        let movement: Vec3 = dir.scaled(distance);
        self.move_unlocked(&movement);
    }

    /// Pans along the flattened forward direction.
    pub fn move_forward_ortho_up(&mut self, distance: i64)
        requires
            cam_wf(*old(self)),
            v3_norm_sq_s(forward_ortho_pre_s(*old(self))) > 0,
            -FX_LIM <= distance <= FX_LIM,
        ensures
            final(self).position@ == v3_add_s(
                old(self).position@,
                v3_scale_s(forward_ortho_s(*old(self)), distance as int),
            ),
            final(self).look_at@ == v3_add_s(
                old(self).look_at@,
                v3_scale_s(forward_ortho_s(*old(self)), distance as int),
            ),
            final(self).up == old(self).up,
            final(self).vertical_angle == old(self).vertical_angle,
            final(self).projection == old(self).projection,
    {
        let forward: Vec3 = self.forward_ortho_vec();
        proof {
            lemma_scale_in_lim(forward@, distance as int, 1000000, 3000000000000, 3000000000000);
        }
        let movement: Vec3 = forward.scaled(distance);
        self.move_unlocked(&movement);
    }

    /// Re-aims the camera: sets the target to `position + new_relative`.
    /// The tracked vertical angle is deliberately left as it is, as the
    /// navigation discipline of this engine prescribes; a caller that uses
    /// the tilt operators afterwards is responsible for keeping the angle
    /// consistent with the new direction.
    pub fn set_relative_look(&mut self, new_relative: &Vec3)
        requires
            v3_in_lim(old(self).position@, 0x1000000000000000),
            v3_in_lim(new_relative@, 0x1000000000000000),
        ensures
            final(self).look_at@ == v3_add_s(old(self).position@, new_relative@),
            final(self).position == old(self).position,
            final(self).up == old(self).up,
            final(self).vertical_angle == old(self).vertical_angle,
            final(self).projection == old(self).projection,
    {
        self.look_at = self.position.plus(*new_relative);
    }

    /// Tilts the view: rotates the target about the right axis, pivoting at
    /// the position. A positive angle rotates downward. The step is clamped
    /// so that the tracked vertical angle stays within its bounds, and the
    /// angle is advanced by the clamped step, not the requested one.
    pub fn rotate_view_vertical(&mut self, angle: i64)
        requires
            cam_wf(*old(self)),
            fwd_ok_s(*old(self)),
            right_ok_s(*old(self)),
            -0x1000000000000000 <= angle <= 0x1000000000000000,
        ensures
            final(self).vertical_angle == old(self).vertical_angle + vert_delta_s(
                old(self).vertical_angle as int,
                angle as int,
            ),
            V_ANGLE_MIN <= final(self).vertical_angle <= V_ANGLE_MAX,
            final(self).look_at@ == v3_add_s(
                old(self).position@,
                rodrigues_s(
                    v3_sub_s(old(self).look_at@, old(self).position@),
                    right_s(*old(self)),
                    cos_s(vert_delta_s(old(self).vertical_angle as int, angle as int)),
                    sin_s(vert_delta_s(old(self).vertical_angle as int, angle as int)),
                ),
            ),
            final(self).position == old(self).position,
            final(self).up == old(self).up,
            final(self).projection == old(self).projection,
    {
        let delta: i64 = clamp_rotation(self.vertical_angle, -angle, V_ANGLE_MIN, V_ANGLE_MAX);
        proof {
            crate::math::lemma_clamp_rotation_in_range(
                self.vertical_angle as int,
                -(angle as int),
                V_ANGLE_MIN as int,
                V_ANGLE_MAX as int,
            );
        }
        let axis: Vec3 = self.right_vec();
        let to_look: Vec3 = self.look_at.minus(self.position);
        let rotated: Vec3 = rotate_about_axis(to_look, axis, delta);
        self.vertical_angle = self.vertical_angle + delta;
        self.look_at = self.position.plus(rotated);
    }

    /// Turns the view: rotates the target about the up axis, pivoting at
    /// the position. A positive angle rotates left; there is no clamp.
    pub fn rotate_view_horizontal(&mut self, angle: i64)
        requires
            cam_wf(*old(self)),
        ensures
            final(self).look_at@ == v3_add_s(
                old(self).position@,
                rodrigues_s(
                    v3_sub_s(old(self).look_at@, old(self).position@),
                    old(self).up@,
                    cos_s(angle as int),
                    sin_s(angle as int),
                ),
            ),
            final(self).position == old(self).position,
            final(self).up == old(self).up,
            final(self).vertical_angle == old(self).vertical_angle,
            final(self).projection == old(self).projection,
    {
        let to_look: Vec3 = self.look_at.minus(self.position);
        let rotated: Vec3 = rotate_about_axis(to_look, self.up, angle);
        self.look_at = self.position.plus(rotated);
    }

    /// Orbits: rotates the position about the up axis, pivoting at the
    /// target. A positive angle orbits counterclockwise.
    pub fn rotate_around_look_horizontal(&mut self, angle: i64)
        requires
            cam_wf(*old(self)),
        ensures
            final(self).position@ == v3_add_s(
                old(self).look_at@,
                rodrigues_s(
                    v3_sub_s(old(self).position@, old(self).look_at@),
                    old(self).up@,
                    cos_s(angle as int),
                    sin_s(angle as int),
                ),
            ),
            final(self).look_at == old(self).look_at,
            final(self).up == old(self).up,
            final(self).vertical_angle == old(self).vertical_angle,
            final(self).projection == old(self).projection,
    {
        let to_pos: Vec3 = self.position.minus(self.look_at);
        let rotated: Vec3 = rotate_about_axis(to_pos, self.up, angle);
        self.position = self.look_at.plus(rotated);
    }

    /// Orbit tilt: rotates the position about the right axis, pivoting at
    /// the target, with the clamped step applied under an inverted sign —
    /// orbit tilt and look tilt are deliberately mirror-signed.
    pub fn rotate_around_look_vertical(&mut self, angle: i64)
        requires
            cam_wf(*old(self)),
            fwd_ok_s(*old(self)),
            right_ok_s(*old(self)),
            -0x1000000000000000 <= angle <= 0x1000000000000000,
        ensures
            final(self).vertical_angle == old(self).vertical_angle + clamp_rotation_s(
                old(self).vertical_angle as int,
                angle as int,
                V_ANGLE_MIN as int,
                V_ANGLE_MAX as int,
            ),
            V_ANGLE_MIN <= final(self).vertical_angle <= V_ANGLE_MAX,
            final(self).position@ == v3_add_s(
                old(self).look_at@,
                rodrigues_s(
                    v3_sub_s(old(self).position@, old(self).look_at@),
                    right_s(*old(self)),
                    cos_s(
                        -clamp_rotation_s(
                            old(self).vertical_angle as int,
                            angle as int,
                            V_ANGLE_MIN as int,
                            V_ANGLE_MAX as int,
                        ),
                    ),
                    sin_s(
                        -clamp_rotation_s(
                            old(self).vertical_angle as int,
                            angle as int,
                            V_ANGLE_MIN as int,
                            V_ANGLE_MAX as int,
                        ),
                    ),
                ),
            ),
            final(self).look_at == old(self).look_at,
            final(self).up == old(self).up,
            final(self).projection == old(self).projection,
    {
        let to_pos: Vec3 = self.position.minus(self.look_at);
        let delta: i64 = clamp_rotation(self.vertical_angle, angle, V_ANGLE_MIN, V_ANGLE_MAX);
        proof {
            crate::math::lemma_clamp_rotation_in_range(
                self.vertical_angle as int,
                angle as int,
                V_ANGLE_MIN as int,
                V_ANGLE_MAX as int,
            );
        }
        let axis: Vec3 = self.right_vec();
        let rotated: Vec3 = rotate_about_axis(to_pos, axis, -delta);
        self.vertical_angle = self.vertical_angle + delta;
        self.position = self.look_at.plus(rotated);
    }

    /// Converts a linear arc length into the angle it subtends at the
    /// current orbit radius and orbits by it.
    pub fn pos_around_look_with_dis(&mut self, distance: i64)
        requires
            cam_wf(*old(self)),
            orbit_radius_s(*old(self)) != 0,
            -FX_LIM <= distance <= FX_LIM,
        ensures
            final(self).position@ == v3_add_s(
                old(self).look_at@,
                rodrigues_s(
                    v3_sub_s(old(self).position@, old(self).look_at@),
                    old(self).up@,
                    cos_s(fx_div_s(distance as int, orbit_radius_s(*old(self)))),
                    sin_s(fx_div_s(distance as int, orbit_radius_s(*old(self)))),
                ),
            ),
            final(self).look_at == old(self).look_at,
            final(self).up == old(self).up,
            final(self).vertical_angle == old(self).vertical_angle,
            final(self).projection == old(self).projection,
    {
        let to_look: Vec3 = self.look_at.minus(self.position);
        proof {
            lemma_flat_pre_bounds(*self);
        }
        let p: Vec3 = crate::math::project(to_look, self.up);
        let radius: i64 = to_look.minus(p).norm();
        let angle: i64 = fx_div(distance, radius);
        self.rotate_around_look_horizontal(angle);
    }

    /// The matrix of the stored projection.
    pub fn projection_matrix(&self) -> (r: Mat4)
        requires
            proj_wf(self.projection),
            abs_i(persp_cot_part_s(self.projection)) <= FX_LIM as int,
            m4_in_lim(proj_matrix_s(self.projection), MAT_LIM as int),
        ensures
            r@ == proj_matrix_s(self.projection),
    {
        self.projection.as_matrix()
    }

    /// The right-handed look-at matrix of the current viewpoint.
    pub fn look_at_matrix(&self) -> (r: Mat4)
        requires
            cam_wf(*self),
            look_ok_s(*self),
        ensures
            r@ == look_at_matrix_s(*self),
            m4_in_lim(r@, MAT_LIM as int),
    {
        let z: Vec3 = self.position.minus(self.look_at).normalized();
        proof {
            lemma_cross_in_lim(self.up@, z@, 1000000, 1000000, 2000000);
        }
        let x: Vec3 = self.up.cross(z).normalized();
        proof {
            lemma_cross_in_lim(z@, x@, 1000000, 1000000, 2000000);
        }
        let y: Vec3 = z.cross(x);
        proof {
            lemma_dot_bound(x@, self.position@, 1000000, 100000000000, 300000000000);
            lemma_dot_bound(y@, self.position@, 2000000, 100000000000, 600000000000);
            lemma_dot_bound(z@, self.position@, 1000000, 100000000000, 300000000000);
        }
        let tx: i64 = x.dot(self.position);
        let ty: i64 = y.dot(self.position);
        let tz: i64 = z.dot(self.position);
        Mat4 {
            m00: x.x, m01: x.y, m02: x.z, m03: -tx,
            m10: y.x, m11: y.y, m12: y.z, m13: -ty,
            m20: z.x, m21: z.y, m22: z.z, m23: -tz,
            m30: 0, m31: 0, m32: 0, m33: FX_ONE,
        }
    }

    /// The full view transform, recomputed from current state on demand.
    pub fn view_matrix(&self) -> (r: Mat4)
        requires
            cam_wf(*self),
            look_ok_s(*self),
            proj_wf(self.projection),
            abs_i(persp_cot_part_s(self.projection)) <= FX_LIM as int,
            m4_in_lim(proj_matrix_s(self.projection), MAT_LIM as int),
        ensures
            r@ == view_matrix_s(*self),
    {
        self.projection_matrix().times(self.look_at_matrix())
    }

    /// The view transform under a temporary zoom; stored state is untouched.
    pub fn zoomed_view_matrix(&self, scale: i64) -> (r: Mat4)
        requires
            cam_wf(*self),
            look_ok_s(*self),
            proj_wf(self.projection),
            -FX_LIM <= scale <= FX_LIM,
            zoom_ok_s(self.projection, scale as int),
            m4_in_lim(zoomed_matrix_s(self.projection, scale as int), MAT_LIM as int),
        ensures
            r@ == m4_mul_s(
                zoomed_matrix_s(self.projection, scale as int),
                look_at_matrix_s(*self),
            ),
    {
        self.projection.zoomed_matrix(scale).times(self.look_at_matrix())
    }

    /// The inverse view transform, used to reconstruct world positions from
    /// depth in the lighting pass: the look-at inverse in closed form,
    /// composed with the projection's own inverse.
    pub fn inv_view_matrix(&self) -> (r: Mat4)
        requires
            cam_wf(*self),
            look_ok_s(*self),
            proj_wf(self.projection),
            abs_i(persp_cot_part_s(self.projection)) <= FX_LIM as int,
            m4_in_lim(proj_matrix_s(self.projection), MAT_LIM as int),
            persp_nonzero_s(self.projection),
            m4_in_lim(proj_inv_matrix_s(self.projection), MAT_LIM as int),
        ensures
            r@ == m4_mul_s(inv_look_matrix_s(*self), proj_inv_matrix_s(self.projection)),
    {
        let z: Vec3 = self.position.minus(self.look_at).normalized();
        proof {
            lemma_cross_in_lim(self.up@, z@, 1000000, 1000000, 2000000);
        }
        let x: Vec3 = self.up.cross(z).normalized();
        proof {
            lemma_cross_in_lim(z@, x@, 1000000, 1000000, 2000000);
        }
        let y: Vec3 = z.cross(x);
        let li: Mat4 = Mat4 {
            m00: x.x, m01: y.x, m02: z.x, m03: self.position.x,
            m10: x.y, m11: y.y, m12: z.y, m13: self.position.y,
            m20: x.z, m21: y.z, m22: z.z, m23: self.position.z,
            m30: 0, m31: 0, m32: 0, m33: FX_ONE,
        };
        li.times(self.projection.inverse_as_matrix())
    }
}

/// What remains of up after removing its component along the facing
/// direction, before normalisation.
pub open spec fn up_rel_pre_s(c: PCamera) -> V3i {
    v3_sub_s(c.up@, project_s(c.up@, v3_sub_s(c.look_at@, c.position@)))
}


/// Law: from any current tilt, the clamped step lands the tracked
/// vertical angle inside its bounds — so any number of repeated tilt
/// requests, however large, saturates there and never escapes.
pub proof fn lemma_vertical_tilt_saturates(va: int, angle: int)
    ensures
        V_ANGLE_MIN <= va + vert_delta_s(va, angle) <= V_ANGLE_MAX,
{
    crate::math::lemma_clamp_rotation_in_range(
        va,
        -angle,
        V_ANGLE_MIN as int,
        V_ANGLE_MAX as int,
    );
}

/// Law: under an identity-like orthographic projection — the unit box with
/// the near plane at zero and the far plane at one — a camera at the origin
/// looking down the negative third axis with up along the second carries
/// the world origin to the image-space origin with unit weight.
pub proof fn lemma_view_matrix_centers_origin()
    ensures
        ({
            let cam = PCamera {
                vertical_angle: FX_HALF_PI,
                position: Vec3 { x: 0i64, y: 0i64, z: 0i64 },
                look_at: Vec3 { x: 0i64, y: 0i64, z: -1000000i64 },
                up: Vec3 { x: 0i64, y: 1000000i64, z: 0i64 },
                projection: Projection::Orthographic {
                    left: -1000000i64,
                    right: 1000000i64,
                    top: 1000000i64,
                    bottom: -1000000i64,
                    znear: 0i64,
                    zfar: 1000000i64,
                },
            };
            let img = crate::matrix::m4_transform_point_s(
                view_matrix_s(cam),
                V3i { x: 0, y: 0, z: 0 },
            );
            img.x == 0 && img.y == 0 && img.w == FX_ONE
        }),
{
    let cam = PCamera {
        vertical_angle: FX_HALF_PI,
        position: Vec3 { x: 0i64, y: 0i64, z: 0i64 },
        look_at: Vec3 { x: 0i64, y: 0i64, z: -1000000i64 },
        up: Vec3 { x: 0i64, y: 1000000i64, z: 0i64 },
        projection: Projection::Orthographic {
            left: -1000000i64,
            right: 1000000i64,
            top: 1000000i64,
            bottom: -1000000i64,
            znear: 0i64,
            zfar: 1000000i64,
        },
    };
    crate::fixed::lemma_isqrt_unique(1000000000000, 1000000);
    assert(look_z_s(cam) == V3i { x: 0, y: 0, z: 1000000 } && look_x_s(cam) == V3i {
        x: 1000000,
        y: 0,
        z: 0,
    } && look_y_s(cam) == V3i { x: 0, y: 1000000, z: 0 }) by (nonlinear_arith)
        requires
            cam.position@ == (V3i { x: 0, y: 0, z: 0 }),
            cam.look_at@ == (V3i { x: 0, y: 0, z: -1000000 }),
            cam.up@ == (V3i { x: 0, y: 1000000, z: 0 }),
            crate::fixed::isqrt_s(1000000000000) == 1000000,
            FX_ONE == 1000000,
    ;
    let lm = M4i {
        m00: 1000000, m01: 0, m02: 0, m03: 0,
        m10: 0, m11: 1000000, m12: 0, m13: 0,
        m20: 0, m21: 0, m22: 1000000, m23: 0,
        m30: 0, m31: 0, m32: 0, m33: 1000000,
    };
    assert(look_at_matrix_s(cam) == lm) by (nonlinear_arith)
        requires
            look_z_s(cam) == (V3i { x: 0, y: 0, z: 1000000 }),
            look_x_s(cam) == (V3i { x: 1000000, y: 0, z: 0 }),
            look_y_s(cam) == (V3i { x: 0, y: 1000000, z: 0 }),
            cam.position@ == (V3i { x: 0, y: 0, z: 0 }),
            lm == (M4i {
                m00: 1000000, m01: 0, m02: 0, m03: 0,
                m10: 0, m11: 1000000, m12: 0, m13: 0,
                m20: 0, m21: 0, m22: 1000000, m23: 0,
                m30: 0, m31: 0, m32: 0, m33: 1000000,
            }),
            FX_ONE == 1000000,
    ;
    let pm = M4i {
        m00: 1000000, m01: 0, m02: 0, m03: 0,
        m10: 0, m11: 1000000, m12: 0, m13: 0,
        m20: 0, m21: 0, m22: -2000000, m23: -1000000,
        m30: 0, m31: 0, m32: 0, m33: 1000000,
    };
    assert(proj_matrix_s(cam.projection) == pm) by (nonlinear_arith)
        requires
            cam.projection == (Projection::Orthographic {
                left: -1000000i64,
                right: 1000000i64,
                top: 1000000i64,
                bottom: -1000000i64,
                znear: 0i64,
                zfar: 1000000i64,
            }),
            pm == (M4i {
                m00: 1000000, m01: 0, m02: 0, m03: 0,
                m10: 0, m11: 1000000, m12: 0, m13: 0,
                m20: 0, m21: 0, m22: -2000000, m23: -1000000,
                m30: 0, m31: 0, m32: 0, m33: 1000000,
            }),
            FX_ONE == 1000000,
    ;
    let vm = M4i {
        m00: 1000000, m01: 0, m02: 0, m03: 0,
        m10: 0, m11: 1000000, m12: 0, m13: 0,
        m20: 0, m21: 0, m22: -2000000, m23: -1000000,
        m30: 0, m31: 0, m32: 0, m33: 1000000,
    };
    assert(view_matrix_s(cam) == vm) by (nonlinear_arith)
        requires
            look_at_matrix_s(cam) == lm,
            proj_matrix_s(cam.projection) == pm,
            view_matrix_s(cam) == crate::matrix::m4_mul_s(
                proj_matrix_s(cam.projection),
                look_at_matrix_s(cam),
            ),
            lm == (M4i {
                m00: 1000000, m01: 0, m02: 0, m03: 0,
                m10: 0, m11: 1000000, m12: 0, m13: 0,
                m20: 0, m21: 0, m22: 1000000, m23: 0,
                m30: 0, m31: 0, m32: 0, m33: 1000000,
            }),
            pm == (M4i {
                m00: 1000000, m01: 0, m02: 0, m03: 0,
                m10: 0, m11: 1000000, m12: 0, m13: 0,
                m20: 0, m21: 0, m22: -2000000, m23: -1000000,
                m30: 0, m31: 0, m32: 0, m33: 1000000,
            }),
            vm == (M4i {
                m00: 1000000, m01: 0, m02: 0, m03: 0,
                m10: 0, m11: 1000000, m12: 0, m13: 0,
                m20: 0, m21: 0, m22: -2000000, m23: -1000000,
                m30: 0, m31: 0, m32: 0, m33: 1000000,
            }),
            FX_ONE == 1000000,
    ;
    assert(({
        let img = crate::matrix::m4_transform_point_s(view_matrix_s(cam), V3i { x: 0, y: 0, z: 0 });
        img.x == 0 && img.y == 0 && img.w == FX_ONE
    })) by (nonlinear_arith)
        requires
            view_matrix_s(cam) == vm,
            vm == (M4i {
                m00: 1000000, m01: 0, m02: 0, m03: 0,
                m10: 0, m11: 1000000, m12: 0, m13: 0,
                m20: 0, m21: 0, m22: -2000000, m23: -1000000,
                m30: 0, m31: 0, m32: 0, m33: 1000000,
            }),
            FX_ONE == 1000000,
    ;
}

} // verus!
