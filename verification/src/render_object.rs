//! Draw inputs supplied by the caller: an object with its material textures
//! and a model transform, and a light volume with its position and colour.
//! Buffers, textures and shader programs are resources of the display
//! collaborator; here they are carried as opaque handles.

use vstd::prelude::*;
use crate::math::{V3i, Vec3};
use crate::matrix::{M4i, Mat4};

verus! {

/// Implemented by callers for whatever produces a model transform.
pub trait ModelMatrix {
    /// The transform this value stands for.
    spec fn spec_matrix(&self) -> M4i;

    fn matrix(&self) -> (m: Mat4)
        ensures
            m@ == self.spec_matrix(),
    ;
}

/// Implemented by callers for light volumes, which also carry a position.
pub trait PosMatrix: ModelMatrix {
    /// The position this value stands for.
    spec fn spec_position(&self) -> V3i;

    fn position(&self) -> (p: Vec3)
        ensures
            p@ == self.spec_position(),
    ;
}

/// An opaque object to draw in the geometry pre-pass.
pub struct RenderObject<T: ModelMatrix> {
    pub model_matrix: T,
    pub buffer: u64,
    pub diffuse_tex: u64,
    pub specular_tex: u64,
    pub normal_tex: u64,
    pub depth_tex: u64,
    pub depth_scale: i64,
}

impl<T: ModelMatrix> RenderObject<T> {
    pub fn new(
        model_matrix: T,
        buffer: u64,
        diffuse_tex: u64,
        specular_tex: u64,
        normal_tex: u64,
        depth_tex: u64,
        depth_scale: i64,
    ) -> (r: RenderObject<T>)
        ensures
            r.buffer == buffer,
            r.diffuse_tex == diffuse_tex,
            r.specular_tex == specular_tex,
            r.normal_tex == normal_tex,
            r.depth_tex == depth_tex,
            r.depth_scale == depth_scale,
            r.model_matrix == model_matrix,
    {
        RenderObject { model_matrix, buffer, diffuse_tex, specular_tex, normal_tex, depth_tex, depth_scale }
    }
}

/// A light volume to draw in the lighting pass.
pub struct LightModel<T: PosMatrix> {
    pub position: T,
    pub colour: Vec3,
    pub buffer: u64,
}

impl<T: PosMatrix> LightModel<T> {
    pub fn new(position: T, colour: Vec3, buffer: u64) -> (r: LightModel<T>)
        ensures
            r.position == position,
            r.colour == colour,
            r.buffer == buffer,
    {
        LightModel { position, colour, buffer }
    }
}

/// A constant transform: a model matrix and a position held as values.
/// The simplest carrier of the transform traits, and the one the tests use.
pub struct StaticTransform {
    pub matrix: Mat4,
    pub at: Vec3,
}

impl ModelMatrix for StaticTransform {
    open spec fn spec_matrix(&self) -> M4i {
        self.matrix@
    }

    fn matrix(&self) -> (m: Mat4) {
        self.matrix
    }
}

impl PosMatrix for StaticTransform {
    open spec fn spec_position(&self) -> V3i {
        self.at@
    }

    fn position(&self) -> (p: Vec3) {
        self.at
    }
}

} // verus!
