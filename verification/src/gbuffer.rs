//! The G-buffer bookkeeping and the two-stage frame pass controller.
//!
//! The attachment set records the size of the five render-target images;
//! the invariant that all five share one size, and that a resize replaces
//! them together, is proved here. Allocating the images themselves, clearing
//! them and submitting draw calls belong to the display collaborator; the
//! controller routes each draw to the target that the current stage
//! prescribes and assembles the per-draw uniform values from the camera.

use vstd::prelude::*;
use crate::camera::{
    cam_wf, inv_look_matrix_s, look_ok_s, persp_cot_part_s, persp_nonzero_s,
    proj_inv_matrix_s, proj_matrix_s, proj_wf, view_matrix_s, PCamera,
};
use crate::fixed::{abs_i, FX_LIM};
use crate::math::Vec3;
use crate::matrix::{m4_in_lim, m4_mul_s, Mat4, MAT_LIM};
use crate::render_object::{LightModel, ModelMatrix, PosMatrix, RenderObject};

verus! {

/// The two stages of a deferred frame.
#[derive(Clone, Copy, PartialEq, Eq, Structural, Debug)]
pub enum RenderStage {
    PrePass,
    Lighting,
}

/// Which render target a routed draw call lands on.
#[derive(Clone, Copy, PartialEq, Eq, Structural, Debug)]
pub enum DrawTarget {
    Geometry,
    Light,
}

/// One render-target image, recorded by its size in pixels.
#[derive(Clone, Copy, PartialEq, Eq, Structural, Debug)]
pub struct Attachment {
    pub width: u32,
    pub height: u32,
}

/// The five images of the deferred pipeline, always sized together.
#[derive(Clone, Copy, PartialEq, Eq, Structural, Debug)]
pub struct GBuffer {
    pub diffuse: Attachment,
    pub normal: Attachment,
    pub specular: Attachment,
    pub depth: Attachment,
    pub light: Attachment,
}

/// All five attachments share one size.
pub open spec fn gbuffer_wf(g: GBuffer) -> bool {
    g.diffuse == g.normal && g.diffuse == g.specular && g.diffuse == g.depth && g.diffuse
        == g.light
}

/// The multi-output binding of the geometry pre-pass.
#[derive(Clone, Copy, PartialEq, Eq, Structural, Debug)]
pub struct PrepassTarget {
    pub diffuse: Attachment,
    pub normal: Attachment,
    pub specular: Attachment,
    pub depth: Attachment,
}

/// The single-output binding of the lighting pass, sharing the pre-pass
/// depth so light volumes are depth-bounded.
#[derive(Clone, Copy, PartialEq, Eq, Structural, Debug)]
pub struct LightTarget {
    pub light: Attachment,
    pub depth: Attachment,
}

impl GBuffer {
    /// Five same-sized attachments for the given viewport.
    pub fn with_dimensions(dimensions: (u32, u32)) -> (r: GBuffer)
        ensures
            r.diffuse == (Attachment { width: dimensions.0, height: dimensions.1 }),
            gbuffer_wf(r),
    {
        let a = Attachment { width: dimensions.0, height: dimensions.1 };
        GBuffer { diffuse: a, normal: a, specular: a, depth: a, light: a }
    }

    /// Replaces the whole attachment set atomically: afterwards every one of
    /// the five reports the new size and nothing of the old size remains.
    pub fn resize(&mut self, dimensions: (u32, u32))
        ensures
            final(self).diffuse == (Attachment { width: dimensions.0, height: dimensions.1 }),
            gbuffer_wf(*final(self)),
    {
        *self = GBuffer::with_dimensions(dimensions);
    }

    /// Binds diffuse, normal and specular as simultaneous colour outputs
    /// with the shared depth attachment.
    pub fn framebuffer(&self) -> (r: PrepassTarget)
        ensures
            r.diffuse == self.diffuse,
            r.normal == self.normal,
            r.specular == self.specular,
            r.depth == self.depth,
    {
        PrepassTarget {
            diffuse: self.diffuse,
            normal: self.normal,
            specular: self.specular,
            depth: self.depth,
        }
    }

    /// Binds the light accumulation image with the shared depth attachment.
    pub fn lightbuffer(&self) -> (r: LightTarget)
        ensures
            r.light == self.light,
            r.depth == self.depth,
    {
        LightTarget { light: self.light, depth: self.depth }
    }
}

/// The uniform values of one pre-pass object draw.
pub struct ObjectUniforms {
    pub view: Mat4,
    pub model: Mat4,
    pub normal_map: u64,
    pub depth_map: u64,
    pub diffuse_map: u64,
    pub specular_map: u64,
    pub depth_scale: i64,
    pub eye: Vec3,
}

/// The uniform values of one lighting-pass light-volume draw; `t1` and `t2`
/// are the two projection entries the shader uses to linearise depth.
pub struct LightUniforms {
    pub view: Mat4,
    pub model: Mat4,
    pub normal_tex: Attachment,
    pub depth_tex: Attachment,
    pub diffuse_tex: Attachment,
    pub specular_tex: Attachment,
    pub eye: Vec3,
    pub inv_projection: Mat4,
    pub shininess: i64,
    pub t1: i64,
    pub t2: i64,
    pub light_pos: Vec3,
    pub light_colour: Vec3,
}

/// A routed object draw, ready for the display collaborator to submit.
pub struct ObjectDraw {
    pub target: DrawTarget,
    pub buffer: u64,
    pub program: u64,
    pub uniforms: ObjectUniforms,
}

/// A routed light-volume draw.
pub struct LightDraw {
    pub target: DrawTarget,
    pub buffer: u64,
    pub program: u64,
    pub uniforms: LightUniforms,
}

/// The frame pass controller: the two render-target bindings and the stage
/// that routes each draw call.
pub struct FrameBuffers {
    pub framebuffer: PrepassTarget,
    pub lightbuffer: LightTarget,
    pub stage: RenderStage,
}

/// The target that a stage routes to.
pub open spec fn route_s(stage: RenderStage) -> DrawTarget {
    match stage {
        RenderStage::PrePass => DrawTarget::Geometry,
        RenderStage::Lighting => DrawTarget::Light,
    }
}

impl FrameBuffers {
    /// The current routing stage.
    pub open spec fn stage_s(&self) -> RenderStage {
        self.stage
    }

    /// Builds the controller over a G-buffer, starting in the pre-pass.
    pub fn new(gbuffer: &GBuffer) -> (r: FrameBuffers)
        ensures
            r.stage_s() == RenderStage::PrePass,
            r.framebuffer.diffuse == gbuffer.diffuse,
            r.framebuffer.normal == gbuffer.normal,
            r.framebuffer.specular == gbuffer.specular,
            r.framebuffer.depth == gbuffer.depth,
            r.lightbuffer.light == gbuffer.light,
            r.lightbuffer.depth == gbuffer.depth,
    {
        FrameBuffers {
            framebuffer: gbuffer.framebuffer(),
            lightbuffer: gbuffer.lightbuffer(),
            stage: RenderStage::PrePass,
        }
    }

    /// Reads the current stage.
    pub fn stage(&self) -> (r: RenderStage)
        ensures
            r == self.stage_s(),
    {
        self.stage
    }

    /// Starts a frame: the targets are to be cleared by the display
    /// collaborator, and the stage returns to the pre-pass.
    pub fn reset(&mut self)
        ensures
            final(self).stage_s() == RenderStage::PrePass,
            final(self).framebuffer == old(self).framebuffer,
            final(self).lightbuffer == old(self).lightbuffer,
    {
        self.stage = RenderStage::PrePass;
    }

    /// Routes a generic draw call to the target of the current stage.
    pub fn draw(&mut self, buffer: u64, program: u64) -> (t: DrawTarget)
        ensures
            t == route_s(old(self).stage_s()),
            *final(self) == *old(self),
    {
        match self.stage {
            RenderStage::PrePass => DrawTarget::Geometry,
            RenderStage::Lighting => DrawTarget::Light,
        }
    }

    /// Assembles the pre-pass uniform set of one object — view matrix,
    /// model matrix, material textures, depth scale and eye position — and
    /// routes the draw.
    pub fn draw_object<T: ModelMatrix>(
        &mut self,
        render_object: &RenderObject<T>,
        camera: &PCamera,
        program: u64,
    ) -> (r: ObjectDraw)
        requires
            cam_wf(*camera),
            look_ok_s(*camera),
            proj_wf(camera.projection),
            abs_i(persp_cot_part_s(camera.projection)) <= FX_LIM as int,
            m4_in_lim(proj_matrix_s(camera.projection), MAT_LIM as int),
        ensures
            r.target == route_s(old(self).stage_s()),
            r.buffer == render_object.buffer,
            r.program == program,
            r.uniforms.view@ == view_matrix_s(*camera),
            r.uniforms.model@ == render_object.model_matrix.spec_matrix(),
            r.uniforms.normal_map == render_object.normal_tex,
            r.uniforms.depth_map == render_object.depth_tex,
            r.uniforms.diffuse_map == render_object.diffuse_tex,
            r.uniforms.specular_map == render_object.specular_tex,
            r.uniforms.depth_scale == render_object.depth_scale,
            r.uniforms.eye == camera.position,
            *final(self) == *old(self),
    {
        let uniforms = ObjectUniforms {
            view: camera.view_matrix(),
            model: render_object.model_matrix.matrix(),
            normal_map: render_object.normal_tex,
            depth_map: render_object.depth_tex,
            diffuse_map: render_object.diffuse_tex,
            specular_map: render_object.specular_tex,
            depth_scale: render_object.depth_scale,
            eye: camera.position,
        };
        let target = self.draw(render_object.buffer, program);
        ObjectDraw { target, buffer: render_object.buffer, program, uniforms }
    }

    /// Assembles the lighting-pass uniform set of one light volume — the
    /// combined view transform, the volume's model matrix, the four
    /// G-buffer images as samplers, the eye, the inverse view transform,
    /// the two depth-linearisation entries and the light's position and
    /// colour — and routes the draw.
    pub fn draw_light<T: PosMatrix>(
        &mut self,
        shininess: i64,
        light: &LightModel<T>,
        camera: &PCamera,
        program: u64,
        gbuffer: &GBuffer,
    ) -> (r: LightDraw)
        requires
            cam_wf(*camera),
            look_ok_s(*camera),
            proj_wf(camera.projection),
            abs_i(persp_cot_part_s(camera.projection)) <= FX_LIM as int,
            m4_in_lim(proj_matrix_s(camera.projection), MAT_LIM as int),
            persp_nonzero_s(camera.projection),
            m4_in_lim(proj_inv_matrix_s(camera.projection), MAT_LIM as int),
        ensures
            r.target == route_s(old(self).stage_s()),
            r.buffer == light.buffer,
            r.program == program,
            r.uniforms.view@ == view_matrix_s(*camera),
            r.uniforms.model@ == light.position.spec_matrix(),
            r.uniforms.normal_tex == gbuffer.normal,
            r.uniforms.depth_tex == gbuffer.depth,
            r.uniforms.diffuse_tex == gbuffer.diffuse,
            r.uniforms.specular_tex == gbuffer.specular,
            r.uniforms.eye == camera.position,
            r.uniforms.inv_projection@ == m4_mul_s(
                inv_look_matrix_s(*camera),
                proj_inv_matrix_s(camera.projection),
            ),
            r.uniforms.shininess == shininess,
            r.uniforms.t1 as int == proj_matrix_s(camera.projection).m22,
            r.uniforms.t2 as int == proj_matrix_s(camera.projection).m23,
            r.uniforms.light_pos@ == light.position.spec_position(),
            r.uniforms.light_colour == light.colour,
            *final(self) == *old(self),
    {
        let perspective_mat: Mat4 = camera.projection_matrix();
        let look_at_mat: Mat4 = camera.look_at_matrix();
        let uniforms = LightUniforms {
            view: perspective_mat.times(look_at_mat),
            model: light.position.matrix(),
            normal_tex: gbuffer.normal,
            depth_tex: gbuffer.depth,
            diffuse_tex: gbuffer.diffuse,
            specular_tex: gbuffer.specular,
            eye: camera.position,
            inv_projection: camera.inv_view_matrix(),
            shininess,
            t1: perspective_mat.m22,
            t2: perspective_mat.m23,
            light_pos: light.position.position(),
            light_colour: light.colour,
        };
        let target = self.draw(light.buffer, program);
        LightDraw { target, buffer: light.buffer, program, uniforms }
    }

    /// Returns the controller to the start of the sequence. The engine has
    /// exactly two stages and no forward-only progression: this operation is
    /// a reset-to-start, whatever the current stage.
    pub fn next_stage(&mut self)
        ensures
            final(self).stage_s() == RenderStage::PrePass,
            final(self).framebuffer == old(self).framebuffer,
            final(self).lightbuffer == old(self).lightbuffer,
    {
        self.stage = RenderStage::PrePass;
    }
}

} // verus!
