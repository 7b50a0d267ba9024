use deferred_camera::camera::{PCamera, Projection};
use deferred_camera::gbuffer::{
    Attachment, DrawTarget, FrameBuffers, GBuffer, RenderStage,
};
use deferred_camera::math::Vec3;
use deferred_camera::matrix::Mat4;
use deferred_camera::render_object::{LightModel, RenderObject, StaticTransform};

fn sample_camera() -> PCamera {
    PCamera::new(
        Vec3::new(0, 0, 5000000),
        Vec3::new(0, 0, 0),
        Vec3::new(0, 1000000, 0),
        Projection::ortho(-1000000, 1000000, 1000000, -1000000, 0, 1000000),
    )
    .unwrap()
}

#[test]
fn resize_replaces_all_five_attachments_together() {
    let mut g = GBuffer::with_dimensions((800, 600));
    g.resize((1920, 1080));
    g.resize((800, 600));
    let expect = Attachment { width: 800, height: 600 };
    assert_eq!(g.diffuse, expect);
    assert_eq!(g.normal, expect);
    assert_eq!(g.specular, expect);
    assert_eq!(g.depth, expect);
    assert_eq!(g.light, expect);
}

#[test]
fn targets_borrow_the_matching_attachments() {
    let g = GBuffer::with_dimensions((640, 480));
    let pre = g.framebuffer();
    assert_eq!(pre.diffuse, g.diffuse);
    assert_eq!(pre.depth, g.depth);
    let light = g.lightbuffer();
    assert_eq!(light.light, g.light);
    assert_eq!(light.depth, g.depth);
}

#[test]
fn the_controller_starts_and_resets_in_the_pre_pass() {
    let g = GBuffer::with_dimensions((320, 240));
    let mut fb = FrameBuffers::new(&g);
    assert_eq!(fb.stage(), RenderStage::PrePass);
    fb.stage = RenderStage::Lighting;
    fb.reset();
    assert_eq!(fb.stage(), RenderStage::PrePass);
}

#[test]
fn draws_are_routed_by_the_current_stage() {
    let g = GBuffer::with_dimensions((320, 240));
    let mut fb = FrameBuffers::new(&g);
    assert_eq!(fb.draw(7, 9), DrawTarget::Geometry);
    fb.stage = RenderStage::Lighting;
    assert_eq!(fb.draw(7, 9), DrawTarget::Light);
}

#[test]
fn next_stage_is_a_reset_to_start() {
    let g = GBuffer::with_dimensions((320, 240));
    let mut fb = FrameBuffers::new(&g);
    fb.stage = RenderStage::Lighting;
    fb.next_stage();
    assert_eq!(fb.stage(), RenderStage::PrePass);
}

#[test]
fn object_draws_carry_the_camera_and_material_uniforms() {
    let cam = sample_camera();
    let model = StaticTransform { matrix: Mat4::identity(), at: Vec3::new(0, 0, 0) };
    let ro = RenderObject::new(model, 11, 21, 22, 23, 24, 500000);
    let g = GBuffer::with_dimensions((320, 240));
    let mut fb = FrameBuffers::new(&g);
    let cmd = fb.draw_object(&ro, &cam, 31);
    assert_eq!(cmd.target, DrawTarget::Geometry);
    assert_eq!(cmd.buffer, 11);
    assert_eq!(cmd.program, 31);
    assert_eq!(cmd.uniforms.view, cam.view_matrix());
    assert_eq!(cmd.uniforms.model, Mat4::identity());
    assert_eq!(cmd.uniforms.diffuse_map, 21);
    assert_eq!(cmd.uniforms.specular_map, 22);
    assert_eq!(cmd.uniforms.normal_map, 23);
    assert_eq!(cmd.uniforms.depth_map, 24);
    assert_eq!(cmd.uniforms.depth_scale, 500000);
    assert_eq!(cmd.uniforms.eye, cam.position);
}

#[test]
fn light_draws_carry_the_depth_linearisation_terms() {
    let cam = sample_camera();
    let volume = StaticTransform { matrix: Mat4::identity(), at: Vec3::new(1000000, 2000000, 0) };
    let light = LightModel::new(volume, Vec3::new(1000000, 500000, 250000), 41);
    let g = GBuffer::with_dimensions((320, 240));
    let mut fb = FrameBuffers::new(&g);
    let pm = cam.projection_matrix();
    let cmd = fb.draw_light(64000000, &light, &cam, 51, &g);
    assert_eq!(cmd.target, DrawTarget::Geometry);
    assert_eq!(cmd.buffer, 41);
    assert_eq!(cmd.uniforms.shininess, 64000000);
    assert_eq!(cmd.uniforms.t1, pm.m22);
    assert_eq!(cmd.uniforms.t2, pm.m23);
    assert_eq!(cmd.uniforms.view, cam.view_matrix());
    assert_eq!(cmd.uniforms.inv_projection, cam.inv_view_matrix());
    assert_eq!(cmd.uniforms.light_pos, Vec3::new(1000000, 2000000, 0));
    assert_eq!(cmd.uniforms.light_colour, Vec3::new(1000000, 500000, 250000));
    assert_eq!(cmd.uniforms.normal_tex, g.normal);
    assert_eq!(cmd.uniforms.depth_tex, g.depth);
    assert_eq!(cmd.uniforms.eye, cam.position);
}
