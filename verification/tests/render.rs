use dust::camera::Camera;
use dust::gbuffer::{Fragment, Sample};
use dust::light::{AmbientLight, BaseLight, SpotLight};
use dust::math::{Color, Vec3, MAX_DIM};
use dust::mirror::{render_frame, MirrorCompositor};
use dust::pipeline::{DeferredPipeline, Phase};
use dust::screen::Screen;
use dust::state::{BlendType, RenderState};
use dust::traits::{DrawInput, Error, Reflecting};

fn test_camera() -> Camera {
    Camera {
        position: Vec3 { x: 5000, y: 5000, z: 5000 },
        target: Vec3 { x: 0, y: 1000, z: 0 },
        up: Vec3 { x: 0, y: 1000, z: 0 },
        aspect: 1000,
        fov: 785,
        near: 100,
        far: 1_000_000,
    }
}

fn fragment_at(pixel: usize, diffuse: Color, depth: i64) -> Fragment {
    Fragment {
        pixel,
        sample: Sample {
            position: Vec3 { x: 0, y: 0, z: 0 },
            normal: Vec3 { x: 0, y: 1000, z: 0 },
            diffuse,
            specular: 0,
            depth,
        },
    }
}

struct QuadScene {
    diffuse: Color,
}

impl Reflecting for QuadScene {
    fn reflect(&self, _input: &DrawInput) -> Result<Vec<Fragment>, Error> {
        Ok(vec![
            fragment_at(0, self.diffuse, 100),
            fragment_at(1, self.diffuse, 100),
            fragment_at(2, self.diffuse, 100),
            fragment_at(3, self.diffuse, 100),
        ])
    }
}

struct BrokenScene;

impl Reflecting for BrokenScene {
    fn reflect(&self, _input: &DrawInput) -> Result<Vec<Fragment>, Error> {
        Err(Error::Shader)
    }
}

#[test]
fn blend_pixel_mixes_by_alpha() {
    let dst = Color { r: 200, g: 0, b: 1000 };
    let src = Color { r: 1000, g: 0, b: 0 };
    assert_eq!(dust::mirror::blend_pixel(dst, src, 500), Color { r: 600, g: 0, b: 500 });
    assert_eq!(dust::mirror::blend_pixel(dst, src, 0), dst);
    // An opacity beyond full is clamped to the source colour.
    assert_eq!(dust::mirror::blend_pixel(dst, src, 2000), src);
}

#[test]
fn pipeline_creation_checks_extents() {
    assert!(DeferredPipeline::new(2, 2, false).is_ok());
    assert!(matches!(DeferredPipeline::new(0, 2, false), Err(Error::Resource)));
    assert!(matches!(DeferredPipeline::new(2, MAX_DIM + 1, false), Err(Error::Resource)));
    let screen = Screen { width: 900, height: 700 };
    let p = DeferredPipeline::create(&screen, false).unwrap();
    assert_eq!(p.target.width, 900);
    assert_eq!(p.target.height, 700);
    assert!(p.target.has_color);
    let m = DeferredPipeline::new(450, 350, true).unwrap();
    assert!(!m.target.has_color);
}

#[test]
fn light_pass_before_geometry_pass_fails_with_state_error() {
    let mut p = DeferredPipeline::new(2, 2, false).unwrap();
    let cam = test_camera();
    assert_eq!(p.light_pass_begin(&cam), Err(Error::State));
    assert_eq!(p.phase, Phase::Idle);
    assert_eq!(p.shine_ambient_light(&AmbientLight::new()), Err(Error::State));
}

#[test]
fn draw_outside_geometry_pass_fails_with_state_error() {
    let mut p = DeferredPipeline::new(2, 2, false).unwrap();
    assert_eq!(p.draw(&Vec::new()), Err(Error::State));
    p.geometry_pass_begin().unwrap();
    assert_eq!(p.draw(&Vec::new()), Ok(()));
}

#[test]
fn light_pass_color_texture_needs_a_light_pass_first() {
    let mut p = DeferredPipeline::new(2, 2, false).unwrap();
    assert!(matches!(p.light_pass_color_texture(), Err(Error::State)));
    p.geometry_pass_begin().unwrap();
    assert!(matches!(p.light_pass_color_texture(), Err(Error::State)));
    let cam = test_camera();
    p.light_pass_begin(&cam).unwrap();
    let tex = p.light_pass_color_texture().unwrap();
    assert_eq!(tex.len(), 4);
}

#[test]
fn depth_test_keeps_the_nearer_fragment() {
    let mut p = DeferredPipeline::new(2, 2, false).unwrap();
    p.geometry_pass_begin().unwrap();
    let far = fragment_at(0, Color { r: 100, g: 0, b: 0 }, 900);
    let near = fragment_at(0, Color { r: 700, g: 0, b: 0 }, 200);
    p.draw(&vec![far, near]).unwrap();
    assert_eq!(p.target.samples[0].unwrap().diffuse.r, 700);
    // Drawn the other way round, the nearer fragment still wins.
    p.geometry_pass_begin().unwrap();
    p.draw(&vec![near, far]).unwrap();
    assert_eq!(p.target.samples[0].unwrap().diffuse.r, 700);
}

#[test]
fn out_of_range_fragments_are_clipped() {
    let mut p = DeferredPipeline::new(2, 2, false).unwrap();
    p.geometry_pass_begin().unwrap();
    let outside = fragment_at(4, Color { r: 100, g: 0, b: 0 }, 100);
    let mut malformed = fragment_at(1, Color { r: 100, g: 0, b: 0 }, 100);
    malformed.sample.position.x = i64::MAX;
    p.draw(&vec![outside, malformed]).unwrap();
    assert!(p.target.samples.iter().all(|s| s.is_none()));
}

#[test]
fn ambient_only_light_pass_yields_intensity_times_diffuse() {
    let mut p = DeferredPipeline::new(2, 2, false).unwrap();
    p.geometry_pass_begin().unwrap();
    p.draw(&vec![fragment_at(0, Color { r: 1000, g: 500, b: 250 }, 100)]).unwrap();
    let cam = test_camera();
    p.light_pass_begin(&cam).unwrap();
    let ambient = AmbientLight { base: BaseLight { intensity: 200 } };
    p.shine_ambient_light(&ambient).unwrap();
    assert_eq!(p.output[0], Color { r: 200, g: 100, b: 50 });
    // Pixels the geometry buffer holds no sample for stay black.
    assert_eq!(p.output[1], Color { r: 0, g: 0, b: 0 });
    assert_eq!(p.render_state.blend, BlendType::Additive);
}

#[test]
fn light_contributions_accumulate_and_saturate() {
    let mut p = DeferredPipeline::new(1, 1, false).unwrap();
    p.geometry_pass_begin().unwrap();
    p.draw(&vec![fragment_at(0, Color { r: 1000, g: 100, b: 0 }, 100)]).unwrap();
    let cam = test_camera();
    p.light_pass_begin(&cam).unwrap();
    let strong = AmbientLight { base: BaseLight { intensity: 600 } };
    p.shine_ambient_light(&strong).unwrap();
    p.shine_ambient_light(&strong).unwrap();
    // 600 + 600 saturates at full brightness; 60 + 60 does not.
    assert_eq!(p.output[0], Color { r: 1000, g: 120, b: 0 });
}

#[test]
fn composite_blends_mirror_texture_and_restores_state() {
    let mut primary = DeferredPipeline::new(2, 2, false).unwrap();
    let mut mirror = MirrorCompositor::create(1, 1).unwrap();
    let cam = test_camera();
    let scene = QuadScene { diffuse: Color { r: 1000, g: 0, b: 0 } };
    let frags = scene.reflect(&DrawInput { camera: cam, sample: None, shadow_bias: 50 }).unwrap();

    mirror.pipeline.geometry_pass_begin().unwrap();
    mirror.pipeline.draw(&frags).unwrap();
    mirror.pipeline.light_pass_begin(&cam).unwrap();
    let full = AmbientLight { base: BaseLight { intensity: 1000 } };
    mirror.pipeline.shine_ambient_light(&full).unwrap();
    assert_eq!(mirror.pipeline.output[0], Color { r: 1000, g: 0, b: 0 });

    primary.geometry_pass_begin().unwrap();
    primary.draw(&frags).unwrap();
    primary.light_pass_begin(&cam).unwrap();
    let dim = AmbientLight { base: BaseLight { intensity: 200 } };
    primary.shine_ambient_light(&dim).unwrap();
    assert_eq!(primary.output[0], Color { r: 200, g: 0, b: 0 });

    mirror.composite(&mut primary).unwrap();
    // Half the mirror colour over half the frame colour: (500 * 1000 +
    // 500 * 200) / 1000 = 600, on every pixel of the 2x2 frame.
    for j in 0..4 {
        assert_eq!(primary.output[j], Color { r: 600, g: 0, b: 0 });
    }
    assert_eq!(primary.render_state, RenderState::default());
    assert_eq!(primary.render_state.blend, BlendType::Disabled);
}

#[test]
fn composite_without_mirror_light_pass_fails() {
    let mut primary = DeferredPipeline::new(2, 2, false).unwrap();
    let mirror = MirrorCompositor::create(1, 1).unwrap();
    let cam = test_camera();
    primary.geometry_pass_begin().unwrap();
    primary.light_pass_begin(&cam).unwrap();
    assert_eq!(mirror.composite(&mut primary), Err(Error::State));
}

#[test]
fn one_frame_runs_each_pass_the_documented_number_of_times() {
    let screen = Screen { width: 8, height: 8 };
    let mut primary = DeferredPipeline::create(&screen, false).unwrap();
    let mut mirror = MirrorCompositor::create(4, 4).unwrap();
    let mut camera = test_camera();
    let before = camera;
    let ambient = AmbientLight { base: BaseLight { intensity: 200 } };
    let mut spot = SpotLight::new(
        Vec3 { x: 5000, y: 5000, z: 5000 },
        Vec3 { x: -1000, y: -1000, z: -1000 },
    );
    spot.base.intensity = 500;
    spot.enable_shadows(1024, 20_000).unwrap();
    let mut spots = vec![spot];
    let scene = QuadScene { diffuse: Color { r: 800, g: 800, b: 800 } };

    let report = render_frame(
        &scene,
        &mut camera,
        &mut primary,
        &mut mirror,
        &ambient,
        &mut spots,
    )
    .unwrap();

    assert_eq!(report.shadow_passes, 1);
    assert_eq!(report.geometry_passes, 2);
    assert_eq!(report.light_passes, 2);
    assert_eq!(report.blend_composites, 1);
    assert_eq!(camera, before);
    assert_eq!(primary.render_state, RenderState::default());
    assert_eq!(primary.render_state.blend, BlendType::Disabled);
    assert_eq!(spots.len(), 1);
    assert!(spots[0].shadow.is_some());
}

#[test]
fn frame_without_shadowed_lights_runs_no_shadow_pass() {
    let mut primary = DeferredPipeline::new(4, 4, false).unwrap();
    let mut mirror = MirrorCompositor::create(2, 2).unwrap();
    let mut camera = test_camera();
    let ambient = AmbientLight::new();
    let mut spots = vec![
        SpotLight::new(Vec3 { x: 0, y: 2000, z: 0 }, Vec3 { x: 0, y: -1000, z: 0 }),
        SpotLight::new(Vec3 { x: 0, y: 3000, z: 0 }, Vec3 { x: 0, y: -1000, z: 0 }),
    ];
    let scene = QuadScene { diffuse: Color { r: 800, g: 800, b: 800 } };
    let report =
        render_frame(&scene, &mut camera, &mut primary, &mut mirror, &ambient, &mut spots)
            .unwrap();
    assert_eq!(report.shadow_passes, 0);
    assert_eq!(report.geometry_passes, 2);
    assert_eq!(spots.len(), 2);
}

#[test]
fn failing_scene_aborts_the_frame_and_restores_the_camera() {
    let mut primary = DeferredPipeline::new(4, 4, false).unwrap();
    let mut mirror = MirrorCompositor::create(2, 2).unwrap();
    let mut camera = test_camera();
    let before = camera;
    let ambient = AmbientLight::new();
    let mut spot = SpotLight::new(Vec3 { x: 0, y: 2000, z: 0 }, Vec3 { x: 0, y: -1000, z: 0 });
    spot.enable_shadows(16, 20_000).unwrap();
    let mut spots = vec![spot];
    let report = render_frame(
        &BrokenScene,
        &mut camera,
        &mut primary,
        &mut mirror,
        &ambient,
        &mut spots,
    );
    assert_eq!(report.unwrap_err(), Error::Shader);
    assert_eq!(camera, before);
    assert_eq!(spots.len(), 1);
}
