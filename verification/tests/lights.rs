use dust::camera::Camera;
use dust::gbuffer::Sample;
use dust::light::{AmbientLight, BaseLight, SpotLight, SHADOW_NEAR};
use dust::math::{Color, Vec3, DEPTH_MAX, MAX_DIM};
use dust::screen::Screen;
use dust::traits::{DrawInput, Emitting, Error};

fn test_camera() -> Camera {
    Camera {
        position: Vec3 { x: 5000, y: 7000, z: -3000 },
        target: Vec3 { x: 0, y: 1000, z: 0 },
        up: Vec3 { x: 0, y: 1000, z: 0 },
        aspect: 1000,
        fov: 785,
        near: 100,
        far: 100_000,
    }
}

fn flat_sample(diffuse: Color) -> Sample {
    Sample {
        position: Vec3 { x: 0, y: 0, z: 0 },
        normal: Vec3 { x: 0, y: 1000, z: 0 },
        diffuse,
        specular: 0,
        depth: 0,
    }
}

#[test]
fn mirror_twice_restores_camera_exactly() {
    let original = test_camera();
    let mut cam = test_camera();
    cam.mirror_in_xz_plane();
    assert_ne!(cam, original);
    assert_eq!(cam.position, Vec3 { x: 5000, y: -7000, z: -3000 });
    assert_eq!(cam.target, Vec3 { x: 0, y: -1000, z: 0 });
    assert_eq!(cam.up, Vec3 { x: 0, y: -1000, z: 0 });
    cam.mirror_in_xz_plane();
    assert_eq!(cam, original);
}

#[test]
fn screen_aspect_is_scaled_ratio() {
    let screen = Screen { width: 1600, height: 900 };
    assert_eq!(screen.aspect(), 1777);
    let tall = Screen { width: 1, height: 16384 };
    assert_eq!(tall.aspect(), 1);
}

#[test]
fn spot_without_shadows_reports_absence() {
    let mut light = SpotLight::new(
        Vec3 { x: 5000, y: 5000, z: 5000 },
        Vec3 { x: -1000, y: -1000, z: -1000 },
    );
    assert!(light.shadow_camera().is_none());
    assert_eq!(light.shadow_cast_begin(), Err(Error::State));
    assert_eq!(light.shadow_draw(&Vec::new()), Err(Error::State));
}

#[test]
fn enable_shadows_derives_camera_and_target() {
    let mut light = SpotLight::new(
        Vec3 { x: 0, y: 2000, z: 0 },
        Vec3 { x: 0, y: -1000, z: 0 },
    );
    light.enable_shadows(1024, 20_000).unwrap();
    let cam = *light.shadow_camera().unwrap();
    assert_eq!(cam.near, SHADOW_NEAR);
    assert_eq!(cam.far, 20_000);
    assert!(0 < cam.near && cam.near < cam.far);
    assert_eq!(cam.position, Vec3 { x: 0, y: 2000, z: 0 });
    let sc = light.shadow.as_ref().unwrap();
    assert_eq!(sc.resolution, 1024);
    assert_eq!(sc.depth_map.len(), 1024 * 1024);
}

#[test]
fn enable_shadows_twice_fails_with_resource_error() {
    let mut light = SpotLight::new(
        Vec3 { x: 0, y: 2000, z: 0 },
        Vec3 { x: 0, y: -1000, z: 0 },
    );
    assert_eq!(light.enable_shadows(64, 20_000), Ok(()));
    assert_eq!(light.enable_shadows(64, 20_000), Err(Error::Resource));
    assert_eq!(light.shadow.as_ref().unwrap().resolution, 64);
}

#[test]
fn enable_shadows_rejects_bad_parameters() {
    let mut light = SpotLight::new(
        Vec3 { x: 0, y: 2000, z: 0 },
        Vec3 { x: 0, y: -1000, z: 0 },
    );
    assert_eq!(light.enable_shadows(0, 20_000), Err(Error::Resource));
    assert_eq!(light.enable_shadows(MAX_DIM + 1, 20_000), Err(Error::Resource));
    assert_eq!(light.enable_shadows(64, SHADOW_NEAR), Err(Error::Resource));
    assert!(light.shadow.is_none());
}

#[test]
fn ambient_shine_scales_diffuse_only() {
    let ambient = AmbientLight { base: BaseLight { intensity: 200 } };
    let input = DrawInput {
        camera: test_camera(),
        sample: Some(flat_sample(Color { r: 1000, g: 500, b: 0 })),
        shadow_bias: 50,
    };
    assert_eq!(ambient.shine(&input), Ok(Color { r: 200, g: 100, b: 0 }));
    let empty = DrawInput { camera: test_camera(), sample: None, shadow_bias: 50 };
    assert_eq!(ambient.shine(&empty), Ok(Color { r: 0, g: 0, b: 0 }));
}

#[test]
fn ambient_intensity_is_clamped_to_full() {
    let ambient = AmbientLight { base: BaseLight { intensity: 9_999_999 } };
    let input = DrawInput {
        camera: test_camera(),
        sample: Some(flat_sample(Color { r: 600, g: 600, b: 600 })),
        shadow_bias: 50,
    };
    assert_eq!(ambient.shine(&input), Ok(Color { r: 600, g: 600, b: 600 }));
}

#[test]
fn spot_shine_attenuates_with_distance() {
    // A light two units above the sample, shining straight down on an
    // upward-facing surface: full diffuse term, squared distance 4.
    let mut light = SpotLight::new(
        Vec3 { x: 0, y: 2000, z: 0 },
        Vec3 { x: 0, y: -1000, z: 0 },
    );
    light.base.intensity = 500;
    let input = DrawInput {
        camera: test_camera(),
        sample: Some(flat_sample(Color { r: 1000, g: 400, b: 0 })),
        shadow_bias: 50,
    };
    // effective = 500, lambert = 1000, attenuation = 1000 + 4000.
    // r: 500 * 1000 / 1000 = 500; 500 * 1000 / 5000 = 100.
    // g: 500 * 400 / 1000 = 200; 200 * 1000 / 5000 = 40.
    assert_eq!(light.shine(&input), Ok(Color { r: 100, g: 40, b: 0 }));
}

#[test]
fn spot_shine_ignores_surface_facing_away() {
    let mut light = SpotLight::new(
        Vec3 { x: 0, y: 2000, z: 0 },
        Vec3 { x: 0, y: 1000, z: 0 },
    );
    light.base.intensity = 500;
    let input = DrawInput {
        camera: test_camera(),
        sample: Some(flat_sample(Color { r: 1000, g: 1000, b: 1000 })),
        shadow_bias: 50,
    };
    assert_eq!(light.shine(&input), Ok(Color { r: 0, g: 0, b: 0 }));
}

#[test]
fn shadow_map_occludes_shaded_point() {
    let mut light = SpotLight::new(
        Vec3 { x: 0, y: 2000, z: 0 },
        Vec3 { x: 0, y: -1000, z: 0 },
    );
    light.base.intensity = 500;
    light.enable_shadows(4, 20_000).unwrap();
    light.shadow_cast_begin().unwrap();
    let input = DrawInput {
        camera: test_camera(),
        sample: Some(flat_sample(Color { r: 1000, g: 1000, b: 1000 })),
        shadow_bias: 50,
    };
    // An empty shadow map holds only the far sentinel: nothing occludes.
    assert_eq!(light.shine(&input), Ok(Color { r: 100, g: 100, b: 100 }));
    // A blocker half way between the light and the sample writes depth
    // 1000 at the shared texel; the sample sits at depth 2000.
    let blocker = dust::gbuffer::Fragment {
        pixel: 0,
        sample: Sample {
            position: Vec3 { x: 0, y: 1000, z: 0 },
            normal: Vec3 { x: 0, y: 1000, z: 0 },
            diffuse: Color { r: 0, g: 0, b: 0 },
            specular: 0,
            depth: 0,
        },
    };
    light.shadow_draw(&vec![blocker]).unwrap();
    assert_eq!(light.shine(&input), Ok(Color { r: 0, g: 0, b: 0 }));
}

#[test]
fn lambert_term_follows_the_surface_angle() {
    let up = Vec3 { x: 0, y: 1000, z: 0 };
    assert_eq!(dust::light::lambert(up, Vec3 { x: 0, y: -1000, z: 0 }), 1000);
    assert_eq!(dust::light::lambert(up, Vec3 { x: 0, y: 1000, z: 0 }), 0);
    assert_eq!(dust::light::lambert(up, Vec3 { x: 707, y: -707, z: 0 }), 707);
    // Direction coordinates beyond unit scale are clamped first.
    assert_eq!(dust::light::lambert(up, Vec3 { x: 0, y: -5000, z: 0 }), 1000);
}

#[test]
fn attenuation_grows_with_squared_distance() {
    let origin = Vec3 { x: 0, y: 0, z: 0 };
    assert_eq!(dust::light::attenuation(origin, origin), 1000);
    assert_eq!(dust::light::attenuation(origin, Vec3 { x: 0, y: 2000, z: 0 }), 5000);
    assert_eq!(dust::light::attenuation(origin, Vec3 { x: 1000, y: 1000, z: 1000 }), 4000);
}

#[test]
fn shadow_texel_maps_world_xz_onto_the_grid() {
    assert_eq!(dust::light::shadow_texel(Vec3 { x: 0, y: 0, z: 0 }, 4), 10);
    assert_eq!(
        dust::light::shadow_texel(Vec3 { x: -2_000_000, y: 0, z: 2_000_000 }, 4),
        12
    );
    assert_eq!(dust::light::shadow_texel(Vec3 { x: -2_000_000, y: 0, z: -2_000_000 }, 4), 0);
}

#[test]
fn light_depth_projects_onto_the_light_direction() {
    let lpos = Vec3 { x: 0, y: 2000, z: 0 };
    let ldir = Vec3 { x: 0, y: -1000, z: 0 };
    assert_eq!(dust::light::light_depth(Vec3 { x: 0, y: 0, z: 0 }, lpos, ldir), 2000);
    assert_eq!(dust::light::light_depth(Vec3 { x: 0, y: 1000, z: 0 }, lpos, ldir), 1000);
    // A point behind the light never gets a negative depth.
    assert_eq!(dust::light::light_depth(Vec3 { x: 0, y: 3000, z: 0 }, lpos, ldir), 0);
}

#[test]
fn shadow_map_clears_on_next_depth_pass() {
    let mut light = SpotLight::new(
        Vec3 { x: 0, y: 2000, z: 0 },
        Vec3 { x: 0, y: -1000, z: 0 },
    );
    light.enable_shadows(4, 20_000).unwrap();
    light.shadow_cast_begin().unwrap();
    let blocker = dust::gbuffer::Fragment {
        pixel: 0,
        sample: Sample {
            position: Vec3 { x: 0, y: 1000, z: 0 },
            normal: Vec3 { x: 0, y: 1000, z: 0 },
            diffuse: Color { r: 0, g: 0, b: 0 },
            specular: 0,
            depth: 0,
        },
    };
    light.shadow_draw(&vec![blocker]).unwrap();
    assert!(light.shadow.as_ref().unwrap().depth_map.iter().any(|&d| d != DEPTH_MAX));
    light.shadow_cast_begin().unwrap();
    assert!(light.shadow.as_ref().unwrap().depth_map.iter().all(|&d| d == DEPTH_MAX));
}
