//! Scene model, command dispatch and renderer tests.

use cloudscape::cloud::Cloud;
use cloudscape::color::{lerp_color, Rgba8};
use cloudscape::command::{CameraCommand, Command, SceneCommand};
use cloudscape::fixed::FX_ONE;
use cloudscape::noise::{generate, WorleyBuilder};
use cloudscape::render::{grid_lines, render_pixel, wireframe_segments};
use cloudscape::scene::{Component, Grid, ManagerSolution, Sun};
use cloudscape::vec3::{Vec3, Vec4};

fn fx(v: f64) -> i64 {
    (v * 1_000_000.0).round() as i64
}

fn v3(x: f64, y: f64, z: f64) -> Vec3 {
    Vec3 { x: fx(x), y: fx(y), z: fx(z) }
}

fn manager_with_cloud(name: &str) -> ManagerSolution {
    let mut m = ManagerSolution::new();
    m.scene_manager.scene.add_object(String::from(name), Component::Cloud(Cloud::default()));
    m
}

fn cloud_of<'a>(m: &'a ManagerSolution, name: &str) -> &'a Cloud {
    let components = m.scene_manager.scene.get_object(&String::from(name)).unwrap();
    match &components[0] {
        Component::Cloud(c) => c,
        _ => panic!("expected a cloud"),
    }
}

#[test]
fn scene_add_and_get_and_remove() {
    let mut m = ManagerSolution::new();
    let name = String::from("sky");
    m.scene_manager.scene.add_object(name.clone(), Component::Sun(Sun { distance: fx(10.0), angle: 0 }));
    m.scene_manager.scene.add_object(name.clone(), Component::Grid(Grid { k: 2, scale: fx(5.0) }));
    let got = m.scene_manager.scene.get_object(&name).unwrap();
    assert_eq!(got.len(), 2);
    assert!(m.scene_manager.scene.get_object(&String::from("absent")).is_none());
    m.scene_manager.scene.remove(&name);
    assert!(m.scene_manager.scene.get_object(&name).is_none());
}

#[test]
fn set_command_overwrites_one_cloud_parameter() {
    let mut m = manager_with_cloud("cloud");
    SceneCommand::SetCloudScale(String::from("cloud"), fx(2.5)).exec(&mut m);
    assert_eq!(cloud_of(&m, "cloud").cloud_scale, fx(2.5));
    assert_eq!(cloud_of(&m, "cloud").density_threshold, 200_000);
}

#[test]
fn set_command_on_unknown_name_is_a_no_op() {
    let mut m = manager_with_cloud("cloud");
    SceneCommand::SetDensityMultiplier(String::from("elsewhere"), fx(9.0)).exec(&mut m);
    assert_eq!(cloud_of(&m, "cloud").density_multiplier, fx(1.0));
}

#[test]
fn set_command_is_idempotent_on_concrete_values() {
    let mut once = manager_with_cloud("cloud");
    SceneCommand::SetDarknessThreshold(String::from("cloud"), fx(0.4)).exec(&mut once);
    let mut twice = manager_with_cloud("cloud");
    SceneCommand::SetDarknessThreshold(String::from("cloud"), fx(0.4)).exec(&mut twice);
    SceneCommand::SetDarknessThreshold(String::from("cloud"), fx(0.4)).exec(&mut twice);
    assert_eq!(cloud_of(&once, "cloud").darkness_threshold, fx(0.4));
    assert_eq!(
        cloud_of(&once, "cloud").darkness_threshold,
        cloud_of(&twice, "cloud").darkness_threshold,
    );
    assert_eq!(cloud_of(&once, "cloud").cloud_scale, cloud_of(&twice, "cloud").cloud_scale);
}

#[test]
fn sun_commands_overwrite_distance_and_angle() {
    let mut m = ManagerSolution::new();
    let name = String::from("sun");
    m.scene_manager.scene.add_object(name.clone(), Component::Sun(Sun { distance: 0, angle: fx(0.5) }));
    SceneCommand::SetSunDistance(name.clone(), fx(20.0)).exec(&mut m);
    SceneCommand::SetSunAngle(name.clone(), fx(0.25)).exec(&mut m);
    SceneCommand::SetSunAngle(name.clone(), fx(0.25)).exec(&mut m);
    let got = m.scene_manager.scene.get_object(&name).unwrap();
    match &got[0] {
        Component::Sun(s) => {
            assert_eq!(s.distance, fx(20.0));
            assert_eq!(s.angle, fx(0.25), "setting the angle twice equals setting it once");
        },
        _ => panic!("expected the sun"),
    }
}

#[test]
fn remove_object_command_drops_the_named_slot() {
    let mut m = manager_with_cloud("cloud");
    m.scene_manager.scene.add_object(
        String::from("sun"),
        Component::Sun(Sun { distance: fx(10.0), angle: 0 }),
    );
    SceneCommand::RemoveObject(String::from("cloud")).exec(&mut m);
    assert!(m.scene_manager.scene.get_object(&String::from("cloud")).is_none());
    assert!(m.scene_manager.scene.get_object(&String::from("sun")).is_some());
    SceneCommand::RemoveObject(String::from("absent")).exec(&mut m);
    assert!(m.scene_manager.scene.get_object(&String::from("sun")).is_some());
}

#[test]
fn set_noise_rebuilds_the_volume_from_the_builder() {
    let mut m = manager_with_cloud("cloud");
    let builder = WorleyBuilder {
        seed: 77,
        resolution: 4,
        frequency: Vec4 { x: fx(1.0), y: fx(2.0), z: fx(3.0), w: fx(4.0) },
        octaves: 2,
        persistence: fx(0.5),
    };
    SceneCommand::SetNoise(String::from("cloud"), builder).exec(&mut m);
    let c = cloud_of(&m, "cloud");
    assert_eq!(c.shape_builder, builder);
    assert_eq!(c.shape_volume.resolution, 4);
    let again = generate(&builder);
    assert_eq!(c.shape_volume.data, again.data, "regeneration is deterministic");
    let mut more_octaves = builder;
    more_octaves.octaves = builder.octaves + 1;
    assert_ne!(
        generate(&more_octaves).data[0],
        again.data[0],
        "the octave count shapes the rebuilt field",
    );
    let mut other_persistence = builder;
    other_persistence.persistence = builder.persistence + 1;
    assert_ne!(
        generate(&other_persistence).data[0],
        again.data[0],
        "the persistence shapes the rebuilt field",
    );
}

#[test]
fn add_object_command_appends_components() {
    let mut m = manager_with_cloud("cloud");
    SceneCommand::AddObject(
        String::from("cloud"),
        Component::BoundingBox(cloudscape::bounding_box::BoundingBox::from_two_pos(
            v3(-1.0, 0.0, -1.0),
            v3(1.0, 1.0, 1.0),
        )),
    ).exec(&mut m);
    let got = m.scene_manager.scene.get_object(&String::from("cloud")).unwrap();
    assert_eq!(got.len(), 2);
}

#[test]
fn camera_commands_drive_the_camera_and_reject_overflow() {
    let mut m = ManagerSolution::new();
    CameraCommand::Pivot(fx(1.0), fx(1.0)).exec(&mut m);
    assert_eq!(m.camera_manager.camera.view.yaw, 5_000);
    CameraCommand::Zoom(fx(1.0)).exec(&mut m);
    assert_eq!(m.camera_manager.camera.view.distance, 10_016_000);
    m.camera_manager.camera.view.pivot.x = i64::MAX;
    let before = m.camera_manager.camera;
    CameraCommand::PanWorld(v3(1.0, 0.0, 0.0)).exec(&mut m);
    assert_eq!(m.camera_manager.camera, before, "an overflowing pan is ignored");
    m.camera_manager.camera.view.pivot.x = 0;
    CameraCommand::PanWorld(v3(1.0, 1.0, 1.0)).exec(&mut m);
    assert_eq!(m.camera_manager.camera.view.pivot, v3(1.0, 1.5, 1.0));
}

#[test]
fn density_is_never_negative_and_light_march_is_bounded() {
    let c = Cloud::default();
    let points = [
        v3(0.0, 1.25, 0.0),
        v3(0.3, 1.1, -0.2),
        v3(-0.9, 1.45, 0.9),
        v3(50.0, -3.0, 8.0),
    ];
    for p in points {
        assert!(c.sample_density(p) >= 0);
        let lt = c.light_march(p, v3(10.0, 10.0, 0.0));
        assert!(c.darkness_threshold <= lt && lt <= FX_ONE);
    }
}

#[test]
fn phase_is_nonnegative_for_physical_parameters() {
    let c = Cloud::default();
    for cos in [-FX_ONE, -500_000, 0, 250_000, FX_ONE] {
        assert!(c.phase(cos) >= 0);
    }
}

#[test]
fn hg_matches_the_isotropic_normalisation() {
    // With no anisotropy the lobe is the uniform sphere density 1 / (4 pi).
    assert_eq!(cloudscape::cloud::hg(0, 0), 79_577);
}

#[test]
fn cloud_miss_renders_a_fully_transparent_pixel() {
    let mut c = Cloud::default();
    c.bounding_box = cloudscape::bounding_box::BoundingBox::from_two_pos(
        v3(-0.5, -0.5, -0.5),
        v3(0.5, 0.5, 0.5),
    );
    let pixel = render_pixel(&c, v3(100.0, 100.0, 100.0), v3(1.0, 0.0, 0.0));
    assert_eq!(pixel, Rgba8 { r: 0, g: 0, b: 0, a: 0 });
}

#[test]
fn cloud_hit_renders_an_opaque_pixel() {
    let c = Cloud::default();
    let pixel = render_pixel(&c, v3(5.0, 1.25, 0.0), v3(-1.0, 0.0, 0.0));
    assert_eq!(pixel.a, 255);
}

#[test]
fn transmittance_never_increases_along_a_march() {
    let mut t = FX_ONE;
    let densities = [0, fx(0.5), fx(2.0), 0, fx(10.0)];
    for d in densities {
        let next = cloudscape::render::march_step(t, d, fx(0.1), fx(0.5));
        assert!(0 <= next && next <= t);
        t = next;
    }
}

#[test]
fn grid_lines_enumerate_the_lattice_and_axes() {
    let g = Grid { k: 2, scale: fx(5.0) };
    let lines = grid_lines(&g);
    assert_eq!(lines.len(), 13);
    assert_eq!(lines[0].a, v3(-5.0, 0.0, -5.0));
    assert_eq!(lines[0].b, v3(5.0, 0.0, -5.0));
    assert_eq!(lines[12].b, v3(5.0, 0.0, 0.0));
}

#[test]
fn wireframe_covers_all_twelve_edges() {
    let bb = cloudscape::bounding_box::BoundingBox::from_two_pos(
        v3(-1.0, 1.0, -1.0),
        v3(1.0, 1.5, 1.0),
    );
    let segs = wireframe_segments(&bb);
    assert_eq!(segs.len(), 12);
    assert_eq!(segs[0].a, v3(-1.0, 1.0, -1.0));
    assert_eq!(segs[0].b, v3(1.0, 1.0, -1.0));
}

#[test]
fn color_lerp_is_channelwise() {
    let a = Rgba8 { r: 0, g: 100, b: 255, a: 255 };
    let b = Rgba8 { r: 255, g: 100, b: 0, a: 255 };
    let mid = lerp_color(a, b, 500_000);
    assert_eq!((mid.r, mid.g, mid.b), (127, 100, 127));
}
