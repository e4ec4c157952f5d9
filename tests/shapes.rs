use glscene::frame::{frame_commands, frame_sleep, FrameCommand, FRAME_NANOS};
use glscene::scene::{Angles, Fixed3, Scene};
use glscene::shader::{get_current_program, set_current_program, ProgramRegister};
use glscene::scenery::Scenery;
use glscene::shape::{
    uniform_location, Cube, DrawCall, GridPoint, Pyramid, Shape, Sphere, UniformLocations,
    NOT_FOUND, SPHERE_DIVISIONS,
};
use glscene::transform::Step;

fn locations(model: i32) -> UniformLocations {
    UniformLocations { model, view: 1, projection: 2, colour_mode: NOT_FOUND }
}

fn position(p: GridPoint, lats: usize, longs: usize) -> [f32; 3] {
    let theta = std::f32::consts::PI * p.lat as f32 / lats as f32;
    let phi = 2.0 * std::f32::consts::PI * p.long as f32 / longs as f32;
    [phi.cos() * theta.sin(), phi.sin() * theta.sin(), theta.cos()]
}

#[test]
fn sphere_four_by_four_triangle_count() {
    let mesh = Sphere::generate_sphere(4, 4);
    assert_eq!(mesh.len() % 3, 0);
    let triangles = mesh.len() / 3;
    assert_eq!(triangles, 2 * 4 * (4 - 1));
    assert_eq!(triangles, 4 + 2 * 4 * (4 - 2) + 4);
}

#[test]
fn sphere_vertices_lie_on_unit_sphere() {
    let mesh = Sphere::generate_sphere(4, 4);
    for p in &mesh {
        assert!(p.lat <= 4 && p.long < 4);
        let [x, y, z] = position(*p, 4, 4);
        let norm = (x * x + y * y + z * z).sqrt();
        assert!((norm - 1.0).abs() < 1e-5, "{:?} has norm {}", p, norm);
    }
}

#[test]
fn sphere_caps_and_bands_in_order() {
    let g = |lat: usize, long: usize| GridPoint { lat, long };
    let mesh = Sphere::generate_sphere(4, 4);
    assert_eq!(&mesh[0..3], &[g(0, 0), g(1, 0), g(1, 1)]);
    assert_eq!(&mesh[9..12], &[g(0, 0), g(1, 3), g(1, 0)]);
    assert_eq!(&mesh[12..18], &[g(1, 0), g(1, 1), g(2, 0), g(2, 0), g(1, 1), g(2, 1)]);
    let n = mesh.len();
    assert_eq!(&mesh[n - 3..], &[g(3, 3), g(3, 0), g(4, 0)]);
}

#[test]
fn sphere_edge_sizes() {
    assert_eq!(Sphere::generate_sphere(2, 3).len(), 3 * 2 * 3);
    assert!(Sphere::generate_sphere(5, 0).is_empty());
    assert_eq!(Sphere::generate_sphere(80, 80).len(), 3 * 2 * 80 * 79);
}

#[test]
fn draw_issues_shape_buffer_and_count() {
    let cube = Cube::new(3);
    assert_eq!(
        cube.draw(&locations(7)),
        DrawCall { model_location: Some(7), vertex_array: 3, first: 0, count: 36 }
    );
    let pyramid = Pyramid::new(4);
    assert_eq!(pyramid.draw(&locations(7)).count, 18);
    let sphere = Sphere::new(5, 80, 80);
    assert_eq!(sphere.draw(&locations(0)).count, 37_920);
    assert_eq!(sphere.draw(&locations(0)).vertex_array, 5);
}

#[test]
fn draw_is_repeatable() {
    let cube = Cube::new(11);
    let u = locations(2);
    let first = cube.draw(&u);
    let second = cube.draw(&u);
    assert_eq!(first, second);
    let shapes: Vec<Box<dyn Shape>> = vec![Box::new(Cube::new(1)), Box::new(Sphere::new(2, 2, 1))];
    let a: Vec<DrawCall> = shapes.iter().map(|s| s.draw(&u)).collect();
    let b: Vec<DrawCall> = shapes.iter().map(|s| s.draw(&u)).collect();
    assert_eq!(a, b);
}

#[test]
fn missing_model_uniform_is_skipped() {
    let call = Cube::new(1).draw(&locations(NOT_FOUND));
    assert_eq!(call.model_location, None);
    assert_eq!(call.count, 36);
    assert_eq!(uniform_location(-1), None);
    assert_eq!(uniform_location(0), Some(0));
}

#[test]
fn cube_model_order() {
    let mut s = Scene::new();
    s.transform.translation = Fixed3 { x: 100_000, y: 0, z: 0 };
    s.transform.angle = Angles { x: 5, y: 6, z: 7 };
    let scale = s.transform.scale;
    assert_eq!(
        s.left_cube_model(),
        vec![
            Step::Translate(Fixed3 { x: 100_000, y: 0, z: 0 }),
            Step::Translate(Fixed3 { x: -500_000, y: 0, z: 0 }),
            Step::Scale(scale),
            Step::RotateX(-5),
            Step::RotateY(6),
            Step::RotateZ(7),
        ]
    );
    assert_eq!(
        s.right_cube_model(),
        vec![
            Step::Translate(Fixed3 { x: 500_000, y: 0, z: 0 }),
            Step::Scale(scale),
            Step::RotateX(-5),
            Step::RotateY(6),
            Step::RotateZ(7),
        ]
    );
}

#[test]
fn pyramid_and_sphere_models() {
    let mut s = Scene::new();
    s.advance(1_500_000);
    let phase = 1_500_000i128 * 1_000_000;
    assert_eq!(
        s.pyramid_model(),
        vec![
            Step::Translate(Fixed3 { x: 0, y: 0, z: -1_000_000 }),
            Step::BobY { amplitude: 500_000, phase },
            Step::RotateY(phase),
        ]
    );
    assert_eq!(
        s.sphere_model(),
        vec![
            Step::Translate(Fixed3 { x: 0, y: 0, z: -2_000_000 }),
            Step::Scale(Fixed3 { x: 700_000, y: 700_000, z: 700_000 }),
        ]
    );
}

#[test]
fn program_register_is_passed_explicitly() {
    let mut reg = ProgramRegister::new();
    assert_eq!(get_current_program(&reg), 0);
    set_current_program(&mut reg, 42);
    assert_eq!(get_current_program(&reg), 42);
}

#[test]
fn frame_sleep_fills_the_frame() {
    assert_eq!(FRAME_NANOS, 16_666_666);
    assert_eq!(frame_sleep(0), 16_666_666);
    assert_eq!(frame_sleep(6_666_666), 10_000_000);
    assert_eq!(frame_sleep(16_666_666), 0);
    assert_eq!(frame_sleep(40_000_000), 0);
}

#[test]
fn frame_clears_draws_then_presents() {
    let u = UniformLocations { model: 0, view: 1, projection: 2, colour_mode: 3 };
    let frame = frame_commands(9, &u, 1, 2);
    assert_eq!(
        frame,
        vec![
            FrameCommand::Clear,
            FrameCommand::UseProgram(9),
            FrameCommand::SetColourMode { location: 3, value: 1 },
            FrameCommand::SetView { location: 1 },
            FrameCommand::SetProjection { location: 2 },
            FrameCommand::Draw(0),
            FrameCommand::Draw(1),
            FrameCommand::Present,
        ]
    );
}

#[test]
fn frame_skips_unused_uniforms() {
    let u = UniformLocations { model: NOT_FOUND, view: NOT_FOUND, projection: 4, colour_mode: NOT_FOUND };
    let frame = frame_commands(2, &u, 0, 0);
    assert_eq!(
        frame,
        vec![
            FrameCommand::Clear,
            FrameCommand::UseProgram(2),
            FrameCommand::SetProjection { location: 4 },
            FrameCommand::Present,
        ]
    );
}

#[test]
fn sphere_count_follows_its_resolution() {
    for (lats, longs) in [(2usize, 1usize), (4, 4), (7, 3), (80, 80)] {
        let sphere = Sphere::new(1, lats, longs);
        let mesh = Sphere::generate_sphere(lats, longs);
        let call = sphere.draw(&locations(0));
        assert_eq!(call.count as usize, mesh.len());
        assert_eq!(call.count as usize, 6 * longs * (lats - 1));
    }
    assert_eq!(Sphere::new(1, 80, 80).draw(&locations(0)).count, 37_920);
}

#[test]
fn scenery_pairs_each_shape_with_its_model() {
    let scenery = Scenery::new(10, 11, 12, 13);
    let mut scene = Scene::new();
    scene.advance(2_000);
    let u = locations(5);
    let list = scenery.draw_list(&scene, &u);
    assert_eq!(list.len(), 4);
    let expected = [
        (10, 36, scene.left_cube_model()),
        (11, 36, scene.right_cube_model()),
        (12, 18, scene.pyramid_model()),
        (13, 37_920, scene.sphere_model()),
    ];
    for (entry, (vao, count, model)) in list.iter().zip(expected.iter()) {
        assert_eq!(entry.call, DrawCall { model_location: Some(5), vertex_array: *vao, first: 0, count: *count });
        assert_eq!(&entry.model, model);
    }
    assert_eq!(SPHERE_DIVISIONS, 80);
    assert_eq!(list[3].call.count as usize, Sphere::generate_sphere(80, 80).len());
}
