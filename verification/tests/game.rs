use racing_engine::bits::{QuatBits, Vec3Bits};
use racing_engine::ecs::components::{
    Camera, DirectionalLight, MeshPrimitive, PointLight, Transform,
};
use racing_engine::ecs::world::World;
use racing_engine::game::{create_demo_scene, DemoScene, DemoSceneInputs};

fn inputs() -> DemoSceneInputs {
    let len = (1.0f32 + 4.0 + 1.0).sqrt();
    let mut primitives = [Transform::identity(); 8];
    for (i, t) in primitives.iter_mut().enumerate() {
        t.position.x = (i as f32 - 3.5).to_bits();
        t.position.y = 3.0f32.to_bits();
    }
    DemoSceneInputs {
        sun_direction: Vec3Bits::new((-1.0 / len).to_bits(), (-2.0 / len).to_bits(), (-1.0 / len).to_bits()),
        camera_rotation: QuatBits { x: 0, y: 1.0f32.to_bits(), z: 0, w: 0 },
        primitive_transforms: primitives,
    }
}

#[test]
fn test_demo_scene_creation() {
    let mut world = World::new();
    create_demo_scene(&mut world, &inputs());

    // Verify entities were created
    // We should have: ground, sun, point light, camera, 8 primitives = 12 entities
    assert!(world.iter_entities_with_components(&["Transform"]).len() >= 10);

    // Verify we have at least one camera
    let cameras = world.iter_entities_with_components(&["Camera"]);
    assert!(!cameras.is_empty());

    // Verify we have lights
    let point_lights = world.iter_entities_with_components(&["PointLight"]);
    let dir_lights = world.iter_entities_with_components(&["DirectionalLight"]);
    assert!(!point_lights.is_empty() || !dir_lights.is_empty());
}

#[test]
fn test_demo_scene_primitives() {
    let mut world = World::new();
    create_demo_scene(&mut world, &inputs());

    let meshes = world.iter_entities_with_components(&["MeshPrimitive"]);
    assert!(meshes.len() >= 8); // Ground + 8 primitives
}

#[test]
fn test_world_initialization() {
    let mut world = World::new();
    create_demo_scene(&mut world, &inputs());

    let entities = world.iter_entities_with_components(&["Transform"]);
    assert!(!entities.is_empty());
}

#[test]
fn demo_scene_counts_and_layout() {
    let mut world = World::new();
    let scene = DemoScene::new();
    assert!(scene.is_active);
    scene.setup(&mut world, &inputs());
    assert_eq!(world.iter_entities_with_components(&[]).len(), 12);
    assert_eq!(world.iter_entities_with_components(&["Transform"]).len(), 10);
    assert_eq!(world.iter_entities_with_components(&["MeshPrimitive"]).len(), 9);
    assert_eq!(world.iter_entities_with_components(&["Camera", "Transform"]).len(), 1);
    assert_eq!(world.iter_entities_with_components(&["Light"]).len(), 2);

    let all = world.iter_entities_with_components(&[]);
    let ground = world.get_component::<Transform>(all[0]).unwrap();
    assert_eq!(f32::from_bits(ground.position.y), -1.0);
    assert_eq!(f32::from_bits(ground.scale.x), 20.0);
    assert_eq!(f32::from_bits(ground.scale.y), 0.1);
    assert_eq!(*world.get_component::<MeshPrimitive>(all[0]).unwrap(), MeshPrimitive::Plane);

    let sun = world.get_component::<DirectionalLight>(all[1]).unwrap();
    assert!(sun.enabled);
    assert_eq!(f32::from_bits(sun.color.y), 0.95);

    let lamp = world.get_component::<PointLight>(all[2]).unwrap();
    assert_eq!(f32::from_bits(lamp.position.y), 3.0);
    assert_eq!(f32::from_bits(lamp.intensity), 2.0);
    assert_eq!(f32::from_bits(lamp.color.y), 0.8);

    let camera = world.get_component::<Camera>(all[3]).unwrap();
    assert_eq!(f32::from_bits(camera.aspect_ratio), 16.0 / 9.0);
    assert_eq!(f32::from_bits(camera.fov_y), 1.2);
    assert_eq!(f32::from_bits(camera.far), 100.0);
    let eye = world.get_component::<Transform>(all[3]).unwrap();
    assert_eq!(f32::from_bits(eye.position.z), 8.0);

    for i in 0..8 {
        let expected = if i % 2 == 0 { MeshPrimitive::Cube } else { MeshPrimitive::Sphere };
        assert_eq!(*world.get_component::<MeshPrimitive>(all[4 + i]).unwrap(), expected);
        assert_eq!(*world.get_component::<Transform>(all[4 + i]).unwrap(), inputs().primitive_transforms[i]);
    }
}

#[test]
fn demo_scene_default_is_active() {
    assert!(DemoScene::default().is_active);
}
