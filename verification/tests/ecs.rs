use racing_engine::bits::{QuatBits, Vec3Bits, ONE_BITS, ZERO_BITS};
use racing_engine::ecs::components::{
    Camera, ComponentKind, DirectionalLight, Entity, LightToggle, MeshPrimitive, PointLight,
    Transform,
};
use racing_engine::ecs::systems::{set_camera_rotations, LightControlSystem, TransformSystem};
use racing_engine::ecs::world::World;

fn vec3(x: f32, y: f32, z: f32) -> Vec3Bits {
    Vec3Bits::new(x.to_bits(), y.to_bits(), z.to_bits())
}

#[test]
fn test_entity_creation() {
    let mut world = World::new();
    let e1 = world.create_entity();
    let e2 = world.create_entity();

    assert_eq!(e1.id, 0);
    assert_eq!(e2.id, 1);
    assert_ne!(e1, e2);
}

#[test]
fn test_component_insertion_retrieval() {
    let mut world = World::new();
    let entity = world.create_entity();

    let transform = Transform::identity();
    world.insert_component(entity, transform.clone());

    let retrieved = world.get_component::<Transform>(entity);
    assert!(retrieved.is_some());
    assert_eq!(retrieved.unwrap().position, vec3(0.0, 0.0, 0.0));
}

#[test]
fn test_camera_component() {
    let mut world = World::new();
    let entity = world.create_entity();

    let camera = Camera::perspective(
        1.0f32.to_bits(),
        (16.0f32 / 9.0).to_bits(),
        0.1f32.to_bits(),
        100.0f32.to_bits(),
    );
    world.insert_component(entity, camera);

    assert!(world.get_component::<Camera>(entity).is_some());
}

#[test]
fn test_light_toggle_system() {
    let mut world = World::new();
    let entity = world.create_entity();

    let mut light = PointLight::new(vec3(1.0, 0.0, 0.0), 1.0f32.to_bits());
    light.enabled = true;
    world.insert_component(entity, light);
    world.insert_component(entity, LightToggle);

    let mut system = LightControlSystem;
    system.update(&mut world);

    let light = world.get_component::<PointLight>(entity).unwrap();
    assert!(!light.enabled);
}

#[test]
fn test_transform_system() {
    let mut world = World::new();
    let entity = world.create_entity();

    let mut transform = Transform::identity();
    transform.position = vec3(1.0, 2.0, 3.0);
    world.insert_component(entity, transform);

    let mut system = TransformSystem;
    system.update(&mut world);

    let transform = world.get_component::<Transform>(entity).unwrap();
    assert_eq!(transform.position, vec3(1.0, 2.0, 3.0));
}

#[test]
fn identity_transform_has_unit_scale_and_no_rotation() {
    let t = Transform::identity();
    assert_eq!(f32::from_bits(t.position.x), 0.0);
    assert_eq!(t.rotation, QuatBits { x: ZERO_BITS, y: ZERO_BITS, z: ZERO_BITS, w: ONE_BITS });
    assert_eq!(f32::from_bits(t.rotation.w), 1.0);
    assert_eq!(t.scale, vec3(1.0, 1.0, 1.0));
}

#[test]
fn new_point_light_is_enabled_at_origin() {
    let l = PointLight::new(vec3(1.0, 0.8, 0.5), 2.0f32.to_bits());
    assert!(l.enabled);
    assert_eq!(l.position, vec3(0.0, 0.0, 0.0));
    assert_eq!(l.color, vec3(1.0, 0.8, 0.5));
    assert_eq!(f32::from_bits(l.intensity), 2.0);
}

#[test]
fn perspective_camera_is_active() {
    let c = Camera::perspective(1, 2, 3, 4);
    assert_eq!((c.fov_y, c.aspect_ratio, c.near, c.far, c.is_active), (1, 2, 3, 4, true));
}

#[test]
fn entity_new_keeps_fields() {
    let e = Entity::new(7, 3);
    assert_eq!(e.id, 7);
    assert_eq!(e.generation, 3);
}

#[test]
fn insert_into_unknown_entity_is_refused() {
    let mut world = World::new();
    let _ = world.create_entity();
    let stranger = Entity::new(5, 0);
    assert!(!world.insert_component(stranger, Transform::identity()));
    assert!(world.get_component::<Transform>(stranger).is_none());
    let wrong_generation = Entity::new(0, 1);
    assert!(!world.insert_component(wrong_generation, LightToggle));
    assert!(!world.remove_component::<LightToggle>(wrong_generation));
}

#[test]
fn insert_replaces_component_of_same_type() {
    let mut world = World::new();
    let e = world.create_entity();
    assert!(world.insert_component(e, MeshPrimitive::Cube));
    assert!(world.insert_component(e, MeshPrimitive::Sphere));
    assert_eq!(*world.get_component::<MeshPrimitive>(e).unwrap(), MeshPrimitive::Sphere);
    assert!(world.entity_has_components(e, &["MeshPrimitive"]));
}

#[test]
fn remove_component_detaches_only_that_type() {
    let mut world = World::new();
    let e = world.create_entity();
    world.insert_component(e, Transform::identity());
    world.insert_component(e, MeshPrimitive::Plane);
    assert!(world.remove_component::<Transform>(e));
    assert!(world.get_component::<Transform>(e).is_none());
    assert_eq!(*world.get_component::<MeshPrimitive>(e).unwrap(), MeshPrimitive::Plane);
    assert!(!world.entity_has_components(e, &["Transform"]));
    // Removing what is not there still reports a live entity.
    assert!(world.remove_component::<Camera>(e));
    assert!(!world.remove_component::<Camera>(Entity::new(9, 0)));
}

#[test]
fn get_component_mut_writes_through() {
    let mut world = World::new();
    let e = world.create_entity();
    world.insert_component(e, Transform::identity());
    if let Some(t) = world.get_component_mut::<Transform>(e) {
        t.position = vec3(4.0, 5.0, 6.0);
    }
    assert_eq!(world.get_component::<Transform>(e).unwrap().position, vec3(4.0, 5.0, 6.0));
    assert!(world.get_component_mut::<Camera>(e).is_none());
    assert!(world.get_component_mut::<Transform>(Entity::new(1, 0)).is_none());
}

#[test]
fn has_components_matches_names_by_substring() {
    let mut world = World::new();
    let e = world.create_entity();
    world.insert_component(e, PointLight::new(vec3(1.0, 1.0, 1.0), 1));
    world.insert_component(e, Transform::identity());
    assert!(world.entity_has_components(e, &["Light"]));
    assert!(world.entity_has_components(e, &["PointLight", "Transform"]));
    assert!(world.entity_has_components(e, &[]));
    assert!(world.entity_has_components(e, &[""]));
    assert!(!world.entity_has_components(e, &["DirectionalLight"]));
    assert!(!world.entity_has_components(e, &["Transform", "Camera"]));
    assert!(!world.entity_has_components(Entity::new(3, 0), &[]));
}

#[test]
fn query_lists_matching_entities_in_id_order() {
    let mut world = World::new();
    let a = world.create_entity();
    let b = world.create_entity();
    let c = world.create_entity();
    world.insert_component(a, Transform::identity());
    world.insert_component(c, Transform::identity());
    world.insert_component(c, Camera::perspective(1, 1, 1, 1));
    world.insert_component(b, Camera::perspective(1, 1, 1, 1));
    assert_eq!(world.iter_entities_with_components(&["Transform"]), vec![a, c]);
    assert_eq!(world.iter_entities_with_components(&["Camera", "Transform"]), vec![c]);
    assert_eq!(world.iter_entities_with_components(&[]), vec![a, b, c]);
    assert!(world.iter_entities_with_components(&["LightToggle"]).is_empty());
}

#[test]
fn light_toggle_flips_both_light_kinds_and_twice_restores() {
    let mut world = World::new();
    let marked = world.create_entity();
    let plain = world.create_entity();
    world.insert_component(marked, PointLight::new(vec3(1.0, 1.0, 1.0), 1));
    world.insert_component(
        marked,
        DirectionalLight { direction: vec3(0.0, -1.0, 0.0), color: vec3(1.0, 1.0, 1.0), intensity: 1, enabled: false },
    );
    world.insert_component(marked, LightToggle);
    world.insert_component(plain, PointLight::new(vec3(1.0, 1.0, 1.0), 1));

    let mut system = LightControlSystem;
    system.update(&mut world);
    assert!(!world.get_component::<PointLight>(marked).unwrap().enabled);
    assert!(world.get_component::<DirectionalLight>(marked).unwrap().enabled);
    assert!(world.get_component::<PointLight>(plain).unwrap().enabled);

    system.update(&mut world);
    assert!(world.get_component::<PointLight>(marked).unwrap().enabled);
    assert!(!world.get_component::<DirectionalLight>(marked).unwrap().enabled);
    assert!(world.get_component::<PointLight>(plain).unwrap().enabled);
}

#[test]
fn component_kind_names() {
    assert_eq!(ComponentKind::Transform.name(), "Transform");
    assert_eq!(ComponentKind::DirectionalLight.name(), "DirectionalLight");
    assert_eq!(ComponentKind::LightToggle.name(), "LightToggle");
}

#[test]
fn default_world_is_empty() {
    let world = World::default();
    assert!(world.iter_entities_with_components(&[]).is_empty());
    assert!(!world.entity_has_components(Entity::new(0, 0), &[]));
}

#[test]
fn camera_rotation_turns_only_cameras_with_transforms() {
    let mut world = World::new();
    let cam = world.create_entity();
    let bare_camera = world.create_entity();
    let prop = world.create_entity();
    world.insert_component(cam, Camera::perspective(1, 1, 1, 1));
    world.insert_component(cam, Transform::identity());
    world.insert_component(bare_camera, Camera::perspective(1, 1, 1, 1));
    world.insert_component(prop, Transform::identity());

    let q = QuatBits { x: 0, y: 1.0f32.to_bits(), z: 0, w: 0 };
    set_camera_rotations(&mut world, q);
    let t = world.get_component::<Transform>(cam).unwrap();
    assert_eq!(t.rotation, q);
    assert_eq!(t.position, Transform::identity().position);
    assert_eq!(world.get_component::<Transform>(prop).unwrap().rotation, Transform::identity().rotation);
    assert!(world.get_component::<Transform>(bare_camera).is_none());
}
