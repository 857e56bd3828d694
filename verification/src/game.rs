//! The demo scene: a ground plane, a sun, a point light, a camera and eight
//! primitives.
use vstd::prelude::*;
use crate::bits::{QuatBits, Vec3Bits, ONE_BITS, ZERO_BITS};
use crate::ecs::components::{
    Camera, ComponentKind, Components, DirectionalLight, ExtraComponents, MeshPrimitive, PointLight,
    Transform,
};
use crate::ecs::world::{EntityRecord, World};

verus! {

/// Bit pattern of `-1.0`.
pub const NEG_ONE_BITS: u32 = 0xbf80_0000;

/// Bit pattern of `0.1`.
pub const TENTH_BITS: u32 = 0x3dcc_cccd;

/// Bit pattern of `20.0`.
pub const TWENTY_BITS: u32 = 0x41a0_0000;

/// Bit pattern of `0.95`.
pub const SUN_GREEN_BITS: u32 = 0x3f73_3333;

/// Bit pattern of `0.9`.
pub const SUN_BLUE_BITS: u32 = 0x3f66_6666;

/// Bit pattern of `0.8`.
pub const LAMP_GREEN_BITS: u32 = 0x3f4c_cccd;

/// Bit pattern of `0.5`.
pub const LAMP_BLUE_BITS: u32 = 0x3f00_0000;

/// Bit pattern of `2.0`.
pub const TWO_BITS: u32 = 0x4000_0000;

/// Bit pattern of `3.0`.
pub const THREE_BITS: u32 = 0x4040_0000;

/// Bit pattern of `8.0`.
pub const EIGHT_BITS: u32 = 0x4100_0000;

/// Bit pattern of `1.2`, the camera's vertical field of view in radians.
pub const CAMERA_FOV_BITS: u32 = 0x3f99_999a;

/// Bit pattern of `16.0 / 9.0`, the camera's aspect ratio.
pub const CAMERA_ASPECT_BITS: u32 = 0x3fe3_8e39;

/// Bit pattern of `100.0`, the camera's far plane.
pub const CAMERA_FAR_BITS: u32 = 0x42c8_0000;

/// How many primitives the demo scene holds.
pub const PRIMITIVE_COUNT: usize = 8;

/// The values of the demo scene that come from trigonometry, normalisation or
/// chance: the sun's unit direction, the camera's rotation and the transforms
/// of the eight primitives.
#[derive(Clone, Copy, Debug)]
pub struct DemoSceneInputs {
    pub sun_direction: Vec3Bits,
    pub camera_rotation: QuatBits,
    pub primitive_transforms: [Transform; 8],
}

/// A record holding exactly the given components.
pub open spec fn record_with<X: ExtraComponents>(components: Components<X>) -> EntityRecord<X> {
    EntityRecord { generation: 0, components }
}

/// The ground: a wide, thin plane one unit below the origin.
pub open spec fn ground_record<X: ExtraComponents>() -> EntityRecord<X> {
    record_with(
        Components {
            transform: Some(
                Transform {
                    position: Vec3Bits { x: ZERO_BITS, y: NEG_ONE_BITS, z: ZERO_BITS },
                    rotation: QuatBits::identity(),
                    scale: Vec3Bits { x: TWENTY_BITS, y: TENTH_BITS, z: TWENTY_BITS },
                },
            ),
            mesh_primitive: Some(MeshPrimitive::Plane),
            ..Components::<X>::none()
        },
    )
}

/// The sun: a warm white directional light of intensity 1.
pub open spec fn sun_record<X: ExtraComponents>(direction: Vec3Bits) -> EntityRecord<X> {
    record_with(
        Components {
            directional_light: Some(
                DirectionalLight {
                    direction,
                    color: Vec3Bits { x: ONE_BITS, y: SUN_GREEN_BITS, z: SUN_BLUE_BITS },
                    intensity: ONE_BITS,
                    enabled: true,
                },
            ),
            ..Components::<X>::none()
        },
    )
}

/// The lamp: an orange point light of intensity 2, three units up.
pub open spec fn lamp_record<X: ExtraComponents>() -> EntityRecord<X> {
    record_with(
        Components {
            point_light: Some(
                PointLight {
                    position: Vec3Bits { x: ZERO_BITS, y: THREE_BITS, z: ZERO_BITS },
                    color: Vec3Bits { x: ONE_BITS, y: LAMP_GREEN_BITS, z: LAMP_BLUE_BITS },
                    intensity: TWO_BITS,
                    enabled: true,
                },
            ),
            ..Components::<X>::none()
        },
    )
}

/// The camera: an active perspective camera two units up and eight back.
pub open spec fn camera_record<X: ExtraComponents>(rotation: QuatBits) -> EntityRecord<X> {
    record_with(
        Components {
            transform: Some(
                Transform {
                    position: Vec3Bits { x: ZERO_BITS, y: TWO_BITS, z: EIGHT_BITS },
                    rotation,
                    scale: Vec3Bits::one(),
                },
            ),
            camera: Some(
                Camera {
                    fov_y: CAMERA_FOV_BITS,
                    aspect_ratio: CAMERA_ASPECT_BITS,
                    near: TENTH_BITS,
                    far: CAMERA_FAR_BITS,
                    is_active: true,
                },
            ),
            ..Components::<X>::none()
        },
    )
}

/// Primitive number `i`: a cube when `i` is even, a sphere when it is odd.
pub open spec fn primitive_record<X: ExtraComponents>(transform: Transform, i: int) -> EntityRecord<X> {
    record_with(
        Components {
            transform: Some(transform),
            mesh_primitive: Some(
                if i % 2 == 0 {
                    MeshPrimitive::Cube
                } else {
                    MeshPrimitive::Sphere
                },
            ),
            ..Components::<X>::none()
        },
    )
}

/// The slots the demo scene adds after the first `n` primitives.
pub open spec fn demo_scene_prefix<X: ExtraComponents>(inputs: DemoSceneInputs, n: int) -> Seq<EntityRecord<X>> {
    seq![
        ground_record(),
        sun_record(inputs.sun_direction),
        lamp_record(),
        camera_record(inputs.camera_rotation),
    ] + Seq::new(n as nat, |i: int| primitive_record(inputs.primitive_transforms@[i], i))
}

/// The slots the demo scene adds, in creation order.
pub open spec fn demo_scene_records<X: ExtraComponents>(inputs: DemoSceneInputs) -> Seq<EntityRecord<X>> {
    demo_scene_prefix(inputs, PRIMITIVE_COUNT as int)
}

/// Adds the demo scene to `world`: the ground, the sun, the lamp, the camera
/// and the eight primitives, in that order.
pub fn create_demo_scene<X: ExtraComponents>(world: &mut World<X>, inputs: &DemoSceneInputs)
    ensures
        final(world)@ == old(world)@ + demo_scene_records(*inputs),
{
    let ghost start = world@;

    let ground = world.create_entity();
    let ground_transform = Transform {
        position: Vec3Bits { x: ZERO_BITS, y: NEG_ONE_BITS, z: ZERO_BITS },
        rotation: QuatBits { x: ZERO_BITS, y: ZERO_BITS, z: ZERO_BITS, w: ONE_BITS },
        scale: Vec3Bits { x: TWENTY_BITS, y: TENTH_BITS, z: TWENTY_BITS },
    };
    world.insert_component(ground, ground_transform);
    world.insert_component(ground, MeshPrimitive::Plane);
    assert(world@ =~= start.push(ground_record()));

    let sun = world.create_entity();
    let sun_light = DirectionalLight {
        direction: inputs.sun_direction,
        color: Vec3Bits { x: ONE_BITS, y: SUN_GREEN_BITS, z: SUN_BLUE_BITS },
        intensity: ONE_BITS,
        enabled: true,
    };
    world.insert_component(sun, sun_light);
    assert(world@ =~= start.push(ground_record()).push(sun_record(inputs.sun_direction)));

    let lamp = world.create_entity();
    let mut lamp_light = PointLight::new(
        Vec3Bits { x: ONE_BITS, y: LAMP_GREEN_BITS, z: LAMP_BLUE_BITS },
        TWO_BITS,
    );
    lamp_light.position = Vec3Bits { x: ZERO_BITS, y: THREE_BITS, z: ZERO_BITS };
    world.insert_component(lamp, lamp_light);

    let camera_entity = world.create_entity();
    let camera = Camera::perspective(CAMERA_FOV_BITS, CAMERA_ASPECT_BITS, TENTH_BITS, CAMERA_FAR_BITS);
    let camera_transform = Transform {
        position: Vec3Bits { x: ZERO_BITS, y: TWO_BITS, z: EIGHT_BITS },
        rotation: inputs.camera_rotation,
        scale: Vec3Bits { x: ONE_BITS, y: ONE_BITS, z: ONE_BITS },
    };
    world.insert_component(camera_entity, camera);
    world.insert_component(camera_entity, camera_transform);
    assert(world@ =~= start + demo_scene_prefix(*inputs, 0));

    let mut i: usize = 0;
    while i < PRIMITIVE_COUNT
        invariant
            0 <= i <= PRIMITIVE_COUNT,
            world@ == start + demo_scene_prefix(*inputs, i as int),
        decreases PRIMITIVE_COUNT - i,
    {
        let primitive = world.create_entity();
        world.insert_component(primitive, inputs.primitive_transforms[i]);
        if i % 2 == 0 {
            world.insert_component(primitive, MeshPrimitive::Cube);
        } else {
            world.insert_component(primitive, MeshPrimitive::Sphere);
        }
        assert(world@ =~= start + demo_scene_prefix(*inputs, i + 1));
        i = i + 1;
    }
}

/// How many of `records` carry a component of kind `k`.
pub open spec fn count_having<X: ExtraComponents>(records: Seq<EntityRecord<X>>, k: ComponentKind) -> nat
    decreases records.len(),
{
    if records.len() == 0 {
        0
    } else {
        count_having(records.drop_last(), k) + if records.last().components.has(k) {
            1nat
        } else {
            0nat
        }
    }
}

/// The counts of each kind among the first `n` slots the demo scene adds.
proof fn lemma_demo_scene_prefix_counts<X: ExtraComponents>(inputs: DemoSceneInputs, n: int)
    requires
        0 <= n <= 12,
    ensures
        ({
            let part = demo_scene_records::<X>(inputs).subrange(0, n);
            &&& count_having(part, ComponentKind::Transform) == (if n <= 0 { 0 } else if n <= 3 { 1 } else { n - 2 })
            &&& count_having(part, ComponentKind::MeshPrimitive) == (if n <= 0 { 0 } else if n <= 4 { 1 } else { n - 3 })
            &&& count_having(part, ComponentKind::Camera) == (if n <= 3 { 0int } else { 1int })
            &&& count_having(part, ComponentKind::PointLight) == (if n <= 2 { 0int } else { 1int })
            &&& count_having(part, ComponentKind::DirectionalLight) == (if n <= 1 { 0int } else { 1int })
            &&& count_having(part, ComponentKind::LightToggle) == 0
        }),
    decreases n,
{
    let all = demo_scene_records::<X>(inputs);
    if n > 0 {
        lemma_demo_scene_prefix_counts::<X>(inputs, n - 1);
        assert(all.subrange(0, n).drop_last() =~= all.subrange(0, n - 1));
        assert(all.subrange(0, n).last() == all[n - 1]);
    }
}

/// The demo scene adds twelve entities: ten with a transform, nine with a
/// mesh, one camera, one point light, one directional light and no light
/// switch.
pub proof fn lemma_demo_scene_contents<X: ExtraComponents>(inputs: DemoSceneInputs)
    ensures
        demo_scene_records::<X>(inputs).len() == 12,
        count_having(demo_scene_records::<X>(inputs), ComponentKind::Transform) == 10,
        count_having(demo_scene_records::<X>(inputs), ComponentKind::MeshPrimitive) == 9,
        count_having(demo_scene_records::<X>(inputs), ComponentKind::Camera) == 1,
        count_having(demo_scene_records::<X>(inputs), ComponentKind::PointLight) == 1,
        count_having(demo_scene_records::<X>(inputs), ComponentKind::DirectionalLight) == 1,
        count_having(demo_scene_records::<X>(inputs), ComponentKind::LightToggle) == 0,
{
    lemma_demo_scene_prefix_counts::<X>(inputs, 12);
    assert(demo_scene_records::<X>(inputs).subrange(0, 12) =~= demo_scene_records::<X>(inputs));
}

/// The demo scene puts each input where it belongs and builds the fixed
/// parts as the scene prescribes: after the entities already present come
/// the ground (a plane one unit down), the sun (shining along
/// `inputs.sun_direction`), the lamp (three units up), the camera (turned by
/// `inputs.camera_rotation`) and the eight primitives, primitive `i` placed
/// by `inputs.primitive_transforms[i]`, cubes and spheres in turn. Entities
/// already present are unchanged, and every new entity has generation 0.
pub proof fn lemma_demo_scene_uses_inputs<X: ExtraComponents>(
    before: World<X>,
    after: World<X>,
    inputs: DemoSceneInputs,
)
    requires
        after@ == before@ + demo_scene_records::<X>(inputs),
    ensures
        after@.len() == before@.len() + 12,
        forall|i: int| 0 <= i < before@.len() ==> #[trigger] after@[i] == before@[i],
        forall|i: int| before@.len() <= i < after@.len() ==> #[trigger] after@[i].generation == 0,
        ({
            let n = before@.len() as int;
            let ground = after@[n].components;
            let sun = after@[n + 1].components;
            let lamp = after@[n + 2].components;
            let eye = after@[n + 3].components;
            &&& ground.mesh_primitive == Some(MeshPrimitive::Plane)
            &&& ground.transform is Some && ground.transform.unwrap().position.y == NEG_ONE_BITS
            &&& ground.camera is None
            &&& sun.directional_light is Some
            &&& sun.directional_light.unwrap().direction == inputs.sun_direction
            &&& sun.directional_light.unwrap().enabled
            &&& sun.transform is None && sun.point_light is None
            &&& lamp.point_light is Some
            &&& lamp.point_light.unwrap().position.y == THREE_BITS
            &&& lamp.point_light.unwrap().enabled
            &&& lamp.directional_light is None
            &&& eye.camera is Some && eye.camera.unwrap().is_active
            &&& eye.transform is Some
            &&& eye.transform.unwrap().rotation == inputs.camera_rotation
            &&& eye.transform.unwrap().position.z == EIGHT_BITS
        }),
        forall|i: int|
            0 <= i < 8 ==> {
                let c = (#[trigger] after@[before@.len() + 4 + i]).components;
                &&& c.transform == Some(inputs.primitive_transforms@[i])
                &&& c.mesh_primitive == Some(
                    if i % 2 == 0 {
                        MeshPrimitive::Cube
                    } else {
                        MeshPrimitive::Sphere
                    },
                )
                &&& c.camera is None
            },
{
    let n = before@.len() as int;
    assert forall|i: int| before@.len() <= i < after@.len() implies #[trigger] after@[i].generation
        == 0 by {
        if i >= n + 4 {
            assert(after@[i] == primitive_record::<X>(inputs.primitive_transforms@[i - n - 4], i - n - 4));
        }
    }
    assert forall|i: int| 0 <= i < 8 implies {
        let c = (#[trigger] after@[before@.len() + 4 + i]).components;
        &&& c.transform == Some(inputs.primitive_transforms@[i])
        &&& c.mesh_primitive == Some(if i % 2 == 0 { MeshPrimitive::Cube } else { MeshPrimitive::Sphere })
        &&& c.camera is None
    } by {
        assert(after@[n + 4 + i] == primitive_record::<X>(inputs.primitive_transforms@[i], i));
    }
}

/// The demo scene, as an object that can set itself up.
#[derive(Clone, Copy, Debug)]
pub struct DemoScene {
    pub is_active: bool,
}

impl DemoScene {
    /// An active demo scene.
    pub fn new() -> (s: DemoScene)
        ensures
            s.is_active,
    {
        DemoScene { is_active: true }
    }

    /// Adds the demo scene to `world`.
    pub fn setup<X: ExtraComponents>(&self, world: &mut World<X>, inputs: &DemoSceneInputs)
        ensures
            final(world)@ == old(world)@ + demo_scene_records(*inputs),
    {
        create_demo_scene(world, inputs);
    }
}

impl Default for DemoScene {
    /// Same as `DemoScene::new`.
    fn default() -> (s: DemoScene)
        ensures
            s.is_active,
    {
        DemoScene::new()
    }
}

} // verus!
