//! Systems that act on the world each frame.
use vstd::prelude::*;
use crate::bits::QuatBits;
use crate::ecs::components::{Components, ExtraComponents, Transform};
use crate::ecs::world::{toggle_record, EntityRecord, World};

verus! {

/// Keeps transforms up to date. Transforms are current as soon as they are
/// written, so an update leaves the world as it is.
#[derive(Clone, Copy, Debug)]
pub struct TransformSystem;

impl TransformSystem {
    /// Runs the system once.
    pub fn update<X: ExtraComponents>(&mut self, world: &mut World<X>)
        ensures
            final(world)@ == old(world)@,
    {
    }
}

/// Switches over, on every update, each point light and directional light of
/// the entities that carry a `LightToggle`.
#[derive(Clone, Copy, Debug)]
pub struct LightControlSystem;

impl LightControlSystem {
    /// Runs the system once.
    pub fn update<X: ExtraComponents>(&mut self, world: &mut World<X>)
        ensures
            final(world)@ == old(world)@.map_values(|r: EntityRecord<X>| toggle_record(r)),
    {
        world.toggle_marked_lights();
    }
}


/// A record whose transform takes the rotation `q` when the entity carries
/// both a camera and a transform; any other record is left alone.
pub open spec fn camera_rotated<X>(r: EntityRecord<X>, q: QuatBits) -> EntityRecord<X> {
    match (r.components.camera, r.components.transform) {
        (Some(_), Some(t)) => EntityRecord {
            components: Components { transform: Some(Transform { rotation: q, ..t }), ..r.components },
            ..r
        },
        _ => r,
    }
}

/// The camera controller's update on the world: every entity that has a
/// camera and a transform is turned to `rotation`, the rotation that the
/// controller's yaw and pitch give.
pub fn set_camera_rotations<X: ExtraComponents>(world: &mut World<X>, rotation: QuatBits)
    ensures
        final(world)@ == old(world)@.map_values(|r: EntityRecord<X>| camera_rotated(r, rotation)),
{
    world.rotate_cameras(rotation);
}

/// Turning the cameras gives the transform of every entity that has both a
/// camera and a transform the rotation `q`, keeping that transform's position
/// and scale; every other transform, every other component and every
/// generation stay as they were.
pub proof fn lemma_camera_rotation_effect<X: ExtraComponents>(before: World<X>, after: World<X>, q: QuatBits)
    requires
        after@ == before@.map_values(|r: EntityRecord<X>| camera_rotated(r, q)),
    ensures
        after@.len() == before@.len(),
        forall|i: int|
            0 <= i < before@.len() ==> {
                let b = before@[i];
                let a = #[trigger] after@[i];
                &&& a.generation == b.generation
                &&& a.components.camera == b.components.camera
                &&& a.components.point_light == b.components.point_light
                &&& a.components.directional_light == b.components.directional_light
                &&& a.components.mesh_primitive == b.components.mesh_primitive
                &&& a.components.light_toggle == b.components.light_toggle
                &&& a.components.extra == b.components.extra
                &&& (a.components.transform is Some) == (b.components.transform is Some)
                &&& (b.components.transform is Some ==> {
                    let t = b.components.transform.unwrap();
                    let u = a.components.transform.unwrap();
                    &&& u.position == t.position
                    &&& u.scale == t.scale
                    &&& u.rotation == (if b.components.camera is Some {
                        q
                    } else {
                        t.rotation
                    })
                })
            },
{
}

} // verus!
