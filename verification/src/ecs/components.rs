//! Entities, components and the world that stores them.
use vstd::prelude::*;
use crate::bits::{QuatBits, Vec3Bits, ONE_BITS, ZERO_BITS};
use crate::text::{bytes_contain_spec, str_contains};
use vstd::string::StringSliceAdditionalSpecFns;
use vstd::utf8::{is_ascii_chars, is_ascii_chars_encode_utf8};

verus! {

/// An entity handle: its index and the generation of that index.
#[derive(Clone, Copy, Debug, PartialEq, Eq, Hash, Structural)]
pub struct Entity {
    pub id: u64,
    pub generation: u32,
}

impl Entity {
    /// Builds a handle from an index and a generation.
    pub fn new(id: u64, generation: u32) -> (e: Entity)
        ensures
            e.id == id,
            e.generation == generation,
    {
        Entity { id, generation }
    }
}

/// Position, rotation and scale of an entity.
#[derive(Clone, Copy, Debug, PartialEq, Eq, Structural)]
pub struct Transform {
    pub position: Vec3Bits,
    pub rotation: QuatBits,
    pub scale: Vec3Bits,
}

impl Transform {
    /// The transform that leaves everything in place: no offset, no rotation, unit scale.
    pub open spec fn identity_value() -> Transform {
        Transform {
            position: Vec3Bits::zero(),
            rotation: QuatBits::identity(),
            scale: Vec3Bits::one(),
        }
    }

    /// Builds the identity transform.
    pub fn identity() -> (t: Transform)
        ensures
            t == Transform::identity_value(),
    {
        Transform {
            position: Vec3Bits { x: ZERO_BITS, y: ZERO_BITS, z: ZERO_BITS },
            rotation: QuatBits { x: ZERO_BITS, y: ZERO_BITS, z: ZERO_BITS, w: ONE_BITS },
            scale: Vec3Bits { x: ONE_BITS, y: ONE_BITS, z: ONE_BITS },
        }
    }
}

/// A perspective camera.
#[derive(Clone, Copy, Debug, PartialEq, Eq, Structural)]
pub struct Camera {
    pub fov_y: u32,
    pub aspect_ratio: u32,
    pub near: u32,
    pub far: u32,
    pub is_active: bool,
}

impl Camera {
    /// Builds an active perspective camera from its vertical field of view,
    /// aspect ratio and clip distances.
    pub fn perspective(fov_y: u32, aspect_ratio: u32, near: u32, far: u32) -> (c: Camera)
        ensures
            c == (Camera { fov_y, aspect_ratio, near, far, is_active: true }),
    {
        Camera { fov_y, aspect_ratio, near, far, is_active: true }
    }
}

/// A point light.
#[derive(Clone, Copy, Debug, PartialEq, Eq, Structural)]
pub struct PointLight {
    pub position: Vec3Bits,
    pub color: Vec3Bits,
    pub intensity: u32,
    pub enabled: bool,
}

impl PointLight {
    /// Builds an enabled point light at the origin.
    pub fn new(color: Vec3Bits, intensity: u32) -> (l: PointLight)
        ensures
            l == (PointLight { position: Vec3Bits::zero(), color, intensity, enabled: true }),
    {
        PointLight {
            position: Vec3Bits { x: ZERO_BITS, y: ZERO_BITS, z: ZERO_BITS },
            color,
            intensity,
            enabled: true,
        }
    }
}

/// A directional light; `direction` is a unit vector.
#[derive(Clone, Copy, Debug, PartialEq, Eq, Structural)]
pub struct DirectionalLight {
    pub direction: Vec3Bits,
    pub color: Vec3Bits,
    pub intensity: u32,
    pub enabled: bool,
}

/// The shape an entity is drawn with.
#[derive(Clone, Copy, Debug, PartialEq, Eq, Structural)]
pub enum MeshPrimitive {
    Cube,
    Sphere,
    Plane,
    Cylinder,
}

/// Marks a light that the light control system switches on every update.
#[derive(Clone, Copy, Debug, PartialEq, Eq, Structural)]
pub struct LightToggle;

/// The kinds of component an entity can carry.
#[derive(Clone, Copy, Debug, PartialEq, Eq, Structural)]
pub enum ComponentKind {
    Transform,
    Camera,
    PointLight,
    DirectionalLight,
    MeshPrimitive,
    LightToggle,
}

impl ComponentKind {
    /// The type name under which a component kind is recorded and queried.
    pub open spec fn spec_name(self) -> &'static str {
        match self {
            ComponentKind::Transform => "Transform",
            ComponentKind::Camera => "Camera",
            ComponentKind::PointLight => "PointLight",
            ComponentKind::DirectionalLight => "DirectionalLight",
            ComponentKind::MeshPrimitive => "MeshPrimitive",
            ComponentKind::LightToggle => "LightToggle",
        }
    }

    /// The type name of this kind.
    pub fn name(self) -> (s: &'static str)
        ensures
            s == self.spec_name(),
    {
        match self {
            ComponentKind::Transform => "Transform",
            ComponentKind::Camera => "Camera",
            ComponentKind::PointLight => "PointLight",
            ComponentKind::DirectionalLight => "DirectionalLight",
            ComponentKind::MeshPrimitive => "MeshPrimitive",
            ComponentKind::LightToggle => "LightToggle",
        }
    }
}

/// The bytes of an ASCII text, one per character.
pub open spec fn ascii_bytes(cs: Seq<char>) -> Seq<u8> {
    Seq::new(cs.len(), |i: int| cs[i] as u8)
}

/// Each built-in kind is recorded and queried under its own type name.
pub proof fn lemma_kind_names()
    ensures
        ComponentKind::Transform.spec_name()@ == seq!['T', 'r', 'a', 'n', 's', 'f', 'o', 'r', 'm'],
        ComponentKind::Camera.spec_name()@ == seq!['C', 'a', 'm', 'e', 'r', 'a'],
        ComponentKind::PointLight.spec_name()@ == seq!['P', 'o', 'i', 'n', 't', 'L', 'i', 'g', 'h', 't'],
        ComponentKind::DirectionalLight.spec_name()@ == seq!['D', 'i', 'r', 'e', 'c', 't', 'i', 'o', 'n', 'a', 'l', 'L', 'i', 'g', 'h', 't'],
        ComponentKind::MeshPrimitive.spec_name()@ == seq!['M', 'e', 's', 'h', 'P', 'r', 'i', 'm', 'i', 't', 'i', 'v', 'e'],
        ComponentKind::LightToggle.spec_name()@ == seq!['L', 'i', 'g', 'h', 't', 'T', 'o', 'g', 'g', 'l', 'e'],
{
    reveal_strlit("Transform");
    reveal_strlit("Camera");
    reveal_strlit("PointLight");
    reveal_strlit("DirectionalLight");
    reveal_strlit("MeshPrimitive");
    reveal_strlit("LightToggle");
}

/// The type name of a kind is ASCII, so its bytes are its characters.
proof fn lemma_kind_name_bytes(k: ComponentKind)
    ensures
        k.spec_name().spec_bytes() == ascii_bytes(k.spec_name()@),
{
    lemma_kind_names();
    let cs = k.spec_name()@;
    assert(is_ascii_chars(cs));
    is_ascii_chars_encode_utf8(cs);
    assert(k.spec_name().spec_bytes() =~= ascii_bytes(cs));
}

/// `needle` does not occur in `hay` when no offset matches its first two bytes.
proof fn lemma_no_occurrence(hay: Seq<u8>, needle: Seq<u8>)
    requires
        needle.len() >= 2,
        forall|i: int|
            0 <= i && i + needle.len() <= hay.len() ==> #[trigger] hay[i] != needle[0] || hay[i + 1]
                != needle[1],
    ensures
        !bytes_contain_spec(hay, needle),
{
    assert forall|i: int| 0 <= i && i + needle.len() <= hay.len() implies #[trigger] hay.subrange(
        i,
        i + needle.len(),
    ) != needle by {
        assert(hay.subrange(i, i + needle.len())[0] == hay[i]);
        assert(hay.subrange(i, i + needle.len())[1] == hay[i + 1]);
    }
}

/// The type name of one built-in kind contains the type name of another
/// exactly when the two kinds are the same.
pub proof fn lemma_kind_names_distinct(j: ComponentKind, k: ComponentKind)
    ensures
        str_contains(j.spec_name(), k.spec_name()) == (j == k),
{
    lemma_kind_name_bytes(j);
    lemma_kind_name_bytes(k);
    let h = ascii_bytes(j.spec_name()@);
    let n = ascii_bytes(k.spec_name()@);
    if j == k {
        let zero: int = 0;
        assert(h.subrange(zero, zero + n.len()) =~= n);
        assert(bytes_contain_spec(h, n));
    } else {
        lemma_kind_names();
        lemma_no_occurrence(h, n);
    }
}

/// One component of any kind.
#[derive(Clone, Copy, Debug, PartialEq, Eq, Structural)]
pub enum ComponentValue {
    Transform(Transform),
    Camera(Camera),
    PointLight(PointLight),
    DirectionalLight(DirectionalLight),
    MeshPrimitive(MeshPrimitive),
    LightToggle(LightToggle),
}

impl ComponentValue {
    /// The kind of this component.
    pub open spec fn kind(self) -> ComponentKind {
        match self {
            ComponentValue::Transform(_) => ComponentKind::Transform,
            ComponentValue::Camera(_) => ComponentKind::Camera,
            ComponentValue::PointLight(_) => ComponentKind::PointLight,
            ComponentValue::DirectionalLight(_) => ComponentKind::DirectionalLight,
            ComponentValue::MeshPrimitive(_) => ComponentKind::MeshPrimitive,
            ComponentValue::LightToggle(_) => ComponentKind::LightToggle,
        }
    }
}

/// The components of types defined by the user of the library, attached to
/// one entity. A world stores one such record per entity beside the built-in
/// kinds; `NoExtras` is the record of a world that uses the built-in kinds only.
pub trait ExtraComponents: Sized {
    /// The record with no component attached.
    spec fn spec_empty() -> Self;

    /// Whether some component attached in this record has a type name that
    /// contains `t`.
    spec fn spec_name_matches(&self, t: &str) -> bool;

    /// The record with no component attached.
    fn empty() -> (r: Self)
        ensures
            r == Self::spec_empty(),
    ;

    /// Whether some component attached in this record has a type name that
    /// contains `t`.
    fn name_matches(&self, t: &str) -> (r: bool)
        ensures
            r == self.spec_name_matches(t),
    ;
}

/// The record of a world with no component types besides the built-in ones.
#[derive(Clone, Copy, Debug, PartialEq, Eq, Structural)]
pub struct NoExtras;

impl ExtraComponents for NoExtras {
    open spec fn spec_empty() -> NoExtras {
        NoExtras
    }

    open spec fn spec_name_matches(&self, t: &str) -> bool {
        false
    }

    fn empty() -> (r: NoExtras) {
        NoExtras
    }

    fn name_matches(&self, t: &str) -> (r: bool) {
        false
    }
}

/// The components attached to one entity: at most one of each built-in
/// kind, and the user's own components in `extra`.
#[derive(Clone, Copy, Debug, PartialEq, Eq)]
pub struct Components<X> {
    pub transform: Option<Transform>,
    pub camera: Option<Camera>,
    pub point_light: Option<PointLight>,
    pub directional_light: Option<DirectionalLight>,
    pub mesh_primitive: Option<MeshPrimitive>,
    pub light_toggle: Option<LightToggle>,
    pub extra: X,
}

impl<X: ExtraComponents> Components<X> {
    /// No component at all.
    pub open spec fn none() -> Components<X> {
        Components {
            transform: None,
            camera: None,
            point_light: None,
            directional_light: None,
            mesh_primitive: None,
            light_toggle: None,
            extra: X::spec_empty(),
        }
    }

    /// Builds the empty set of components.
    pub fn empty() -> (c: Components<X>)
        ensures
            c == Components::<X>::none(),
    {
        Components {
            transform: None,
            camera: None,
            point_light: None,
            directional_light: None,
            mesh_primitive: None,
            light_toggle: None,
            extra: X::empty(),
        }
    }
}

impl<X> Components<X> {

    /// The component of kind `k`, if there is one.
    pub open spec fn get(self, k: ComponentKind) -> Option<ComponentValue> {
        match k {
            ComponentKind::Transform => match self.transform {
                Some(x) => Some(ComponentValue::Transform(x)),
                None => None,
            },
            ComponentKind::Camera => match self.camera {
                Some(x) => Some(ComponentValue::Camera(x)),
                None => None,
            },
            ComponentKind::PointLight => match self.point_light {
                Some(x) => Some(ComponentValue::PointLight(x)),
                None => None,
            },
            ComponentKind::DirectionalLight => match self.directional_light {
                Some(x) => Some(ComponentValue::DirectionalLight(x)),
                None => None,
            },
            ComponentKind::MeshPrimitive => match self.mesh_primitive {
                Some(x) => Some(ComponentValue::MeshPrimitive(x)),
                None => None,
            },
            ComponentKind::LightToggle => match self.light_toggle {
                Some(x) => Some(ComponentValue::LightToggle(x)),
                None => None,
            },
        }
    }

    /// Whether a component of kind `k` is attached.
    pub open spec fn has(self, k: ComponentKind) -> bool {
        self.get(k) is Some
    }

    /// These components with the slot of kind `k` holding `v`'s payload, or
    /// emptied when `v` is `None` (or of another kind).
    pub open spec fn set(self, k: ComponentKind, v: Option<ComponentValue>) -> Components<X> {
        match k {
            ComponentKind::Transform => Components {
                transform: match v {
                    Some(ComponentValue::Transform(x)) => Some(x),
                    _ => None,
                },
                ..self
            },
            ComponentKind::Camera => Components {
                camera: match v {
                    Some(ComponentValue::Camera(x)) => Some(x),
                    _ => None,
                },
                ..self
            },
            ComponentKind::PointLight => Components {
                point_light: match v {
                    Some(ComponentValue::PointLight(x)) => Some(x),
                    _ => None,
                },
                ..self
            },
            ComponentKind::DirectionalLight => Components {
                directional_light: match v {
                    Some(ComponentValue::DirectionalLight(x)) => Some(x),
                    _ => None,
                },
                ..self
            },
            ComponentKind::MeshPrimitive => Components {
                mesh_primitive: match v {
                    Some(ComponentValue::MeshPrimitive(x)) => Some(x),
                    _ => None,
                },
                ..self
            },
            ComponentKind::LightToggle => Components {
                light_toggle: match v {
                    Some(ComponentValue::LightToggle(x)) => Some(x),
                    _ => None,
                },
                ..self
            },
        }
    }
}

/// Setting one slot and reading any slot back: the slot that was set holds
/// the new value (when it has the slot's kind), every other slot is unchanged.
pub proof fn lemma_get_set<X>(c: Components<X>, k: ComponentKind, v: Option<ComponentValue>, j: ComponentKind)
    requires
        v matches Some(x) ==> x.kind() == k,
    ensures
        c.set(k, v).get(j) == (if j == k { v } else { c.get(j) }),
        c.set(k, v).extra == c.extra,
{
}

/// A type that can be attached to an entity as a component, in a world
/// whose record of user-defined components is `X`. The six built-in kinds
/// are components of every world; a type of the user's own is a component of
/// a world whose record `X` has a slot for it, with `read` and `write` giving
/// that slot and `builtin_kind` giving `None`.
pub trait Component<X>: Sized {
    /// The built-in kind of this type, or `None` for a type kept in the
    /// user's record.
    spec fn builtin_kind() -> Option<ComponentKind>;

    /// The component of this type among `c`.
    spec fn read(c: Components<X>) -> Option<Self>;

    /// `c` with the slot of this type holding `v`, or emptied when `v` is `None`.
    spec fn write(c: Components<X>, v: Option<Self>) -> Components<X>;

    /// What was written is read back; a built-in type touches its own slot
    /// only, and a user-defined type touches no built-in slot.
    proof fn lemma_read_write(c: Components<X>, v: Option<Self>)
        ensures
            Self::read(Self::write(c, v)) == v,
            forall|k: ComponentKind|
                Self::builtin_kind() != Some(k) ==> #[trigger] Self::write(c, v).get(k) == c.get(k),
            Self::builtin_kind() is Some ==> Self::write(c, v).extra == c.extra,
    ;

    /// The component of this type among `c`.
    fn fetch(c: &Components<X>) -> (r: Option<&Self>)
        ensures
            same_option(r, Self::read(*c)),
    ;

    /// The component of this type among `c`, for writing.
    fn fetch_mut(c: &mut Components<X>) -> (r: Option<&mut Self>)
        ensures
            match Self::read(*old(c)) {
                None => r is None && *final(c) == *old(c),
                Some(x) => r is Some && *r.unwrap() == x && *final(c) == Self::write(
                    *old(c),
                    Some(*final(r.unwrap())),
                ),
            },
    ;

    /// Puts `v` in the slot of this type, or empties it when `v` is `None`.
    fn store(c: &mut Components<X>, v: Option<Self>)
        ensures
            *final(c) == Self::write(*old(c), v),
    ;
}

/// Whether a reference option and a value option hold the same thing.
pub open spec fn same_option<T>(r: Option<&T>, v: Option<T>) -> bool {
    match r {
        Some(x) => v == Some(*x),
        None => v is None,
    }
}

impl<X> Component<X> for Transform {
    open spec fn builtin_kind() -> Option<ComponentKind> {
        Some(ComponentKind::Transform)
    }

    open spec fn read(c: Components<X>) -> Option<Transform> {
        c.transform
    }

    open spec fn write(c: Components<X>, v: Option<Transform>) -> Components<X> {
        Components { transform: v, ..c }
    }

    proof fn lemma_read_write(c: Components<X>, v: Option<Transform>) {
    }

    fn fetch(c: &Components<X>) -> (r: Option<&Transform>) {
        c.transform.as_ref()
    }

    fn fetch_mut(c: &mut Components<X>) -> (r: Option<&mut Transform>) {
        c.transform.as_mut()
    }

    fn store(c: &mut Components<X>, v: Option<Transform>) {
        c.transform = v;
    }
}

impl<X> Component<X> for Camera {
    open spec fn builtin_kind() -> Option<ComponentKind> {
        Some(ComponentKind::Camera)
    }

    open spec fn read(c: Components<X>) -> Option<Camera> {
        c.camera
    }

    open spec fn write(c: Components<X>, v: Option<Camera>) -> Components<X> {
        Components { camera: v, ..c }
    }

    proof fn lemma_read_write(c: Components<X>, v: Option<Camera>) {
    }

    fn fetch(c: &Components<X>) -> (r: Option<&Camera>) {
        c.camera.as_ref()
    }

    fn fetch_mut(c: &mut Components<X>) -> (r: Option<&mut Camera>) {
        c.camera.as_mut()
    }

    fn store(c: &mut Components<X>, v: Option<Camera>) {
        c.camera = v;
    }
}

impl<X> Component<X> for PointLight {
    open spec fn builtin_kind() -> Option<ComponentKind> {
        Some(ComponentKind::PointLight)
    }

    open spec fn read(c: Components<X>) -> Option<PointLight> {
        c.point_light
    }

    open spec fn write(c: Components<X>, v: Option<PointLight>) -> Components<X> {
        Components { point_light: v, ..c }
    }

    proof fn lemma_read_write(c: Components<X>, v: Option<PointLight>) {
    }

    fn fetch(c: &Components<X>) -> (r: Option<&PointLight>) {
        c.point_light.as_ref()
    }

    fn fetch_mut(c: &mut Components<X>) -> (r: Option<&mut PointLight>) {
        c.point_light.as_mut()
    }

    fn store(c: &mut Components<X>, v: Option<PointLight>) {
        c.point_light = v;
    }
}

impl<X> Component<X> for DirectionalLight {
    open spec fn builtin_kind() -> Option<ComponentKind> {
        Some(ComponentKind::DirectionalLight)
    }

    open spec fn read(c: Components<X>) -> Option<DirectionalLight> {
        c.directional_light
    }

    open spec fn write(c: Components<X>, v: Option<DirectionalLight>) -> Components<X> {
        Components { directional_light: v, ..c }
    }

    proof fn lemma_read_write(c: Components<X>, v: Option<DirectionalLight>) {
    }

    fn fetch(c: &Components<X>) -> (r: Option<&DirectionalLight>) {
        c.directional_light.as_ref()
    }

    fn fetch_mut(c: &mut Components<X>) -> (r: Option<&mut DirectionalLight>) {
        c.directional_light.as_mut()
    }

    fn store(c: &mut Components<X>, v: Option<DirectionalLight>) {
        c.directional_light = v;
    }
}

impl<X> Component<X> for MeshPrimitive {
    open spec fn builtin_kind() -> Option<ComponentKind> {
        Some(ComponentKind::MeshPrimitive)
    }

    open spec fn read(c: Components<X>) -> Option<MeshPrimitive> {
        c.mesh_primitive
    }

    open spec fn write(c: Components<X>, v: Option<MeshPrimitive>) -> Components<X> {
        Components { mesh_primitive: v, ..c }
    }

    proof fn lemma_read_write(c: Components<X>, v: Option<MeshPrimitive>) {
    }

    fn fetch(c: &Components<X>) -> (r: Option<&MeshPrimitive>) {
        c.mesh_primitive.as_ref()
    }

    fn fetch_mut(c: &mut Components<X>) -> (r: Option<&mut MeshPrimitive>) {
        c.mesh_primitive.as_mut()
    }

    fn store(c: &mut Components<X>, v: Option<MeshPrimitive>) {
        c.mesh_primitive = v;
    }
}

impl<X> Component<X> for LightToggle {
    open spec fn builtin_kind() -> Option<ComponentKind> {
        Some(ComponentKind::LightToggle)
    }

    open spec fn read(c: Components<X>) -> Option<LightToggle> {
        c.light_toggle
    }

    open spec fn write(c: Components<X>, v: Option<LightToggle>) -> Components<X> {
        Components { light_toggle: v, ..c }
    }

    proof fn lemma_read_write(c: Components<X>, v: Option<LightToggle>) {
    }

    fn fetch(c: &Components<X>) -> (r: Option<&LightToggle>) {
        c.light_toggle.as_ref()
    }

    fn fetch_mut(c: &mut Components<X>) -> (r: Option<&mut LightToggle>) {
        c.light_toggle.as_mut()
    }

    fn store(c: &mut Components<X>, v: Option<LightToggle>) {
        c.light_toggle = v;
    }
}

} // verus!
