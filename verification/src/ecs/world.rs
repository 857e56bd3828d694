//! The world: every entity ever created and the components attached to it.
use vstd::prelude::*;
use crate::ecs::components::{
    lemma_kind_names_distinct, Component, ComponentKind, Components, DirectionalLight, Entity,
    ExtraComponents, NoExtras, PointLight, Transform, same_option,
};
use crate::bits::QuatBits;
use crate::ecs::systems::camera_rotated;
use crate::text::{str_contains, text_contains};

verus! {

/// One entity slot: the generation of its index and the components attached.
#[derive(Clone, Copy, Debug, PartialEq, Eq)]
pub struct EntityRecord<X> {
    pub generation: u32,
    pub components: Components<X>,
}

/// The entity-component world. Entities are numbered from 0 in the order
/// they are created; the slot of entity `id` is `self@[id]`. `X` is the
/// record of the user's own component types; `World` alone has none.
pub struct World<X = NoExtras> {
    records: Vec<EntityRecord<X>>,
}

impl<X> View for World<X> {
    type V = Seq<EntityRecord<X>>;

    closed spec fn view(&self) -> Seq<EntityRecord<X>> {
        self.records@
    }
}

/// Whether some component attached in `c` has a type name that contains `t`.
pub open spec fn kind_matches<X: ExtraComponents>(c: Components<X>, t: &str) -> bool {
    (exists|k: ComponentKind| c.has(k) && #[trigger] str_contains(k.spec_name(), t))
        || c.extra.spec_name_matches(t)
}

/// Whether every name in `types` is matched by a component attached in `c`.
pub open spec fn has_all<X: ExtraComponents>(c: Components<X>, types: Seq<&str>) -> bool {
    forall|i: int| 0 <= i < types.len() ==> kind_matches(c, #[trigger] types[i])
}

/// The entities among the first `n` slots of `records` whose components
/// match every name in `types`, in the order of their ids.
pub open spec fn matching_entities<X: ExtraComponents>(records: Seq<EntityRecord<X>>, types: Seq<&str>, n: int) -> Seq<Entity>
    decreases n,
{
    if n <= 0 {
        Seq::empty()
    } else {
        let before = matching_entities(records, types, n - 1);
        let r = records[n - 1];
        if has_all(r.components, types) {
            before.push(Entity { id: (n - 1) as u64, generation: r.generation })
        } else {
            before
        }
    }
}

/// A record with every light of a toggle-marked entity switched over.
pub open spec fn toggle_record<X>(r: EntityRecord<X>) -> EntityRecord<X> {
    let c = r.components;
    if c.light_toggle is Some {
        EntityRecord {
            generation: r.generation,
            components: Components {
                point_light: match c.point_light {
                    Some(l) => Some(PointLight { enabled: !l.enabled, ..l }),
                    None => None,
                },
                directional_light: match c.directional_light {
                    Some(l) => Some(
                        DirectionalLight { enabled: !l.enabled, ..l },
                    ),
                    None => None,
                },
                ..c
            },
        }
    } else {
        r
    }
}

/// Whether some component attached in `c` has a type name that contains `t`.
fn components_match<X: ExtraComponents>(c: &Components<X>, t: &str) -> (r: bool)
    ensures
        r == kind_matches(*c, t),
{
    let kinds = [
        ComponentKind::Transform,
        ComponentKind::Camera,
        ComponentKind::PointLight,
        ComponentKind::DirectionalLight,
        ComponentKind::MeshPrimitive,
        ComponentKind::LightToggle,
    ];
    let present = [
        c.transform.is_some(),
        c.camera.is_some(),
        c.point_light.is_some(),
        c.directional_light.is_some(),
        c.mesh_primitive.is_some(),
        c.light_toggle.is_some(),
    ];
    let mut i: usize = 0;
    while i < 6
        invariant
            0 <= i <= 6,
            kinds@ == seq![
                ComponentKind::Transform,
                ComponentKind::Camera,
                ComponentKind::PointLight,
                ComponentKind::DirectionalLight,
                ComponentKind::MeshPrimitive,
                ComponentKind::LightToggle,
            ],
            forall|j: int| 0 <= j < 6 ==> present@[j] == c.has(#[trigger] kinds@[j]),
            forall|j: int|
                0 <= j < i ==> !(c.has(kinds@[j]) && #[trigger] str_contains(kinds@[j].spec_name(), t)),
        decreases 6 - i,
    {
        if present[i] && text_contains(kinds[i].name(), t) {
            assert(c.has(kinds@[i as int]) && str_contains(kinds@[i as int].spec_name(), t));
            return true;
        }
        i = i + 1;
    }
    if c.extra.name_matches(t) {
        return true;
    }
    assert forall|k: ComponentKind| !(c.has(k) && #[trigger] str_contains(k.spec_name(), t)) by {
        match k {
            ComponentKind::Transform => assert(kinds@[0] == k),
            ComponentKind::Camera => assert(kinds@[1] == k),
            ComponentKind::PointLight => assert(kinds@[2] == k),
            ComponentKind::DirectionalLight => assert(kinds@[3] == k),
            ComponentKind::MeshPrimitive => assert(kinds@[4] == k),
            ComponentKind::LightToggle => assert(kinds@[5] == k),
        }
    }
    false
}

impl<X: ExtraComponents> World<X> {
    /// Whether `e` names an entity of this world.
    pub open spec fn is_alive(&self, e: Entity) -> bool {
        e.id < self@.len() && self@[e.id as int].generation == e.generation
    }

    /// The components attached to the slot of `e`.
    pub open spec fn components_of(&self, e: Entity) -> Components<X> {
        self@[e.id as int].components
    }

    /// The component of type `T` of entity `e`, if `e` is alive and has one.
    pub open spec fn component<T: Component<X>>(&self, e: Entity) -> Option<T> {
        if self.is_alive(e) {
            T::read(self.components_of(e))
        } else {
            None
        }
    }

    /// The slots of this world with the `T` slot of entity `e` holding `v`.
    pub open spec fn with_component<T: Component<X>>(&self, e: Entity, v: Option<T>) -> Seq<EntityRecord<X>> {
        self@.update(
            e.id as int,
            EntityRecord {
                generation: self@[e.id as int].generation,
                components: T::write(self.components_of(e), v),
            },
        )
    }

    /// Whether `e` is alive and every name in `types` is matched by one of its components.
    pub open spec fn has_components(&self, e: Entity, types: Seq<&str>) -> bool {
        self.is_alive(e) && has_all(self.components_of(e), types)
    }

    /// An empty world whose user-defined components are recorded in `X`.
    pub fn with_extras() -> (w: World<X>)
        ensures
            w@ == Seq::<EntityRecord<X>>::empty(),
    {
        World { records: Vec::new() }
    }

    /// Creates an entity with the next free id, generation 0 and no component.
    pub fn create_entity(&mut self) -> (e: Entity)
        ensures
            e.id == old(self)@.len(),
            e.generation == 0,
            final(self)@ == old(self)@.push(
                EntityRecord { generation: 0, components: Components::<X>::none() },
            ),
    {
        let id = self.records.len() as u64;
        self.records.push(EntityRecord { generation: 0, components: Components::empty() });
        Entity { id, generation: 0 }
    }

    /// Attaches `component` to `entity`, replacing one of the same type.
    /// Returns `false`, and changes nothing, when `entity` is not alive.
    pub fn insert_component<T: Component<X>>(&mut self, entity: Entity, component: T) -> (inserted: bool)
        ensures
            inserted == old(self).is_alive(entity),
            final(self)@ == (if inserted {
                old(self).with_component(entity, Some(component))
            } else {
                old(self)@
            }),
    {
        if entity.id < self.records.len() as u64 {
            let i = entity.id as usize;
            if self.records[i].generation == entity.generation {
                let record = &mut self.records[i];
                T::store(&mut record.components, Some(component));
                return true;
            }
        }
        false
    }

    /// The component of type `T` attached to `entity`.
    pub fn get_component<T: Component<X>>(&self, entity: Entity) -> (r: Option<&T>)
        ensures
            same_option(r, self.component::<T>(entity)),
    {
        if entity.id < self.records.len() as u64 {
            let i = entity.id as usize;
            let record = &self.records[i];
            if record.generation == entity.generation {
                return T::fetch(&record.components);
            }
        }
        None
    }

    /// The component of type `T` attached to `entity`, for writing.
    pub fn get_component_mut<T: Component<X>>(&mut self, entity: Entity) -> (r: Option<&mut T>)
        ensures
            match old(self).component::<T>(entity) {
                None => r is None && final(self)@ == old(self)@,
                Some(x) => r is Some && *r.unwrap() == x && final(self)@ == old(
                    self,
                ).with_component(entity, Some(*final(r.unwrap()))),
            },
    {
        if entity.id < self.records.len() as u64 {
            let i = entity.id as usize;
            if self.records[i].generation == entity.generation {
                let record = &mut self.records[i];
                return T::fetch_mut(&mut record.components);
            }
        }
        None
    }

    /// Detaches the component of type `T` from `entity`. Returns whether
    /// `entity` is alive; a dead entity is left alone.
    pub fn remove_component<T: Component<X>>(&mut self, entity: Entity) -> (removed: bool)
        ensures
            removed == old(self).is_alive(entity),
            final(self)@ == (if removed {
                old(self).with_component::<T>(entity, None)
            } else {
                old(self)@
            }),
    {
        if entity.id < self.records.len() as u64 {
            let i = entity.id as usize;
            if self.records[i].generation == entity.generation {
                let record = &mut self.records[i];
                T::store(&mut record.components, None);
                return true;
            }
        }
        false
    }

    /// Whether `entity` is alive and every name in `component_types` is
    /// contained in the type name of one of its components.
    pub fn entity_has_components(&self, entity: Entity, component_types: &[&str]) -> (r: bool)
        ensures
            r == self.has_components(entity, component_types@),
    {
        if entity.id >= self.records.len() as u64 {
            return false;
        }
        let record = &self.records[entity.id as usize];
        if record.generation != entity.generation {
            return false;
        }
        let mut i: usize = 0;
        while i < component_types.len()
            invariant
                self.is_alive(entity),
                *record == self@[entity.id as int],
                0 <= i <= component_types@.len(),
                forall|j: int| 0 <= j < i ==> kind_matches(record.components, #[trigger] component_types@[j]),
            decreases component_types@.len() - i,
        {
            if !components_match(&record.components, component_types[i]) {
                return false;
            }
            i = i + 1;
        }
        true
    }

    /// The alive entities that have every component named in
    /// `component_types`, in the order of their ids.
    pub fn iter_entities_with_components(&self, component_types: &[&str]) -> (r: Vec<Entity>)
        ensures
            r@ == matching_entities(self@, component_types@, self@.len() as int),
    {
        let mut found: Vec<Entity> = Vec::new();
        let mut i: usize = 0;
        while i < self.records.len()
            invariant
                0 <= i <= self@.len(),
                found@ == matching_entities(self@, component_types@, i as int),
            decreases self@.len() - i,
        {
            let entity = Entity { id: i as u64, generation: self.records[i].generation };
            if self.entity_has_components(entity, component_types) {
                found.push(entity);
            }
            i = i + 1;
        }
        found
    }

    /// Switches over every point light and directional light of the
    /// entities that carry a `LightToggle`.
    pub(crate) fn toggle_marked_lights(&mut self)
        ensures
            final(self)@ == old(self)@.map_values(|r: EntityRecord<X>| toggle_record(r)),
    {
        let ghost start = self@;
        let n = self.records.len();
        let mut i: usize = 0;
        while i < n
            invariant
                n == self@.len(),
                start.len() == n,
                0 <= i <= n,
                forall|j: int| 0 <= j < i ==> self@[j] == toggle_record(#[trigger] start[j]),
                forall|j: int| i <= j < n ==> #[trigger] self@[j] == start[j],
            decreases n - i,
        {
            let record = &mut self.records[i];
            if record.components.light_toggle.is_some() {
                if let Some(l) = record.components.point_light {
                    record.components.point_light = Some(PointLight { enabled: !l.enabled, ..l });
                }
                if let Some(l) = record.components.directional_light {
                    record.components.directional_light = Some(
                        DirectionalLight { enabled: !l.enabled, ..l },
                    );
                }
            }
            i = i + 1;
        }
        assert(self@ =~= start.map_values(|r: EntityRecord<X>| toggle_record(r)));
    }

    /// Gives every entity that has both a camera and a transform the rotation `rotation`.
    pub(crate) fn rotate_cameras(&mut self, rotation: QuatBits)
        ensures
            final(self)@ == old(self)@.map_values(|r: EntityRecord<X>| camera_rotated(r, rotation)),
    {
        let ghost start = self@;
        let n = self.records.len();
        let mut i: usize = 0;
        while i < n
            invariant
                n == self@.len(),
                start.len() == n,
                0 <= i <= n,
                forall|j: int| 0 <= j < i ==> self@[j] == camera_rotated(#[trigger] start[j], rotation),
                forall|j: int| i <= j < n ==> #[trigger] self@[j] == start[j],
            decreases n - i,
        {
            let record = &mut self.records[i];
            if record.components.camera.is_some() {
                if let Some(t) = record.components.transform {
                    record.components.transform = Some(Transform { rotation, ..t });
                }
            }
            i = i + 1;
        }
        assert(self@ =~= start.map_values(|r: EntityRecord<X>| camera_rotated(r, rotation)));
    }
}

impl World<NoExtras> {
    /// An empty world with the built-in component kinds only.
    pub fn new() -> (w: World<NoExtras>)
        ensures
            w@ == Seq::<EntityRecord<NoExtras>>::empty(),
    {
        World::with_extras()
    }
}

impl Default for World<NoExtras> {
    /// An empty world.
    fn default() -> (w: World<NoExtras>)
        ensures
            w@ == Seq::<EntityRecord<NoExtras>>::empty(),
    {
        World::new()
    }
}

/// Entities in the result of a query over the first `n` slots are exactly the
/// live entities among those slots that match the query.
proof fn lemma_matching_prefix<X: ExtraComponents>(records: Seq<EntityRecord<X>>, types: Seq<&str>, n: int, e: Entity)
    requires
        0 <= n <= records.len(),
        records.len() <= u64::MAX,
    ensures
        matching_entities(records, types, n).contains(e) == (e.id < n && records[e.id as int].generation
            == e.generation && has_all(records[e.id as int].components, types)),
    decreases n,
{
    if n > 0 {
        lemma_matching_prefix(records, types, n - 1, e);
        let before = matching_entities(records, types, n - 1);
        let r = records[n - 1];
        if has_all(r.components, types) {
            let x = Entity { id: (n - 1) as u64, generation: r.generation };
            assert(before.push(x).contains(e) == (before.contains(e) || e == x)) by {
                if before.push(x).contains(e) {
                    let j = choose|j: int| 0 <= j < before.push(x).len() && before.push(x)[j] == e;
                    if j < before.len() {
                        assert(before.contains(e));
                    }
                }
                if before.contains(e) {
                    let j = choose|j: int| 0 <= j < before.len() && before[j] == e;
                    assert(before.push(x)[j] == e);
                }
                if e == x {
                    assert(before.push(x)[before.len() as int] == e);
                }
            }
        }
    }
}

/// Querying the world for entities that have some components lists exactly
/// the entities for which `entity_has_components` answers `true`.
pub proof fn lemma_query_agrees_with_has<X: ExtraComponents>(w: World<X>, types: Seq<&str>, e: Entity)
    ensures
        matching_entities(w@, types, w@.len() as int).contains(e) == w.has_components(e, types),
{
    assert(w.records.len() == w@.len());
    lemma_matching_prefix(w@, types, w@.len() as int, e);
}

/// The result of a query over the first `n` slots lists ids below `n`, in
/// strictly increasing order.
proof fn lemma_matching_prefix_sorted<X: ExtraComponents>(records: Seq<EntityRecord<X>>, types: Seq<&str>, n: int)
    requires
        0 <= n <= records.len(),
        records.len() <= u64::MAX,
    ensures
        forall|i: int|
            0 <= i < matching_entities(records, types, n).len() ==> #[trigger] matching_entities(
                records,
                types,
                n,
            )[i].id < n,
        forall|i: int, j: int|
            0 <= i < j < matching_entities(records, types, n).len() ==> #[trigger] matching_entities(
                records,
                types,
                n,
            )[i].id < #[trigger] matching_entities(records, types, n)[j].id,
    decreases n,
{
    if n > 0 {
        lemma_matching_prefix_sorted(records, types, n - 1);
        let before = matching_entities(records, types, n - 1);
        let now = matching_entities(records, types, n);
        let r = records[n - 1];
        if has_all(r.components, types) {
            let x = Entity { id: (n - 1) as u64, generation: r.generation };
            assert(now == before.push(x));
            assert forall|i: int| 0 <= i < now.len() implies #[trigger] now[i].id < n by {
                if i < before.len() {
                    assert(now[i] == before[i]);
                }
            }
            assert forall|i: int, j: int| 0 <= i < j < now.len() implies #[trigger] now[i].id
                < #[trigger] now[j].id by {
                assert(now[i] == before[i]);
                if j < before.len() {
                    assert(now[j] == before[j]);
                } else {
                    assert(before[i].id < n - 1);
                }
            }
        }
    }
}

/// A query lists each entity at most once, in increasing order of id.
pub proof fn lemma_query_sorted<X: ExtraComponents>(w: World<X>, types: Seq<&str>)
    ensures
        forall|i: int, j: int|
            0 <= i < j < matching_entities(w@, types, w@.len() as int).len() ==> #[trigger] matching_entities(
                w@,
                types,
                w@.len() as int,
            )[i].id < #[trigger] matching_entities(w@, types, w@.len() as int)[j].id,
{
    assert(w.records.len() == w@.len());
    lemma_matching_prefix_sorted(w@, types, w@.len() as int);
}

/// An entity answers a query for the type name of one built-in kind exactly
/// when it is alive and carries a component of that kind, unless one of its
/// user-defined components answers to that name too. In particular an entity
/// of a world without user-defined components matches "LightToggle" only if
/// it carries a `LightToggle`.
pub proof fn lemma_query_by_kind_name<X: ExtraComponents>(w: World<X>, e: Entity, k: ComponentKind)
    requires
        !w.components_of(e).extra.spec_name_matches(k.spec_name()),
    ensures
        w.has_components(e, seq![k.spec_name()]) == (w.is_alive(e) && w.components_of(e).has(k)),
        matching_entities(w@, seq![k.spec_name()], w@.len() as int).contains(e) == (w.is_alive(e)
            && w.components_of(e).has(k)),
{
    let c = w.components_of(e);
    let types = seq![k.spec_name()];
    assert forall|j: ComponentKind| #[trigger] str_contains(j.spec_name(), k.spec_name()) implies j == k by {
        lemma_kind_names_distinct(j, k);
    }
    lemma_kind_names_distinct(k, k);
    if c.has(k) {
        assert(kind_matches(c, types[0]));
    }
    assert(types.len() == 1 && types[0] == k.spec_name());
    if kind_matches(c, k.spec_name()) {
        assert forall|i: int| 0 <= i < types.len() implies kind_matches(c, #[trigger] types[i]) by {
            assert(i == 0);
        }
    }
    if has_all(c, types) {
        assert(kind_matches(c, types[0]));
    }
    lemma_query_agrees_with_has(w, types, e);
}

/// One update of the light control system negates the `enabled` flag of the
/// point light and, independently, of the directional light of every entity
/// that carries a `LightToggle`, keeping every other field of those lights;
/// nothing else changes, and entities without a `LightToggle` are untouched.
pub proof fn lemma_light_control_effect<X: ExtraComponents>(before: World<X>, after: World<X>)
    requires
        after@ == before@.map_values(|r: EntityRecord<X>| toggle_record(r)),
    ensures
        after@.len() == before@.len(),
        forall|i: int|
            0 <= i < before@.len() ==> {
                let b = before@[i];
                let a = #[trigger] after@[i];
                &&& a.generation == b.generation
                &&& a.components.transform == b.components.transform
                &&& a.components.camera == b.components.camera
                &&& a.components.mesh_primitive == b.components.mesh_primitive
                &&& a.components.light_toggle == b.components.light_toggle
                &&& a.components.extra == b.components.extra
                &&& (b.components.light_toggle is None ==> a == b)
                &&& (b.components.light_toggle is Some ==> {
                    &&& (a.components.point_light is Some) == (b.components.point_light is Some)
                    &&& (a.components.directional_light is Some) == (
                    b.components.directional_light is Some)
                    &&& (b.components.point_light is Some ==> {
                        let l = b.components.point_light.unwrap();
                        let m = a.components.point_light.unwrap();
                        &&& m.enabled == !l.enabled
                        &&& m.position == l.position
                        &&& m.color == l.color
                        &&& m.intensity == l.intensity
                    })
                    &&& (b.components.directional_light is Some ==> {
                        let l = b.components.directional_light.unwrap();
                        let m = a.components.directional_light.unwrap();
                        &&& m.enabled == !l.enabled
                        &&& m.direction == l.direction
                        &&& m.color == l.color
                        &&& m.intensity == l.intensity
                    })
                })
            },
{
}

/// A component read back right after it was attached is the one attached,
/// whether its type is built in or the user's own; every other entity is
/// unchanged, and so is every built-in slot of another kind.
pub proof fn lemma_insert_then_get<X: ExtraComponents, T: Component<X>>(before: World<X>, after: World<X>, e: Entity, c: T)
    requires
        before.is_alive(e),
        after@ == before.with_component(e, Some(c)),
    ensures
        after.is_alive(e),
        after.component::<T>(e) == Some(c),
        forall|k: ComponentKind|
            T::builtin_kind() != Some(k) ==> #[trigger] after.components_of(e).get(k) == before.components_of(e).get(k),
        forall|i: int| 0 <= i < before@.len() && i != e.id ==> #[trigger] after@[i] == before@[i],
        after@.len() == before@.len(),
{
    T::lemma_read_write(before.components_of(e), Some(c));
}

/// After a component type is detached from an entity, reading it gives
/// nothing; every other entity is unchanged, and so is every built-in slot
/// of another kind.
pub proof fn lemma_remove_then_get<X: ExtraComponents, T: Component<X>>(before: World<X>, after: World<X>, e: Entity)
    requires
        before.is_alive(e),
        after@ == before.with_component::<T>(e, None),
    ensures
        after.is_alive(e),
        after.component::<T>(e) is None,
        forall|k: ComponentKind|
            T::builtin_kind() != Some(k) ==> #[trigger] after.components_of(e).get(k) == before.components_of(e).get(k),
        forall|i: int| 0 <= i < before@.len() && i != e.id ==> #[trigger] after@[i] == before@[i],
        after@.len() == before@.len(),
{
    T::lemma_read_write(before.components_of(e), None);
}

/// A newly created entity was not alive before, is alive afterwards and has
/// no component; every entity alive before keeps its slot.
pub proof fn lemma_create_entity_fresh<X: ExtraComponents>(before: World<X>, after: World<X>, e: Entity)
    requires
        e.id == before@.len(),
        e.generation == 0,
        after@ == before@.push(EntityRecord { generation: 0, components: Components::<X>::none() }),
    ensures
        !before.is_alive(e),
        after.is_alive(e),
        forall|k: ComponentKind| !(#[trigger] after.components_of(e).has(k)),
        after.components_of(e).extra == X::spec_empty(),
        forall|x: Entity| before.is_alive(x) ==> after.is_alive(x) && after.components_of(x)
            == before.components_of(x),
{
}

/// Switching the marked lights over twice gives back the world one started with.
pub proof fn lemma_toggle_twice<X: ExtraComponents>(before: World<X>, middle: World<X>, after: World<X>)
    requires
        middle@ == before@.map_values(|r: EntityRecord<X>| toggle_record(r)),
        after@ == middle@.map_values(|r: EntityRecord<X>| toggle_record(r)),
    ensures
        after@ == before@,
{
    assert(after@ =~= before@);
}

} // verus!
