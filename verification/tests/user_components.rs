use racing_engine::ecs::components::{
    Component, ComponentKind, Components, ExtraComponents, MeshPrimitive, Transform,
};
use racing_engine::ecs::systems::LightControlSystem;
use racing_engine::ecs::world::World;

#[derive(Debug, Clone, Copy, PartialEq)]
struct Health(u32);

#[derive(Debug, Clone, Copy, PartialEq)]
struct Player;

struct GameComponents {
    health: Option<Health>,
    player: Option<Player>,
}

// Outside verified code, the contract items of the traits are plain
// functions; they are given here with the meaning the contracts need.
impl ExtraComponents for GameComponents {
    fn spec_empty() -> Self {
        GameComponents { health: None, player: None }
    }

    fn spec_name_matches(&self, t: &str) -> bool {
        self.name_matches(t)
    }

    fn empty() -> Self {
        GameComponents { health: None, player: None }
    }

    fn name_matches(&self, t: &str) -> bool {
        (self.health.is_some() && "Health".contains(t)) || (self.player.is_some() && "Player".contains(t))
    }
}

impl Component<GameComponents> for Health {
    fn builtin_kind() -> Option<ComponentKind> {
        None
    }

    fn read(c: Components<GameComponents>) -> Option<Health> {
        c.extra.health
    }

    fn write(c: Components<GameComponents>, v: Option<Health>) -> Components<GameComponents> {
        let mut c = c;
        c.extra.health = v;
        c
    }

    fn lemma_read_write(_c: Components<GameComponents>, _v: Option<Health>) {}

    fn fetch(c: &Components<GameComponents>) -> Option<&Health> {
        c.extra.health.as_ref()
    }

    fn fetch_mut(c: &mut Components<GameComponents>) -> Option<&mut Health> {
        c.extra.health.as_mut()
    }

    fn store(c: &mut Components<GameComponents>, v: Option<Health>) {
        c.extra.health = v;
    }
}

impl Component<GameComponents> for Player {
    fn builtin_kind() -> Option<ComponentKind> {
        None
    }

    fn read(c: Components<GameComponents>) -> Option<Player> {
        c.extra.player
    }

    fn write(c: Components<GameComponents>, v: Option<Player>) -> Components<GameComponents> {
        let mut c = c;
        c.extra.player = v;
        c
    }

    fn lemma_read_write(_c: Components<GameComponents>, _v: Option<Player>) {}

    fn fetch(c: &Components<GameComponents>) -> Option<&Player> {
        c.extra.player.as_ref()
    }

    fn fetch_mut(c: &mut Components<GameComponents>) -> Option<&mut Player> {
        c.extra.player.as_mut()
    }

    fn store(c: &mut Components<GameComponents>, v: Option<Player>) {
        c.extra.player = v;
    }
}

#[test]
fn user_defined_component_is_stored_and_read_back() {
    let mut world = World::<GameComponents>::with_extras();
    let e = world.create_entity();
    assert!(world.insert_component(e, Health(100)));
    assert_eq!(world.get_component::<Health>(e), Some(&Health(100)));
    assert!(world.get_component::<Player>(e).is_none());

    if let Some(h) = world.get_component_mut::<Health>(e) {
        h.0 -= 30;
    }
    assert_eq!(world.get_component::<Health>(e), Some(&Health(70)));

    world.insert_component(e, Transform::identity());
    assert_eq!(world.get_component::<Health>(e), Some(&Health(70)));
    assert!(world.get_component::<Transform>(e).is_some());

    assert!(world.remove_component::<Health>(e));
    assert!(world.get_component::<Health>(e).is_none());
    assert!(world.get_component::<Transform>(e).is_some());
}

#[test]
fn user_defined_marker_is_found_by_queries() {
    let mut world = World::<GameComponents>::with_extras();
    let a = world.create_entity();
    let b = world.create_entity();
    world.insert_component(a, Player);
    world.insert_component(a, MeshPrimitive::Cube);
    world.insert_component(b, MeshPrimitive::Sphere);
    assert!(world.entity_has_components(a, &["Player", "MeshPrimitive"]));
    assert!(!world.entity_has_components(b, &["Player"]));
    assert_eq!(world.iter_entities_with_components(&["Player"]), vec![a]);
    assert_eq!(world.iter_entities_with_components(&["MeshPrimitive"]), vec![a, b]);

    let mut lights = LightControlSystem;
    lights.update(&mut world);
    assert_eq!(world.get_component::<Player>(a), Some(&Player));
}
