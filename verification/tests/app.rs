use racing_engine::ecs::world::World;

#[test]
fn test_app_creation() {
    // This test verifies the App struct can be created
    // Full window creation requires an event loop
    let _world = World::new();
    assert!(true);
}
