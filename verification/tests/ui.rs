use racing_engine::ui::{DebugUiSystem, FPS_HISTORY_LEN};

fn smoothed(ui: &DebugUiSystem) -> f64 {
    if ui.fps_history.is_empty() {
        return 0.0;
    }
    ui.fps_history.iter().map(|b| f64::from_bits(*b)).sum::<f64>() / ui.fps_history.len() as f64
}

fn frame(ui: &mut DebugUiSystem, delta_time: f32) {
    if delta_time > 0.0 {
        ui.record_fps((1.0 / delta_time as f64).to_bits());
    }
}

#[test]
fn test_fps_calculation() {
    let mut ui_system = DebugUiSystem::new();

    // Simulate 60 FPS (delta time ~0.0167)
    frame(&mut ui_system, 0.0167);
    frame(&mut ui_system, 0.0167);
    frame(&mut ui_system, 0.0167);

    let smoothed = smoothed(&ui_system);
    assert!(smoothed > 50.0 && smoothed < 70.0);
}

#[test]
fn test_light_toggle() {
    let mut ui_system = DebugUiSystem::new();
    assert!(ui_system.is_light_enabled());

    ui_system.toggle_light();
    assert!(!ui_system.is_light_enabled());

    ui_system.toggle_light();
    assert!(ui_system.is_light_enabled());
}

#[test]
fn fps_history_keeps_the_last_sixty_samples() {
    let mut ui = DebugUiSystem::default();
    assert_eq!(ui.fps, 0);
    assert!(ui.fps_history.is_empty());
    for k in 0..100u64 {
        ui.record_fps(k);
        assert!(ui.fps_history.len() <= FPS_HISTORY_LEN);
    }
    assert_eq!(ui.fps, 99);
    assert_eq!(ui.fps_history.len(), 60);
    assert_eq!(ui.fps_history[0], 40);
    assert_eq!(*ui.fps_history.last().unwrap(), 99);
    assert!(ui.show_light_toggle && ui.light_enabled);
}

#[test]
fn fps_history_holds_the_last_samples_of_any_run() {
    for count in [0u64, 1, 59, 60, 61, 130] {
        let mut ui = DebugUiSystem::new();
        for k in 0..count {
            ui.record_fps(k * 3 + 1);
        }
        let start = count.saturating_sub(60);
        let expected: Vec<u64> = (start..count).map(|k| k * 3 + 1).collect();
        assert_eq!(ui.fps_history, expected);
    }
}
