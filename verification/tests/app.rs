use trick_frame::app::{App, Effect, Key, WindowEvent, EXIT_CLOSED, EXIT_OUT_OF_MEMORY};
use trick_frame::gpu::{GpuState, PhysicalSize, SurfaceConfig, SurfaceError};
use trick_frame::physics::{KinematicState, FLOOR_LEVEL, ONE};

fn size(width: u32, height: u32) -> PhysicalSize {
    PhysicalSize { width, height }
}

fn key(key: Key, pressed: bool) -> WindowEvent {
    WindowEvent::KeyboardInput { key, pressed }
}

fn with_renderer(width: u32, height: u32) -> App {
    let mut app = App::new();
    assert!(app.resumed(size(width, height)));
    app
}

fn redraw(app: &mut App) -> Vec<Effect> {
    app.window_event(false, WindowEvent::RedrawRequested)
}

#[test]
fn a_new_app_rests_without_a_renderer() {
    let app = App::new();
    assert_eq!(app.state, KinematicState::new());
    assert_eq!(app.gpu, None);
}

#[test]
fn the_renderer_is_recorded_once() {
    let mut app = App::new();
    assert!(app.resumed(size(800, 600)));
    assert_eq!(app.gpu, Some(GpuState::new(size(800, 600))));
    assert!(!app.resumed(size(10, 10)));
    assert_eq!(app.gpu, Some(GpuState::new(size(800, 600))));
    assert_eq!(app.state, KinematicState::new());
}

#[test]
fn closing_exits_with_status_zero() {
    let mut app = with_renderer(800, 600);
    let before = app;
    assert_eq!(
        app.window_event(false, WindowEvent::CloseRequested),
        vec![Effect::Exit { status: 0 }]
    );
    assert_eq!(EXIT_CLOSED, 0);
    assert_eq!(app, before);
}

#[test]
fn events_for_another_window_are_ignored() {
    let events = [
        WindowEvent::CloseRequested,
        key(Key::Space, true),
        key(Key::ArrowUp, true),
        WindowEvent::Resized(size(10, 20)),
        WindowEvent::RedrawRequested,
        WindowEvent::Other,
    ];
    for event in events {
        let mut app = with_renderer(800, 600);
        app.state.explosion_timer = ONE;
        let before = app;
        assert_eq!(app.window_event(true, event), vec![]);
        assert_eq!(app, before);
    }
}

#[test]
fn unknown_events_and_keys_do_nothing() {
    let mut app = with_renderer(800, 600);
    let before = app;
    assert_eq!(app.window_event(false, WindowEvent::Other), vec![]);
    assert_eq!(app.window_event(false, key(Key::Other, true)), vec![]);
    assert_eq!(app.window_event(false, key(Key::Other, false)), vec![]);
    assert_eq!(app, before);
}

#[test]
fn space_jumps_from_the_ground_and_asks_for_a_redraw() {
    let mut app = App::new();
    assert_eq!(app.window_event(false, key(Key::Space, true)), vec![Effect::RequestRedraw]);
    assert_eq!(app.state.vertical_velocity, 80_000);
    assert!(!app.state.on_ground);
    let before = app;
    assert_eq!(app.window_event(false, key(Key::Space, true)), vec![]);
    assert_eq!(app, before);
}

#[test]
fn releasing_space_does_nothing() {
    let mut app = App::new();
    assert_eq!(app.window_event(false, key(Key::Space, false)), vec![]);
    assert_eq!(app, App::new());
}

#[test]
fn arrows_up_and_down_nudge_on_press_only() {
    let mut app = App::new();
    assert_eq!(app.window_event(false, key(Key::ArrowUp, true)), vec![Effect::RequestRedraw]);
    assert_eq!(app.state.vertical_offset, -250_000);
    assert_eq!(app.window_event(false, key(Key::ArrowUp, false)), vec![]);
    assert_eq!(app.state.vertical_offset, -250_000);
    assert_eq!(app.window_event(false, key(Key::ArrowDown, true)), vec![Effect::RequestRedraw]);
    assert_eq!(app.window_event(false, key(Key::ArrowDown, true)), vec![Effect::RequestRedraw]);
    assert_eq!(app.state.vertical_offset, -350_000);
    assert_eq!(app.window_event(false, key(Key::ArrowDown, false)), vec![]);
    assert_eq!(app.state.vertical_offset, -350_000);
    assert!(app.state.on_ground);
}

#[test]
fn arrows_left_and_right_are_inert_on_the_ground() {
    let mut app = App::new();
    assert_eq!(app.window_event(false, key(Key::ArrowLeft, true)), vec![]);
    assert_eq!(app.window_event(false, key(Key::ArrowRight, true)), vec![]);
    assert_eq!(app, App::new());
}

#[test]
fn arrows_left_and_right_follow_press_and_release_in_the_air() {
    let mut app = App::new();
    app.window_event(false, key(Key::Space, true));
    assert_eq!(app.window_event(false, key(Key::ArrowLeft, true)), vec![]);
    assert!(app.state.rotating_left);
    assert_eq!(app.window_event(false, key(Key::ArrowRight, true)), vec![]);
    assert!(app.state.rotating_right);
    app.window_event(false, key(Key::ArrowLeft, false));
    assert!(!app.state.rotating_left);
    assert!(app.state.rotating_right);
    app.window_event(false, key(Key::ArrowRight, false));
    assert!(!app.state.rotating_right);
}

#[test]
fn a_new_size_without_a_renderer_is_dropped() {
    let mut app = App::new();
    assert_eq!(app.window_event(false, WindowEvent::Resized(size(640, 480))), vec![]);
    assert_eq!(app, App::new());
}

#[test]
fn a_new_size_reconfigures_the_surface() {
    let mut app = with_renderer(800, 600);
    assert_eq!(
        app.window_event(false, WindowEvent::Resized(size(640, 480))),
        vec![Effect::Configure { width: 640, height: 480 }]
    );
    let gpu = app.gpu.unwrap();
    assert_eq!(gpu.size, size(640, 480));
    assert_eq!(gpu.config, SurfaceConfig { width: 640, height: 480 });
    assert_eq!(app.state, KinematicState::new());
}

#[test]
fn a_size_without_area_leaves_the_surface_alone() {
    for empty in [size(0, 480), size(640, 0), size(0, 0)] {
        let mut app = with_renderer(800, 600);
        assert_eq!(app.window_event(false, WindowEvent::Resized(empty)), vec![]);
        assert_eq!(app.gpu, Some(GpuState::new(size(800, 600))));
    }
}

#[test]
fn a_redraw_without_a_renderer_still_advances_the_physics() {
    let mut app = App::new();
    app.window_event(false, key(Key::Space, true));
    assert_eq!(redraw(&mut app), vec![Effect::RequestRedraw]);
    assert_eq!(app.state.vertical_offset, -222_000);
    assert_eq!(app.state.vertical_velocity, 78_000);
}

#[test]
fn a_redraw_asks_for_a_frame_of_the_state_after_the_step() {
    let mut app = with_renderer(800, 600);
    app.window_event(false, key(Key::Space, true));
    app.window_event(false, key(Key::ArrowRight, true));
    assert_eq!(
        redraw(&mut app),
        vec![Effect::Render { vertical_offset: -222_000, rotation: 150_000, explosion_timer: 0 }]
    );
    assert_eq!(
        redraw(&mut app),
        vec![Effect::Render { vertical_offset: -146_000, rotation: 300_000, explosion_timer: 0 }]
    );
    assert_eq!(app.state.total_rotation, 300_000);
}

#[test]
fn a_presented_frame_asks_for_the_next() {
    let mut app = with_renderer(800, 600);
    redraw(&mut app);
    let before = app;
    assert_eq!(app.rendered(Ok(())), vec![Effect::RequestRedraw]);
    assert_eq!(app, before);
}

#[test]
fn a_stale_surface_is_configured_again_at_its_last_size() {
    for stale in [SurfaceError::Outdated, SurfaceError::Lost] {
        let mut app = with_renderer(800, 600);
        app.window_event(false, WindowEvent::Resized(size(1024, 768)));
        app.window_event(false, key(Key::Space, true));
        redraw(&mut app);
        let before = app;
        assert_eq!(
            app.rendered(Err(stale)),
            vec![Effect::Configure { width: 1024, height: 768 }, Effect::RequestRedraw]
        );
        assert_eq!(app, before);
    }
}

#[test]
fn a_stale_surface_of_a_window_without_area_is_left_alone() {
    let mut app = with_renderer(0, 0);
    let before = app;
    assert_eq!(app.rendered(Err(SurfaceError::Outdated)), vec![Effect::RequestRedraw]);
    assert_eq!(app.rendered(Err(SurfaceError::Lost)), vec![Effect::RequestRedraw]);
    assert_eq!(app, before);
}

#[test]
fn a_stale_surface_never_touches_the_physics_nor_exits() {
    let mut app = with_renderer(800, 600);
    app.window_event(false, key(Key::Space, true));
    app.window_event(false, key(Key::ArrowLeft, true));
    for _ in 0..10 {
        redraw(&mut app);
        let state = app.state;
        for stale in [SurfaceError::Outdated, SurfaceError::Lost] {
            let effects = app.rendered(Err(stale));
            assert_eq!(app.state, state);
            assert!(!effects.iter().any(|e| matches!(e, Effect::Exit { .. })));
            assert_eq!(effects.last(), Some(&Effect::RequestRedraw));
        }
    }
    assert_eq!(app.state.total_rotation, -1_500_000);
}

#[test]
fn running_out_of_memory_is_reported_and_exits_with_status_one() {
    let mut app = with_renderer(800, 600);
    redraw(&mut app);
    let before = app;
    assert_eq!(
        app.rendered(Err(SurfaceError::OutOfMemory)),
        vec![Effect::Report { error: SurfaceError::OutOfMemory }, Effect::Exit { status: 1 }]
    );
    assert_eq!(EXIT_OUT_OF_MEMORY, 1);
    assert_eq!(app, before);
}

#[test]
fn other_failures_are_reported_and_the_loop_goes_on() {
    for error in [SurfaceError::Timeout, SurfaceError::Other] {
        let mut app = with_renderer(800, 600);
        app.window_event(false, key(Key::Space, true));
        redraw(&mut app);
        let before = app;
        assert_eq!(app.rendered(Err(error)), vec![Effect::Report { error }, Effect::RequestRedraw]);
        assert_eq!(app, before);
        assert_eq!(
            redraw(&mut app),
            vec![Effect::Render { vertical_offset: -146_000, rotation: 0, explosion_timer: 0 }]
        );
    }
}

#[test]
fn an_outcome_without_a_renderer_only_asks_for_a_redraw() {
    let mut app = App::new();
    assert_eq!(app.rendered(Err(SurfaceError::Lost)), vec![Effect::RequestRedraw]);
    assert_eq!(app.rendered(Ok(())), vec![Effect::RequestRedraw]);
    assert_eq!(app, App::new());
}

#[test]
fn the_explosion_is_in_the_frame_of_the_landing_step() {
    let mut app = with_renderer(800, 600);
    app.window_event(false, key(Key::Space, true));
    app.window_event(false, key(Key::ArrowRight, true));
    for _ in 0..42 {
        redraw(&mut app);
        app.rendered(Ok(()));
    }
    app.window_event(false, key(Key::ArrowRight, false));
    for _ in 42..78 {
        let effects = redraw(&mut app);
        assert!(matches!(effects[0], Effect::Render { explosion_timer: 0, .. }));
        app.rendered(Err(SurfaceError::Timeout));
    }
    assert_eq!(
        redraw(&mut app),
        vec![Effect::Render { vertical_offset: FLOOR_LEVEL, rotation: 0, explosion_timer: ONE }]
    );
    assert_eq!(
        redraw(&mut app),
        vec![Effect::Render { vertical_offset: -300_000, rotation: 0, explosion_timer: 980_000 }]
    );
}
