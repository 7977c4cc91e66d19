use gpu_shell::{
    first_format, make_key_action, make_mouse_action, resolve_key, setup_keybindings, get_keybindings, Action,
    App, Binding, ClearColor, Command, CursorPosition, DispatchError, ElementState, Frame,
    FrameCounter, FrameRate, HandlerRegistry, KeyCode, Modifiers, MouseButton, Phase,
    PhysicalSize, State, SurfaceConfig, WindowEvent, KEY_ESCAPE, KEY_W, MAX_FRAME_LATENCY,
};
use std::time::Instant;

fn running_app() -> App<u32> {
    let mut app: App<u32> = App::new();
    setup_keybindings(&mut app);
    let cmds = app.resumed(PhysicalSize { width: 640, height: 480 });
    assert_eq!(
        cmds,
        vec![
            Command::ConfigureSurface(SurfaceConfig { width: 640, height: 480, max_frame_latency: 2 }),
            Command::RequestRedraw,
        ]
    );
    app
}

fn key(code: u32, state: ElementState) -> WindowEvent {
    WindowEvent::KeyboardInput { key: Some(KeyCode(code)), state, is_synthetic: false }
}

fn config(width: u32, height: u32) -> SurfaceConfig {
    SurfaceConfig { width, height, max_frame_latency: MAX_FRAME_LATENCY }
}

#[test]
fn last_resize_is_the_configuration_in_force() {
    let mut app = running_app();
    let sizes = [(100, 50), (1920, 1080), (3, 7), (800, 600)];
    for (w, h) in sizes {
        let cmds = app.window_event(WindowEvent::Resized(PhysicalSize { width: w, height: h }));
        assert_eq!(cmds, vec![Command::ConfigureSurface(config(w, h))]);
        assert_eq!(app.get_state().config, config(w, h));
        assert_eq!(app.get_state().size, PhysicalSize { width: w, height: h });
    }
}

#[test]
fn first_registered_binding_wins() {
    let first = Binding {
        key: Some(KeyCode(KEY_W)),
        button: None,
        modifiers: Modifiers::empty(),
        action: Action::CloseWindow,
    };
    let second = Binding {
        key: Some(KeyCode(KEY_W)),
        button: None,
        modifiers: Modifiers::empty(),
        action: Action::Keyboard(KeyCode(99), ElementState::Released),
    };
    let bindings = vec![first, second];
    assert_eq!(resolve_key(KeyCode(KEY_W), Modifiers::empty(), &bindings), Some(Action::CloseWindow));
    let reversed = vec![second, first];
    assert_eq!(
        resolve_key(KeyCode(KEY_W), Modifiers::empty(), &reversed),
        Some(Action::Keyboard(KeyCode(99), ElementState::Released))
    );
}

#[test]
fn bindings_match_modifiers_exactly() {
    let mut bindings = get_keybindings();
    bindings.push(Binding {
        key: Some(KeyCode(KEY_ESCAPE)),
        button: None,
        modifiers: Modifiers::empty(),
        action: Action::CloseWindow,
    });
    let shift = Modifiers { shift: true, control: false, alt: false, logo: false };
    assert_eq!(resolve_key(KeyCode(KEY_ESCAPE), shift, &bindings), None);
    assert_eq!(
        make_key_action(KeyCode(KEY_ESCAPE), ElementState::Pressed, shift, &bindings),
        Action::Keyboard(KeyCode(KEY_ESCAPE), ElementState::Pressed)
    );
    assert_eq!(
        make_key_action(KeyCode(KEY_ESCAPE), ElementState::Pressed, Modifiers::empty(), &bindings),
        Action::CloseWindow
    );
}

#[test]
fn unbound_key_becomes_keyboard_action() {
    let bindings = get_keybindings();
    assert_eq!(bindings.len(), 2);
    assert_eq!(
        make_key_action(KeyCode(42), ElementState::Released, Modifiers::empty(), &bindings),
        Action::Keyboard(KeyCode(42), ElementState::Released)
    );
    assert_eq!(resolve_key(KeyCode(42), Modifiers::empty(), &[]), None);
}

#[test]
fn mouse_maps_directly_to_button_press() {
    assert_eq!(
        make_mouse_action(MouseButton::Middle, ElementState::Released),
        Action::ButtonPress(MouseButton::Middle, ElementState::Released)
    );
}

#[test]
fn escape_closes_without_handlers_and_twice_is_harmless() {
    let mut app = running_app();
    assert!(!app.handlers.contains(KeyCode(KEY_ESCAPE)));
    let cmds = app.window_event(key(KEY_ESCAPE, ElementState::Pressed));
    assert_eq!(cmds, vec![Command::Exit]);
    assert_eq!(app.phase, Phase::Terminated);
    assert_eq!(app.handle_action(Action::CloseWindow), Ok(vec![]));
    assert_eq!(app.phase, Phase::Terminated);
    assert_eq!(app.window_event(WindowEvent::RedrawRequested), vec![]);
}

#[test]
fn close_request_terminates() {
    let mut app = running_app();
    assert_eq!(app.window_event(WindowEvent::CloseRequested), vec![Command::Exit]);
    assert_eq!(app.phase, Phase::Terminated);
    assert_eq!(app.resumed(PhysicalSize { width: 1, height: 1 }), vec![]);
}

#[test]
fn frame_pacer_reports_only_after_a_second() {
    let mut fc = FrameCounter::new();
    assert_eq!(fc.frame_count, 0);
    let t = Instant::now();
    assert_eq!(fc.record_frame(t, 500_000), None);
    assert_eq!(fc.frame_count, 1);
    assert_eq!(fc.record_frame(t, 1_000_000), None);
    assert_eq!(fc.frame_count, 2);
    let rate = fc.record_frame(t, 1_500_000);
    assert_eq!(rate, Some(FrameRate { frames: 3, elapsed_micros: 1_500_000 }));
    assert_eq!(fc.frame_count, 0);
    assert_eq!(fc.last_instant, t);
    assert_eq!(rate.unwrap().per_second(), 2);
}

#[test]
fn frame_counter_update_counts_a_fresh_frame() {
    let mut fc = FrameCounter::new();
    assert_eq!(fc.update(), None);
    assert_eq!(fc.frame_count, 1);
}

#[test]
fn frame_rate_per_second() {
    let r = FrameRate { frames: 120, elapsed_micros: 2_000_000 };
    assert_eq!(r.per_second(), 60);
    let r = FrameRate { frames: 61, elapsed_micros: 1_000_001 };
    assert_eq!(r.per_second(), 60);
}

#[test]
fn unhandled_key_is_reported_and_changes_nothing() {
    let mut app = running_app();
    let r = app.handle_action(Action::Keyboard(KeyCode(KEY_W), ElementState::Pressed));
    assert_eq!(r, Err(DispatchError::NoHandler(KeyCode(KEY_W))));
    assert_eq!(app.phase, Phase::Running);
    assert_eq!(app.get_state().color, ClearColor::Black);
    assert_eq!(app.get_state().cursor_position, None);
    assert_eq!(app.keybindings.len(), 3);
    let cmds = app.window_event(key(KEY_W, ElementState::Pressed));
    assert_eq!(cmds, vec![Command::KeyNotHandled(KeyCode(KEY_W))]);
}

#[test]
fn registered_handler_runs_once() {
    let mut app = running_app();
    app.register_handler(KeyCode(KEY_W), 7);
    let cmds = app.window_event(key(KEY_W, ElementState::Pressed));
    assert_eq!(cmds, vec![Command::RunHandler(KeyCode(KEY_W), ElementState::Pressed, 7)]);
    assert_eq!(app.phase, Phase::Running);
}

#[test]
fn builder_installs_handlers() {
    let app: App<u32> = App::new().with_handler(KeyCode(5), 1).with_handler(KeyCode(5), 2);
    assert_eq!(app.handlers.get(KeyCode(5)), Some(2));
    assert_eq!(app.handlers.get(KeyCode(6)), None);
    let mut reg: HandlerRegistry<u8> = HandlerRegistry::new();
    reg.insert(KeyCode(1), 9);
    assert!(reg.contains(KeyCode(1)));
    assert!(!reg.contains(KeyCode(2)));
}

#[test]
fn resize_then_redraw_presents_at_new_size() {
    let mut app = running_app();
    let cmds = app.window_event(WindowEvent::Resized(PhysicalSize { width: 800, height: 600 }));
    assert_eq!(cmds, vec![Command::ConfigureSurface(config(800, 600))]);
    let cmds = app.window_event(WindowEvent::RedrawRequested);
    assert!(cmds.len() == 2 || cmds.len() == 3);
    assert_eq!(cmds[0], Command::Present(Frame { config: config(800, 600), color: ClearColor::Red }));
    assert_eq!(cmds[1], Command::RequestRedraw);
}

#[test]
fn four_redraws_cycle_the_colour() {
    let mut app = running_app();
    let mut seen = vec![app.get_state().color];
    for _ in 0..4 {
        let cmds = app.window_event(WindowEvent::RedrawRequested);
        match cmds[0] {
            Command::Present(f) => seen.push(f.color),
            _ => panic!("a redraw presents first"),
        }
        assert_eq!(app.get_state().color, *seen.last().unwrap());
    }
    assert_eq!(
        seen,
        vec![ClearColor::Black, ClearColor::Red, ClearColor::Blue, ClearColor::Green, ClearColor::Black]
    );
}

#[test]
fn colour_values() {
    assert_eq!(ClearColor::Black.rgba8(), (0, 0, 0, 255));
    assert_eq!(ClearColor::Red.rgba8(), (255, 0, 0, 255));
    assert_eq!(ClearColor::Blue.rgba8(), (0, 0, 255, 255));
    assert_eq!(ClearColor::Green.rgba8(), (0, 255, 0, 255));
    assert_eq!(ClearColor::Green.next(), ClearColor::Black);
}

#[test]
fn events_before_resume_are_ignored() {
    let mut app: App<u32> = App::new();
    assert_eq!(app.phase, Phase::Uninitialized);
    assert_eq!(app.window_event(WindowEvent::CloseRequested), vec![]);
    assert_eq!(app.phase, Phase::Uninitialized);
    assert!(app.state.is_none());
}

#[test]
fn synthetic_and_unidentified_keys() {
    let mut app = running_app();
    let synthetic = WindowEvent::KeyboardInput {
        key: Some(KeyCode(KEY_ESCAPE)),
        state: ElementState::Pressed,
        is_synthetic: true,
    };
    assert_eq!(app.window_event(synthetic), vec![]);
    assert_eq!(app.phase, Phase::Running);
    let unknown =
        WindowEvent::KeyboardInput { key: None, state: ElementState::Pressed, is_synthetic: false };
    assert_eq!(app.window_event(unknown), vec![Command::UnidentifiedKey]);
}

#[test]
fn mouse_reports_cursor_position() {
    let mut app = running_app();
    let click = WindowEvent::MouseInput { button: MouseButton::Left, state: ElementState::Pressed };
    assert_eq!(
        app.window_event(click),
        vec![Command::ButtonPressed(MouseButton::Left, ElementState::Pressed, None)]
    );
    let p = CursorPosition { x: 10, y: -3 };
    assert_eq!(app.window_event(WindowEvent::CursorMoved(p)), vec![]);
    assert_eq!(app.get_state().get_cursor_position(), Some(p));
    assert_eq!(
        app.window_event(click),
        vec![Command::ButtonPressed(MouseButton::Left, ElementState::Pressed, Some(p))]
    );
}

#[test]
fn modifiers_gate_static_bindings() {
    let mut app = running_app();
    let ctrl = Modifiers { shift: false, control: true, alt: false, logo: false };
    assert_eq!(app.window_event(WindowEvent::ModifiersChanged(ctrl)), vec![]);
    assert_eq!(app.get_state().modifiers, ctrl);
    assert_eq!(
        app.window_event(key(KEY_ESCAPE, ElementState::Pressed)),
        vec![Command::KeyNotHandled(KeyCode(KEY_ESCAPE))]
    );
    assert_eq!(app.phase, Phase::Running);
    assert_eq!(app.window_event(WindowEvent::Other), vec![]);
}

#[test]
fn state_starts_black_and_configured() {
    let mut st = State::new(PhysicalSize { width: 3, height: 4 });
    assert_eq!(st.config, config(3, 4));
    assert_eq!(st.color, ClearColor::Black);
    assert_eq!(st.resize(PhysicalSize { width: 5, height: 6 }), config(5, 6));
    let f = st.render();
    assert_eq!(f, Frame { config: config(5, 6), color: ClearColor::Red });
}

#[test]
fn first_offered_format_is_chosen() {
    assert_eq!(first_format(&[7u8, 3, 9]), Some(7));
    assert_eq!(first_format::<u8>(&[]), None);
}
