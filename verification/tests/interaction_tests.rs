use image_viewer::interaction::{
    process_events, process_window_event, Command, Event, InteractionState, Key, KeyState,
};

fn key(key: Key, state: KeyState) -> Event {
    Event::KeyboardInput { key, state }
}

fn press() -> Event {
    key(Key::FullscreenToggle, KeyState::Pressed)
}

fn release() -> Event {
    key(Key::FullscreenToggle, KeyState::Released)
}

#[test]
fn startup_state_is_windowed_and_unlatched() {
    let state = InteractionState::new();
    assert!(!state.is_fullscreen);
    assert!(!state.fullscreen_key_latched);
}

#[test]
fn held_fullscreen_key_toggles_once() {
    let mut state = InteractionState::new();
    assert_eq!(process_window_event(press(), &mut state), Command::ToggleFullscreen(true));
    assert_eq!(process_window_event(press(), &mut state), Command::NoOp);
    assert_eq!(process_window_event(release(), &mut state), Command::NoOp);
    assert!(state.is_fullscreen);
    assert!(!state.fullscreen_key_latched);
}

#[test]
fn any_number_of_repeats_gives_one_toggle() {
    for repeats in 1..20usize {
        let mut events = vec![press(); repeats];
        events.push(release());
        let mut state = InteractionState::new();
        let commands = process_events(&mut state, &events);
        assert_eq!(commands.len(), repeats + 1);
        let toggles = commands
            .iter()
            .filter(|c| matches!(c, Command::ToggleFullscreen(_)))
            .count();
        assert_eq!(toggles, 1);
        assert_eq!(commands[0], Command::ToggleFullscreen(true));
        assert!(commands[1..].iter().all(|c| *c == Command::NoOp));
        assert_eq!(
            state,
            InteractionState { is_fullscreen: true, fullscreen_key_latched: false }
        );
    }
}

#[test]
fn second_cycle_leaves_fullscreen() {
    let mut state = InteractionState::new();
    let events = vec![press(), release(), press(), press(), release()];
    let commands = process_events(&mut state, &events);
    assert_eq!(
        commands,
        vec![
            Command::ToggleFullscreen(true),
            Command::NoOp,
            Command::ToggleFullscreen(false),
            Command::NoOp,
            Command::NoOp,
        ]
    );
    assert!(!state.is_fullscreen);
}

#[test]
fn release_without_a_press_changes_nothing() {
    let mut state = InteractionState::new();
    assert_eq!(process_window_event(release(), &mut state), Command::NoOp);
    assert_eq!(state, InteractionState::new());
}

#[test]
fn step_returns_the_next_state_and_leaves_the_old_one() {
    let state = InteractionState::new();
    let (next, command) = state.step(press());
    assert_eq!(command, Command::ToggleFullscreen(true));
    assert_eq!(next, InteractionState { is_fullscreen: true, fullscreen_key_latched: true });
    assert_eq!(state, InteractionState::new());
}

#[test]
fn close_and_escape_exit() {
    let mut state = InteractionState { is_fullscreen: true, fullscreen_key_latched: true };
    let before = state;
    assert_eq!(process_window_event(Event::CloseRequested, &mut state), Command::Exit);
    assert_eq!(
        process_window_event(key(Key::Escape, KeyState::Pressed), &mut state),
        Command::Exit
    );
    assert_eq!(state, before);
}

#[test]
fn escape_released_does_nothing() {
    let mut state = InteractionState::new();
    assert_eq!(
        process_window_event(key(Key::Escape, KeyState::Released), &mut state),
        Command::NoOp
    );
    assert_eq!(state, InteractionState::new());
}

#[test]
fn resize_and_scale_change_ask_for_a_new_buffer() {
    let mut state = InteractionState::new();
    assert_eq!(
        process_window_event(Event::Resized { width: 640, height: 480 }, &mut state),
        Command::ResizeBuffer(640, 480)
    );
    assert_eq!(
        process_window_event(Event::ScaleFactorChanged { width: 1280, height: 960 }, &mut state),
        Command::ResizeBuffer(1280, 960)
    );
    assert_eq!(state, InteractionState::new());
}

#[test]
fn redraw_request_gives_redraw() {
    let mut state = InteractionState::new();
    assert_eq!(process_window_event(Event::RedrawRequested, &mut state), Command::Redraw);
    assert_eq!(state, InteractionState::new());
}

#[test]
fn other_events_and_keys_do_nothing() {
    let mut state = InteractionState { is_fullscreen: false, fullscreen_key_latched: true };
    let before = state;
    assert_eq!(process_window_event(Event::Other, &mut state), Command::NoOp);
    assert_eq!(process_window_event(key(Key::Other, KeyState::Pressed), &mut state), Command::NoOp);
    assert_eq!(
        process_window_event(key(Key::Other, KeyState::Released), &mut state),
        Command::NoOp
    );
    assert_eq!(state, before);
}

#[test]
fn events_after_exit_are_not_taken() {
    let mut state = InteractionState::new();
    let events = vec![
        Event::RedrawRequested,
        press(),
        key(Key::Escape, KeyState::Pressed),
        release(),
        Event::RedrawRequested,
    ];
    let commands = process_events(&mut state, &events);
    assert_eq!(
        commands,
        vec![Command::Redraw, Command::ToggleFullscreen(true), Command::Exit]
    );
    assert_eq!(state, InteractionState { is_fullscreen: true, fullscreen_key_latched: true });
}

#[test]
fn no_events_give_no_commands() {
    let mut state = InteractionState::new();
    assert!(process_events(&mut state, &Vec::new()).is_empty());
    assert_eq!(state, InteractionState::new());
}
