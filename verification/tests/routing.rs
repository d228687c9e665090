use offscreen_runtime::app_window::{
    top_child, visible_children, AppWebview, AppWindow, OffscreenInputState, PointerPosition,
};
use offscreen_runtime::event_flags::{
    ButtonSource, ElementState, MouseButton, MouseButtonType, ALT_STATE, CONTROL_STATE, META_STATE,
    SHIFT_STATE,
};
use offscreen_runtime::handling::{
    handle, query_ime_cursor_area, sync_ime_cursor_area, Handling, Phase, Reply, Step,
};
use offscreen_runtime::keys::{Key, NamedKey};
use offscreen_runtime::offscreen::{OffscreenBounds, OffscreenImeCursorArea, OffscreenSurface};
use offscreen_runtime::offscreen_input::{
    clear_ime_state, composition_selection, contains, destroy_ime_caret, dispatch,
    invalid_cef_range, mouse_event, mouse_position, mouse_target, Ime, InputAction, InputEvent,
    KeyEvent, KeyEventType, MouseEvent, PointerSource, Range,
};
use winit::dpi::{PhysicalPosition, PhysicalSize, Position, Size};

fn at(x: f64, y: f64) -> PointerPosition {
    PointerPosition { x: x.to_bits(), y: y.to_bits() }
}

fn bounds(x: i32, y: i32, width: u32, height: u32) -> OffscreenBounds {
    OffscreenBounds { x, y, width, height, scale_factor: 1.0f64.to_bits() }
}

fn webview(place: OffscreenBounds, visible: bool) -> AppWebview {
    let mut surface = OffscreenSurface::new();
    surface.set_bounds(place);
    surface.set_visible(visible);
    AppWebview { offscreen_surface: Some(surface) }
}

/// A native webview, a large one, a hidden one, and a small one on top.
fn window() -> AppWindow {
    AppWindow {
        children: vec![
            AppWebview { offscreen_surface: None },
            webview(bounds(0, 0, 100, 100), true),
            webview(bounds(0, 0, 100, 100), false),
            webview(bounds(10, 10, 20, 20), true),
        ],
        offscreen_input: OffscreenInputState::default(),
    }
}

fn button(state: ElementState, button: MouseButton, position: PointerPosition) -> InputEvent {
    InputEvent::PointerButton { state, position, button: ButtonSource::Mouse(button) }
}

#[test]
fn visible_children_have_a_visible_surface() {
    let mut window = window();
    assert_eq!(visible_children(&window), vec![1, 3]);
    assert_eq!(top_child(&window), Some(3));
    window.children.truncate(1);
    assert_eq!(visible_children(&window), Vec::<usize>::new());
    assert_eq!(top_child(&window), None);
}

#[test]
fn bounds_contain_their_upper_left_edges_only() {
    let place = bounds(-10, 5, 20, 1);
    assert!(contains(place, at(-10.0, 5.0)));
    assert!(contains(place, at(9.999, 5.999)));
    assert!(!contains(place, at(10.0, 5.0)));
    assert!(!contains(place, at(0.0, 6.0)));
    assert!(!contains(place, at(-10.001, 5.0)));
    assert!(!contains(place, at(0.0, 4.999)));
    assert!(contains(place, at(-0.0, 5.5)));
}

#[test]
fn bounds_contain_no_odd_positions() {
    let place = bounds(i32::MIN, i32::MIN, u32::MAX, u32::MAX);
    assert!(contains(place, at(0.0, 0.0)));
    assert!(contains(place, at(-2147483648.0, 2147483646.5)));
    assert!(!contains(place, at(2147483647.0, 0.0)));
    assert!(!contains(place, at(f64::NAN, 0.0)));
    assert!(!contains(place, at(0.0, f64::NAN)));
    assert!(!contains(place, at(f64::INFINITY, 0.0)));
    assert!(!contains(place, at(f64::NEG_INFINITY, 0.0)));
    assert!(!contains(bounds(0, 0, 0, 0), at(0.0, 0.0)));
}

#[test]
fn containment_is_comparison_of_doubles() {
    let place = bounds(-3, 4, 7, 2);
    for x in [-3.5, -3.0, -2.9, 0.0, 3.999999, 4.0, 5e-324, 1e300, -1e300] {
        for y in [3.9, 4.0, 5.5, 6.0, -0.0] {
            let expected = x >= -3.0 && y >= 4.0 && x < -3.0 + 7.0 && y < 4.0 + 2.0;
            assert_eq!(contains(place, at(x, y)), expected, "{x} {y}");
        }
    }
}

#[test]
fn the_topmost_visible_webview_is_hit() {
    let window = window();
    assert_eq!(mouse_target(&window, at(15.0, 15.0)), Some(3));
    assert_eq!(mouse_target(&window, at(5.0, 5.0)), Some(1));
    assert_eq!(mouse_target(&window, at(30.0, 15.0)), Some(1));
    assert_eq!(mouse_target(&window, at(100.0, 5.0)), None);
}

#[test]
fn mouse_events_are_rounded_positions() {
    assert_eq!(mouse_event(3, -4, 18), MouseEvent { x: 3, y: -4, modifiers: 18 });
    assert_eq!(
        mouse_event(i64::MAX, i64::MIN, 0),
        MouseEvent { x: i32::MAX, y: i32::MIN, modifiers: 0 }
    );
}

#[test]
fn modifiers_are_remembered() {
    let mut window = window();
    let actions = dispatch(&mut window, &InputEvent::ModifiersChanged { modifiers: 0x104 });
    assert!(actions.is_empty());
    assert_eq!(window.offscreen_input.modifiers, 0x104);
}

#[test]
fn focus_reaches_every_visible_webview() {
    let mut window = window();
    let actions = dispatch(&mut window, &InputEvent::Focused(true));
    assert_eq!(
        actions,
        vec![
            InputAction::RestoreImeContext,
            InputAction::SetFocus { child: 1, focused: true },
            InputAction::SetFocus { child: 3, focused: true },
        ]
    );
}

#[test]
fn losing_the_focus_ends_captures_and_the_caret() {
    let mut window = window();
    window.offscreen_input.ime_caret_created = true;
    let actions = dispatch(&mut window, &InputEvent::Focused(false));
    assert_eq!(
        actions,
        vec![
            InputAction::DestroyImeCaret,
            InputAction::SetFocus { child: 1, focused: false },
            InputAction::CaptureLost { child: 1 },
            InputAction::SetFocus { child: 3, focused: false },
            InputAction::CaptureLost { child: 3 },
        ]
    );
    assert!(!window.offscreen_input.ime_caret_created);
    let again = dispatch(&mut window, &InputEvent::Focused(false));
    assert!(!again.contains(&InputAction::DestroyImeCaret));
}

#[test]
fn movement_goes_to_the_target() {
    let mut window = window();
    window.offscreen_input.modifiers = SHIFT_STATE;
    let position = at(15.5, 15.5);
    let event = InputEvent::PointerMoved { position, source: PointerSource::Mouse };
    assert_eq!(
        dispatch(&mut window, &event),
        vec![InputAction::MouseMove { child: 3, position, modifiers: 2, leave: false }]
    );
    assert_eq!(mouse_position(&window), position);
    let position = at(1.0, 1.0);
    assert_eq!(
        dispatch(&mut window, &InputEvent::PointerEntered { position }),
        vec![InputAction::MouseMove { child: 1, position, modifiers: 2, leave: false }]
    );
    let position = at(-1.0, 1.0);
    assert!(dispatch(&mut window, &InputEvent::PointerEntered { position }).is_empty());
    assert_eq!(mouse_position(&window), position);
}

#[test]
fn only_the_mouse_moves_the_pointer() {
    let mut window = window();
    let event = InputEvent::PointerMoved { position: at(15.0, 15.0), source: PointerSource::Other };
    assert!(dispatch(&mut window, &event).is_empty());
    assert_eq!(mouse_position(&window), at(0.0, 0.0));
}

#[test]
fn leaving_reaches_every_visible_webview() {
    let mut window = window();
    window.offscreen_input.cursor = at(4.0, 5.0);
    assert_eq!(
        dispatch(&mut window, &InputEvent::PointerLeft),
        vec![
            InputAction::MouseMove { child: 1, position: at(4.0, 5.0), modifiers: 0, leave: true },
            InputAction::MouseMove { child: 3, position: at(4.0, 5.0), modifiers: 0, leave: true },
        ]
    );
}

#[test]
fn a_press_focuses_and_clicks() {
    let mut window = window();
    let position = at(12.0, 12.0);
    let actions =
        dispatch(&mut window, &button(ElementState::Pressed, MouseButton::Left, position));
    assert_eq!(
        actions,
        vec![
            InputAction::SetFocus { child: 3, focused: true },
            InputAction::MouseClick {
                child: 3,
                position,
                modifiers: 16,
                button: MouseButtonType::Left,
                released: false,
                click_count: 1,
            },
        ]
    );
    assert_eq!(window.offscreen_input.pressed_buttons, 16);
    let actions =
        dispatch(&mut window, &button(ElementState::Released, MouseButton::Left, position));
    assert_eq!(
        actions,
        vec![InputAction::MouseClick {
            child: 3,
            position,
            modifiers: 0,
            button: MouseButtonType::Left,
            released: true,
            click_count: 1,
        }]
    );
    assert_eq!(window.offscreen_input.pressed_buttons, 0);
}

#[test]
fn a_press_beside_the_webviews_still_counts() {
    let mut window = window();
    let position = at(500.0, 500.0);
    let actions =
        dispatch(&mut window, &button(ElementState::Pressed, MouseButton::Right, position));
    assert!(actions.is_empty());
    assert_eq!(window.offscreen_input.pressed_buttons, 64);
    assert_eq!(mouse_position(&window), position);
}

#[test]
fn other_buttons_are_ignored() {
    let mut window = window();
    let before = window.offscreen_input;
    for source in [ButtonSource::Mouse(MouseButton::Back), ButtonSource::Unknown(1)] {
        let event = InputEvent::PointerButton {
            state: ElementState::Pressed,
            position: at(12.0, 12.0),
            button: source,
        };
        assert!(dispatch(&mut window, &event).is_empty());
        assert_eq!(window.offscreen_input, before);
    }
}

#[test]
fn the_wheel_scrolls_under_the_pointer() {
    let mut window = window();
    window.offscreen_input.cursor = at(50.0, 50.0);
    let event = InputEvent::MouseWheel { delta_x: -120, delta_y: 1 << 40 };
    assert_eq!(
        dispatch(&mut window, &event),
        vec![InputAction::MouseWheel {
            child: 1,
            position: at(50.0, 50.0),
            modifiers: 0,
            delta_x: -120,
            delta_y: i32::MAX,
        }]
    );
    window.offscreen_input.cursor = at(-50.0, 50.0);
    assert!(dispatch(&mut window, &event).is_empty());
}

fn typed_key(state: ElementState, text: &str) -> InputEvent {
    InputEvent::KeyboardInput {
        state,
        logical_key: Key::Character(text.to_string()),
        text: Some(text.to_string()),
    }
}

fn stroke(type_: KeyEventType, modifiers: u32, code: i32, is_system_key: i32) -> KeyEvent {
    KeyEvent {
        type_,
        modifiers,
        windows_key_code: code,
        native_key_code: code,
        is_system_key,
        character: 0,
        unmodified_character: 0,
    }
}

#[test]
fn a_key_types_its_text() {
    let mut window = window();
    let actions = dispatch(&mut window, &typed_key(ElementState::Pressed, "\u{1f600}"));
    let typed = |unit: u16| InputAction::Key {
        child: 3,
        event: KeyEvent {
            type_: KeyEventType::Char,
            modifiers: 0,
            windows_key_code: i32::from(unit),
            native_key_code: 0x1f600,
            is_system_key: 0,
            character: unit,
            unmodified_character: unit,
        },
    };
    assert_eq!(
        actions,
        vec![
            InputAction::Key {
                child: 3,
                event: stroke(KeyEventType::RawKeyDown, 0, 0x1f600, 0),
            },
            typed(0xd83d),
            typed(0xde00),
        ]
    );
}

#[test]
fn a_released_key_types_nothing() {
    let mut window = window();
    assert_eq!(
        dispatch(&mut window, &typed_key(ElementState::Released, "a")),
        vec![InputAction::Key { child: 3, event: stroke(KeyEventType::KeyUp, 0, 0x41, 0) }]
    );
}

#[test]
fn shortcuts_type_nothing() {
    for (modifiers, flags, system) in [(CONTROL_STATE, 4, 0), (ALT_STATE, 8, 1), (META_STATE, 128, 0)] {
        let mut window = window();
        window.offscreen_input.modifiers = modifiers;
        assert_eq!(
            dispatch(&mut window, &typed_key(ElementState::Pressed, "a")),
            vec![InputAction::Key {
                child: 3,
                event: stroke(KeyEventType::RawKeyDown, flags, 0x41, system),
            }]
        );
    }
    let mut window = window();
    window.offscreen_input.modifiers = SHIFT_STATE;
    assert_eq!(dispatch(&mut window, &typed_key(ElementState::Pressed, "A")).len(), 2);
}

#[test]
fn a_key_without_text_has_one_event() {
    let mut window = window();
    let event = InputEvent::KeyboardInput {
        state: ElementState::Pressed,
        logical_key: Key::Named(NamedKey::F5),
        text: None,
    };
    assert_eq!(
        dispatch(&mut window, &event),
        vec![InputAction::Key { child: 3, event: stroke(KeyEventType::RawKeyDown, 0, 0x74, 0) }]
    );
    window.children.clear();
    assert!(dispatch(&mut window, &event).is_empty());
}

#[test]
fn composition_goes_to_the_topmost_webview() {
    let mut window = window();
    window.offscreen_input.ime_cursor_area =
        Some(OffscreenImeCursorArea { x: 1, y: 2, width: 3, height: 4 });
    let event = InputEvent::Ime(Ime::Preedit("\u{65e5}\u{1f600}".to_string(), Some((3, 7))));
    assert_eq!(
        dispatch(&mut window, &event),
        vec![InputAction::SetComposition {
            child: 3,
            text: "\u{65e5}\u{1f600}".to_string(),
            replacement: Range { from: u32::MAX, to: u32::MAX },
            selection: Some(Range { from: 1, to: 3 }),
        }]
    );
    assert_eq!(window.offscreen_input.ime_cursor, Some(3));
    assert_eq!(window.offscreen_input.ime_cursor_area, None);
    let event = InputEvent::Ime(Ime::Preedit(String::new(), None));
    dispatch(&mut window, &event);
    assert_eq!(window.offscreen_input.ime_cursor, None);
}

#[test]
fn selections_count_code_units() {
    assert_eq!(composition_selection("abc", Some((1, 2))), Some(Range { from: 1, to: 2 }));
    assert_eq!(composition_selection("\u{e9}", Some((0, 2))), Some(Range { from: 0, to: 1 }));
    assert_eq!(composition_selection("abc", None), None);
    assert_eq!(invalid_cef_range(), Range { from: u32::MAX, to: u32::MAX });
}

#[test]
fn commit_ends_the_composition() {
    let mut window = window();
    window.offscreen_input.ime_cursor = Some(2);
    window.offscreen_input.ime_cursor_area =
        Some(OffscreenImeCursorArea { x: 1, y: 2, width: 3, height: 4 });
    let event = InputEvent::Ime(Ime::Commit("\u{65e5}".to_string()));
    assert_eq!(
        dispatch(&mut window, &event),
        vec![InputAction::CommitText {
            child: 3,
            text: "\u{65e5}".to_string(),
            replacement: invalid_cef_range(),
            relative_cursor: 0,
        }]
    );
    assert_eq!(window.offscreen_input.ime_cursor, None);
    assert_eq!(window.offscreen_input.ime_cursor_area, None);
    assert_eq!(query_ime_cursor_area(&window), None);
}

#[test]
fn disabling_the_input_method_cancels() {
    let mut window = window();
    window.offscreen_input.ime_cursor = Some(2);
    window.offscreen_input.ime_caret_created = true;
    assert_eq!(
        dispatch(&mut window, &InputEvent::Ime(Ime::Disabled)),
        vec![InputAction::CancelComposition { child: 3 }, InputAction::DestroyImeCaret]
    );
    assert_eq!(window.offscreen_input, OffscreenInputState::default());
}

#[test]
fn other_events_do_nothing() {
    let mut window = window();
    let before = window.offscreen_input;
    let delete = Ime::DeleteSurrounding { before_bytes: 1, after_bytes: 2 };
    for event in [InputEvent::Other, InputEvent::Ime(Ime::Enabled), InputEvent::Ime(delete)] {
        assert!(dispatch(&mut window, &event).is_empty());
        assert_eq!(window.offscreen_input, before);
    }
}

#[test]
fn composition_state_is_cleared() {
    let mut window = window();
    window.offscreen_input.ime_cursor = Some(7);
    window.offscreen_input.modifiers = 4;
    clear_ime_state(&mut window);
    assert_eq!(window.offscreen_input.ime_cursor, None);
    assert_eq!(window.offscreen_input.modifiers, 4);
}

#[test]
fn the_caret_is_destroyed_once() {
    let mut window = window();
    assert!(!destroy_ime_caret(&mut window));
    window.offscreen_input.ime_caret_created = true;
    assert!(destroy_ime_caret(&mut window));
    assert!(!destroy_ime_caret(&mut window));
}

const AREA: OffscreenImeCursorArea = OffscreenImeCursorArea { x: 5, y: 6, width: 1, height: 18 };

fn performed(step: Step) -> Vec<InputAction> {
    match step {
        Step::Perform(actions) => actions,
        other => panic!("unexpected step {other:?}"),
    }
}

#[test]
fn a_plain_event_takes_one_step() {
    let mut window = window();
    let mut handling = handle(InputEvent::PointerLeft);
    assert_eq!(performed(handling.step(&mut window, Reply::Ready)).len(), 2);
    assert!(matches!(handling.step(&mut window, Reply::Ready), Step::Done));
    assert!(matches!(handling.step(&mut window, Reply::Ready), Step::Done));
}

#[test]
fn a_composition_is_announced_before_and_after() {
    let mut window = window();
    window.offscreen_input.ime_cursor = Some(4);
    let event = InputEvent::Ime(Ime::Preedit("ab".to_string(), Some((0, 1))));
    let mut handling = handle(event);
    let step = handling.step(&mut window, Reply::Ready);
    assert!(matches!(step, Step::QueryCursorArea { child: 3, cursor: 4 }));
    let step = handling.step(&mut window, Reply::CursorArea(Some(AREA)));
    let Step::UpdateCursorArea(data) = step else { panic!("unexpected step {step:?}") };
    assert_eq!(
        data.cursor_area,
        Some((
            Position::Physical(PhysicalPosition::new(5, 6)),
            Size::Physical(PhysicalSize::new(1, 18)),
        ))
    );
    assert_eq!(window.offscreen_input.ime_cursor_area, None);
    let actions = performed(handling.step(&mut window, Reply::Updated(true)));
    assert!(matches!(actions[0], InputAction::SetComposition { child: 3, .. }));
    assert_eq!(window.offscreen_input.ime_cursor_area, None);
    let step = handling.step(&mut window, Reply::Ready);
    assert!(matches!(step, Step::QueryCursorArea { child: 3, cursor: 1 }));
    let step = handling.step(&mut window, Reply::CursorArea(Some(AREA)));
    assert!(matches!(step, Step::UpdateCursorArea(_)));
    assert!(matches!(handling.step(&mut window, Reply::Updated(true)), Step::Done));
    assert_eq!(window.offscreen_input.ime_cursor_area, Some(AREA));
}

#[test]
fn a_known_area_is_not_announced_again() {
    let mut window = window();
    window.offscreen_input.ime_cursor = Some(4);
    window.offscreen_input.ime_cursor_area = Some(AREA);
    assert_eq!(sync_ime_cursor_area(&window, Some(AREA)), None);
    let other = OffscreenImeCursorArea { x: 0, ..AREA };
    assert_eq!(sync_ime_cursor_area(&window, Some(other)), Some(other));
    assert_eq!(sync_ime_cursor_area(&window, None), None);
    let mut handling = handle(InputEvent::Other);
    handling.step(&mut window, Reply::Ready);
    let step = handling.step(&mut window, Reply::CursorArea(Some(AREA)));
    assert!(performed(step).is_empty());
}

#[test]
fn a_refused_area_is_announced_again() {
    let mut window = window();
    window.offscreen_input.ime_cursor = Some(4);
    window.offscreen_input.ime_caret_created = true;
    for _ in 0..2 {
        let mut handling = handle(InputEvent::Other);
        handling.step(&mut window, Reply::Ready);
        let step = handling.step(&mut window, Reply::CursorArea(Some(AREA)));
        assert!(matches!(step, Step::UpdateCursorArea(_)));
        assert!(performed(handling.step(&mut window, Reply::Updated(false))).is_empty());
        assert_eq!(window.offscreen_input.ime_cursor_area, None);
    }
}

#[test]
fn the_caret_follows_the_area() {
    let mut window = window();
    window.offscreen_input.ime_cursor = Some(4);
    window.offscreen_input.ime_caret_created = true;
    let mut handling = handle(InputEvent::Other);
    handling.step(&mut window, Reply::Ready);
    handling.step(&mut window, Reply::CursorArea(Some(AREA)));
    let step = handling.step(&mut window, Reply::Updated(true));
    assert!(matches!(step, Step::PositionCaret { x: 5, y: 6, height: 18 }));
    assert_eq!(window.offscreen_input.ime_cursor_area, Some(AREA));
    assert!(performed(handling.step(&mut window, Reply::Ready)).is_empty());
    assert!(matches!(handling.step(&mut window, Reply::Ready), Step::Done));
}

#[test]
fn enabling_the_input_method_creates_a_caret() {
    for created in [true, false] {
        let mut window = window();
        let mut handling = handle(InputEvent::Ime(Ime::Enabled));
        assert!(matches!(handling.step(&mut window, Reply::Ready), Step::CreateCaret));
        assert!(matches!(handling.step(&mut window, Reply::CaretCreated(created)), Step::Done));
        assert_eq!(window.offscreen_input.ime_caret_created, created);
    }
    let mut window = window();
    window.offscreen_input.ime_caret_created = true;
    let mut handling = handle(InputEvent::Ime(Ime::Enabled));
    assert!(performed(handling.step(&mut window, Reply::Ready)).is_empty());
    assert!(window.offscreen_input.ime_caret_created);
}

#[test]
fn unfit_replies_count_as_failures() {
    let mut window = window();
    let mut handling = Handling { event: InputEvent::Other, phase: Phase::AwaitCaret };
    assert!(matches!(handling.step(&mut window, Reply::Ready), Step::Done));
    assert!(!window.offscreen_input.ime_caret_created);
    let mut handling =
        Handling { event: InputEvent::Other, phase: Phase::AwaitUpdate { area: AREA, last: true } };
    assert!(matches!(handling.step(&mut window, Reply::CaretCreated(true)), Step::Done));
    assert_eq!(window.offscreen_input.ime_cursor_area, None);
}

#[test]
fn every_handling_ends() {
    let mut window = window();
    window.offscreen_input.ime_cursor = Some(4);
    window.offscreen_input.ime_caret_created = true;
    let mut handling = handle(InputEvent::Ime(Ime::Preedit("a".to_string(), Some((1, 1)))));
    let mut reply = Reply::Ready;
    let mut steps = 0;
    loop {
        reply = match handling.step(&mut window, reply) {
            Step::QueryCursorArea { .. } => Reply::CursorArea(Some(AREA)),
            Step::UpdateCursorArea(_) => Reply::Updated(true),
            Step::Done => break,
            _ => Reply::Ready,
        };
        steps += 1;
    }
    assert_eq!(steps, 7);
}

#[test]
fn replies_do_not_steer_the_event() {
    let mut actions = Vec::new();
    for (area, updated) in [(None, false), (Some(AREA), false), (Some(AREA), true)] {
        let mut window = window();
        window.offscreen_input.ime_cursor = Some(4);
        let position = at(12.0, 12.0);
        let mut handling = handle(button(ElementState::Pressed, MouseButton::Right, position));
        let mut reply = Reply::Ready;
        loop {
            reply = match handling.step(&mut window, reply) {
                Step::QueryCursorArea { .. } => Reply::CursorArea(area),
                Step::UpdateCursorArea(_) => Reply::Updated(updated),
                Step::Perform(performed) => {
                    actions.push(performed);
                    Reply::Ready
                }
                Step::Done => break,
                _ => Reply::Ready,
            };
        }
        assert_eq!(window.offscreen_input.cursor, position);
        assert_eq!(window.offscreen_input.pressed_buttons, 64);
        assert_eq!(window.offscreen_input.ime_cursor, Some(4));
        assert_eq!(window.offscreen_input.ime_cursor_area, if updated { area } else { None });
    }
    assert_eq!(actions.len(), 3);
    assert_eq!(actions[0].len(), 2);
    assert_eq!(actions[0], actions[1]);
    assert_eq!(actions[0], actions[2]);
}

#[test]
fn each_step_looks_at_the_webviews_anew() {
    let mut window = window();
    let mut handling = handle(InputEvent::Ime(Ime::Preedit("ab".to_string(), Some((0, 1)))));
    let actions = performed(handling.step(&mut window, Reply::Ready));
    assert!(matches!(actions[0], InputAction::SetComposition { child: 3, .. }));
    window.children[3] = webview(bounds(10, 10, 20, 20), false);
    let step = handling.step(&mut window, Reply::Ready);
    assert!(matches!(step, Step::QueryCursorArea { child: 1, cursor: 1 }));
}
