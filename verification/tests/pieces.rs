use offscreen_runtime::app_window::OffscreenInputState;
use offscreen_runtime::background::{
    background_pixel, draw_background_surface, dwm_visible_frame_height, BackgroundDrawing,
    BackgroundStep, Color, FrameEdges,
};
use offscreen_runtime::caret::{
    create_offscreen_ime_caret, position_offscreen_ime_caret, primary_input_language,
    restores_ime_context,
};
use offscreen_runtime::coordinate::{cell, CELL_LIMIT};
use offscreen_runtime::event_flags::{
    cef_modifiers, cef_mouse_button, update_pressed_buttons, ButtonSource, ElementState,
    MouseButton, MouseButtonType, TabletToolButton, ALT_DOWN, ALT_STATE, COMMAND_DOWN,
    CONTROL_DOWN, CONTROL_STATE, LEFT_MOUSE_BUTTON, META_STATE, MIDDLE_MOUSE_BUTTON,
    RIGHT_MOUSE_BUTTON, SHIFT_DOWN, SHIFT_STATE,
};
use offscreen_runtime::ime_request::{cursor_area_update, enable_ime, ImeSetupStep};
use offscreen_runtime::keys::{windows_key_code, Key, NamedKey};
use offscreen_runtime::offscreen::{OffscreenBounds, OffscreenImeCursorArea};
use offscreen_runtime::saturate::{saturate_extent, saturate_i32, saturate_u32};
use offscreen_runtime::taskbar::{
    set_overlay_icon, set_progress_bar, OverlayIconStep, ProgressBarState, ProgressBarStatus,
};
use offscreen_runtime::utf16::{encode_utf16, utf16_len, utf16_offset};
use winit::dpi::{PhysicalPosition, PhysicalSize, Position, Size};
use winit::event::{ButtonSource as Source, FingerId, MouseButton as Button};
use winit::keyboard::ModifiersState;

#[test]
fn cells_are_floors() {
    for value in [
        0.0, -0.0, 0.25, -0.25, 1.0, -1.0, 10.5, -10.5, 1e9 + 0.75, -1e9 - 0.75, 4503599627370495.5,
        -4503599627370495.5, 9007199254740993.0, 1e18, -1e18, 5e-324, -5e-324, 2.2e-308,
    ] {
        let value: f64 = value;
        assert_eq!(cell(value.to_bits()), Some(value.floor() as i64), "{value}");
    }
}

#[test]
fn far_cells_end_at_the_limit() {
    for value in [1e19, f64::MAX, f64::INFINITY] {
        let value: f64 = value;
        assert_eq!(cell(value.to_bits()), Some(CELL_LIMIT));
        assert_eq!(cell((-value).to_bits()), Some(-CELL_LIMIT));
    }
}

#[test]
fn no_number_has_no_cell() {
    assert_eq!(cell(f64::NAN.to_bits()), None);
    assert_eq!(cell((-f64::NAN).to_bits()), None);
    assert_eq!(cell(0x7ff0_0000_0000_0001), None);
}

#[test]
fn saturation_ends_at_the_range() {
    assert_eq!(saturate_i32(5), 5);
    assert_eq!(saturate_i32(i64::MAX), i32::MAX);
    assert_eq!(saturate_i32(i64::MIN), i32::MIN);
    assert_eq!(saturate_u32(-1), 0);
    assert_eq!(saturate_u32(1 << 40), u32::MAX);
    assert_eq!(saturate_extent(0), 1);
    assert_eq!(saturate_extent(3), 3);
}

#[test]
fn code_units_are_those_of_the_standard_library() {
    for text in ["", "a", "h\u{e9}llo", "\u{ffff}", "\u{10000}", "\u{1f600}z", "\u{10ffff}", "\u{65e5}\u{672c}"] {
        let expected: Vec<u16> = text.encode_utf16().collect();
        assert_eq!(encode_utf16(text), expected);
        assert_eq!(utf16_len(text), expected.len());
    }
}

#[test]
fn code_units_of_a_surrogate_pair() {
    assert_eq!(encode_utf16("\u{1f600}"), vec![0xd83d, 0xde00]);
}

#[test]
fn byte_offsets_become_code_unit_offsets() {
    let text = "a\u{e9}\u{65e5}\u{1f600}z";
    let bytes = [0, 1, 3, 6, 10, 11];
    let units = [0, 1, 2, 3, 5, 6];
    for (byte, unit) in bytes.into_iter().zip(units) {
        assert_eq!(utf16_offset(text, byte), unit);
        assert_eq!(text[..byte].encode_utf16().count(), unit);
    }
}

#[test]
fn character_keys_have_upper_case_codes() {
    assert_eq!(windows_key_code(&Key::Character("a".to_string())), 0x41);
    assert_eq!(windows_key_code(&Key::Character("Z".to_string())), 0x5a);
    assert_eq!(windows_key_code(&Key::Character("z".to_string())), 0x5a);
    assert_eq!(windows_key_code(&Key::Character("1".to_string())), 0x31);
    assert_eq!(windows_key_code(&Key::Character("{".to_string())), 0x7b);
    assert_eq!(windows_key_code(&Key::Character("`".to_string())), 0x60);
    assert_eq!(windows_key_code(&Key::Character("\u{e9}x".to_string())), 0xe9);
    assert_eq!(windows_key_code(&Key::Character("\u{1f600}".to_string())), 0x1f600);
    assert_eq!(windows_key_code(&Key::Character(String::new())), 0);
}

#[test]
fn named_keys_have_fixed_codes() {
    let codes = [
        (NamedKey::Backspace, 0x08),
        (NamedKey::Tab, 0x09),
        (NamedKey::Enter, 0x0d),
        (NamedKey::Shift, 0x10),
        (NamedKey::Control, 0x11),
        (NamedKey::Alt, 0x12),
        (NamedKey::Escape, 0x1b),
        (NamedKey::PageUp, 0x21),
        (NamedKey::PageDown, 0x22),
        (NamedKey::End, 0x23),
        (NamedKey::Home, 0x24),
        (NamedKey::ArrowLeft, 0x25),
        (NamedKey::ArrowUp, 0x26),
        (NamedKey::ArrowRight, 0x27),
        (NamedKey::ArrowDown, 0x28),
        (NamedKey::Delete, 0x2e),
        (NamedKey::F1, 0x70),
        (NamedKey::F12, 0x7b),
        (NamedKey::Other, 0),
    ];
    for (key, code) in codes {
        assert_eq!(windows_key_code(&Key::Named(key)), code);
    }
    assert_eq!(windows_key_code(&Key::Unidentified), 0);
}

#[test]
fn modifiers_become_event_flags() {
    let flags = |modifiers: ModifiersState| {
        cef_modifiers(&OffscreenInputState {
            modifiers: modifiers.bits(),
            ..OffscreenInputState::default()
        })
    };
    assert_eq!(flags(ModifiersState::empty()), 0);
    assert_eq!(flags(ModifiersState::SHIFT), 2);
    assert_eq!(flags(ModifiersState::CONTROL), 4);
    assert_eq!(flags(ModifiersState::ALT), 8);
    assert_eq!(flags(ModifiersState::META), 128);
    assert_eq!(flags(ModifiersState::all()), 2 | 4 | 8 | 128);
}

#[test]
fn modifier_bits_are_those_of_the_window_system() {
    assert_eq!(ModifiersState::SHIFT.bits(), SHIFT_STATE);
    assert_eq!(ModifiersState::CONTROL.bits(), CONTROL_STATE);
    assert_eq!(ModifiersState::ALT.bits(), ALT_STATE);
    assert_eq!(ModifiersState::META.bits(), META_STATE);
}

#[test]
fn flags_are_those_of_the_browser() {
    assert_eq!(SHIFT_DOWN, cef::sys::cef_event_flags_t::EVENTFLAG_SHIFT_DOWN.0 as u32);
    assert_eq!(CONTROL_DOWN, cef::sys::cef_event_flags_t::EVENTFLAG_CONTROL_DOWN.0 as u32);
    assert_eq!(ALT_DOWN, cef::sys::cef_event_flags_t::EVENTFLAG_ALT_DOWN.0 as u32);
    assert_eq!(COMMAND_DOWN, cef::sys::cef_event_flags_t::EVENTFLAG_COMMAND_DOWN.0 as u32);
}

#[test]
fn held_buttons_join_the_flags() {
    let mut input = OffscreenInputState::default();
    input.modifiers = SHIFT_STATE;
    update_pressed_buttons(&mut input, MouseButtonType::Left, ElementState::Pressed);
    update_pressed_buttons(&mut input, MouseButtonType::Right, ElementState::Pressed);
    assert_eq!(cef_modifiers(&input), SHIFT_DOWN | LEFT_MOUSE_BUTTON | RIGHT_MOUSE_BUTTON);
    update_pressed_buttons(&mut input, MouseButtonType::Left, ElementState::Released);
    assert_eq!(input.pressed_buttons, 64);
    update_pressed_buttons(&mut input, MouseButtonType::Middle, ElementState::Pressed);
    assert_eq!(input.pressed_buttons, 96);
    assert_eq!(MIDDLE_MOUSE_BUTTON, 32);
}

#[test]
fn release_undoes_press() {
    for button in [MouseButtonType::Left, MouseButtonType::Middle, MouseButtonType::Right] {
        let mut input = OffscreenInputState::default();
        update_pressed_buttons(&mut input, button, ElementState::Pressed);
        assert_ne!(input.pressed_buttons, 0);
        update_pressed_buttons(&mut input, button, ElementState::Released);
        assert_eq!(input.pressed_buttons, 0);
    }
}

#[test]
fn three_mouse_buttons_reach_the_browser() {
    assert_eq!(cef_mouse_button(MouseButton::Left), Some(MouseButtonType::Left));
    assert_eq!(cef_mouse_button(MouseButton::Middle), Some(MouseButtonType::Middle));
    assert_eq!(cef_mouse_button(MouseButton::Right), Some(MouseButtonType::Right));
    assert_eq!(cef_mouse_button(MouseButton::Back), None);
    assert_eq!(cef_mouse_button(MouseButton::Forward), None);
    assert_eq!(cef_mouse_button(MouseButton::Other), None);
}

#[test]
fn pointer_buttons_stand_for_mouse_buttons() {
    assert_eq!(ButtonSource::Mouse(MouseButton::Back).mouse_button(), Some(MouseButton::Back));
    assert_eq!(Source::Mouse(Button::Back).mouse_button(), Some(Button::Back));
    assert_eq!(ButtonSource::Touch.mouse_button(), Some(MouseButton::Left));
    let touch = Source::Touch { finger_id: FingerId::from_raw(0), force: None };
    assert_eq!(touch.mouse_button(), Some(Button::Left));
    assert_eq!(ButtonSource::Unknown(3).mouse_button(), None);
    assert_eq!(Source::Unknown(3).mouse_button(), None);
}

#[test]
fn tablet_buttons_stand_for_mouse_buttons() {
    let pairs = [
        (TabletToolButton::Contact, Some(MouseButton::Left)),
        (TabletToolButton::Barrel, Some(MouseButton::Right)),
        (TabletToolButton::Other(0), None),
        (TabletToolButton::Other(1), Some(MouseButton::Middle)),
        (TabletToolButton::Other(2), None),
        (TabletToolButton::Other(3), Some(MouseButton::Back)),
        (TabletToolButton::Other(4), Some(MouseButton::Forward)),
        (TabletToolButton::Other(5), None),
        (TabletToolButton::Other(u16::MAX), None),
    ];
    for (button, expected) in pairs {
        assert_eq!(ButtonSource::TabletTool(button).mouse_button(), expected);
    }
}

fn area_of(steps: &[ImeSetupStep], index: usize) -> Option<(Position, Size)> {
    match &steps[index] {
        ImeSetupStep::Enable(request) => {
            assert!(request.capabilities().cursor_area());
            assert!(!request.capabilities().hint_and_purpose());
            assert!(!request.capabilities().surrounding_text());
            request.request_data().cursor_area
        }
        other => panic!("unexpected step {other:?}"),
    }
}

#[test]
fn enabling_the_input_method_places_the_cursor() {
    let bounds = OffscreenBounds { x: -4, y: 9, width: 100, height: 100, scale_factor: 0 };
    let corner = Some((
        Position::Physical(PhysicalPosition::new(-4, 9)),
        Size::Physical(PhysicalSize::new(1, 1)),
    ));
    let steps = enable_ime(bounds, None);
    assert_eq!(steps.len(), 2);
    assert_eq!(area_of(&steps, 0), corner);
    assert!(matches!(steps[1], ImeSetupStep::InstallHook));
    let steps = enable_ime(bounds, Some(false));
    assert_eq!(steps.len(), 3);
    assert!(matches!(steps[0], ImeSetupStep::Disable));
    assert_eq!(area_of(&steps, 1), corner);
    assert!(matches!(steps[2], ImeSetupStep::InstallHook));
    let steps = enable_ime(bounds, Some(true));
    assert_eq!(steps.len(), 1);
    assert!(matches!(steps[0], ImeSetupStep::InstallHook));
}

#[test]
fn updates_carry_the_cursor_area() {
    let data = cursor_area_update(OffscreenImeCursorArea { x: i32::MIN, y: 2, width: 3, height: u32::MAX });
    assert_eq!(
        data.cursor_area,
        Some((
            Position::Physical(PhysicalPosition::new(i32::MIN, 2)),
            Size::Physical(PhysicalSize::new(3, u32::MAX)),
        ))
    );
    assert!(data.hint_and_purpose.is_none());
    assert!(data.surrounding_text.is_none());
}

#[test]
fn primary_language_is_in_the_lowest_bits() {
    assert_eq!(primary_input_language(0x0411_0411), 0x11);
    assert_eq!(primary_input_language(0x0804), 0x04);
    assert_eq!(primary_input_language(usize::MAX), 0x3ff);
}

#[test]
fn chinese_and_japanese_follow_the_caret() {
    assert!(create_offscreen_ime_caret(0x04));
    assert!(create_offscreen_ime_caret(0x11));
    assert!(!create_offscreen_ime_caret(0x09));
    assert!(!create_offscreen_ime_caret(0x12));
}

#[test]
fn japanese_caret_stands_below_the_area() {
    assert_eq!(position_offscreen_ime_caret(0x11, 1, 2, 20), (1, 22));
    assert_eq!(position_offscreen_ime_caret(0x04, 1, 2, 20), (1, 2));
    assert_eq!(position_offscreen_ime_caret(0x11, 1, i32::MAX, 20), (1, i32::MAX));
    for height in [0u32, 7, i32::MAX as u32, i32::MAX as u32 + 1, u32::MAX] {
        for y in [i32::MIN, -5, 0, 5, i32::MAX] {
            let expected = y.saturating_add(height as i32);
            assert_eq!(position_offscreen_ime_caret(0x11, 0, y, height).1, expected);
        }
    }
}

#[test]
fn focus_and_language_messages_restore_the_context() {
    assert!(restores_ime_context(0x51));
    assert!(restores_ime_context(0x07));
    assert!(!restores_ime_context(0x08));
}

#[test]
fn progress_status_has_a_flag() {
    let flag = |status| {
        set_progress_bar(ProgressBarState { status: Some(status), progress: None }).flag
    };
    assert_eq!(flag(ProgressBarStatus::NoProgress), Some(0));
    assert_eq!(flag(ProgressBarStatus::Indeterminate), Some(1));
    assert_eq!(flag(ProgressBarStatus::Normal), Some(2));
    assert_eq!(flag(ProgressBarStatus::Error), Some(4));
    assert_eq!(flag(ProgressBarStatus::Paused), Some(8));
}

#[test]
fn progress_is_at_most_all() {
    let value = |progress| {
        set_progress_bar(ProgressBarState { status: None, progress: Some(progress) }).value
    };
    assert_eq!(value(0), Some((0, 100)));
    assert_eq!(value(99), Some((99, 100)));
    assert_eq!(value(u64::MAX), Some((100, 100)));
    let update = set_progress_bar(ProgressBarState { status: None, progress: None });
    assert_eq!((update.flag, update.value), (None, None));
}

#[test]
fn overlay_icons_are_destroyed_after_use() {
    assert_eq!(
        set_overlay_icon(Some(42)),
        vec![OverlayIconStep::Show(42), OverlayIconStep::Destroy(42)]
    );
    assert_eq!(set_overlay_icon(None), vec![OverlayIconStep::Clear]);
}

#[test]
fn background_pixel_has_blue_lowest() {
    assert_eq!(background_pixel(Some(Color(0x12, 0x34, 0x56, 0x78))), 0x12_34_56);
    assert_eq!(background_pixel(Some(Color(0x12, 0x34, 0x56, 0x00))), 0x12_34_56);
    assert_eq!(background_pixel(None), 0);
}

fn drawing(step: BackgroundStep, present: bool) -> BackgroundDrawing {
    BackgroundDrawing { step, present }
}

#[test]
fn background_is_drawn_where_it_shows() {
    let color = Some(Color(1, 2, 3, 4));
    assert_eq!(
        draw_background_surface(false, None, 5, 6, true),
        drawing(BackgroundStep::Discard, true)
    );
    assert_eq!(
        draw_background_surface(true, None, 0, 6, true),
        drawing(BackgroundStep::Stop, true)
    );
    assert_eq!(
        draw_background_surface(false, color, 5, 0, false),
        drawing(BackgroundStep::Stop, false)
    );
    assert_eq!(
        draw_background_surface(true, None, 5, 6, true),
        drawing(BackgroundStep::Resize { width: 5, height: 6, pixel: 0 }, true)
    );
    assert_eq!(
        draw_background_surface(false, color, 5, 6, false),
        drawing(BackgroundStep::Make { width: 5, height: 6, pixel: 0x01_02_03 }, false)
    );
}

#[test]
fn background_is_shown_step_by_step() {
    let mut background = draw_background_surface(true, Some(Color(1, 2, 3, 4)), 5, 6, false);
    background.proceed(true);
    let resize = BackgroundStep::Resize { width: 5, height: 6, pixel: 0x01_02_03 };
    assert_eq!(background, drawing(resize, true));
    background.proceed(true);
    assert_eq!(background, drawing(BackgroundStep::Open { pixel: 0x01_02_03 }, true));
    background.proceed(true);
    assert_eq!(background, drawing(BackgroundStep::Show { pixel: 0x01_02_03 }, true));
    for succeeded in [true, false] {
        let mut shown = background;
        shown.proceed(succeeded);
        assert_eq!(shown, drawing(BackgroundStep::Stop, true));
    }
}

#[test]
fn failed_making_leaves_no_background_surface() {
    let first = draw_background_surface(true, None, 5, 6, false);
    let mut background = first;
    background.proceed(false);
    assert_eq!(background, drawing(BackgroundStep::Stop, false));
    assert_eq!(draw_background_surface(true, None, 5, 6, background.present), first);
}

#[test]
fn failed_resizing_or_opening_keeps_the_background_surface() {
    let mut background = draw_background_surface(true, None, 5, 6, true);
    background.proceed(false);
    assert_eq!(background, drawing(BackgroundStep::Stop, true));
    let mut background = draw_background_surface(true, None, 5, 6, false);
    background.proceed(true);
    background.proceed(true);
    background.proceed(false);
    assert_eq!(background, drawing(BackgroundStep::Stop, true));
}

#[test]
fn unneeded_background_surface_is_dropped() {
    let mut background = draw_background_surface(false, None, 5, 6, true);
    background.proceed(true);
    assert_eq!(background, drawing(BackgroundStep::Stop, false));
    background.proceed(true);
    assert_eq!(background, drawing(BackgroundStep::Stop, false));
}

#[test]
fn frame_height_is_the_distance_of_its_edges() {
    assert_eq!(dwm_visible_frame_height(None), None);
    assert_eq!(dwm_visible_frame_height(Some(FrameEdges { top: -8, bottom: 100 })), Some(108));
    assert_eq!(
        dwm_visible_frame_height(Some(FrameEdges { top: 1, bottom: 0 })),
        Some(u32::MAX)
    );
}
