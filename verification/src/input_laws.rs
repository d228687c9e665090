//! What each input event does, in terms of the event and the window alone.
//!
//! The laws describe the outcome of `dispatch`: the actions, and the input state
//! afterwards. They look at webviews and bits directly.
use crate::app_window::{self, AppWebview, AppWindow, OffscreenInputState, PointerPosition};
use crate::coordinate;
use crate::event_flags::{
    self, ButtonSource, ElementState, MouseButton, MouseButtonType, TabletToolButton,
};
use crate::keys::{self, Key};
use crate::offscreen_input::{
    self, Ime, InputAction, InputEvent, KeyEvent, KeyEventType, PointerSource, Range,
};
use crate::utf16;
use vstd::prelude::*;
use vstd::utf8;

verus! {

/// The webview has a surface that is not hidden.
pub open spec fn is_shown(webview: AppWebview) -> bool {
    webview.offscreen_surface matches Some(surface) && surface.state.visible
}

/// The webview is shown, and the position is within its surface: not before its
/// first column and row, and before the end of both.
pub open spec fn is_under(webview: AppWebview, position: PointerPosition) -> bool {
    webview.offscreen_surface matches Some(surface) && {
        &&& surface.state.visible
        &&& coordinate::at_least(position.x, surface.state.bounds.x as int)
        &&& !coordinate::at_least(
            position.x,
            surface.state.bounds.x + surface.state.bounds.width,
        )
        &&& coordinate::at_least(position.y, surface.state.bounds.y as int)
        &&& !coordinate::at_least(
            position.y,
            surface.state.bounds.y + surface.state.bounds.height,
        )
    }
}

/// The webview with this index is under the pointer, and none above it is.
pub open spec fn is_topmost_under(
    appwindow: AppWindow,
    position: PointerPosition,
    child: usize,
) -> bool {
    &&& child < appwindow.children@.len() <= usize::MAX
    &&& is_under(appwindow.children@[child as int], position)
    &&& forall|i: int|
        child < i < appwindow.children@.len() ==> !is_under(
            #[trigger] appwindow.children@[i],
            position,
        )
}

/// No webview is under the pointer.
pub open spec fn none_under(appwindow: AppWindow, position: PointerPosition) -> bool {
    &&& appwindow.children@.len() <= usize::MAX
    &&& forall|i: int|
        0 <= i < appwindow.children@.len() ==> !is_under(
            #[trigger] appwindow.children@[i],
            position,
        )
}

/// The webview with this index is shown, and none above it is.
pub open spec fn is_topmost_shown(appwindow: AppWindow, child: usize) -> bool {
    &&& child < appwindow.children@.len() <= usize::MAX
    &&& is_shown(appwindow.children@[child as int])
    &&& forall|i: int|
        child < i < appwindow.children@.len() ==> !is_shown(#[trigger] appwindow.children@[i])
}

/// No webview is shown.
pub open spec fn none_shown(appwindow: AppWindow) -> bool {
    &&& appwindow.children@.len() <= usize::MAX
    &&& forall|i: int|
        0 <= i < appwindow.children@.len() ==> !is_shown(#[trigger] appwindow.children@[i])
}

/// The value, or the end of the range of `i32` that it is beyond.
pub open spec fn ends_in_range(value: i64, result: i32) -> bool {
    &&& -0x8000_0000 <= value <= 0x7fff_ffff ==> result == value
    &&& value > 0x7fff_ffff ==> result == 0x7fff_ffff
    &&& value < -0x8000_0000 ==> result == -0x8000_0000
}

proof fn lemma_under(webview: AppWebview, position: PointerPosition)
    ensures
        is_under(webview, position) <==> offscreen_input::hit(webview, position),
{
    if let Some(surface) = webview.offscreen_surface {
        let bounds = surface.state.bounds;
        coordinate::law_sides_exclude_each_other(position.x, bounds.x as int);
        coordinate::law_sides_exclude_each_other(position.y, bounds.y as int);
        coordinate::law_sides_exclude_each_other(position.x, bounds.x + bounds.width);
        coordinate::law_sides_exclude_each_other(position.y, bounds.y + bounds.height);
    }
}

/// A pointer event goes to the topmost webview under the pointer, and nowhere
/// where there is none.
pub proof fn law_pointer_events_go_to_the_topmost_webview(
    appwindow: AppWindow,
    position: PointerPosition,
    child: usize,
)
    ensures
        is_topmost_under(appwindow, position, child) ==> offscreen_input::target(
            appwindow,
            position,
        ) == Some(child),
        none_under(appwindow, position) ==> offscreen_input::target(appwindow, position) is None,
        appwindow.children@.len() <= usize::MAX ==> match offscreen_input::target(
            appwindow,
            position,
        ) {
            Some(target) => is_topmost_under(appwindow, position, target),
            None => none_under(appwindow, position),
        },
{
    let children = appwindow.children@;
    assert forall|i: int| 0 <= i < children.len() implies is_under(
        #[trigger] children[i],
        position,
    ) == offscreen_input::hit(children[i], position) by {
        lemma_under(children[i], position);
    }
    if children.len() <= usize::MAX {
        offscreen_input::law_target_is_the_topmost_hit(children, children.len(), position);
        if let Some(target) = offscreen_input::target(appwindow, position) {
            assert(is_under(children[target as int], position));
            if is_topmost_under(appwindow, position, child) {
                assert(offscreen_input::hit(children[child as int], position));
            }
        } else if is_topmost_under(appwindow, position, child) {
            assert(offscreen_input::hit(children[child as int], position));
        }
    }
}

/// Keys and text go to the topmost webview that is shown.
pub proof fn law_keys_go_to_the_topmost_webview(appwindow: AppWindow, child: usize)
    ensures
        is_topmost_shown(appwindow, child) ==> appwindow.top() == Some(child),
        none_shown(appwindow) ==> appwindow.top() is None,
        appwindow.children@.len() <= usize::MAX ==> match appwindow.top() {
            Some(top) => is_topmost_shown(appwindow, top),
            None => none_shown(appwindow),
        },
{
    let children = appwindow.children@;
    assert forall|i: int| 0 <= i < children.len() implies is_shown(#[trigger] children[i])
        == children[i].visible() by {}
    if children.len() <= usize::MAX {
        app_window::law_top_child(appwindow);
        if let Some(top) = appwindow.top() {
            assert(is_shown(children[top as int]));
            if is_topmost_shown(appwindow, child) {
                assert(children[child as int].visible());
            }
        } else if is_topmost_shown(appwindow, child) {
            assert(children[child as int].visible());
        }
    }
}

/// The listed webviews are those that are shown, from the lowest to the topmost.
pub proof fn law_shown_webviews_are_listed(appwindow: AppWindow)
    requires
        appwindow.children@.len() <= usize::MAX,
    ensures
        forall|i: int|
            0 <= i < appwindow.children@.len() ==> (appwindow.visible().contains(i as usize)
                <==> is_shown(#[trigger] appwindow.children@[i])),
        forall|k: int|
            0 <= k < appwindow.visible().len() ==> (#[trigger] appwindow.visible()[k])
                < appwindow.children@.len(),
        forall|j: int, k: int|
            0 <= j < k < appwindow.visible().len() ==> appwindow.visible()[j]
                < appwindow.visible()[k],
{
    let children = appwindow.children@;
    let visible = appwindow.visible();
    app_window::law_visible_children(children, children.len());
    assert forall|i: int| 0 <= i < children.len() implies (visible.contains(i as usize)
        <==> is_shown(#[trigger] children[i])) by {
        assert(is_shown(children[i]) == children[i].visible());
        if visible.contains(i as usize) {
            let k = choose|k: int| 0 <= k < visible.len() && visible[k] == i as usize;
            assert(children[visible[k] as int].visible());
        }
    }
}

/// Changed modifiers are remembered, and nothing else happens.
pub proof fn law_modifiers_are_remembered(appwindow: AppWindow, modifiers: u32)
    ensures
        offscreen_input::actions_for(
            appwindow,
            InputEvent::ModifiersChanged { modifiers },
        ).len() == 0,
        offscreen_input::input_after(
            appwindow.offscreen_input,
            InputEvent::ModifiersChanged { modifiers },
        ) == (OffscreenInputState { modifiers, ..appwindow.offscreen_input }),
{
}

proof fn lemma_focus(children: Seq<usize>, focused: bool)
    ensures
        focused ==> {
            &&& offscreen_input::focus_actions(children, true).len() == children.len()
            &&& forall|k: int|
                0 <= k < children.len() ==> (#[trigger] offscreen_input::focus_actions(
                    children,
                    true,
                )[k]) == (InputAction::SetFocus { child: children[k], focused: true })
        },
        !focused ==> {
            &&& offscreen_input::focus_actions(children, false).len() == 2 * children.len()
            &&& forall|k: int|
                0 <= k < children.len() ==> {
                    &&& offscreen_input::focus_actions(children, false)[2 * k] == (
                    InputAction::SetFocus { child: #[trigger] children[k], focused: false })
                    &&& offscreen_input::focus_actions(children, false)[2 * k + 1] == (
                    InputAction::CaptureLost { child: children[k] })
                }
        },
    decreases children.len(),
{
    if children.len() > 0 {
        let fewer = children.drop_last();
        let last = children.len() - 1;
        lemma_focus(fewer, focused);
        let before = offscreen_input::focus_actions(fewer, focused);
        let all = offscreen_input::focus_actions(children, focused);
        assert forall|i: int| 0 <= i < before.len() implies all[i] == before[i] by {}
        assert forall|k: int| 0 <= k < last implies fewer[k] == #[trigger] children[k] by {}
        assert(children[last] == children.last());
    }
}

/// When the window gets the focus, its input context is restored first; then
/// every webview that is shown gets the focus, from the lowest to the topmost.
pub proof fn law_focus_reaches_the_webviews(appwindow: AppWindow)
    ensures
        ({
            let actions = offscreen_input::actions_for(appwindow, InputEvent::Focused(true));
            let told = appwindow.visible();
            &&& actions.len() == 1 + told.len()
            &&& actions[0] == InputAction::RestoreImeContext
            &&& forall|k: int|
                0 <= k < told.len() ==> actions[1 + k] == (InputAction::SetFocus {
                    child: #[trigger] told[k],
                    focused: true,
                })
        }),
        offscreen_input::input_after(appwindow.offscreen_input, InputEvent::Focused(true))
            == appwindow.offscreen_input,
{
    let told = appwindow.visible();
    let actions = offscreen_input::actions_for(appwindow, InputEvent::Focused(true));
    lemma_focus(told, true);
    assert forall|k: int| 0 <= k < told.len() implies actions[1 + k] == (InputAction::SetFocus {
        child: #[trigger] told[k],
        focused: true,
    }) by {
        assert(actions[1 + k] == offscreen_input::focus_actions(told, true)[k]);
    }
}

/// When the window loses the focus, a native caret is destroyed first; then
/// every webview that is shown loses the focus and any captured pointer, from
/// the lowest to the topmost.
pub proof fn law_lost_focus_reaches_the_webviews(appwindow: AppWindow)
    ensures
        ({
            let actions = offscreen_input::actions_for(appwindow, InputEvent::Focused(false));
            let told = appwindow.visible();
            let first: int = if appwindow.offscreen_input.ime_caret_created { 1 } else { 0 };
            &&& actions.len() == first + 2 * told.len()
            &&& first == 1 ==> actions[0] == InputAction::DestroyImeCaret
            &&& forall|k: int|
                0 <= k < told.len() ==> {
                    &&& actions[first + 2 * k] == (InputAction::SetFocus {
                        child: #[trigger] told[k],
                        focused: false,
                    })
                    &&& actions[first + 2 * k + 1] == (InputAction::CaptureLost { child: told[k] })
                }
        }),
        offscreen_input::input_after(appwindow.offscreen_input, InputEvent::Focused(false)) == (
        OffscreenInputState { ime_caret_created: false, ..appwindow.offscreen_input }),
{
    let told = appwindow.visible();
    let actions = offscreen_input::actions_for(appwindow, InputEvent::Focused(false));
    let first: int = if appwindow.offscreen_input.ime_caret_created { 1 } else { 0 };
    let rest = offscreen_input::focus_actions(told, false);
    lemma_focus(told, false);
    assert forall|k: int| 0 <= k < told.len() implies {
        &&& actions[first + 2 * k] == (InputAction::SetFocus {
            child: #[trigger] told[k],
            focused: false,
        })
        &&& actions[first + 2 * k + 1] == (InputAction::CaptureLost { child: told[k] })
    } by {
        assert(actions[first + 2 * k] == rest[2 * k]);
        assert(actions[first + 2 * k + 1] == rest[2 * k + 1]);
    }
}

/// A mouse that moves, and any pointer that enters, is remembered where it is.
/// The topmost webview under it is told of the movement.
pub proof fn law_movement_reaches_the_webview(
    appwindow: AppWindow,
    event: InputEvent,
    position: PointerPosition,
    child: usize,
)
    requires
        event == (InputEvent::PointerMoved { position, source: PointerSource::Mouse }) || event == (
        InputEvent::PointerEntered { position }),
    ensures
        is_topmost_under(appwindow, position, child) ==> offscreen_input::actions_for(
            appwindow,
            event,
        ) == seq![
            InputAction::MouseMove {
                child,
                position,
                modifiers: event_flags::event_flags(appwindow.offscreen_input),
                leave: false,
            },
        ],
        none_under(appwindow, position) ==> offscreen_input::actions_for(appwindow, event).len()
            == 0,
        offscreen_input::input_after(appwindow.offscreen_input, event) == (OffscreenInputState {
            cursor: position,
            ..appwindow.offscreen_input
        }),
{
    law_pointer_events_go_to_the_topmost_webview(appwindow, position, child);
}

/// Movements of other pointers, and events that are not for webviews, do
/// nothing.
pub proof fn law_other_events_do_nothing(appwindow: AppWindow, event: InputEvent)
    requires
        match event {
            InputEvent::PointerMoved { source, .. } => source != PointerSource::Mouse,
            InputEvent::Ime(Ime::Enabled) => true,
            InputEvent::Ime(Ime::DeleteSurrounding { .. }) => true,
            InputEvent::Other => true,
            _ => false,
        },
    ensures
        offscreen_input::actions_for(appwindow, event).len() == 0,
        offscreen_input::input_after(appwindow.offscreen_input, event) == appwindow.offscreen_input,
{
}

/// When the pointer leaves the window, every webview that is shown is told so,
/// from the lowest to the topmost, with the position where it was last seen.
pub proof fn law_leaving_reaches_the_webviews(appwindow: AppWindow)
    ensures
        offscreen_input::actions_for(appwindow, InputEvent::PointerLeft).len()
            == appwindow.visible().len(),
        forall|k: int|
            0 <= k < appwindow.visible().len() ==> (#[trigger] offscreen_input::actions_for(
                appwindow,
                InputEvent::PointerLeft,
            )[k]) == (InputAction::MouseMove {
                child: appwindow.visible()[k],
                position: appwindow.offscreen_input.cursor,
                modifiers: event_flags::event_flags(appwindow.offscreen_input),
                leave: true,
            }),
        offscreen_input::input_after(appwindow.offscreen_input, InputEvent::PointerLeft)
            == appwindow.offscreen_input,
{
}

/// The button of the source is the left, middle or right one, whose event flag
/// is this: a mouse's own button, any touch as left, and of a tablet tool its
/// contact as left, its barrel as right, and its first other button as middle.
pub open spec fn is_button(source: ButtonSource, button: MouseButtonType, flag: u32) -> bool {
    ||| {
        &&& button == MouseButtonType::Left
        &&& flag == 16
        &&& {
            ||| source == ButtonSource::Mouse(MouseButton::Left)
            ||| source == ButtonSource::Touch
            ||| source == ButtonSource::TabletTool(TabletToolButton::Contact)
        }
    }
    ||| {
        &&& button == MouseButtonType::Middle
        &&& flag == 32
        &&& {
            ||| source == ButtonSource::Mouse(MouseButton::Middle)
            ||| source == ButtonSource::TabletTool(TabletToolButton::Other(1))
        }
    }
    ||| {
        &&& button == MouseButtonType::Right
        &&& flag == 64
        &&& {
            ||| source == ButtonSource::Mouse(MouseButton::Right)
            ||| source == ButtonSource::TabletTool(TabletToolButton::Barrel)
        }
    }
}

/// The source is a button that the browser does not know.
pub open spec fn is_other_button(source: ButtonSource) -> bool {
    match source {
        ButtonSource::Mouse(button) => button != MouseButton::Left && button != MouseButton::Middle
            && button != MouseButton::Right,
        ButtonSource::Touch => false,
        ButtonSource::TabletTool(TabletToolButton::Other(code)) => code != 1,
        ButtonSource::TabletTool(_) => false,
        ButtonSource::Unknown(_) => true,
    }
}

/// A press or a release leads to exactly one click on the topmost webview under
/// the pointer: with that same button, at the event's position, saying whether
/// it went up, and with event flags that hold the button's flag just if it went
/// down. A press gives that webview the focus first.
pub proof fn law_clicks_reach_the_webview(
    appwindow: AppWindow,
    state: ElementState,
    position: PointerPosition,
    source: ButtonSource,
    button: MouseButtonType,
    flag: u32,
    child: usize,
)
    requires
        is_button(source, button, flag),
        is_topmost_under(appwindow, position, child),
    ensures
        ({
            let event = InputEvent::PointerButton { state, position, button: source };
            let actions = offscreen_input::actions_for(appwindow, event);
            let after = offscreen_input::input_after(appwindow.offscreen_input, event);
            &&& state == ElementState::Pressed ==> actions.len() == 2 && actions[0] == (
            InputAction::SetFocus { child, focused: true })
            &&& state == ElementState::Released ==> actions.len() == 1
            &&& actions.last() matches InputAction::MouseClick {
                child: clicked,
                position: at,
                modifiers,
                button: clicked_with,
                released,
                click_count,
            } && {
                &&& clicked == child
                &&& at == position
                &&& clicked_with == button
                &&& released == (state == ElementState::Released)
                &&& click_count == 1
                &&& modifiers == event_flags::event_flags(after)
                &&& (modifiers & flag != 0) == (state == ElementState::Pressed)
            }
        }),
{
    let held = appwindow.offscreen_input.pressed_buttons;
    let event = InputEvent::PointerButton { state, position, button: source };
    let after = offscreen_input::input_after(appwindow.offscreen_input, event);
    law_pointer_events_go_to_the_topmost_webview(appwindow, position, child);
    law_held_buttons(appwindow.offscreen_input, state, position, source, button, flag);
    event_flags::law_event_flags_bit_by_bit(after);
    let flags = event_flags::event_flags(after);
    let pressed = after.pressed_buttons;
    assert(flags & flag == pressed & flag) by (bit_vector)
        requires
            flags & !0x8eu32 == pressed & !0x8eu32,
            flag == 16 || flag == 32 || flag == 64,
    ;
}

/// A press or a release is remembered: where it was, and that its button, of
/// all the buttons, is held or not.
pub proof fn law_held_buttons(
    input: OffscreenInputState,
    state: ElementState,
    position: PointerPosition,
    source: ButtonSource,
    button: MouseButtonType,
    flag: u32,
)
    requires
        is_button(source, button, flag),
    ensures
        ({
            let after = offscreen_input::input_after(
                input,
                InputEvent::PointerButton { state, position, button: source },
            );
            &&& after == (OffscreenInputState {
                cursor: position,
                pressed_buttons: after.pressed_buttons,
                ..input
            })
            &&& (after.pressed_buttons & flag != 0) == (state == ElementState::Pressed)
            &&& after.pressed_buttons & !flag == input.pressed_buttons & !flag
        }),
{
    event_flags::law_only_one_flag_changes(input.pressed_buttons, button, flag, state);
}

/// A press or a release beside all webviews is remembered and leads to nothing.
/// Buttons that the browser does not know are not even remembered.
pub proof fn law_clicks_beside_the_webviews(
    appwindow: AppWindow,
    state: ElementState,
    position: PointerPosition,
    source: ButtonSource,
)
    ensures
        none_under(appwindow, position) || is_other_button(source) ==>
            offscreen_input::actions_for(
            appwindow,
            InputEvent::PointerButton { state, position, button: source },
        ).len() == 0,
        is_other_button(source) ==> offscreen_input::input_after(
            appwindow.offscreen_input,
            InputEvent::PointerButton { state, position, button: source },
        ) == appwindow.offscreen_input,
        is_other_button(source) || exists|button: MouseButtonType, flag: u32|
            is_button(source, button, flag),
{
    law_pointer_events_go_to_the_topmost_webview(appwindow, position, 0);
    if !is_other_button(source) {
        assert(is_button(source, MouseButtonType::Left, 16) || is_button(
            source,
            MouseButtonType::Middle,
            32,
        ) || is_button(source, MouseButtonType::Right, 64));
    }
}

/// The wheel scrolls the topmost webview under the pointer, as far as the
/// browser counts, and changes nothing else.
pub proof fn law_scrolling_reaches_the_webview(
    appwindow: AppWindow,
    delta_x: i64,
    delta_y: i64,
    child: usize,
)
    ensures
        ({
            let event = InputEvent::MouseWheel { delta_x, delta_y };
            let actions = offscreen_input::actions_for(appwindow, event);
            let cursor = appwindow.offscreen_input.cursor;
            &&& is_topmost_under(appwindow, cursor, child) ==> {
                &&& actions.len() == 1
                &&& actions[0] matches InputAction::MouseWheel {
                    child: scrolled,
                    position,
                    modifiers,
                    delta_x: x,
                    delta_y: y,
                } && {
                    &&& scrolled == child
                    &&& position == cursor
                    &&& modifiers == event_flags::event_flags(appwindow.offscreen_input)
                    &&& ends_in_range(delta_x, x)
                    &&& ends_in_range(delta_y, y)
                }
            }
            &&& none_under(appwindow, cursor) ==> actions.len() == 0
            &&& offscreen_input::input_after(appwindow.offscreen_input, event)
                == appwindow.offscreen_input
        }),
{
    law_pointer_events_go_to_the_topmost_webview(
        appwindow,
        appwindow.offscreen_input.cursor,
        child,
    );
}

/// A key that goes down or up is one event for the topmost webview that is
/// shown: with the key's code, the event flags, and marked as a system key while
/// alt is active.
pub proof fn law_strokes_reach_the_webview(
    appwindow: AppWindow,
    state: ElementState,
    key: Key,
    text: Option<String>,
    child: usize,
)
    ensures
        ({
            let event = InputEvent::KeyboardInput { state, logical_key: key, text };
            let input = appwindow.offscreen_input;
            let actions = offscreen_input::actions_for(appwindow, event);
            &&& is_topmost_shown(appwindow, child) ==> {
                &&& actions.len() >= 1
                &&& actions[0] matches InputAction::Key { child: told, event } && {
                    &&& told == child
                    &&& state == ElementState::Pressed ==> event.type_ == KeyEventType::RawKeyDown
                    &&& state == ElementState::Released ==> event.type_ == KeyEventType::KeyUp
                    &&& event.modifiers == event_flags::event_flags(input)
                    &&& event.windows_key_code == keys::key_code(key)
                    &&& event.native_key_code == keys::key_code(key)
                    &&& input.modifiers & 0x100 != 0 ==> event.is_system_key == 1
                    &&& input.modifiers & 0x100 == 0 ==> event.is_system_key == 0
                    &&& event.character == 0
                    &&& event.unmodified_character == 0
                }
            }
            &&& none_shown(appwindow) ==> actions.len() == 0
            &&& offscreen_input::input_after(input, event) == input
        }),
{
    law_keys_go_to_the_topmost_webview(appwindow, child);
    keys::law_key_codes_are_small(key);
    let event = InputEvent::KeyboardInput { state, logical_key: key, text };
    if is_topmost_shown(appwindow, child) {
        assert(offscreen_input::actions_for(appwindow, event)[0] == (InputAction::Key {
            child,
            event: offscreen_input::stroke(appwindow.offscreen_input, key, state),
        }));
    }
}

/// A key that goes down while neither control nor alt nor meta is active types
/// its text: after the event of the key itself comes one event for each UTF-16
/// code unit of the text, in order, with just that unit as its character.
pub proof fn law_text_is_typed_as_it_is(
    appwindow: AppWindow,
    key: Key,
    text: String,
    child: usize,
)
    requires
        is_topmost_shown(appwindow, child),
        appwindow.offscreen_input.modifiers & 0x20 == 0,
        appwindow.offscreen_input.modifiers & 0x100 == 0,
        appwindow.offscreen_input.modifiers & 0x800 == 0,
    ensures
        ({
            let actions = offscreen_input::actions_for(
                appwindow,
                InputEvent::KeyboardInput {
                    state: ElementState::Pressed,
                    logical_key: key,
                    text: Some(text),
                },
            );
            let units = utf16::encode(text@);
            &&& actions.len() == 1 + units.len()
            &&& forall|k: int|
                0 <= k < units.len() ==> actions[1 + k] == (InputAction::Key {
                    child,
                    event: KeyEvent {
                        type_: KeyEventType::Char,
                        modifiers: event_flags::event_flags(appwindow.offscreen_input),
                        windows_key_code: #[trigger] units[k] as i32,
                        native_key_code: keys::key_code(key) as i32,
                        is_system_key: 0,
                        character: units[k],
                        unmodified_character: units[k],
                    },
                })
        }),
{
    law_keys_go_to_the_topmost_webview(appwindow, child);
    let actions = offscreen_input::actions_for(
        appwindow,
        InputEvent::KeyboardInput {
            state: ElementState::Pressed,
            logical_key: key,
            text: Some(text),
        },
    );
    let units = utf16::encode(text@);
    let typed = offscreen_input::text_actions(child, appwindow.offscreen_input, key, units);
    assert forall|k: int| 0 <= k < units.len() implies actions[1 + k] == (InputAction::Key {
        child,
        event: KeyEvent {
            type_: KeyEventType::Char,
            modifiers: event_flags::event_flags(appwindow.offscreen_input),
            windows_key_code: #[trigger] units[k] as i32,
            native_key_code: keys::key_code(key) as i32,
            is_system_key: 0,
            character: units[k],
            unmodified_character: units[k],
        },
    }) by {
        assert(actions[1 + k] == typed[k]);
    }
}

/// A key that goes up, one without text, and one that goes down while control,
/// alt or meta is active, type nothing: there is the event of the key alone.
pub proof fn law_other_keys_type_nothing(
    appwindow: AppWindow,
    state: ElementState,
    key: Key,
    text: Option<String>,
    child: usize,
)
    requires
        is_topmost_shown(appwindow, child),
        state == ElementState::Released || text is None
            || appwindow.offscreen_input.modifiers & 0x20 != 0
            || appwindow.offscreen_input.modifiers & 0x100 != 0
            || appwindow.offscreen_input.modifiers & 0x800 != 0,
    ensures
        offscreen_input::actions_for(
            appwindow,
            InputEvent::KeyboardInput { state, logical_key: key, text },
        ).len() == 1,
{
    law_keys_go_to_the_topmost_webview(appwindow, child);
}

/// How many UTF-16 code units the first `count` characters of a text take, as
/// far as thirty-two bits can say.
pub open spec fn units_of_first(text: Seq<char>, count: int) -> u32 {
    (utf16::encode(text.take(count)).len() % 0x1_0000_0000) as u32
}

/// A composition is handed to the topmost webview that is shown, with its text
/// as it is. Where its cursor goes from behind the first `i` characters to behind
/// the first `j`, given as bytes, the selection goes from behind their UTF-16
/// code units to behind those; an empty range stays empty. The end is remembered
/// as the cursor, for which no area has been told.
pub proof fn law_composition_keeps_its_selection(
    appwindow: AppWindow,
    text: String,
    start: usize,
    end: usize,
    i: int,
    j: int,
    child: usize,
)
    requires
        0 <= i <= text@.len(),
        0 <= j <= text@.len(),
        start == utf8::encode_utf8(text@.take(i)).len(),
        end == utf8::encode_utf8(text@.take(j)).len(),
    ensures
        ({
            let event = InputEvent::Ime(Ime::Preedit(text, Some((start, end))));
            let actions = offscreen_input::actions_for(appwindow, event);
            &&& is_topmost_shown(appwindow, child) ==> actions == seq![
                InputAction::SetComposition {
                    child,
                    text,
                    replacement: Range { from: 0xffff_ffff, to: 0xffff_ffff },
                    selection: Some(
                        Range { from: units_of_first(text@, i), to: units_of_first(text@, j) },
                    ),
                },
            ]
            &&& none_shown(appwindow) ==> actions.len() == 0
            &&& offscreen_input::input_after(appwindow.offscreen_input, event) == (
            OffscreenInputState {
                ime_cursor: Some(units_of_first(text@, j) as usize),
                ime_cursor_area: None,
                ..appwindow.offscreen_input
            })
        }),
        start == end ==> units_of_first(text@, i) == units_of_first(text@, j),
{
    law_keys_go_to_the_topmost_webview(appwindow, child);
    utf16::law_units_before_a_character(text@, i);
    utf16::law_units_before_a_character(text@, j);
}

/// Where the two ends of a composition's cursor are the same byte, so are the
/// two ends of the selection; where the start comes first, it does so in the
/// selection of a text that thirty-two bits can count.
pub proof fn law_selections_keep_order(
    appwindow: AppWindow,
    text: String,
    start: usize,
    end: usize,
    k: int,
)
    requires
        utf8::is_char_boundary(utf8::encode_utf8(text@), start as int),
        utf8::is_char_boundary(utf8::encode_utf8(text@), end as int),
        0 <= start <= end <= utf8::encode_utf8(text@).len() < 0x1_0000_0000,
        0 <= k < offscreen_input::actions_for(
            appwindow,
            InputEvent::Ime(Ime::Preedit(text, Some((start, end)))),
        ).len(),
    ensures
        offscreen_input::actions_for(
            appwindow,
            InputEvent::Ime(Ime::Preedit(text, Some((start, end)))),
        )[k] matches InputAction::SetComposition { selection: Some(selection), .. } && {
            &&& selection.from <= selection.to <= utf16::encode(text@).len()
            &&& start == end ==> selection.from == selection.to
            &&& start == 0 ==> selection.from == 0
            &&& end == utf8::encode_utf8(text@).len() ==> selection.to == utf16::encode(text@).len()
        },
{
    let first = utf16::prefix(text@, start as int).len() as int;
    let second = utf16::prefix(text@, end as int).len() as int;
    utf16::law_prefix_ends_at_the_byte(text@, start as int);
    utf16::law_prefix_ends_at_the_byte(text@, end as int);
    utf16::law_units_before_a_character(text@, first);
    utf16::law_units_before_a_character(text@, second);
    utf16::law_units_before_the_end(text@);
    if first > second {
        utf16::law_units_keep_order(text@, second, first);
    } else {
        utf16::law_units_keep_order(text@, first, second);
    }
    utf16::law_units_of_joined_texts(text@.take(second), text@.skip(second));
    assert(text@.take(second) + text@.skip(second) == text@);
    utf16::lemma_units_within_bytes(text@);
}

/// A composition without a cursor is handed over without a selection, and no
/// cursor is remembered.
pub proof fn law_composition_without_a_cursor(appwindow: AppWindow, text: String, child: usize)
    ensures
        ({
            let event = InputEvent::Ime(Ime::Preedit(text, None));
            let actions = offscreen_input::actions_for(appwindow, event);
            &&& is_topmost_shown(appwindow, child) ==> actions == seq![
                InputAction::SetComposition {
                    child,
                    text,
                    replacement: Range { from: 0xffff_ffff, to: 0xffff_ffff },
                    selection: None,
                },
            ]
            &&& none_shown(appwindow) ==> actions.len() == 0
            &&& offscreen_input::input_after(appwindow.offscreen_input, event) == (
            OffscreenInputState {
                ime_cursor: None,
                ime_cursor_area: None,
                ..appwindow.offscreen_input
            })
        }),
{
    law_keys_go_to_the_topmost_webview(appwindow, child);
}

/// Committed text is handed to the topmost webview that is shown, as it is, with
/// the cursor behind it. The composition is over.
pub proof fn law_commits_reach_the_webview(appwindow: AppWindow, text: String, child: usize)
    ensures
        ({
            let event = InputEvent::Ime(Ime::Commit(text));
            let actions = offscreen_input::actions_for(appwindow, event);
            &&& is_topmost_shown(appwindow, child) ==> actions == seq![
                InputAction::CommitText {
                    child,
                    text,
                    replacement: Range { from: 0xffff_ffff, to: 0xffff_ffff },
                    relative_cursor: 0,
                },
            ]
            &&& none_shown(appwindow) ==> actions.len() == 0
            &&& offscreen_input::input_after(appwindow.offscreen_input, event) == (
            OffscreenInputState {
                ime_cursor: None,
                ime_cursor_area: None,
                ..appwindow.offscreen_input
            })
        }),
{
    law_keys_go_to_the_topmost_webview(appwindow, child);
}

/// When the input method goes, the topmost webview that is shown cancels its
/// composition, and then a native caret is destroyed. Nothing of either is left.
pub proof fn law_cancellation_reaches_the_webview(appwindow: AppWindow, child: usize)
    ensures
        ({
            let event = InputEvent::Ime(Ime::Disabled);
            let actions = offscreen_input::actions_for(appwindow, event);
            let caret = appwindow.offscreen_input.ime_caret_created;
            &&& is_topmost_shown(appwindow, child) ==> {
                &&& actions.len() == if caret { 2int } else { 1int }
                &&& actions[0] == (InputAction::CancelComposition { child })
                &&& caret ==> actions[1] == InputAction::DestroyImeCaret
            }
            &&& none_shown(appwindow) ==> {
                &&& actions.len() == if caret { 1int } else { 0int }
                &&& caret ==> actions[0] == InputAction::DestroyImeCaret
            }
            &&& offscreen_input::input_after(appwindow.offscreen_input, event) == (
            OffscreenInputState {
                ime_cursor: None,
                ime_cursor_area: None,
                ime_caret_created: false,
                ..appwindow.offscreen_input
            })
        }),
{
    law_keys_go_to_the_topmost_webview(appwindow, child);
}

/// A mouse event has the position and the event flags that it was made from; a
/// coordinate that the browser cannot count ends at its range's end.
pub proof fn law_mouse_events_keep_their_position(x: i64, y: i64, modifiers: u32)
    ensures
        ends_in_range(x, offscreen_input::event_at(x, y, modifiers).x),
        ends_in_range(y, offscreen_input::event_at(x, y, modifiers).y),
        offscreen_input::event_at(x, y, modifiers).modifiers == modifiers,
{
}

} // verus!
