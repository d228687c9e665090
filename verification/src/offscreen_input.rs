//! Routing of a window's input events to its windowless webviews.
//!
//! [`dispatch`] takes an event into the window's input state and says what is to
//! be done with the webviews; [`crate::handling`] is the course around it.
use crate::coordinate;
use crate::event_flags::{
    self, alt_key, cef_modifiers, cef_mouse_button, control_key, meta_key, update_pressed_buttons,
    ButtonSource, ElementState, MouseButtonType,
};
use crate::keys::{self, windows_key_code, Key};
use crate::offscreen::{OffscreenBounds, OffscreenImeCursorArea};
use crate::saturate::{self, saturate_i32};
use crate::utf16::{self, encode_utf16, utf16_offset};
use crate::app_window::{
    top_child, visible_children, AppWebview, AppWindow, OffscreenInputState, PointerPosition,
};
use vstd::prelude::*;
use vstd::utf8;

verus! {

/// A range of text, in UTF-16 code units.
#[derive(Clone, Copy, Debug, PartialEq, Eq, Structural)]
pub struct Range {
    pub from: u32,
    pub to: u32,
}

/// The range that stands for no range.
pub open spec fn no_range() -> Range {
    Range { from: u32::MAX, to: u32::MAX }
}

/// The range that stands for no range.
///
/// The browser requires this concrete value; without any range it discards the
/// composition.
pub fn invalid_cef_range() -> (range: Range)
    ensures
        range == no_range(),
{
    Range { from: u32::MAX, to: u32::MAX }
}

/// A mouse event in the browser's logical pixels.
#[derive(Clone, Copy, Debug, PartialEq, Eq, Structural)]
pub struct MouseEvent {
    pub x: i32,
    pub y: i32,
    pub modifiers: u32,
}

/// The mouse event at a logical position.
pub open spec fn event_at(x: i64, y: i64, modifiers: u32) -> MouseEvent {
    MouseEvent {
        x: saturate::saturated(x as int, i32::MIN as int, i32::MAX as int) as i32,
        y: saturate::saturated(y as int, i32::MIN as int, i32::MAX as int) as i32,
        modifiers,
    }
}

/// Makes a mouse event from the logical position, rounded to whole pixels, and
/// the event flags.
pub fn mouse_event(x: i64, y: i64, modifiers: u32) -> (event: MouseEvent)
    ensures
        event.x == saturate::saturated(x as int, i32::MIN as int, i32::MAX as int),
        event.y == saturate::saturated(y as int, i32::MIN as int, i32::MAX as int),
        event.modifiers == modifiers,
        event == event_at(x, y, modifiers),
{
    MouseEvent { x: saturate_i32(x), y: saturate_i32(y), modifiers }
}

#[derive(Clone, Copy, Debug, PartialEq, Eq, Structural)]
pub enum KeyEventType {
    RawKeyDown,
    KeyUp,
    Char,
}

/// A key event for the browser.
#[derive(Clone, Copy, Debug, PartialEq, Eq, Structural)]
pub struct KeyEvent {
    pub type_: KeyEventType,
    pub modifiers: u32,
    pub windows_key_code: i32,
    pub native_key_code: i32,
    pub is_system_key: i32,
    pub character: u16,
    pub unmodified_character: u16,
}

/// The device behind a pointer movement.
#[derive(Clone, Copy, Debug, PartialEq, Eq, Structural)]
pub enum PointerSource {
    Mouse,
    Other,
}

/// An event of the input method.
#[derive(Debug)]
pub enum Ime {
    Enabled,
    /// The composed text, and its cursor as a pair of UTF-8 byte offsets.
    Preedit(String, Option<(usize, usize)>),
    Commit(String),
    DeleteSurrounding { before_bytes: usize, after_bytes: usize },
    Disabled,
}

/// An input event of a window.
#[derive(Debug)]
pub enum InputEvent {
    /// The active modifiers, as the bits of a `ModifiersState`.
    ModifiersChanged { modifiers: u32 },
    Focused(bool),
    PointerMoved { position: PointerPosition, source: PointerSource },
    PointerEntered { position: PointerPosition },
    PointerLeft,
    PointerButton { state: ElementState, position: PointerPosition, button: ButtonSource },
    /// The scrolled distance, rounded to the browser's whole units.
    MouseWheel { delta_x: i64, delta_y: i64 },
    KeyboardInput { state: ElementState, logical_key: Key, text: Option<String> },
    Ime(Ime),
    /// An event that webviews take no part in.
    Other,
}

impl InputEvent {
    /// A composition's cursor stands between characters of its text.
    pub open spec fn wf(self) -> bool {
        self matches InputEvent::Ime(Ime::Preedit(text, Some((start, end)))) ==> {
            &&& utf8::is_char_boundary(utf8::encode_utf8(text@), start as int)
            &&& utf8::is_char_boundary(utf8::encode_utf8(text@), end as int)
        }
    }
}

/// Something to do in response to an event. `child` is a webview's position in
/// its window.
#[derive(Debug, PartialEq, Eq)]
pub enum InputAction {
    /// Give the window the input language's default input context again.
    RestoreImeContext,
    /// Destroy the native caret.
    DestroyImeCaret,
    SetFocus { child: usize, focused: bool },
    CaptureLost { child: usize },
    /// Send a mouse move, or a leave, for a position within the window.
    MouseMove { child: usize, position: PointerPosition, modifiers: u32, leave: bool },
    MouseClick {
        child: usize,
        position: PointerPosition,
        modifiers: u32,
        button: MouseButtonType,
        released: bool,
        click_count: i32,
    },
    MouseWheel {
        child: usize,
        position: PointerPosition,
        modifiers: u32,
        delta_x: i32,
        delta_y: i32,
    },
    Key { child: usize, event: KeyEvent },
    SetComposition { child: usize, text: String, replacement: Range, selection: Option<Range> },
    CommitText { child: usize, text: String, replacement: Range, relative_cursor: i32 },
    CancelComposition { child: usize },
}

/// The bounds hold the position: it lies right of the left edge or on it, left
/// of the right edge, and so for the other axis.
pub open spec fn holds(bounds: OffscreenBounds, position: PointerPosition) -> bool {
    &&& coordinate::at_least(position.x, bounds.x as int)
    &&& coordinate::at_least(position.y, bounds.y as int)
    &&& coordinate::below(position.x, bounds.x + bounds.width)
    &&& coordinate::below(position.y, bounds.y + bounds.height)
}

/// Whether the position lies within the bounds.
pub fn contains(bounds: OffscreenBounds, position: PointerPosition) -> (inside: bool)
    ensures
        inside == holds(bounds, position),
{
    match (coordinate::cell(position.x), coordinate::cell(position.y)) {
        (Some(x), Some(y)) => {
            let left: i64 = bounds.x as i64;
            let top: i64 = bounds.y as i64;
            let right: i64 = left + bounds.width as i64;
            let bottom: i64 = top + bounds.height as i64;
            assert(x >= right <==> coordinate::at_least(position.x, right as int));
            assert(y >= bottom <==> coordinate::at_least(position.y, bottom as int));
            x >= left && y >= top && x < right && y < bottom
        },
        _ => false,
    }
}

/// The webview is visible and holds the position.
pub open spec fn hit(child: AppWebview, position: PointerPosition) -> bool {
    child.visible() && holds(child.offscreen_surface.unwrap()@.bounds, position)
}

/// The topmost of the first `count` webviews that is hit.
pub open spec fn topmost_hit(
    children: Seq<AppWebview>,
    count: nat,
    position: PointerPosition,
) -> Option<usize>
    decreases count,
{
    if count == 0 {
        None
    } else if hit(children[count - 1], position) {
        Some((count - 1) as usize)
    } else {
        topmost_hit(children, (count - 1) as nat, position)
    }
}

/// The webview that a pointer event at the position goes to.
pub open spec fn target(appwindow: AppWindow, position: PointerPosition) -> Option<usize> {
    topmost_hit(appwindow.children@, appwindow.children@.len(), position)
}

/// The topmost visible webview under the pointer.
pub fn mouse_target(appwindow: &AppWindow, position: PointerPosition) -> (child: Option<usize>)
    ensures
        child == target(*appwindow, position),
{
    let mut count: usize = appwindow.children.len();
    while count > 0
        invariant
            count <= appwindow.children@.len(),
            target(*appwindow, position) == topmost_hit(
                appwindow.children@,
                count as nat,
                position,
            ),
        decreases count,
    {
        let hit: bool = match &appwindow.children[count - 1].offscreen_surface {
            Some(surface) => surface.is_visible() && contains(surface.bounds(), position),
            None => false,
        };
        if hit {
            return Some(count - 1);
        }
        count = count - 1;
    }
    None
}

/// Where the pointer was last seen.
pub fn mouse_position(appwindow: &AppWindow) -> (position: PointerPosition)
    ensures
        position == appwindow.offscreen_input.cursor,
{
    appwindow.offscreen_input.cursor
}

/// The input state without a composition.
pub open spec fn without_composition(input: OffscreenInputState) -> OffscreenInputState {
    OffscreenInputState { ime_cursor: None, ime_cursor_area: None, ..input }
}

/// Forgets the composition's cursor.
pub fn clear_ime_state(appwindow: &mut AppWindow)
    ensures
        final(appwindow).children == old(appwindow).children,
        final(appwindow).offscreen_input == without_composition(old(appwindow).offscreen_input),
{
    appwindow.offscreen_input.ime_cursor = None;
    appwindow.offscreen_input.ime_cursor_area = None;
}

/// Gives up the native caret. Returns whether there is one to destroy.
pub fn destroy_ime_caret(appwindow: &mut AppWindow) -> (destroy: bool)
    ensures
        destroy == old(appwindow).offscreen_input.ime_caret_created,
        final(appwindow).children == old(appwindow).children,
        final(appwindow).offscreen_input == (OffscreenInputState {
            ime_caret_created: false,
            ..old(appwindow).offscreen_input
        }),
{
    if appwindow.offscreen_input.ime_caret_created {
        appwindow.offscreen_input.ime_caret_created = false;
        true
    } else {
        false
    }
}

/// A count of code units, as the browser takes it: its lowest thirty-two bits.
pub open spec fn unit_offset(count: nat) -> u32 {
    (count % 0x1_0000_0000) as u32
}

/// The composition's selection, in the browser's terms.
pub open spec fn composed_selection(text: Seq<char>, cursor: Option<(usize, usize)>) -> Option<
    Range,
> {
    match cursor {
        Some((start, end)) => Some(
            Range {
                from: unit_offset(utf16::units_before(text, start as int)),
                to: unit_offset(utf16::units_before(text, end as int)),
            },
        ),
        None => None,
    }
}

/// Counts the code units before the given byte of the text.
fn composition_offset(text: &str, byte: usize) -> (offset: u32)
    requires
        utf8::is_char_boundary(utf8::encode_utf8(text@), byte as int),
    ensures
        offset == unit_offset(utf16::units_before(text@, byte as int)),
{
    let count: u64 = utf16_offset(text, byte) as u64;
    assert(count as u32 == count % 0x1_0000_0000) by (bit_vector);
    #[verifier::truncate]
    let offset: u32 = count as u32;
    offset
}

/// The composition's selection, in the browser's terms.
pub fn composition_selection(text: &str, cursor: Option<(usize, usize)>) -> (selection: Option<
    Range,
>)
    requires
        cursor matches Some((start, end)) ==> {
            &&& utf8::is_char_boundary(utf8::encode_utf8(text@), start as int)
            &&& utf8::is_char_boundary(utf8::encode_utf8(text@), end as int)
        },
    ensures
        selection == composed_selection(text@, cursor),
{
    match cursor {
        Some((start, end)) => Some(
            Range { from: composition_offset(text, start), to: composition_offset(text, end) },
        ),
        None => None,
    }
}

/// The input state after an event.
pub open spec fn input_after(input: OffscreenInputState, event: InputEvent) -> OffscreenInputState {
    match event {
        InputEvent::ModifiersChanged { modifiers } => OffscreenInputState { modifiers, ..input },
        InputEvent::Focused(focused) => OffscreenInputState {
            ime_caret_created: focused && input.ime_caret_created,
            ..input
        },
        InputEvent::PointerMoved { position, source: PointerSource::Mouse } => OffscreenInputState {
            cursor: position,
            ..input
        },
        InputEvent::PointerEntered { position } => OffscreenInputState { cursor: position, ..input },
        InputEvent::PointerButton { state, position, button } => match event_flags::browser_button_of(
            button,
        ) {
            Some(button) => OffscreenInputState {
                cursor: position,
                pressed_buttons: event_flags::buttons_after(input.pressed_buttons, button, state),
                ..input
            },
            None => input,
        },
        InputEvent::Ime(Ime::Preedit(text, cursor)) => OffscreenInputState {
            ime_cursor: match composed_selection(text@, cursor) {
                Some(selection) => Some(selection.to as usize),
                None => None,
            },
            ime_cursor_area: None,
            ..input
        },
        InputEvent::Ime(Ime::Commit(_)) => without_composition(input),
        InputEvent::Ime(Ime::Disabled) => OffscreenInputState {
            ime_caret_created: false,
            ..without_composition(input)
        },
        _ => input,
    }
}

/// What a change of the window's focus means for one webview.
pub open spec fn child_focus_actions(child: usize, focused: bool) -> Seq<InputAction> {
    if focused {
        seq![InputAction::SetFocus { child, focused }]
    } else {
        seq![InputAction::SetFocus { child, focused }, InputAction::CaptureLost { child }]
    }
}

/// What a change of the window's focus means for webviews, in their order.
pub open spec fn focus_actions(children: Seq<usize>, focused: bool) -> Seq<InputAction>
    decreases children.len(),
{
    if children.len() == 0 {
        seq![]
    } else {
        focus_actions(children.drop_last(), focused) + child_focus_actions(
            children.last(),
            focused,
        )
    }
}

/// What a change of the window's focus means for the native caret.
pub open spec fn caret_focus_actions(input: OffscreenInputState, focused: bool) -> Seq<
    InputAction,
> {
    if focused {
        seq![InputAction::RestoreImeContext]
    } else if input.ime_caret_created {
        seq![InputAction::DestroyImeCaret]
    } else {
        seq![]
    }
}

/// Moves the pointer over whatever webview is under it.
pub open spec fn move_actions(appwindow: AppWindow, position: PointerPosition) -> Seq<InputAction> {
    match target(appwindow, position) {
        Some(child) => seq![
            InputAction::MouseMove {
                child,
                position,
                modifiers: event_flags::event_flags(appwindow.offscreen_input),
                leave: false,
            },
        ],
        None => seq![],
    }
}

/// Takes the pointer out of webviews, in their order.
pub open spec fn leave_actions(children: Seq<usize>, input: OffscreenInputState) -> Seq<
    InputAction,
> {
    children.map_values(
        |child: usize|
            InputAction::MouseMove {
                child,
                position: input.cursor,
                modifiers: event_flags::event_flags(input),
                leave: true,
            },
    )
}

/// Clicks whatever webview is under the pointer; a press gives it the focus.
/// `input` is the input state after the click.
pub open spec fn click_actions(
    appwindow: AppWindow,
    input: OffscreenInputState,
    position: PointerPosition,
    button: MouseButtonType,
    state: ElementState,
) -> Seq<InputAction> {
    match target(appwindow, position) {
        Some(child) => {
            let click = InputAction::MouseClick {
                child,
                position,
                modifiers: event_flags::event_flags(input),
                button,
                released: state == ElementState::Released,
                click_count: 1,
            };
            match state {
                ElementState::Pressed => seq![
                    InputAction::SetFocus { child, focused: true },
                    click,
                ],
                ElementState::Released => seq![click],
            }
        },
        None => seq![],
    }
}

/// Scrolls whatever webview is under the pointer.
pub open spec fn wheel_actions(appwindow: AppWindow, delta_x: i64, delta_y: i64) -> Seq<
    InputAction,
> {
    let position = appwindow.offscreen_input.cursor;
    match target(appwindow, position) {
        Some(child) => seq![
            InputAction::MouseWheel {
                child,
                position,
                modifiers: event_flags::event_flags(appwindow.offscreen_input),
                delta_x: saturate::saturated(
                    delta_x as int,
                    i32::MIN as int,
                    i32::MAX as int,
                ) as i32,
                delta_y: saturate::saturated(
                    delta_y as int,
                    i32::MIN as int,
                    i32::MAX as int,
                ) as i32,
            },
        ],
        None => seq![],
    }
}

/// The alt modifier makes a key a system key.
pub open spec fn system_key(input: OffscreenInputState) -> i32 {
    if input.modifiers & event_flags::ALT_STATE != 0 {
        1
    } else {
        0
    }
}

/// The event of a key going down or up.
pub open spec fn stroke(input: OffscreenInputState, key: Key, state: ElementState) -> KeyEvent {
    KeyEvent {
        type_: match state {
            ElementState::Pressed => KeyEventType::RawKeyDown,
            ElementState::Released => KeyEventType::KeyUp,
        },
        modifiers: event_flags::event_flags(input),
        windows_key_code: keys::key_code(key) as i32,
        native_key_code: keys::key_code(key) as i32,
        is_system_key: system_key(input),
        character: 0,
        unmodified_character: 0,
    }
}

/// The event of a key yielding one code unit of text.
pub open spec fn typed(input: OffscreenInputState, key: Key, unit: u16) -> KeyEvent {
    KeyEvent {
        type_: KeyEventType::Char,
        modifiers: event_flags::event_flags(input),
        windows_key_code: unit as i32,
        native_key_code: keys::key_code(key) as i32,
        is_system_key: system_key(input),
        character: unit,
        unmodified_character: unit,
    }
}

/// Text comes from a key that goes down while no control, alt or meta key
/// changes its meaning.
pub open spec fn types_text(input: OffscreenInputState, state: ElementState) -> bool {
    &&& state == ElementState::Pressed
    &&& input.modifiers & event_flags::CONTROL_STATE == 0
    &&& input.modifiers & event_flags::ALT_STATE == 0
    &&& input.modifiers & event_flags::META_STATE == 0
}

/// Types the code units, one event each.
pub open spec fn text_actions(
    child: usize,
    input: OffscreenInputState,
    key: Key,
    units: Seq<u16>,
) -> Seq<InputAction> {
    units.map_values(|unit: u16| InputAction::Key { child, event: typed(input, key, unit) })
}

/// Sends a key, and the text it yields, to the topmost webview.
pub open spec fn key_actions(
    appwindow: AppWindow,
    state: ElementState,
    key: Key,
    text: Option<String>,
) -> Seq<InputAction> {
    let input = appwindow.offscreen_input;
    match appwindow.top() {
        Some(child) => {
            let down_or_up = seq![InputAction::Key { child, event: stroke(input, key, state) }];
            match text {
                Some(text) if types_text(input, state) => down_or_up + text_actions(
                    child,
                    input,
                    key,
                    utf16::encode(text@),
                ),
                _ => down_or_up,
            }
        },
        None => seq![],
    }
}

/// Hands an event of the input method to the topmost webview.
pub open spec fn ime_actions(appwindow: AppWindow, ime: Ime) -> Seq<InputAction> {
    let to_browser = match (appwindow.top(), ime) {
        (Some(child), Ime::Preedit(text, cursor)) => seq![
            InputAction::SetComposition {
                child,
                text,
                replacement: no_range(),
                selection: composed_selection(text@, cursor),
            },
        ],
        (Some(child), Ime::Commit(text)) => seq![
            InputAction::CommitText { child, text, replacement: no_range(), relative_cursor: 0 },
        ],
        (Some(child), Ime::Disabled) => seq![InputAction::CancelComposition { child }],
        _ => seq![],
    };
    if ime is Disabled && appwindow.offscreen_input.ime_caret_created {
        to_browser.push(InputAction::DestroyImeCaret)
    } else {
        to_browser
    }
}

/// What an event asks to be done, in order.
pub open spec fn actions_for(appwindow: AppWindow, event: InputEvent) -> Seq<InputAction> {
    let input = appwindow.offscreen_input;
    match event {
        InputEvent::Focused(focused) => caret_focus_actions(input, focused) + focus_actions(
            appwindow.visible(),
            focused,
        ),
        InputEvent::PointerMoved { position, source: PointerSource::Mouse } => move_actions(
            appwindow,
            position,
        ),
        InputEvent::PointerEntered { position } => move_actions(appwindow, position),
        InputEvent::PointerLeft => leave_actions(appwindow.visible(), input),
        InputEvent::PointerButton { state, position, button } => match event_flags::browser_button_of(
            button,
        ) {
            Some(browser_button) => click_actions(
                appwindow,
                input_after(input, event),
                position,
                browser_button,
                state,
            ),
            None => seq![],
        },
        InputEvent::MouseWheel { delta_x, delta_y } => wheel_actions(appwindow, delta_x, delta_y),
        InputEvent::KeyboardInput { state, logical_key, text } => key_actions(
            appwindow,
            state,
            logical_key,
            text,
        ),
        InputEvent::Ime(ime) => ime_actions(appwindow, ime),
        _ => seq![],
    }
}

fn handle_focus(appwindow: &mut AppWindow, focused: bool) -> (actions: Vec<InputAction>)
    ensures
        final(appwindow).children == old(appwindow).children,
        final(appwindow).offscreen_input == input_after(
            old(appwindow).offscreen_input,
            InputEvent::Focused(focused),
        ),
        actions@ == actions_for(*old(appwindow), InputEvent::Focused(focused)),
{
    let mut actions: Vec<InputAction> = Vec::new();
    if focused {
        actions.push(InputAction::RestoreImeContext);
    } else if destroy_ime_caret(appwindow) {
        actions.push(InputAction::DestroyImeCaret);
    }
    let visible = visible_children(appwindow);
    let ghost caret = actions@;
    for i in 0..visible.len()
        invariant
            actions@ == caret + focus_actions(visible@.take(i as int), focused),
    {
        let child: usize = visible[i];
        assert(visible@.take(i + 1).drop_last() == visible@.take(i as int));
        actions.push(InputAction::SetFocus { child, focused });
        if !focused {
            actions.push(InputAction::CaptureLost { child });
        }
    }
    assert(visible@.take(visible@.len() as int) == visible@);
    actions
}

fn handle_move(appwindow: &mut AppWindow, position: PointerPosition) -> (actions: Vec<InputAction>)
    ensures
        final(appwindow).children == old(appwindow).children,
        final(appwindow).offscreen_input == (OffscreenInputState {
            cursor: position,
            ..old(appwindow).offscreen_input
        }),
        actions@ == move_actions(*old(appwindow), position),
{
    let mut actions: Vec<InputAction> = Vec::new();
    appwindow.offscreen_input.cursor = position;
    if let Some(child) = mouse_target(appwindow, position) {
        let modifiers: u32 = cef_modifiers(&appwindow.offscreen_input);
        actions.push(InputAction::MouseMove { child, position, modifiers, leave: false });
    }
    actions
}

fn handle_leave(appwindow: &AppWindow) -> (actions: Vec<InputAction>)
    ensures
        actions@ == leave_actions(appwindow.visible(), appwindow.offscreen_input),
{
    let mut actions: Vec<InputAction> = Vec::new();
    let position = mouse_position(appwindow);
    let modifiers: u32 = cef_modifiers(&appwindow.offscreen_input);
    let visible = visible_children(appwindow);
    for i in 0..visible.len()
        invariant
            position == appwindow.offscreen_input.cursor,
            modifiers == event_flags::event_flags(appwindow.offscreen_input),
            actions@ == leave_actions(visible@, appwindow.offscreen_input).take(i as int),
    {
        let child: usize = visible[i];
        actions.push(InputAction::MouseMove { child, position, modifiers, leave: true });
    }
    actions
}

fn handle_button(
    appwindow: &mut AppWindow,
    state: ElementState,
    position: PointerPosition,
    source: ButtonSource,
) -> (actions: Vec<InputAction>)
    ensures
        final(appwindow).children == old(appwindow).children,
        final(appwindow).offscreen_input == input_after(
            old(appwindow).offscreen_input,
            InputEvent::PointerButton { state, position, button: source },
        ),
        actions@ == actions_for(
            *old(appwindow),
            InputEvent::PointerButton { state, position, button: source },
        ),
{
    let mut actions: Vec<InputAction> = Vec::new();
    let button = match source.mouse_button() {
        Some(button) => cef_mouse_button(button),
        None => None,
    };
    if let Some(button) = button {
        appwindow.offscreen_input.cursor = position;
        update_pressed_buttons(&mut appwindow.offscreen_input, button, state);
        if let Some(child) = mouse_target(appwindow, position) {
            if state.is_pressed() {
                actions.push(InputAction::SetFocus { child, focused: true });
            }
            let modifiers: u32 = cef_modifiers(&appwindow.offscreen_input);
            actions.push(
                InputAction::MouseClick {
                    child,
                    position,
                    modifiers,
                    button,
                    released: !state.is_pressed(),
                    click_count: 1,
                },
            );
        }
    }
    actions
}

fn handle_wheel(appwindow: &AppWindow, delta_x: i64, delta_y: i64) -> (actions: Vec<InputAction>)
    ensures
        actions@ == wheel_actions(*appwindow, delta_x, delta_y),
{
    let mut actions: Vec<InputAction> = Vec::new();
    let position = mouse_position(appwindow);
    if let Some(child) = mouse_target(appwindow, position) {
        let modifiers: u32 = cef_modifiers(&appwindow.offscreen_input);
        actions.push(
            InputAction::MouseWheel {
                child,
                position,
                modifiers,
                delta_x: saturate_i32(delta_x),
                delta_y: saturate_i32(delta_y),
            },
        );
    }
    actions
}

fn handle_key(
    appwindow: &AppWindow,
    state: ElementState,
    key: &Key,
    text: &Option<String>,
) -> (actions: Vec<InputAction>)
    ensures
        actions@ == key_actions(*appwindow, state, *key, *text),
{
    let mut actions: Vec<InputAction> = Vec::new();
    let child: usize = match top_child(appwindow) {
        Some(child) => child,
        None => {
            return actions;
        },
    };
    let input = appwindow.offscreen_input;
    let key_code: i32 = windows_key_code(key);
    let modifiers: u32 = cef_modifiers(&input);
    let is_system_key: i32 = if alt_key(input.modifiers) {
        1
    } else {
        0
    };
    let type_ = if state.is_pressed() {
        KeyEventType::RawKeyDown
    } else {
        KeyEventType::KeyUp
    };
    actions.push(
        InputAction::Key {
            child,
            event: KeyEvent {
                type_,
                modifiers,
                windows_key_code: key_code,
                native_key_code: key_code,
                is_system_key,
                character: 0,
                unmodified_character: 0,
            },
        },
    );
    if state.is_pressed() && !control_key(input.modifiers) && !alt_key(input.modifiers)
        && !meta_key(input.modifiers) {
        if let Some(text) = text {
            let units = encode_utf16(text.as_str());
            let ghost first = actions@;
            for i in 0..units.len()
                invariant
                    modifiers == event_flags::event_flags(input),
                    key_code == keys::key_code(*key),
                    is_system_key == system_key(input),
                    actions@ == first + text_actions(child, input, *key, units@).take(i as int),
            {
                let unit: u16 = units[i];
                actions.push(
                    InputAction::Key {
                        child,
                        event: KeyEvent {
                            type_: KeyEventType::Char,
                            modifiers,
                            windows_key_code: unit as i32,
                            native_key_code: key_code,
                            is_system_key,
                            character: unit,
                            unmodified_character: unit,
                        },
                    },
                );
            }
        }
    }
    actions
}

fn handle_ime(appwindow: &mut AppWindow, ime: &Ime) -> (actions: Vec<InputAction>)
    requires
        InputEvent::Ime(*ime).wf(),
    ensures
        final(appwindow).children == old(appwindow).children,
        final(appwindow).offscreen_input == input_after(
            old(appwindow).offscreen_input,
            InputEvent::Ime(*ime),
        ),
        actions@ == ime_actions(*old(appwindow), *ime),
{
    let mut actions: Vec<InputAction> = Vec::new();
    let top = top_child(appwindow);
    match ime {
        Ime::Preedit(text, cursor) => {
            let selection = composition_selection(text.as_str(), *cursor);
            appwindow.offscreen_input.ime_cursor = match selection {
                Some(range) => Some(range.to as usize),
                None => None,
            };
            appwindow.offscreen_input.ime_cursor_area = None;
            if let Some(child) = top {
                actions.push(
                    InputAction::SetComposition {
                        child,
                        text: text.clone(),
                        replacement: invalid_cef_range(),
                        selection,
                    },
                );
            }
        },
        Ime::Commit(text) => {
            if let Some(child) = top {
                actions.push(
                    InputAction::CommitText {
                        child,
                        text: text.clone(),
                        replacement: invalid_cef_range(),
                        relative_cursor: 0,
                    },
                );
            }
            clear_ime_state(appwindow);
        },
        Ime::Disabled => {
            if let Some(child) = top {
                actions.push(InputAction::CancelComposition { child });
            }
            clear_ime_state(appwindow);
            if destroy_ime_caret(appwindow) {
                actions.push(InputAction::DestroyImeCaret);
            }
        },
        Ime::Enabled => {},
        Ime::DeleteSurrounding { .. } => {},
    }
    actions
}

/// Takes an event into the window's input state, and says what it asks to be
/// done.
pub fn dispatch(appwindow: &mut AppWindow, event: &InputEvent) -> (actions: Vec<InputAction>)
    requires
        event.wf(),
    ensures
        final(appwindow).children == old(appwindow).children,
        final(appwindow).offscreen_input == input_after(old(appwindow).offscreen_input, *event),
        actions@ == actions_for(*old(appwindow), *event),
{
    match event {
        InputEvent::ModifiersChanged { modifiers } => {
            appwindow.offscreen_input.modifiers = *modifiers;
            Vec::new()
        },
        InputEvent::Focused(focused) => handle_focus(appwindow, *focused),
        InputEvent::PointerMoved { position, source: PointerSource::Mouse } => handle_move(
            appwindow,
            *position,
        ),
        InputEvent::PointerEntered { position } => handle_move(appwindow, *position),
        InputEvent::PointerLeft => handle_leave(appwindow),
        InputEvent::PointerButton { state, position, button } => handle_button(
            appwindow,
            *state,
            *position,
            *button,
        ),
        InputEvent::MouseWheel { delta_x, delta_y } => handle_wheel(appwindow, *delta_x, *delta_y),
        InputEvent::KeyboardInput { state, logical_key, text } => handle_key(
            appwindow,
            *state,
            logical_key,
            text,
        ),
        InputEvent::Ime(ime) => handle_ime(appwindow, ime),
        _ => Vec::new(),
    }
}

/// A pointer event goes to a visible webview that holds the position, and to
/// the topmost of those. It goes nowhere only where there is none.
pub proof fn law_target_is_the_topmost_hit(
    children: Seq<AppWebview>,
    count: nat,
    position: PointerPosition,
)
    requires
        count <= children.len() <= usize::MAX,
    ensures
        match topmost_hit(children, count, position) {
            Some(child) => {
                &&& child < count
                &&& hit(children[child as int], position)
                &&& forall|i: int|
                    child < i < count ==> !hit(#[trigger] children[i], position)
            },
            None => forall|i: int| 0 <= i < count ==> !hit(#[trigger] children[i], position),
        },
    decreases count,
{
    if count > 0 {
        law_target_is_the_topmost_hit(children, (count - 1) as nat, position);
    }
}

/// Surfaces that lie side by side share no position.
pub proof fn law_neighbours_share_no_position(
    left: OffscreenBounds,
    right: OffscreenBounds,
    position: PointerPosition,
)
    requires
        left.x + left.width <= right.x || left.y + left.height <= right.y,
    ensures
        !(holds(left, position) && holds(right, position)),
{
    let unit = vstd::arithmetic::power2::pow2(1074) as int;
    vstd::arithmetic::power2::lemma_pow2_pos(1074);
    if left.x + left.width <= right.x {
        assert((left.x + left.width) * unit <= right.x * unit) by (nonlinear_arith)
            requires
                left.x + left.width <= right.x,
                unit > 0,
        ;
    } else {
        assert((left.y + left.height) * unit <= right.y * unit) by (nonlinear_arith)
            requires
                left.y + left.height <= right.y,
                unit > 0,
        ;
    }
}

/// The webview that an action is for.
pub open spec fn recipient(action: InputAction) -> Option<usize> {
    match action {
        InputAction::RestoreImeContext => None,
        InputAction::DestroyImeCaret => None,
        InputAction::SetFocus { child, .. } => Some(child),
        InputAction::CaptureLost { child } => Some(child),
        InputAction::MouseMove { child, .. } => Some(child),
        InputAction::MouseClick { child, .. } => Some(child),
        InputAction::MouseWheel { child, .. } => Some(child),
        InputAction::Key { child, .. } => Some(child),
        InputAction::SetComposition { child, .. } => Some(child),
        InputAction::CommitText { child, .. } => Some(child),
        InputAction::CancelComposition { child } => Some(child),
    }
}

proof fn lemma_focus_recipients(children: Seq<usize>, focused: bool)
    ensures
        forall|k: int| 0 <= k < focus_actions(children, focused).len() ==> (#[trigger] recipient(
            focus_actions(children, focused)[k],
        ) matches Some(child) && children.contains(child)),
    decreases children.len(),
{
    if children.len() > 0 {
        let before = focus_actions(children.drop_last(), focused);
        let all = focus_actions(children, focused);
        lemma_focus_recipients(children.drop_last(), focused);
        assert forall|k: int| 0 <= k < all.len() implies (#[trigger] recipient(all[k]) matches Some(
            child,
        ) && children.contains(child)) by {
            if k < before.len() {
                assert(all[k] == before[k]);
                let child = recipient(before[k]).unwrap();
                assert(children.drop_last().contains(child));
                let j = choose|j: int|
                    0 <= j < children.len() - 1 && children.drop_last()[j] == child;
                assert(children[j] == child);
            } else {
                assert(children[children.len() - 1] == children.last());
            }
        }
    }
}

/// Only visible webviews are told anything.
pub proof fn law_only_visible_webviews_are_told(appwindow: AppWindow, event: InputEvent, k: int)
    requires
        appwindow.children@.len() <= usize::MAX,
        0 <= k < actions_for(appwindow, event).len(),
    ensures
        recipient(actions_for(appwindow, event)[k]) matches Some(child) ==> {
            &&& child < appwindow.children@.len()
            &&& appwindow.children@[child as int].visible()
        },
{
    let children = appwindow.children@;
    let action = actions_for(appwindow, event)[k];
    crate::app_window::law_visible_children(children, children.len());
    crate::app_window::law_top_child(appwindow);
    match event {
        InputEvent::Focused(focused) => {
            let caret = caret_focus_actions(appwindow.offscreen_input, focused);
            lemma_focus_recipients(appwindow.visible(), focused);
            if k >= caret.len() {
                let told = focus_actions(appwindow.visible(), focused);
                assert(action == told[k - caret.len()]);
                let child = recipient(told[k - caret.len()]).unwrap();
                let j = choose|j: int|
                    0 <= j < appwindow.visible().len() && appwindow.visible()[j] == child;
                assert(children[appwindow.visible()[j] as int].visible());
            }
        },
        InputEvent::PointerMoved { position, .. } => {
            law_target_is_the_topmost_hit(children, children.len(), position);
        },
        InputEvent::PointerEntered { position } => {
            law_target_is_the_topmost_hit(children, children.len(), position);
        },
        InputEvent::PointerButton { position, .. } => {
            law_target_is_the_topmost_hit(children, children.len(), position);
        },
        InputEvent::MouseWheel { .. } => {
            law_target_is_the_topmost_hit(
                children,
                children.len(),
                appwindow.offscreen_input.cursor,
            );
        },
        InputEvent::PointerLeft => {
            assert(children[appwindow.visible()[k] as int].visible());
        },
        _ => {},
    }
}

/// A key types text only while it goes down and no control, alt or meta key is
/// active. Else there is one event for the key itself.
pub proof fn law_shortcuts_type_no_text(
    appwindow: AppWindow,
    state: ElementState,
    key: Key,
    text: Option<String>,
    k: int,
)
    requires
        0 <= k < key_actions(appwindow, state, key, text).len(),
    ensures
        key_actions(appwindow, state, key, text)[k] matches InputAction::Key { event, .. } && {
            event.type_ == KeyEventType::Char ==> types_text(appwindow.offscreen_input, state)
        },
        !types_text(appwindow.offscreen_input, state) ==> key_actions(
            appwindow,
            state,
            key,
            text,
        ).len() == 1,
{
    let input = appwindow.offscreen_input;
    if let Some(text) = text {
        if types_text(input, state) && k > 0 {
            let child = appwindow.top().unwrap();
            let units = utf16::encode(text@);
            assert(key_actions(appwindow, state, key, Some(text))[k] == text_actions(
                child,
                input,
                key,
                units,
            )[k - 1]);
        }
    }
}

/// No event makes anything but mouse buttons count as held buttons.
pub proof fn law_only_buttons_count_as_held(input: OffscreenInputState, event: InputEvent)
    requires
        input.wf(),
    ensures
        input_after(input, event).wf(),
        crate::app_window::initial_input().wf(),
{
    assert(0u32 & !0x70u32 == 0) by (bit_vector);
    if let InputEvent::PointerButton { state, button, .. } = event {
        if let Some(button) = event_flags::browser_button_of(button) {
            event_flags::law_buttons_are_independent(
                input.pressed_buttons,
                button,
                button,
                state,
            );
        }
    }
}

/// Losing the focus, or the input method, takes the native caret away; it is
/// destroyed just then, and only if there is one.
pub proof fn law_caret_goes_with_the_focus(appwindow: AppWindow, event: InputEvent)
    requires
        event == InputEvent::Focused(false) || event == InputEvent::Ime(Ime::Disabled),
    ensures
        !input_after(appwindow.offscreen_input, event).ime_caret_created,
        actions_for(appwindow, event).contains(InputAction::DestroyImeCaret)
            <==> appwindow.offscreen_input.ime_caret_created,
{
    let input = appwindow.offscreen_input;
    let actions = actions_for(appwindow, event);
    if event == InputEvent::Focused(false) {
        let told = focus_actions(appwindow.visible(), false);
        lemma_focus_recipients(appwindow.visible(), false);
        if input.ime_caret_created {
            assert(actions[0] == InputAction::DestroyImeCaret);
        } else {
            assert(actions == told);
            assert forall|k: int| 0 <= k < actions.len() implies actions[k]
                != InputAction::DestroyImeCaret by {
                assert(recipient(told[k]) is Some);
            }
        }
    } else if input.ime_caret_created {
        assert(actions.last() == InputAction::DestroyImeCaret);
    }
}

/// A position within a pixel, of which that pixel's column and row are the whole
/// parts, is held just if the column is among the surface's columns and the row
/// among its rows.
pub proof fn law_pixels_within_the_bounds(
    bounds: OffscreenBounds,
    position: PointerPosition,
    column: int,
    row: int,
)
    requires
        coordinate::at_least(position.x, column),
        !coordinate::at_least(position.x, column + 1),
        coordinate::at_least(position.y, row),
        !coordinate::at_least(position.y, row + 1),
    ensures
        holds(bounds, position) <==> bounds.x <= column < bounds.x + bounds.width && bounds.y <= row
            < bounds.y + bounds.height,
{
    lemma_pixel_sides(position.x, column, bounds.x as int);
    lemma_pixel_sides(position.x, column, bounds.x + bounds.width);
    lemma_pixel_sides(position.y, row, bounds.y as int);
    lemma_pixel_sides(position.y, row, bounds.y + bounds.height);
}

proof fn lemma_pixel_sides(bits: u64, pixel: int, n: int)
    requires
        coordinate::at_least(bits, pixel),
        !coordinate::at_least(bits, pixel + 1),
    ensures
        coordinate::at_least(bits, n) <==> n <= pixel,
        coordinate::below(bits, n) <==> n > pixel,
{
    coordinate::law_sides_exclude_each_other(bits, n);
    if n <= pixel {
        coordinate::law_sides_are_ordered(bits, pixel, n);
    } else if coordinate::at_least(bits, n) {
        coordinate::law_sides_are_ordered(bits, n, pixel + 1);
    }
}

/// A position is held just where it is neither before a surface nor at or beyond
/// its end, on both axes. One that is no number is held nowhere.
pub proof fn law_surfaces_hold_what_is_between_their_edges(
    bounds: OffscreenBounds,
    position: PointerPosition,
)
    ensures
        holds(bounds, position) <==> {
            &&& coordinate::at_least(position.x, bounds.x as int)
            &&& !coordinate::at_least(position.x, bounds.x + bounds.width)
            &&& coordinate::at_least(position.y, bounds.y as int)
            &&& !coordinate::at_least(position.y, bounds.y + bounds.height)
        },
        bounds.width == 0 || bounds.height == 0 ==> !holds(bounds, position),
{
    coordinate::law_sides_exclude_each_other(position.x, bounds.x + bounds.width);
    coordinate::law_sides_exclude_each_other(position.y, bounds.y + bounds.height);
}

} // verus!
