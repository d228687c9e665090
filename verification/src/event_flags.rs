//! Mouse buttons and keyboard modifiers, as the browser's event flags.
use crate::app_window::OffscreenInputState;
use vstd::prelude::*;
use winit::event;

verus! {

pub const SHIFT_DOWN: u32 = 2;

pub const CONTROL_DOWN: u32 = 4;

pub const ALT_DOWN: u32 = 8;

pub const LEFT_MOUSE_BUTTON: u32 = 16;

pub const MIDDLE_MOUSE_BUTTON: u32 = 32;

pub const RIGHT_MOUSE_BUTTON: u32 = 64;

pub const COMMAND_DOWN: u32 = 128;

/// Reads `cef_event_flags_t::EVENTFLAG_SHIFT_DOWN`, which is two.
#[verifier::external_body]
fn shift_down_flag() -> (flag: u32)
    ensures
        flag == SHIFT_DOWN,
{
    cef::sys::cef_event_flags_t::EVENTFLAG_SHIFT_DOWN.0 as u32
}

/// Reads `cef_event_flags_t::EVENTFLAG_CONTROL_DOWN`, which is four.
#[verifier::external_body]
fn control_down_flag() -> (flag: u32)
    ensures
        flag == CONTROL_DOWN,
{
    cef::sys::cef_event_flags_t::EVENTFLAG_CONTROL_DOWN.0 as u32
}

/// Reads `cef_event_flags_t::EVENTFLAG_ALT_DOWN`, which is eight.
#[verifier::external_body]
fn alt_down_flag() -> (flag: u32)
    ensures
        flag == ALT_DOWN,
{
    cef::sys::cef_event_flags_t::EVENTFLAG_ALT_DOWN.0 as u32
}

/// Reads `cef_event_flags_t::EVENTFLAG_COMMAND_DOWN`, which is 128.
#[verifier::external_body]
fn command_down_flag() -> (flag: u32)
    ensures
        flag == COMMAND_DOWN,
{
    cef::sys::cef_event_flags_t::EVENTFLAG_COMMAND_DOWN.0 as u32
}

/// Reads `cef_event_flags_t::EVENTFLAG_LEFT_MOUSE_BUTTON`, which is 16.
#[verifier::external_body]
fn left_mouse_button_flag() -> (flag: u32)
    ensures
        flag == LEFT_MOUSE_BUTTON,
{
    cef::sys::cef_event_flags_t::EVENTFLAG_LEFT_MOUSE_BUTTON.0 as u32
}

/// Reads `cef_event_flags_t::EVENTFLAG_MIDDLE_MOUSE_BUTTON`, which is 32.
#[verifier::external_body]
fn middle_mouse_button_flag() -> (flag: u32)
    ensures
        flag == MIDDLE_MOUSE_BUTTON,
{
    cef::sys::cef_event_flags_t::EVENTFLAG_MIDDLE_MOUSE_BUTTON.0 as u32
}

/// Reads `cef_event_flags_t::EVENTFLAG_RIGHT_MOUSE_BUTTON`, which is 64.
#[verifier::external_body]
fn right_mouse_button_flag() -> (flag: u32)
    ensures
        flag == RIGHT_MOUSE_BUTTON,
{
    cef::sys::cef_event_flags_t::EVENTFLAG_RIGHT_MOUSE_BUTTON.0 as u32
}

/// The bits that `winit` gives a modifier in a `ModifiersState`.
pub const SHIFT_STATE: u32 = 0x004;

pub const CONTROL_STATE: u32 = 0x020;

pub const ALT_STATE: u32 = 0x100;

pub const META_STATE: u32 = 0x800;

/// Calls `ModifiersState::shift_key` on the given bits: whether the shift bit
/// is among them.
#[verifier::external_body]
pub(crate) fn shift_key(modifiers: u32) -> (active: bool)
    ensures
        active == (modifiers & SHIFT_STATE != 0),
{
    winit::keyboard::ModifiersState::from_bits_retain(modifiers).shift_key()
}

/// Calls `ModifiersState::control_key` on the given bits: whether the control
/// bit is among them.
#[verifier::external_body]
pub(crate) fn control_key(modifiers: u32) -> (active: bool)
    ensures
        active == (modifiers & CONTROL_STATE != 0),
{
    winit::keyboard::ModifiersState::from_bits_retain(modifiers).control_key()
}

/// Calls `ModifiersState::alt_key` on the given bits: whether the alt bit is
/// among them.
#[verifier::external_body]
pub(crate) fn alt_key(modifiers: u32) -> (active: bool)
    ensures
        active == (modifiers & ALT_STATE != 0),
{
    winit::keyboard::ModifiersState::from_bits_retain(modifiers).alt_key()
}

/// Calls `ModifiersState::meta_key` on the given bits: whether the meta bit is
/// among them.
#[verifier::external_body]
pub(crate) fn meta_key(modifiers: u32) -> (active: bool)
    ensures
        active == (modifiers & META_STATE != 0),
{
    winit::keyboard::ModifiersState::from_bits_retain(modifiers).meta_key()
}

/// Whether a button or a key went down or up.
#[derive(Clone, Copy, Debug, PartialEq, Eq, Structural)]
pub enum ElementState {
    Pressed,
    Released,
}

impl ElementState {
    pub fn is_pressed(self) -> (pressed: bool)
        ensures
            pressed == (self == ElementState::Pressed),
    {
        match self {
            ElementState::Pressed => true,
            ElementState::Released => false,
        }
    }
}

/// A button of a mouse.
#[derive(Clone, Copy, Debug, PartialEq, Eq, Structural)]
pub enum MouseButton {
    Left,
    Right,
    Middle,
    Back,
    Forward,
    /// One of the buttons beyond the fifth.
    Other,
}

/// A button of a tablet tool.
#[derive(Clone, Copy, Debug, PartialEq, Eq, Structural)]
pub enum TabletToolButton {
    Contact,
    Barrel,
    Other(u16),
}

/// The origin of a pointer button event.
#[derive(Clone, Copy, Debug, PartialEq, Eq, Structural)]
pub enum ButtonSource {
    Mouse(MouseButton),
    Touch,
    TabletTool(TabletToolButton),
    Unknown(u16),
}

/// The mouse button that stands for a button of a tablet tool.
pub open spec fn tablet_mouse_button(button: TabletToolButton) -> Option<MouseButton> {
    match button {
        TabletToolButton::Contact => Some(MouseButton::Left),
        TabletToolButton::Barrel => Some(MouseButton::Right),
        TabletToolButton::Other(1) => Some(MouseButton::Middle),
        TabletToolButton::Other(3) => Some(MouseButton::Back),
        TabletToolButton::Other(4) => Some(MouseButton::Forward),
        TabletToolButton::Other(_) => None,
    }
}

/// Calls `winit`'s conversion from `TabletToolButton` to an optional
/// `MouseButton`: contact is left, barrel is right, and of the others number
/// one is middle, three is back and four is forward.
#[verifier::external_body]
fn mouse_button_of_tablet(button: TabletToolButton) -> (result: Option<MouseButton>)
    ensures
        result == tablet_mouse_button(button),
{
    let tool = match button {
        TabletToolButton::Contact => event::TabletToolButton::Contact,
        TabletToolButton::Barrel => event::TabletToolButton::Barrel,
        TabletToolButton::Other(code) => event::TabletToolButton::Other(code),
    };
    Option::<event::MouseButton>::from(tool).map(|mouse_button| match mouse_button {
        event::MouseButton::Left => MouseButton::Left,
        event::MouseButton::Right => MouseButton::Right,
        event::MouseButton::Middle => MouseButton::Middle,
        event::MouseButton::Back => MouseButton::Back,
        event::MouseButton::Forward => MouseButton::Forward,
        _ => MouseButton::Other,
    })
}

/// The mouse button that stands for a pointer button.
pub open spec fn generic_mouse_button(source: ButtonSource) -> Option<MouseButton> {
    match source {
        ButtonSource::Mouse(button) => Some(button),
        ButtonSource::Touch => Some(MouseButton::Left),
        ButtonSource::TabletTool(button) => tablet_mouse_button(button),
        ButtonSource::Unknown(_) => None,
    }
}

impl ButtonSource {
    /// The mouse button that stands for a pointer button.
    pub fn mouse_button(self) -> (button: Option<MouseButton>)
        ensures
            button == generic_mouse_button(self),
    {
        match self {
            ButtonSource::Mouse(button) => Some(button),
            ButtonSource::Touch => Some(MouseButton::Left),
            ButtonSource::TabletTool(button) => mouse_button_of_tablet(button),
            ButtonSource::Unknown(_) => None,
        }
    }
}

/// A mouse button that the browser knows.
#[derive(Clone, Copy, Debug, PartialEq, Eq, Structural)]
pub enum MouseButtonType {
    Left,
    Middle,
    Right,
}

/// The browser's mouse button for a button of the window system.
pub open spec fn browser_button(button: MouseButton) -> Option<MouseButtonType> {
    match button {
        MouseButton::Left => Some(MouseButtonType::Left),
        MouseButton::Middle => Some(MouseButtonType::Middle),
        MouseButton::Right => Some(MouseButtonType::Right),
        _ => None,
    }
}

/// The browser's mouse button for a pointer button, if it has one.
pub open spec fn browser_button_of(source: ButtonSource) -> Option<MouseButtonType> {
    match generic_mouse_button(source) {
        Some(button) => browser_button(button),
        None => None,
    }
}

pub fn cef_mouse_button(button: MouseButton) -> (result: Option<MouseButtonType>)
    ensures
        result == browser_button(button),
{
    match button {
        MouseButton::Left => Some(MouseButtonType::Left),
        MouseButton::Middle => Some(MouseButtonType::Middle),
        MouseButton::Right => Some(MouseButtonType::Right),
        _ => None,
    }
}

/// The event flag of a mouse button.
pub open spec fn button_flag(button: MouseButtonType) -> u32 {
    match button {
        MouseButtonType::Left => LEFT_MOUSE_BUTTON,
        MouseButtonType::Middle => MIDDLE_MOUSE_BUTTON,
        MouseButtonType::Right => RIGHT_MOUSE_BUTTON,
    }
}

/// The flags of the held buttons after one button went down or up.
pub open spec fn buttons_after(held: u32, button: MouseButtonType, state: ElementState) -> u32 {
    match state {
        ElementState::Pressed => held | button_flag(button),
        ElementState::Released => held & !button_flag(button),
    }
}

/// Keeps account of the mouse buttons that are held down.
pub fn update_pressed_buttons(
    input: &mut OffscreenInputState,
    button: MouseButtonType,
    state: ElementState,
)
    ensures
        *final(input) == (OffscreenInputState {
            pressed_buttons: buttons_after(old(input).pressed_buttons, button, state),
            ..*old(input)
        }),
{
    let flag: u32 = match button {
        MouseButtonType::Left => left_mouse_button_flag(),
        MouseButtonType::Middle => middle_mouse_button_flag(),
        MouseButtonType::Right => right_mouse_button_flag(),
    };
    if state.is_pressed() {
        input.pressed_buttons = input.pressed_buttons | flag;
    } else {
        input.pressed_buttons = input.pressed_buttons & !flag;
    }
}

/// The flags with one more set, where the condition holds.
pub open spec fn with_flag(flags: u32, condition: bool, flag: u32) -> u32 {
    if condition {
        flags | flag
    } else {
        flags
    }
}

/// The event flags of an input state: its held buttons and its modifiers.
pub open spec fn event_flags(input: OffscreenInputState) -> u32 {
    let shift = with_flag(
        input.pressed_buttons,
        input.modifiers & SHIFT_STATE != 0,
        SHIFT_DOWN,
    );
    let control = with_flag(shift, input.modifiers & CONTROL_STATE != 0, CONTROL_DOWN);
    let alt = with_flag(control, input.modifiers & ALT_STATE != 0, ALT_DOWN);
    with_flag(alt, input.modifiers & META_STATE != 0, COMMAND_DOWN)
}

pub fn cef_modifiers(input: &OffscreenInputState) -> (flags: u32)
    ensures
        flags == event_flags(*input),
{
    let mut flags: u32 = input.pressed_buttons;
    if shift_key(input.modifiers) {
        flags = flags | shift_down_flag();
    }
    if control_key(input.modifiers) {
        flags = flags | control_down_flag();
    }
    if alt_key(input.modifiers) {
        flags = flags | alt_down_flag();
    }
    if meta_key(input.modifiers) {
        flags = flags | command_down_flag();
    }
    flags
}

/// All event flags of mouse buttons.
pub const MOUSE_BUTTONS: u32 = 0x70;

impl OffscreenInputState {
    /// Nothing but mouse buttons counts as a held button.
    pub open spec fn wf(self) -> bool {
        self.pressed_buttons & !MOUSE_BUTTONS == 0
    }
}

/// A button counts as held after it went down, and not after it went up. The
/// other buttons are as they were.
pub proof fn law_buttons_are_independent(
    held: u32,
    button: MouseButtonType,
    other: MouseButtonType,
    state: ElementState,
)
    ensures
        (buttons_after(held, button, state) & button_flag(button) != 0) <==> state
            == ElementState::Pressed,
        other != button ==> buttons_after(held, button, state) & button_flag(other) == held
            & button_flag(other),
        held & !MOUSE_BUTTONS == 0 ==> buttons_after(held, button, state) & !MOUSE_BUTTONS == 0,
{
    let a = button_flag(button);
    let b = button_flag(other);
    assert((held | a) & a != 0 && (held & !a) & a == 0) by (bit_vector)
        requires
            a == 16 || a == 32 || a == 64,
    ;
    if other != button {
        assert((held | a) & b == held & b && (held & !a) & b == held & b) by (bit_vector)
            requires
                a == 16 || a == 32 || a == 64,
                b == 16 || b == 32 || b == 64,
                a != b,
        ;
    }
    assert(held & !0x70u32 == 0 ==> (held | a) & !0x70u32 == 0 && (held & !a) & !0x70u32 == 0)
        by (bit_vector)
        requires
            a == 16 || a == 32 || a == 64,
    ;
}

/// Releasing a button undoes its press.
pub proof fn law_release_undoes_press(held: u32, button: MouseButtonType)
    requires
        held & button_flag(button) == 0,
    ensures
        buttons_after(
            buttons_after(held, button, ElementState::Pressed),
            button,
            ElementState::Released,
        ) == held,
{
    let a = button_flag(button);
    assert((held | a) & !a == held) by (bit_vector)
        requires
            held & a == 0,
    ;
}

/// The event flags say of every button whether it is held, and of every
/// modifier whether it is active.
pub proof fn law_event_flags_say_what_is_held(input: OffscreenInputState)
    requires
        input.wf(),
    ensures
        event_flags(input) & MOUSE_BUTTONS == input.pressed_buttons,
        (event_flags(input) & SHIFT_DOWN != 0) <==> (input.modifiers & SHIFT_STATE != 0),
        (event_flags(input) & CONTROL_DOWN != 0) <==> (input.modifiers & CONTROL_STATE != 0),
        (event_flags(input) & ALT_DOWN != 0) <==> (input.modifiers & ALT_STATE != 0),
        (event_flags(input) & COMMAND_DOWN != 0) <==> (input.modifiers & META_STATE != 0),
{
    let held = input.pressed_buttons;
    let s: u32 = if input.modifiers & SHIFT_STATE != 0 { 2 } else { 0 };
    let c: u32 = if input.modifiers & CONTROL_STATE != 0 { 4 } else { 0 };
    let a: u32 = if input.modifiers & ALT_STATE != 0 { 8 } else { 0 };
    let m: u32 = if input.modifiers & META_STATE != 0 { 128 } else { 0 };
    assert(held | 0 == held) by (bit_vector);
    assert(held | s | 0 == held | s) by (bit_vector);
    assert(held | s | c | 0 == held | s | c) by (bit_vector);
    assert(held | s | c | a | 0 == held | s | c | a) by (bit_vector);
    assert(event_flags(input) == held | s | c | a | m);
    assert({
        &&& (held | s | c | a | m) & 0x70 == held
        &&& ((held | s | c | a | m) & 2 != 0 <==> s != 0)
        &&& ((held | s | c | a | m) & 4 != 0 <==> c != 0)
        &&& ((held | s | c | a | m) & 8 != 0 <==> a != 0)
        &&& ((held | s | c | a | m) & 128 != 0 <==> m != 0)
    }) by (bit_vector)
        requires
            held & !0x70u32 == 0,
            s == 0 || s == 2,
            c == 0 || c == 4,
            a == 0 || a == 8,
            m == 0 || m == 128,
    ;
}

/// One button that goes down or up changes the one flag that is its own: 16 for
/// left, 32 for middle, 64 for right. All other bits are as they were.
pub proof fn law_only_one_flag_changes(
    held: u32,
    button: MouseButtonType,
    flag: u32,
    state: ElementState,
)
    requires
        match button {
            MouseButtonType::Left => flag == 16,
            MouseButtonType::Middle => flag == 32,
            MouseButtonType::Right => flag == 64,
        },
    ensures
        (buttons_after(held, button, state) & flag != 0) == (state == ElementState::Pressed),
        buttons_after(held, button, state) & !flag == held & !flag,
{
    assert((held | flag) & flag == flag && (held & !flag) & flag == 0) by (bit_vector);
    assert((held | flag) & !flag == held & !flag && (held & !flag) & !flag == held & !flag)
        by (bit_vector);
}

/// Of the event flags, 2 is for shift, 4 for control, 8 for alt and 128 for
/// meta. Each is set if its modifier is active. All other bits are those of the
/// held buttons.
pub proof fn law_event_flags_bit_by_bit(input: OffscreenInputState)
    ensures
        ({
            let flags = event_flags(input);
            let held = input.pressed_buttons;
            let modifiers = input.modifiers;
            &&& flags & 2 != 0 <==> modifiers & 0x4 != 0 || held & 2 != 0
            &&& flags & 4 != 0 <==> modifiers & 0x20 != 0 || held & 4 != 0
            &&& flags & 8 != 0 <==> modifiers & 0x100 != 0 || held & 8 != 0
            &&& flags & 128 != 0 <==> modifiers & 0x800 != 0 || held & 128 != 0
            &&& flags & !0x8eu32 == held & !0x8eu32
        }),
{
    let held = input.pressed_buttons;
    let s: u32 = if input.modifiers & SHIFT_STATE != 0 { 2 } else { 0 };
    let c: u32 = if input.modifiers & CONTROL_STATE != 0 { 4 } else { 0 };
    let a: u32 = if input.modifiers & ALT_STATE != 0 { 8 } else { 0 };
    let m: u32 = if input.modifiers & META_STATE != 0 { 128 } else { 0 };
    assert(held | 0 == held) by (bit_vector);
    assert(held | s | 0 == held | s) by (bit_vector);
    assert(held | s | c | 0 == held | s | c) by (bit_vector);
    assert(held | s | c | a | 0 == held | s | c | a) by (bit_vector);
    assert(event_flags(input) == held | s | c | a | m);
    assert({
        &&& ((held | s | c | a | m) & 2 != 0 <==> s != 0 || held & 2 != 0)
        &&& ((held | s | c | a | m) & 4 != 0 <==> c != 0 || held & 4 != 0)
        &&& ((held | s | c | a | m) & 8 != 0 <==> a != 0 || held & 8 != 0)
        &&& ((held | s | c | a | m) & 128 != 0 <==> m != 0 || held & 128 != 0)
        &&& (held | s | c | a | m) & !0x8eu32 == held & !0x8eu32
    }) by (bit_vector)
        requires
            s == 0 || s == 2,
            c == 0 || c == 4,
            a == 0 || a == 8,
            m == 0 || m == 128,
    ;
}

} // verus!
