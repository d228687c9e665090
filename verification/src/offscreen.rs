//! The output surface of a windowless browser view.
//!
//! The browser paints frames into the surface; the application takes
//! snapshots of it and composes them with its own content. The host shares one
//! [`OffscreenSurface`] between both sides behind a lock, and asks for a redraw,
//! once the lock is released, whenever an operation returns
//! [`Redraw::Requested`].
use crate::saturate::{self, saturate_i32, saturate_u32};
use std::sync::Arc;
use vstd::prelude::*;

verus! {

/// A rectangle in physical pixels within an off-screen browser surface.
#[derive(Clone, Copy, Debug, PartialEq, Eq, Structural)]
pub struct OffscreenRect {
    pub x: i32,
    pub y: i32,
    pub width: u32,
    pub height: u32,
}

impl Default for OffscreenRect {
    fn default() -> (rect: Self)
        ensures
            rect == (OffscreenRect { x: 0, y: 0, width: 0, height: 0 }),
    {
        OffscreenRect { x: 0, y: 0, width: 0, height: 0 }
    }
}

/// One premultiplied BGRA8 frame rendered by the browser.
///
/// Frames share their pixels: a copy of a frame points to the same bytes.
#[derive(Debug)]
pub struct OffscreenFrame {
    pub width: u32,
    pub height: u32,
    pub pixels: Arc<[u8]>,
    pub serial: u64,
}

impl OffscreenFrame {
    /// The frame holds exactly four bytes for each of its pixels.
    pub open spec fn tightly_packed(self) -> bool {
        self.pixels@.len() == self.width * self.height * 4
    }
}

impl Clone for OffscreenFrame {
    fn clone(&self) -> (frame: Self)
        ensures
            frame == *self,
    {
        OffscreenFrame {
            width: self.width,
            height: self.height,
            pixels: self.pixels.clone(),
            serial: self.serial,
        }
    }
}

/// The latest view and popup frames produced by an off-screen browser.
#[derive(Debug)]
pub struct OffscreenSnapshot {
    pub view: Option<OffscreenFrame>,
    pub popup: Option<OffscreenFrame>,
    pub popup_rect: OffscreenRect,
}

impl Clone for OffscreenSnapshot {
    fn clone(&self) -> (snapshot: Self)
        ensures
            snapshot == *self,
    {
        OffscreenSnapshot {
            view: self.view.clone(),
            popup: self.popup.clone(),
            popup_rect: self.popup_rect,
        }
    }
}

impl Default for OffscreenSnapshot {
    fn default() -> (snapshot: Self)
        ensures
            snapshot.view is None,
            snapshot.popup is None,
            snapshot.popup_rect == (OffscreenRect { x: 0, y: 0, width: 0, height: 0 }),
    {
        OffscreenSnapshot { view: None, popup: None, popup_rect: OffscreenRect::default() }
    }
}

/// The bit pattern of the scale factor one, as an IEEE 754 double.
pub const UNIT_SCALE: u64 = 0x3ff0_0000_0000_0000;

/// Where a surface lies in its window, in physical pixels.
///
/// `scale_factor` is the bit pattern of an IEEE 754 double. It is carried
/// unchanged; the host computes with it.
#[derive(Clone, Copy, Debug, PartialEq, Eq, Structural)]
pub struct OffscreenBounds {
    pub x: i32,
    pub y: i32,
    pub width: u32,
    pub height: u32,
    pub scale_factor: u64,
}

/// The bounds of a surface that has not been placed yet.
pub open spec fn initial_bounds() -> OffscreenBounds {
    OffscreenBounds { x: 0, y: 0, width: 1, height: 1, scale_factor: UNIT_SCALE }
}

impl Default for OffscreenBounds {
    fn default() -> (bounds: Self)
        ensures
            bounds == initial_bounds(),
    {
        OffscreenBounds { x: 0, y: 0, width: 1, height: 1, scale_factor: UNIT_SCALE }
    }
}

/// Where the input method's cursor stands in the window, in physical pixels.
#[derive(Clone, Copy, Debug, PartialEq, Eq, Structural)]
pub struct OffscreenImeCursorArea {
    pub x: i32,
    pub y: i32,
    pub width: u32,
    pub height: u32,
}

/// Whether the host is to ask the application for a redraw.
#[derive(Clone, Copy, Debug, PartialEq, Eq, Structural)]
pub enum Redraw {
    Requested,
    NotRequested,
}

/// All that a surface remembers.
#[derive(Debug)]
pub struct OffscreenState {
    pub bounds: OffscreenBounds,
    pub visible: bool,
    pub popup_visible: bool,
    pub popup_rect: OffscreenRect,
    pub view: Option<OffscreenFrame>,
    pub popup: Option<OffscreenFrame>,
    pub next_serial: u64,
}

impl Clone for OffscreenState {
    fn clone(&self) -> (state: Self)
        ensures
            state == *self,
    {
        OffscreenState {
            bounds: self.bounds,
            visible: self.visible,
            popup_visible: self.popup_visible,
            popup_rect: self.popup_rect,
            view: self.view.clone(),
            popup: self.popup.clone(),
            next_serial: self.next_serial,
        }
    }
}

impl OffscreenState {
    /// The state of a fresh surface: visible, unplaced and never painted.
    pub open spec fn initial(self) -> bool {
        &&& self.bounds == initial_bounds()
        &&& self.visible
        &&& !self.popup_visible
        &&& self.popup_rect == (OffscreenRect { x: 0, y: 0, width: 0, height: 0 })
        &&& self.view is None
        &&& self.popup is None
        &&& self.next_serial == 1
    }

    /// No frame, present or to come, has the serial zero.
    pub open spec fn wf(self) -> bool {
        &&& self.next_serial != 0
        &&& self.view matches Some(frame) ==> frame.serial != 0
        &&& self.popup matches Some(frame) ==> frame.serial != 0
    }

    /// Every frame holds exactly four bytes for each of its pixels.
    pub open spec fn frames_packed(self) -> bool {
        &&& self.view matches Some(frame) ==> frame.tightly_packed()
        &&& self.popup matches Some(frame) ==> frame.tightly_packed()
    }

    /// The frame that publishing would store.
    pub open spec fn next_frame(self, width: u32, height: u32, pixels: Arc<[u8]>) -> OffscreenFrame {
        OffscreenFrame { width, height, pixels, serial: self.next_serial }
    }

    /// The state after a frame was published as the popup or as the view.
    pub open spec fn published(
        self,
        popup: bool,
        width: u32,
        height: u32,
        pixels: Arc<[u8]>,
    ) -> OffscreenState {
        let frame = Some(self.next_frame(width, height, pixels));
        OffscreenState {
            popup: if popup { frame } else { self.popup },
            view: if popup { self.view } else { frame },
            next_serial: serial_after(self.next_serial),
            ..self
        }
    }

    /// The state after the popup was shown or hidden. A hidden popup loses its
    /// frame.
    pub open spec fn with_popup_visible(self, visible: bool) -> OffscreenState {
        OffscreenState {
            popup_visible: visible,
            popup: if visible { self.popup } else { None },
            ..self
        }
    }

    /// The state after the surface was placed in its window.
    pub open spec fn with_bounds(self, bounds: OffscreenBounds) -> OffscreenState {
        OffscreenState { bounds, ..self }
    }

    /// The state after the surface was shown or hidden.
    pub open spec fn with_visible(self, visible: bool) -> OffscreenState {
        OffscreenState { visible, ..self }
    }

    /// The state after the popup was placed.
    pub open spec fn with_popup_rect(self, popup_rect: OffscreenRect) -> OffscreenState {
        OffscreenState { popup_rect, ..self }
    }

    /// What the application sees of the state.
    pub open spec fn shown(self) -> OffscreenSnapshot {
        OffscreenSnapshot {
            view: self.view,
            popup: if self.popup_visible { self.popup } else { None },
            popup_rect: self.popup_rect,
        }
    }
}

/// The serial that follows `serial`: the next number, and one after the last.
pub open spec fn serial_after(serial: u64) -> u64 {
    if serial == u64::MAX {
        1
    } else {
        (serial + 1) as u64
    }
}

impl Default for OffscreenState {
    fn default() -> (state: Self)
        ensures
            state.initial(),
    {
        OffscreenState {
            bounds: OffscreenBounds::default(),
            visible: true,
            popup_visible: false,
            popup_rect: OffscreenRect::default(),
            view: None,
            popup: None,
            next_serial: 1,
        }
    }
}

/// The place of a popup, from its scaled and rounded coordinates. Each ends at
/// the ends of its range.
pub open spec fn popup_place(x: i64, y: i64, width: i64, height: i64) -> OffscreenRect {
    OffscreenRect {
        x: saturate::saturated(x as int, i32::MIN as int, i32::MAX as int) as i32,
        y: saturate::saturated(y as int, i32::MIN as int, i32::MAX as int) as i32,
        width: saturate::saturated(width as int, 0, u32::MAX as int) as u32,
        height: saturate::saturated(height as int, 0, u32::MAX as int) as u32,
    }
}

/// Output surface for a windowless webview.
///
/// The browser owns its paint buffers only for the duration of its render
/// callback, so this surface keeps each completed frame in application-owned
/// memory. The consumer can then upload it to its own texture and compose it
/// with other native content.
///
/// There is one value for each surface. It has no copies: the host's handles to
/// a surface all lead to the same value, behind its lock.
#[derive(Debug)]
pub struct OffscreenSurface {
    pub state: OffscreenState,
}

impl View for OffscreenSurface {
    type V = OffscreenState;

    open spec fn view(&self) -> OffscreenState {
        self.state
    }
}

impl OffscreenSurface {
    pub fn new() -> (surface: Self)
        ensures
            surface@.initial(),
            surface@.wf(),
    {
        OffscreenSurface { state: OffscreenState::default() }
    }

    /// The frames to compose. A popup frame is part of it only while the popup
    /// is visible.
    pub fn snapshot(&self) -> (snapshot: OffscreenSnapshot)
        ensures
            snapshot == self@.shown(),
    {
        OffscreenSnapshot {
            view: self.state.view.clone(),
            popup: if self.state.popup_visible {
                self.state.popup.clone()
            } else {
                None
            },
            popup_rect: self.state.popup_rect,
        }
    }

    pub fn bounds(&self) -> (bounds: OffscreenBounds)
        ensures
            bounds == self@.bounds,
    {
        self.state.bounds
    }

    pub fn set_bounds(&mut self, bounds: OffscreenBounds)
        ensures
            final(self)@ == old(self)@.with_bounds(bounds),
    {
        self.state.bounds = bounds;
    }

    pub fn set_visible(&mut self, visible: bool)
        ensures
            final(self)@ == old(self)@.with_visible(visible),
    {
        self.state.visible = visible;
    }

    pub fn is_visible(&self) -> (visible: bool)
        ensures
            visible == self@.visible,
    {
        self.state.visible
    }

    /// Shows or hides the popup; hiding it drops its frame.
    pub fn set_popup_visible(&mut self, visible: bool) -> (redraw: Redraw)
        ensures
            final(self)@ == old(self)@.with_popup_visible(visible),
            redraw == Redraw::Requested,
    {
        self.state.popup_visible = visible;
        if !visible {
            self.state.popup = None;
        }
        Redraw::Requested
    }

    /// Places the popup. The arguments are the browser's coordinates, scaled by
    /// the surface's scale factor and rounded.
    pub fn set_popup_rect(&mut self, x: i64, y: i64, width: i64, height: i64)
        ensures
            final(self)@ == old(self)@.with_popup_rect(popup_place(x, y, width, height)),
    {
        self.state.popup_rect = OffscreenRect {
            x: saturate_i32(x),
            y: saturate_i32(y),
            width: saturate_u32(width),
            height: saturate_u32(height),
        };
    }

    /// Stores a completed frame under the next serial.
    pub fn publish(&mut self, popup: bool, width: u32, height: u32, pixels: Arc<[u8]>) -> (redraw:
        Redraw)
        ensures
            final(self)@ == old(self)@.published(popup, width, height, pixels),
            redraw == Redraw::Requested,
    {
        let serial: u64 = self.state.next_serial;
        let following: u64 = serial.wrapping_add(1);
        self.state.next_serial = if following < 1 { 1 } else { following };
        let frame = OffscreenFrame { width, height, pixels, serial };
        if popup {
            self.state.popup = Some(frame);
        } else {
            self.state.view = Some(frame);
        }
        Redraw::Requested
    }
}

/// What was published is what a snapshot shows: a view frame at once, a popup
/// frame while the popup is visible. The other frame and the popup's place are
/// as they were.
pub proof fn law_snapshot_shows_what_was_published(
    state: OffscreenState,
    width: u32,
    height: u32,
    pixels: Arc<[u8]>,
)
    ensures
        state.published(false, width, height, pixels).shown() == (OffscreenSnapshot {
            view: Some(state.next_frame(width, height, pixels)),
            ..state.shown()
        }),
        state.popup_visible ==> state.published(true, width, height, pixels).shown() == (
        OffscreenSnapshot {
            popup: Some(state.next_frame(width, height, pixels)),
            ..state.shown()
        }),
        !state.popup_visible ==> state.published(true, width, height, pixels).shown()
            == state.shown(),
{
}

/// A snapshot never shows the popup's frame while the popup is hidden.
pub proof fn law_hidden_popup_is_not_shown(state: OffscreenState)
    ensures
        state.shown().popup is Some ==> state.popup_visible,
        state.with_popup_visible(false).shown().popup is None,
{
}

/// A popup that was hidden and is shown again has no frame until one is
/// published for it.
pub proof fn law_hidden_popup_loses_its_frame(
    state: OffscreenState,
    width: u32,
    height: u32,
    pixels: Arc<[u8]>,
)
    ensures
        state.with_popup_visible(false).with_popup_visible(true).shown().popup is None,
        state.with_popup_visible(false).published(
            true,
            width,
            height,
            pixels,
        ).with_popup_visible(true).shown().popup == Some(state.next_frame(width, height, pixels)),
{
}

/// Placing a surface, showing or hiding it, and placing its popup have no effect
/// on frames, and none on one another.
pub proof fn law_settings_are_independent(
    state: OffscreenState,
    bounds: OffscreenBounds,
    visible: bool,
    popup_rect: OffscreenRect,
)
    ensures
        state.with_bounds(bounds).bounds == bounds,
        state.with_bounds(bounds).visible == state.visible,
        state.with_bounds(bounds).shown() == state.shown(),
        state.with_visible(visible).visible == visible,
        state.with_visible(visible).bounds == state.bounds,
        state.with_visible(visible).shown() == state.shown(),
        state.with_popup_rect(popup_rect).bounds == state.bounds,
        state.with_popup_rect(popup_rect).visible == state.visible,
        state.with_popup_rect(popup_rect).popup_visible == state.popup_visible,
        state.with_popup_rect(popup_rect).shown() == (OffscreenSnapshot {
            popup_rect,
            ..state.shown()
        }),
{
}

/// A fresh surface is well-formed, and every operation keeps it so.
pub proof fn law_serials_are_never_zero(
    state: OffscreenState,
    popup: bool,
    width: u32,
    height: u32,
    pixels: Arc<[u8]>,
    visible: bool,
    bounds: OffscreenBounds,
    popup_rect: OffscreenRect,
)
    ensures
        state.initial() ==> state.wf(),
        state.wf() ==> state.published(popup, width, height, pixels).wf(),
        state.wf() ==> state.with_popup_visible(visible).wf(),
        state.wf() ==> state.with_bounds(bounds).wf(),
        state.wf() ==> state.with_visible(visible).wf(),
        state.wf() ==> state.with_popup_rect(popup_rect).wf(),
{
}

/// The serial that comes `count` frames after `serial`.
pub open spec fn serial_after_many(serial: u64, count: nat) -> u64
    decreases count,
{
    if count == 0 {
        serial
    } else {
        serial_after(serial_after_many(serial, (count - 1) as nat))
    }
}

/// Serials count up, and start again from one after the last.
pub proof fn law_serials_count_up(serial: u64, count: nat)
    requires
        serial != 0,
    ensures
        serial_after_many(serial, count) == (serial - 1 + count) % (u64::MAX as int) + 1,
    decreases count,
{
    let total = u64::MAX as int;
    if count == 0 {
        assert((serial - 1) % total == serial - 1) by (nonlinear_arith)
            requires
                0 <= serial - 1 < total,
        ;
    } else {
        law_serials_count_up(serial, (count - 1) as nat);
        let before = serial - 1 + count - 1;
        vstd::arithmetic::div_mod::lemma_fundamental_div_mod(before, total);
        let q = before / total;
        let r = before % total;
        if r + 1 < total {
            vstd::arithmetic::div_mod::lemma_fundamental_div_mod_converse(
                before + 1,
                total,
                q,
                r + 1,
            );
        } else {
            assert(total * q + total == total * (q + 1)) by (nonlinear_arith);
            vstd::arithmetic::div_mod::lemma_fundamental_div_mod_converse(
                before + 1,
                total,
                q + 1,
                0,
            );
        }
    }
}

/// Two frames share a serial only if all other serials were given out between
/// them.
pub proof fn law_serials_tell_frames_apart(serial: u64, count: nat)
    requires
        serial != 0,
        0 < count < u64::MAX,
    ensures
        serial_after_many(serial, count) != serial,
{
    let total = u64::MAX as int;
    let sum = serial - 1 + count;
    law_serials_count_up(serial, count);
    if sum < total {
        vstd::arithmetic::div_mod::lemma_small_mod(sum as nat, total as nat);
    } else {
        assert(total * 1 + (sum - total) == sum);
        vstd::arithmetic::div_mod::lemma_fundamental_div_mod_converse(sum, total, 1, sum - total);
    }
}

/// A fresh surface lies at the origin, is one pixel large at the scale one, is
/// visible, has a hidden popup without a place, and shows no frame. Its first
/// serial is one.
pub proof fn law_fresh_surfaces_are_empty(fresh: OffscreenState)
    requires
        fresh.initial(),
    ensures
        fresh.bounds.x == 0 && fresh.bounds.y == 0,
        fresh.bounds.width == 1 && fresh.bounds.height == 1,
        fresh.bounds.scale_factor == 0x3ff0_0000_0000_0000,
        fresh.visible,
        !fresh.popup_visible,
        fresh.next_serial == 1,
        fresh.shown().view is None,
        fresh.shown().popup is None,
        fresh.shown().popup_rect == (OffscreenRect { x: 0, y: 0, width: 0, height: 0 }),
{
}

/// The place of a popup has the given coordinates, each ending at its range's
/// ends on its own.
pub proof fn law_popup_places_end_at_the_range(x: i64, y: i64, width: i64, height: i64)
    ensures
        ({
            let place = popup_place(x, y, width, height);
            &&& -0x8000_0000 <= x <= 0x7fff_ffff ==> place.x == x
            &&& -0x8000_0000 <= y <= 0x7fff_ffff ==> place.y == y
            &&& 0 <= width <= 0xffff_ffff ==> place.width == width
            &&& 0 <= height <= 0xffff_ffff ==> place.height == height
            &&& x > 0x7fff_ffff ==> place.x == 0x7fff_ffff
            &&& y > 0x7fff_ffff ==> place.y == 0x7fff_ffff
            &&& width > 0xffff_ffff ==> place.width == 0xffff_ffff
            &&& height > 0xffff_ffff ==> place.height == 0xffff_ffff
            &&& x < -0x8000_0000 ==> place.x == -0x8000_0000
            &&& y < -0x8000_0000 ==> place.y == -0x8000_0000
            &&& width < 0 ==> place.width == 0
            &&& height < 0 ==> place.height == 0
        }),
{
}

} // verus!
