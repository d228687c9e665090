//! The render callbacks of a windowless browser.
use crate::offscreen::{OffscreenFrame, OffscreenState, OffscreenSurface, Redraw};
use crate::saturate::{self, saturate_extent};
use std::sync::Arc;
use vstd::prelude::*;

verus! {

/// A rectangle in the browser's logical pixels.
#[derive(Clone, Copy, Debug, PartialEq, Eq, Structural)]
pub struct Rect {
    pub x: i32,
    pub y: i32,
    pub width: i32,
    pub height: i32,
}

/// The view of a surface, from its logical extents. It is never empty.
pub open spec fn view_of(width: int, height: int) -> Rect {
    Rect {
        x: 0,
        y: 0,
        width: saturate::saturated(width, 1, i32::MAX as int) as i32,
        height: saturate::saturated(height, 1, i32::MAX as int) as i32,
    }
}

/// The view's rectangle. The arguments are the surface's extents, divided by
/// its scale factor and rounded.
pub fn view_rect(width: i64, height: i64) -> (rect: Rect)
    ensures
        rect == view_of(width as int, height as int),
{
    Rect { x: 0, y: 0, width: saturate_extent(width), height: saturate_extent(height) }
}

/// The screen that a surface pretends to be.
#[derive(Clone, Copy, Debug, PartialEq, Eq, Structural)]
pub struct ScreenInfo {
    pub depth: i32,
    pub depth_per_component: i32,
    pub is_monochrome: i32,
    pub rect: Rect,
    pub available_rect: Rect,
}

/// The screen behind a surface: the view is all of it. The arguments are those
/// of [`view_rect`].
pub fn screen_info(width: i64, height: i64) -> (info: ScreenInfo)
    ensures
        info == (ScreenInfo {
            depth: 32,
            depth_per_component: 8,
            is_monochrome: 0,
            rect: view_of(width as int, height as int),
            available_rect: view_of(width as int, height as int),
        }),
{
    let rect = view_rect(width, height);
    ScreenInfo { depth: 32, depth_per_component: 8, is_monochrome: 0, rect, available_rect: rect }
}

/// The browser shows its popup, or hides it.
pub fn on_popup_show(surface: &mut OffscreenSurface, show: i32) -> (redraw: Redraw)
    ensures
        final(surface)@ == old(surface)@.with_popup_visible(show != 0),
        redraw == Redraw::Requested,
{
    surface.set_popup_visible(show != 0)
}

/// The popup's place in logical pixels.
#[derive(Clone, Copy, Debug, PartialEq, Eq, Structural)]
pub struct PopupPlace {
    pub x: i32,
    pub y: i32,
    pub width: u32,
    pub height: u32,
}

/// The popup's place for a rectangle of the browser.
pub open spec fn place_of(rect: Rect) -> PopupPlace {
    PopupPlace {
        x: rect.x,
        y: rect.y,
        width: saturate::saturated(rect.width as int, 0, i32::MAX as int) as u32,
        height: saturate::saturated(rect.height as int, 0, i32::MAX as int) as u32,
    }
}

/// The browser places its popup. A negative extent counts as zero.
pub fn on_popup_size(rect: Rect) -> (place: PopupPlace)
    ensures
        place.x == rect.x,
        place.y == rect.y,
        place.width == saturate::saturated(rect.width as int, 0, i32::MAX as int),
        place.height == saturate::saturated(rect.height as int, 0, i32::MAX as int),
        place == place_of(rect),
{
    PopupPlace {
        x: rect.x,
        y: rect.y,
        width: if rect.width < 0 {
            0
        } else {
            rect.width as u32
        },
        height: if rect.height < 0 {
            0
        } else {
            rect.height as u32
        },
    }
}

/// What the browser paints.
#[derive(Clone, Copy, Debug, PartialEq, Eq, Structural)]
pub enum PaintElementType {
    View,
    Popup,
}

/// The extents are those of a frame: positive, and its bytes can be counted in
/// thirty-two bits.
pub open spec fn paintable(width: int, height: int) -> bool {
    &&& width > 0
    &&& height > 0
    &&& width * height * 4 <= u32::MAX
}

/// How many bytes the browser's paint buffer holds, if there is a frame in it.
pub fn paint_length(width: i32, height: i32) -> (length: Option<usize>)
    ensures
        length matches Some(bytes) ==> bytes == width * height * 4,
        length is Some <==> paintable(width as int, height as int),
{
    if width < 0 || height < 0 {
        return None;
    }
    proof {
        let w = width as int;
        let h = height as int;
        assert(w >= 0 && h >= 0 ==> w * h >= 0 && (w * h == 0 <==> w == 0 || h == 0))
            by (nonlinear_arith);
        assert((w * h) * 4 == w * h * 4);
    }
    let pixels: u32 = match (width as u32).checked_mul(height as u32) {
        Some(pixels) => pixels,
        None => {
            return None;
        },
    };
    let bytes: u32 = match pixels.checked_mul(4) {
        Some(bytes) => bytes,
        None => {
            return None;
        },
    };
    if bytes == 0 {
        None
    } else {
        Some(bytes as usize)
    }
}

/// The state of a surface after the browser has painted.
pub open spec fn painted(
    state: OffscreenState,
    popup: bool,
    width: i32,
    height: i32,
    buffer: Option<Arc<[u8]>>,
) -> OffscreenState {
    match buffer {
        Some(pixels) if paintable(width as int, height as int) => state.published(
            popup,
            width as u32,
            height as u32,
            pixels,
        ),
        _ => state,
    }
}

/// The browser has painted. `buffer` is a copy of its paint buffer, four bytes
/// for each pixel, if it handed one over. What is no frame is ignored.
pub fn on_paint(
    surface: &mut OffscreenSurface,
    element: PaintElementType,
    width: i32,
    height: i32,
    buffer: Option<Arc<[u8]>>,
) -> (redraw: Redraw)
    requires
        buffer matches Some(pixels) ==> paintable(width as int, height as int) ==> pixels@.len()
            == width * height * 4,
    ensures
        match buffer {
            Some(pixels) if paintable(width as int, height as int) => {
                &&& final(surface)@ == old(surface)@.published(
                    element == PaintElementType::Popup,
                    width as u32,
                    height as u32,
                    pixels,
                )
                &&& redraw == Redraw::Requested
            },
            _ => {
                &&& final(surface)@ == old(surface)@
                &&& redraw == Redraw::NotRequested
            },
        },
        final(surface)@ == painted(
            old(surface)@,
            element == PaintElementType::Popup,
            width,
            height,
            buffer,
        ),
        old(surface)@.frames_packed() ==> final(surface)@.frames_packed(),
{
    if paint_length(width, height).is_none() {
        return Redraw::NotRequested;
    }
    match buffer {
        Some(pixels) => {
            let popup: bool = match element {
                PaintElementType::Popup => true,
                PaintElementType::View => false,
            };
            surface.publish(popup, width as u32, height as u32, pixels)
        },
        None => Redraw::NotRequested,
    }
}

/// However small a surface is, its view is not empty.
pub proof fn law_view_is_never_empty(width: int, height: int)
    ensures
        view_of(width, height).width >= 1,
        view_of(width, height).height >= 1,
{
}

/// An extent that the browser can count, from one on, is the view's; a smaller one
/// counts as one, a greater one as the greatest. The view begins at the origin.
pub proof fn law_views_have_the_given_extents(width: int, height: int)
    ensures
        view_of(width, height).x == 0,
        view_of(width, height).y == 0,
        1 <= width <= 0x7fff_ffff ==> view_of(width, height).width == width,
        1 <= height <= 0x7fff_ffff ==> view_of(width, height).height == height,
        width < 1 ==> view_of(width, height).width == 1,
        height < 1 ==> view_of(width, height).height == 1,
        width > 0x7fff_ffff ==> view_of(width, height).width == 0x7fff_ffff,
        height > 0x7fff_ffff ==> view_of(width, height).height == 0x7fff_ffff,
{
}

/// Everything with a pixel in it can be painted, up to as many bytes as
/// thirty-two bits can count.
pub proof fn law_all_frames_can_be_painted(width: int, height: int)
    ensures
        width >= 1 && height >= 1 && width * height <= 0x3fff_ffff ==> paintable(width, height),
        width <= 0 || height <= 0 ==> !paintable(width, height),
        width * height > 0x3fff_ffff ==> !paintable(width, height),
{
}

/// A painted buffer becomes the view's frame, or the popup's, with its extents and
/// its pixels, under the next serial. The other frame stays, and so do the
/// surface's place and visibility. Without a buffer, or without a pixel, or with
/// more than thirty-two bits can count, nothing changes.
pub proof fn law_painting_becomes_a_frame(
    state: OffscreenState,
    popup: bool,
    width: i32,
    height: i32,
    pixels: Arc<[u8]>,
)
    ensures
        width >= 1 && height >= 1 && width * height <= 0x3fff_ffff ==> {
            let after = painted(state, popup, width, height, Some(pixels));
            let frame = OffscreenFrame {
                width: width as u32,
                height: height as u32,
                pixels,
                serial: state.next_serial,
            };
            &&& popup ==> after.popup == Some(frame) && after.view == state.view
            &&& !popup ==> after.view == Some(frame) && after.popup == state.popup
            &&& after.bounds == state.bounds
            &&& after.visible == state.visible
            &&& after.popup_visible == state.popup_visible
            &&& after.popup_rect == state.popup_rect
            &&& state.next_serial < u64::MAX ==> after.next_serial == state.next_serial + 1
            &&& state.next_serial == u64::MAX ==> after.next_serial == 1
        },
        width <= 0 || height <= 0 || width * height > 0x3fff_ffff ==> painted(
            state,
            popup,
            width,
            height,
            Some(pixels),
        ) == state,
        painted(state, popup, width, height, None) == state,
{
}

/// A popup is where the browser says, and as large; it has no negative extent.
pub proof fn law_popups_are_where_the_browser_says(rect: Rect)
    ensures
        place_of(rect).x == rect.x,
        place_of(rect).y == rect.y,
        rect.width >= 0 ==> place_of(rect).width == rect.width,
        rect.height >= 0 ==> place_of(rect).height == rect.height,
        rect.width < 0 ==> place_of(rect).width == 0,
        rect.height < 0 ==> place_of(rect).height == 0,
{
}

} // verus!
