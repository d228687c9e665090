use offscreen_runtime::offscreen::{OffscreenSurface, Redraw};
use offscreen_runtime::render::{
    on_paint, on_popup_show, on_popup_size, paint_length, screen_info, view_rect,
    PaintElementType, PopupPlace, Rect,
};
use std::sync::Arc;

#[test]
fn view_rect_starts_at_the_origin() {
    assert_eq!(view_rect(800, 600), Rect { x: 0, y: 0, width: 800, height: 600 });
}

#[test]
fn view_rect_is_never_empty() {
    assert_eq!(view_rect(0, -5), Rect { x: 0, y: 0, width: 1, height: 1 });
    assert_eq!(
        view_rect(i64::MAX, i64::MIN),
        Rect { x: 0, y: 0, width: i32::MAX, height: 1 }
    );
}

#[test]
fn view_extent_is_the_direct_cast() {
    for (extent, scale) in
        [(800u32, 1.25), (1, 3.0), (0, 0.0), (5, 0.0), (u32::MAX, 0.5), (7, f64::NAN), (9, -1.0)]
    {
        let logical = (f64::from(extent) / scale).round();
        assert_eq!(view_rect(logical as i64, 1).width, logical.max(1.0) as i32);
    }
}

#[test]
fn screen_info_describes_the_view() {
    let info = screen_info(10, 20);
    assert_eq!((info.depth, info.depth_per_component, info.is_monochrome), (32, 8, 0));
    assert_eq!(info.rect, Rect { x: 0, y: 0, width: 10, height: 20 });
    assert_eq!(info.available_rect, info.rect);
}

#[test]
fn popup_show_takes_any_nonzero_value() {
    let mut surface = OffscreenSurface::new();
    assert_eq!(on_popup_show(&mut surface, -1), Redraw::Requested);
    assert!(surface.state.popup_visible);
    assert_eq!(on_popup_show(&mut surface, 0), Redraw::Requested);
    assert!(!surface.state.popup_visible);
}

#[test]
fn popup_size_has_no_negative_extent() {
    let place = on_popup_size(Rect { x: -4, y: 5, width: -6, height: 7 });
    assert_eq!(place, PopupPlace { x: -4, y: 5, width: 0, height: 7 });
}

#[test]
fn paint_length_counts_four_bytes_per_pixel() {
    assert_eq!(paint_length(2, 3), Some(24));
    assert_eq!(paint_length(0, 3), None);
    assert_eq!(paint_length(3, 0), None);
    assert_eq!(paint_length(-1, 3), None);
    assert_eq!(paint_length(3, -1), None);
    assert_eq!(paint_length(32768, 32768), None);
    assert_eq!(paint_length(32767, 32768), Some(4_294_836_224));
    assert_eq!(paint_length(i32::MAX, i32::MAX), None);
}

#[test]
fn painting_publishes_the_frame() {
    let mut surface = OffscreenSurface::new();
    let buffer: Arc<[u8]> = Arc::from(&[1u8, 2, 3, 4, 5, 6, 7, 8][..]);
    let redraw = on_paint(&mut surface, PaintElementType::View, 2, 1, Some(buffer.clone()));
    assert_eq!(redraw, Redraw::Requested);
    let view = surface.snapshot().view.unwrap();
    assert_eq!((view.width, view.height), (2, 1));
    assert_eq!(&view.pixels[..], &buffer[..]);
    surface.set_popup_visible(true);
    on_paint(&mut surface, PaintElementType::Popup, 1, 2, Some(buffer));
    assert_eq!(surface.snapshot().popup.unwrap().serial, 2);
}

#[test]
fn painting_nothing_changes_nothing() {
    let mut surface = OffscreenSurface::new();
    assert_eq!(on_paint(&mut surface, PaintElementType::View, 2, 1, None), Redraw::NotRequested);
    let empty: Arc<[u8]> = Arc::from(&[][..]);
    assert_eq!(
        on_paint(&mut surface, PaintElementType::View, 0, 1, Some(empty.clone())),
        Redraw::NotRequested
    );
    assert_eq!(
        on_paint(&mut surface, PaintElementType::View, -2, 1, Some(empty)),
        Redraw::NotRequested
    );
    assert!(surface.snapshot().view.is_none());
    assert_eq!(surface.state.next_serial, 1);
}
