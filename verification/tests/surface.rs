use offscreen_runtime::offscreen::{
    OffscreenBounds, OffscreenFrame, OffscreenRect, OffscreenSnapshot, OffscreenState,
    OffscreenSurface, Redraw, UNIT_SCALE,
};
use std::sync::{Arc, Mutex};

fn pixels(bytes: &[u8]) -> Arc<[u8]> {
    Arc::from(bytes)
}

#[test]
fn fresh_surface_is_visible_and_empty() {
    let surface = OffscreenSurface::new();
    assert!(surface.is_visible());
    let bounds = surface.bounds();
    assert_eq!((bounds.x, bounds.y, bounds.width, bounds.height), (0, 0, 1, 1));
    assert_eq!(f64::from_bits(bounds.scale_factor), 1.0);
    let snapshot = surface.snapshot();
    assert!(snapshot.view.is_none());
    assert!(snapshot.popup.is_none());
    assert_eq!(snapshot.popup_rect, OffscreenRect { x: 0, y: 0, width: 0, height: 0 });
}

#[test]
fn defaults_are_those_of_a_fresh_surface() {
    assert_eq!(OffscreenRect::default(), OffscreenRect { x: 0, y: 0, width: 0, height: 0 });
    assert_eq!(OffscreenBounds::default().scale_factor, UNIT_SCALE);
    let state = OffscreenState::default();
    assert_eq!(state.next_serial, 1);
    assert!(!state.popup_visible);
    let snapshot = OffscreenSnapshot::default();
    assert!(snapshot.view.is_none() && snapshot.popup.is_none());
}

#[test]
fn bounds_and_visibility_read_back() {
    let mut surface = OffscreenSurface::new();
    let bounds =
        OffscreenBounds { x: -3, y: 7, width: 640, height: 480, scale_factor: 1.5f64.to_bits() };
    surface.set_bounds(bounds);
    assert_eq!(surface.bounds(), bounds);
    surface.set_visible(false);
    assert!(!surface.is_visible());
    surface.set_visible(true);
    assert!(surface.is_visible());
}

#[test]
fn snapshot_shows_the_published_view() {
    let mut surface = OffscreenSurface::new();
    let redraw = surface.publish(false, 1, 1, pixels(&[1, 2, 3, 4]));
    assert_eq!(redraw, Redraw::Requested);
    let snapshot = surface.snapshot();
    let view = snapshot.view.unwrap();
    assert_eq!((view.width, view.height, view.serial), (1, 1, 1));
    assert_eq!(&view.pixels[..], &[1, 2, 3, 4]);
    assert!(snapshot.popup.is_none());
}

#[test]
fn snapshots_share_the_pixels() {
    let mut surface = OffscreenSurface::new();
    let bytes = pixels(&[9; 16]);
    surface.publish(false, 2, 2, bytes.clone());
    let first = surface.snapshot().view.unwrap();
    let second = surface.snapshot().clone().view.unwrap();
    assert!(Arc::ptr_eq(&first.pixels, &bytes));
    assert!(Arc::ptr_eq(&second.pixels, &bytes));
}

#[test]
fn hidden_popup_is_not_shown() {
    let mut surface = OffscreenSurface::new();
    surface.publish(true, 1, 1, pixels(&[0; 4]));
    assert!(surface.snapshot().popup.is_none());
    assert_eq!(surface.set_popup_visible(true), Redraw::Requested);
    assert_eq!(surface.snapshot().popup.unwrap().serial, 1);
}

#[test]
fn hiding_the_popup_drops_its_frame() {
    let mut surface = OffscreenSurface::new();
    surface.set_popup_visible(true);
    surface.publish(true, 1, 1, pixels(&[0; 4]));
    assert!(surface.snapshot().popup.is_some());
    assert_eq!(surface.set_popup_visible(false), Redraw::Requested);
    surface.set_popup_visible(true);
    assert!(surface.snapshot().popup.is_none());
    surface.publish(true, 1, 1, pixels(&[0; 4]));
    assert_eq!(surface.snapshot().popup.unwrap().serial, 2);
}

#[test]
fn view_and_popup_share_one_count_of_serials() {
    let mut surface = OffscreenSurface::new();
    surface.set_popup_visible(true);
    surface.publish(false, 1, 1, pixels(&[0; 4]));
    surface.publish(true, 1, 1, pixels(&[1; 4]));
    surface.publish(false, 1, 1, pixels(&[2; 4]));
    let snapshot = surface.snapshot();
    assert_eq!(snapshot.view.unwrap().serial, 3);
    assert_eq!(snapshot.popup.unwrap().serial, 2);
}

#[test]
fn serials_start_again_from_one() {
    let mut surface = OffscreenSurface::new();
    surface.state.next_serial = u64::MAX;
    surface.publish(false, 1, 1, pixels(&[0; 4]));
    assert_eq!(surface.snapshot().view.unwrap().serial, u64::MAX);
    surface.publish(false, 1, 1, pixels(&[0; 4]));
    assert_eq!(surface.snapshot().view.unwrap().serial, 1);
}

#[test]
fn popup_rect_ends_at_the_range() {
    let mut surface = OffscreenSurface::new();
    surface.set_popup_rect(15, -30, 45, 60);
    assert_eq!(
        surface.snapshot().popup_rect,
        OffscreenRect { x: 15, y: -30, width: 45, height: 60 }
    );
    surface.set_popup_rect(i64::MIN, i64::MAX, -1, i64::MAX);
    assert_eq!(
        surface.snapshot().popup_rect,
        OffscreenRect { x: i32::MIN, y: i32::MAX, width: 0, height: u32::MAX }
    );
}

#[test]
fn rounding_in_two_steps_is_the_direct_cast() {
    for value in [0.0, -0.5, 0.5, 2.5e9, -2.5e9, 5.0e9, f64::NAN, f64::INFINITY, f64::NEG_INFINITY] {
        let rounded: f64 = f64::round(value);
        let mut surface = OffscreenSurface::new();
        surface.set_popup_rect(rounded as i64, 0, rounded as i64, 0);
        let rect = surface.snapshot().popup_rect;
        assert_eq!(rect.x, rounded as i32);
        assert_eq!(rect.width, rounded as u32);
    }
}

#[test]
fn frames_clone_field_by_field() {
    let frame = OffscreenFrame { width: 2, height: 1, pixels: pixels(&[7; 8]), serial: 5 };
    let copy = frame.clone();
    assert_eq!((copy.width, copy.height, copy.serial), (2, 1, 5));
    assert_eq!(&copy.pixels[..], &[7; 8]);
}

#[test]
fn handles_share_one_history() {
    let surface = Arc::new(Mutex::new(OffscreenSurface::new()));
    let handle = surface.clone();
    handle.lock().unwrap().publish(false, 1, 1, pixels(&[1, 2, 3, 4]));
    let view = surface.lock().unwrap().snapshot().view.unwrap();
    assert_eq!((view.width, view.height, view.serial), (1, 1, 1));
    assert_eq!(&view.pixels[..], &[1, 2, 3, 4]);
    surface.lock().unwrap().publish(true, 1, 1, pixels(&[5; 4]));
    handle.lock().unwrap().set_popup_visible(true);
    assert_eq!(surface.lock().unwrap().snapshot().popup.unwrap().serial, 2);
    let bounds =
        OffscreenBounds { x: 1, y: 2, width: 3, height: 4, scale_factor: 2.0f64.to_bits() };
    surface.lock().unwrap().set_bounds(bounds);
    assert_eq!(handle.lock().unwrap().bounds(), bounds);
}

#[test]
fn the_kth_frame_has_the_kth_serial() {
    let mut surface = OffscreenSurface::new();
    surface.set_popup_visible(true);
    for k in 1..=10u64 {
        let popup = k % 3 == 0;
        surface.set_visible(k % 2 == 0);
        surface.set_popup_rect(k as i64, 0, 0, 0);
        surface.publish(popup, 1, 1, pixels(&[k as u8; 4]));
        let snapshot = surface.snapshot();
        let frame = if popup { snapshot.popup } else { snapshot.view }.unwrap();
        assert_eq!(frame.serial, k);
        assert_eq!(frame.pixels[0], k as u8);
    }
}

#[test]
fn the_last_frames_are_shown_whatever_else_is_set() {
    let mut surface = OffscreenSurface::new();
    surface.publish(false, 1, 1, pixels(&[1; 4]));
    surface.publish(false, 1, 1, pixels(&[2; 4]));
    surface.set_popup_visible(true);
    surface.publish(true, 1, 1, pixels(&[3; 4]));
    surface.publish(true, 1, 1, pixels(&[4; 4]));
    surface.set_visible(false);
    surface.set_bounds(OffscreenBounds::default());
    surface.set_popup_visible(true);
    let snapshot = surface.snapshot();
    assert_eq!(snapshot.view.unwrap().serial, 2);
    assert_eq!(snapshot.popup.unwrap().serial, 4);
    surface.set_popup_visible(false);
    let snapshot = surface.snapshot();
    assert_eq!(snapshot.view.unwrap().serial, 2);
    assert!(snapshot.popup.is_none());
}

#[test]
fn the_popup_keeps_its_place() {
    let mut surface = OffscreenSurface::new();
    surface.set_popup_rect(1, 2, 3, 4);
    surface.set_popup_visible(true);
    surface.set_bounds(OffscreenBounds {
        scale_factor: 2.0f64.to_bits(),
        ..OffscreenBounds::default()
    });
    surface.set_popup_visible(false);
    let place = OffscreenRect { x: 1, y: 2, width: 3, height: 4 };
    assert_eq!(surface.snapshot().popup_rect, place);
}
