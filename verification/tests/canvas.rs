use infwinity::backends::winit::{WinitAction, WinitEvent};
use infwinity::geometry::{Point, Size};
use infwinity::util::CanvasCoords;
use infwinity::{Infwinity, OutputInfo};

const CENTER: i32 = i32::MAX / 2;

#[test]
fn center_is_middle_of_positive_range() {
    assert_eq!(CanvasCoords::center(), Point::new(1073741823, 1073741823));
    assert_eq!(CanvasCoords::center(), CanvasCoords::from(0, 0));
}

#[test]
fn coords_are_relative_to_center() {
    assert_eq!(CanvasCoords::from(10, -20), Point::new(CENTER + 10, CENTER - 20));
    assert_eq!(CanvasCoords::from(-CENTER, -CENTER), Point::new(0, 0));
    assert_eq!(CanvasCoords::from(CENTER + 1, 0), Point::new(i32::MAX, CENTER));
}

#[test]
fn coords_beyond_edge_are_clamped() {
    assert_eq!(CanvasCoords::from(i32::MIN, -CENTER - 1), Point::new(0, 0));
    assert_eq!(CanvasCoords::from(-2_000_000_000, 5), Point::new(0, CENTER + 5));
}

#[test]
fn size_downscale_rounds_down() {
    let s = Size::new(7, 9).downscale(2);
    assert_eq!((s.w(), s.h()), (3, 4));
    let l = Size::new(1281, 801).to_logical(2);
    assert_eq!((l.w(), l.h()), (640, 400));
}

#[test]
fn point_minus_size() {
    assert_eq!(Point::new(10, 10).sub_size(Size::new(3, 12)), Point::new(7, -2));
}

#[test]
fn point_minus_size_saturates() {
    assert_eq!(
        Point::new(i32::MIN + 1, -5).sub_size(Size::new(5, i32::MAX)),
        Point::new(i32::MIN, i32::MIN)
    );
}

#[test]
fn large_pan_saturates() {
    let comp = Infwinity::new();
    let output = OutputInfo::new(None, 1);
    assert_eq!(
        comp.after_frame_rendered(&output, i32::MIN, i32::MAX),
        Point::new(i32::MAX, CENTER - i32::MAX)
    );
}

#[test]
fn output_is_centered_on_canvas() {
    let comp = Infwinity::new();
    let output = OutputInfo::new(Some(Size::new(1280, 800)), 1);
    assert_eq!(comp.register_output(&output), Point::new(CENTER - 640, CENTER - 400));
}

#[test]
fn output_scale_divides_mode_size() {
    let comp = Infwinity::new();
    let output = OutputInfo::new(Some(Size::new(1281, 801)), 2);
    assert_eq!(comp.register_output(&output), Point::new(CENTER - 320, CENTER - 200));
}

#[test]
fn output_without_mode_sits_at_center() {
    let comp = Infwinity::new();
    let output = OutputInfo::new(None, 3);
    assert_eq!(comp.register_output(&output), CanvasCoords::center());
}

#[test]
fn largest_output_stays_on_canvas() {
    let comp = Infwinity::new();
    let output = OutputInfo::new(Some(Size::new(i32::MAX, i32::MAX)), 1);
    assert_eq!(comp.register_output(&output), Point::new(0, 0));
}

#[test]
fn window_is_centered_at_origin() {
    let comp = Infwinity::new();
    assert_eq!(comp.register_window(Size::new(7, 9)), Point::new(CENTER - 3, CENTER - 4));
    assert_eq!(comp.register_window(Size::new(0, 0)), CanvasCoords::center());
}

#[test]
fn unpanned_frame_matches_registration() {
    let comp = Infwinity::new();
    let output = OutputInfo::new(Some(Size::new(1920, 1080)), 1);
    assert_eq!(comp.after_frame_rendered(&output, 0, 0), comp.register_output(&output));
}

#[test]
fn pan_moves_output_against_pan() {
    let comp = Infwinity::new();
    let output = OutputInfo::new(Some(Size::new(1280, 800)), 1);
    let centered = comp.register_output(&output);
    let panned = comp.after_frame_rendered(&output, 100, -100);
    assert_eq!(panned, Point::new(centered.x - 100, centered.y + 100));
    assert_eq!(panned, Point::new(1073741083, 1073741523));
}

#[test]
fn new_compositor_runs_until_shutdown() {
    let mut comp = Infwinity::new();
    assert!(comp.is_running());
    comp.shutdown();
    assert!(!comp.is_running());
    comp.shutdown();
    assert!(!comp.is_running());
}

#[test]
fn resize_sets_output_mode() {
    let mut comp = Infwinity::new();
    let size = Size::new(1024, 768);
    assert_eq!(
        comp.handle_winit_event(WinitEvent::Resized { size }),
        WinitAction::SetOutputMode { size, refresh: 0 }
    );
    assert!(comp.is_running());
}

#[test]
fn redraw_renders_a_frame() {
    let mut comp = Infwinity::new();
    assert_eq!(comp.handle_winit_event(WinitEvent::Redraw), WinitAction::RenderFrame);
    assert!(comp.is_running());
}

#[test]
fn other_events_are_ignored() {
    let mut comp = Infwinity::new();
    assert_eq!(comp.handle_winit_event(WinitEvent::Other), WinitAction::Ignore);
    assert!(comp.is_running());
}

#[test]
fn close_request_shuts_down_for_good() {
    let mut comp = Infwinity::new();
    assert_eq!(comp.handle_winit_event(WinitEvent::CloseRequested), WinitAction::Shutdown);
    assert!(!comp.is_running());
    assert_eq!(comp.handle_winit_event(WinitEvent::Redraw), WinitAction::RenderFrame);
    assert!(!comp.is_running());
}

#[test]
fn output_info_getters() {
    let output = OutputInfo::new(Some(Size::new(5, 6)), 2);
    assert_eq!(output.current_mode(), Some(Size::new(5, 6)));
    assert_eq!(output.integer_scale(), 2);
}

#[test]
fn coords_beyond_far_edge_are_clamped() {
    assert_eq!(CanvasCoords::from(i32::MAX, CENTER + 2), Point::new(i32::MAX, i32::MAX));
    assert_eq!(CanvasCoords::from(CENTER + 1, i32::MIN), Point::new(i32::MAX, 0));
}

#[test]
fn frame_location_ignores_compositor_state() {
    let running = Infwinity::new();
    let mut stopped = Infwinity::new();
    stopped.shutdown();
    let output = OutputInfo::new(Some(Size::new(800, 600)), 2);
    let same = OutputInfo::new(Some(Size::new(800, 600)), 2);
    let first = running.after_frame_rendered(&output, 37, -12);
    assert_eq!(first, running.after_frame_rendered(&output, 37, -12));
    assert_eq!(first, stopped.after_frame_rendered(&same, 37, -12));
    assert_eq!(first, Point::new(CENTER - 200 - 37, CENTER - 150 + 12));
}
