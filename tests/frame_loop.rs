use tile_renderer::frame_loop::{FrameLoop, LoopAction, LoopEvent, FRAME_INTERVAL_NANOS};
use tile_renderer::grid::RenderConfig;
use tile_renderer::projection::window_projection;

#[test]
fn close_before_any_frame_exits_without_drawing() {
    let mut l = FrameLoop::new(RenderConfig::window(), 0);
    assert_eq!(l.step(LoopEvent::CloseRequested, 10), LoopAction::Exit);
    assert!(l.closed);
    assert_eq!(l.frames, 0);
    assert_eq!(l.step(LoopEvent::Wake, 20), LoopAction::Exit);
    assert_eq!(l.step(LoopEvent::OtherWindowEvent, 30), LoopAction::Exit);
}

#[test]
fn first_wake_draws_then_idles() {
    let mut l = FrameLoop::new(RenderConfig::window(), 0);
    assert_eq!(l.step(LoopEvent::Wake, 5), LoopAction::Redraw { until_nanos: 16_666_005 });
    assert_eq!(l.presented(6), None);
    assert!(!l.dirty);
    assert_eq!(l.step(LoopEvent::Wake, 100), LoopAction::Wait { until_nanos: 100 + FRAME_INTERVAL_NANOS });
    assert_eq!(l.step(LoopEvent::OtherWindowEvent, 200), LoopAction::Wait { until_nanos: 16_666_200 });
    l.invalidate();
    assert_eq!(l.step(LoopEvent::Wake, 300), LoopAction::Redraw { until_nanos: 16_666_300 });
}

#[test]
fn window_events_only_reschedule() {
    let mut l = FrameLoop::new(RenderConfig::window(), 0);
    let before = l;
    assert_eq!(l.step(LoopEvent::OtherWindowEvent, 7), LoopAction::Wait { until_nanos: 16_666_007 });
    assert_eq!(l, before);
}

#[test]
fn frames_reported_after_first_second() {
    let mut l = FrameLoop::new(RenderConfig::window(), 1_000);
    assert_eq!(l.presented(500_000_000), None);
    assert_eq!(l.frames, 1);
    l.invalidate();
    assert_eq!(l.presented(900_000_000), None);
    assert_eq!(l.frames, 2);
    assert_eq!(l.presented(1_000_001_000), Some(3));
    assert_eq!(l.frames, 2);
}

#[test]
fn steady_frames_draw_the_same_tiles() {
    let mut l = FrameLoop::new(RenderConfig::window(), 0);
    assert!(matches!(l.step(LoopEvent::Wake, 0), LoopAction::Redraw { .. }));
    let first = l.frame_plan();
    l.presented(1);
    l.invalidate();
    assert!(matches!(l.step(LoopEvent::Wake, 2), LoopAction::Redraw { .. }));
    assert_eq!(l.frame_plan(), first);
}

#[test]
fn projection_sends_window_corners_to_clip_corners() {
    let b = window_projection(&RenderConfig::window());
    assert_eq!((b.left, b.right, b.bottom, b.top, b.near, b.far), (0, 1280, 720, 0, -1, 1));
    let m = cgmath::ortho(
        b.left as f32,
        b.right as f32,
        b.bottom as f32,
        b.top as f32,
        b.near as f32,
        b.far as f32,
    );
    let tl = m * cgmath::Vector4::new(0.0f32, 0.0, 0.0, 1.0);
    let br = m * cgmath::Vector4::new(1280.0f32, 720.0, 0.0, 1.0);
    assert!((tl.x + 1.0).abs() < 1e-6 && (tl.y - 1.0).abs() < 1e-6 && tl.w == 1.0);
    assert!((br.x - 1.0).abs() < 1e-6 && (br.y + 1.0).abs() < 1e-6 && br.w == 1.0);
}
