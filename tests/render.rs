use rev2mod::render::{FrameAction, FrameEvent, FramePhase, RenderLifecycle};
use rev2mod::wndproc::WndProcChain;

fn ready() -> RenderLifecycle {
    let mut s = RenderLifecycle::new();
    assert_eq!(s.step(FrameEvent::Begin), FrameAction::CreateRenderer);
    assert_eq!(s.step(FrameEvent::RendererCreated(true)), FrameAction::BindWindow);
    assert_eq!(s.step(FrameEvent::WindowBound(true)), FrameAction::PrepareFrame);
    assert_eq!(s.step(FrameEvent::Prepared(true)), FrameAction::Render);
    assert_eq!(s.step(FrameEvent::Rendered), FrameAction::CallThrough);
    s
}

#[test]
fn first_frame_builds_everything() {
    let s = ready();
    assert!(s.renderer && s.window);
    assert_eq!(s.phase, FramePhase::Idle);
}

#[test]
fn steady_frame_goes_straight_to_prepare() {
    let mut s = ready();
    assert_eq!(s.step(FrameEvent::Begin), FrameAction::PrepareFrame);
    assert_eq!(s.step(FrameEvent::Prepared(true)), FrameAction::Render);
    assert_eq!(s.step(FrameEvent::Rendered), FrameAction::CallThrough);
}

#[test]
fn reset_drops_renderer_and_next_frame_rebuilds() {
    let mut s = ready();
    s.on_reset();
    assert!(!s.renderer);
    assert!(s.window);
    assert_eq!(s.step(FrameEvent::Begin), FrameAction::CreateRenderer);
    assert_eq!(s.step(FrameEvent::RendererCreated(true)), FrameAction::PrepareFrame);
    assert_eq!(s.step(FrameEvent::Prepared(true)), FrameAction::Render);
    assert_eq!(s.step(FrameEvent::Rendered), FrameAction::CallThrough);
}

#[test]
fn renderer_failure_skips_overlay() {
    let mut s = RenderLifecycle::new();
    assert_eq!(s.step(FrameEvent::Begin), FrameAction::CreateRenderer);
    assert_eq!(s.step(FrameEvent::RendererCreated(false)), FrameAction::CallThrough);
    assert!(!s.renderer);
    assert_eq!(s.step(FrameEvent::Begin), FrameAction::CreateRenderer);
}

#[test]
fn stale_window_is_rebuilt_once() {
    let mut s = ready();
    assert_eq!(s.step(FrameEvent::Begin), FrameAction::PrepareFrame);
    assert_eq!(s.step(FrameEvent::Prepared(false)), FrameAction::BindWindow);
    assert!(!s.window);
    assert_eq!(s.step(FrameEvent::WindowBound(true)), FrameAction::PrepareFrame);
    assert_eq!(s.step(FrameEvent::Prepared(false)), FrameAction::CallThrough);
    assert!(s.window);
}

#[test]
fn rebuild_failure_ends_frame() {
    let mut s = ready();
    s.step(FrameEvent::Begin);
    s.step(FrameEvent::Prepared(false));
    assert_eq!(s.step(FrameEvent::WindowBound(false)), FrameAction::CallThrough);
    assert!(!s.window);
    assert_eq!(s.step(FrameEvent::Begin), FrameAction::BindWindow);
}

#[test]
fn unexpected_event_ends_frame() {
    let mut s = RenderLifecycle::new();
    assert_eq!(s.step(FrameEvent::Rendered), FrameAction::CallThrough);
    s.step(FrameEvent::Begin);
    assert_eq!(s.step(FrameEvent::Prepared(true)), FrameAction::CallThrough);
    assert_eq!(s.phase, FramePhase::Idle);
}

#[test]
fn wndproc_capture_skips_own_procedure() {
    let mut c = WndProcChain::new();
    assert_eq!(c.forward_target(), None);
    assert!(c.capture(Some(0x1000), 0x2000));
    assert_eq!(c.forward_target(), Some(0x1000));
    assert!(!c.capture(Some(0x2000), 0x2000));
    assert_eq!(c.forward_target(), Some(0x1000));
    assert!(c.capture(Some(0x3000), 0x2000));
    assert_eq!(c.forward_target(), Some(0x3000));
}
