use vello_client::client::{Client, Command, LoopEvent, Phase};
use vello_client::scene::{FramePlan, Outline};
use vello_client::surface::{PresentMode, SurfaceConfig};

fn ready_client(width: u32, height: u32) -> Client {
    let mut c = Client::new();
    assert_eq!(c.handle(LoopEvent::Resume), Command::Wait);
    assert_eq!(c.handle(LoopEvent::SurfaceReady { width, height }), Command::CreateRenderer);
    assert_eq!(c.handle(LoopEvent::RendererReady), Command::RequestRedraw);
    c
}

fn plan(x1: i64, y1: i64, width: u32, height: u32) -> Command {
    Command::Draw(FramePlan { outline: Outline { x0: 50, y0: 50, x1, y1 }, width, height })
}

#[test]
fn first_frame_at_800_by_600() {
    let mut c = ready_client(800, 600);
    assert_eq!(
        c.surface_config(),
        Some(SurfaceConfig { width: 800, height: 600, present_mode: PresentMode::AutoVsync })
    );
    assert_eq!(c.handle(LoopEvent::RedrawRequested), plan(700, 500, 800, 600));
    assert_eq!(c.phase(), Phase::Running);
}

#[test]
fn resize_applies_before_next_frame() {
    let mut c = ready_client(800, 600);
    c.handle(LoopEvent::RedrawRequested);
    assert_eq!(
        c.handle(LoopEvent::Resized { width: 400, height: 300 }),
        Command::Reconfigure { width: 400, height: 300 }
    );
    assert_eq!(c.surface_config().map(|s| s.size()), Some((400, 300)));
    assert_eq!(c.handle(LoopEvent::RedrawRequested), plan(300, 200, 400, 300));
}

#[test]
fn close_while_running_stops_drawing() {
    let mut c = ready_client(800, 600);
    c.handle(LoopEvent::RedrawRequested);
    assert_eq!(c.handle(LoopEvent::CloseRequested), Command::Exit);
    assert_eq!(c.phase(), Phase::Closing);
    assert_eq!(c.handle(LoopEvent::RedrawRequested), Command::Wait);
    assert_eq!(c.handle(LoopEvent::Resized { width: 10, height: 10 }), Command::Wait);
    assert_eq!(c.handle(LoopEvent::CloseRequested), Command::Wait);
    assert_eq!(c.phase(), Phase::Closing);
}

#[test]
fn failed_probe_shows_notice_once() {
    let mut c = Client::new();
    c.handle(LoopEvent::Resume);
    assert_eq!(c.handle(LoopEvent::SurfaceFailed), Command::ShowNotice);
    assert_eq!(c.handle(LoopEvent::SurfaceFailed), Command::Wait);
    assert_eq!(c.handle(LoopEvent::SurfaceReady { width: 800, height: 600 }), Command::Wait);
    assert_eq!(c.handle(LoopEvent::RendererReady), Command::Wait);
    assert_eq!(c.handle(LoopEvent::RedrawRequested), Command::Wait);
    assert_eq!(c.surface_config(), None);
}

#[test]
fn repeated_resize_reconfigures_once() {
    let mut c = ready_client(800, 600);
    assert_eq!(
        c.handle(LoopEvent::Resized { width: 640, height: 480 }),
        Command::Reconfigure { width: 640, height: 480 }
    );
    let before = c.surface_config();
    assert_eq!(c.handle(LoopEvent::Resized { width: 640, height: 480 }), Command::RequestRedraw);
    assert_eq!(c.surface_config(), before);
}

#[test]
fn zero_size_defers_drawing() {
    let mut c = ready_client(800, 600);
    assert_eq!(c.handle(LoopEvent::Resized { width: 0, height: 600 }), Command::Wait);
    assert_eq!(c.surface_config().map(|s| s.size()), Some((800, 600)));
    assert_eq!(c.handle(LoopEvent::RedrawRequested), Command::Wait);
    assert_eq!(
        c.handle(LoopEvent::Resized { width: 800, height: 600 }),
        Command::RequestRedraw
    );
    assert_eq!(c.handle(LoopEvent::RedrawRequested), plan(700, 500, 800, 600));
}

#[test]
fn zero_sized_surface_waits_for_a_size() {
    let mut c = Client::new();
    c.handle(LoopEvent::Resume);
    c.handle(LoopEvent::SurfaceReady { width: 0, height: 0 });
    c.handle(LoopEvent::RendererReady);
    assert_eq!(c.handle(LoopEvent::RedrawRequested), Command::Wait);
    assert_eq!(
        c.handle(LoopEvent::Resized { width: 120, height: 90 }),
        Command::Reconfigure { width: 120, height: 90 }
    );
    assert_eq!(c.handle(LoopEvent::RedrawRequested), plan(20, -10, 120, 90));
}

#[test]
fn events_before_surface_are_ignored() {
    let mut c = Client::new();
    c.handle(LoopEvent::Resume);
    assert_eq!(c.handle(LoopEvent::Resized { width: 300, height: 200 }), Command::Wait);
    assert_eq!(c.handle(LoopEvent::RedrawRequested), Command::Wait);
    assert_eq!(c.handle(LoopEvent::RendererReady), Command::Wait);
    assert_eq!(c.surface_config(), None);
}

#[test]
fn no_draw_before_renderer() {
    let mut c = Client::new();
    c.handle(LoopEvent::Resume);
    c.handle(LoopEvent::SurfaceReady { width: 800, height: 600 });
    assert_eq!(c.handle(LoopEvent::RedrawRequested), Command::Wait);
}

#[test]
fn no_draw_before_resume() {
    let mut c = Client::new();
    c.handle(LoopEvent::SurfaceReady { width: 800, height: 600 });
    c.handle(LoopEvent::RendererReady);
    assert_eq!(c.phase(), Phase::Created);
    assert_eq!(c.handle(LoopEvent::RedrawRequested), Command::Wait);
    assert_eq!(c.handle(LoopEvent::CloseRequested), Command::Wait);
    c.handle(LoopEvent::Resume);
    assert_eq!(c.phase(), Phase::Resumed);
    assert_eq!(c.handle(LoopEvent::RedrawRequested), plan(700, 500, 800, 600));
}

#[test]
fn renderer_failure_aborts() {
    let mut c = Client::new();
    c.handle(LoopEvent::Resume);
    c.handle(LoopEvent::SurfaceReady { width: 800, height: 600 });
    assert_eq!(c.handle(LoopEvent::RendererFailed), Command::Abort);
    assert_eq!(c.phase(), Phase::Closing);
    assert_eq!(c.handle(LoopEvent::RedrawRequested), Command::Wait);
}

#[test]
fn dropped_frame_is_retried() {
    let mut c = ready_client(800, 600);
    c.handle(LoopEvent::RedrawRequested);
    assert_eq!(c.handle(LoopEvent::FrameDropped), Command::RequestRedraw);
    assert_eq!(c.phase(), Phase::Running);
    assert_eq!(c.handle(LoopEvent::Idle), Command::Wait);
}
