use viewport::app_loop::{AppContext, DispatchOutcome, LoopEvent};
use viewport::primitive_renderer::{PrimitiveRenderer, MATRIX_WORDS};
use viewport::screen_multiplexer::{ScreenMultiplexer, WindowEvent};
use viewport::shapes::grid;

#[test]
fn fresh_renderer_has_no_lines_and_a_zero_matrix() {
    let r = PrimitiveRenderer::new();
    assert!(r.lines.is_none());
    assert_eq!(r.camera_matrix.len(), MATRIX_WORDS);
    assert!(r.camera_matrix.iter().all(|&w| w == 0));
}

#[test]
fn set_camera_matrix_with_sixteen_words_succeeds() {
    let mut r = PrimitiveRenderer::new();
    let words: Vec<u32> = (0..MATRIX_WORDS as u32).collect();
    r.set_camera_matrix(words.clone());
    assert_eq!(r.camera_matrix, words);
}

#[test]
fn draw_without_lines_clears_only() {
    let r = PrimitiveRenderer::new();
    let m = ScreenMultiplexer::new(500, (800, 600));
    let (left, _) = m.areas();
    let plan = r.draw(left);
    assert_eq!(plan.viewport, left);
    assert_eq!(plan.scissor, left);
    assert_eq!(plan.vertex_count, None);
}

#[test]
fn set_lines_then_draw_covers_every_vertex() {
    let mut r = PrimitiveRenderer::new();
    let lines = grid(30);
    let n = lines.len();
    r.set_lines(lines);
    let m = ScreenMultiplexer::new(500, (800, 600));
    let (left, _) = m.areas();
    let plan = r.draw(left);
    assert_eq!(plan.vertex_count, Some(n));
}

#[test]
fn replacing_lines_replaces_the_count() {
    let mut r = PrimitiveRenderer::new();
    r.set_lines(grid(30));
    r.set_lines(grid(1));
    let m = ScreenMultiplexer::new(500, (800, 600));
    let plan = r.draw(m.areas().0);
    assert_eq!(plan.vertex_count, Some(12));
}

#[test]
fn dispatch_close_requests_exit() {
    let mut ctx = AppContext::new(
        ScreenMultiplexer::new(500, (800, 600)),
        PrimitiveRenderer::new(),
    );
    assert_eq!(ctx.dispatch(LoopEvent::CloseRequested), DispatchOutcome::Exit);
}

#[test]
fn dispatch_forwards_window_events_to_the_multiplexer() {
    let mut ctx = AppContext::new(
        ScreenMultiplexer::new(500, (800, 600)),
        PrimitiveRenderer::new(),
    );
    let event = WindowEvent::CursorMoved { x: 600, y: 300 };
    let outcome = ctx.dispatch(LoopEvent::Window { event });
    assert_eq!(outcome, DispatchOutcome::Routed { left: None, right: Some(event) });
    assert!(!ctx.multiplexer.left_focus);
    assert_eq!(ctx.multiplexer.cursors().1, (100, 300));
}

#[test]
fn resize_marks_stale_and_tick_rebuilds_once() {
    let mut ctx = AppContext::new(
        ScreenMultiplexer::new(500, (800, 600)),
        PrimitiveRenderer::new(),
    );
    assert!(!ctx.swapchain_stale);
    ctx.dispatch(LoopEvent::Window { event: WindowEvent::Resized { width: 1024, height: 768 } });
    assert!(ctx.swapchain_stale);
    assert_eq!(ctx.dispatch(LoopEvent::MainEventsCleared), DispatchOutcome::RenderFrame);
    let plan = ctx.tick();
    assert!(plan.rebuild_swapchain);
    assert_eq!(plan.window_size, (1024, 768));
    // The staleness was consumed: the next frame reuses the swapchain.
    let plan = ctx.tick();
    assert!(!plan.rebuild_swapchain);
}

#[test]
fn tick_plans_a_pass_over_the_left_partition() {
    let mut ctx = AppContext::new(
        ScreenMultiplexer::new(500, (800, 600)),
        PrimitiveRenderer::new(),
    );
    ctx.renderer.set_lines(grid(2));
    let plan = ctx.tick();
    let (left, _) = ctx.multiplexer.areas();
    assert_eq!(plan.area, left);
    assert_eq!(plan.pass.viewport, left);
    assert_eq!(plan.pass.scissor, left);
    assert_eq!(plan.pass.vertex_count, Some(20));
}
