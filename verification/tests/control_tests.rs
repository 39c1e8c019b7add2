use astroshit::app_state::{AppState, Body, DrawCall, Size, WindowInput};
use astroshit::control::{Command, LoopEvent, RenderOutcome, Session};

const WINDOW: u64 = 7;

fn size(width: u32, height: u32) -> Size {
    Size { width, height }
}

fn session() -> Session {
    Session::new(WINDOW, AppState::new(size(1024, 768), 5184))
}

#[test]
fn new_state_keeps_size_and_count() {
    let app = AppState::new(size(1024, 768), 5184);
    assert_eq!(app.size, size(1024, 768));
    assert_eq!(app.num_indices, 5184);
}

#[test]
fn index_count_keeps_low_bits() {
    let app = AppState::new(size(1, 1), ((1u64 << 32) + 5) as usize);
    assert_eq!(app.num_indices, 5);
}

#[test]
fn frame_draws_earth_then_sun() {
    let app = AppState::new(size(800, 600), 5184);
    let draws = app.render();
    let draw = |body| DrawCall {
        body,
        first_index: 0,
        index_end: 5184,
        base_vertex: 0,
        first_instance: 0,
        instance_end: 1,
    };
    assert_eq!(draws, vec![draw(Body::Earth), draw(Body::Sun)]);
}

#[test]
fn input_is_never_consumed() {
    let app = AppState::new(size(800, 600), 6);
    assert!(!app.handle_input(&WindowInput::CloseRequested));
    assert!(!app.handle_input(&WindowInput::Resized(size(1, 2))));
    assert!(!app.handle_input(&WindowInput::Other));
}

#[test]
fn resize_records_size() {
    let mut app = AppState::new(size(800, 600), 6);
    app.resize(size(640, 480));
    assert_eq!(app.size, size(640, 480));
    assert_eq!(app.num_indices, 6);
    app.resize(size(640, 480));
    assert_eq!(app.size, size(640, 480));
}

#[test]
fn close_exits() {
    let mut s = session();
    let c = s.on_event(LoopEvent::Window { window_id: WINDOW, input: WindowInput::CloseRequested });
    assert_eq!(c, Command::Exit);
    assert_eq!(s.app.size, size(1024, 768));
}

#[test]
fn resize_events_reconfigure() {
    let mut s = session();
    let c = s.on_event(LoopEvent::Window { window_id: WINDOW, input: WindowInput::Resized(size(300, 200)) });
    assert_eq!(c, Command::Reconfigure(size(300, 200)));
    assert_eq!(s.app.size, size(300, 200));
    let c = s.on_event(LoopEvent::Window {
        window_id: WINDOW,
        input: WindowInput::ScaleFactorChanged(size(600, 400)),
    });
    assert_eq!(c, Command::Reconfigure(size(600, 400)));
    assert_eq!(s.app.size, size(600, 400));
    assert_eq!(s.app.num_indices, 5184);
}

#[test]
fn other_window_is_ignored() {
    let mut s = session();
    let before = s.app;
    let c = s.on_event(LoopEvent::Window { window_id: WINDOW + 1, input: WindowInput::Resized(size(1, 1)) });
    assert_eq!(c, Command::Nothing);
    assert_eq!(s.on_event(LoopEvent::Window { window_id: 3, input: WindowInput::CloseRequested }), Command::Nothing);
    assert_eq!(s.on_event(LoopEvent::RedrawRequested { window_id: 3 }), Command::Nothing);
    assert_eq!(s.app, before);
    assert_eq!(s.window_id, WINDOW);
}

#[test]
fn redraw_cycle() {
    let mut s = session();
    assert_eq!(s.on_event(LoopEvent::MainEventsCleared), Command::RequestRedraw);
    assert_eq!(s.on_event(LoopEvent::RedrawRequested { window_id: WINDOW }), Command::UpdateAndRender);
    assert_eq!(s.on_event(LoopEvent::Other), Command::Nothing);
    assert_eq!(
        s.on_event(LoopEvent::Window { window_id: WINDOW, input: WindowInput::Other }),
        Command::Nothing
    );
}

#[test]
fn render_outcomes() {
    let mut s = session();
    assert_eq!(s.on_render_outcome(RenderOutcome::Presented), Command::Nothing);
    assert_eq!(s.on_render_outcome(RenderOutcome::SurfaceLost), Command::Reconfigure(size(1024, 768)));
    assert_eq!(s.app.size, size(1024, 768));
    assert_eq!(s.on_render_outcome(RenderOutcome::OutOfMemory), Command::Exit);
    assert_eq!(s.on_render_outcome(RenderOutcome::Failed), Command::ReportError);
}
