use pointer_clear::render_loop::{
    ClearColor, Command, FrameError, Key, KeyState, LoopEvent, RenderLoop, Size, WindowEvent,
};

fn rgba(c: ClearColor<f64>) -> (f64, f64, f64, f64) {
    match c {
        ClearColor::White => (1.0, 1.0, 1.0, 1.0),
        ClearColor::Pointer { x, y, width, height } => (x / width as f64, y / height as f64, 0.2, 1.0),
    }
}

fn moved(x: f64, y: f64) -> LoopEvent<f64> {
    LoopEvent::Window(WindowEvent::CursorMoved { x, y })
}

fn escape() -> LoopEvent<f64> {
    LoopEvent::Window(WindowEvent::Keyboard { key: Key::Escape, state: KeyState::Pressed })
}

#[test]
fn window_session_end_to_end() {
    let mut l: RenderLoop<f64> = RenderLoop::new(Size::new(800, 600));
    assert_eq!(l.clear_color(), ClearColor::White);
    assert_eq!(l.handle_event(&LoopEvent::RedrawRequested), Command::Render(ClearColor::White));
    assert_eq!(l.handle_event(&moved(400.0, 300.0)), Command::Nothing);
    assert_eq!(rgba(l.clear_color()), (0.5, 0.5, 0.2, 1.0));
    let resize = LoopEvent::Window(WindowEvent::Resized(Size::new(400, 300)));
    assert_eq!(l.handle_event(&resize), Command::Resize(Size::new(400, 300)));
    assert_eq!(l.handle_event(&moved(400.0, 300.0)), Command::Nothing);
    assert_eq!(rgba(l.clear_color()), (1.0, 1.0, 0.2, 1.0));
    assert_eq!(l.handle_event(&escape()), Command::Exit);
    assert!(!l.is_running());
    assert_eq!(l.handle_event(&LoopEvent::RedrawRequested), Command::Nothing);
    assert_eq!(l.handle_event(&LoopEvent::EventsCleared), Command::Nothing);
}

#[test]
fn pointer_color_is_not_clamped() {
    let mut l: RenderLoop<f64> = RenderLoop::new(Size::new(200, 100));
    l.handle_event(&moved(300.0, 50.0));
    assert_eq!(
        l.clear_color(),
        ClearColor::Pointer { x: 300.0, y: 50.0, width: 200, height: 100 }
    );
    assert_eq!(rgba(l.clear_color()), (1.5, 0.5, 0.2, 1.0));
}

#[test]
fn input_consumes_only_pointer_motion() {
    let mut l: RenderLoop<f64> = RenderLoop::new(Size::new(10, 10));
    assert!(l.input(&WindowEvent::CursorMoved { x: 1.0, y: 2.0 }));
    assert!(!l.input(&WindowEvent::CloseRequested));
    assert!(!l.input(&WindowEvent::Resized(Size::new(5, 5))));
    assert_eq!(l.size(), Size::new(10, 10));
    assert!(l.is_running());
}

#[test]
fn close_request_exits() {
    let mut l: RenderLoop<f64> = RenderLoop::new(Size::new(10, 10));
    assert_eq!(l.handle_event(&LoopEvent::Window(WindowEvent::CloseRequested)), Command::Exit);
    assert!(!l.is_running());
}

#[test]
fn released_or_other_keys_do_not_exit() {
    let mut l: RenderLoop<f64> = RenderLoop::new(Size::new(10, 10));
    let released =
        LoopEvent::Window(WindowEvent::Keyboard { key: Key::Escape, state: KeyState::Released });
    let other = LoopEvent::Window(WindowEvent::Keyboard { key: Key::Other, state: KeyState::Pressed });
    assert_eq!(l.handle_event(&released), Command::Nothing);
    assert_eq!(l.handle_event(&other), Command::Nothing);
    assert!(l.is_running());
}

#[test]
fn zero_sized_resize_keeps_stored_size() {
    let mut l: RenderLoop<f64> = RenderLoop::new(Size::new(800, 600));
    let e = LoopEvent::Window(WindowEvent::Resized(Size::new(0, 300)));
    assert_eq!(l.handle_event(&e), Command::Resize(Size::new(0, 300)));
    let e = LoopEvent::Window(WindowEvent::ScaleFactorChanged(Size::new(400, 0)));
    assert_eq!(l.handle_event(&e), Command::Resize(Size::new(400, 0)));
    assert_eq!(l.size(), Size::new(800, 600));
    l.handle_event(&moved(400.0, 300.0));
    assert_eq!(rgba(l.clear_color()), (0.5, 0.5, 0.2, 1.0));
}

#[test]
fn scale_factor_change_resizes() {
    let mut l: RenderLoop<f64> = RenderLoop::new(Size::new(800, 600));
    let e = LoopEvent::Window(WindowEvent::ScaleFactorChanged(Size::new(1600, 1200)));
    assert_eq!(l.handle_event(&e), Command::Resize(Size::new(1600, 1200)));
    assert_eq!(l.size(), Size::new(1600, 1200));
}

#[test]
fn end_of_batch_requests_redraw() {
    let mut l: RenderLoop<f64> = RenderLoop::new(Size::new(10, 10));
    assert_eq!(l.handle_event(&LoopEvent::EventsCleared), Command::RequestRedraw);
    assert_eq!(l.handle_event(&LoopEvent::Other), Command::Nothing);
    assert_eq!(l.handle_event(&LoopEvent::Window(WindowEvent::Other)), Command::Nothing);
}

#[test]
fn lost_frame_resizes_at_stored_size() {
    let mut l: RenderLoop<f64> = RenderLoop::new(Size::new(640, 480));
    assert_eq!(l.after_render(Err(FrameError::Lost)), Command::Resize(Size::new(640, 480)));
    assert!(l.is_running());
}

#[test]
fn out_of_memory_ends_loop() {
    let mut l: RenderLoop<f64> = RenderLoop::new(Size::new(640, 480));
    assert_eq!(l.after_render(Err(FrameError::OutOfMemory)), Command::Exit);
    assert!(!l.is_running());
    assert_eq!(l.handle_event(&LoopEvent::RedrawRequested), Command::Nothing);
    assert_eq!(l.handle_event(&moved(1.0, 1.0)), Command::Nothing);
    assert_eq!(l.clear_color(), ClearColor::White);
}

#[test]
fn other_frame_errors_are_reported() {
    let mut l: RenderLoop<f64> = RenderLoop::new(Size::new(640, 480));
    assert_eq!(l.after_render(Err(FrameError::Timeout)), Command::Report(FrameError::Timeout));
    assert_eq!(l.after_render(Err(FrameError::Outdated)), Command::Report(FrameError::Outdated));
    assert_eq!(l.after_render(Ok(())), Command::Nothing);
    assert!(l.is_running());
}

#[test]
fn update_changes_nothing() {
    let mut l: RenderLoop<f64> = RenderLoop::new(Size::new(3, 4));
    l.update();
    assert_eq!(l.size(), Size::new(3, 4));
    assert_eq!(l.clear_color(), ClearColor::White);
}

#[test]
fn drawable_sizes() {
    assert!(Size::new(1, 1).is_drawable());
    assert!(!Size::new(0, 1).is_drawable());
    assert!(!Size::new(1, 0).is_drawable());
}

#[test]
fn unconfigured_surface_is_reported() {
    let mut l: RenderLoop<f64> = RenderLoop::new(Size::new(0, 0));
    assert_eq!(
        l.after_render(Err(FrameError::Unconfigured)),
        Command::Report(FrameError::Unconfigured)
    );
    assert!(l.is_running());
    let e = LoopEvent::Window(WindowEvent::Resized(Size::new(320, 240)));
    assert_eq!(l.handle_event(&e), Command::Resize(Size::new(320, 240)));
    assert_eq!(l.size(), Size::new(320, 240));
}
