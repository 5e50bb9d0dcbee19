use gl_quad::lifecycle::{vsync_error_line, Action, Event, Key, Lifecycle, Notice};

const VSYNC: Action = Action::SetSwapInterval { interval: 1 };

#[test]
fn first_resumption_makes_everything() {
    let mut life = Lifecycle::new(false, false);
    assert_eq!(
        life.handle(Event::Resumed),
        vec![
            Action::CreateWindow,
            Action::CreateSurface,
            Action::MakeCurrent,
            Action::CreateRenderer,
            VSYNC,
        ]
    );
}

#[test]
fn early_window_is_used_once() {
    let mut life = Lifecycle::new(true, false);
    assert_eq!(life.handle(Event::Resumed)[0], Action::TakeWindow);
    life.handle(Event::Suspended);
    assert_eq!(life.handle(Event::Resumed)[0], Action::CreateWindow);
}

#[test]
fn renderer_survives_suspension() {
    let mut life = Lifecycle::new(false, true);
    life.handle(Event::Resumed);
    let active = life;
    assert_eq!(
        life.handle(Event::Suspended),
        vec![
            Action::Print(Notice::WindowRemoved),
            Action::ReleaseSurface,
            Action::MakeNotCurrent,
        ]
    );
    assert_eq!(
        life.handle(Event::Resumed),
        vec![
            Action::Print(Notice::WindowAvailable),
            Action::CreateWindow,
            Action::CreateSurface,
            Action::MakeCurrent,
            VSYNC,
        ]
    );
    assert_eq!(life, active);
}

#[test]
fn resumption_and_suspension_alternate() {
    let mut life = Lifecycle::new(false, false);
    assert!(life.expects(Event::Resumed));
    assert!(!life.expects(Event::Suspended));
    assert!(life.expects(Event::AboutToWait));
    life.handle(Event::Resumed);
    assert!(!life.expects(Event::Resumed));
    assert!(life.expects(Event::Suspended));
    assert!(life.expects(Event::Other));
}

#[test]
fn nothing_is_drawn_or_resized_without_a_window() {
    let mut life = Lifecycle::new(true, false);
    assert!(life.handle(Event::AboutToWait).is_empty());
    assert!(life.handle(Event::Resized { width: 10, height: 20 }).is_empty());
}

#[test]
fn frames_are_drawn_while_active() {
    let mut life = Lifecycle::new(false, false);
    life.handle(Event::Resumed);
    assert_eq!(
        life.handle(Event::AboutToWait),
        vec![Action::Draw, Action::RequestRedraw, Action::SwapBuffers]
    );
}

#[test]
fn sizes_are_passed_on_unless_empty() {
    let mut life = Lifecycle::new(false, false);
    life.handle(Event::Resumed);
    assert_eq!(
        life.handle(Event::Resized { width: 10, height: 20 }),
        vec![
            Action::ResizeSurface { width: 10, height: 20 },
            Action::ResizeRenderer { viewport_width: 10, viewport_height: 20 },
        ]
    );
    assert_eq!(
        life.handle(Event::Resized { width: 0x7FFF_FFFF, height: 0x8000_0000 })[1],
        Action::ResizeRenderer { viewport_width: i32::MAX, viewport_height: i32::MIN }
    );
    assert!(life.handle(Event::Resized { width: 0, height: 20 }).is_empty());
    assert!(life.handle(Event::Resized { width: 10, height: 0 }).is_empty());
}

#[test]
fn closing_and_escape_exit() {
    let mut life = Lifecycle::new(false, false);
    assert_eq!(life.handle(Event::CloseRequested), vec![Action::Exit]);
    assert_eq!(life.handle(Event::KeyboardInput { key: Key::Escape }), vec![Action::Exit]);
    assert!(life.handle(Event::KeyboardInput { key: Key::Other }).is_empty());
    assert!(life.handle(Event::Other).is_empty());
}

#[test]
fn notices_have_their_lines() {
    assert_eq!(Notice::WindowAvailable.line(), "Android window available");
    assert_eq!(Notice::WindowRemoved.line(), "Android window removed");
}

#[test]
fn vsync_error_is_reported() {
    assert_eq!(vsync_error_line("Error { }"), "Error setting vsync: Error { }");
}

#[test]
fn notice_comes_first_even_out_of_turn() {
    let mut life = Lifecycle::new(false, true);
    assert_eq!(life.notice(Event::Suspended), Some(Notice::WindowRemoved));
    assert_eq!(life.notice(Event::AboutToWait), None);
    life.handle(Event::Resumed);
    assert_eq!(life.notice(Event::Resumed), Some(Notice::WindowAvailable));
    assert_eq!(Lifecycle::new(false, false).notice(Event::Resumed), None);
}
