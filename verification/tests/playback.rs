use gl_quad::gl::{GlCall, Step};
use gl_quad::playback::Playback;
use gl_quad::report::Checkpoint;

fn steps() -> Vec<Step> {
    vec![
        Step::Call(GlCall::BindVertexArray { array: 1 }),
        Step::Check(Checkpoint::DrawVertexArrayBound),
        Step::Call(GlCall::Clear { mask: 2 }),
    ]
}

#[test]
fn steps_are_taken_in_order() {
    let mut playback = Playback::new(steps());
    assert_eq!(playback.next(), Some(steps()[0]));
    playback.called();
    assert_eq!(playback.next(), Some(steps()[1]));
    let report = playback.checked(0);
    assert_eq!(report.line, "na bind vao in draw\tno error");
    assert_eq!(report.exit, None);
    assert_eq!(playback.next(), Some(steps()[2]));
    playback.called();
    assert_eq!(playback.next(), None);
}

#[test]
fn no_step_is_left_after_an_error() {
    let mut playback = Playback::new(steps());
    playback.called();
    let report = playback.checked(0x0505);
    assert_eq!(report.line, "na bind vao in draw\tout of memory");
    assert_eq!(report.exit, Some(1));
    assert_eq!(playback.next(), None);
}

#[test]
fn nothing_is_left_of_no_steps() {
    assert_eq!(Playback::new(Vec::new()).next(), None);
}
