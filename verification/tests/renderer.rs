use gl_quad::gl::{GlCall, Step};
use gl_quad::renderer::Renderer;
use gl_quad::report::Checkpoint;

const RENDERER: Renderer = Renderer { program: 11, vao: 12, vbo: 13, ebo: 14 };

fn drawing(red: f32, green: f32, blue: f32, alpha: f32) -> Vec<Step> {
    vec![
        Step::Call(GlCall::UseProgram { program: 11 }),
        Step::Call(GlCall::BindVertexArray { array: 12 }),
        Step::Check(Checkpoint::DrawVertexArrayBound),
        Step::Call(GlCall::BindBuffer { target: 0x8892, buffer: 13 }),
        Step::Check(Checkpoint::DrawVertexBufferBound),
        Step::Call(GlCall::BindBuffer { target: 0x8893, buffer: 14 }),
        Step::Check(Checkpoint::DrawElementBufferBound),
        Step::Call(GlCall::ClearColor {
            red: red.to_bits(),
            green: green.to_bits(),
            blue: blue.to_bits(),
            alpha: alpha.to_bits(),
        }),
        Step::Call(GlCall::Clear { mask: 0x4000 }),
        Step::Call(GlCall::DrawElements { mode: 4, count: 6, kind: 0x1405, offset: 0 }),
        Step::Check(Checkpoint::Drawn),
    ]
}

#[test]
fn draw_clears_to_dark_grey() {
    assert_eq!(RENDERER.draw(), drawing(0.1, 0.1, 0.1, 0.9));
}

#[test]
fn draw_with_clear_color_clears_to_that_color() {
    let steps = RENDERER.draw_with_clear_color(
        1.0f32.to_bits(),
        (-0.0f32).to_bits(),
        0.25f32.to_bits(),
        0.5f32.to_bits(),
    );
    assert_eq!(steps, drawing(1.0, -0.0, 0.25, 0.5));
}

#[test]
fn resize_sets_the_viewport() {
    assert_eq!(
        RENDERER.resize(640, -1),
        vec![Step::Call(GlCall::Viewport { x: 0, y: 0, width: 640, height: -1 })]
    );
}

#[test]
fn drop_deletes_the_objects() {
    assert_eq!(
        RENDERER.drop(),
        vec![
            Step::Call(GlCall::DeleteProgram { program: 11 }),
            Step::Call(GlCall::DeleteBuffers { buffer: 13 }),
            Step::Call(GlCall::DeleteVertexArrays { array: 12 }),
            Step::Call(GlCall::DeleteBuffers { buffer: 14 }),
        ]
    );
}
