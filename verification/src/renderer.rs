//! What is drawn with, and how it is drawn.
use crate::gl::{
    GlCall, Step, ARRAY_BUFFER, COLOR_BUFFER_BIT, ELEMENT_ARRAY_BUFFER, TRIANGLES, UNSIGNED_INT,
};
use crate::report::Checkpoint;
use crate::setup::{first_turn, start, Turn};
use vstd::prelude::*;

verus! {

/// The OpenGL objects that the quad is drawn with.
#[derive(Debug, Clone, Copy, PartialEq, Eq, Structural)]
pub struct Renderer {
    pub program: u32,
    pub vao: u32,
    pub vbo: u32,
    pub ebo: u32,
}

/// The bits of 0.1 as a 32-bit float.
pub const ONE_TENTH: u32 = 0x3DCC_CCCD;

/// The bits of 0.9 as a 32-bit float.
pub const NINE_TENTHS: u32 = 0x3F66_6666;

impl Renderer {
    /// Selects the renderer's own objects, clears to the colour and draws both
    /// triangles, looking for an error after each.
    pub open spec fn draw_steps(self, red: u32, green: u32, blue: u32, alpha: u32) -> Seq<Step> {
        seq![
            Step::Call(GlCall::UseProgram { program: self.program }),
            Step::Call(GlCall::BindVertexArray { array: self.vao }),
            Step::Check(Checkpoint::DrawVertexArrayBound),
            Step::Call(GlCall::BindBuffer { target: ARRAY_BUFFER, buffer: self.vbo }),
            Step::Check(Checkpoint::DrawVertexBufferBound),
            Step::Call(GlCall::BindBuffer { target: ELEMENT_ARRAY_BUFFER, buffer: self.ebo }),
            Step::Check(Checkpoint::DrawElementBufferBound),
            Step::Call(GlCall::ClearColor { red, green, blue, alpha }),
            Step::Call(GlCall::Clear { mask: COLOR_BUFFER_BIT }),
            Step::Call(
                GlCall::DrawElements { mode: TRIANGLES, count: 6, kind: UNSIGNED_INT, offset: 0 },
            ),
            Step::Check(Checkpoint::Drawn),
        ]
    }

    /// Draws into the whole of a surface of the given size.
    pub open spec fn resize_steps(self, width: i32, height: i32) -> Seq<Step> {
        seq![Step::Call(GlCall::Viewport { x: 0, y: 0, width, height })]
    }

    /// Deletes the renderer's objects.
    pub open spec fn drop_steps(self) -> Seq<Step> {
        seq![
            Step::Call(GlCall::DeleteProgram { program: self.program }),
            Step::Call(GlCall::DeleteBuffers { buffer: self.vbo }),
            Step::Call(GlCall::DeleteVertexArrays { array: self.vao }),
            Step::Call(GlCall::DeleteBuffers { buffer: self.ebo }),
        ]
    }

    /// Begins to make a renderer; [`RendererSetup::resume`](crate::setup::RendererSetup::resume)
    /// goes on until the renderer is there.
    pub fn new() -> (turn: Turn)
        ensures
            turn@ == first_turn(),
    {
        start()
    }

    /// Draws on a dark grey that lets a tenth of what is behind it through.
    pub fn draw(&self) -> (steps: Vec<Step>)
        ensures
            steps@ == self.draw_steps(ONE_TENTH, ONE_TENTH, ONE_TENTH, NINE_TENTHS),
    {
        self.draw_with_clear_color(ONE_TENTH, ONE_TENTH, ONE_TENTH, NINE_TENTHS)
    }

    /// Draws on the given colour, whose components are the bits of 32-bit floats.
    pub fn draw_with_clear_color(&self, red: u32, green: u32, blue: u32, alpha: u32) -> (steps: Vec<
        Step,
    >)
        ensures
            steps@ == self.draw_steps(red, green, blue, alpha),
            steps@.contains(Step::Call(GlCall::ClearColor { red, green, blue, alpha })),
    {
        vec![
            Step::Call(GlCall::UseProgram { program: self.program }),
            Step::Call(GlCall::BindVertexArray { array: self.vao }),
            Step::Check(Checkpoint::DrawVertexArrayBound),
            Step::Call(GlCall::BindBuffer { target: ARRAY_BUFFER, buffer: self.vbo }),
            Step::Check(Checkpoint::DrawVertexBufferBound),
            Step::Call(GlCall::BindBuffer { target: ELEMENT_ARRAY_BUFFER, buffer: self.ebo }),
            Step::Check(Checkpoint::DrawElementBufferBound),
            Step::Call(GlCall::ClearColor { red, green, blue, alpha }),
            Step::Call(GlCall::Clear { mask: COLOR_BUFFER_BIT }),
            Step::Call(
                GlCall::DrawElements { mode: TRIANGLES, count: 6, kind: UNSIGNED_INT, offset: 0 },
            ),
            Step::Check(Checkpoint::Drawn),
        ]
    }

    /// Draws into the whole of a surface of the given size.
    pub fn resize(&self, width: i32, height: i32) -> (steps: Vec<Step>)
        ensures
            steps@ == self.resize_steps(width, height),
            steps@.len() == 1,
            steps@[0] == Step::Call(GlCall::Viewport { x: 0, y: 0, width, height }),
    {
        vec![Step::Call(GlCall::Viewport { x: 0, y: 0, width, height })]
    }

    /// Deletes the renderer's objects; it is not to be used after that.
    pub fn drop(&self) -> (steps: Vec<Step>)
        ensures
            steps@ == self.drop_steps(),
    {
        vec![
            Step::Call(GlCall::DeleteProgram { program: self.program }),
            Step::Call(GlCall::DeleteBuffers { buffer: self.vbo }),
            Step::Call(GlCall::DeleteVertexArrays { array: self.vao }),
            Step::Call(GlCall::DeleteBuffers { buffer: self.ebo }),
        ]
    }
}

/// A frame is cleared to the given colour, once, and then both triangles are
/// drawn, once: the colour is set, the colour buffer is cleared, and six indices
/// are drawn as triangles, one right after the other.
pub proof fn frame_is_cleared_then_drawn(
    renderer: Renderer,
    red: u32,
    green: u32,
    blue: u32,
    alpha: u32,
)
    ensures
        ({
            let steps = renderer.draw_steps(red, green, blue, alpha);
            &&& exists|i: int|
                {
                    &&& 0 <= i < steps.len() - 2
                    &&& #[trigger] steps[i] == Step::Call(
                        GlCall::ClearColor { red, green, blue, alpha },
                    )
                    &&& steps[i + 1] == Step::Call(GlCall::Clear { mask: 0x4000 })
                    &&& steps[i + 2] == Step::Call(
                        GlCall::DrawElements { mode: 4, count: 6, kind: 0x1405, offset: 0 },
                    )
                }
            &&& forall|i: int, j: int|
                0 <= i < j < steps.len() ==> {
                    let (first, second) = (#[trigger] steps[i], #[trigger] steps[j]);
                    &&& !(first matches Step::Call(GlCall::ClearColor { .. })
                        && second matches Step::Call(GlCall::ClearColor { .. }))
                    &&& !(first matches Step::Call(GlCall::Clear { .. })
                        && second matches Step::Call(GlCall::Clear { .. }))
                    &&& !(first matches Step::Call(GlCall::DrawElements { .. })
                        && second matches Step::Call(GlCall::DrawElements { .. }))
                }
        }),
{
    let steps = renderer.draw_steps(red, green, blue, alpha);
    assert(steps[7] == Step::Call(GlCall::ClearColor { red, green, blue, alpha }));
}

/// Before anything is cleared or drawn the renderer's program is selected and its
/// vertex array, vertex buffer and element buffer are bound, each once and in this
/// order. An error is looked for after each of the three and after the drawing,
/// under a name of its own, and nothing else is done.
pub proof fn frame_uses_the_renderers_objects(
    renderer: Renderer,
    red: u32,
    green: u32,
    blue: u32,
    alpha: u32,
)
    ensures
        ({
            let steps = renderer.draw_steps(red, green, blue, alpha);
            &&& steps.len() == 11
            &&& steps[0] == Step::Call(GlCall::UseProgram { program: renderer.program })
            &&& steps[1] == Step::Call(GlCall::BindVertexArray { array: renderer.vao })
            &&& steps[2] == Step::Check(Checkpoint::DrawVertexArrayBound)
            &&& steps[3] == Step::Call(
                GlCall::BindBuffer { target: 0x8892, buffer: renderer.vbo },
            )
            &&& steps[4] == Step::Check(Checkpoint::DrawVertexBufferBound)
            &&& steps[5] == Step::Call(
                GlCall::BindBuffer { target: 0x8893, buffer: renderer.ebo },
            )
            &&& steps[6] == Step::Check(Checkpoint::DrawElementBufferBound)
            &&& steps[10] == Step::Check(Checkpoint::Drawn)
            &&& forall|i: int|
                7 <= i < 10 ==> match #[trigger] steps[i] {
                    Step::Call(GlCall::ClearColor { .. }) => true,
                    Step::Call(GlCall::Clear { .. }) => true,
                    Step::Call(GlCall::DrawElements { .. }) => true,
                    _ => false,
                }
        }),
{
}

/// Two frames of one renderer differ in the colour that they are cleared to, and
/// in nothing else.
pub proof fn frames_differ_in_their_colour_alone(
    renderer: Renderer,
    first: (u32, u32, u32, u32),
    second: (u32, u32, u32, u32),
)
    ensures
        ({
            let one = renderer.draw_steps(first.0, first.1, first.2, first.3);
            let other = renderer.draw_steps(second.0, second.1, second.2, second.3);
            &&& one.len() == other.len()
            &&& forall|i: int|
                0 <= i < one.len() ==> {
                    ||| #[trigger] one[i] == other[i]
                    ||| one[i] matches Step::Call(GlCall::ClearColor { .. })
                        && other[i] matches Step::Call(GlCall::ClearColor { .. })
                }
            &&& one == other <==> first == second
        }),
{
    let one = renderer.draw_steps(first.0, first.1, first.2, first.3);
    let other = renderer.draw_steps(second.0, second.1, second.2, second.3);
    assert(one[7] == Step::Call(
        GlCall::ClearColor { red: first.0, green: first.1, blue: first.2, alpha: first.3 },
    ));
    assert(other[7] == Step::Call(
        GlCall::ClearColor { red: second.0, green: second.1, blue: second.2, alpha: second.3 },
    ));
}

/// A resize moves the viewport, once, to the origin, and gives it the width and
/// the height of the surface.
pub proof fn viewport_covers_the_surface(renderer: Renderer, width: i32, height: i32)
    ensures
        ({
            let steps = renderer.resize_steps(width, height);
            &&& steps.len() == 1
            &&& steps[0] matches Step::Call(GlCall::Viewport { x, y, width: w, height: h })
            &&& x == 0
            &&& y == 0
            &&& w == width
            &&& h == height
        }),
{
}

/// Letting go of a renderer deletes its program, its vertex buffer, its vertex
/// array and its element buffer, in this order, and does nothing else.
pub proof fn drop_deletes_each_object(renderer: Renderer)
    ensures
        ({
            let steps = renderer.drop_steps();
            &&& steps.len() == 4
            &&& steps[0] matches Step::Call(GlCall::DeleteProgram { program })
            &&& program == renderer.program
            &&& steps[1] matches Step::Call(GlCall::DeleteBuffers { buffer: vbo })
            &&& vbo == renderer.vbo
            &&& steps[2] matches Step::Call(GlCall::DeleteVertexArrays { array })
            &&& array == renderer.vao
            &&& steps[3] matches Step::Call(GlCall::DeleteBuffers { buffer: ebo })
            &&& ebo == renderer.ebo
        }),
{
}

} // verus!
