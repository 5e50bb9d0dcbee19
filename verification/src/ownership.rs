//! The renderer and its objects: what it makes it deletes, and it fills, lays
//! out and draws nothing else.
use crate::geometry::{upload_is_within_the_data, BufferContents, WORD_SIZE};
use crate::gl::{GlCall, Query, ReplyView, Step, ARRAY_BUFFER, ELEMENT_ARRAY_BUFFER};
use crate::renderer::Renderer;
use crate::setup::link_steps;
use crate::shader::ShaderStage;
use crate::trace::{done, Answers, Effect, ShaderAnswers};
use vstd::multiset::Multiset;
use vstd::prelude::*;

verus! {

/// An OpenGL object, by its name.
pub ghost enum Object {
    Shader(u32),
    Program(u32),
    VertexArray(u32),
    Buffer(u32),
}

/// The object that comes into being.
pub open spec fn created_by(effect: Effect) -> Option<Object> {
    match effect {
        Effect::Ask(Query::CreateShader { .. }, ReplyView::Name(name)) => Some(
            Object::Shader(name),
        ),
        Effect::Ask(Query::CreateProgram, ReplyView::Name(name)) => Some(Object::Program(name)),
        Effect::Ask(Query::GenVertexArrays, ReplyView::Name(name)) => Some(
            Object::VertexArray(name),
        ),
        Effect::Ask(Query::GenBuffers, ReplyView::Name(name)) => Some(Object::Buffer(name)),
        _ => None,
    }
}

/// The object that is deleted.
pub open spec fn deleted_by(effect: Effect) -> Option<Object> {
    match effect {
        Effect::Do(Step::Call(GlCall::DeleteShader { shader })) => Some(Object::Shader(shader)),
        Effect::Do(Step::Call(GlCall::DeleteProgram { program })) => Some(
            Object::Program(program),
        ),
        Effect::Do(Step::Call(GlCall::DeleteVertexArrays { array })) => Some(
            Object::VertexArray(array),
        ),
        Effect::Do(Step::Call(GlCall::DeleteBuffers { buffer })) => Some(Object::Buffer(buffer)),
        _ => None,
    }
}

/// The multiset of an object, or of none.
pub open spec fn at_most_one(object: Option<Object>) -> Multiset<Object> {
    match object {
        None => Multiset::empty(),
        Some(object) => Multiset::singleton(object),
    }
}

/// The objects that come into being, as often as they do.
pub open spec fn created(effects: Seq<Effect>) -> Multiset<Object>
    decreases effects.len(),
{
    if effects.len() == 0 {
        Multiset::empty()
    } else {
        created(effects.drop_last()).add(at_most_one(created_by(effects.last())))
    }
}

/// The objects that are deleted, as often as they are.
pub open spec fn deleted(effects: Seq<Effect>) -> Multiset<Object>
    decreases effects.len(),
{
    if effects.len() == 0 {
        Multiset::empty()
    } else {
        deleted(effects.drop_last()).add(at_most_one(deleted_by(effects.last())))
    }
}

proof fn lemma_created_concat(a: Seq<Effect>, b: Seq<Effect>)
    ensures
        created(a + b) == created(a).add(created(b)),
    decreases b.len(),
{
    if b.len() == 0 {
        assert(a + b == a);
    } else {
        lemma_created_concat(a, b.drop_last());
        assert((a + b).drop_last() == a + b.drop_last());
    }
}

proof fn lemma_deleted_concat(a: Seq<Effect>, b: Seq<Effect>)
    ensures
        deleted(a + b) == deleted(a).add(deleted(b)),
    decreases b.len(),
{
    if b.len() == 0 {
        assert(a + b == a);
    } else {
        lemma_deleted_concat(a, b.drop_last());
        assert((a + b).drop_last() == a + b.drop_last());
    }
}

proof fn lemma_none_created(effects: Seq<Effect>)
    requires
        forall|i: int| 0 <= i < effects.len() ==> created_by(#[trigger] effects[i]) is None,
    ensures
        created(effects) == Multiset::<Object>::empty(),
    decreases effects.len(),
{
    if effects.len() > 0 {
        lemma_none_created(effects.drop_last());
    }
}

proof fn lemma_none_deleted(effects: Seq<Effect>)
    requires
        forall|i: int| 0 <= i < effects.len() ==> deleted_by(#[trigger] effects[i]) is None,
    ensures
        deleted(effects) == Multiset::<Object>::empty(),
    decreases effects.len(),
{
    if effects.len() > 0 {
        lemma_none_deleted(effects.drop_last());
    }
}

proof fn lemma_first_created(first: Effect, rest: Seq<Effect>)
    requires
        forall|i: int| 0 <= i < rest.len() ==> created_by(#[trigger] rest[i]) is None,
    ensures
        created(seq![first] + rest) == at_most_one(created_by(first)),
{
    lemma_none_created(rest);
    lemma_created_concat(seq![first], rest);
    reveal_with_fuel(created, 2);
    assert(seq![first].drop_last() == Seq::<Effect>::empty());
}

/// The objects that are made along with the renderer.
pub open spec fn objects_of(answers: Answers) -> Multiset<Object> {
    shaders_of(answers).add(renderer_objects(answers.made()))
}

/// The shaders.
pub open spec fn shaders_of(answers: Answers) -> Multiset<Object> {
    Multiset::singleton(Object::Shader(answers.vertex.name)).insert(
        Object::Shader(answers.fragment.name),
    )
}

/// The objects that the renderer keeps.
pub open spec fn renderer_objects(renderer: Renderer) -> Multiset<Object> {
    Multiset::singleton(Object::Program(renderer.program)).insert(
        Object::VertexArray(renderer.vao),
    ).insert(Object::Buffer(renderer.vbo)).insert(Object::Buffer(renderer.ebo))
}

proof fn lemma_identify_script(a: Answers)
    ensures
        forall|i: int|
            0 <= i < a.identify_script().len() ==> {
                ||| #[trigger] a.identify_script()[i] is Print
                ||| a.identify_script()[i] matches Effect::Ask(Query::GetString { .. }, _)
            },
{
}

proof fn lemma_shader_script(answers: ShaderAnswers, stage: ShaderStage)
    ensures
        created(answers.script(stage)) == Multiset::singleton(Object::Shader(answers.name)),
        deleted(answers.script(stage)) == Multiset::<Object>::empty(),
{
    let script = answers.script(stage);
    let rest = script.drop_first();
    assert(script == seq![script.first()] + rest);
    lemma_first_created(script.first(), rest);
    lemma_none_deleted(script);
}

proof fn lemma_program_script(a: Answers)
    ensures
        created(a.program_script()) == Multiset::singleton(Object::Program(a.program)),
        deleted(a.program_script()) == shaders_of(a),
{
    let script = a.program_script();
    lemma_first_created(script.first(), done(link_steps(a.program, a.vertex.name, a.fragment.name)));
    let kept = script.subrange(0, 5);
    let shaders = seq![script[5], script[6]];
    assert(script == kept + shaders);
    lemma_none_deleted(kept);
    lemma_deleted_concat(kept, shaders);
    reveal_with_fuel(deleted, 3);
    assert(shaders.drop_last() == seq![script[5]]);
    assert(shaders.drop_last().drop_last() == Seq::<Effect>::empty());
    assert(deleted(shaders) == shaders_of(a));
}

proof fn lemma_buffer_script(a: Answers)
    ensures
        created(a.buffer_script()) == Multiset::singleton(Object::VertexArray(a.vao)).insert(
            Object::Buffer(a.vbo),
        ).insert(Object::Buffer(a.ebo)),
        deleted(a.buffer_script()) == Multiset::<Object>::empty(),
{
    let script = a.buffer_script();
    let s1 = script.subrange(0, 2);
    let s2 = script.subrange(2, 6);
    let s3 = script.subrange(6, 11);
    assert(s1 == seq![s1.first()] + s1.drop_first());
    assert(s2 == seq![s2.first()] + s2.drop_first());
    assert(s3 == seq![s3.first()] + s3.drop_first());
    lemma_first_created(s1.first(), s1.drop_first());
    lemma_first_created(s2.first(), s2.drop_first());
    lemma_first_created(s3.first(), s3.drop_first());
    lemma_created_concat(s1, s2);
    lemma_created_concat(s1 + s2, s3);
    assert(script == s1 + s2 + s3);
    lemma_none_deleted(script);
}

proof fn lemma_attribute_script(a: Answers)
    ensures
        created(a.attribute_script()) == Multiset::<Object>::empty(),
        deleted(a.attribute_script()) == Multiset::<Object>::empty(),
{
    lemma_none_created(a.attribute_script());
    lemma_none_deleted(a.attribute_script());
}

proof fn lemma_drop(renderer: Renderer)
    ensures
        deleted(done(renderer.drop_steps())) == renderer_objects(renderer),
{
    let s4 = done(renderer.drop_steps());
    let s3 = s4.drop_last();
    let s2 = s3.drop_last();
    let s1 = s2.drop_last();
    assert(s1.drop_last() == Seq::<Effect>::empty());
    reveal_with_fuel(deleted, 5);
    assert(deleted(s4) == renderer_objects(renderer));
}

/// Making a renderer creates its objects and two shaders, deletes the shaders,
/// and leaves the rest for [`Renderer::drop`], which deletes exactly that.
pub proof fn everything_made_is_deleted_once(answers: Answers)
    ensures
        created(answers.script()) == objects_of(answers),
        deleted(answers.script()) == shaders_of(answers),
        deleted(done(answers.made().drop_steps())) == renderer_objects(answers.made()),
        created(answers.script()) == deleted(answers.script()).add(
            deleted(done(answers.made().drop_steps())),
        ),
{
    let a = answers;
    let s1 = a.identify_script();
    let s2 = a.vertex.script(ShaderStage::Vertex);
    let s3 = a.fragment.script(ShaderStage::Fragment);
    let s4 = a.program_script();
    let s5 = a.buffer_script();
    let s6 = a.attribute_script();
    lemma_identify_script(a);
    lemma_none_created(s1);
    lemma_none_deleted(s1);
    lemma_shader_script(a.vertex, ShaderStage::Vertex);
    lemma_shader_script(a.fragment, ShaderStage::Fragment);
    lemma_program_script(a);
    lemma_buffer_script(a);
    lemma_attribute_script(a);
    lemma_drop(a.made());
    lemma_created_concat(s1, s2);
    lemma_created_concat(s1 + s2, s3);
    lemma_created_concat(s1 + s2 + s3, s4);
    lemma_created_concat(s1 + s2 + s3 + s4, s5);
    lemma_created_concat(s1 + s2 + s3 + s4 + s5, s6);
    lemma_deleted_concat(s1, s2);
    lemma_deleted_concat(s1 + s2, s3);
    lemma_deleted_concat(s1 + s2 + s3, s4);
    lemma_deleted_concat(s1 + s2 + s3 + s4, s5);
    lemma_deleted_concat(s1 + s2 + s3 + s4 + s5, s6);
    assert(created(a.script()) == objects_of(a));
    assert(deleted(a.script()) == shaders_of(a));
}

/// Drawing neither makes nor deletes an object.
pub proof fn drawing_keeps_objects(
    renderer: Renderer,
    red: u32,
    green: u32,
    blue: u32,
    alpha: u32,
)
    ensures
        created(done(renderer.draw_steps(red, green, blue, alpha))) == Multiset::<Object>::empty(),
        deleted(done(renderer.draw_steps(red, green, blue, alpha))) == Multiset::<Object>::empty(),
{
    lemma_none_created(done(renderer.draw_steps(red, green, blue, alpha)));
    lemma_none_deleted(done(renderer.draw_steps(red, green, blue, alpha)));
}

/// What OpenGL calls work on, where it is known.
pub ghost struct Bindings {
    pub program: Option<u32>,
    pub vertex_array: Option<u32>,
    pub array_buffer: Option<u32>,
    /// The element buffer belongs to the bound vertex array.
    pub element_buffer: Option<u32>,
}

/// The renderer's own objects are bound.
pub open spec fn own_bindings(renderer: Renderer) -> Bindings {
    Bindings {
        program: Some(renderer.program),
        vertex_array: Some(renderer.vao),
        array_buffer: Some(renderer.vbo),
        element_buffer: Some(renderer.ebo),
    }
}

/// What is bound after an effect. With another vertex array comes its own
/// element buffer, which is not known.
pub open spec fn bind(bindings: Bindings, effect: Effect) -> Bindings {
    match effect {
        Effect::Do(Step::Call(GlCall::UseProgram { program })) => Bindings {
            program: Some(program),
            ..bindings
        },
        Effect::Do(Step::Call(GlCall::BindVertexArray { array })) => Bindings {
            vertex_array: Some(array),
            element_buffer: None,
            ..bindings
        },
        Effect::Do(Step::Call(GlCall::BindBuffer { target, buffer })) => if target == ARRAY_BUFFER {
            Bindings { array_buffer: Some(buffer), ..bindings }
        } else if target == ELEMENT_ARRAY_BUFFER {
            Bindings { element_buffer: Some(buffer), ..bindings }
        } else {
            bindings
        },
        _ => bindings,
    }
}

/// What is bound after all the effects.
pub open spec fn bindings_after(bindings: Bindings, effects: Seq<Effect>) -> Bindings
    decreases effects.len(),
{
    if effects.len() == 0 {
        bindings
    } else {
        bind(bindings_after(bindings, effects.drop_last()), effects.last())
    }
}

/// With these bindings the effect touches only the renderer's own objects:
/// - an upload fills its vertex buffer with the vertices or its element buffer
///   with the indices, and does not reach past the end of the data;
/// - an attribute is laid out over its vertex buffer, in its vertex array;
/// - an attribute is enabled in its vertex array;
/// - drawing uses its program, vertex array and buffers.
pub open spec fn touches_own(renderer: Renderer, bindings: Bindings, effect: Effect) -> bool {
    let own = own_bindings(renderer);
    match effect {
        Effect::Do(Step::Call(GlCall::BufferData { target, size, contents, .. })) => {
            &&& 0 <= size <= contents.spec_words().len() * WORD_SIZE
            &&& match contents {
                BufferContents::Vertices => target == ARRAY_BUFFER && bindings.array_buffer
                    == own.array_buffer,
                BufferContents::Indices => target == ELEMENT_ARRAY_BUFFER && bindings.vertex_array
                    == own.vertex_array && bindings.element_buffer == own.element_buffer,
            }
        },
        Effect::Do(Step::Call(GlCall::VertexAttribPointer { .. })) => bindings.vertex_array
            == own.vertex_array && bindings.array_buffer == own.array_buffer,
        Effect::Do(Step::Call(GlCall::EnableVertexAttribArray { .. })) => bindings.vertex_array
            == own.vertex_array,
        Effect::Do(Step::Call(GlCall::DrawElements { .. })) => bindings == own,
        _ => true,
    }
}

/// Each effect touches only the renderer's own objects, with what is bound by then.
pub open spec fn only_touches_own(
    renderer: Renderer,
    bindings: Bindings,
    effects: Seq<Effect>,
) -> bool {
    forall|i: int|
        0 <= i < effects.len() ==> touches_own(
            renderer,
            bindings_after(bindings, effects.take(i)),
            #[trigger] effects[i],
        )
}

proof fn lemma_bindings_concat(bindings: Bindings, a: Seq<Effect>, b: Seq<Effect>)
    ensures
        bindings_after(bindings, a + b) == bindings_after(bindings_after(bindings, a), b),
    decreases b.len(),
{
    if b.len() == 0 {
        assert(a + b == a);
    } else {
        lemma_bindings_concat(bindings, a, b.drop_last());
        assert((a + b).drop_last() == a + b.drop_last());
    }
}

proof fn lemma_touch_concat(renderer: Renderer, bindings: Bindings, a: Seq<Effect>, b: Seq<Effect>)
    requires
        only_touches_own(renderer, bindings, a),
        only_touches_own(renderer, bindings_after(bindings, a), b),
    ensures
        only_touches_own(renderer, bindings, a + b),
{
    assert forall|i: int| 0 <= i < (a + b).len() implies touches_own(
        renderer,
        bindings_after(bindings, (a + b).take(i)),
        #[trigger] (a + b)[i],
    ) by {
        if i < a.len() {
            assert((a + b).take(i) == a.take(i));
            assert(a[i] == (a + b)[i]);
        } else {
            let j = i - a.len();
            assert((a + b).take(i) == a + b.take(j));
            assert(b[j] == (a + b)[i]);
            lemma_bindings_concat(bindings, a, b.take(j));
        }
    }
}

/// An effect that neither binds nor touches anything.
spec fn idle(effect: Effect) -> bool {
    match effect {
        Effect::Do(Step::Call(call)) => {
            &&& !(call is UseProgram || call is BindVertexArray || call is BindBuffer)
            &&& !(call is BufferData || call is VertexAttribPointer)
            &&& !(call is EnableVertexAttribArray || call is DrawElements)
        },
        _ => true,
    }
}

proof fn lemma_idle(renderer: Renderer, bindings: Bindings, effects: Seq<Effect>)
    requires
        forall|i: int| 0 <= i < effects.len() ==> idle(#[trigger] effects[i]),
    ensures
        bindings_after(bindings, effects) == bindings,
        only_touches_own(renderer, bindings, effects),
    decreases effects.len(),
{
    if effects.len() > 0 {
        lemma_idle(renderer, bindings, effects.drop_last());
    }
}

proof fn lemma_push(
    renderer: Renderer,
    bindings: Bindings,
    effects: Seq<Effect>,
    effect: Effect,
) -> (pushed: Seq<Effect>)
    requires
        only_touches_own(renderer, bindings, effects),
        touches_own(renderer, bindings_after(bindings, effects), effect),
    ensures
        pushed == effects.push(effect),
        bindings_after(bindings, pushed) == bind(bindings_after(bindings, effects), effect),
        only_touches_own(renderer, bindings, pushed),
{
    let pushed = effects.push(effect);
    assert(pushed.drop_last() == effects);
    assert forall|i: int| 0 <= i < pushed.len() implies touches_own(
        renderer,
        bindings_after(bindings, pushed.take(i)),
        #[trigger] pushed[i],
    ) by {
        if i < effects.len() {
            assert(pushed.take(i) == effects.take(i));
            assert(effects[i] == pushed[i]);
        } else {
            assert(pushed.take(i) == effects);
        }
    }
    pushed
}

/// Whatever was bound before, drawing touches only the renderer's own objects
/// and leaves them bound.
pub proof fn drawing_touches_own(
    renderer: Renderer,
    bindings: Bindings,
    red: u32,
    green: u32,
    blue: u32,
    alpha: u32,
)
    ensures
        only_touches_own(
            renderer,
            bindings,
            done(renderer.draw_steps(red, green, blue, alpha)),
        ),
        bindings_after(bindings, done(renderer.draw_steps(red, green, blue, alpha)))
            == own_bindings(renderer),
{
    let all = done(renderer.draw_steps(red, green, blue, alpha));
    let s = lemma_push(renderer, bindings, seq![], all[0]);
    let s = lemma_push(renderer, bindings, s, all[1]);
    let s = lemma_push(renderer, bindings, s, all[2]);
    let s = lemma_push(renderer, bindings, s, all[3]);
    let s = lemma_push(renderer, bindings, s, all[4]);
    let s = lemma_push(renderer, bindings, s, all[5]);
    let s = lemma_push(renderer, bindings, s, all[6]);
    let s = lemma_push(renderer, bindings, s, all[7]);
    let s = lemma_push(renderer, bindings, s, all[8]);
    let s = lemma_push(renderer, bindings, s, all[9]);
    let s = lemma_push(renderer, bindings, s, all[10]);
    assert(s == all);
}

proof fn lemma_program_bindings(a: Answers, bindings: Bindings)
    ensures
        only_touches_own(a.made(), bindings, a.program_script()),
        bindings_after(bindings, a.program_script()) == (Bindings {
            program: Some(a.program),
            ..bindings
        }),
{
    let script = a.program_script();
    let before = script.take(4);
    let after = script.skip(5);
    lemma_idle(a.made(), bindings, before);
    let linked = lemma_push(a.made(), bindings, before, script[4]);
    lemma_idle(a.made(), bindings_after(bindings, linked), after);
    lemma_bindings_concat(bindings, linked, after);
    lemma_touch_concat(a.made(), bindings, linked, after);
    assert(script == linked + after);
}

proof fn lemma_buffer_bindings(a: Answers, bindings: Bindings)
    ensures
        only_touches_own(a.made(), bindings, a.buffer_script()),
        bindings_after(bindings, a.buffer_script()) == (Bindings {
            program: bindings.program,
            ..own_bindings(a.made())
        }),
{
    let all = a.buffer_script();
    upload_is_within_the_data(BufferContents::Vertices);
    upload_is_within_the_data(BufferContents::Indices);
    let s = lemma_push(a.made(), bindings, seq![], all[0]);
    let s = lemma_push(a.made(), bindings, s, all[1]);
    let s = lemma_push(a.made(), bindings, s, all[2]);
    let s = lemma_push(a.made(), bindings, s, all[3]);
    let s = lemma_push(a.made(), bindings, s, all[4]);
    let s = lemma_push(a.made(), bindings, s, all[5]);
    let s = lemma_push(a.made(), bindings, s, all[6]);
    let s = lemma_push(a.made(), bindings, s, all[7]);
    let s = lemma_push(a.made(), bindings, s, all[8]);
    let s = lemma_push(a.made(), bindings, s, all[9]);
    let s = lemma_push(a.made(), bindings, s, all[10]);
    assert(s == all);
}

proof fn lemma_attribute_bindings(a: Answers, bindings: Bindings)
    requires
        bindings == own_bindings(a.made()),
    ensures
        only_touches_own(a.made(), bindings, a.attribute_script()),
        bindings_after(bindings, a.attribute_script()) == bindings,
{
    let all = a.attribute_script();
    let s = lemma_push(a.made(), bindings, seq![], all[0]);
    let s = lemma_push(a.made(), bindings, s, all[1]);
    let s = lemma_push(a.made(), bindings, s, all[2]);
    let s = lemma_push(a.made(), bindings, s, all[3]);
    let s = lemma_push(a.made(), bindings, s, all[4]);
    let s = lemma_push(a.made(), bindings, s, all[5]);
    let s = lemma_push(a.made(), bindings, s, all[6]);
    let s = lemma_push(a.made(), bindings, s, all[7]);
    assert(s == all);
}

/// Whatever was bound before, the making of a renderer touches only the
/// renderer's own objects and leaves them bound.
pub proof fn setup_touches_own(answers: Answers, bindings: Bindings)
    ensures
        only_touches_own(answers.made(), bindings, answers.script()),
        bindings_after(bindings, answers.script()) == own_bindings(answers.made()),
{
    let a = answers;
    let made = a.made();
    let s1 = a.identify_script();
    let s2 = a.vertex.script(ShaderStage::Vertex);
    let s3 = a.fragment.script(ShaderStage::Fragment);
    let s4 = a.program_script();
    let s5 = a.buffer_script();
    let s6 = a.attribute_script();
    lemma_identify_script(a);
    lemma_idle(made, bindings, s1);
    lemma_idle(made, bindings, s2);
    lemma_idle(made, bindings, s3);
    lemma_touch_concat(made, bindings, s1, s2);
    lemma_bindings_concat(bindings, s1, s2);
    lemma_touch_concat(made, bindings, s1 + s2, s3);
    lemma_bindings_concat(bindings, s1 + s2, s3);
    lemma_program_bindings(a, bindings);
    lemma_touch_concat(made, bindings, s1 + s2 + s3, s4);
    lemma_bindings_concat(bindings, s1 + s2 + s3, s4);
    lemma_buffer_bindings(a, bindings_after(bindings, s1 + s2 + s3 + s4));
    lemma_touch_concat(made, bindings, s1 + s2 + s3 + s4, s5);
    lemma_bindings_concat(bindings, s1 + s2 + s3 + s4, s5);
    lemma_attribute_bindings(a, bindings_after(bindings, s1 + s2 + s3 + s4 + s5));
    lemma_touch_concat(made, bindings, s1 + s2 + s3 + s4 + s5, s6);
    lemma_bindings_concat(bindings, s1 + s2 + s3 + s4 + s5, s6);
}

/// What a renderer is used for.
pub ghost enum Frame {
    Draw { red: u32, green: u32, blue: u32, alpha: u32 },
    Resize { width: i32, height: i32 },
}

impl Frame {
    /// The steps that are taken.
    pub open spec fn steps(self, renderer: Renderer) -> Seq<Step> {
        match self {
            Frame::Draw { red, green, blue, alpha } => renderer.draw_steps(red, green, blue, alpha),
            Frame::Resize { width, height } => renderer.resize_steps(width, height),
        }
    }
}

/// What happens while a renderer is used.
pub open spec fn use_script(renderer: Renderer, frames: Seq<Frame>) -> Seq<Effect>
    decreases frames.len(),
{
    if frames.len() == 0 {
        seq![]
    } else {
        use_script(renderer, frames.drop_last()) + done(frames.last().steps(renderer))
    }
}

/// What happens from the first query to the last deletion.
pub open spec fn whole_script(answers: Answers, frames: Seq<Frame>) -> Seq<Effect> {
    answers.script() + use_script(answers.made(), frames) + done(answers.made().drop_steps())
}

/// However often a renderer draws and is resized, it makes and deletes no
/// object, touches only its own and leaves them bound.
pub proof fn using_keeps_objects(renderer: Renderer, frames: Seq<Frame>)
    ensures
        created(use_script(renderer, frames)) == Multiset::<Object>::empty(),
        deleted(use_script(renderer, frames)) == Multiset::<Object>::empty(),
        only_touches_own(renderer, own_bindings(renderer), use_script(renderer, frames)),
        bindings_after(own_bindings(renderer), use_script(renderer, frames)) == own_bindings(
            renderer,
        ),
    decreases frames.len(),
{
    if frames.len() > 0 {
        let own = own_bindings(renderer);
        let before = use_script(renderer, frames.drop_last());
        let last = done(frames.last().steps(renderer));
        using_keeps_objects(renderer, frames.drop_last());
        match frames.last() {
            Frame::Draw { red, green, blue, alpha } => {
                drawing_keeps_objects(renderer, red, green, blue, alpha);
                drawing_touches_own(renderer, own, red, green, blue, alpha);
            },
            Frame::Resize { .. } => {
                lemma_none_created(last);
                lemma_none_deleted(last);
                lemma_idle(renderer, own, last);
            },
        }
        lemma_created_concat(before, last);
        lemma_deleted_concat(before, last);
        lemma_touch_concat(renderer, own, before, last);
        lemma_bindings_concat(own, before, last);
    }
}

proof fn lemma_whole_balance(answers: Answers, frames: Seq<Frame>)
    ensures
        ({
            let in_use = answers.script() + use_script(answers.made(), frames);
            let whole = whole_script(answers, frames);
            &&& created(in_use) == objects_of(answers)
            &&& deleted(in_use) == shaders_of(answers)
            &&& created(whole) == objects_of(answers)
            &&& deleted(whole) == objects_of(answers)
        }),
{
    let made = answers.made();
    let script = answers.script();
    let used = use_script(made, frames);
    let dropped = done(made.drop_steps());
    everything_made_is_deleted_once(answers);
    using_keeps_objects(made, frames);
    lemma_none_created(dropped);
    lemma_created_concat(script, used);
    lemma_deleted_concat(script, used);
    lemma_created_concat(script + used, dropped);
    lemma_deleted_concat(script + used, dropped);
}

proof fn lemma_whole_prefix(answers: Answers, frames: Seq<Frame>, i: int)
    requires
        0 <= i <= whole_script(answers, frames).len(),
    ensures
        deleted(whole_script(answers, frames).take(i)).subset_of(
            created(whole_script(answers, frames).take(i)),
        ),
{
    let in_use = answers.script() + use_script(answers.made(), frames);
    let whole = whole_script(answers, frames);
    let prefix = whole.take(i);
    let compiled = lemma_shaders_come_first(answers);
    lemma_whole_balance(answers, frames);
    if i <= compiled.len() {
        assert(prefix == compiled.take(i));
        lemma_prefix(compiled, i);
    } else if i <= in_use.len() {
        assert(prefix == in_use.take(i));
        assert(prefix.take(compiled.len() as int) == compiled);
        lemma_prefix(in_use, i);
        lemma_prefix(prefix, compiled.len() as int);
    } else {
        assert(prefix.take(in_use.len() as int) == in_use);
        lemma_prefix(whole, i);
        lemma_prefix(prefix, in_use.len() as int);
    }
}

proof fn lemma_shaders_come_first(a: Answers) -> (compiled: Seq<Effect>)
    ensures
        compiled.len() <= a.script().len(),
        compiled == a.script().take(compiled.len() as int),
        created(compiled) == shaders_of(a),
        deleted(compiled) == Multiset::<Object>::empty(),
{
    let s1 = a.identify_script();
    let s2 = a.vertex.script(ShaderStage::Vertex);
    let s3 = a.fragment.script(ShaderStage::Fragment);
    lemma_identify_script(a);
    lemma_none_created(s1);
    lemma_none_deleted(s1);
    lemma_shader_script(a.vertex, ShaderStage::Vertex);
    lemma_shader_script(a.fragment, ShaderStage::Fragment);
    lemma_created_concat(s1, s2);
    lemma_created_concat(s1 + s2, s3);
    lemma_deleted_concat(s1, s2);
    lemma_deleted_concat(s1 + s2, s3);
    let compiled = s1 + s2 + s3;
    assert(created(compiled) == shaders_of(a));
    assert(deleted(compiled) == Multiset::<Object>::empty());
    assert(compiled == a.script().take(compiled.len() as int));
    compiled
}

proof fn lemma_prefix(effects: Seq<Effect>, i: int)
    requires
        0 <= i <= effects.len(),
    ensures
        created(effects.take(i)).subset_of(created(effects)),
        deleted(effects.take(i)).subset_of(deleted(effects)),
{
    assert(effects == effects.take(i) + effects.skip(i));
    lemma_created_concat(effects.take(i), effects.skip(i));
    lemma_deleted_concat(effects.take(i), effects.skip(i));
}

proof fn lemma_drop_bindings(renderer: Renderer, bindings: Bindings)
    ensures
        only_touches_own(renderer, bindings, done(renderer.drop_steps())),
{
    lemma_idle(renderer, bindings, done(renderer.drop_steps()));
}

proof fn lemma_whole_touches_own(answers: Answers, frames: Seq<Frame>, bindings: Bindings)
    ensures
        only_touches_own(answers.made(), bindings, whole_script(answers, frames)),
{
    let made = answers.made();
    let script = answers.script();
    let used = use_script(made, frames);
    setup_touches_own(answers, bindings);
    using_keeps_objects(made, frames);
    lemma_touch_concat(made, bindings, script, used);
    lemma_bindings_concat(bindings, script, used);
    lemma_drop_bindings(made, own_bindings(made));
    lemma_touch_concat(made, bindings, script + used, done(made.drop_steps()));
}

/// From the first query to the last deletion, whatever OpenGL answers and
/// however often the renderer draws and is resized in between: each object that
/// is made is deleted, as often as it is made and no sooner, and only the
/// renderer's own objects are touched, whatever was bound before.
pub proof fn whole_script_is_balanced(answers: Answers, frames: Seq<Frame>, bindings: Bindings)
    ensures
        created(whole_script(answers, frames)) == objects_of(answers),
        deleted(whole_script(answers, frames)) == objects_of(answers),
        forall|i: int|
            0 <= i <= whole_script(answers, frames).len() ==> #[trigger] deleted(
                whole_script(answers, frames).take(i),
            ).subset_of(created(whole_script(answers, frames).take(i))),
        only_touches_own(answers.made(), bindings, whole_script(answers, frames)),
{
    let whole = whole_script(answers, frames);
    lemma_whole_touches_own(answers, frames, bindings);
    lemma_whole_balance(answers, frames);
    assert forall|i: int| 0 <= i <= whole.len() implies #[trigger] deleted(
        whole.take(i),
    ).subset_of(created(whole.take(i))) by {
        lemma_whole_prefix(answers, frames, i);
    }
}

} // verus!
