//! The making of a renderer as a whole: what it prints, calls and asks, from
//! the first query to the renderer, for whatever OpenGL answers.
use crate::gl::{
    GlCall, Query, ReplyView, Step, COMPILE_STATUS, INFO_LOG_LENGTH, RENDERER,
    SHADING_LANGUAGE_VERSION, VERSION,
};
use crate::renderer::Renderer;
use crate::setup::{
    attribute_steps, element_buffer_steps, first_turn, identify, link_steps, next_shader,
    vertex_buffer_steps, Identity, Next, RendererSetup,
};
use crate::shader::{shader_start, Attribute, ShaderNext, ShaderPhase, ShaderStage};
use crate::text::{lossy_text, quoted_text};
use vstd::prelude::*;

verus! {

/// Something that happens outside.
pub ghost enum Effect {
    /// A line is printed.
    Print(Seq<char>),
    /// A step is taken.
    Do(Step),
    /// A query is answered.
    Ask(Query, ReplyView),
}

/// The printing of a line, if there is one.
pub open spec fn printed(line: Option<Seq<char>>) -> Seq<Effect> {
    match line {
        None => seq![],
        Some(line) => seq![Effect::Print(line)],
    }
}

/// The taking of steps.
pub open spec fn done(steps: Seq<Step>) -> Seq<Effect> {
    Seq::new(steps.len(), |i: int| Effect::Do(steps[i]))
}

/// What happens while queries are answered in turn, and where that leads.
#[verifier::ext_equal]
pub ghost struct Run {
    pub effects: Seq<Effect>,
    pub end: Next,
}

/// The run from `next` on, with the given replies.
pub open spec fn run(next: Next, replies: Seq<ReplyView>) -> Run
    decreases replies.len(),
{
    match next {
        Next::Ready { .. } => Run { effects: seq![], end: next },
        Next::Ask { setup, query } => if replies.len() == 0 {
            Run { effects: seq![], end: next }
        } else {
            let turn = setup.turn(replies.first());
            let rest = run(turn.next, replies.drop_first());
            Run {
                effects: seq![Effect::Ask(query, replies.first())] + printed(turn.line) + done(
                    turn.steps,
                ) + rest.effects,
                end: rest.end,
            }
        },
    }
}

/// What happens while a shader is compiled, and where that leads.
#[verifier::ext_equal]
pub ghost struct ShaderRun {
    pub effects: Seq<Effect>,
    pub end: ShaderNext,
}

/// The run of a compilation from `next` on, with the given replies.
pub open spec fn shader_run(next: ShaderNext, replies: Seq<ReplyView>) -> ShaderRun
    decreases replies.len(),
{
    match next {
        ShaderNext::Ready { .. } => ShaderRun { effects: seq![], end: next },
        ShaderNext::Ask { build, query } => if replies.len() == 0 {
            ShaderRun { effects: seq![], end: next }
        } else {
            let turn = build.turn(replies.first());
            let rest = shader_run(turn.next, replies.drop_first());
            ShaderRun {
                effects: seq![Effect::Ask(query, replies.first())] + printed(turn.line) + done(
                    turn.steps,
                ) + rest.effects,
                end: rest.end,
            }
        },
    }
}

/// Each reply answers what is waited for when it comes.
pub open spec fn accepted(next: Next, replies: Seq<ReplyView>) -> bool
    decreases replies.len(),
{
    replies.len() == 0 || match next {
        Next::Ready { .. } => false,
        Next::Ask { setup, .. } => setup.accepts(replies.first()) && accepted(
            setup.turn(replies.first()).next,
            replies.drop_first(),
        ),
    }
}

/// What OpenGL answers while a shader is compiled. The log counts only where
/// the status is 0.
pub ghost struct ShaderAnswers {
    pub name: u32,
    pub status: i32,
    pub log_length: i32,
    pub log: Seq<u8>,
}

/// What OpenGL answers while a renderer is made.
pub ghost struct Answers {
    pub renderer: Option<Seq<u8>>,
    pub version: Option<Seq<u8>>,
    pub shading_language: Option<Seq<u8>>,
    pub vertex: ShaderAnswers,
    pub fragment: ShaderAnswers,
    pub program: u32,
    pub vao: u32,
    pub vbo: u32,
    pub ebo: u32,
    pub position: i32,
    pub color: i32,
}

impl ShaderAnswers {
    /// A failed compilation has a log, whose length is not negative.
    pub open spec fn wf(self) -> bool {
        self.status == 0 ==> self.log_length >= 0
    }

    /// The replies, in order.
    pub open spec fn replies(self) -> Seq<ReplyView> {
        seq![ReplyView::Name(self.name), ReplyView::Value(self.status)] + if self.status == 0 {
            seq![ReplyView::Value(self.log_length), ReplyView::Log(self.log)]
        } else {
            seq![]
        }
    }

    /// The shader of a stage is compiled.
    pub open spec fn script(self, stage: ShaderStage) -> Seq<Effect> {
        self.script_of(stage.spec_kind(), stage.spec_source())
    }

    /// A shader of the given kind is made, given the source and compiled. Where
    /// that fails its log is read and printed.
    pub open spec fn script_of(self, kind: u32, source: &'static str) -> Seq<Effect> {
        let shader = self.name;
        seq![
            Effect::Ask(Query::CreateShader { kind }, ReplyView::Name(shader)),
            Effect::Do(Step::Call(GlCall::ShaderSource { shader, source })),
            Effect::Do(Step::Call(GlCall::CompileShader { shader })),
            Effect::Ask(
                Query::GetShaderiv { shader, parameter: COMPILE_STATUS, initial: 1 },
                ReplyView::Value(self.status),
            ),
        ] + if self.status == 0 {
            seq![
                Effect::Ask(
                    Query::GetShaderiv { shader, parameter: INFO_LOG_LENGTH, initial: 0 },
                    ReplyView::Value(self.log_length),
                ),
                Effect::Ask(
                    Query::GetShaderInfoLog { shader, length: self.log_length },
                    ReplyView::Log(self.log),
                ),
                Effect::Print(quoted_text(lossy_text(self.log))),
            ]
        } else {
            seq![]
        }
    }
}

impl Answers {
    /// The answers are ones that the setup accepts.
    pub open spec fn wf(self) -> bool {
        self.vertex.wf() && self.fragment.wf()
    }

    /// The replies, in order.
    pub open spec fn replies(self) -> Seq<ReplyView> {
        seq![
            ReplyView::Text(self.renderer),
            ReplyView::Text(self.version),
            ReplyView::Text(self.shading_language),
        ] + (self.vertex.replies() + (self.fragment.replies() + self.object_replies()))
    }

    /// The replies that follow the shaders.
    pub open spec fn object_replies(self) -> Seq<ReplyView> {
        seq![
            ReplyView::Name(self.program),
            ReplyView::Name(self.vao),
            ReplyView::Name(self.vbo),
            ReplyView::Name(self.ebo),
            ReplyView::Value(self.position),
            ReplyView::Value(self.color),
        ]
    }

    /// The renderer that is made.
    pub open spec fn made(self) -> Renderer {
        Renderer { program: self.program, vao: self.vao, vbo: self.vbo, ebo: self.ebo }
    }

    /// The implementation is described.
    pub open spec fn identify_script(self) -> Seq<Effect> {
        seq![Effect::Ask(Query::GetString { name: RENDERER }, ReplyView::Text(self.renderer))]
            + printed(Identity::Renderer.spec_line(self.renderer)) + seq![
            Effect::Ask(Query::GetString { name: VERSION }, ReplyView::Text(self.version)),
        ] + printed(Identity::Version.spec_line(self.version)) + seq![
            Effect::Ask(
                Query::GetString { name: SHADING_LANGUAGE_VERSION },
                ReplyView::Text(self.shading_language),
            ),
        ] + printed(Identity::ShadingLanguage.spec_line(self.shading_language))
    }

    /// The program is linked from the shaders.
    pub open spec fn program_script(self) -> Seq<Effect> {
        seq![Effect::Ask(Query::CreateProgram, ReplyView::Name(self.program))] + done(
            link_steps(self.program, self.vertex.name, self.fragment.name),
        )
    }

    /// The vertex array and the buffers are made and filled.
    pub open spec fn buffer_script(self) -> Seq<Effect> {
        seq![
            Effect::Ask(Query::GenVertexArrays, ReplyView::Name(self.vao)),
            Effect::Do(Step::Call(GlCall::BindVertexArray { array: self.vao })),
            Effect::Ask(Query::GenBuffers, ReplyView::Name(self.vbo)),
        ] + done(vertex_buffer_steps(self.vbo)) + seq![
            Effect::Ask(Query::GenBuffers, ReplyView::Name(self.ebo)),
        ] + done(element_buffer_steps(self.ebo))
    }

    /// The attributes are found, laid out and enabled.
    pub open spec fn attribute_script(self) -> Seq<Effect> {
        seq![
            Effect::Ask(
                Query::GetAttribLocation {
                    program: self.program,
                    attribute: Attribute::Position,
                },
                ReplyView::Value(self.position),
            ),
            Effect::Ask(
                Query::GetAttribLocation { program: self.program, attribute: Attribute::Color },
                ReplyView::Value(self.color),
            ),
        ] + done(attribute_steps(self.position, self.color))
    }

    /// All that happens while the renderer is made, in order, where no check
    /// finds an error.
    pub open spec fn script(self) -> Seq<Effect> {
        self.identify_script() + self.vertex.script(ShaderStage::Vertex) + self.fragment.script(
            ShaderStage::Fragment,
        ) + self.program_script() + self.buffer_script() + self.attribute_script()
    }
}

/// What follows a finished shader: the fragment shader after the vertex shader,
/// then the program.
spec fn after_shader(finished: Option<u32>, shader: u32) -> Next {
    match finished {
        None => next_shader(Some(shader)),
        Some(vertex) => Next::Ask {
            setup: RendererSetup::Program { vertex, fragment: shader },
            query: Query::CreateProgram,
        },
    }
}

proof fn lemma_run_step(next: Next, reply: ReplyView, rest: Seq<ReplyView>)
    requires
        next is Ask,
    ensures
        ({
            let turn = next->setup.turn(reply);
            let onward = run(turn.next, rest);
            &&& run(next, seq![reply] + rest) == (Run {
                effects: seq![Effect::Ask(next->query, reply)] + printed(turn.line) + done(
                    turn.steps,
                ) + onward.effects,
                end: onward.end,
            })
            &&& accepted(next, seq![reply] + rest) == (next->setup.accepts(reply) && accepted(
                turn.next,
                rest,
            ))
        }),
{
    let replies = seq![reply] + rest;
    assert(replies.first() == reply);
    assert(replies.drop_first() == rest);
}

proof fn lemma_shader_run(finished: Option<u32>, answers: ShaderAnswers, rest: Seq<ReplyView>)
    requires
        answers.wf(),
    ensures
        ({
            let stage = if finished is None {
                ShaderStage::Vertex
            } else {
                ShaderStage::Fragment
            };
            let onward = run(after_shader(finished, answers.name), rest);
            &&& run(next_shader(finished), answers.replies() + rest) == (Run {
                effects: answers.script(stage) + onward.effects,
                end: onward.end,
            })
            &&& accepted(next_shader(finished), answers.replies() + rest) == accepted(
                after_shader(finished, answers.name),
                rest,
            )
        }),
{
    let shader = answers.name;
    let name = ReplyView::Name(shader);
    let status = ReplyView::Value(answers.status);
    let log = if answers.status == 0 {
        seq![ReplyView::Value(answers.log_length)] + (seq![ReplyView::Log(answers.log)] + rest)
    } else {
        rest
    };
    assert(answers.replies() + rest == seq![name] + (seq![status] + log));
    let named = next_shader(finished);
    lemma_run_step(named, name, seq![status] + log);
    let compiled = named->setup.turn(name).next;
    lemma_run_step(compiled, status, log);
    if answers.status == 0 {
        let failed = compiled->setup.turn(status).next;
        let length = ReplyView::Value(answers.log_length);
        lemma_run_step(failed, length, seq![ReplyView::Log(answers.log)] + rest);
        let measured = failed->setup.turn(length).next;
        lemma_run_step(measured, ReplyView::Log(answers.log), rest);
    }
}

proof fn lemma_shader_step(next: ShaderNext, reply: ReplyView, rest: Seq<ReplyView>)
    requires
        next is Ask,
    ensures
        ({
            let turn = next->build.turn(reply);
            let onward = shader_run(turn.next, rest);
            shader_run(next, seq![reply] + rest) == (ShaderRun {
                effects: seq![Effect::Ask(next->query, reply)] + printed(turn.line) + done(
                    turn.steps,
                ) + onward.effects,
                end: onward.end,
            })
        }),
{
    let replies = seq![reply] + rest;
    assert(replies.first() == reply);
    assert(replies.drop_first() == rest);
}

/// Whatever the kind and the source, and whatever OpenGL answers, the
/// compilation of a shader does what [`ShaderAnswers::script_of`] says and ends
/// with the shader of the answered name, whether it compiled or not.
pub proof fn shader_follows_the_script(kind: u32, source: &'static str, answers: ShaderAnswers)
    requires
        answers.wf(),
    ensures
        shader_run(shader_start(kind, source), answers.replies()) == (ShaderRun {
            effects: answers.script_of(kind, source),
            end: ShaderNext::Ready { shader: answers.name },
        }),
{
    let none = Seq::<ReplyView>::empty();
    let name = ReplyView::Name(answers.name);
    let status = ReplyView::Value(answers.status);
    let length = ReplyView::Value(answers.log_length);
    let log = ReplyView::Log(answers.log);
    let after_status = if answers.status == 0 {
        seq![length] + (seq![log] + none)
    } else {
        none
    };
    assert(answers.replies() == seq![name] + (seq![status] + after_status));
    let named = shader_start(kind, source);
    lemma_shader_step(named, name, seq![status] + after_status);
    let compiled = named->build.turn(name).next;
    lemma_shader_step(compiled, status, after_status);
    if answers.status == 0 {
        let failed = compiled->build.turn(status).next;
        lemma_shader_step(failed, length, seq![log] + none);
        let measured = failed->build.turn(length).next;
        lemma_shader_step(measured, log, none);
    }
}

/// Whatever OpenGL answers, the making of a renderer does what
/// [`Answers::script`] says and ends with a renderer of the answered names.
pub proof fn setup_follows_the_script(answers: Answers)
    requires
        answers.wf(),
    ensures
        accepted(first_turn().next, answers.replies()),
        run(first_turn().next, answers.replies()) == (Run {
            effects: answers.script(),
            end: Next::Ready { renderer: answers.made() },
        }),
{
    let a = answers;
    let objects = a.object_replies();
    let after_vertex = a.fragment.replies() + objects;
    let after_identity = a.vertex.replies() + after_vertex;
    lemma_identify_run(a, after_identity);
    assert(a.replies() == seq![
        ReplyView::Text(a.renderer),
        ReplyView::Text(a.version),
        ReplyView::Text(a.shading_language),
    ] + after_identity);
    lemma_shader_run(None, a.vertex, after_vertex);
    lemma_shader_run(Some(a.vertex.name), a.fragment, objects);
    lemma_objects_run(a);
    lemma_concat(
        a.identify_script(),
        a.vertex.script(ShaderStage::Vertex),
        a.fragment.script(ShaderStage::Fragment),
        a.program_script(),
        a.buffer_script(),
        a.attribute_script(),
    );
}

proof fn lemma_concat(
    s1: Seq<Effect>,
    s2: Seq<Effect>,
    s3: Seq<Effect>,
    s4: Seq<Effect>,
    s5: Seq<Effect>,
    s6: Seq<Effect>,
)
    ensures
        s1 + s2 + s3 + s4 + s5 + s6 == s1 + (s2 + (s3 + (s4 + s5 + s6))),
{
}

proof fn lemma_identify_run(a: Answers, rest: Seq<ReplyView>)
    ensures
        ({
            let replies = seq![
                ReplyView::Text(a.renderer),
                ReplyView::Text(a.version),
                ReplyView::Text(a.shading_language),
            ] + rest;
            let onward = run(next_shader(None), rest);
            &&& run(first_turn().next, replies) == (Run {
                effects: a.identify_script() + onward.effects,
                end: onward.end,
            })
            &&& accepted(first_turn().next, replies) == accepted(next_shader(None), rest)
        }),
{
    let none = Seq::<Effect>::empty();
    let renderer = ReplyView::Text(a.renderer);
    let version = ReplyView::Text(a.version);
    let shading = ReplyView::Text(a.shading_language);
    let r1 = seq![shading] + rest;
    let r2 = seq![version] + r1;
    assert(seq![renderer, version, shading] + rest == seq![renderer] + r2);
    lemma_run_step(identify(Identity::Renderer), renderer, r2);
    lemma_run_step(identify(Identity::Version), version, r1);
    lemma_run_step(identify(Identity::ShadingLanguage), shading, rest);
    assert(done(seq![]) == none);
    let onward = run(next_shader(None), rest).effects;
    let q1 = seq![Effect::Ask(Query::GetString { name: RENDERER }, renderer)];
    let q2 = seq![Effect::Ask(Query::GetString { name: VERSION }, version)];
    let q3 = seq![Effect::Ask(Query::GetString { name: SHADING_LANGUAGE_VERSION }, shading)];
    let l1 = printed(Identity::Renderer.spec_line(a.renderer));
    let l2 = printed(Identity::Version.spec_line(a.version));
    let l3 = printed(Identity::ShadingLanguage.spec_line(a.shading_language));
    lemma_interleave(q1, l1, q2, l2, q3, l3, onward);
}

proof fn lemma_interleave(
    q1: Seq<Effect>,
    l1: Seq<Effect>,
    q2: Seq<Effect>,
    l2: Seq<Effect>,
    q3: Seq<Effect>,
    l3: Seq<Effect>,
    rest: Seq<Effect>,
)
    ensures
        ({
            let none = Seq::<Effect>::empty();
            q1 + l1 + none + (q2 + l2 + none + (q3 + l3 + none + rest)) == q1 + l1 + q2 + l2 + q3
                + l3 + rest
        }),
{
}

proof fn lemma_objects_run(a: Answers)
    ensures
        ({
            let next = after_shader(Some(a.vertex.name), a.fragment.name);
            &&& accepted(next, a.object_replies())
            &&& run(next, a.object_replies()) == (Run {
                effects: a.program_script() + a.buffer_script() + a.attribute_script(),
                end: Next::Ready { renderer: a.made() },
            })
        }),
{
    let none = Seq::<ReplyView>::empty();
    let color = ReplyView::Value(a.color);
    let position = ReplyView::Value(a.position);
    let ebo = ReplyView::Name(a.ebo);
    let vbo = ReplyView::Name(a.vbo);
    let vao = ReplyView::Name(a.vao);
    let program = ReplyView::Name(a.program);
    let r1 = seq![color] + none;
    let r2 = seq![position] + r1;
    let r3 = seq![ebo] + r2;
    let r4 = seq![vbo] + r3;
    let r5 = seq![vao] + r4;
    assert(a.object_replies() == seq![program] + r5);
    let n1 = after_shader(Some(a.vertex.name), a.fragment.name);
    lemma_run_step(n1, program, r5);
    let n2 = n1->setup.turn(program).next;
    lemma_run_step(n2, vao, r4);
    let n3 = n2->setup.turn(vao).next;
    lemma_run_step(n3, vbo, r3);
    let n4 = n3->setup.turn(vbo).next;
    lemma_run_step(n4, ebo, r2);
    let n5 = n4->setup.turn(ebo).next;
    lemma_run_step(n5, position, r1);
    let n6 = n5->setup.turn(position).next;
    lemma_run_step(n6, color, none);
    let e6 = run(n6, r1).effects;
    let e5 = run(n5, r2).effects;
    let e4 = run(n4, r3).effects;
    let e3 = run(n3, r4).effects;
    let e2 = run(n2, r5).effects;
    assert(e5 == a.attribute_script());
    assert(e2 == a.buffer_script() + a.attribute_script());
    assert(run(n1, a.object_replies()).effects == a.program_script() + e2);
    assert(run(n1, a.object_replies()).effects == a.program_script() + a.buffer_script()
        + a.attribute_script());
}

/// There is no other way to a renderer: whenever accepted replies lead to one,
/// they are the replies of some answers.
pub proof fn setup_has_no_other_run(replies: Seq<ReplyView>) -> (answers: Answers)
    requires
        accepted(first_turn().next, replies),
        run(first_turn().next, replies).end is Ready,
    ensures
        answers.wf(),
        replies == answers.replies(),
{
    let n1 = first_turn().next;
    let r1 = lemma_first_reply(n1, replies);
    let n2 = n1->setup.turn(replies.first()).next;
    let r2 = lemma_first_reply(n2, r1);
    let n3 = n2->setup.turn(r1.first()).next;
    let r3 = lemma_first_reply(n3, r2);
    let (vertex, r4) = lemma_shader_replies(None, r3);
    let (fragment, r5) = lemma_shader_replies(Some(vertex.name), r4);
    let o1 = after_shader(Some(vertex.name), fragment.name);
    let r6 = lemma_first_reply(o1, r5);
    let o2 = o1->setup.turn(r5.first()).next;
    let r7 = lemma_first_reply(o2, r6);
    let o3 = o2->setup.turn(r6.first()).next;
    let r8 = lemma_first_reply(o3, r7);
    let o4 = o3->setup.turn(r7.first()).next;
    let r9 = lemma_first_reply(o4, r8);
    let o5 = o4->setup.turn(r8.first()).next;
    let r10 = lemma_first_reply(o5, r9);
    let o6 = o5->setup.turn(r9.first()).next;
    let r11 = lemma_first_reply(o6, r10);
    let answers = Answers {
        renderer: replies.first()->Text_0,
        version: r1.first()->Text_0,
        shading_language: r2.first()->Text_0,
        vertex,
        fragment,
        program: r5.first()->Name_0,
        vao: r6.first()->Name_0,
        vbo: r7.first()->Name_0,
        ebo: r8.first()->Name_0,
        position: r9.first()->Value_0,
        color: r10.first()->Value_0,
    };
    assert(r5 == answers.object_replies());
    assert(replies == answers.replies());
    answers
}

proof fn lemma_first_reply(next: Next, replies: Seq<ReplyView>) -> (rest: Seq<ReplyView>)
    requires
        next is Ask,
        accepted(next, replies),
        run(next, replies).end is Ready,
    ensures
        replies.len() > 0,
        replies == seq![replies.first()] + rest,
        next->setup.accepts(replies.first()),
        accepted(next->setup.turn(replies.first()).next, rest),
        run(next->setup.turn(replies.first()).next, rest).end is Ready,
        next->setup.turn(replies.first()).next is Ready ==> rest.len() == 0,
{
    replies.drop_first()
}

proof fn lemma_shader_replies(finished: Option<u32>, replies: Seq<ReplyView>) -> (split: (
    ShaderAnswers,
    Seq<ReplyView>,
))
    requires
        accepted(next_shader(finished), replies),
        run(next_shader(finished), replies).end is Ready,
    ensures
        split.0.wf(),
        replies == split.0.replies() + split.1,
        accepted(after_shader(finished, split.0.name), split.1),
        run(after_shader(finished, split.0.name), split.1).end is Ready,
{
    let n1 = next_shader(finished);
    let r1 = lemma_first_reply(n1, replies);
    let name = replies.first()->Name_0;
    let n2 = n1->setup.turn(replies.first()).next;
    let r2 = lemma_first_reply(n2, r1);
    let status = r1.first()->Value_0;
    if status == 0 {
        let n3 = n2->setup.turn(r1.first()).next;
        let r3 = lemma_first_reply(n3, r2);
        let log_length = r2.first()->Value_0;
        let n4 = n3->setup.turn(r2.first()).next;
        let r4 = lemma_first_reply(n4, r3);
        let log = r3.first()->Log_0;
        let answers = ShaderAnswers { name, status, log_length, log };
        assert(replies == answers.replies() + r4);
        (answers, r4)
    } else {
        let answers = ShaderAnswers { name, status, log_length: 0, log: seq![] };
        assert(replies == answers.replies() + r2);
        (answers, r2)
    }
}

/// How many more answers a setup may wait for.
pub open spec fn remaining(next: Next) -> nat {
    match next {
        Next::Ready { .. } => 0,
        Next::Ask { setup, .. } => match setup {
            RendererSetup::Identify { identity: Identity::Renderer } => 17,
            RendererSetup::Identify { identity: Identity::Version } => 16,
            RendererSetup::Identify { identity: Identity::ShadingLanguage } => 15,
            RendererSetup::Shader { finished, build } => {
                let others: nat = if finished is None {
                    10
                } else {
                    6
                };
                match build.phase {
                    ShaderPhase::Name => others + 4,
                    ShaderPhase::Status { .. } => others + 3,
                    ShaderPhase::LogLength { .. } => others + 2,
                    ShaderPhase::Log { .. } => others + 1,
                }
            },
            RendererSetup::Program { .. } => 6,
            RendererSetup::VertexArray { .. } => 5,
            RendererSetup::VertexBuffer { .. } => 4,
            RendererSetup::ElementBuffer { .. } => 3,
            RendererSetup::Position { .. } => 2,
            RendererSetup::Color { .. } => 1,
        },
    }
}

/// Each answer brings the renderer nearer.
pub proof fn setup_makes_progress(setup: RendererSetup, query: Query, reply: ReplyView)
    requires
        setup.accepts(reply),
    ensures
        remaining(setup.turn(reply).next) < remaining(Next::Ask { setup, query }),
{
}

} // verus!
