//! Runs with errors: what OpenGL reports at the checkpoints decides how far the
//! steps are taken.
use crate::gl::{ReplyView, Step, NO_ERROR};
use crate::playback::left_after_check;
use crate::renderer::Renderer;
use crate::report::{exit_status, Checkpoint};
use crate::setup::{first_turn, Next};
use crate::shader::ShaderStage;
use crate::trace::{done, printed, run, setup_follows_the_script, Answers, Effect, ShaderAnswers};
use vstd::prelude::*;

verus! {

/// The steps that are taken of those that are left, where the error that is
/// pending at each checkpoint is the one that `codes` gives.
pub open spec fn taken(left: Seq<Step>, codes: spec_fn(Checkpoint) -> u32) -> Seq<Step>
    decreases left.len(),
{
    if left.len() == 0 {
        seq![]
    } else {
        seq![left.first()] + match left.first() {
            Step::Call(_) => taken(left.drop_first(), codes),
            Step::Check(checkpoint) => taken(left_after_check(left, codes(checkpoint)), codes),
        }
    }
}

/// The status that the process is left with while the steps are taken, if one
/// of the reports ends it.
pub open spec fn exit_while_taking(
    left: Seq<Step>,
    codes: spec_fn(Checkpoint) -> u32,
) -> Option<i32>
    decreases left.len(),
{
    if left.len() == 0 {
        None
    } else {
        match left.first() {
            Step::Call(_) => exit_while_taking(left.drop_first(), codes),
            Step::Check(checkpoint) => match exit_status(codes(checkpoint)) {
                Some(status) => Some(status),
                None => exit_while_taking(left_after_check(left, codes(checkpoint)), codes),
            },
        }
    }
}

/// Where a run with errors leads.
pub ghost enum Outcome {
    /// A query waits for its answer.
    Waiting,
    /// The renderer is there.
    Made(Renderer),
    /// The process is left with a status.
    Exited(i32),
}

/// What happens in a run with errors, and where that leads.
#[verifier::ext_equal]
pub ghost struct CheckedRun {
    pub effects: Seq<Effect>,
    pub outcome: Outcome,
}

/// The run from `next` on, with the given replies and errors.
pub open spec fn checked_run(
    next: Next,
    replies: Seq<ReplyView>,
    codes: spec_fn(Checkpoint) -> u32,
) -> CheckedRun
    decreases replies.len(),
{
    match next {
        Next::Ready { renderer } => CheckedRun {
            effects: seq![],
            outcome: Outcome::Made(renderer),
        },
        Next::Ask { setup, query } => if replies.len() == 0 {
            CheckedRun { effects: seq![], outcome: Outcome::Waiting }
        } else {
            let turn = setup.turn(replies.first());
            let here = seq![Effect::Ask(query, replies.first())] + printed(turn.line) + done(
                taken(turn.steps, codes),
            );
            match exit_while_taking(turn.steps, codes) {
                Some(status) => CheckedRun { effects: here, outcome: Outcome::Exited(status) },
                None => {
                    let rest = checked_run(turn.next, replies.drop_first(), codes);
                    CheckedRun { effects: here + rest.effects, outcome: rest.outcome }
                },
            }
        },
    }
}

/// The effect is a check that finds an error.
pub open spec fn finds_error(effect: Effect, codes: spec_fn(Checkpoint) -> u32) -> bool {
    effect matches Effect::Do(Step::Check(checkpoint)) && codes(checkpoint) != NO_ERROR
}

/// Some check finds an error.
pub open spec fn has_error(effects: Seq<Effect>, codes: spec_fn(Checkpoint) -> u32) -> bool {
    exists|i: int| 0 <= i < effects.len() && finds_error(#[trigger] effects[i], codes)
}

/// The effects up to the first check that finds an error, and that check.
pub open spec fn up_to_error(effects: Seq<Effect>, codes: spec_fn(Checkpoint) -> u32) -> Seq<Effect>
    decreases effects.len(),
{
    if effects.len() == 0 {
        seq![]
    } else if finds_error(effects.first(), codes) {
        seq![effects.first()]
    } else {
        seq![effects.first()] + up_to_error(effects.drop_first(), codes)
    }
}

proof fn lemma_has_error_concat(
    a: Seq<Effect>,
    b: Seq<Effect>,
    codes: spec_fn(Checkpoint) -> u32,
)
    ensures
        has_error(a + b, codes) == (has_error(a, codes) || has_error(b, codes)),
{
    if has_error(a, codes) {
        let i = choose|i: int| 0 <= i < a.len() && finds_error(#[trigger] a[i], codes);
        assert((a + b)[i] == a[i]);
    }
    if has_error(b, codes) {
        let i = choose|i: int| 0 <= i < b.len() && finds_error(#[trigger] b[i], codes);
        assert((a + b)[a.len() + i] == b[i]);
    }
    if has_error(a + b, codes) {
        let i = choose|i: int| 0 <= i < (a + b).len() && finds_error(#[trigger] (a + b)[i], codes);
        if i < a.len() {
            assert(a[i] == (a + b)[i]);
        } else {
            assert(b[i - a.len()] == (a + b)[i]);
        }
    }
}

proof fn lemma_up_to_error_concat(
    a: Seq<Effect>,
    b: Seq<Effect>,
    codes: spec_fn(Checkpoint) -> u32,
)
    ensures
        up_to_error(a + b, codes) == if has_error(a, codes) {
            up_to_error(a, codes)
        } else {
            a + up_to_error(b, codes)
        },
    decreases a.len(),
{
    if a.len() == 0 {
        assert(a + b == b);
    } else {
        let rest = a.drop_first();
        assert((a + b).drop_first() == rest + b);
        assert((a + b).first() == a.first());
        lemma_up_to_error_concat(rest, b, codes);
        assert(a == seq![a.first()] + rest);
        lemma_has_error_concat(seq![a.first()], rest, codes);
        lemma_has_error_alone(a.first(), codes);
    }
}

proof fn lemma_has_error_alone(effect: Effect, codes: spec_fn(Checkpoint) -> u32)
    ensures
        has_error(seq![effect], codes) == finds_error(effect, codes),
{
    if finds_error(effect, codes) {
        assert(finds_error(seq![effect][0], codes));
    }
}

proof fn lemma_clean(effects: Seq<Effect>, codes: spec_fn(Checkpoint) -> u32)
    requires
        !has_error(effects, codes),
    ensures
        up_to_error(effects, codes) == effects,
{
    let none = Seq::<Effect>::empty();
    lemma_up_to_error_concat(effects, none, codes);
    assert(effects + none == effects);
}

/// Steps are taken up to the first check that finds an error, and that check.
/// Then the process is left with the status 1; without an error it goes on.
pub proof fn steps_stop_at_the_first_error(
    steps: Seq<Step>,
    codes: spec_fn(Checkpoint) -> u32,
)
    ensures
        done(taken(steps, codes)) == up_to_error(done(steps), codes),
        exit_while_taking(steps, codes) == if has_error(done(steps), codes) {
            Some(1i32)
        } else {
            None
        },
        !has_error(done(steps), codes) ==> taken(steps, codes) == steps,
    decreases steps.len(),
{
    if steps.len() == 0 {
        assert(done(steps) == Seq::<Effect>::empty());
        assert(done(taken(steps, codes)) == Seq::<Effect>::empty());
    } else {
        let first = Effect::Do(steps.first());
        let rest = steps.drop_first();
        steps_stop_at_the_first_error(rest, codes);
        assert(done(steps) == seq![first] + done(rest));
        assert(done(steps).drop_first() == done(rest));
        lemma_has_error_concat(seq![first], done(rest), codes);
        lemma_has_error_alone(first, codes);
        if finds_error(first, codes) {
            assert(taken(Seq::<Step>::empty(), codes) == Seq::<Step>::empty());
            assert(taken(steps, codes) == seq![steps.first()]);
            assert(done(taken(steps, codes)) == seq![first]);
        } else {
            assert(taken(steps, codes) == seq![steps.first()] + taken(rest, codes));
            assert(done(taken(steps, codes)) == seq![first] + done(taken(rest, codes)));
            assert(steps == seq![steps.first()] + rest);
        }
    }
}

/// A run with errors is the run without them up to the first check that finds
/// an error, and that check. Then the process is left with the status 1 and
/// nothing follows; without an error the two runs are the same.
pub proof fn run_stops_at_the_first_error(
    next: Next,
    replies: Seq<ReplyView>,
    codes: spec_fn(Checkpoint) -> u32,
)
    ensures
        ({
            let clean = run(next, replies);
            checked_run(next, replies, codes) == (CheckedRun {
                effects: up_to_error(clean.effects, codes),
                outcome: if has_error(clean.effects, codes) {
                    Outcome::Exited(1)
                } else {
                    match clean.end {
                        Next::Ready { renderer } => Outcome::Made(renderer),
                        Next::Ask { .. } => Outcome::Waiting,
                    }
                },
            })
        }),
    decreases replies.len(),
{
    if next is Ask && replies.len() > 0 {
        let turn = next->setup.turn(replies.first());
        let rest = run(turn.next, replies.drop_first()).effects;
        let before = seq![Effect::Ask(next->query, replies.first())] + printed(turn.line);
        let steps = done(turn.steps);
        assert(forall|i: int| 0 <= i < before.len() ==> !finds_error(before[i], codes));
        steps_stop_at_the_first_error(turn.steps, codes);
        lemma_has_error_concat(before, steps, codes);
        lemma_has_error_concat(before + steps, rest, codes);
        lemma_up_to_error_concat(before, steps, codes);
        lemma_up_to_error_concat(before + steps, rest, codes);
        if !has_error(steps, codes) {
            lemma_clean(steps, codes);
        }
        run_stops_at_the_first_error(turn.next, replies.drop_first(), codes);
    }
}

/// No check of the setup finds an error.
pub open spec fn setup_is_clean(codes: spec_fn(Checkpoint) -> u32) -> bool {
    &&& codes(Checkpoint::VerticesUploaded) == NO_ERROR
    &&& codes(Checkpoint::ElementBufferBound) == NO_ERROR
    &&& codes(Checkpoint::IndicesUploaded) == NO_ERROR
    &&& codes(Checkpoint::PositionEnabled) == NO_ERROR
    &&& codes(Checkpoint::ColorEnabled) == NO_ERROR
}

proof fn lemma_script_errors(a: Answers, codes: spec_fn(Checkpoint) -> u32)
    ensures
        has_error(a.script(), codes) == !setup_is_clean(codes),
{
    let s1 = a.identify_script();
    let s2 = a.vertex.script(ShaderStage::Vertex);
    let s3 = a.fragment.script(ShaderStage::Fragment);
    let s4 = a.program_script();
    let s5 = a.buffer_script();
    let s6 = a.attribute_script();
    lemma_has_error_concat(s1, s2, codes);
    lemma_has_error_concat(s1 + s2, s3, codes);
    lemma_has_error_concat(s1 + s2 + s3, s4, codes);
    lemma_has_error_concat(s1 + s2 + s3 + s4, s5, codes);
    lemma_has_error_concat(s1 + s2 + s3 + s4 + s5, s6, codes);
    lemma_identify_is_unchecked(a, codes);
    lemma_shader_is_unchecked(a.vertex, ShaderStage::Vertex, codes);
    lemma_shader_is_unchecked(a.fragment, ShaderStage::Fragment, codes);
    assert(!has_error(s4, codes));
    assert(s5.len() == 11);
    assert(s5[5] == Effect::Do(Step::Check(Checkpoint::VerticesUploaded)));
    assert(s5[8] == Effect::Do(Step::Check(Checkpoint::ElementBufferBound)));
    assert(s5[10] == Effect::Do(Step::Check(Checkpoint::IndicesUploaded)));
    assert(s6.len() == 8);
    assert(s6[5] == Effect::Do(Step::Check(Checkpoint::PositionEnabled)));
    assert(s6[7] == Effect::Do(Step::Check(Checkpoint::ColorEnabled)));
}

proof fn lemma_identify_is_unchecked(a: Answers, codes: spec_fn(Checkpoint) -> u32)
    ensures
        !has_error(a.identify_script(), codes),
{
}

proof fn lemma_shader_is_unchecked(
    answers: ShaderAnswers,
    stage: ShaderStage,
    codes: spec_fn(Checkpoint) -> u32,
)
    ensures
        !has_error(answers.script(stage), codes),
{
}

/// Whatever OpenGL answers and reports, the making of a renderer does what
/// [`Answers::script`] says up to the first check that finds an error, and that
/// check, which ends the process with the status 1. The renderer is made if and
/// only if no check finds an error.
pub proof fn setup_stops_at_the_first_error(
    answers: Answers,
    codes: spec_fn(Checkpoint) -> u32,
)
    requires
        answers.wf(),
    ensures
        checked_run(first_turn().next, answers.replies(), codes) == (CheckedRun {
            effects: up_to_error(answers.script(), codes),
            outcome: if setup_is_clean(codes) {
                Outcome::Made(answers.made())
            } else {
                Outcome::Exited(1)
            },
        }),
        setup_is_clean(codes) ==> up_to_error(answers.script(), codes) == answers.script(),
{
    setup_follows_the_script(answers);
    run_stops_at_the_first_error(first_turn().next, answers.replies(), codes);
    lemma_script_errors(answers, codes);
    if setup_is_clean(codes) {
        lemma_clean(answers.script(), codes);
    }
}

} // verus!
