//! Taking steps one after the other, as long as OpenGL reports no error.
use crate::gl::{Step, NO_ERROR};
use crate::report::{exit_status, get_error, report_line, ErrorReport};
use vstd::pervasive::unreached;
use vstd::prelude::*;

verus! {

/// Steps that are being taken. Its view is the steps that are left.
#[derive(Debug)]
pub struct Playback {
    steps: Vec<Step>,
    taken: usize,
}

impl View for Playback {
    type V = Seq<Step>;

    closed spec fn view(&self) -> Seq<Step> {
        self.steps@.skip(self.taken as int)
    }
}

/// The steps that are left once the first, a check, has found `code`: none
/// after an error.
pub open spec fn left_after_check(left: Seq<Step>, code: u32) -> Seq<Step> {
    if code == NO_ERROR {
        left.drop_first()
    } else {
        seq![]
    }
}

impl Playback {
    /// No more steps have been taken than there are.
    pub closed spec fn wf(self) -> bool {
        self.taken <= self.steps@.len()
    }

    /// None of the steps has been taken.
    pub fn new(steps: Vec<Step>) -> (playback: Playback)
        ensures
            playback.wf(),
            playback@ == steps@,
    {
        Playback { steps, taken: 0 }
    }

    /// The step to take, if one is left.
    pub fn next(&self) -> (step: Option<Step>)
        requires
            self.wf(),
        ensures
            step == if self@.len() == 0 {
                None
            } else {
                Some(self@.first())
            },
    {
        if self.taken < self.steps.len() {
            Some(self.steps[self.taken])
        } else {
            None
        }
    }

    /// The call that was to be made has been made.
    pub fn called(&mut self)
        requires
            old(self).wf(),
            old(self)@.len() > 0,
            old(self)@.first() is Call,
        ensures
            final(self).wf(),
            final(self)@ == old(self)@.drop_first(),
    {
        assert(self.taken < self.steps.len());
        self.taken = self.taken + 1;
    }

    /// The error that was to be looked for is `code`. It is reported, and any
    /// error is the end: no step is left then.
    pub fn checked(&mut self, code: u32) -> (report: ErrorReport)
        requires
            old(self).wf(),
            old(self)@.len() > 0,
            old(self)@.first() is Check,
        ensures
            final(self).wf(),
            final(self)@ == left_after_check(old(self)@, code),
            report.line@ == report_line(old(self)@.first()->Check_0.spec_message(), code),
            report.exit == exit_status(code),
    {
        assert(self.taken < self.steps.len());
        let message = match self.steps[self.taken] {
            Step::Check(checkpoint) => checkpoint.message(),
            Step::Call(_) => unreached(),
        };
        let report = get_error(message, code);
        if report.exit.is_none() {
            self.taken = self.taken + 1;
        } else {
            self.taken = self.steps.len();
        }
        report
    }
}

/// A check that finds no error is followed by the step after it, and one that
/// finds an error by none.
pub proof fn error_leaves_no_step(left: Seq<Step>, code: u32)
    requires
        left.len() > 0,
    ensures
        code == 0 ==> left_after_check(left, code).len() == left.len() - 1,
        code == 0 ==> forall|i: int|
            0 <= i < left.len() - 1 ==> #[trigger] left_after_check(left, code)[i] == left[i + 1],
        code != 0 ==> left_after_check(left, code).len() == 0,
{
}

} // verus!
