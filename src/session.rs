use vstd::prelude::*;

use crate::cli::{steps_view, Step, StepModel};

verus! {

/// The progress of carrying out a plan: steps are done one at a time, in
/// order, and the first failure ends the run.
pub struct Session {
    steps: Vec<Step>,
    next: usize,
    failed: bool,
}

impl Session {
    /// The steps of the plan.
    pub closed spec fn plan(&self) -> Seq<StepModel> {
        steps_view(self.steps@)
    }

    /// How many steps have been done.
    pub closed spec fn done(&self) -> nat {
        self.next as nat
    }

    /// Whether a step has failed.
    pub closed spec fn has_failed(&self) -> bool {
        self.failed
    }

    /// The count of steps done never passes the plan's length.
    pub closed spec fn wf(&self) -> bool {
        self.next <= self.steps@.len()
    }

    /// A session on `steps`, with nothing done.
    pub fn new(steps: Vec<Step>) -> (r: Session)
        ensures
            r.wf(),
            r.plan() == steps_view(steps@),
            r.done() == 0,
            !r.has_failed(),
    {
        Session { steps, next: 0, failed: false }
    }

    /// The step to carry out now: none once a step has failed or all are done.
    pub fn pending(&self) -> (r: Option<&Step>)
        requires
            self.wf(),
        ensures
            self.has_failed() || self.done() == self.plan().len() ==> r is None,
            !self.has_failed() && self.done() < self.plan().len() ==> (r matches Some(s) && s@
                == self.plan()[self.done() as int]),
    {
        if self.failed || self.next >= self.steps.len() {
            None
        } else {
            Some(&self.steps[self.next])
        }
    }

    /// Records how the pending step went: on success the next one is pending;
    /// on failure nothing more is.
    pub fn record(&mut self, ok: bool)
        requires
            old(self).wf(),
            !old(self).has_failed(),
            old(self).done() < old(self).plan().len(),
        ensures
            final(self).wf(),
            final(self).plan() == old(self).plan(),
            ok ==> final(self).done() == old(self).done() + 1 && !final(self).has_failed(),
            !ok ==> final(self).done() == old(self).done() && final(self).has_failed(),
    {
        let n: usize = self.steps.len();
        assert(steps_view(self.steps@).len() == n);
        if ok {
            self.next = self.next + 1;
        } else {
            self.failed = true;
        }
    }

    /// Whether every step was carried out.
    pub fn finished(&self) -> (r: bool)
        requires
            self.wf(),
        ensures
            r == (!self.has_failed() && self.done() == self.plan().len()),
    {
        !self.failed && self.next == self.steps.len()
    }
}

} // verus!
