//! A cycle in progress.
//!
//! The host performs the steps of a cycle one at a time and says how each
//! went. A [`Cycle`] hands out the step that is due and decides when the
//! cycle has ended: after the last step, or at the first that failed, which
//! drops the rest.

use vstd::prelude::*;
use crate::cycle::{complete, is_complete, Step};
use crate::event_loop::SurfaceFault;

verus! {

/// The steps of one cycle, how many of them have been performed, and the
/// fault that ended it, if one did.
pub struct Cycle {
    steps: Vec<Step>,
    done: usize,
    fault: Option<SurfaceFault>,
}

impl Cycle {
    #[verifier::type_invariant]
    spec fn inv(self) -> bool {
        self.done <= self.steps@.len() && complete(self.steps@)
    }

    /// The steps of the cycle.
    pub closed spec fn steps(self) -> Seq<Step> {
        self.steps@
    }

    /// How many steps have been performed.
    pub closed spec fn done(self) -> nat {
        self.done as nat
    }

    /// The fault that ended the cycle.
    pub closed spec fn fault(self) -> Option<SurfaceFault> {
        self.fault
    }

    /// The step that is due: the first that has not been performed, unless a
    /// fault has ended the cycle.
    pub open spec fn due(self) -> Option<Step> {
        if self.fault() is None && self.done() < self.steps().len() {
            Some(self.steps()[self.done() as int])
        } else {
            None
        }
    }

    /// How the cycle ended: with the fault of the step that failed, or well
    /// once every step has been performed. `None` while a step is due.
    pub open spec fn ended(self) -> Option<Result<(), SurfaceFault>> {
        match self.fault() {
            Some(fault) => Some(Err(fault)),
            None => if self.done() < self.steps().len() {
                None
            } else {
                Some(Ok(()))
            },
        }
    }

    /// Starts a cycle of the given steps, none of them performed. Only a
    /// complete cycle can be started: steps that are out of order, or that
    /// leave something open, held or mapped, give `None`.
    pub fn start(steps: Vec<Step>) -> (cycle: Option<Cycle>)
        ensures
            cycle is Some <==> complete(steps@),
            cycle matches Some(started) ==> {
                &&& started.steps() == steps@
                &&& started.done() == 0
                &&& started.fault() is None
            },
    {
        if is_complete(&steps) {
            Some(Cycle { steps, done: 0, fault: None })
        } else {
            None
        }
    }

    /// The step to perform now, or `None` once the cycle has ended.
    pub fn pending(&self) -> (step: Option<Step>)
        ensures
            step == self.due(),
    {
        proof {
            use_type_invariant(self);
        }
        if self.fault.is_none() && self.done < self.steps.len() {
            Some(self.steps[self.done])
        } else {
            None
        }
    }

    /// Takes the result of the step that was due. Success makes the next step
    /// due; a fault ends the cycle and drops the steps that are left. Once
    /// the cycle has ended, results change nothing.
    pub fn advance(&mut self, result: Result<(), SurfaceFault>)
        ensures
            final(self).steps() == old(self).steps(),
            complete(final(self).steps()),
            final(self).done() <= final(self).steps().len(),
            old(self).due() is None ==> {
                &&& final(self).done() == old(self).done()
                &&& final(self).fault() == old(self).fault()
            },
            old(self).due() is Some ==> match result {
                Ok(_) => {
                    &&& final(self).done() == old(self).done() + 1
                    &&& final(self).fault() is None
                },
                Err(fault) => {
                    &&& final(self).done() == old(self).done()
                    &&& final(self).fault() == Some(fault)
                },
            },
    {
        proof {
            use_type_invariant(&*self);
        }
        if self.fault.is_none() && self.done < self.steps.len() {
            match result {
                Ok(_) => {
                    self.done = self.done + 1;
                },
                Err(fault) => {
                    self.fault = Some(fault);
                },
            }
        }
    }

    /// How the cycle ended, or `None` while a step is due.
    pub fn outcome(&self) -> (outcome: Option<Result<(), SurfaceFault>>)
        ensures
            outcome == self.ended(),
            outcome is None <==> self.due() is Some,
    {
        proof {
            use_type_invariant(self);
        }
        match self.fault {
            Some(fault) => Some(Err(fault)),
            None => if self.done < self.steps.len() {
                None
            } else {
                Some(Ok(()))
            },
        }
    }
}

} // verus!
