//! The reconciler: the executable verify-act-verify state machine.
//!
//! The reconciler holds no connection of its own. Its driver repeatedly asks
//! `next_action` what to do, performs the lookup or the deactivation request
//! against the real systems, and feeds the answer back through `on_lookup`
//! or `on_act`. When the action is `Report` the run is complete and
//! `summary` gives the totals; when it is `Halt` a transport error ended
//! the run and no summary exists.

use vstd::prelude::*;

use crate::model::Action;
use crate::model::Phase;
use crate::model::RunModel;
use crate::model::action_of;
use crate::model::initial_model;
use crate::model::lookup_outcome;
use crate::state::ActResult;
use crate::state::ActivationState;
use crate::state::DeactivationOutcome;
use crate::state::RunSummary;

verus! {

/// One reconciliation run over an ordered candidate list.
pub struct Reconciler {
    candidates: Vec<String>,
    idx: usize,
    deactivated: usize,
    phase: Phase,
}

impl View for Reconciler {
    type V = RunModel;

    closed spec fn view(&self) -> RunModel {
        RunModel {
            candidates: self.candidates.deep_view(),
            idx: self.idx as nat,
            deactivated: self.deactivated as nat,
            phase: self.phase,
        }
    }
}

impl Reconciler {
    /// Starts a run over the given candidates, in their order.
    pub fn new(candidates: Vec<String>) -> (r: Reconciler)
        ensures
            r@ == initial_model(candidates.deep_view()),
            r@.wf(),
    {
        Reconciler { candidates, idx: 0, deactivated: 0, phase: Phase::Ready }
    }

    /// How many candidates the run covers.
    pub fn total(&self) -> (n: usize)
        ensures
            n == self@.total(),
    {
        self.candidates.len()
    }

    /// The name of candidate `i`.
    pub fn candidate(&self, i: usize) -> (name: &String)
        requires
            i < self@.total(),
        ensures
            name@ == self@.candidates[i as int],
    {
        &self.candidates[i]
    }

    /// What the driver must do next.
    pub fn next_action(&self) -> (a: Action)
        requires
            self@.wf(),
        ensures
            a == action_of(self@),
    {
        match self.phase {
            Phase::Ready => if self.idx < self.candidates.len() {
                Action::Lookup(self.idx)
            } else {
                Action::Report
            },
            Phase::Acting => Action::Deactivate(self.idx),
            Phase::Confirming => Action::Lookup(self.idx),
            Phase::Aborted => Action::Halt,
        }
    }

    /// Feeds back one identity-store answer, for whichever check
    /// `next_action` asked for, and returns the candidate's terminal
    /// classification if this answer settles it: on the pre-check, `None`
    /// proceeds to the deactivation request, `AlreadyInactive` and
    /// `RequestFailed` skip the candidate; on the post-check, `Deactivated`
    /// counts the success and `Unconfirmed` does not.
    pub fn on_lookup(&mut self, state: ActivationState) -> (outcome: Option<DeactivationOutcome>)
        requires
            old(self)@.wf(),
            action_of(old(self)@) is Lookup,
        ensures
            final(self)@ == old(self)@.lookup_step(state),
            outcome == lookup_outcome(old(self)@, state),
            final(self)@.wf(),
    {
        proof {
            // The index stays within the candidate list, whose length is a
            // usize, so the increments below cannot overflow.
            broadcast use vstd::std_specs::vec::group_vec_axioms;

            assert(vstd::std_specs::vec::spec_vec_len(&self.candidates)
                == self.candidates@.len());
        }
        let at_pre_check = match self.phase {
            Phase::Ready => true,
            _ => false,
        };
        if at_pre_check {
            match state {
                ActivationState::Active => {
                    self.phase = Phase::Acting;
                    None
                },
                ActivationState::Inactive => {
                    self.idx = self.idx + 1;
                    Some(DeactivationOutcome::AlreadyInactive)
                },
                ActivationState::Unknown => {
                    self.idx = self.idx + 1;
                    Some(DeactivationOutcome::RequestFailed)
                },
            }
        } else {
            self.idx = self.idx + 1;
            self.phase = Phase::Ready;
            match state {
                ActivationState::Inactive => {
                    self.deactivated = self.deactivated + 1;
                    Some(DeactivationOutcome::Deactivated)
                },
                _ => Some(DeactivationOutcome::Unconfirmed),
            }
        }
    }

    /// Feeds back the transport result of the deactivation request that
    /// `next_action` asked for. A delivered request moves on to the
    /// confirming post-check; a transport error aborts the run.
    pub fn on_act(&mut self, result: ActResult)
        requires
            old(self)@.wf(),
            action_of(old(self)@) is Deactivate,
        ensures
            final(self)@ == old(self)@.act_step(result),
            final(self)@.wf(),
    {
        match result {
            ActResult::Delivered => {
                self.phase = Phase::Confirming;
            },
            ActResult::TransportError => {
                self.phase = Phase::Aborted;
            },
        }
    }

    /// The run's totals. Only a complete run has a summary: an aborted run
    /// never reaches the `Report` action.
    pub fn summary(&self) -> (s: RunSummary)
        requires
            self@.wf(),
            action_of(self@) is Report,
        ensures
            s.deactivated == self@.deactivated,
            s.total == self@.total(),
    {
        RunSummary { deactivated: self.deactivated, total: self.candidates.len() }
    }
}

} // verus!
