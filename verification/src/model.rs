//! The mathematical model of one reconciliation run.
//!
//! A run walks an ordered candidate list. For the candidate at `idx` the
//! machine is in one of four phases:
//!
//! * `Ready`: the next step is the pre-check lookup for candidate `idx`
//!   (or the run is complete, if `idx` has reached the end of the list);
//! * `Acting`: the pre-check confirmed the candidate active, and the next
//!   step is the deactivation request;
//! * `Confirming`: the request was delivered, and the next step is the
//!   post-check lookup that decides whether it took effect;
//! * `Aborted`: a transport error ended the run; no further step is taken
//!   and no summary is produced.

use vstd::prelude::*;

use crate::state::ActResult;
use crate::state::ActivationState;
use crate::state::DeactivationOutcome;

verus! {

/// The phase of the per-candidate state machine.
#[derive(Clone, Copy, Debug, PartialEq, Eq, Structural)]
pub enum Phase {
    Ready,
    Acting,
    Confirming,
    Aborted,
}

/// What the driver of a run must do next.
///
/// `Lookup(i)` asks the identity store for the state of candidate `i`;
/// `Deactivate(i)` sends the deactivation request for candidate `i`;
/// `Report` says the run is complete and the summary may be read;
/// `Halt` says the run was aborted and nothing further may happen.
#[derive(Clone, Copy, Debug, PartialEq, Eq, Structural)]
pub enum Action {
    Lookup(usize),
    Deactivate(usize),
    Report,
    Halt,
}

/// The abstract state of a run: the candidate names, the index of the
/// candidate currently under consideration, the count of confirmed
/// deactivations, and the phase of the per-candidate machine.
pub ghost struct RunModel {
    pub candidates: Seq<Seq<char>>,
    pub idx: nat,
    pub deactivated: nat,
    pub phase: Phase,
}

impl RunModel {
    /// How many candidates the run covers.
    pub open spec fn total(self) -> nat {
        self.candidates.len()
    }

    /// The states a run can actually be in: the index never passes the end
    /// of the list, at most every visited candidate was deactivated, and the
    /// acting and confirming phases always concern a real candidate.
    pub open spec fn wf(self) -> bool {
        &&& self.idx <= self.total()
        &&& self.deactivated <= self.idx
        &&& (self.phase is Acting || self.phase is Confirming) ==> self.idx < self.total()
    }

    /// The run has visited every candidate and may report its summary.
    pub open spec fn complete(self) -> bool {
        self.phase is Ready && self.idx == self.total()
    }

    /// The pre-check decision: an `Active` candidate moves on to the
    /// deactivation request; anything else is skipped, and the machine is
    /// immediately ready for the next candidate.
    pub open spec fn pre_step(self, s: ActivationState) -> RunModel {
        if s is Active {
            RunModel { phase: Phase::Acting, ..self }
        } else {
            RunModel { idx: self.idx + 1, ..self }
        }
    }

    /// The effect of the deactivation request's transport result: a
    /// delivered request still needs confirmation; a transport error
    /// aborts the whole run.
    pub open spec fn act_step(self, r: ActResult) -> RunModel {
        match r {
            ActResult::Delivered => RunModel { phase: Phase::Confirming, ..self },
            ActResult::TransportError => RunModel { phase: Phase::Aborted, ..self },
        }
    }

    /// The post-check decision: only a confirmed `Inactive` counts as a
    /// deactivation; either way the machine moves to the next candidate.
    pub open spec fn post_step(self, s: ActivationState) -> RunModel {
        if s is Inactive {
            RunModel {
                idx: self.idx + 1,
                deactivated: self.deactivated + 1,
                phase: Phase::Ready,
                ..self
            }
        } else {
            RunModel { idx: self.idx + 1, phase: Phase::Ready, ..self }
        }
    }

    /// The effect of one identity-store answer, whichever check asked for
    /// it: in `Ready` it is the pre-check, in `Confirming` the post-check.
    pub open spec fn lookup_step(self, s: ActivationState) -> RunModel {
        if self.phase is Ready {
            self.pre_step(s)
        } else {
            self.post_step(s)
        }
    }
}

/// The state a run starts in: at the first candidate, nothing deactivated.
pub open spec fn initial_model(candidates: Seq<Seq<char>>) -> RunModel {
    RunModel { candidates: candidates, idx: 0, deactivated: 0, phase: Phase::Ready }
}

/// The next action a run in state `m` asks of its driver.
pub open spec fn action_of(m: RunModel) -> Action {
    match m.phase {
        Phase::Ready => if m.idx < m.total() {
            Action::Lookup(m.idx as usize)
        } else {
            Action::Report
        },
        Phase::Acting => Action::Deactivate(m.idx as usize),
        Phase::Confirming => Action::Lookup(m.idx as usize),
        Phase::Aborted => Action::Halt,
    }
}

/// The terminal classification a pre-check answer gives, if any: `None`
/// means the candidate proceeds to the deactivation request. A candidate
/// whose state is unknown is treated like one that could not be disabled.
pub open spec fn pre_outcome(s: ActivationState) -> Option<DeactivationOutcome> {
    match s {
        ActivationState::Active => None,
        ActivationState::Inactive => Some(DeactivationOutcome::AlreadyInactive),
        ActivationState::Unknown => Some(DeactivationOutcome::RequestFailed),
    }
}

/// The terminal classification the post-check answer gives: only a
/// confirmed `Inactive` is a deactivation; `Active` and `Unknown` both
/// leave the request unconfirmed.
pub open spec fn post_outcome(s: ActivationState) -> DeactivationOutcome {
    if s is Inactive {
        DeactivationOutcome::Deactivated
    } else {
        DeactivationOutcome::Unconfirmed
    }
}

/// The classification one identity-store answer produces in state `m`.
pub open spec fn lookup_outcome(m: RunModel, s: ActivationState) -> Option<DeactivationOutcome> {
    if m.phase is Ready {
        pre_outcome(s)
    } else {
        Some(post_outcome(s))
    }
}

} // verus!
