//! The guarantees the reconciler gives, stated over the run model.
//!
//! Each law speaks of the spec-level transitions that the methods of
//! `Reconciler` are proved to implement, so it holds of every run the
//! executable machine can make.

use vstd::prelude::*;

use crate::model::Action;
use crate::model::RunModel;
use crate::model::action_of;
use crate::model::initial_model;
use crate::model::post_outcome;
use crate::model::pre_outcome;
use crate::state::ActResult;
use crate::state::ActivationState;
use crate::state::DeactivationOutcome;

verus! {

/// A candidate whose pre-check confirms it active, whose request is
/// delivered, and whose post-check confirms it inactive is classified
/// `Deactivated`, and the success counter grows by exactly one.
pub proof fn lemma_confirmed_deactivation_counts(m: RunModel)
    requires
        m.wf(),
        m.phase is Ready,
        m.idx < m.total(),
    ensures
        pre_outcome(ActivationState::Active) is None,
        post_outcome(ActivationState::Inactive) == DeactivationOutcome::Deactivated,
        ({
            let done = m.pre_step(ActivationState::Active).act_step(ActResult::Delivered).post_step(
                ActivationState::Inactive,
            );
            done.deactivated == m.deactivated + 1 && done.idx == m.idx + 1 && done.wf()
        }),
{
}

/// A candidate whose pre-check reports it already inactive is classified
/// `AlreadyInactive` and skipped: the machine stays ready, never asks for a
/// deactivation request, and the success counter is unchanged.
pub proof fn lemma_already_inactive_skips(m: RunModel)
    requires
        m.wf(),
        m.phase is Ready,
        m.idx < m.total(),
    ensures
        pre_outcome(ActivationState::Inactive) == Some(DeactivationOutcome::AlreadyInactive),
        m.pre_step(ActivationState::Inactive).phase is Ready,
        !(action_of(m.pre_step(ActivationState::Inactive)) is Deactivate),
        m.pre_step(ActivationState::Inactive).deactivated == m.deactivated,
        m.pre_step(ActivationState::Inactive).idx == m.idx + 1,
        m.pre_step(ActivationState::Inactive).wf(),
{
}

/// A candidate whose pre-check leaves its state unknown is skipped the same
/// way: no deactivation request is ever asked for, and the candidate is
/// reported as one that could not be disabled.
pub proof fn lemma_unknown_skips(m: RunModel)
    requires
        m.wf(),
        m.phase is Ready,
        m.idx < m.total(),
    ensures
        pre_outcome(ActivationState::Unknown) == Some(DeactivationOutcome::RequestFailed),
        m.pre_step(ActivationState::Unknown).phase is Ready,
        !(action_of(m.pre_step(ActivationState::Unknown)) is Deactivate),
        m.pre_step(ActivationState::Unknown).deactivated == m.deactivated,
        m.pre_step(ActivationState::Unknown).idx == m.idx + 1,
        m.pre_step(ActivationState::Unknown).wf(),
{
}

/// A delivered request whose post-check still reports the account active or
/// unknown is classified `Unconfirmed`: the success counter is unchanged,
/// and the machine moves on to the next candidate.
pub proof fn lemma_unconfirmed_does_not_count(m: RunModel, s: ActivationState)
    requires
        m.wf(),
        m.phase is Confirming,
        !(s is Inactive),
    ensures
        post_outcome(s) == DeactivationOutcome::Unconfirmed,
        m.post_step(s).deactivated == m.deactivated,
        m.post_step(s).idx == m.idx + 1,
        m.post_step(s).phase is Ready,
        m.post_step(s).wf(),
{
}

/// A transport error on any deactivation request aborts the whole run: the
/// only action left is `Halt`, so no later candidate is evaluated, and the
/// run never completes, so no summary is produced.
pub proof fn lemma_transport_error_halts(m: RunModel)
    requires
        m.wf(),
        m.phase is Acting,
    ensures
        m.act_step(ActResult::TransportError).phase is Aborted,
        action_of(m.act_step(ActResult::TransportError)) == Action::Halt,
        !m.act_step(ActResult::TransportError).complete(),
        m.act_step(ActResult::TransportError).wf(),
{
}

/// The run that a sequence of identity-store answers alone produces: each
/// answer is fed to whichever check the machine is waiting on, and no
/// deactivation request intervenes.
pub open spec fn run_lookups(m: RunModel, states: Seq<ActivationState>) -> RunModel
    decreases states.len(),
{
    if states.len() == 0 {
        m
    } else {
        run_lookups(m.lookup_step(states[0]), states.skip(1))
    }
}

/// Along the run that `states` produces from `m`, no state ever asks the
/// driver for a deactivation request.
pub open spec fn never_requests_deactivation(m: RunModel, states: Seq<ActivationState>) -> bool
    decreases states.len(),
{
    &&& !(action_of(m) is Deactivate)
    &&& states.len() > 0 ==> never_requests_deactivation(m.lookup_step(states[0]), states.skip(1))
}

/// A ready machine fed nothing but `Inactive` pre-check answers skips every
/// one of them: it stays ready, counts no success, never asks for a
/// deactivation request, and advances one candidate per answer.
pub proof fn lemma_all_inactive_run(m: RunModel, states: Seq<ActivationState>)
    requires
        m.wf(),
        m.phase is Ready,
        m.idx + states.len() <= m.total(),
        forall|i: int| 0 <= i < states.len() ==> states[i] is Inactive,
    ensures
        run_lookups(m, states).wf(),
        run_lookups(m, states).phase is Ready,
        run_lookups(m, states).idx == m.idx + states.len(),
        run_lookups(m, states).deactivated == m.deactivated,
        run_lookups(m, states).candidates == m.candidates,
        never_requests_deactivation(m, states),
    decreases states.len(),
{
    if states.len() > 0 {
        lemma_all_inactive_run(m.lookup_step(states[0]), states.skip(1));
    }
}

/// Idempotence of a whole run: against a list where every candidate is
/// already inactive, the run completes with a summary of zero deactivations
/// out of the full candidate count, and performs zero write calls.
pub proof fn lemma_rerun_on_inactive_list(
    candidates: Seq<Seq<char>>,
    states: Seq<ActivationState>,
)
    requires
        states.len() == candidates.len(),
        forall|i: int| 0 <= i < states.len() ==> states[i] is Inactive,
    ensures
        never_requests_deactivation(initial_model(candidates), states),
        run_lookups(initial_model(candidates), states).complete(),
        run_lookups(initial_model(candidates), states).deactivated == 0,
        run_lookups(initial_model(candidates), states).total() == candidates.len(),
        action_of(run_lookups(initial_model(candidates), states)) == Action::Report,
{
    lemma_all_inactive_run(initial_model(candidates), states);
}

} // verus!
