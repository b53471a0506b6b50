//! The value types of the reconciliation workflow.

use vstd::prelude::*;

verus! {

/// What the identity store says about one account.
///
/// `Unknown` covers both a record that is absent and a lookup that failed:
/// neither gives a confirmed state, and only a confirmed `Inactive` may be
/// counted as a successful deactivation.
#[derive(Clone, Copy, Debug, PartialEq, Eq, Structural)]
pub enum ActivationState {
    Active,
    Inactive,
    Unknown,
}

/// The transport-level result of one deactivation request.
///
/// `Delivered` means only that the request reached the administrative
/// interface; it carries no guarantee that the account was deactivated,
/// so a delivered request must be re-verified against the identity store.
#[derive(Clone, Copy, Debug, PartialEq, Eq, Structural)]
pub enum ActResult {
    Delivered,
    TransportError,
}

/// The terminal classification of one candidate.
///
/// `Unconfirmed` is the ambiguous case this design exists to handle: the
/// request was delivered, but the re-check still reports the account as
/// `Active` or `Unknown`.
#[derive(Clone, Copy, Debug, PartialEq, Eq, Structural)]
pub enum DeactivationOutcome {
    Deactivated,
    AlreadyInactive,
    RequestFailed,
    Unconfirmed,
}

/// The aggregate result of one run: how many candidates were confirmed
/// deactivated, out of how many candidates in total.
#[derive(Clone, Copy, Debug, PartialEq, Eq, Structural)]
pub struct RunSummary {
    pub deactivated: usize,
    pub total: usize,
}

} // verus!
