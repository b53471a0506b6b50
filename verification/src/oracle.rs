//! Interpretation of a raw identity-store answer.
//!
//! The store keeps a single-character status flag per record. Its encoding
//! is confined to this module: the rest of the library only ever sees an
//! `ActivationState`.

use vstd::prelude::*;

use crate::state::ActivationState;

verus! {

/// What one lookup against the identity store produced, before
/// interpretation: the record's status flag, no record at all, or a failure
/// of the query itself.
pub enum RawLookup {
    Found(String),
    Missing,
    QueryFailed,
}

/// The status flag the store writes for an active account.
pub open spec fn active_flag() -> Seq<char> {
    "T"@
}

/// The `ActivationState` a raw answer denotes: an account is active exactly
/// when its record carries the active flag; any other flag is a confirmed
/// inactive account; an absent record and a failed query both leave the
/// state unknown.
pub open spec fn lookup_state(raw: RawLookup) -> ActivationState {
    match raw {
        RawLookup::Found(flag) => if flag@ == active_flag() {
            ActivationState::Active
        } else {
            ActivationState::Inactive
        },
        RawLookup::Missing => ActivationState::Unknown,
        RawLookup::QueryFailed => ActivationState::Unknown,
    }
}

/// Turns a raw identity-store answer into the state it denotes. Every
/// failure mode collapses into `Unknown`, so the reconciler has a total
/// function to call.
pub fn interpret_lookup(raw: &RawLookup) -> (s: ActivationState)
    ensures
        s == lookup_state(*raw),
{
    match raw {
        RawLookup::Found(flag) => {
            let active = String::from_str("T");
            if *flag == active {
                ActivationState::Active
            } else {
                ActivationState::Inactive
            }
        },
        RawLookup::Missing => ActivationState::Unknown,
        RawLookup::QueryFailed => ActivationState::Unknown,
    }
}

} // verus!
