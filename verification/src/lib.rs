//! Deactivation reconciliation for wiki user accounts.
//!
//! The identity store is the only authority on whether an account is active,
//! and the wiki's administrative interface gives no reliable success signal
//! for a deactivation request. The library therefore drives a
//! verify-act-verify state machine per candidate: check the store, issue the
//! request, and check the store again before counting a success. The caller
//! performs the actual network and database calls and feeds the answers back
//! as events.

pub mod config;
pub mod laws;
pub mod model;
pub mod oracle;
pub mod reconcile;
pub mod state;

pub use config::Config;
pub use config::DBConfig;
pub use model::Action;
pub use model::Phase;
pub use model::RunModel;
pub use oracle::RawLookup;
pub use oracle::interpret_lookup;
pub use reconcile::Reconciler;
pub use state::ActResult;
pub use state::ActivationState;
pub use state::DeactivationOutcome;
pub use state::RunSummary;
