//! A verified payout orchestration core.
//!
//! The library drives a payout through its lifecycle — eligibility check,
//! recipient creation, disbursement-account setup, payout creation and
//! fulfillment — against a pluggable connector, persisting both the payout
//! and its current attempt after every connector call. Storage is an
//! in-memory record store; connector outcomes enter as data, so every
//! decision the orchestrator makes is verified for all possible outcomes.

pub mod api;
pub mod connector;
pub mod payouts;
pub mod error;
pub mod flows;
pub mod keymanager;
pub mod link;
pub mod lists;
pub mod records;
pub mod status;
pub mod store;
pub mod textfmt;
pub mod types;

use vstd::prelude::*;

verus! {

} // verus!
